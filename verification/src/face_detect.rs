//! Configuration of the face detector that runs as a Python subprocess.

use vstd::prelude::*;
use crate::text::{copy_str, decimal, decimal_str, string_from};

verus! {

/// Face detection model.
#[derive(Debug, Clone, Copy, PartialEq, Eq, Structural)]
pub enum FaceModel {
    /// Histogram of oriented gradients: faster, less accurate.
    Hog,
    /// Convolutional network: slower, more accurate.
    Cnn,
}

pub open spec fn face_model_name(m: FaceModel) -> Seq<char> {
    match m {
        FaceModel::Hog => "hog"@,
        FaceModel::Cnn => "cnn"@,
    }
}

impl FaceModel {
    /// The model's name on the command line.
    pub fn as_str(&self) -> (r: &'static str)
        ensures
            r@ == face_model_name(*self),
    {
        match self {
            FaceModel::Hog => "hog",
            FaceModel::Cnn => "cnn",
        }
    }
}

/// Places where the bridge script is looked for, in order.
pub open spec fn bridge_candidates() -> Seq<Seq<char>> {
    seq![
        "./face_detect_bridge.py"@,
        "./mdc-image/face_detect_bridge.py"@,
        "../mdc-image/face_detect_bridge.py"@,
        "/usr/local/share/mdc/face_detect_bridge.py"@,
    ]
}

/// Face detector settings.
#[derive(Debug, Clone)]
pub struct FaceDetector {
    /// The Python executable.
    pub python_path: String,
    /// The `face_detect_bridge.py` script.
    pub bridge_script: String,
    /// Detection model.
    pub model: FaceModel,
    /// Number of upsampling passes.
    pub upsample: u32,
    /// Debug output.
    pub debug: bool,
}

/// `r` is the candidate at the first position where `exists` holds, or the
/// first candidate when it holds nowhere.
pub open spec fn is_first_existing(candidates: Seq<String>, exists: Seq<bool>, r: Seq<char>) -> bool {
    ||| exists|k: int|
        0 <= k < exists.len() && #[trigger] exists[k] && (forall|j: int| 0 <= j < k ==> !exists[j])
            && r == candidates[k]@
    ||| (forall|j: int| 0 <= j < exists.len() ==> !exists[j]) && r == candidates[0]@
}

/// `r` is the path at the first position where `exists` holds, or the first
/// path when it holds nowhere.
pub open spec fn first_existing(paths: Seq<Seq<char>>, exists: Seq<bool>, r: Seq<char>) -> bool {
    ||| exists|k: int|
        0 <= k < exists.len() && #[trigger] exists[k] && (forall|j: int| 0 <= j < k ==> !exists[j])
            && r == paths[k]
    ||| (forall|j: int| 0 <= j < exists.len() ==> !exists[j]) && r == paths[0]
}

/// Whether a file exists at the path. Its answer depends on the file system
/// at the moment of the call, so nothing is stated of it.
#[verifier::external_body]
pub(crate) fn path_exists(p: &str) -> (r: bool) {
    std::path::Path::new(p).exists()
}

/// The first path of `candidates` for which `exists` holds; the first path
/// when none does.
pub fn pick_existing(candidates: &Vec<String>, exists: &Vec<bool>) -> (r: String)
    requires
        candidates.len() > 0,
        exists.len() == candidates.len(),
    ensures
        is_first_existing(candidates@, exists@, r@),
{
    let mut i: usize = 0;
    while i < candidates.len()
        invariant
            i <= candidates.len(),
            exists.len() == candidates.len(),
            forall|j: int| 0 <= j < i ==> !exists@[j],
        decreases candidates.len() - i,
    {
        if exists[i] {
            return copy_str(candidates[i].as_str());
        }
        i = i + 1;
    }
    copy_str(candidates[0].as_str())
}

impl FaceDetector {
    /// Where the bridge script is: the first of the usual places that
    /// exists, else `./face_detect_bridge.py`. Which places exist is read
    /// from the file system, so the result is stated for the answers read.
    pub fn find_bridge_script() -> (r: String)
        ensures
            exists|i: int| 0 <= i < bridge_candidates().len() && r@ == bridge_candidates()[i],
            exists|f: Seq<bool>| f.len() == bridge_candidates().len() && #[trigger] first_existing(bridge_candidates(), f, r@),
    {
        let candidates: Vec<String> = vec![
            copy_str("./face_detect_bridge.py"),
            copy_str("./mdc-image/face_detect_bridge.py"),
            copy_str("../mdc-image/face_detect_bridge.py"),
            copy_str("/usr/local/share/mdc/face_detect_bridge.py"),
        ];
        let mut exists: Vec<bool> = Vec::new();
        let mut i: usize = 0;
        while i < candidates.len()
            invariant
                i <= candidates.len(),
                exists.len() == i,
                candidates.len() == 4,
            decreases candidates.len() - i,
        {
            exists.push(path_exists(candidates[i].as_str()));
            i = i + 1;
        }
        let r = pick_existing(&candidates, &exists);
        proof {
            assert(candidates@.map_values(|s: String| s@) =~= bridge_candidates());
            if !(forall|j: int| 0 <= j < exists@.len() ==> !exists@[j]) {
                let k = choose|k: int|
                    0 <= k < exists@.len() && #[trigger] exists@[k] && (forall|j: int|
                        0 <= j < k ==> !exists@[j]) && r@ == candidates@[k]@;
                assert(candidates@.map_values(|s: String| s@)[k] == candidates@[k]@);
            } else {
                assert(candidates@.map_values(|s: String| s@)[0] == candidates@[0]@);
            }
            assert(first_existing(bridge_candidates(), exists@, r@));
        }
        r
    }

    /// A detector with `python3`, the HOG model, one upsampling pass and no
    /// debug output.
    pub fn new() -> (r: Self)
        ensures
            r.python_path@ == "python3"@,
            exists|i: int| 0 <= i < bridge_candidates().len() && r.bridge_script@ == bridge_candidates()[i],
            r.model == FaceModel::Hog,
            r.upsample == 1,
            !r.debug,
    {
        FaceDetector {
            python_path: copy_str("python3"),
            bridge_script: Self::find_bridge_script(),
            model: FaceModel::Hog,
            upsample: 1,
            debug: false,
        }
    }

    /// The same detector with another Python executable.
    pub fn python_path(self, path: &str) -> (r: Self)
        ensures
            r.python_path@ == path@,
            r.bridge_script == self.bridge_script,
            r.model == self.model,
            r.upsample == self.upsample,
            r.debug == self.debug,
    {
        FaceDetector { python_path: copy_str(path), ..self }
    }

    /// The same detector with another bridge script.
    pub fn bridge_script(self, path: &str) -> (r: Self)
        ensures
            r.bridge_script@ == path@,
            r.python_path == self.python_path,
            r.model == self.model,
            r.upsample == self.upsample,
            r.debug == self.debug,
    {
        FaceDetector { bridge_script: copy_str(path), ..self }
    }

    /// The same detector with another model.
    pub fn model(self, model: FaceModel) -> (r: Self)
        ensures
            r.model == model,
            r.python_path == self.python_path,
            r.bridge_script == self.bridge_script,
            r.upsample == self.upsample,
            r.debug == self.debug,
    {
        FaceDetector { model, ..self }
    }

    /// The same detector with another upsampling count.
    pub fn upsample(self, count: u32) -> (r: Self)
        ensures
            r.upsample == count,
            r.python_path == self.python_path,
            r.bridge_script == self.bridge_script,
            r.model == self.model,
            r.debug == self.debug,
    {
        FaceDetector { upsample: count, ..self }
    }

    /// The same detector with debug output on or off.
    pub fn debug(self, debug: bool) -> (r: Self)
        ensures
            r.debug == debug,
            r.python_path == self.python_path,
            r.bridge_script == self.bridge_script,
            r.model == self.model,
            r.upsample == self.upsample,
    {
        FaceDetector { debug, ..self }
    }

    /// The arguments handed to Python for one image: the script, the image,
    /// `--model`, the model, `--upsample`, the count.
    pub fn command_args(&self, image_path: &str) -> (r: Vec<String>)
        ensures
            r@.len() == 6,
            r@[0]@ == self.bridge_script@,
            r@[1]@ == image_path@,
            r@[2]@ == "--model"@,
            r@[3]@ == face_model_name(self.model),
            r@[4]@ == "--upsample"@,
            r@[5]@ == decimal(self.upsample as nat),
    {
        let mut args: Vec<String> = Vec::new();
        args.push(copy_str(self.bridge_script.as_str()));
        args.push(copy_str(image_path));
        args.push(copy_str("--model"));
        args.push(copy_str(self.model.as_str()));
        args.push(copy_str("--upsample"));
        args.push(decimal_str(self.upsample as u64));
        args
    }
}

} // verus!
