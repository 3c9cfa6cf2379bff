//! Where a processed movie goes, and the cookie settings read from
//! `config.ini`.

use vstd::prelude::*;
use crate::file_ops::{get_video_extension, sanitize_filename, sanitized, video_extension};
use crate::processor::{
    attributes_of, rendered, suffix_of, FileAttributes, LinkMode, ProcessingMode, Template,
    TemplateFields,
};
use crate::text::{
    chars_of, concat, copy_str, ends_with, find_char, find_str, first_index_of, first_occurrence,
    skip_chars_str, split_on, split_on_str, starts_with, str_ends_with, str_eq, str_starts_with,
    take_chars_str, trim, trim_str, views_of,
};

verus! {

/// Settings of the processing workflow.
#[derive(Debug, Clone)]
pub struct ProcessorConfig {
    /// Processing mode.
    pub mode: ProcessingMode,
    /// How files are placed.
    pub link_mode: LinkMode,
    /// Folder of processed movies.
    pub success_folder: String,
    /// Folder template (`actor/number`).
    pub location_rule: String,
    /// File name template (`number`).
    pub naming_rule: String,
    /// Longest title kept.
    pub max_title_len: usize,
    /// Leave files whose destination exists.
    pub skip_existing: bool,
    /// Download cover images.
    pub download_images: bool,
    /// Write NFO files.
    pub create_nfo: bool,
    /// Move subtitles along.
    pub move_subtitles: bool,
}

impl Default for ProcessorConfig {
    fn default() -> (r: Self)
        ensures
            r.mode == ProcessingMode::Scraping,
            r.link_mode == LinkMode::Move,
            r.success_folder@ == "./output"@,
            r.location_rule@ == "actor/year/number-title"@,
            r.naming_rule@ == "number-title"@,
            r.max_title_len == 50,
            !r.skip_existing,
            r.download_images,
            r.create_nfo,
            r.move_subtitles,
    {
        ProcessorConfig {
            mode: ProcessingMode::Scraping,
            link_mode: LinkMode::Move,
            success_folder: copy_str("./output"),
            location_rule: copy_str("actor/year/number-title"),
            naming_rule: copy_str("number-title"),
            max_title_len: 50,
            skip_existing: false,
            download_images: true,
            create_nfo: true,
            move_subtitles: true,
        }
    }
}

/// `Path::join` of a relative component without separators: the component
/// alone after an empty path, else after the path and one `/`.
pub open spec fn joined(base: Seq<char>, comp: Seq<char>) -> Seq<char> {
    if base.len() == 0 {
        comp
    } else if ends_with(base, "/"@) {
        base + comp
    } else {
        base + "/"@ + comp
    }
}

pub(crate) fn join_path(base: &str, comp: &str) -> (r: String)
    ensures
        r@ == joined(base@, comp@),
{
    if base.is_empty() {
        copy_str(comp)
    } else if str_ends_with(base, "/") {
        concat(base, comp)
    } else {
        crate::text::concat3(base, "/", comp)
    }
}

/// The folder after each sanitized, non-empty component is joined.
pub open spec fn folder_of(base: Seq<char>, comps: Seq<Seq<char>>) -> Seq<char>
    decreases comps.len(),
{
    if comps.len() == 0 {
        base
    } else {
        let f = folder_of(base, comps.drop_last());
        let c = sanitized(comps.last());
        if c.len() > 0 {
            joined(f, c)
        } else {
            f
        }
    }
}

/// One movie file on its way through the workflow.
#[derive(Debug, Clone)]
pub struct ProcessingContext {
    /// The movie file.
    pub movie_path: String,
    /// Its number.
    pub number: String,
    /// Its metadata, as templates read it.
    pub metadata: TemplateFields,
    /// Attributes read from its path.
    pub attributes: FileAttributes,
    /// Settings.
    pub config: ProcessorConfig,
}

/// The destination folder: the location rule rendered, split at `/`, each
/// part sanitized and the non-empty ones joined under the success folder.
pub open spec fn destination_folder(c: ProcessingContext) -> Seq<char> {
    folder_of(
        c.config.success_folder@,
        split_on(rendered(c.config.location_rule@, c.metadata.entries@), '/'),
    )
}

/// The destination file name without extension: the naming rule rendered,
/// the attribute suffix and, for a multi-part movie, the part appended, then
/// sanitized.
pub open spec fn destination_base(c: ProcessingContext) -> Seq<char> {
    let a = c.attributes@;
    let with_suffix = rendered(c.config.naming_rule@, c.metadata.entries@) + suffix_of(a);
    sanitized(
        if a.multi_part && a.part.len() > 0 {
            with_suffix + a.part
        } else {
            with_suffix
        },
    )
}

impl ProcessingContext {
    /// The context of a movie file, with the attributes read from its path.
    pub fn new(
        movie_path: String,
        number: String,
        metadata: TemplateFields,
        config: ProcessorConfig,
    ) -> (r: Self)
        ensures
            r.movie_path == movie_path,
            r.number == number,
            r.metadata == metadata,
            r.attributes@ == attributes_of(movie_path@),
            r.config == config,
    {
        let attributes = FileAttributes::from_path(movie_path.as_str());
        ProcessingContext { movie_path, number, metadata, attributes, config }
    }

    /// The folder the movie goes to.
    pub fn get_destination_folder(&self) -> (r: String)
        ensures
            r@ == destination_folder(*self),
    {
        let template = Template::new(self.config.location_rule.as_str());
        let location = template.render(&self.metadata);
        let parts = split_on_str(location.as_str(), '/');
        let mut dest = copy_str(self.config.success_folder.as_str());
        let mut i: usize = 0;
        while i < parts.len()
            invariant
                i <= parts.len(),
                views_of(parts@) == split_on(
                    rendered(self.config.location_rule@, self.metadata.entries@),
                    '/',
                ),
                dest@ == folder_of(self.config.success_folder@, views_of(parts@).take(i as int)),
            decreases parts.len() - i,
        {
            proof {
                assert(views_of(parts@).take(i + 1).drop_last() =~= views_of(parts@).take(i as int));
                assert(views_of(parts@).take(i + 1).last() == parts@[i as int]@);
            }
            let c = sanitize_filename(parts[i].as_str());
            if !c.as_str().is_empty() {
                dest = join_path(dest.as_str(), c.as_str());
            }
            i = i + 1;
        }
        assert(views_of(parts@).take(parts.len() as int) =~= views_of(parts@));
        dest
    }

    /// The file name of the movie, without extension.
    pub fn get_destination_filename_base(&self) -> (r: String)
        ensures
            r@ == destination_base(*self),
    {
        let template = Template::new(self.config.naming_rule.as_str());
        let base = template.render(&self.metadata);
        let suffix = self.attributes.get_suffix();
        let with_suffix = concat(base.as_str(), suffix.as_str());
        let full = if self.attributes.multi_part && !self.attributes.part.as_str().is_empty() {
            concat(with_suffix.as_str(), self.attributes.part.as_str())
        } else {
            with_suffix
        };
        sanitize_filename(full.as_str())
    }

    /// The full destination of the movie: folder, name and the original
    /// extension (`.mp4` when it has none).
    pub fn get_destination_path(&self) -> (r: String)
        ensures
            r@ == joined(destination_folder(*self), destination_base(*self) + video_extension(
                self.movie_path@,
            )),
    {
        let folder = self.get_destination_folder();
        let base = self.get_destination_filename_base();
        let ext = get_video_extension(self.movie_path.as_str());
        let name = concat(base.as_str(), ext.as_str());
        join_path(folder.as_str(), name.as_str())
    }
}

// ---------------------------------------------------------------------------
// Cookies in config.ini
// ---------------------------------------------------------------------------

/// `s` without all leading repetitions of `p`.
pub open spec fn strip_prefix_all(s: Seq<char>, p: Seq<char>) -> Seq<char>
    decreases s.len(),
{
    if p.len() > 0 && starts_with(s, p) {
        strip_prefix_all(s.skip(p.len() as int), p)
    } else {
        s
    }
}

/// The text after the first `[cookies]`, up to the next `[cookies]`.
#[verifier::opaque]
pub open spec fn cookies_section(content: Seq<char>) -> Option<Seq<char>> {
    match first_occurrence(content, "[cookies]"@) {
        Some(i) => {
            let rest = content.skip(i + 9);
            match first_occurrence(rest, "[cookies]"@) {
                Some(j) => Some(rest.take(j)),
                None => Some(rest),
            }
        },
        None => None,
    }
}

/// The cookie value a line gives the domain, if the line is `key = value`
/// with the key naming the domain (with or without leading `www.`).
pub open spec fn line_cookie(line: Seq<char>, domain: Seq<char>) -> Option<Seq<char>> {
    match first_index_of(line, '=') {
        Some(k) => {
            let key = trim(line.take(k));
            if key == domain || key == strip_prefix_all(domain, "www."@) {
                Some(trim(line.skip(k + 1)))
            } else {
                None
            }
        },
        None => None,
    }
}

/// Reading the section's lines in order: the first trimmed line that is
/// empty or opens a new section ends the search; otherwise the first line
/// that gives the domain a cookie does.
pub open spec fn cookie_in_lines(lines: Seq<Seq<char>>, domain: Seq<char>) -> Option<Seq<char>>
    decreases lines.len(),
{
    if lines.len() == 0 {
        None
    } else {
        let t = trim(lines[0]);
        if t.len() == 0 || starts_with(t, "["@) {
            None
        } else {
            match line_cookie(t, domain) {
                Some(v) => Some(v),
                None => cookie_in_lines(lines.skip(1), domain),
            }
        }
    }
}

/// The cookie header that a `config.ini` text gives a domain.
pub open spec fn config_cookie(content: Seq<char>, domain: Seq<char>) -> Option<Seq<char>> {
    match cookies_section(content) {
        Some(sec) => cookie_in_lines(split_on(sec, '\n'), domain),
        None => None,
    }
}

fn strip_www(domain: &str) -> (r: String)
    ensures
        r@ == strip_prefix_all(domain@, "www."@),
{
    let mut cur = copy_str(domain);
    while str_starts_with(cur.as_str(), "www.")
        invariant
            strip_prefix_all(domain@, "www."@) == strip_prefix_all(cur@, "www."@),
        decreases cur@.len(),
    {
        proof {
            reveal_strlit("www.");
        }
        let next = skip_chars_str(cur.as_str(), 4);
        cur = next;
    }
    cur
}

/// The text from position `i + 9` up to the next `[cookies]`.
pub open spec fn section_after(content: Seq<char>, i: int) -> Seq<char> {
    let rest = content.skip(i + 9);
    match first_occurrence(rest, "[cookies]"@) {
        Some(j) => rest.take(j),
        None => rest,
    }
}

proof fn lemma_section_found(content: Seq<char>, i: int)
    requires
        first_occurrence(content, "[cookies]"@) == Some(i),
    ensures
        cookies_section(content) == Some(section_after(content, i)),
{
    reveal(cookies_section);
}

proof fn lemma_section_missing(content: Seq<char>)
    requires
        !crate::text::contains(content, "[cookies]"@),
    ensures
        cookies_section(content) is None,
{
    reveal(cookies_section);
}

fn section_from(content: &str, i: usize) -> (r: String)
    requires
        i + 9 <= content@.len(),
    ensures
        r@ == section_after(content@, i as int),
{
    let from = skip_chars_str(content, i);
    let rest = skip_chars_str(from.as_str(), 9);
    assert(rest@ =~= content@.skip(i + 9));
    match find_str(rest.as_str(), "[cookies]") {
        Some(j) => take_chars_str(rest.as_str(), j),
        None => rest,
    }
}

fn section_of(content: &str) -> (r: Option<String>)
    ensures
        r matches Some(s) ==> cookies_section(content@) == Some(s@),
        r is None ==> cookies_section(content@) is None,
{
    match find_str(content, "[cookies]") {
        Some(i) => {
            proof {
                reveal_strlit("[cookies]");
                assert(i + 9 <= content@.len());
            }
            let sec = section_from(content, i);
            proof {
                lemma_section_found(content@, i as int);
            }
            Some(sec)
        },
        None => {
            proof {
                lemma_section_missing(content@);
            }
            None
        },
    }
}

fn line_cookie_exec(line: &str, domain: &str, bare: &str) -> (r: Option<String>)
    requires
        bare@ == strip_prefix_all(domain@, "www."@),
    ensures
        r matches Some(v) ==> line_cookie(line@, domain@) == Some(v@),
        r is None ==> line_cookie(line@, domain@) is None,
{
    match find_char(line, '=') {
        Some(k) => {
            let head = take_chars_str(line, k);
            let key = trim_str(head.as_str());
            if str_eq(key.as_str(), domain) || str_eq(key.as_str(), bare) {
                let from = skip_chars_str(line, k);
                let tail = skip_chars_str(from.as_str(), 1);
                assert(tail@ =~= line@.skip(k + 1));
                Some(trim_str(tail.as_str()))
            } else {
                None
            }
        },
        None => None,
    }
}

/// The cookie header for a domain in the text of a `config.ini`: in the
/// `[cookies]` section, the value of the first `key = value` line whose key
/// is the domain or the domain without leading `www.`.
pub fn cookie_in_config(content: &str, domain: &str) -> (r: Option<String>)
    ensures
        r matches Some(v) ==> config_cookie(content@, domain@) == Some(v@),
        r is None ==> config_cookie(content@, domain@) is None,
{
    let section = match section_of(content) {
        Some(s) => s,
        None => {
            return None;
        },
    };
    let bare = strip_www(domain);
    let lines = split_on_str(section.as_str(), '\n');
    let ghost ls = views_of(lines@);
    let mut i: usize = 0;
    assert(ls.skip(0) =~= ls);
    while i < lines.len()
        invariant
            i <= lines.len(),
            ls == views_of(lines@),
            ls == split_on(section@, '\n'),
            bare@ == strip_prefix_all(domain@, "www."@),
            config_cookie(content@, domain@) == cookie_in_lines(ls.skip(i as int), domain@),
        decreases lines.len() - i,
    {
        proof {
            assert(ls.skip(i as int)[0] == lines@[i as int]@);
            assert(ls.skip(i as int).skip(1) =~= ls.skip(i + 1));
        }
        let t = trim_str(lines[i].as_str());
        if t.as_str().is_empty() || str_starts_with(t.as_str(), "[") {
            return None;
        }
        match line_cookie_exec(t.as_str(), domain, bare.as_str()) {
            Some(v) => {
                return Some(v);
            },
            None => {},
        }
        i = i + 1;
    }
    None
}

// ---------------------------------------------------------------------------
// Image downloads
// ---------------------------------------------------------------------------

/// The host of an address, as `url::Url::parse` then `Url::host_str` give it
/// (`None` when it does not parse or has no host).
pub uninterp spec fn url_host(u: Seq<char>) -> Option<Seq<char>>;

/// The scheme of an address, as `url::Url::parse` then `Url::scheme` give it
/// (`None` when it does not parse).
pub uninterp spec fn url_scheme(u: Seq<char>) -> Option<Seq<char>>;

/// `Url::parse` then `Url::host_str`. Trusted: the result is `url_host(u)`.
#[verifier::external_body]
fn host_of(u: &str) -> (r: Option<String>)
    ensures
        match r {
            Some(h) => url_host(u@) == Some(h@),
            None => url_host(u@) is None,
        },
{
    url::Url::parse(u).ok().and_then(|p| p.host_str().map(|h| h.to_string()))
}

/// `Url::parse` then `Url::scheme`. Trusted: the result is `url_scheme(u)`.
#[verifier::external_body]
fn scheme_of(u: &str) -> (r: Option<String>)
    ensures
        match r {
            Some(s) => url_scheme(u@) == Some(s@),
            None => url_scheme(u@) is None,
        },
{
    url::Url::parse(u).ok().map(|p| p.scheme().to_string())
}

/// The domain of an image address, by which its cookies are looked up.
pub fn extract_domain(url: &str) -> (r: Option<String>)
    ensures
        match r {
            Some(h) => url_host(url@) == Some(h@),
            None => url_host(url@) is None,
        },
{
    host_of(url)
}

/// The `Referer` sent with an image request: the address's scheme and host,
/// or `https://www.javbus.com/` when it has none.
pub open spec fn referer_of(url: Seq<char>) -> Seq<char> {
    match url_host(url) {
        Some(h) => match url_scheme(url) {
            Some(s) => s + "://"@ + h + "/"@,
            None => "https://www.javbus.com/"@,
        },
        None => "https://www.javbus.com/"@,
    }
}

/// The `Referer` for an image request (part of `download_image`).
pub fn referer_for(url: &str) -> (r: String)
    ensures
        r@ == referer_of(url@),
{
    match host_of(url) {
        Some(h) => match scheme_of(url) {
            Some(s) => {
                let a = crate::text::concat3(s.as_str(), "://", h.as_str());
                concat(a.as_str(), "/")
            },
            None => copy_str("https://www.javbus.com/"),
        },
        None => copy_str("https://www.javbus.com/"),
    }
}

/// The poster's address: the small cover when there is one, else the cover.
pub open spec fn poster_of(cover: Option<Seq<char>>, cover_small: Option<Seq<char>>) -> Option<Seq<char>> {
    match cover_small {
        Some(s) if s.len() > 0 => Some(s),
        _ => match cover {
            Some(c) if c.len() > 0 => Some(c),
            _ => None,
        },
    }
}

/// The address the poster is downloaded from (the choice of
/// `download_movie_images`).
pub fn poster_url(cover: Option<&str>, cover_small: Option<&str>) -> (r: Option<String>)
    ensures
        match r {
            Some(u) => poster_of(
                match cover {
                    Some(c) => Some(c@),
                    None => None,
                },
                match cover_small {
                    Some(c) => Some(c@),
                    None => None,
                },
            ) == Some(u@),
            None => poster_of(
                match cover {
                    Some(c) => Some(c@),
                    None => None,
                },
                match cover_small {
                    Some(c) => Some(c@),
                    None => None,
                },
            ) is None,
        },
{
    match cover_small {
        Some(s) => {
            if !s.is_empty() {
                return Some(copy_str(s));
            }
        },
        None => {},
    }
    match cover {
        Some(c) => {
            if !c.is_empty() {
                return Some(copy_str(c));
            }
        },
        None => {},
    }
    None
}

/// The poster's file name in the destination folder.
pub fn poster_file_name(base_name: &str) -> (r: String)
    ensures
        r@ == base_name@ + "-poster.jpg"@,
{
    concat(base_name, "-poster.jpg")
}


/// One step of the workflow that runs on a movie once its metadata is known.
#[derive(Debug, Clone, Copy, PartialEq, Eq, Structural)]
pub enum WorkflowStep {
    /// Create the destination folder.
    CreateFolder,
    /// Write the NFO file into the working folder.
    WriteNfo,
    /// Download the poster into the working folder.
    DownloadPoster,
    /// Move or link the movie to its destination.
    PlaceMovie,
    /// Move or link the subtitles beside it.
    MoveSubtitles,
}

/// The NFO and poster steps, as the settings ask for them.
pub open spec fn extras_plan(create_nfo: bool, download_images: bool) -> Seq<WorkflowStep> {
    (if create_nfo { seq![WorkflowStep::WriteNfo] } else { Seq::empty() })
        + (if download_images { seq![WorkflowStep::DownloadPoster] } else { Seq::empty() })
}

/// The steps of each mode. Analysis writes beside the movie and moves nothing;
/// the other modes create the destination folder and stop there when the
/// destination exists and existing files are skipped; Scraping writes the
/// extras before placing the movie, Organizing only places it; subtitles
/// follow the movie when asked.
pub open spec fn workflow_plan(
    mode: ProcessingMode,
    skip_existing: bool,
    create_nfo: bool,
    download_images: bool,
    move_subtitles: bool,
    destination_exists: bool,
) -> Seq<WorkflowStep> {
    match mode {
        ProcessingMode::Analysis => extras_plan(create_nfo, download_images),
        _ => if skip_existing && destination_exists {
            seq![WorkflowStep::CreateFolder]
        } else {
            seq![WorkflowStep::CreateFolder]
                + (if mode == ProcessingMode::Scraping {
                    extras_plan(create_nfo, download_images)
                } else {
                    Seq::empty()
                })
                + seq![WorkflowStep::PlaceMovie]
                + (if move_subtitles { seq![WorkflowStep::MoveSubtitles] } else { Seq::empty() })
        },
    }
}

/// The plan of the workflow under a configuration.
pub open spec fn plan_of(config: ProcessorConfig, destination_exists: bool) -> Seq<WorkflowStep> {
    workflow_plan(
        config.mode,
        config.skip_existing,
        config.create_nfo,
        config.download_images,
        config.move_subtitles,
        destination_exists,
    )
}

fn push_extras(steps: &mut Vec<WorkflowStep>, create_nfo: bool, download_images: bool)
    ensures
        final(steps)@ == old(steps)@ + extras_plan(create_nfo, download_images),
{
    if create_nfo {
        steps.push(WorkflowStep::WriteNfo);
    }
    if download_images {
        steps.push(WorkflowStep::DownloadPoster);
    }
}

/// The steps that the workflow takes on a movie, in order: `destination_exists`
/// tells whether the movie's destination path exists already (read only where
/// the mode and `skip_existing` make it matter).
pub fn workflow_steps(config: &ProcessorConfig, destination_exists: bool) -> (r: Vec<WorkflowStep>)
    ensures
        r@ == plan_of(*config, destination_exists),
{
    let mut steps: Vec<WorkflowStep> = Vec::new();
    match config.mode {
        ProcessingMode::Analysis => {
            push_extras(&mut steps, config.create_nfo, config.download_images);
            assert(steps@ =~= plan_of(*config, destination_exists));
        },
        _ => {
            steps.push(WorkflowStep::CreateFolder);
            if config.skip_existing && destination_exists {
                assert(steps@ =~= plan_of(*config, destination_exists));
                return steps;
            }
            if config.mode == ProcessingMode::Scraping {
                push_extras(&mut steps, config.create_nfo, config.download_images);
            }
            steps.push(WorkflowStep::PlaceMovie);
            if config.move_subtitles {
                steps.push(WorkflowStep::MoveSubtitles);
            }
            assert(steps@ =~= plan_of(*config, destination_exists));
        },
    }
    steps
}

/// Analysis leaves the movie where it is: no folder is created and nothing is
/// moved or linked, whatever the settings.
pub proof fn lemma_analysis_moves_nothing(config: ProcessorConfig, destination_exists: bool)
    requires
        config.mode == ProcessingMode::Analysis,
    ensures
        !plan_of(config, destination_exists).contains(WorkflowStep::PlaceMovie),
        !plan_of(config, destination_exists).contains(WorkflowStep::MoveSubtitles),
        !plan_of(config, destination_exists).contains(WorkflowStep::CreateFolder),
{
    let p = plan_of(config, destination_exists);
    assert(p.len() <= 2);
    assert forall|i: int| 0 <= i < p.len() implies p[i] != WorkflowStep::PlaceMovie
        && p[i] != WorkflowStep::MoveSubtitles && p[i] != WorkflowStep::CreateFolder by {}
}

/// Organizing writes no metadata: no NFO file and no poster, whatever the settings.
pub proof fn lemma_organizing_writes_no_metadata(config: ProcessorConfig, destination_exists: bool)
    requires
        config.mode == ProcessingMode::Organizing,
    ensures
        !plan_of(config, destination_exists).contains(WorkflowStep::WriteNfo),
        !plan_of(config, destination_exists).contains(WorkflowStep::DownloadPoster),
{
    let p = plan_of(config, destination_exists);
    assert forall|i: int| 0 <= i < p.len() implies p[i] != WorkflowStep::WriteNfo
        && p[i] != WorkflowStep::DownloadPoster by {
        if !(config.skip_existing && destination_exists) {
            assert(p =~= seq![WorkflowStep::CreateFolder] + Seq::<WorkflowStep>::empty()
                + seq![WorkflowStep::PlaceMovie]
                + (if config.move_subtitles { seq![WorkflowStep::MoveSubtitles] } else { Seq::empty() }));
        }
    }
}

/// Scraping with NFO files on creates the folder, writes the NFO next and
/// places the movie, unless the destination exists and existing files are
/// skipped.
pub proof fn lemma_scraping_writes_then_places(config: ProcessorConfig, destination_exists: bool)
    requires
        config.mode == ProcessingMode::Scraping,
        config.create_nfo,
        !(config.skip_existing && destination_exists),
    ensures
        plan_of(config, destination_exists)[0] == WorkflowStep::CreateFolder,
        plan_of(config, destination_exists)[1] == WorkflowStep::WriteNfo,
        plan_of(config, destination_exists).contains(WorkflowStep::PlaceMovie),
{
    let p = plan_of(config, destination_exists);
    let k: int = if config.download_images { 3 } else { 2 };
    assert(p[k] == WorkflowStep::PlaceMovie);
}

} // verus!
