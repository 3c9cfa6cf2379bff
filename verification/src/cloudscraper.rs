//! Settings of the CloudFlare bypass that runs as a Python subprocess, and
//! the command line it is given.

use vstd::prelude::*;
use std::time::Duration;
use crate::face_detect::{first_existing, is_first_existing, path_exists, pick_existing};
use crate::http::{duration_as_secs, duration_secs, DEFAULT_TIMEOUT, DEFAULT_USER_AGENT};
use crate::text::{concat3, copy_str, decimal, decimal_str, str_eq};

verus! {

/// Places where the bridge script is looked for, in order.
pub open spec fn cloudflare_bridge_candidates() -> Seq<Seq<char>> {
    seq![
        "./cloudflare_bridge.py"@,
        "./mdc-scraper/cloudflare_bridge.py"@,
        "../mdc-scraper/cloudflare_bridge.py"@,
        "/usr/local/share/mdc/cloudflare_bridge.py"@,
    ]
}

/// CloudScraper bridge settings.
#[derive(Debug, Clone)]
pub struct CloudScraperClient {
    /// The Python executable.
    pub python_path: String,
    /// The `cloudflare_bridge.py` script.
    pub bridge_script: String,
    /// User agent.
    pub user_agent: String,
    /// Timeout in seconds.
    pub timeout: u64,
    /// Proxy URL.
    pub proxy: Option<String>,
    /// Whether certificates are checked.
    pub verify_ssl: bool,
    /// Debug output.
    pub debug: bool,
}

/// `name` `=` or `:` `value` for each pair, each after `flag`.
pub open spec fn flagged_pairs(flag: Seq<char>, sep: Seq<char>, v: Seq<(String, String)>) -> Seq<Seq<char>>
    decreases v.len(),
{
    if v.len() == 0 {
        Seq::empty()
    } else {
        flagged_pairs(flag, sep, v.drop_last()).push(flag).push(v.last().0@ + sep + v.last().1@)
    }
}

/// The bridge's command line for one request.
pub open spec fn request_line(
    c: CloudScraperClient,
    method: Seq<char>,
    url: Seq<char>,
    data: Seq<(String, String)>,
    cookies: Seq<(String, String)>,
    headers: Seq<(String, String)>,
) -> Seq<Seq<char>> {
    seq![
        c.bridge_script@,
        url,
        "--method"@,
        method,
        "--timeout"@,
        decimal(c.timeout as nat),
        "--user-agent"@,
        c.user_agent@,
    ] + match c.proxy {
        Some(p) => seq!["--proxy"@, p@],
        None => Seq::empty(),
    } + (if c.verify_ssl {
        seq!["--verify-ssl"@]
    } else {
        Seq::empty()
    }) + flagged_pairs("--cookie"@, "="@, cookies) + flagged_pairs("--header"@, ":"@, headers) + (
    if method == "POST"@ {
        flagged_pairs("--data"@, "="@, data)
    } else {
        Seq::empty()
    })
}

pub open spec fn views(v: Seq<String>) -> Seq<Seq<char>> {
    v.map_values(|s: String| s@)
}

fn push_flagged(args: &mut Vec<String>, flag: &str, sep: &str, v: &Vec<(String, String)>)
    ensures
        views(final(args)@) == views(old(args)@) + flagged_pairs(flag@, sep@, v@),
{
    let mut i: usize = 0;
    while i < v.len()
        invariant
            i <= v.len(),
            views(args@) == views(old(args)@) + flagged_pairs(flag@, sep@, v@.take(i as int)),
        decreases v.len() - i,
    {
        proof {
            assert(v@.take(i + 1).drop_last() =~= v@.take(i as int));
        }
        let ghost before = args@;
        args.push(copy_str(flag));
        args.push(concat3(v[i].0.as_str(), sep, v[i].1.as_str()));
        i = i + 1;
        proof {
            assert(views(args@) =~= views(before).push(flag@).push(
                v@[i - 1].0@ + sep@ + v@[i - 1].1@,
            ));
            assert(views(args@) =~= views(old(args)@) + flagged_pairs(
                flag@,
                sep@,
                v@.take(i as int),
            ));
        }
    }
    assert(v@.take(v.len() as int) =~= v@);
}

impl CloudScraperClient {
    /// Where the bridge script is: the first of the usual places that
    /// exists, else `./cloudflare_bridge.py`. Which places exist is read
    /// from the file system, so the result is stated for the answers read.
    pub fn find_bridge_script() -> (r: String)
        ensures
            exists|i: int|
                0 <= i < cloudflare_bridge_candidates().len() && r@
                    == cloudflare_bridge_candidates()[i],
            exists|f: Seq<bool>| f.len() == cloudflare_bridge_candidates().len()
                && #[trigger] first_existing(cloudflare_bridge_candidates(), f, r@),
    {
        let candidates: Vec<String> = vec![
            copy_str("./cloudflare_bridge.py"),
            copy_str("./mdc-scraper/cloudflare_bridge.py"),
            copy_str("../mdc-scraper/cloudflare_bridge.py"),
            copy_str("/usr/local/share/mdc/cloudflare_bridge.py"),
        ];
        let mut exists: Vec<bool> = Vec::new();
        let mut i: usize = 0;
        while i < candidates.len()
            invariant
                i <= candidates.len(),
                exists.len() == i,
                candidates.len() == 4,
            decreases candidates.len() - i,
        {
            exists.push(path_exists(candidates[i].as_str()));
            i = i + 1;
        }
        let r = pick_existing(&candidates, &exists);
        proof {
            assert(views(candidates@) =~= cloudflare_bridge_candidates());
            if !(forall|j: int| 0 <= j < exists@.len() ==> !exists@[j]) {
                let k = choose|k: int|
                    0 <= k < exists@.len() && #[trigger] exists@[k] && (forall|j: int|
                        0 <= j < k ==> !exists@[j]) && r@ == candidates@[k]@;
                assert(views(candidates@)[k] == candidates@[k]@);
            } else {
                assert(views(candidates@)[0] == candidates@[0]@);
            }
            assert(first_existing(cloudflare_bridge_candidates(), exists@, r@));
        }
        r
    }

    /// A client with `python3`, the default user agent and timeout, no proxy,
    /// no certificate checks and no debug output.
    pub fn new() -> (r: Self)
        ensures
            r.python_path@ == "python3"@,
            exists|i: int|
                0 <= i < cloudflare_bridge_candidates().len() && r.bridge_script@
                    == cloudflare_bridge_candidates()[i],
            r.user_agent@ == DEFAULT_USER_AGENT@,
            r.timeout == DEFAULT_TIMEOUT,
            r.proxy is None,
            !r.verify_ssl,
            !r.debug,
    {
        CloudScraperClient {
            python_path: copy_str("python3"),
            bridge_script: Self::find_bridge_script(),
            user_agent: copy_str(DEFAULT_USER_AGENT),
            timeout: DEFAULT_TIMEOUT,
            proxy: None,
            verify_ssl: false,
            debug: false,
        }
    }

    /// Sets the Python executable.
    pub fn python_path(self, path: &str) -> (r: Self)
        ensures
            r == (CloudScraperClient { python_path: r.python_path, ..self }),
            r.python_path@ == path@,
    {
        CloudScraperClient { python_path: copy_str(path), ..self }
    }

    /// Sets the bridge script.
    pub fn bridge_script(self, path: &str) -> (r: Self)
        ensures
            r == (CloudScraperClient { bridge_script: r.bridge_script, ..self }),
            r.bridge_script@ == path@,
    {
        CloudScraperClient { bridge_script: copy_str(path), ..self }
    }

    /// Sets the user agent.
    pub fn user_agent(self, ua: &str) -> (r: Self)
        ensures
            r == (CloudScraperClient { user_agent: r.user_agent, ..self }),
            r.user_agent@ == ua@,
    {
        CloudScraperClient { user_agent: copy_str(ua), ..self }
    }

    /// Sets the timeout, in whole seconds.
    pub fn timeout(self, timeout: Duration) -> (r: Self)
        ensures
            r == (CloudScraperClient { timeout: r.timeout, ..self }),
            r.timeout == duration_secs(timeout),
    {
        let secs = duration_as_secs(&timeout);
        CloudScraperClient { timeout: secs, ..self }
    }

    /// Sets the proxy.
    pub fn proxy(self, proxy: &str) -> (r: Self)
        ensures
            r == (CloudScraperClient { proxy: r.proxy, ..self }),
            r.proxy matches Some(p) && p@ == proxy@,
    {
        CloudScraperClient { proxy: Some(copy_str(proxy)), ..self }
    }

    /// Sets certificate checking.
    pub fn verify_ssl(self, verify: bool) -> (r: Self)
        ensures
            r == (CloudScraperClient { verify_ssl: verify, ..self }),
    {
        CloudScraperClient { verify_ssl: verify, ..self }
    }

    /// Sets debug output.
    pub fn debug(self, debug: bool) -> (r: Self)
        ensures
            r == (CloudScraperClient { debug, ..self }),
    {
        CloudScraperClient { debug, ..self }
    }

    /// The arguments handed to Python for one request: script, URL, method,
    /// timeout and user agent, then the proxy, certificate checking, cookies,
    /// headers and, for `POST`, the form data.
    pub fn request_args(
        &self,
        method: &str,
        url: &str,
        data: &Vec<(String, String)>,
        cookies: &Vec<(String, String)>,
        headers: &Vec<(String, String)>,
    ) -> (r: Vec<String>)
        ensures
            views(r@) == request_line(*self, method@, url@, data@, cookies@, headers@),
    {
        let mut args: Vec<String> = Vec::new();
        args.push(copy_str(self.bridge_script.as_str()));
        args.push(copy_str(url));
        args.push(copy_str("--method"));
        args.push(copy_str(method));
        args.push(copy_str("--timeout"));
        args.push(decimal_str(self.timeout));
        args.push(copy_str("--user-agent"));
        args.push(copy_str(self.user_agent.as_str()));
        let ghost a0 = args@;
        match &self.proxy {
            Some(p) => {
                args.push(copy_str("--proxy"));
                args.push(copy_str(p.as_str()));
            },
            None => {},
        }
        if self.verify_ssl {
            args.push(copy_str("--verify-ssl"));
        }
        let ghost a1 = args@;
        proof {
            let head = seq![
                self.bridge_script@,
                url@,
                "--method"@,
                method@,
                "--timeout"@,
                decimal(self.timeout as nat),
                "--user-agent"@,
                self.user_agent@,
            ];
            assert(views(a0) =~= head);
            assert(views(a1) =~= head + match self.proxy {
                Some(p) => seq!["--proxy"@, p@],
                None => Seq::empty(),
            } + (if self.verify_ssl {
                seq!["--verify-ssl"@]
            } else {
                Seq::empty()
            }));
        }
        push_flagged(&mut args, "--cookie", "=", cookies);
        push_flagged(&mut args, "--header", ":", headers);
        let ghost a2 = args@;
        if str_eq(method, "POST") {
            push_flagged(&mut args, "--data", "=", data);
        }
        proof {
            if method@ != "POST"@ {
                assert(views(args@) =~= views(a2) + Seq::<Seq<char>>::empty());
            }
            assert(views(args@) =~= request_line(*self, method@, url@, data@, cookies@, headers@));
        }
        args
    }
}

} // verus!
