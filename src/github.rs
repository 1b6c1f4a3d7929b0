use vstd::prelude::*;
use vstd::string::StringExecFns;
use crate::config::{ext_spec, has_codec, Format, Parameters, ParametersView, RunError};
use crate::repo::{render_spec, sort_by_stars, sorted_by_stars, Repo};

verus! {

/// The cache file of a user in a format: `./<username><ext>`, in the working directory.
pub open spec fn cache_path_spec(username: Seq<char>, f: Format) -> Seq<char> {
    "./"@ + username + ext_spec(f)
}

/// The remote listing endpoint of a user's repositories.
pub open spec fn fetch_url_spec(username: Seq<char>) -> Seq<char> {
    "http://api.github.com/users/"@ + username + "/repos"@
}

/// The line that reports where the results were saved.
pub open spec fn notice_spec(path: Seq<char>) -> Seq<char> {
    "Results saved as: "@ + path + "\n"@
}

/// Each repository's rendering followed by a blank separator line, in order.
pub open spec fn listing_spec(s: Seq<Repo>) -> Seq<char>
    decreases s.len(),
{
    if s.len() == 0 {
        Seq::<char>::empty()
    } else {
        listing_spec(s.drop_last()) + render_spec(s.last()) + "\n\n"@
    }
}

/// What reaches standard output for a sequence: nothing when quiet.
pub open spec fn shown_spec(p: ParametersView, s: Seq<Repo>) -> Seq<char> {
    if p.quiet {
        Seq::<char>::empty()
    } else {
        listing_spec(s)
    }
}

/// Writes the listing of a sequence of repositories.
pub fn listing(repos: &Vec<Repo>) -> (r: String)
    ensures
        r@ == listing_spec(repos@),
{
    let mut out = String::new();
    let n = repos.len();
    let mut i: usize = 0;
    while i < n
        invariant
            n == repos@.len(),
            i <= n,
            out@ == listing_spec(repos@.subrange(0, i as int)),
        decreases n - i,
    {
        let r = repos[i].render();
        out.append(r.as_str());
        out.append("\n\n");
        assert(repos@.subrange(0, i as int + 1).drop_last() == repos@.subrange(0, i as int));
        i = i + 1;
    }
    assert(repos@.subrange(0, n as int) == repos@);
    out
}

/// Something that happened outside the library during a run.
#[derive(Debug)]
pub enum Event {
    /// The run began; `exists` tells whether the cache file was there.
    Started { exists: bool },
    /// The cache file was removed; `exists` tells whether it is there now.
    Removed { exists: bool },
    /// The cache file was read and decoded.
    Loaded { repos: Vec<Repo> },
    /// The remote listing was fetched and decoded.
    Fetched { repos: Vec<Repo> },
    /// An outside step failed.
    Failed { error: RunError },
}

/// What the caller is to do next.
#[derive(Debug)]
pub enum Action {
    /// Delete the cache file, then report `Event::Removed`.
    RemoveCache { path: String },
    /// Read and decode the cache file, then report `Event::Loaded`.
    ReadCache { path: String },
    /// Fetch and decode the remote listing, then report `Event::Fetched`.
    Fetch { url: String },
    /// Encode `repos` into the cache file at `path`, print `notice`, then print
    /// `output`; the run is over.
    Persist { path: String, repos: Vec<Repo>, notice: String, output: String },
    /// Print `output`; the run is over.
    Show { repos: Vec<Repo>, output: String },
    /// Stop with `error`.
    Abort { error: RunError },
}

/// Read-through cache over the remote listing, for one format.
#[derive(Debug, Clone, Copy)]
pub struct CachedGithub {
    pub saver: Format,
}

/// The action once the cache file has been tested: read a file that is
/// there, fetch otherwise.
pub open spec fn after_check(g: CachedGithub, p: ParametersView, exists: bool, a: Action) -> bool {
    if exists {
        if has_codec(g.saver) {
            match a {
                Action::ReadCache { path } => path@ == cache_path_spec(p.username, g.saver),
                _ => false,
            }
        } else {
            a == (Action::Abort { error: RunError::NotImplemented })
        }
    } else {
        match a {
            Action::Fetch { url } => url@ == fetch_url_spec(p.username),
            _ => false,
        }
    }
}

/// The action that answers an event: the whole decision logic of a run.
pub open spec fn step_spec(g: CachedGithub, p: ParametersView, e: Event, a: Action) -> bool {
    match e {
        Event::Started { exists } => if p.clear_cache && exists {
            match a {
                Action::RemoveCache { path } => path@ == cache_path_spec(p.username, g.saver),
                _ => false,
            }
        } else {
            after_check(g, p, exists, a)
        },
        Event::Removed { exists } => after_check(g, p, exists, a),
        Event::Loaded { repos } => match a {
            Action::Show { repos: shown, output } => shown@ == repos@ && output@ == shown_spec(p, repos@),
            _ => false,
        },
        Event::Fetched { repos } => if has_codec(g.saver) {
            match a {
                Action::Persist { path, repos: sorted, notice, output } => {
                    &&& path@ == cache_path_spec(p.username, g.saver)
                    &&& sorted_by_stars(sorted@)
                    &&& sorted@.to_multiset() == repos@.to_multiset()
                    &&& notice@ == notice_spec(path@)
                    &&& output@ == shown_spec(p, sorted@)
                },
                _ => false,
            }
        } else {
            a == (Action::Abort { error: RunError::NotImplemented })
        },
        Event::Failed { error } => a == (Action::Abort { error }),
    }
}

impl CachedGithub {
    /// A read-through cache whose file is written in `saver`'s format.
    pub fn new(saver: Format) -> (r: CachedGithub)
        ensures
            r.saver == saver,
    {
        CachedGithub { saver }
    }

    /// The path of the cache file of `username`.
    pub fn cache_path(&self, username: &String) -> (r: String)
        ensures
            r@ == cache_path_spec(username@, self.saver),
    {
        let ext = self.saver.get_ext();
        let mut path = String::from_str("./");
        path.append(username.as_str());
        path.append(ext.as_str());
        path
    }

    /// The endpoint that lists the repositories of `username`.
    pub fn fetch_url(&self, username: &String) -> (r: String)
        ensures
            r@ == fetch_url_spec(username@),
    {
        let mut url = String::from_str("http://api.github.com/users/");
        url.append(username.as_str());
        url.append("/repos");
        url
    }

    fn decide_after_check(&self, params: &Parameters, exists: bool) -> (r: Action)
        ensures
            after_check(*self, params@, exists, r),
    {
        if exists {
            match self.saver.codec_ready() {
                Ok(()) => Action::ReadCache { path: self.cache_path(&params.username) },
                Err(error) => Action::Abort { error },
            }
        } else {
            Action::Fetch { url: self.fetch_url(&params.username) }
        }
    }

    /// Answers an event with the next action. A run starts with
    /// `Event::Started`; a cache file is cleared first when asked, read when
    /// present, and otherwise the listing is fetched, sorted by stars once and
    /// persisted. The output is empty when quiet.
    pub fn next(&self, params: &Parameters, event: Event) -> (r: Action)
        ensures
            step_spec(*self, params@, event, r),
    {
        match event {
            Event::Started { exists } => {
                if params.clear_cache && exists {
                    Action::RemoveCache { path: self.cache_path(&params.username) }
                } else {
                    self.decide_after_check(params, exists)
                }
            },
            Event::Removed { exists } => self.decide_after_check(params, exists),
            Event::Loaded { repos } => {
                let output = if params.quiet { String::new() } else { listing(&repos) };
                Action::Show { repos, output }
            },
            Event::Fetched { repos } => {
                match self.saver.codec_ready() {
                    Ok(()) => {
                        let mut sorted = repos;
                        sort_by_stars(&mut sorted);
                        let path = self.cache_path(&params.username);
                        let mut notice = String::from_str("Results saved as: ");
                        notice.append(path.as_str());
                        notice.append("\n");
                        let output = if params.quiet { String::new() } else { listing(&sorted) };
                        Action::Persist { path, repos: sorted, notice, output }
                    },
                    Err(error) => Action::Abort { error },
                }
            },
            Event::Failed { error } => Action::Abort { error },
        }
    }
}

} // verus!
