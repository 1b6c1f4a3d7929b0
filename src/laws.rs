use vstd::prelude::*;
use crate::config::{has_codec, ParametersView};
use crate::github::{cache_path_spec, fetch_url_spec, shown_spec, step_spec, Action, CachedGithub, Event};
use crate::repo::Repo;

verus! {

/// Whatever sequence is fetched, the sequence that is persisted is
/// non-increasing in stars, pair of neighbours by pair of neighbours, holds
/// the fetched repositories, and is the sequence that is displayed.
pub proof fn lemma_fetched_sorted(g: CachedGithub, p: ParametersView, fetched: Vec<Repo>, a: Action)
    requires
        has_codec(g.saver),
        step_spec(g, p, Event::Fetched { repos: fetched }, a),
    ensures
        match a {
            Action::Persist { repos, output, .. } => {
                &&& forall|i: int| 0 <= i < repos@.len() - 1
                    ==> #[trigger] repos@[i].stargazers_count >= repos@[i + 1].stargazers_count
                &&& repos@.to_multiset() == fetched@.to_multiset()
                &&& output@ == shown_spec(p, repos@)
            },
            _ => false,
        },
{
    match a {
        Action::Persist { repos, .. } => {
            assert forall|i: int| 0 <= i < repos@.len() - 1
                implies #[trigger] repos@[i].stargazers_count >= repos@[i + 1].stargazers_count by {
                assert(crate::repo::stands_before(repos@[i], repos@[i + 1]));
            }
        },
        _ => {},
    }
}

/// With clearing asked for, a cache file that is there at the start is
/// removed, never read; once it is gone the listing is fetched.
pub proof fn lemma_clear_forces_fetch(g: CachedGithub, p: ParametersView, first: Action, second: Action)
    requires
        p.clear_cache,
        step_spec(g, p, Event::Started { exists: true }, first),
        step_spec(g, p, Event::Removed { exists: false }, second),
    ensures
        match first {
            Action::RemoveCache { path } => path@ == cache_path_spec(p.username, g.saver),
            _ => false,
        },
        match second {
            Action::Fetch { url } => url@ == fetch_url_spec(p.username),
            _ => false,
        },
{
}

/// When quiet, nothing of the repositories is printed, whether they came
/// from the cache or from the remote; a fetched listing is still persisted.
pub proof fn lemma_quiet_prints_nothing(g: CachedGithub, p: ParametersView, repos: Vec<Repo>, from_cache: Action, from_remote: Action)
    requires
        p.quiet,
        step_spec(g, p, Event::Loaded { repos }, from_cache),
        step_spec(g, p, Event::Fetched { repos }, from_remote),
    ensures
        match from_cache {
            Action::Show { output, .. } => output@.len() == 0,
            _ => false,
        },
        has_codec(g.saver) ==> match from_remote {
            Action::Persist { output, .. } => output@.len() == 0,
            _ => false,
        },
{
}

/// Two runs for the same user and format, without clearing and starting
/// with no cache file: the first fetches and persists; the second reads
/// the file the first wrote, writes nothing, and shows what was persisted,
/// with the same output.
pub proof fn lemma_second_run_reads_cache(
    g: CachedGithub,
    p: ParametersView,
    fetched: Vec<Repo>,
    loaded: Vec<Repo>,
    start1: Action,
    write1: Action,
    start2: Action,
    show2: Action,
)
    requires
        !p.clear_cache,
        has_codec(g.saver),
        step_spec(g, p, Event::Started { exists: false }, start1),
        step_spec(g, p, Event::Fetched { repos: fetched }, write1),
        step_spec(g, p, Event::Started { exists: true }, start2),
        match write1 {
            Action::Persist { repos, .. } => loaded@ == repos@,
            _ => true,
        },
        step_spec(g, p, Event::Loaded { repos: loaded }, show2),
    ensures
        start1 is Fetch,
        match (write1, start2, show2) {
            (
                Action::Persist { path: written, repos: persisted, output: out1, .. },
                Action::ReadCache { path: read },
                Action::Show { repos: shown, output: out2 },
            ) => read@ == written@ && shown@ == persisted@ && out2@ == out1@,
            _ => false,
        },
{
}

} // verus!
