use repo_cache::config::{Format, Parameters, RunError};
use repo_cache::github::{listing, Action, CachedGithub, Event};
use repo_cache::repo::{sort_by_stars, Repo};
use repo_cache::savers::{read_toml, save_toml};
use repo_cache::text::decimal;

fn repo(id: usize, name: &str, description: Option<&str>, stars: usize) -> Repo {
    Repo {
        id,
        url: format!("https://api.github.com/repos/octocat/{}", name),
        name: name.to_string(),
        description: description.map(|d| d.to_string()),
        stargazers_count: stars,
    }
}

fn args(list: &[&str]) -> Vec<String> {
    list.iter().map(|a| a.to_string()).collect()
}

fn params(list: &[&str]) -> Parameters {
    Parameters::from_args(&args(list)).unwrap()
}

fn ids(repos: &[Repo]) -> Vec<usize> {
    repos.iter().map(|r| r.id).collect()
}

#[test]
fn decimal_writes_digits() {
    assert_eq!(decimal(0), "0");
    assert_eq!(decimal(7), "7");
    assert_eq!(decimal(42), "42");
    assert_eq!(decimal(1000), "1000");
    assert_eq!(decimal(usize::MAX), usize::MAX.to_string());
}

#[test]
fn render_with_description() {
    let r = repo(1, "hello", Some("a greeting"), 5);
    assert_eq!(r.render(), "stars: 5\nname: hello\ndesc: a greeting");
}

#[test]
fn render_without_description() {
    let r = repo(1, "hello", None, 12);
    assert_eq!(r.render(), "stars: 12\nname: hello\n");
}

#[test]
fn equality_and_order_go_by_stars_descending() {
    let a = repo(1, "a", None, 5);
    let b = repo(2, "b", Some("x"), 5);
    let c = repo(3, "c", None, 42);
    assert!(a == b);
    assert!(a != c);
    assert!(c < a);
    assert!(a > c);
    assert_eq!(a.partial_cmp(&b), Some(std::cmp::Ordering::Equal));
}

#[test]
fn sort_puts_most_stars_first() {
    let mut v = vec![repo(1, "a", None, 5), repo(2, "b", None, 42), repo(3, "c", None, 17)];
    sort_by_stars(&mut v);
    assert_eq!(ids(&v), vec![2, 3, 1]);
}

#[test]
fn sort_keeps_arrival_order_on_ties() {
    let mut v = vec![
        repo(1, "a", None, 3),
        repo(2, "b", None, 9),
        repo(3, "c", None, 3),
        repo(4, "d", None, 9),
        repo(5, "e", None, 0),
    ];
    sort_by_stars(&mut v);
    assert_eq!(ids(&v), vec![2, 4, 1, 3, 5]);
}

#[test]
fn sort_of_empty_is_empty() {
    let mut v: Vec<Repo> = Vec::new();
    sort_by_stars(&mut v);
    assert!(v.is_empty());
}

#[test]
fn sorted_output_is_non_increasing() {
    let mut v: Vec<Repo> = (0..30).map(|i| repo(i, "r", None, (i * 7919) % 13)).collect();
    sort_by_stars(&mut v);
    assert_eq!(v.len(), 30);
    for w in v.windows(2) {
        assert!(w[0].stargazers_count >= w[1].stargazers_count);
    }
}

#[test]
fn arguments_username_only() {
    let p = params(&["-u", "octocat"]);
    assert_eq!(p.username, "octocat");
    assert!(!p.clear_cache);
    assert!(!p.quiet);
    assert_eq!(p.formats, Format::Json);
}

#[test]
fn arguments_all_flags() {
    let p = params(&["-c", "-f", "toml", "-q", "-u", "someone"]);
    assert_eq!(p.username, "someone");
    assert!(p.clear_cache);
    assert!(p.quiet);
    assert_eq!(p.formats, Format::Toml);
}

#[test]
fn arguments_flag_value_is_consumed() {
    let p = params(&["-u", "-c"]);
    assert_eq!(p.username, "-c");
    assert!(!p.clear_cache);
}

#[test]
fn arguments_unknown_tokens_are_ignored() {
    let p = params(&["extra", "-u", "octocat", "-x"]);
    assert_eq!(p.username, "octocat");
}

#[test]
fn arguments_format_does_not_imply_quiet() {
    let p = params(&["-u", "octocat", "-f", "json"]);
    assert!(!p.quiet);
}

#[test]
fn arguments_unsupported_format_is_usage_error() {
    let r = Parameters::from_args(&args(&["-u", "octocat", "-f", "xml"]));
    assert_eq!(r.unwrap_err(), RunError::Usage);
}

#[test]
fn arguments_missing_username_is_usage_error() {
    assert_eq!(Parameters::from_args(&args(&["-c"])).unwrap_err(), RunError::Usage);
    assert_eq!(Parameters::from_args(&args(&[])).unwrap_err(), RunError::Usage);
}

#[test]
fn arguments_flag_without_value_is_usage_error() {
    assert_eq!(Parameters::from_args(&args(&["-u"])).unwrap_err(), RunError::Usage);
    assert_eq!(Parameters::from_args(&args(&["-u", "a", "-f"])).unwrap_err(), RunError::Usage);
}

#[test]
fn default_parameters() {
    let p = Parameters::default();
    assert_eq!(p.username, "");
    assert_eq!(p.formats, Format::Json);
    assert!(!p.clear_cache && !p.quiet);
}

#[test]
fn extensions_and_paths() {
    assert_eq!(Format::Json.get_ext(), ".json");
    assert_eq!(Format::Toml.get_ext(), ".toml");
    let name = "octocat".to_string();
    assert_eq!(CachedGithub::new(Format::Json).cache_path(&name), "./octocat.json");
    assert_eq!(CachedGithub::new(Format::Toml).cache_path(&name), "./octocat.toml");
    assert_eq!(
        CachedGithub::new(Format::Json).fetch_url(&name),
        "http://api.github.com/users/octocat/repos"
    );
}

#[test]
fn toml_codec_is_not_implemented() {
    assert_eq!(save_toml(&vec![repo(1, "a", None, 1)]).unwrap_err(), RunError::NotImplemented);
    assert_eq!(read_toml(&"x = 1".to_string()).unwrap_err(), RunError::NotImplemented);
    assert_eq!(Format::Toml.codec_ready(), Err(RunError::NotImplemented));
    assert_eq!(Format::Json.codec_ready(), Ok(()));
}

#[test]
fn listing_has_blank_separators() {
    let v = vec![repo(1, "a", Some("first"), 2), repo(2, "b", None, 1)];
    assert_eq!(listing(&v), "stars: 2\nname: a\ndesc: first\n\nstars: 1\nname: b\n\n\n");
    assert_eq!(listing(&Vec::new()), "");
}

#[test]
fn octocat_scenario() {
    let g = CachedGithub::new(Format::Json);
    let p = params(&["-u", "octocat", "-f", "json"]);
    match g.next(&p, Event::Started { exists: false }) {
        Action::Fetch { url } => assert_eq!(url, "http://api.github.com/users/octocat/repos"),
        other => panic!("unexpected {:?}", other),
    }
    let fetched = vec![repo(1, "small", None, 5), repo(2, "big", None, 42)];
    match g.next(&p, Event::Fetched { repos: fetched }) {
        Action::Persist { path, repos, notice, output } => {
            assert_eq!(path, "./octocat.json");
            assert_eq!(ids(&repos), vec![2, 1]);
            assert_eq!(notice, "Results saved as: ./octocat.json\n");
            assert!(output.starts_with("stars: 42\nname: big\n"));
            assert_eq!(output, "stars: 42\nname: big\n\n\nstars: 5\nname: small\n\n\n");
        }
        other => panic!("unexpected {:?}", other),
    }
}

#[test]
fn second_run_reads_the_cache() {
    let g = CachedGithub::new(Format::Json);
    let p = params(&["-u", "octocat"]);
    let fetched = vec![repo(1, "small", None, 5), repo(2, "big", None, 42)];
    let (persisted, first_output) = match g.next(&p, Event::Fetched { repos: fetched }) {
        Action::Persist { repos, output, .. } => (repos, output),
        other => panic!("unexpected {:?}", other),
    };
    match g.next(&p, Event::Started { exists: true }) {
        Action::ReadCache { path } => assert_eq!(path, "./octocat.json"),
        other => panic!("unexpected {:?}", other),
    }
    match g.next(&p, Event::Loaded { repos: persisted.clone() }) {
        Action::Show { repos, output } => {
            assert_eq!(ids(&repos), ids(&persisted));
            assert_eq!(output, first_output);
        }
        other => panic!("unexpected {:?}", other),
    }
}

#[test]
fn cache_hit_is_not_resorted() {
    let g = CachedGithub::new(Format::Json);
    let p = params(&["-u", "octocat"]);
    let stored = vec![repo(1, "a", None, 1), repo(2, "b", None, 9)];
    match g.next(&p, Event::Loaded { repos: stored }) {
        Action::Show { repos, .. } => assert_eq!(ids(&repos), vec![1, 2]),
        other => panic!("unexpected {:?}", other),
    }
}

#[test]
fn clear_cache_forces_refetch() {
    let g = CachedGithub::new(Format::Json);
    let p = params(&["-c", "-u", "octocat"]);
    match g.next(&p, Event::Started { exists: true }) {
        Action::RemoveCache { path } => assert_eq!(path, "./octocat.json"),
        other => panic!("unexpected {:?}", other),
    }
    match g.next(&p, Event::Removed { exists: false }) {
        Action::Fetch { url } => assert_eq!(url, "http://api.github.com/users/octocat/repos"),
        other => panic!("unexpected {:?}", other),
    }
}

#[test]
fn clear_cache_without_file_fetches() {
    let g = CachedGithub::new(Format::Json);
    let p = params(&["-c", "-u", "octocat"]);
    assert!(matches!(g.next(&p, Event::Started { exists: false }), Action::Fetch { .. }));
}

#[test]
fn quiet_prints_nothing_but_still_persists() {
    let g = CachedGithub::new(Format::Json);
    let p = params(&["-q", "-u", "octocat"]);
    let v = vec![repo(1, "a", Some("d"), 3), repo(2, "b", None, 4)];
    match g.next(&p, Event::Fetched { repos: v.clone() }) {
        Action::Persist { repos, output, path, .. } => {
            assert_eq!(output, "");
            assert_eq!(path, "./octocat.json");
            assert_eq!(ids(&repos), vec![2, 1]);
        }
        other => panic!("unexpected {:?}", other),
    }
    match g.next(&p, Event::Loaded { repos: v }) {
        Action::Show { output, .. } => assert_eq!(output, ""),
        other => panic!("unexpected {:?}", other),
    }
}

#[test]
fn toml_run_stops_with_not_implemented() {
    let g = CachedGithub::new(Format::Toml);
    let p = params(&["-u", "octocat", "-f", "toml"]);
    assert!(matches!(
        g.next(&p, Event::Started { exists: true }),
        Action::Abort { error: RunError::NotImplemented }
    ));
    assert!(matches!(
        g.next(&p, Event::Fetched { repos: vec![repo(1, "a", None, 1)] }),
        Action::Abort { error: RunError::NotImplemented }
    ));
    assert!(matches!(g.next(&p, Event::Started { exists: false }), Action::Fetch { .. }));
}

#[test]
fn outside_failures_abort() {
    let g = CachedGithub::new(Format::Json);
    let p = params(&["-u", "octocat"]);
    for e in [RunError::Network, RunError::Io, RunError::Decode] {
        match g.next(&p, Event::Failed { error: e }) {
            Action::Abort { error } => assert_eq!(error, e),
            other => panic!("unexpected {:?}", other),
        }
    }
}
