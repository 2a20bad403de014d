use contributor_cache::aggregate::{aggregate, eligible_repositories, sat_add, RepositoryBatch};
use contributor_cache::contributors::{GithubContributor, GithubRepository};

fn record(login: &str, contributions: u32) -> GithubContributor {
    GithubContributor {
        login: login.to_string(),
        avatar_url: format!("https://example.test/{login}.png"),
        contributions,
    }
}

fn batch(repo: &str, records: Vec<GithubContributor>) -> RepositoryBatch {
    RepositoryBatch { repository_name: repo.to_string(), contributors: records }
}

#[test]
fn merge_sums_totals_and_keeps_repo_order() {
    let batches = vec![
        batch("A", vec![record("alice", 5)]),
        batch("B", vec![record("alice", 3)]),
    ];
    let out = aggregate(&batches);
    assert_eq!(out.len(), 1);
    assert_eq!(out[0].username, "alice");
    assert_eq!(out[0].commits, 8);
    assert_eq!(out[0].repositories.len(), 2);
    assert_eq!(out[0].repositories[0].name, "A");
    assert_eq!(out[0].repositories[0].commits, 5);
    assert_eq!(out[0].repositories[1].name, "B");
    assert_eq!(out[0].repositories[1].commits, 3);
}

#[test]
fn aggregate_is_deterministic_on_equal_input() {
    let make = || {
        vec![
            batch("core", vec![record("alice", 5), record("bob", 9), record("carol", 9)]),
            batch("docs", vec![record("bob", 2), record("alice", 1)]),
        ]
    };
    let first = aggregate(&make());
    let second = aggregate(&make());
    assert_eq!(first, second);
}

#[test]
fn aggregate_ranks_by_total_commits_descending() {
    let batches = vec![batch(
        "core",
        vec![record("low", 1), record("high", 50), record("mid", 10)],
    )];
    let out = aggregate(&batches);
    let names: Vec<&str> = out.iter().map(|c| c.username.as_str()).collect();
    assert_eq!(names, vec!["high", "mid", "low"]);
}

#[test]
fn aggregate_keeps_arrival_order_on_ties() {
    let batches = vec![batch(
        "core",
        vec![record("first", 4), record("second", 4), record("third", 4)],
    )];
    let out = aggregate(&batches);
    let names: Vec<&str> = out.iter().map(|c| c.username.as_str()).collect();
    assert_eq!(names, vec!["first", "second", "third"]);
}

#[test]
fn aggregate_ranks_repositories_within_contributor() {
    let batches = vec![
        batch("small", vec![record("alice", 2)]),
        batch("big", vec![record("alice", 40)]),
        batch("mid", vec![record("alice", 7)]),
    ];
    let out = aggregate(&batches);
    assert_eq!(out.len(), 1);
    let repos: Vec<(&str, u32)> =
        out[0].repositories.iter().map(|r| (r.name.as_str(), r.commits)).collect();
    assert_eq!(repos, vec![("big", 40), ("mid", 7), ("small", 2)]);
    assert_eq!(out[0].commits, 49);
}

#[test]
fn denylisted_bots_never_appear() {
    let batches = vec![batch(
        "core",
        vec![
            record("actions-user", 100_000),
            record("alice", 3),
            record("crowdin-bot", 99_999),
        ],
    )];
    let out = aggregate(&batches);
    assert_eq!(out.len(), 1);
    assert_eq!(out[0].username, "alice");
    assert!(out.iter().all(|c| c.username != "actions-user" && c.username != "crowdin-bot"));
}

#[test]
fn usernames_are_a_unique_key() {
    let batches = vec![
        batch("core", vec![record("alice", 5), record("bob", 5)]),
        batch("docs", vec![record("bob", 1), record("alice", 2), record("carol", 7)]),
        batch("web", vec![record("alice", 1)]),
    ];
    let out = aggregate(&batches);
    assert_eq!(out.len(), 3);
    for i in 0..out.len() {
        for j in (i + 1)..out.len() {
            assert_ne!(out[i].username, out[j].username);
        }
    }
    let alice = out.iter().find(|c| c.username == "alice").unwrap();
    assert_eq!(alice.commits, 8);
    assert_eq!(alice.repositories.len(), 3);
}

#[test]
fn aggregate_of_nothing_is_empty() {
    let out = aggregate(&Vec::new());
    assert!(out.is_empty());
}

#[test]
fn totals_saturate_instead_of_wrapping() {
    assert_eq!(sat_add(u32::MAX, 1), u32::MAX);
    assert_eq!(sat_add(u32::MAX - 1, 1), u32::MAX);
    assert_eq!(sat_add(5, 3), 8);
    let batches = vec![
        batch("a", vec![record("alice", u32::MAX)]),
        batch("b", vec![record("alice", 10)]),
    ];
    let out = aggregate(&batches);
    assert_eq!(out[0].commits, u32::MAX);
}

fn repo(name: &str, fork: bool, private: bool) -> GithubRepository {
    GithubRepository { name: name.to_string(), fork, private }
}

#[test]
fn private_and_forked_repositories_are_not_selected() {
    let repos = vec![
        repo("kept", false, false),
        repo("secret", false, true),
        repo("copy", true, false),
        repo("badges", false, false),
        repo("also-kept", false, false),
    ];
    let selected = eligible_repositories(&repos);
    let names: Vec<&str> = selected.iter().map(|r| r.name.as_str()).collect();
    assert_eq!(names, vec!["kept", "also-kept"]);
}
