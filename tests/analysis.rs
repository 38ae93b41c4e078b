use gh_analyzer::analysis::{default_candidates, Analysis, Envelope, Progress, Request, Stage};
use gh_analyzer::error::{GHError, NetworkFailure};
use gh_analyzer::model::{License, QuotaFields, RepoInfo, RepoStats, StatFields};

fn info(name: &str, stars: u32) -> RepoInfo {
    RepoInfo {
        name: name.to_string(),
        description: None,
        html_url: format!("https://github.com/o/{}", name),
        stargazers_count: stars,
        forks_count: 1,
        created_at: "2020-01-01T00:00:00Z".to_string(),
        updated_at: "2024-01-01T00:00:00Z".to_string(),
        default_branch: "main".to_string(),
        license: Some(License {
            key: "mit".to_string(),
            name: "MIT License".to_string(),
            spdx_id: Some("MIT".to_string()),
        }),
        topics: vec![],
        visibility: "public".to_string(),
    }
}

fn quota(remaining: Option<u64>, reset: Option<u64>) -> Option<QuotaFields> {
    Some(QuotaFields { remaining, reset })
}

fn fields(open_issues: Option<u64>) -> StatFields {
    StatFields {
        open_issues_count: open_issues,
        watchers_count: Some(5),
        network_count: None,
        size: Some(64),
    }
}

fn send(p: Progress) -> (Analysis, Request) {
    match p {
        Progress::Send(a, r) => (a, r),
        other => panic!("expected a request, got {:?}", other),
    }
}

fn failed(p: Progress) -> GHError {
    match p {
        Progress::Failed(e) => e,
        other => panic!("expected a failure, got {:?}", other),
    }
}

fn done(p: Progress) -> gh_analyzer::model::RepoSummary {
    match p {
        Progress::Done(s) => s,
        other => panic!("expected a summary, got {:?}", other),
    }
}

/// Drives an analysis of "o/x" up to its first contents request.
fn up_to_files(candidates: Vec<String>, open_issues: Option<u64>) -> (Analysis, Request) {
    let (a, r) = Analysis::new("o/x".to_string(), candidates);
    assert_eq!(r, Request::RateLimit);
    let (a, r) = send(a.on_quota(200, quota(Some(10), Some(1700000000))));
    assert_eq!(r, Request::Repository);
    let (a, r) = send(a.on_repository(200, Some(info("x", 5)), fields(open_issues)));
    assert_eq!(r, Request::Languages);
    send(a.on_languages(200, Some(vec![("Go".to_string(), 100)])))
}

fn envelope(kind: &str, content: Option<&str>) -> Option<Envelope> {
    Some(Envelope { kind: kind.to_string(), content: content.map(|c| c.to_string()) })
}

#[test]
fn default_candidates_are_the_ten_well_known_files() {
    assert_eq!(
        default_candidates(),
        vec![
            "README.md",
            "CONTRIBUTING.md",
            "LICENSE",
            "setup.py",
            "requirements.txt",
            "Cargo.toml",
            "package.json",
            "go.mod",
            "composer.json",
            "Gemfile",
        ]
    );
}

#[test]
fn all_files_missing_gives_empty_content() {
    let (mut a, mut r) = up_to_files(default_candidates(), None);
    let mut asked = Vec::new();
    loop {
        match r {
            Request::Contents(i) => asked.push(a.candidates[i].clone()),
            other => panic!("unexpected request {:?}", other),
        }
        match a.on_contents(404, None) {
            Progress::Send(b, q) => {
                a = b;
                r = q;
            },
            Progress::Done(s) => {
                assert_eq!(s.repo.name, "x");
                assert_eq!(s.repo.stargazers_count, 5);
                assert_eq!(s.languages, vec![("Go".to_string(), 100)]);
                assert!(s.content.is_empty());
                assert_eq!(s.stats.open_issues_count, 0);
                assert_eq!(
                    s.stats,
                    RepoStats { open_issues_count: 0, watchers_count: 5, network_count: 0, size: 64 }
                );
                break;
            },
            Progress::Failed(e) => panic!("unexpected failure {:?}", e),
        }
    }
    assert_eq!(asked, default_candidates());
}

#[test]
fn open_issues_count_is_kept_when_present() {
    let (a, _) = up_to_files(vec!["README.md".to_string()], Some(12));
    let s = done(a.on_contents(404, None));
    assert_eq!(s.stats.open_issues_count, 12);
}

#[test]
fn exhausted_quota_fails_at_once() {
    let (a, _) = Analysis::new("o/x".to_string(), default_candidates());
    let e = failed(a.on_quota(200, quota(Some(0), Some(1700000000))));
    assert_eq!(e, GHError::RateLimitExceeded { reset: 1700000000 });
    let clock = chrono::DateTime::from_timestamp(1700000000, 0)
        .unwrap()
        .with_timezone(&chrono::Local)
        .format("%H:%M:%S")
        .to_string();
    let message = gh_analyzer::error::rate_limit_message(1700000000);
    assert!(message.contains(&clock));
}

#[test]
fn absent_remaining_counts_as_exhausted() {
    let (a, _) = Analysis::new("o/x".to_string(), default_candidates());
    let e = failed(a.on_quota(200, quota(None, None)));
    assert_eq!(e, GHError::RateLimitExceeded { reset: 0 });
}

#[test]
fn unauthorized_quota_check_needs_auth() {
    let (a, _) = Analysis::new("o/x".to_string(), default_candidates());
    assert_eq!(failed(a.on_quota(401, quota(None, None))), GHError::AuthRequired);
}

#[test]
fn other_quota_status_is_network_error() {
    let (a, _) = Analysis::new("o/x".to_string(), default_candidates());
    assert_eq!(
        failed(a.on_quota(500, quota(Some(10), Some(1)))),
        GHError::NetworkError(NetworkFailure::Status(500))
    );
}

#[test]
fn missing_repository_is_not_found() {
    let (a, _) = Analysis::new("o/missing".to_string(), default_candidates());
    let (a, _) = send(a.on_quota(200, quota(Some(10), Some(0))));
    let e = failed(a.on_repository(404, None, fields(None)));
    assert_eq!(e, GHError::RepoNotFound("o/missing".to_string()));
}

#[test]
fn repository_server_error_is_network_error() {
    let (a, _) = Analysis::new("o/x".to_string(), default_candidates());
    let (a, _) = send(a.on_quota(200, quota(Some(10), Some(0))));
    assert_eq!(
        failed(a.on_repository(502, Some(info("x", 1)), fields(None))),
        GHError::NetworkError(NetworkFailure::Status(502))
    );
}

#[test]
fn repository_document_that_does_not_match_is_malformed() {
    let (a, _) = Analysis::new("o/x".to_string(), default_candidates());
    let (a, _) = send(a.on_quota(200, quota(Some(10), Some(0))));
    assert_eq!(
        failed(a.on_repository(200, None, fields(None))),
        GHError::NetworkError(NetworkFailure::Malformed)
    );
}

#[test]
fn languages_failure_ends_analysis() {
    let (a, _) = Analysis::new("o/x".to_string(), default_candidates());
    let (a, _) = send(a.on_quota(200, quota(Some(10), Some(0))));
    let (a, _) = send(a.on_repository(200, Some(info("x", 1)), fields(None)));
    assert!(matches!(a.stage, Stage::Languages { .. }));
    assert_eq!(
        failed(a.on_languages(404, None)),
        GHError::NetworkError(NetworkFailure::Status(404))
    );
}

#[test]
fn languages_body_that_is_not_a_map_is_malformed() {
    let (a, _) = Analysis::new("o/x".to_string(), default_candidates());
    let (a, _) = send(a.on_quota(200, quota(Some(10), Some(0))));
    let (a, _) = send(a.on_repository(200, Some(info("x", 1)), fields(None)));
    assert_eq!(
        failed(a.on_languages(200, None)),
        GHError::NetworkError(NetworkFailure::Malformed)
    );
}

#[test]
fn no_candidates_finishes_after_languages() {
    let (a, _) = Analysis::new("o/x".to_string(), vec![]);
    let (a, _) = send(a.on_quota(200, quota(Some(10), Some(0))));
    let (a, _) = send(a.on_repository(200, Some(info("x", 1)), fields(Some(2))));
    let s = done(a.on_languages(200, Some(vec![])));
    assert!(s.languages.is_empty());
    assert!(s.content.is_empty());
    assert_eq!(s.stats.open_issues_count, 2);
}

#[test]
fn only_readme_present_gives_its_text() {
    let (mut a, mut r) = up_to_files(default_candidates(), None);
    loop {
        let i = match r {
            Request::Contents(i) => i,
            other => panic!("unexpected request {:?}", other),
        };
        let p = if a.candidates[i] == "README.md" {
            a.on_contents(200, envelope("file", Some("SGVsbG8=")))
        } else {
            a.on_contents(404, None)
        };
        match p {
            Progress::Send(b, q) => {
                a = b;
                r = q;
            },
            Progress::Done(s) => {
                assert_eq!(s.content, vec![("README.md".to_string(), "Hello".to_string())]);
                assert_eq!(s.languages, vec![("Go".to_string(), 100)]);
                break;
            },
            Progress::Failed(e) => panic!("unexpected failure {:?}", e),
        }
    }
}

#[test]
fn directory_entry_is_passed_over() {
    let (a, r) = up_to_files(vec!["docs".to_string(), "LICENSE".to_string()], None);
    assert_eq!(r, Request::Contents(0));
    let (a, r) = send(a.on_contents(200, envelope("dir", None)));
    assert_eq!(r, Request::Contents(1));
    let s = done(a.on_contents(200, envelope("file", Some("TUlU\nCg=="))));
    assert_eq!(s.content, vec![("LICENSE".to_string(), "MIT\n".to_string())]);
}

#[test]
fn file_without_content_is_passed_over() {
    let (a, _) = up_to_files(vec!["README.md".to_string()], None);
    let s = done(a.on_contents(200, envelope("file", None)));
    assert!(s.content.is_empty());
}

#[test]
fn undecodable_file_ends_analysis() {
    let (a, _) = up_to_files(vec!["README.md".to_string()], None);
    assert_eq!(
        failed(a.on_contents(200, envelope("file", Some("%%%")))),
        GHError::NetworkError(NetworkFailure::Malformed)
    );
    let (a, _) = up_to_files(vec!["README.md".to_string()], None);
    assert_eq!(
        failed(a.on_contents(200, envelope("file", Some("/w==")))),
        GHError::NetworkError(NetworkFailure::Malformed)
    );
}

#[test]
fn contents_server_error_ends_analysis() {
    let (a, _) = up_to_files(vec!["README.md".to_string()], None);
    assert_eq!(
        failed(a.on_contents(503, None)),
        GHError::NetworkError(NetworkFailure::Status(503))
    );
}

#[test]
fn contents_body_that_is_not_an_envelope_is_malformed() {
    let (a, _) = up_to_files(vec!["README.md".to_string()], None);
    assert_eq!(
        failed(a.on_contents(200, None)),
        GHError::NetworkError(NetworkFailure::Malformed)
    );
}

#[test]
fn unreachable_api_is_network_error() {
    let (a, _) = Analysis::new("o/x".to_string(), default_candidates());
    assert_eq!(
        a.on_unreachable("timed out".to_string()),
        GHError::NetworkError(NetworkFailure::Unreachable("timed out".to_string()))
    );
}

#[test]
fn large_remaining_quota_is_not_exhausted() {
    let (a, _) = Analysis::new("o/x".to_string(), default_candidates());
    let (_, r) = send(a.on_quota(200, quota(Some(1u64 << 32), Some(0))));
    assert_eq!(r, Request::Repository);
}

#[test]
fn quota_body_that_is_not_json_is_malformed() {
    let (a, _) = Analysis::new("o/x".to_string(), default_candidates());
    assert_eq!(
        failed(a.on_quota(200, None)),
        GHError::NetworkError(NetworkFailure::Malformed)
    );
}

#[test]
fn repeated_candidates_are_asked_for_once() {
    let names = vec!["README.md", "LICENSE", "README.md", "go.mod", "LICENSE"];
    let (a, _) = Analysis::new("o/x".to_string(), names.iter().map(|n| n.to_string()).collect());
    assert_eq!(a.candidates, vec!["README.md", "LICENSE", "go.mod"]);
    let (a, _) = send(a.on_quota(200, quota(Some(1), Some(0))));
    let (a, _) = send(a.on_repository(200, Some(info("x", 1)), fields(None)));
    let (a, r) = send(a.on_languages(200, Some(vec![])));
    assert_eq!(r, Request::Contents(0));
    let (a, _) = send(a.on_contents(200, envelope("file", Some("SGVsbG8="))));
    let (a, _) = send(a.on_contents(200, envelope("file", Some("TUlU"))));
    let s = done(a.on_contents(404, None));
    assert_eq!(
        s.content,
        vec![
            ("README.md".to_string(), "Hello".to_string()),
            ("LICENSE".to_string(), "MIT".to_string()),
        ]
    );
}

#[test]
fn language_named_twice_is_malformed() {
    let (a, _) = Analysis::new("o/x".to_string(), default_candidates());
    let (a, _) = send(a.on_quota(200, quota(Some(10), Some(0))));
    let (a, _) = send(a.on_repository(200, Some(info("x", 1)), fields(None)));
    let langs = vec![("Go".to_string(), 1), ("Rust".to_string(), 2), ("Go".to_string(), 3)];
    assert_eq!(
        failed(a.on_languages(200, Some(langs))),
        GHError::NetworkError(NetworkFailure::Malformed)
    );
}

#[test]
fn statistic_too_large_for_32_bits_is_zero() {
    let (a, _) = Analysis::new("o/x".to_string(), vec![]);
    let (a, _) = send(a.on_quota(200, quota(Some(10), Some(0))));
    let big = StatFields {
        open_issues_count: Some(4294967301),
        watchers_count: Some(u32::MAX as u64),
        network_count: Some(u64::MAX),
        size: Some(7),
    };
    let (a, _) = send(a.on_repository(200, Some(info("x", 1)), big));
    let s = done(a.on_languages(200, Some(vec![])));
    assert_eq!(
        s.stats,
        RepoStats { open_issues_count: 0, watchers_count: u32::MAX, network_count: 0, size: 7 }
    );
}
