use grass_reaper::errors::{http_status, CheckError};
use grass_reaper::github::{
    bearer_header, build_query_doc, contribution_count, resolve_fetch, ContributionCalendar,
    ContributionsCollection, FetchOutcome, GithubData, GithubResponse, GithubUser,
};
use grass_reaper::monster::derive_mood;
use grass_reaper::timewin::{compute_window, current_instant, format_date, format_rfc3339};

fn response_with_total(total: i32) -> GithubResponse {
    GithubResponse {
        data: Some(GithubData {
            user: Some(GithubUser {
                contributions_collection: ContributionsCollection {
                    contribution_calendar: ContributionCalendar { total_contributions: total },
                },
            }),
        }),
    }
}

#[test]
fn mood_of_zero_contributions() {
    let (status, anger) = derive_mood(0);
    assert_eq!(status, "HUNGRY");
    assert_eq!(anger, 100);
}

#[test]
fn mood_of_positive_contributions() {
    let (status, anger) = derive_mood(5);
    assert_eq!(status, "SATISFIED");
    assert_eq!(anger, 0);
    let (status, anger) = derive_mood(1);
    assert_eq!(status, "SATISFIED");
    assert_eq!(anger, 0);
}

#[test]
fn mood_of_negative_count_is_satisfied() {
    // Negative counts are not expected; they are treated like positive ones.
    let (status, anger) = derive_mood(-3);
    assert_eq!(status, "SATISFIED");
    assert_eq!(anger, 0);
}

#[test]
fn window_of_a_fixed_instant() {
    // 2023-11-14T22:13:20 UTC is 2023-11-15T07:13:20 at +09:00.
    let w = compute_window(1_700_000_000);
    assert_eq!(format_date(&w.date), "2023-11-15");
    assert_eq!(format_rfc3339(&w.start), "2023-11-15T00:00:00+09:00");
    assert_eq!(format_rfc3339(&w.end), "2023-11-15T23:59:59+09:00");
    assert_eq!(format_rfc3339(&w.now_local), "2023-11-15T07:13:20+09:00");
}

#[test]
fn window_crosses_into_the_local_new_year() {
    // 2023-12-31T16:00:00 UTC is already 2024-01-01T01:00:00 at +09:00.
    let w = compute_window(1_704_038_400);
    assert_eq!(format_date(&w.date), "2024-01-01");
    assert_eq!(format_rfc3339(&w.start), "2024-01-01T00:00:00+09:00");
    assert_eq!(format_rfc3339(&w.end), "2024-01-01T23:59:59+09:00");
}

#[test]
fn window_of_the_epoch() {
    let w = compute_window(0);
    assert_eq!(format_date(&w.date), "1970-01-01");
    assert_eq!(format_rfc3339(&w.now_local), "1970-01-01T09:00:00+09:00");
}

#[test]
fn clock_reads_an_instant_in_range() {
    assert!(current_instant().is_some());
}

#[test]
fn query_document_embeds_login_and_window() {
    let doc = build_query_doc(
        "octocat",
        "2023-11-15T00:00:00+09:00",
        "2023-11-15T23:59:59+09:00",
    );
    assert_eq!(
        doc,
        "query { user(login: \"octocat\") { contributionsCollection(from: \
         \"2023-11-15T00:00:00+09:00\", to: \"2023-11-15T23:59:59+09:00\") \
         { contributionCalendar { totalContributions } } } }"
    );
}

#[test]
fn bearer_header_prefixes_the_token() {
    assert_eq!(bearer_header("sometoken"), "Bearer sometoken");
}

#[test]
fn count_of_full_shape_is_the_leaf_total() {
    assert_eq!(contribution_count(&response_with_total(7)), 7);
}

#[test]
fn count_of_absent_user_is_zero() {
    let r = GithubResponse { data: Some(GithubData { user: None }) };
    assert_eq!(contribution_count(&r), 0);
}

#[test]
fn count_of_absent_data_is_zero() {
    let r = GithubResponse { data: None };
    assert_eq!(contribution_count(&r), 0);
}

#[test]
fn transport_failure_resolves_to_network_error() {
    let r = resolve_fetch(FetchOutcome::TransportFailed("connection refused".to_string()));
    match r {
        Err(CheckError::NetworkError(m)) => {
            assert_eq!(m, "GitHub API Request failed: connection refused")
        }
        _ => panic!("expected a network error"),
    }
}

#[test]
fn non_success_status_resolves_to_upstream_error() {
    let r = resolve_fetch(FetchOutcome::Received {
        status: 403,
        body: "rate limited".to_string(),
        parsed: Err("irrelevant".to_string()),
    });
    match r {
        Err(CheckError::UpstreamError(m)) => {
            assert_eq!(m, "GitHub API returned an error: rate limited")
        }
        _ => panic!("expected an upstream error"),
    }
}

#[test]
fn malformed_body_resolves_to_parse_error() {
    let r = resolve_fetch(FetchOutcome::Received {
        status: 200,
        body: "not json".to_string(),
        parsed: Err("expected value at line 1".to_string()),
    });
    match r {
        Err(CheckError::ParseError(m)) => {
            assert_eq!(m, "Failed to parse GitHub API response: expected value at line 1")
        }
        _ => panic!("expected a parse error"),
    }
}

#[test]
fn parsed_success_resolves_to_the_count() {
    let r = resolve_fetch(FetchOutcome::Received {
        status: 200,
        body: String::new(),
        parsed: Ok(response_with_total(7)),
    });
    assert_eq!(r.unwrap(), 7);
}

#[test]
fn parsed_success_with_absent_user_resolves_to_zero() {
    let r = resolve_fetch(FetchOutcome::Received {
        status: 200,
        body: String::new(),
        parsed: Ok(GithubResponse { data: Some(GithubData { user: None }) }),
    });
    assert_eq!(r.unwrap(), 0);
}

#[test]
fn error_status_codes() {
    assert_eq!(http_status(&CheckError::UpstreamError(String::new())), 502);
    assert_eq!(http_status(&CheckError::NetworkError(String::new())), 500);
    assert_eq!(http_status(&CheckError::ParseError(String::new())), 500);
    assert_eq!(http_status(&CheckError::ConfigMissing(String::new())), 500);
}

#[test]
fn error_message_is_carried() {
    let e = CheckError::ConfigMissing("GITHUB_TOKEN is not set".to_string());
    assert_eq!(e.message().as_str(), "GITHUB_TOKEN is not set");
}
