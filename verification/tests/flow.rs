use grass_reaper::github::{
    resolve_fetch, ContributionCalendar, ContributionsCollection, FetchOutcome, GithubData,
    GithubResponse, GithubUser,
};
use grass_reaper::monster::{build_monster, Monster};
use grass_reaper::orchestrate::{
    build_response, client_identifier, plan_check, query_endpoint, validate_config, WriteOutcome,
};
use grass_reaper::store::{read_endpoint, MemoryStore, ReadEvent, ReadOutcome};
use grass_reaper::timewin::compute_window;

fn parsed_total(total: i32) -> Result<GithubResponse, String> {
    Ok(GithubResponse {
        data: Some(GithubData {
            user: Some(GithubUser {
                contributions_collection: ContributionsCollection {
                    contribution_calendar: ContributionCalendar { total_contributions: total },
                },
            }),
        }),
    })
}

/// Runs the check's decision stages for a fixed instant and a canned fetch
/// and write outcome, the outside calls stubbed away.
fn run_check(
    total: i32,
    write: WriteOutcome,
) -> (Monster, grass_reaper::orchestrate::ApiResponse) {
    let cfg = validate_config(
        Some("sometoken".to_string()),
        Some("octocat".to_string()),
    )
    .unwrap();
    let now_unix = 1_700_000_000; // 2023-11-15 at +09:00
    let plan = plan_check(&cfg, now_unix);
    let count = resolve_fetch(FetchOutcome::Received {
        status: 200,
        body: String::new(),
        parsed: parsed_total(total),
    })
    .unwrap();
    let monster = build_monster(count, &plan.now_local);
    let response = build_response(cfg.username, &plan.date, count, write);
    (monster, response)
}

#[test]
fn missing_token_aborts_the_check() {
    let r = validate_config(None, Some("octocat".to_string()));
    match r {
        Err(grass_reaper::errors::CheckError::ConfigMissing(m)) => {
            assert_eq!(m, "GITHUB_TOKEN is not set")
        }
        _ => panic!("expected a missing-configuration error"),
    }
}

#[test]
fn missing_username_aborts_the_check() {
    let r = validate_config(Some("sometoken".to_string()), None);
    match r {
        Err(grass_reaper::errors::CheckError::ConfigMissing(m)) => {
            assert_eq!(m, "GITHUB_USERNAME is not set")
        }
        _ => panic!("expected a missing-configuration error"),
    }
}

#[test]
fn plan_carries_the_window_and_credential() {
    let cfg = validate_config(
        Some("sometoken".to_string()),
        Some("octocat".to_string()),
    )
    .unwrap();
    let plan = plan_check(&cfg, 1_700_000_000);
    assert_eq!(plan.auth_header, "Bearer sometoken");
    assert_eq!(
        plan.query_doc,
        "query { user(login: \"octocat\") { contributionsCollection(from: \
         \"2023-11-15T00:00:00+09:00\", to: \"2023-11-15T23:59:59+09:00\") \
         { contributionCalendar { totalContributions } } } }"
    );
    assert_eq!(query_endpoint(), "https://api.github.com/graphql");
    assert_eq!(client_identifier(), "grass-reaper-robot");
}

#[test]
fn zero_contributions_leave_the_monster_hungry() {
    let (monster, response) = run_check(0, WriteOutcome::Succeeded);
    assert_eq!(monster.status, "HUNGRY");
    assert_eq!(monster.anger_level, 100);
    assert_eq!(monster.last_check, "2023-11-15T07:13:20+09:00");
    assert_eq!(response.username, "octocat");
    assert_eq!(response.date, "2023-11-15");
    assert_eq!(response.contribution_count, 0);
    assert!(response.is_angry);
    assert_eq!(response.db_update_status, "Success");
}

#[test]
fn five_contributions_satisfy_the_monster() {
    let (monster, response) = run_check(5, WriteOutcome::Succeeded);
    assert_eq!(monster.status, "SATISFIED");
    assert_eq!(monster.anger_level, 0);
    assert_eq!(response.contribution_count, 5);
    assert!(!response.is_angry);
    assert_eq!(response.db_update_status, "Success");
}

#[test]
fn persistence_failure_degrades_instead_of_aborting() {
    let (monster, response) = run_check(5, WriteOutcome::Failed("deadline exceeded".to_string()));
    assert_eq!(monster.status, "SATISFIED");
    assert_eq!(response.db_update_status, "Failed: deadline exceeded");
    // The query result shows in the response regardless of the write failure.
    assert_eq!(response.contribution_count, 5);
    assert!(!response.is_angry);
}

#[test]
fn read_of_an_absent_record_is_not_found() {
    let outcome = read_endpoint(ReadEvent::Loaded(None));
    assert!(matches!(outcome, ReadOutcome::NotFound));
}

#[test]
fn read_passes_the_record_through() {
    let m = Monster {
        status: "HUNGRY".to_string(),
        anger_level: 100,
        last_check: "2023-11-15T07:13:20+09:00".to_string(),
    };
    match read_endpoint(ReadEvent::Loaded(Some(m))) {
        ReadOutcome::Found(found) => {
            assert_eq!(found.status, "HUNGRY");
            assert_eq!(found.anger_level, 100);
            assert_eq!(found.last_check, "2023-11-15T07:13:20+09:00");
        }
        _ => panic!("expected the record"),
    }
}

#[test]
fn read_failure_is_a_store_failure() {
    match read_endpoint(ReadEvent::LoadFailed("unavailable".to_string())) {
        ReadOutcome::StoreFailure(m) => assert_eq!(m, "Firestore error: unavailable"),
        _ => panic!("expected a store failure"),
    }
}

#[test]
fn empty_store_reads_nothing() {
    let store = MemoryStore::new();
    assert!(store.get().is_none());
}

#[test]
fn reading_twice_without_a_write_is_identical() {
    let mut store = MemoryStore::new();
    let (monster, _) = run_check(3, WriteOutcome::Succeeded);
    store.put(monster);
    let first = store.get().unwrap();
    let second = store.get().unwrap();
    assert_eq!(first.status, second.status);
    assert_eq!(first.anger_level, second.anger_level);
    assert_eq!(first.last_check, second.last_check);
}

#[test]
fn a_write_replaces_the_record_wholesale() {
    let mut store = MemoryStore::new();
    let (hungry, _) = run_check(0, WriteOutcome::Succeeded);
    let (satisfied, _) = run_check(4, WriteOutcome::Succeeded);
    store.put(hungry);
    store.put(satisfied);
    let read = store.get().unwrap();
    assert_eq!(read.status, "SATISFIED");
    assert_eq!(read.anger_level, 0);
}
