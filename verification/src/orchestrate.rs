//! The check orchestrator's decisions, as pure functions over the events the
//! outside calls report. The flow is linear — validate the configuration,
//! compute the window, build and send the query, derive the mood, persist it,
//! build the summary — and every stage before persistence short-circuits on
//! failure. Persistence is the one exception: its failure degrades into a
//! status field of an otherwise successful response instead of aborting.

use vstd::prelude::*;
use vstd::string::StringExecFns;

use crate::errors::{CheckError, CheckErrorView};
use crate::github::{spec_query_doc, spec_bearer, build_query_doc, bearer_header};
use crate::monster::{spec_monster, hungry_label, satisfied_label};
use crate::timewin::{
    Date, DateView, LocalDateTime, TimeWindow, compute_window, date_wf, ldt_wf, spec_civil_date,
    spec_date_str, spec_end_of_day, spec_now_local, spec_rfc3339, spec_start_of_day, format_date,
    format_rfc3339, UTC_OFFSET_SECONDS, MAX_LOCAL_SECONDS,
};

verus! {

/// The configuration a check needs: the credential for the contribution-query
/// API and the GitHub login to monitor.
pub struct CheckConfig {
    pub token: String,
    pub username: String,
}

/// Validates the configuration read from the environment: both values must be
/// present; the first absent one aborts the check with a `ConfigMissing` error
/// naming it.
pub fn validate_config(token: Option<String>, username: Option<String>) -> (r: Result<
    CheckConfig,
    CheckError,
>)
    ensures
        r is Ok <==> token is Some && username is Some,
        token matches Some(t) ==> (username matches Some(u) ==> (r matches Ok(c) && c.token@ == t@
            && c.username@ == u@)),
        token is None ==> (r matches Err(e) && e@ == CheckErrorView::ConfigMissing(
            "GITHUB_TOKEN is not set"@,
        )),
        token is Some && username is None ==> (r matches Err(e) && e@
            == CheckErrorView::ConfigMissing("GITHUB_USERNAME is not set"@)),
{
    match token {
        None => Err(CheckError::ConfigMissing("GITHUB_TOKEN is not set".to_owned())),
        Some(t) => match username {
            None => Err(CheckError::ConfigMissing("GITHUB_USERNAME is not set".to_owned())),
            Some(u) => Ok(CheckConfig { token: t, username: u }),
        },
    }
}

/// The fixed address of the contribution-query API.
pub fn query_endpoint() -> (r: &'static str)
    ensures
        r@ == "https://api.github.com/graphql"@,
{
    "https://api.github.com/graphql"
}

/// The client identifier sent in the user-agent header.
pub fn client_identifier() -> (r: &'static str)
    ensures
        r@ == "grass-reaper-robot"@,
{
    "grass-reaper-robot"
}

/// Everything the outbound query needs, computed before any call is made: the
/// authorization header value, the query document over today's local window,
/// and the window itself for the later stages.
pub struct CheckPlan {
    pub auth_header: String,
    pub query_doc: String,
    pub date: Date,
    pub now_local: LocalDateTime,
}

/// The query document a plan for the given login and instant carries: it asks
/// for the contributions between local midnight and 23:59:59 of the instant's
/// local calendar date, both bounds serialized with the explicit offset.
pub open spec fn spec_plan_query_doc(username: Seq<char>, now_unix: int) -> Seq<char> {
    spec_query_doc(
        username,
        spec_rfc3339(spec_start_of_day(spec_civil_date(now_unix + UTC_OFFSET_SECONDS))),
        spec_rfc3339(spec_end_of_day(spec_civil_date(now_unix + UTC_OFFSET_SECONDS))),
    )
}

/// Plans the contribution query for an instant: computes today's local window
/// and builds the query document and the authorization header. Pure in its
/// arguments; no call is made here.
pub fn plan_check(cfg: &CheckConfig, now_unix: i64) -> (p: CheckPlan)
    requires
        0 <= now_unix,
        now_unix + UTC_OFFSET_SECONDS <= MAX_LOCAL_SECONDS,
    ensures
        p.auth_header@ == spec_bearer(cfg.token@),
        p.query_doc@ == spec_plan_query_doc(cfg.username@, now_unix as int),
        p.date@ == spec_civil_date(now_unix + UTC_OFFSET_SECONDS),
        p.now_local@ == spec_now_local(now_unix + UTC_OFFSET_SECONDS),
        p.now_local@.date == p.date@,
        date_wf(p.date@),
        ldt_wf(p.now_local@),
{
    let w: TimeWindow = compute_window(now_unix);
    let from = format_rfc3339(&w.start);
    let to = format_rfc3339(&w.end);
    CheckPlan {
        auth_header: bearer_header(cfg.token.as_str()),
        query_doc: build_query_doc(cfg.username.as_str(), from.as_str(), to.as_str()),
        date: w.date,
        now_local: w.now_local,
    }
}

/// What the store reported for the persistence step.
pub enum WriteOutcome {
    Succeeded,
    Failed(String),
}

/// Mathematical image of a [`WriteOutcome`].
pub enum WriteOutcomeView {
    Succeeded,
    Failed(Seq<char>),
}

impl View for WriteOutcome {
    type V = WriteOutcomeView;

    open spec fn view(&self) -> WriteOutcomeView {
        match self {
            WriteOutcome::Succeeded => WriteOutcomeView::Succeeded,
            WriteOutcome::Failed(m) => WriteOutcomeView::Failed(m@),
        }
    }
}

/// The status text a persistence outcome is reported as: `Success`, or
/// `Failed: ` followed by the cause.
pub open spec fn spec_db_status(o: WriteOutcomeView) -> Seq<char> {
    match o {
        WriteOutcomeView::Succeeded => "Success"@,
        WriteOutcomeView::Failed(m) => "Failed: "@ + m,
    }
}

/// The summary a successful check answers with.
pub struct ApiResponse {
    pub username: String,
    pub date: String,
    pub contribution_count: i32,
    pub is_angry: bool,
    pub db_update_status: String,
}

/// Mathematical image of an [`ApiResponse`].
pub struct ApiResponseView {
    pub username: Seq<char>,
    pub date: Seq<char>,
    pub contribution_count: int,
    pub is_angry: bool,
    pub db_update_status: Seq<char>,
}

impl View for ApiResponse {
    type V = ApiResponseView;

    open spec fn view(&self) -> ApiResponseView {
        ApiResponseView {
            username: self.username@,
            date: self.date@,
            contribution_count: self.contribution_count as int,
            is_angry: self.is_angry,
            db_update_status: self.db_update_status@,
        }
    }
}

/// The summary a check with the given login, date, count and persistence
/// outcome answers with: the monitored login, the local calendar date the
/// check covers, the day's count, whether the monster is angry — exactly when
/// the count is zero — and the persistence outcome as a status text.
pub open spec fn spec_response(
    username: Seq<char>,
    date: DateView,
    count: int,
    write: WriteOutcomeView,
) -> ApiResponseView {
    ApiResponseView {
        username: username,
        date: spec_date_str(date),
        contribution_count: count,
        is_angry: count == 0,
        db_update_status: spec_db_status(write),
    }
}

/// Builds the check's summary. Total in the persistence outcome: a failed
/// write never aborts the check, it only shows in the status field.
pub fn build_response(username: String, date: &Date, count: i32, write: WriteOutcome) -> (r:
    ApiResponse)
    requires
        date_wf(date@),
    ensures
        r@ == spec_response(username@, date@, count as int, write@),
{
    let db_update_status = match write {
        WriteOutcome::Succeeded => "Success".to_owned(),
        WriteOutcome::Failed(m) => {
            let mut msg = String::new();
            msg.append("Failed: ");
            msg.append(m.as_str());
            msg
        },
    };
    ApiResponse {
        username,
        date: format_date(date),
        contribution_count: count,
        is_angry: count == 0,
        db_update_status,
    }
}

/// End-to-end over the check's stages: when the query resolves to a count of
/// zero, the persisted state is `HUNGRY` at anger level `100` and the summary
/// reports the monster angry; when it resolves to a positive count, the
/// persisted state is `SATISFIED` at anger level `0` and the summary reports
/// it not angry — whatever the login, date, check time and persistence
/// outcome.
pub proof fn lemma_check_outcome(
    count: int,
    last_check: Seq<char>,
    username: Seq<char>,
    date: DateView,
    write: WriteOutcomeView,
)
    ensures
        count == 0 ==> spec_monster(count, last_check).status == hungry_label() && spec_monster(
            count,
            last_check,
        ).anger_level == 100 && spec_response(username, date, count, write).is_angry,
        count > 0 ==> spec_monster(count, last_check).status == satisfied_label() && spec_monster(
            count,
            last_check,
        ).anger_level == 0 && !spec_response(username, date, count, write).is_angry,
{
}

/// The degrade path: when the query succeeded but persisting the state failed,
/// the check still answers with a summary — building it is total in the write
/// outcome — whose status field carries the failure text, and whose count and
/// anger flag reflect the query result alone, exactly as they would had the
/// write succeeded.
pub proof fn lemma_persist_failure_degrades(
    username: Seq<char>,
    date: DateView,
    count: int,
    cause: Seq<char>,
)
    ensures
        spec_response(username, date, count, WriteOutcomeView::Failed(cause)).db_update_status
            == "Failed: "@ + cause,
        spec_response(username, date, count, WriteOutcomeView::Failed(cause)).contribution_count
            == count,
        spec_response(username, date, count, WriteOutcomeView::Failed(cause)).is_angry == (count
            == 0),
        spec_response(username, date, count, WriteOutcomeView::Failed(cause)).contribution_count
            == spec_response(username, date, count, WriteOutcomeView::Succeeded).contribution_count,
        spec_response(username, date, count, WriteOutcomeView::Failed(cause)).is_angry
            == spec_response(username, date, count, WriteOutcomeView::Succeeded).is_angry,
{
}

} // verus!
