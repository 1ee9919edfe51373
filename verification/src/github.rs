//! The contribution query: building the GraphQL document sent to the remote
//! API, and collapsing the nested, optional-at-every-level response shape into
//! a day's contribution count.

use vstd::prelude::*;
use vstd::string::StringExecFns;

use crate::errors::{CheckError, CheckErrorView};

verus! {

/// Leaf of the query response: the window's total contribution count.
#[derive(Clone, Copy)]
pub struct ContributionCalendar {
    pub total_contributions: i32,
}

/// The user's contribution collection, holding the calendar.
#[derive(Clone, Copy)]
pub struct ContributionsCollection {
    pub contribution_calendar: ContributionCalendar,
}

/// The queried user: present only when the login exists.
#[derive(Clone, Copy)]
pub struct GithubUser {
    pub contributions_collection: ContributionsCollection,
}

/// The response's data node; its user node may be absent.
#[derive(Clone, Copy)]
pub struct GithubData {
    pub user: Option<GithubUser>,
}

/// A parsed query response. Either optional node may be absent: that is the
/// lenient "no data" case, not an error.
#[derive(Clone, Copy)]
pub struct GithubResponse {
    pub data: Option<GithubData>,
}

/// The count a response collapses to: the leaf total when every node is
/// present, and `0` when the data or user node is absent.
pub open spec fn spec_contribution_count(r: GithubResponse) -> int {
    match r.data {
        Some(d) => match d.user {
            Some(u) => u.contributions_collection.contribution_calendar.total_contributions as int,
            None => 0,
        },
        None => 0,
    }
}

/// Collapses a parsed response into the day's contribution count, defaulting
/// an absent data or user node to `0`.
pub fn contribution_count(r: &GithubResponse) -> (c: i32)
    ensures
        c as int == spec_contribution_count(*r),
{
    match &r.data {
        Some(d) => match &d.user {
            Some(u) => u.contributions_collection.contribution_calendar.total_contributions,
            None => 0,
        },
        None => 0,
    }
}

/// A well-shaped payload yields exactly its leaf total; an absent data node or
/// an absent user node yields zero, never an error.
pub proof fn lemma_count_collapse(r: GithubResponse)
    ensures
        r.data matches Some(d) ==> (d.user matches Some(u) ==> spec_contribution_count(r)
            == u.contributions_collection.contribution_calendar.total_contributions as int),
        r.data is None ==> spec_contribution_count(r) == 0,
        r.data matches Some(d) ==> (d.user is None ==> spec_contribution_count(r) == 0),
{
}

/// The GraphQL document asking for the user's total contributions inside the
/// given local time window.
pub open spec fn spec_query_doc(user: Seq<char>, from: Seq<char>, to: Seq<char>) -> Seq<char> {
    "query { user(login: \""@ + user + "\") { contributionsCollection(from: \""@ + from
        + "\", to: \""@ + to
        + "\") { contributionCalendar { totalContributions } } } }"@
}

/// Builds the GraphQL query document for a user and a local time window.
pub fn build_query_doc(user: &str, from: &str, to: &str) -> (r: String)
    ensures
        r@ == spec_query_doc(user@, from@, to@),
{
    let mut out = String::new();
    out.append("query { user(login: \"");
    out.append(user);
    out.append("\") { contributionsCollection(from: \"");
    out.append(from);
    out.append("\", to: \"");
    out.append(to);
    out.append("\") { contributionCalendar { totalContributions } } } }");
    out
}

/// The value of the authorization header carrying the bearer credential.
pub open spec fn spec_bearer(token: Seq<char>) -> Seq<char> {
    "Bearer "@ + token
}

/// Builds the authorization header value for a bearer credential.
pub fn bearer_header(token: &str) -> (r: String)
    ensures
        r@ == spec_bearer(token@),
{
    let mut out = String::new();
    out.append("Bearer ");
    out.append(token);
    out
}

/// What the transport observed for the contribution query, before any
/// decision: either sending failed outright, or a response arrived with a
/// status, its raw body, and the attempt to parse that body into the expected
/// shape (meaningful only for a success status).
pub enum FetchOutcome {
    TransportFailed(String),
    Received { status: u16, body: String, parsed: Result<GithubResponse, String> },
}

/// Mathematical image of a [`FetchOutcome`].
pub enum FetchOutcomeView {
    TransportFailed(Seq<char>),
    Received { status: int, body: Seq<char>, parsed: Result<GithubResponse, Seq<char>> },
}

impl View for FetchOutcome {
    type V = FetchOutcomeView;

    open spec fn view(&self) -> FetchOutcomeView {
        match self {
            FetchOutcome::TransportFailed(m) => FetchOutcomeView::TransportFailed(m@),
            FetchOutcome::Received { status, body, parsed } => FetchOutcomeView::Received {
                status: *status as int,
                body: body@,
                parsed: match parsed {
                    Ok(r) => Ok(*r),
                    Err(e) => Err(e@),
                },
            },
        }
    }
}

/// The count or error a fetch outcome resolves to: a transport failure is a
/// `NetworkError`; a non-success status is an `UpstreamError` carrying the raw
/// body; a success whose body did not parse is a `ParseError`; a parsed body
/// collapses to its count.
pub open spec fn spec_fetch_count(o: FetchOutcomeView) -> Result<int, CheckErrorView> {
    match o {
        FetchOutcomeView::TransportFailed(m) => Err(
            CheckErrorView::NetworkError("GitHub API Request failed: "@ + m),
        ),
        FetchOutcomeView::Received { status, body, parsed } => if status != 200 {
            Err(CheckErrorView::UpstreamError("GitHub API returned an error: "@ + body))
        } else {
            match parsed {
                Ok(r) => Ok(spec_contribution_count(r)),
                Err(p) => Err(
                    CheckErrorView::ParseError("Failed to parse GitHub API response: "@ + p),
                ),
            }
        },
    }
}

/// Mathematical image of the resolution result.
pub open spec fn spec_fetch_result_view(r: Result<i32, CheckError>) -> Result<
    int,
    CheckErrorView,
> {
    match r {
        Ok(c) => Ok(c as int),
        Err(e) => Err(e@),
    }
}

/// Decides what a fetch outcome means: returns the day's contribution count
/// exactly when a success response parsed, and otherwise the error the failed
/// step owes — `NetworkError` for a transport failure, `UpstreamError` for a
/// non-success status, `ParseError` for a body of the wrong shape.
pub fn resolve_fetch(outcome: FetchOutcome) -> (r: Result<i32, CheckError>)
    ensures
        spec_fetch_result_view(r) == spec_fetch_count(outcome@),
{
    match outcome {
        FetchOutcome::TransportFailed(m) => {
            let mut msg = String::new();
            msg.append("GitHub API Request failed: ");
            msg.append(m.as_str());
            Err(CheckError::NetworkError(msg))
        },
        FetchOutcome::Received { status, body, parsed } => {
            if status != 200 {
                let mut msg = String::new();
                msg.append("GitHub API returned an error: ");
                msg.append(body.as_str());
                Err(CheckError::UpstreamError(msg))
            } else {
                match parsed {
                    Ok(resp) => Ok(contribution_count(&resp)),
                    Err(p) => {
                        let mut msg = String::new();
                        msg.append("Failed to parse GitHub API response: ");
                        msg.append(p.as_str());
                        Err(CheckError::ParseError(msg))
                    },
                }
            }
        },
    }
}

/// A success response whose body does not match the expected shape resolves to
/// a `ParseError`, never to a count.
pub proof fn lemma_malformed_body(body: Seq<char>, perr: Seq<char>)
    ensures
        spec_fetch_count(FetchOutcomeView::Received { status: 200, body, parsed: Err(perr) })
            == Err::<int, CheckErrorView>(
            CheckErrorView::ParseError("Failed to parse GitHub API response: "@ + perr),
        ),
{
}

} // verus!
