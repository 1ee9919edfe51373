//! The state store gateway: what a read of the single monster record means,
//! what a write outcome reports, and an in-memory store model with the same
//! two operations, usable as a stand-in for the external document store.

use vstd::prelude::*;
use vstd::string::StringExecFns;

use crate::monster::{Monster, MonsterView};

verus! {

/// The collection the single record lives in.
pub fn collection_name() -> (r: &'static str)
    ensures
        r@ == "monsters"@,
{
    "monsters"
}

/// The fixed key of the single record.
pub fn document_key() -> (r: &'static str)
    ensures
        r@ == "user_1"@,
{
    "user_1"
}

/// What the store reported for a read of the record: the record loaded (and
/// may be absent — a normal negative result), or the read itself failed.
pub enum ReadEvent {
    Loaded(Option<Monster>),
    LoadFailed(String),
}

/// Mathematical image of a [`ReadEvent`].
pub enum ReadEventView {
    Loaded(Option<MonsterView>),
    LoadFailed(Seq<char>),
}

impl View for ReadEvent {
    type V = ReadEventView;

    open spec fn view(&self) -> ReadEventView {
        match self {
            ReadEvent::Loaded(o) => ReadEventView::Loaded(
                match o {
                    Some(m) => Some(m@),
                    None => None,
                },
            ),
            ReadEvent::LoadFailed(e) => ReadEventView::LoadFailed(e@),
        }
    }
}

/// What the read endpoint answers: the state verbatim, a not-found result for
/// an absent record (not an error), or a server failure carrying the store's
/// error text.
pub enum ReadOutcome {
    Found(Monster),
    NotFound,
    StoreFailure(String),
}

/// Mathematical image of a [`ReadOutcome`].
pub enum ReadOutcomeView {
    Found(MonsterView),
    NotFound,
    StoreFailure(Seq<char>),
}

impl View for ReadOutcome {
    type V = ReadOutcomeView;

    open spec fn view(&self) -> ReadOutcomeView {
        match self {
            ReadOutcome::Found(m) => ReadOutcomeView::Found(m@),
            ReadOutcome::NotFound => ReadOutcomeView::NotFound,
            ReadOutcome::StoreFailure(e) => ReadOutcomeView::StoreFailure(e@),
        }
    }
}

/// What a read event means: a loaded record is passed through verbatim, an
/// absent record is a not-found result, and a failed read is a store failure
/// naming the cause.
pub open spec fn spec_read_outcome(e: ReadEventView) -> ReadOutcomeView {
    match e {
        ReadEventView::Loaded(Some(m)) => ReadOutcomeView::Found(m),
        ReadEventView::Loaded(None) => ReadOutcomeView::NotFound,
        ReadEventView::LoadFailed(msg) => ReadOutcomeView::StoreFailure("Firestore error: "@ + msg),
    }
}

/// Decides the read endpoint's answer from what the store reported: a pure
/// passthrough of the record, with an absent record mapped to a not-found
/// result and a store failure mapped to a server failure.
pub fn read_endpoint(event: ReadEvent) -> (r: ReadOutcome)
    ensures
        r@ == spec_read_outcome(event@),
{
    match event {
        ReadEvent::Loaded(Some(m)) => ReadOutcome::Found(m),
        ReadEvent::Loaded(None) => ReadOutcome::NotFound,
        ReadEvent::LoadFailed(e) => {
            let mut msg = String::new();
            msg.append("Firestore error: ");
            msg.append(e.as_str());
            ReadOutcome::StoreFailure(msg)
        },
    }
}

/// The read endpoint is a pure function of the stored record: two reads that
/// see the same record — as any two reads with no write between them do —
/// answer identically.
pub proof fn lemma_read_idempotent(record: Option<MonsterView>, r1: ReadOutcomeView, r2: ReadOutcomeView)
    requires
        r1 == spec_read_outcome(ReadEventView::Loaded(record)),
        r2 == spec_read_outcome(ReadEventView::Loaded(record)),
    ensures
        r1 == r2,
{
}

/// An in-memory store holding the single record, with the same two operations
/// as the external document store: a stand-in for it in tests and a model of
/// its create-or-replace behaviour.
pub struct MemoryStore {
    pub record: Option<Monster>,
}

impl MemoryStore {
    /// An empty store: no record has been written yet.
    pub fn new() -> (s: MemoryStore)
        ensures
            s.record is None,
    {
        MemoryStore { record: None }
    }

    /// Reads the record; `None` when none has been written.
    pub fn get(&self) -> (r: Option<Monster>)
        ensures
            r == self.record,
    {
        match &self.record {
            Some(m) => Some(m.clone()),
            None => None,
        }
    }

    /// Replaces the record wholesale, creating it when absent.
    pub fn put(&mut self, m: Monster)
        ensures
            final(self).record == Some(m),
    {
        self.record = Some(m);
    }
}

} // verus!
