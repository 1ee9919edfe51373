//! The mood state: deriving it from a contribution count, and the invariant
//! that ties its fields together.

use vstd::prelude::*;

use crate::timewin::{LocalDateTime, ldt_wf, spec_rfc3339, format_rfc3339};

verus! {

/// The status label when no contribution was made today.
pub open spec fn hungry_label() -> Seq<char> {
    "HUNGRY"@
}

/// The status label when at least one contribution was made today.
pub open spec fn satisfied_label() -> Seq<char> {
    "SATISFIED"@
}

/// The status label derived from a day's contribution count: `HUNGRY` exactly
/// when the count is zero. A negative count is treated like a positive one.
pub open spec fn spec_status(count: int) -> Seq<char> {
    if count == 0 {
        hungry_label()
    } else {
        satisfied_label()
    }
}

/// The anger level derived from a day's contribution count: `100` exactly when
/// the count is zero, `0` otherwise.
pub open spec fn spec_anger_level(count: int) -> int {
    if count == 0 {
        100
    } else {
        0
    }
}

/// Maps a day's contribution count to `(status, angerLevel)`: zero
/// contributions leave the monster hungry at full anger; anything else
/// satisfies it. Total; negative counts are treated as satisfied, matching
/// the `count == 0` test.
pub fn derive_mood(count: i32) -> (r: (String, i32))
    ensures
        r.0@ == spec_status(count as int),
        r.1 == spec_anger_level(count as int),
{
    if count == 0 {
        ("HUNGRY".to_owned(), 100)
    } else {
        ("SATISFIED".to_owned(), 0)
    }
}

/// The persisted mood state: one document, replaced wholesale on every check.
pub struct Monster {
    pub status: String,
    pub anger_level: i32,
    pub last_check: String,
}

/// Mathematical image of a [`Monster`].
pub struct MonsterView {
    pub status: Seq<char>,
    pub anger_level: int,
    pub last_check: Seq<char>,
}

impl View for Monster {
    type V = MonsterView;

    open spec fn view(&self) -> MonsterView {
        MonsterView {
            status: self.status@,
            anger_level: self.anger_level as int,
            last_check: self.last_check@,
        }
    }
}

impl Clone for Monster {
    fn clone(&self) -> (r: Monster)
        ensures
            r == *self,
    {
        Monster {
            status: self.status.clone(),
            anger_level: self.anger_level,
            last_check: self.last_check.clone(),
        }
    }
}

/// The state invariant: the status label and the anger level always move
/// together — `HUNGRY` goes with level `100`, `SATISFIED` with level `0`.
pub open spec fn monster_wf(m: MonsterView) -> bool {
    ||| (m.status == hungry_label() && m.anger_level == 100)
    ||| (m.status == satisfied_label() && m.anger_level == 0)
}

/// The mood derived from any count satisfies the state invariant: status and
/// anger level always move together, whatever the count. Zero maps to
/// `(HUNGRY, 100)` and every other count to `(SATISFIED, 0)`.
pub proof fn lemma_mood_invariant(count: int)
    ensures
        count == 0 ==> spec_status(count) == hungry_label() && spec_anger_level(count) == 100,
        count != 0 ==> spec_status(count) == satisfied_label() && spec_anger_level(count) == 0,
        monster_wf(
            MonsterView {
                status: spec_status(count),
                anger_level: spec_anger_level(count),
                last_check: Seq::<char>::empty(),
            },
        ),
{
}

/// The two status labels differ, so the invariant's cases are exclusive: a
/// well-formed state reads `HUNGRY` exactly when its anger level is `100`,
/// and `SATISFIED` exactly when it is `0`.
pub proof fn lemma_status_iff_anger(m: MonsterView)
    requires
        monster_wf(m),
    ensures
        m.status == hungry_label() <==> m.anger_level == 100,
        m.status == satisfied_label() <==> m.anger_level == 0,
{
    reveal_strlit("HUNGRY");
    reveal_strlit("SATISFIED");
    assert(hungry_label().len() == 6);
    assert(satisfied_label().len() == 9);
}

/// The derived mood pins the count's zeroness both ways: the status reads
/// `HUNGRY` exactly when the day's count was zero, exactly when the anger
/// level is `100`.
pub proof fn lemma_mood_iff(count: int)
    ensures
        spec_status(count) == hungry_label() <==> count == 0,
        spec_anger_level(count) == 100 <==> count == 0,
{
    reveal_strlit("HUNGRY");
    reveal_strlit("SATISFIED");
    assert(hungry_label().len() == 6);
    assert(satisfied_label().len() == 9);
}

/// The state a check persists for a given count and check time: the mood
/// derived from the count, stamped with the serialized local check time.
pub open spec fn spec_monster(count: int, last_check: Seq<char>) -> MonsterView {
    MonsterView {
        status: spec_status(count),
        anger_level: spec_anger_level(count),
        last_check: last_check,
    }
}

/// Builds the state a check persists: the mood derived from the day's count,
/// stamped with the local check time in its serialized form. The result always
/// satisfies the state invariant.
pub fn build_monster(count: i32, now_local: &LocalDateTime) -> (m: Monster)
    requires
        ldt_wf(now_local@),
    ensures
        m@ == spec_monster(count as int, spec_rfc3339(now_local@)),
        monster_wf(m@),
{
    let (status, anger_level) = derive_mood(count);
    Monster { status, anger_level, last_check: format_rfc3339(now_local) }
}

} // verus!
