//! Status conditions: building them and folding a new one into a list.

use vstd::prelude::*;
use crate::meta::{Condition, Time};
use crate::text::string_of;

verus! {

/// Index of the first condition of type `t`, or the length when there is none.
pub open spec fn type_index(cs: Seq<Condition>, t: Seq<char>) -> int
    decreases cs.len(),
{
    if cs.len() == 0 {
        0
    } else if cs[0].type_@ == t {
        0
    } else {
        1 + type_index(cs.drop_first(), t)
    }
}

/// The list of conditions after folding in `c`: the first condition of the
/// same type is replaced when its status or reason differs (and kept
/// otherwise); when there is none, `c` is appended.
pub open spec fn conditions_after(cs: Seq<Condition>, c: Condition) -> Seq<Condition> {
    let i = type_index(cs, c.type_@);
    if i < cs.len() {
        if cs[i].status@ != c.status@ || cs[i].reason@ != c.reason@ {
            cs.update(i, c)
        } else {
            cs
        }
    } else {
        cs.push(c)
    }
}

/// No two conditions share a type.
pub open spec fn types_distinct(cs: Seq<Condition>) -> bool {
    forall|i: int, j: int| 0 <= i < j < cs.len() ==> cs[i].type_@ != cs[j].type_@
}

/// Some condition has type `t`, status `s` and reason `r`.
pub open spec fn has_condition(cs: Seq<Condition>, t: Seq<char>, s: Seq<char>, r: Seq<char>) -> bool {
    exists|i: int| 0 <= i < cs.len() && cs[i].type_@ == t && cs[i].status@ == s && cs[i].reason@ == r
}

/// The status text of a boolean condition status.
pub open spec fn status_text(status: bool) -> Seq<char> {
    if status { "True"@ } else { "False"@ }
}

pub proof fn lemma_type_index(cs: Seq<Condition>, t: Seq<char>)
    ensures
        0 <= type_index(cs, t) <= cs.len(),
        type_index(cs, t) < cs.len() ==> cs[type_index(cs, t)].type_@ == t,
        forall|j: int| 0 <= j < type_index(cs, t) ==> cs[j].type_@ != t,
    decreases cs.len(),
{
    if cs.len() > 0 && cs[0].type_@ != t {
        lemma_type_index(cs.drop_first(), t);
        assert forall|j: int| 0 <= j < type_index(cs, t) implies cs[j].type_@ != t by {
            if j > 0 {
                assert(cs[j] == cs.drop_first()[j - 1]);
            }
        }
    }
}

/// The first index of type `t` is the unique index with that type and none
/// before it.
pub proof fn lemma_type_index_unique(cs: Seq<Condition>, t: Seq<char>, i: int)
    requires
        0 <= i <= cs.len(),
        i < cs.len() ==> cs[i].type_@ == t,
        forall|j: int| 0 <= j < i ==> cs[j].type_@ != t,
    ensures
        type_index(cs, t) == i,
{
    lemma_type_index(cs, t);
    let k = type_index(cs, t);
    if k < i {
        assert(cs[k].type_@ == t);
    } else if i < k {
        assert(cs[i].type_@ != t);
    }
}

/// A copy of a list of ids.
pub fn clone_ids(v: &Vec<i32>) -> (r: Vec<i32>)
    ensures
        r@ == v@,
{
    let mut r: Vec<i32> = Vec::new();
    let n = v.len();
    let mut i: usize = 0;
    while i < n
        invariant
            n == v@.len(),
            i <= n,
            r@ == v@.take(i as int),
        decreases n - i,
    {
        r.push(v[i]);
        assert(v@.take(i + 1) =~= v@.take(i as int).push(v@[i as int]));
        i = i + 1;
    }
    assert(v@.take(n as int) =~= v@);
    r
}

/// A copy of a list of conditions.
pub fn clone_conditions(v: &Vec<Condition>) -> (r: Vec<Condition>)
    ensures
        r@ == v@,
{
    let mut r: Vec<Condition> = Vec::new();
    let n = v.len();
    let mut i: usize = 0;
    while i < n
        invariant
            n == v@.len(),
            i <= n,
            r@ == v@.take(i as int),
        decreases n - i,
    {
        r.push(v[i].clone());
        proof {
            assert(v@.take(i + 1) =~= v@.take(i as int).push(v@[i as int]));
        }
        i = i + 1;
    }
    assert(v@.take(n as int) =~= v@);
    r
}

/// A condition of type "Ready" that changed at `time`.
pub fn ready_condition_at(status: bool, reason: &str, message: &str, time: Time) -> (c: Condition)
    ensures
        c.type_@ == "Ready"@,
        c.status@ == status_text(status),
        c.reason@ == reason@,
        c.message@ == message@,
        c.last_transition_time == time,
        c.observed_generation.is_none(),
{
    Condition {
        type_: string_of("Ready"),
        status: string_of(if status { "True" } else { "False" }),
        reason: string_of(reason),
        message: string_of(message),
        last_transition_time: time,
        observed_generation: None,
    }
}

/// A condition of type "Ready" that changed now: `ready_condition_at` with the
/// time the clock reads, or nothing when the clock reads a time outside
/// the years -9999 to 9999.
pub fn ready_condition(status: bool, reason: &str, message: &str) -> (c: Option<Condition>)
    ensures
        c matches Some(c) ==> {
            &&& c.type_@ == "Ready"@
            &&& c.status@ == status_text(status)
            &&& c.reason@ == reason@
            &&& c.message@ == message@
            &&& c.observed_generation is None
        },
{
    match now() {
        Some(time) => Some(ready_condition_at(status, reason, message, time)),
        None => None,
    }
}

/// A condition of type "Progressing" that changed at `time`.
pub fn progressing_condition_at(status: bool, reason: &str, message: &str, time: Time) -> (c: Condition)
    ensures
        c.type_@ == "Progressing"@,
        c.status@ == status_text(status),
        c.reason@ == reason@,
        c.message@ == message@,
        c.last_transition_time == time,
        c.observed_generation.is_none(),
{
    Condition {
        type_: string_of("Progressing"),
        status: string_of(if status { "True" } else { "False" }),
        reason: string_of(reason),
        message: string_of(message),
        last_transition_time: time,
        observed_generation: None,
    }
}

/// A condition of type "Progressing" that changed now: `progressing_condition_at` with the
/// time the clock reads, or nothing when the clock reads a time outside
/// the years -9999 to 9999.
pub fn progressing_condition(status: bool, reason: &str, message: &str) -> (c: Option<Condition>)
    ensures
        c matches Some(c) ==> {
            &&& c.type_@ == "Progressing"@
            &&& c.status@ == status_text(status)
            &&& c.reason@ == reason@
            &&& c.message@ == message@
            &&& c.observed_generation is None
        },
{
    match now() {
        Some(time) => Some(progressing_condition_at(status, reason, message, time)),
        None => None,
    }
}

/// The current time, or nothing when the system clock is outside the
/// years -9999 to 9999.
fn now() -> Option<Time> {
    match timestamp_nanos(system_now()) {
        Some(nanos) => Some(Time { nanos }),
        None => None,
    }
}

#[verifier::external_type_specification]
#[verifier::external_body]
pub struct ExSystemTime(std::time::SystemTime);

/// The system clock (`std::time::SystemTime::now`). Nothing is stated of
/// the instant it reads.
#[verifier::external_body]
pub(crate) fn system_now() -> std::time::SystemTime {
    std::time::SystemTime::now()
}

/// A system time as nanoseconds since the Unix epoch, through a timestamp
/// (`jiff::Timestamp::try_from`, through k8s-openapi, then
/// `as_nanosecond`); nothing when it is outside the years -9999 to 9999.
/// Nothing is stated of the value, since the system time is opaque here.
#[verifier::external_body]
fn timestamp_nanos(t: std::time::SystemTime) -> Option<i128> {
    match k8s_openapi::jiff::Timestamp::try_from(t) {
        Ok(ts) => Some(ts.as_nanosecond()),
        Err(_) => None,
    }
}

/// Folds `new_condition` into `conditions`: the first condition of the same
/// type is replaced when its status or reason differs, kept otherwise; a
/// condition of a new type is appended.
pub fn update_conditions(conditions: &mut Vec<Condition>, new_condition: Condition)
    ensures
        final(conditions)@ == conditions_after(old(conditions)@, new_condition),
{
    let ghost cs = conditions@;
    let n = conditions.len();
    let mut i: usize = 0;
    while i < n
        invariant
            n == conditions@.len(),
            cs == conditions@,
            cs == old(conditions)@,
            i <= n,
            forall|j: int| 0 <= j < i ==> cs[j].type_@ != new_condition.type_@,
        decreases n - i,
    {
        if conditions[i].type_ == new_condition.type_ {
            proof {
                lemma_type_index_unique(cs, new_condition.type_@, i as int);
            }
            if conditions[i].status != new_condition.status || conditions[i].reason != new_condition.reason {
                conditions.set(i, new_condition);
            }
            return;
        }
        i = i + 1;
    }
    proof {
        lemma_type_index_unique(cs, new_condition.type_@, n as int);
    }
    conditions.push(new_condition);
}

/// After folding in a condition, the list holds a condition of its type with
/// its status and reason.
pub proof fn lemma_update_reflects_new(cs: Seq<Condition>, c: Condition)
    ensures
        has_condition(conditions_after(cs, c), c.type_@, c.status@, c.reason@),
{
    lemma_type_index(cs, c.type_@);
    let r = conditions_after(cs, c);
    let i = type_index(cs, c.type_@);
    if i < cs.len() {
        assert(r[i].type_@ == c.type_@ && r[i].status@ == c.status@ && r[i].reason@ == c.reason@);
    } else {
        assert(r[cs.len() as int] == c);
    }
}

/// Folding in the same condition twice gives the list that folding it in
/// once gives.
pub proof fn lemma_update_idempotent(cs: Seq<Condition>, c: Condition)
    ensures
        conditions_after(conditions_after(cs, c), c) == conditions_after(cs, c),
{
    let t = c.type_@;
    lemma_type_index(cs, t);
    let i = type_index(cs, t);
    let r = conditions_after(cs, c);
    if i < cs.len() {
        lemma_type_index_unique(r, t, i);
    } else {
        lemma_type_index_unique(r, t, cs.len() as int);
    }
}

/// Folding in a condition keeps the types of the list distinct, and leaves
/// every condition of another type where it was.
pub proof fn lemma_update_keeps_others(cs: Seq<Condition>, c: Condition)
    requires
        types_distinct(cs),
    ensures
        types_distinct(conditions_after(cs, c)),
        forall|j: int| 0 <= j < cs.len() && cs[j].type_@ != c.type_@
            ==> conditions_after(cs, c)[j] == cs[j],
        conditions_after(cs, c).len() <= cs.len() + 1,
{
    lemma_type_index(cs, c.type_@);
    let r = conditions_after(cs, c);
    let i = type_index(cs, c.type_@);
    if i >= cs.len() {
        assert forall|a: int, b: int| 0 <= a < b < r.len() implies r[a].type_@ != r[b].type_@ by {
            if b == cs.len() {
                assert(cs[a].type_@ != c.type_@);
            }
        }
    }
}

} // verus!
