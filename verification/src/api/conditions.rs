//! Status conditions and events.
use vstd::prelude::*;

use crate::text;

verus! {

/// One entry of `status.conditions`.
#[derive(Debug, Default)]
pub struct Condition {
    pub type_: String,
    pub status: String,
    pub reason: String,
    pub message: String,
    pub observed_generation: Option<i64>,
}

/// What a condition says.
pub struct ConditionView {
    pub type_: Seq<char>,
    pub status: Seq<char>,
    pub reason: Seq<char>,
    pub message: Seq<char>,
    pub observed_generation: Option<i64>,
}

impl View for Condition {
    type V = ConditionView;

    open spec fn view(&self) -> ConditionView {
        ConditionView {
            type_: self.type_@,
            status: self.status@,
            reason: self.reason@,
            message: self.message@,
            observed_generation: self.observed_generation,
        }
    }
}

/// What a list of conditions says.
pub open spec fn conditions_view(v: Seq<Condition>) -> Seq<ConditionView> {
    v.map_values(|c: Condition| c@)
}

/// A condition with the given parts.
pub open spec fn cond(
    type_: Seq<char>,
    status: Seq<char>,
    reason: Seq<char>,
    message: Seq<char>,
    generation: Option<i64>,
) -> ConditionView {
    ConditionView { type_, status, reason, message, observed_generation: generation }
}

/// The status text of a truth value.
pub open spec fn status_text(ok: bool) -> Seq<char> {
    if ok {
        "True"@
    } else {
        "False"@
    }
}

/// Where the condition of the given type stands.
pub open spec fn position(s: Seq<ConditionView>, type_: Seq<char>) -> Option<int>
    decreases s.len(),
{
    if s.len() == 0 {
        None
    } else {
        match position(s.drop_last(), type_) {
            Some(i) => Some(i),
            None => if s.last().type_ == type_ {
                Some(s.len() - 1)
            } else {
                None
            },
        }
    }
}

/// The list after setting a condition: it replaces the one of its type, or
/// joins the list when there is none.
pub open spec fn upsert(s: Seq<ConditionView>, c: ConditionView) -> Seq<ConditionView> {
    match position(s, c.type_) {
        Some(i) => s.update(i, c),
        None => s.push(c),
    }
}

/// Whether some condition of the given type has status `True`.
pub open spec fn is_true(s: Seq<ConditionView>, type_: Seq<char>) -> bool {
    exists|i: int|
        0 <= i < s.len() && (#[trigger] s[i]).type_ == type_ && s[i].status == "True"@
}

/// A position found in a prefix is the position in the whole list.
proof fn lemma_position_take(s: Seq<ConditionView>, t: Seq<char>, n: int)
    requires
        0 <= n <= s.len(),
        position(s.take(n), t) is Some,
    ensures
        position(s, t) == position(s.take(n), t),
    decreases s.len() - n,
{
    if n < s.len() {
        assert(s.take(n + 1).drop_last() =~= s.take(n));
        lemma_position_take(s, t, n + 1);
    } else {
        assert(s.take(n) =~= s);
    }
}

/// The position is within the list, and it is that of the first condition
/// of the type.
pub proof fn lemma_position(s: Seq<ConditionView>, t: Seq<char>)
    ensures
        match position(s, t) {
            Some(i) => 0 <= i < s.len() && s[i].type_ == t && forall|j: int|
                0 <= j < i ==> (#[trigger] s[j]).type_ != t,
            None => forall|j: int| 0 <= j < s.len() ==> (#[trigger] s[j]).type_ != t,
        },
    decreases s.len(),
{
    if s.len() > 0 {
        lemma_position(s.drop_last(), t);
        assert forall|j: int| 0 <= j < s.len() - 1 implies #[trigger] s[j] == s.drop_last()[j] by {}
    }
}

/// After setting a condition, the list holds it under its type.
pub proof fn law_upsert_sets(s: Seq<ConditionView>, c: ConditionView)
    ensures
        position(upsert(s, c), c.type_) is Some,
        upsert(s, c)[position(upsert(s, c), c.type_)->0] == c,
{
    lemma_position(s, c.type_);
    lemma_position(upsert(s, c), c.type_);
    let r = upsert(s, c);
    match position(s, c.type_) {
        Some(i) => {
            assert(r[i] == c);
            let p = position(r, c.type_)->0;
            if position(r, c.type_) is None {
                assert(r[i].type_ != c.type_);
            }
            if p < i {
                assert(r[p] == s[p]);
            }
        },
        None => {
            assert(r[s.len() as int] == c);
            let p = position(r, c.type_)->0;
            if p < s.len() {
                assert(r[p] == s[p]);
            }
        },
    }
}

/// Setting a condition changes no condition of another type.
pub proof fn law_upsert_keeps_others(s: Seq<ConditionView>, c: ConditionView, t: Seq<char>)
    requires
        t != c.type_,
    ensures
        position(upsert(s, c), t) == position(s, t),
        position(s, t) matches Some(i) ==> upsert(s, c)[i] == s[i],
{
    let r = upsert(s, c);
    lemma_position(s, t);
    lemma_position(s, c.type_);
    lemma_position(r, t);
    match position(s, t) {
        Some(i) => {
            assert(r[i] == s[i]);
            match position(r, t) {
                Some(p) => {
                    if p < i {
                        assert(s[p].type_ != t);
                        assert(r[p] == s[p] || r[p] == c);
                    } else if p > i {
                        assert(r[i].type_ != t);
                    }
                },
                None => {
                    assert(r[i].type_ != t);
                },
            }
        },
        None => {
            if position(r, t) is Some {
                let p = position(r, t)->0;
                if p < s.len() {
                    assert(s[p].type_ != t);
                    assert(r[p] == s[p] || r[p] == c);
                }
            }
        },
    }
}

/// What a list of conditions tells of a type: the first condition of it.
pub open spec fn told(s: Seq<ConditionView>, type_: Seq<char>) -> Option<ConditionView> {
    match position(s, type_) {
        Some(i) => Some(s[i]),
        None => None,
    }
}

/// Whether a list of conditions tells of a type with this status and reason,
/// as of this generation.
pub open spec fn tells(
    s: Seq<ConditionView>,
    type_: Seq<char>,
    status: Seq<char>,
    reason: Seq<char>,
    generation: Option<i64>,
) -> bool {
    told(s, type_) matches Some(c) && c.type_ == type_ && c.status == status && c.reason == reason
        && c.observed_generation == generation
}

/// Setting a condition is told under its type, and of other types the list
/// tells what it told before.
pub proof fn law_upsert_is_told(s: Seq<ConditionView>, c: ConditionView)
    ensures
        told(upsert(s, c), c.type_) == Some(c),
        forall|t: Seq<char>| t != c.type_ ==> #[trigger] told(upsert(s, c), t) == told(s, t),
{
    law_upsert_sets(s, c);
    assert forall|t: Seq<char>| t != c.type_ implies #[trigger] told(upsert(s, c), t) == told(
        s,
        t,
    ) by {
        law_upsert_keeps_others(s, c, t);
    }
}

/// What is told after any condition was set.
pub proof fn lemma_upserts_are_told()
    ensures
        forall|s: Seq<ConditionView>, c: ConditionView|
            told(#[trigger] upsert(s, c), c.type_) == Some(c),
        forall|s: Seq<ConditionView>, c: ConditionView, t: Seq<char>|
            t != c.type_ ==> #[trigger] told(upsert(s, c), t) == told(s, t),
{
    assert forall|s: Seq<ConditionView>, c: ConditionView| told(
        #[trigger] upsert(s, c),
        c.type_,
    ) == Some(c) by {
        law_upsert_is_told(s, c);
    }
    assert forall|s: Seq<ConditionView>, c: ConditionView, t: Seq<char>|
        t != c.type_ implies #[trigger] told(upsert(s, c), t) == told(s, t) by {
        law_upsert_is_told(s, c);
    }
}

/// What is told of a type is the first condition of that type, and there is
/// something told whenever there is one.
pub proof fn law_told_is_first(s: Seq<ConditionView>, t: Seq<char>, i: int)
    requires
        0 <= i < s.len(),
        s[i].type_ == t,
        forall|j: int| 0 <= j < i ==> (#[trigger] s[j]).type_ != t,
    ensures
        told(s, t) == Some(s[i]),
{
    lemma_position(s, t);
}

impl Condition {
    /// A condition with the given parts.
    pub fn new(
        type_: &str,
        status: &str,
        reason: &str,
        message: &str,
        observed_generation: Option<i64>,
    ) -> (r: Condition)
        ensures
            r@ == cond(type_@, status@, reason@, message@, observed_generation),
    {
        Condition {
            type_: type_.to_owned(),
            status: status.to_owned(),
            reason: reason.to_owned(),
            message: message.to_owned(),
            observed_generation,
        }
    }
}

impl Clone for Condition {
    fn clone(&self) -> (r: Condition)
        ensures
            r@ == self@,
    {
        Condition {
            type_: self.type_.clone(),
            status: self.status.clone(),
            reason: self.reason.clone(),
            message: self.message.clone(),
            observed_generation: self.observed_generation,
        }
    }
}

/// The status text of a truth value.
pub fn status_str(ok: bool) -> (r: &'static str)
    ensures
        r@ == status_text(ok),
{
    if ok {
        "True"
    } else {
        "False"
    }
}

/// A list that says the same.
pub fn clone_conditions(v: &Vec<Condition>) -> (r: Vec<Condition>)
    ensures
        conditions_view(r@) == conditions_view(v@),
{
    let mut out: Vec<Condition> = Vec::new();
    let mut i: usize = 0;
    while i < v.len()
        invariant
            i <= v.len(),
            conditions_view(out@) == conditions_view(v@.take(i as int)),
        decreases v.len() - i,
    {
        let c = v[i].clone();
        proof {
            assert(conditions_view(out@.push(c)) =~= conditions_view(out@).push(c@));
            assert(conditions_view(v@.take(i + 1)) =~= conditions_view(v@.take(i as int)).push(
                v@[i as int]@,
            ));
        }
        out.push(c);
        i = i + 1;
    }
    assert(v@.take(i as int) =~= v@);
    out
}

/// Sets a condition: it replaces the one of its type, or joins the list
/// when there is none.
pub fn set_condition(v: &mut Vec<Condition>, c: Condition)
    ensures
        conditions_view(final(v)@) == upsert(conditions_view(old(v)@), c@),
{
    let mut i: usize = 0;
    assert(conditions_view(v@).take(0) =~= Seq::empty());
    while i < v.len()
        invariant
            i <= v.len(),
            v@ == old(v)@,
            position(conditions_view(v@).take(i as int), c@.type_) is None,
        decreases v.len() - i,
    {
        proof {
            let s = conditions_view(v@);
            assert(s.take(i + 1).drop_last() =~= s.take(i as int));
            assert(s[i as int].type_ == v@[i as int].type_@);
        }
        if text::same(v[i].type_.as_str(), c.type_.as_str()) {
            proof {
                lemma_position_take(conditions_view(v@), c@.type_, i + 1);
                assert(conditions_view(v@.update(i as int, c)) =~= conditions_view(v@).update(
                    i as int,
                    c@,
                ));
            }
            v.set(i, c);
            return ;
        }
        i = i + 1;
    }
    proof {
        assert(conditions_view(v@).take(i as int) =~= conditions_view(v@));
        assert(conditions_view(v@.push(c)) =~= conditions_view(v@).push(c@));
    }
    v.push(c);
}

/// Whether some condition of the given type has status `True`.
pub fn condition_true(v: &Vec<Condition>, type_: &str) -> (r: bool)
    ensures
        r == is_true(conditions_view(v@), type_@),
{
    let mut i: usize = 0;
    while i < v.len()
        invariant
            i <= v.len(),
            forall|j: int|
                0 <= j < i ==> !((#[trigger] conditions_view(v@)[j]).type_ == type_@
                    && conditions_view(v@)[j].status == "True"@),
        decreases v.len() - i,
    {
        assert(conditions_view(v@)[i as int] == v@[i as int]@);
        if text::same(v[i].type_.as_str(), type_) && text::same(v[i].status.as_str(), "True") {
            return true;
        }
        i = i + 1;
    }
    false
}

/// Whether an event reports something expected or a problem.
#[derive(Clone, Copy, Debug, PartialEq, Eq, Structural)]
pub enum EventType {
    Normal,
    Warning,
}

/// A Kubernetes event about a resource.
#[derive(Clone, Debug)]
pub struct Event {
    pub type_: EventType,
    pub reason: String,
    pub note: String,
    pub action: String,
}

/// What an event says.
pub struct EventView {
    pub type_: EventType,
    pub reason: Seq<char>,
    pub note: Seq<char>,
    pub action: Seq<char>,
}

impl View for Event {
    type V = EventView;

    open spec fn view(&self) -> EventView {
        EventView {
            type_: self.type_,
            reason: self.reason@,
            note: self.note@,
            action: self.action@,
        }
    }
}

/// An event with the given parts.
pub open spec fn event(
    type_: EventType,
    reason: Seq<char>,
    note: Seq<char>,
    action: Seq<char>,
) -> EventView {
    EventView { type_, reason, note, action }
}

/// What an optional event says.
pub open spec fn opt_event(e: Option<Event>) -> Option<EventView> {
    match e {
        Some(e) => Some(e@),
        None => None,
    }
}

impl Event {
    /// An event with the given parts.
    pub fn new(type_: EventType, reason: &str, note: &str, action: &str) -> (r: Event)
        ensures
            r@ == event(type_, reason@, note@, action@),
    {
        Event {
            type_,
            reason: reason.to_owned(),
            note: note.to_owned(),
            action: action.to_owned(),
        }
    }
}

} // verus!
