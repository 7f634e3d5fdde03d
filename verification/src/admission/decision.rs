//! The outcome of an admission review, and how the first defect of an object
//! is found.
use vstd::prelude::*;

use crate::text::texts;

verus! {

/// The outcome of an admission review.
#[derive(Debug)]
pub enum Decision {
    /// The object may be written; the warnings are shown to whoever writes
    /// it.
    Admit { warnings: Vec<String> },
    /// The object may not be written, for this reason.
    Deny(String),
    /// The review itself makes no sense, for this reason.
    Invalid(String),
}

/// What an outcome says.
#[verifier::ext_equal]
pub enum DecisionView {
    Admit(Seq<Seq<char>>),
    Deny(Seq<char>),
    Invalid(Seq<char>),
}

impl View for Decision {
    type V = DecisionView;

    open spec fn view(&self) -> DecisionView {
        match *self {
            Decision::Admit { warnings } => DecisionView::Admit(texts(warnings@)),
            Decision::Deny(m) => DecisionView::Deny(m@),
            Decision::Invalid(m) => DecisionView::Invalid(m@),
        }
    }
}

/// The outcome for an object with the given defect, if any.
pub open spec fn judged(defect: Option<Seq<char>>) -> DecisionView {
    match defect {
        Some(m) => DecisionView::Deny(m),
        None => DecisionView::Admit(Seq::empty()),
    }
}

/// The outcome of a review that could not be read.
pub fn malformed() -> (r: Decision)
    ensures
        r@ == DecisionView::Invalid("malformed admission review"@),
{
    Decision::Invalid("malformed admission review".to_owned())
}

/// The outcome of a review without an object, as for a deletion.
pub fn admitted() -> (r: Decision)
    ensures
        r@ == DecisionView::Admit(Seq::empty()),
{
    let warnings: Vec<String> = Vec::new();
    assert(texts(warnings@) =~= Seq::empty());
    Decision::Admit { warnings }
}

/// Whether a check found exactly the given defect.
pub open spec fn finds(r: Result<(), String>, defect: Option<Seq<char>>) -> bool {
    match r {
        Ok(_) => defect is None,
        Err(m) => defect == Some(m@),
    }
}

/// The outcome that follows a check.
pub fn judge(checked: Result<(), String>) -> (r: Decision)
    ensures
        match checked {
            Ok(_) => r@ == judged(None),
            Err(m) => r@ == judged(Some(m@)),
        },
{
    match checked {
        Ok(_) => admitted(),
        Err(m) => Decision::Deny(m),
    }
}

/// The outcome that follows a check that may warn.
pub fn judge_with_warnings(checked: Result<Vec<String>, String>) -> (r: Decision)
    ensures
        match checked {
            Ok(w) => r@ == DecisionView::Admit(texts(w@)),
            Err(m) => r@ == DecisionView::Deny(m@),
        },
{
    match checked {
        Ok(warnings) => Decision::Admit { warnings },
        Err(m) => Decision::Deny(m),
    }
}

/// The first of two defects.
pub open spec fn first_of(a: Option<Seq<char>>, b: Option<Seq<char>>) -> Option<Seq<char>> {
    match a {
        Some(m) => Some(m),
        None => b,
    }
}

/// The defect, when there is one.
pub open spec fn flagged(bad: bool, message: Seq<char>) -> Option<Seq<char>> {
    if bad {
        Some(message)
    } else {
        None
    }
}

/// The defect of the first of `n` items that has one.
pub open spec fn first_defect(n: nat, at: spec_fn(int) -> Option<Seq<char>>) -> Option<Seq<char>>
    decreases n,
{
    if n == 0 {
        None
    } else {
        first_of(first_defect((n - 1) as nat, at), at(n - 1))
    }
}

/// When no item before `i` has a defect and item `i` has one, that is the
/// first.
pub proof fn lemma_first_defect(n: nat, at: spec_fn(int) -> Option<Seq<char>>, i: nat)
    requires
        i < n,
        first_defect(i, at) is None,
        at(i as int) is Some,
    ensures
        first_defect(n, at) == at(i as int),
    decreases n,
{
    if n > i + 1 {
        lemma_first_defect((n - 1) as nat, at, i);
    }
}

/// When there is no first defect, no item has one.
pub proof fn lemma_no_defect(n: nat, at: spec_fn(int) -> Option<Seq<char>>, i: int)
    requires
        first_defect(n, at) is None,
        0 <= i < n,
    ensures
        at(i) is None,
    decreases n,
{
    if i < n - 1 {
        lemma_no_defect((n - 1) as nat, at, i);
    }
}

/// Whether there is a defect is whether some item has one, and the defect is
/// that of the first item that has one.
pub proof fn law_first_defect_is_the_first(n: nat, at: spec_fn(int) -> Option<Seq<char>>)
    ensures
        first_defect(n, at) is None <==> forall|i: int| 0 <= i < n ==> (#[trigger] at(i)) is None,
        first_defect(n, at) matches Some(m) ==> exists|i: int|
            0 <= i < n && #[trigger] at(i) == Some(m) && forall|j: int|
                0 <= j < i ==> (#[trigger] at(j)) is None,
    decreases n,
{
    if n > 0 {
        let k = (n - 1) as nat;
        law_first_defect_is_the_first(k, at);
        if first_defect(n, at) is None {
            assert forall|i: int| 0 <= i < n implies (#[trigger] at(i)) is None by {
                lemma_no_defect(n, at, i);
            }
        }
        if first_defect(k, at) is None && at(n - 1) is Some {
            assert forall|j: int| 0 <= j < n - 1 implies (#[trigger] at(j)) is None by {}
            assert(at(n - 1) == first_defect(n, at));
        }
    }
}

/// An object is denied exactly when it has a defect, with that defect as the
/// reason; otherwise it is admitted without a warning.
pub proof fn law_defects_are_denied(defect: Option<Seq<char>>)
    ensures
        defect matches Some(m) ==> judged(defect) == DecisionView::Deny(m),
        defect is None ==> judged(defect) == DecisionView::Admit(Seq::empty()),
{
}

} // verus!
