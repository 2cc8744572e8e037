// Callback results and the fold that combines them within one wake-up.
use vstd::prelude::*;

verus! {

/// What a handler callback asks the engine to do next.
#[derive(Debug, PartialEq, Eq)]
pub enum CallbackRez {
    PushToRenderer,
    Continue,
    Terminate(String),
}

/// Combines the result of an earlier callback (`a`) with a later one (`b`):
/// a terminate dominates everything (the earliest one wins), a render request
/// dominates `Continue`, and `Continue` is the identity.
pub open spec fn pick_spec(a: CallbackRez, b: CallbackRez) -> CallbackRez {
    match a {
        CallbackRez::Terminate(_) => a,
        CallbackRez::Continue => b,
        CallbackRez::PushToRenderer => match b {
            CallbackRez::Continue => CallbackRez::PushToRenderer,
            _ => b,
        },
    }
}

/// The result of a whole turn whose callbacks returned `s`, in order.
pub open spec fn fold_results(s: Seq<CallbackRez>) -> CallbackRez
    decreases s.len(),
{
    if s.len() == 0 {
        CallbackRez::Continue
    } else {
        pick_spec(fold_results(s.drop_last()), s.last())
    }
}

pub open spec fn has_terminate(s: Seq<CallbackRez>) -> bool {
    exists|i: int| 0 <= i < s.len() && (#[trigger] s[i]) is Terminate
}

pub open spec fn has_render(s: Seq<CallbackRez>) -> bool {
    exists|i: int| 0 <= i < s.len() && (#[trigger] s[i]) is PushToRenderer
}

/// Index of the first terminate in `s` (meaningful when there is one).
pub open spec fn first_terminate(s: Seq<CallbackRez>) -> int
    decreases s.len(),
{
    if s.len() == 0 {
        0
    } else if has_terminate(s.drop_last()) {
        first_terminate(s.drop_last())
    } else {
        s.len() - 1
    }
}

impl CallbackRez {
    /// Folds `other`, the result of a later callback, into `self`.
    pub fn pick(self, other: CallbackRez) -> (r: CallbackRez)
        ensures
            r == pick_spec(self, other),
    {
        match self {
            CallbackRez::PushToRenderer => match other {
                CallbackRez::Continue => CallbackRez::PushToRenderer,
                x => x,
            },
            CallbackRez::Continue => other,
            CallbackRez::Terminate(x) => CallbackRez::Terminate(x),
        }
    }
}

/// `Continue` is a left and right identity of the fold.
pub proof fn lemma_pick_identity(a: CallbackRez)
    ensures
        pick_spec(CallbackRez::Continue, a) == a,
        pick_spec(a, CallbackRez::Continue) == a,
{
}

/// Folding is associative, so callbacks may be folded in any grouping.
pub proof fn lemma_pick_associative(a: CallbackRez, b: CallbackRez, c: CallbackRez)
    ensures
        pick_spec(pick_spec(a, b), c) == pick_spec(a, pick_spec(b, c)),
{
}

/// The result of a turn: the earliest terminate if any callback asked to
/// terminate; otherwise a render if any callback asked for one; otherwise
/// `Continue`.
pub proof fn lemma_fold_dominance(s: Seq<CallbackRez>)
    ensures
        has_terminate(s) ==> 0 <= first_terminate(s) < s.len() && s[first_terminate(s)] is Terminate
            && fold_results(s) == s[first_terminate(s)]
            && (forall|j: int| 0 <= j < first_terminate(s) ==> !(#[trigger] s[j] is Terminate)),
        !has_terminate(s) && has_render(s) ==> fold_results(s) == CallbackRez::PushToRenderer,
        !has_terminate(s) && !has_render(s) ==> fold_results(s) == CallbackRez::Continue,
    decreases s.len(),
{
    if s.len() > 0 {
        let p = s.drop_last();
        lemma_fold_dominance(p);
        assert forall|i: int| 0 <= i < p.len() implies p[i] == s[i] by {}
        if has_terminate(p) {
            let w = choose|i: int| 0 <= i < p.len() && (#[trigger] p[i]) is Terminate;
            assert(s[w] is Terminate);
            assert(first_terminate(s) == first_terminate(p));
            assert(fold_results(s) == fold_results(p));
            assert forall|j: int| 0 <= j < first_terminate(s) implies !(#[trigger] s[j] is Terminate) by {
                assert(p[j] == s[j]);
            }
        }
        if has_render(p) {
            let w = choose|i: int| 0 <= i < p.len() && (#[trigger] p[i]) is PushToRenderer;
            assert(s[w] is PushToRenderer);
        }
        if s.last() is Terminate {
            assert(has_terminate(s));
            if !has_terminate(p) {
                assert forall|j: int| 0 <= j < p.len() implies !(#[trigger] s[j] is Terminate) by {
                    if s[j] is Terminate {
                        assert(p[j] is Terminate);
                    }
                }
            }
        }
        if s.last() is PushToRenderer {
            assert(has_render(s));
        }
        if has_terminate(s) && !has_terminate(p) {
            let w = choose|i: int| 0 <= i < s.len() && (#[trigger] s[i]) is Terminate;
            if w < p.len() {
                assert(p[w] is Terminate);
            }
        }
        if has_render(s) && !has_render(p) && !(s.last() is PushToRenderer) {
            let w = choose|i: int| 0 <= i < s.len() && (#[trigger] s[i]) is PushToRenderer;
            assert(p[w] is PushToRenderer);
        }
    }
}

} // verus!
