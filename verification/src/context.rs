//! Switching a thread between Channel Access contexts.
//!
//! The library keeps one current context per thread, named here by its address (zero when
//! there is none). Detaching always leaves the thread without a context; attaching is refused
//! while a context is attached. Every operation that needs a context attaches it for its
//! duration and then puts back the context that was current before; the functions here say
//! which steps to take, and their contracts prove that the steps are never refused and end in
//! the intended state.
use vstd::prelude::*;

use crate::caerr::spec_extract_success;
use crate::error::{result_from_raw, spec_decode, Error};

verus! {

/// Step that a thread takes on its current context.
#[derive(Debug, Clone, Copy, PartialEq, Eq, Structural)]
pub enum ContextAction {
    /// Leave the thread without a context.
    Detach,
    /// Make the context at the given address current.
    Attach(usize),
}

/// Current context after taking `steps` from `current`; `None` when a step is refused.
pub open spec fn spec_apply(current: usize, steps: Seq<ContextAction>) -> Option<usize>
    decreases steps.len(),
{
    if steps.len() == 0 {
        Some(current)
    } else {
        match steps[0] {
            ContextAction::Detach => spec_apply(0, steps.drop_first()),
            ContextAction::Attach(c) => if current == 0 && c != 0 {
                spec_apply(c, steps.drop_first())
            } else {
                None
            },
        }
    }
}

/// Taking two lists of steps one after the other is taking their concatenation.
pub proof fn lemma_apply_concat(current: usize, a: Seq<ContextAction>, b: Seq<ContextAction>)
    ensures
        spec_apply(current, a + b) == match spec_apply(current, a) {
            Some(mid) => spec_apply(mid, b),
            None => None::<usize>,
        },
    decreases a.len(),
{
    if a.len() == 0 {
        assert(a + b =~= b);
    } else {
        assert((a + b).drop_first() =~= a.drop_first() + b);
        match a[0] {
            ContextAction::Detach => lemma_apply_concat(0, a.drop_first(), b),
            ContextAction::Attach(c) => {
                if current == 0 && c != 0 {
                    lemma_apply_concat(c, a.drop_first(), b);
                }
            },
        }
    }
}

/// Steps that make `target` current, starting from `current`: none when it already is,
/// else a detach if some other context is attached, then an attach.
pub fn enter_actions(current: usize, target: usize) -> (r: Vec<ContextAction>)
    requires
        target != 0,
    ensures
        spec_apply(current, r@) == Some(target),
        current == target ==> r@.len() == 0,
{
    let mut steps: Vec<ContextAction> = Vec::new();
    if current != target {
        if current != 0 {
            steps.push(ContextAction::Detach);
        }
        steps.push(ContextAction::Attach(target));
    }
    proof {
        reveal_with_fuel(spec_apply, 3);
    }
    steps
}

/// Steps that put back `prev` once an operation in `target` is done, undoing
/// [`enter_actions`]: none when `prev` was `target`, else a detach, then an attach of `prev`
/// if there was one.
pub fn leave_actions(prev: usize, target: usize) -> (r: Vec<ContextAction>)
    requires
        target != 0,
    ensures
        spec_apply(target, r@) == Some(prev),
        prev == target ==> r@.len() == 0,
{
    let mut steps: Vec<ContextAction> = Vec::new();
    if prev != target {
        steps.push(ContextAction::Detach);
        if prev != 0 {
            steps.push(ContextAction::Attach(prev));
        }
    }
    proof {
        reveal_with_fuel(spec_apply, 3);
    }
    steps
}

/// Steps before creating a context, which the library attaches to the thread: leave the thread
/// without one.
pub fn create_prepare_actions(prev: usize) -> (r: Vec<ContextAction>)
    ensures
        spec_apply(prev, r@) == Some(0usize),
{
    let mut steps: Vec<ContextAction> = Vec::new();
    if prev != 0 {
        steps.push(ContextAction::Detach);
    }
    proof {
        reveal_with_fuel(spec_apply, 2);
    }
    steps
}

/// Steps after creating a context, from the context that the creation left current (zero when
/// it failed): detach the new context, then put back `prev`.
pub fn create_finish_actions(prev: usize, created: bool) -> (r: Vec<ContextAction>)
    ensures
        forall|current: usize| created ==> spec_apply(current, r@) == Some(prev),
        !created ==> spec_apply(0usize, r@) == Some(prev),
{
    let mut steps: Vec<ContextAction> = Vec::new();
    if created {
        steps.push(ContextAction::Detach);
    }
    if prev != 0 {
        steps.push(ContextAction::Attach(prev));
    }
    proof {
        reveal_with_fuel(spec_apply, 3);
    }
    steps
}

/// Steps before destroying the context `target`, which the library destroys as the current
/// one: make it current.
pub fn destroy_prepare_actions(prev: usize, target: usize) -> (r: Vec<ContextAction>)
    requires
        target != 0,
    ensures
        spec_apply(prev, r@) == Some(target),
{
    let mut steps: Vec<ContextAction> = Vec::new();
    if prev != 0 {
        steps.push(ContextAction::Detach);
    }
    steps.push(ContextAction::Attach(target));
    proof {
        reveal_with_fuel(spec_apply, 3);
    }
    steps
}

/// Steps after destroying a context, which leaves the thread without one: put back `prev`.
pub fn destroy_finish_actions(prev: usize) -> (r: Vec<ContextAction>)
    ensures
        spec_apply(0usize, r@) == Some(prev),
{
    let mut steps: Vec<ContextAction> = Vec::new();
    if prev != 0 {
        steps.push(ContextAction::Attach(prev));
    }
    proof {
        reveal_with_fuel(spec_apply, 2);
    }
    steps
}

/// Context owned by one owner, named by its address.
#[derive(Debug, PartialEq, Eq, Structural)]
pub struct UniqueContext {
    raw: usize,
}

impl UniqueContext {
    #[verifier::type_invariant]
    spec fn inv(self) -> bool {
        self.raw != 0
    }

    /// Address of the context.
    pub closed spec fn spec_raw(self) -> usize {
        self.raw
    }

    /// The context at `raw`; `None` for the null address.
    pub fn from_raw(raw: usize) -> (r: Option<Self>)
        ensures
            r is Some <==> raw != 0,
            r matches Some(c) ==> c.spec_raw() == raw,
    {
        if raw == 0 {
            None
        } else {
            Some(UniqueContext { raw })
        }
    }

    /// The context that a creation produced, given the status that the creation reported and
    /// the context that it left current.
    pub fn new(status: i32, current: usize) -> (r: Result<Self, Error>)
        requires
            spec_extract_success(status) != 0 ==> current != 0,
        ensures
            r is Ok <==> spec_extract_success(status) != 0,
            r matches Ok(c) ==> c.spec_raw() == current,
            r matches Err(e) ==> e == spec_decode(status),
    {
        match result_from_raw(status) {
            Ok(()) => Ok(UniqueContext { raw: current }),
            Err(e) => Err(e),
        }
    }

    /// Address of the context.
    pub fn raw(&self) -> (r: usize)
        ensures
            r == self.spec_raw(),
            r != 0,
    {
        proof {
            use_type_invariant(self);
        }
        self.raw
    }

    /// Steps that make this context current, starting from `current`.
    pub fn enter_actions(&self, current: usize) -> (r: Vec<ContextAction>)
        ensures
            spec_apply(current, r@) == Some(self.spec_raw()),
            current == self.spec_raw() ==> r@.len() == 0,
    {
        enter_actions(current, self.raw())
    }

    /// Steps that put back `prev` once an operation in this context is done.
    pub fn leave_actions(&self, prev: usize) -> (r: Vec<ContextAction>)
        ensures
            spec_apply(self.spec_raw(), r@) == Some(prev),
            prev == self.spec_raw() ==> r@.len() == 0,
    {
        leave_actions(prev, self.raw())
    }
}

/// An operation run inside a context leaves the thread with the context that was current
/// before, and the steps around it are never refused; this holds of nested operations too,
/// whatever contexts they use.
pub proof fn lemma_with_restores(prev: usize, target: usize)
    requires
        target != 0,
    ensures
        forall|enter: Seq<ContextAction>, leave: Seq<ContextAction>|
            spec_apply(prev, enter) == Some(target) && spec_apply(target, leave) == Some(prev)
                ==> #[trigger] spec_apply(prev, enter + leave) == Some(prev),
{
    assert forall|enter: Seq<ContextAction>, leave: Seq<ContextAction>|
        spec_apply(prev, enter) == Some(target) && spec_apply(target, leave) == Some(
            prev,
        ) implies #[trigger] spec_apply(prev, enter + leave) == Some(prev) by {
        lemma_apply_concat(prev, enter, leave);
    }
}

/// Creating a context leaves the thread with the context that was current before, and no step
/// is refused, whatever the creation did: `creation` stands for the steps that the library
/// takes from no context (attaching the new context when it succeeds, nothing when it fails),
/// ending in `after`, from which the finishing steps are planned.
pub proof fn lemma_create_restores(
    prev: usize,
    prepare: Seq<ContextAction>,
    creation: Seq<ContextAction>,
    after: usize,
    finish: Seq<ContextAction>,
)
    requires
        spec_apply(prev, prepare) == Some(0usize),
        spec_apply(0usize, creation) == Some(after),
        spec_apply(after, finish) == Some(prev),
    ensures
        spec_apply(prev, prepare + creation + finish) == Some(prev),
{
    lemma_apply_concat(prev, prepare, creation);
    lemma_apply_concat(prev, prepare + creation, finish);
}

/// The steps planned around a creation, successful or not, put back the context that was
/// current before: after a successful creation, whichever context the library left attached,
/// and after a failed one, which leaves the thread without a context.
pub proof fn lemma_create_plans_restore(prev: usize, prepare: Seq<ContextAction>, finish_ok: Seq<
    ContextAction,
>, finish_failed: Seq<ContextAction>, created: usize)
    requires
        spec_apply(prev, prepare) == Some(0usize),
        forall|current: usize| spec_apply(current, finish_ok) == Some(prev),
        spec_apply(0usize, finish_failed) == Some(prev),
        created != 0,
    ensures
        spec_apply(prev, prepare + seq![ContextAction::Attach(created)] + finish_ok) == Some(prev),
        spec_apply(prev, prepare + Seq::<ContextAction>::empty() + finish_failed) == Some(prev),
{
    reveal_with_fuel(spec_apply, 2);
    assert(spec_apply(0usize, seq![ContextAction::Attach(created)]) == Some(created));
    lemma_create_restores(prev, prepare, seq![ContextAction::Attach(created)], created, finish_ok);
    lemma_create_restores(prev, prepare, Seq::<ContextAction>::empty(), 0usize, finish_failed);
}

/// Destroying a context, which leaves the thread without one, puts back the context that was
/// current before, and no step is refused.
pub proof fn lemma_destroy_restores(
    prev: usize,
    target: usize,
    prepare: Seq<ContextAction>,
    finish: Seq<ContextAction>,
)
    requires
        spec_apply(prev, prepare) == Some(target),
        spec_apply(0usize, finish) == Some(prev),
    ensures
        spec_apply(prev, prepare + seq![ContextAction::Detach] + finish) == Some(prev),
{
    reveal_with_fuel(spec_apply, 2);
    lemma_apply_concat(prev, prepare, seq![ContextAction::Detach]);
    lemma_apply_concat(prev, prepare + seq![ContextAction::Detach], finish);
}

} // verus!
