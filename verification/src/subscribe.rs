//! What a subscription does with the updates it receives.
use vstd::prelude::*;

use std::collections::VecDeque;

use core::marker::PhantomData;

use crate::caerr::spec_extract_success;
use crate::channel::ProcessData;
use crate::error::{result_from_raw, spec_decode, Error};
use crate::get::{clone_vec_some, copy_some};
use crate::db_access::{DBE_ALARM, DBE_VALUE};
use crate::request::{ReadRequest, Request};
use crate::types::id::{spec_request_raw, EventMask};

verus! {

/// Store of the outcomes of a subscription's updates, read one at a time.
pub trait Queue {
    /// Type of the request that each update brings.
    type Request: ReadRequest + ?Sized;
    /// Outcome of an update.
    type Output;

    /// Takes in an update: the request received, or the error that the update reports.
    fn push(&mut self, input: Result<&Self::Request, Error>);

    /// Takes out the next outcome, if any.
    fn pop(&mut self) -> Option<Result<Self::Output, Error>>;
}

/// Handler of updates that accepts every input.
#[verifier::reject_recursive_types(I)]
#[verifier::reject_recursive_types(O)]
pub struct Handler<I: ?Sized, O, F: Fn(Result<&I, Error>) -> Option<Result<O, Error>>> {
    func: F,
    _p: PhantomData<(Box<I>, O)>,
}

impl<I: ?Sized, O, F: Fn(Result<&I, Error>) -> Option<Result<O, Error>>> Handler<I, O, F> {
    #[verifier::type_invariant]
    spec fn inv(self) -> bool {
        forall|input: Result<&I, Error>| call_requires(self.func, (input,))
    }

    /// The handler function.
    pub closed spec fn spec_func(self) -> F {
        self.func
    }

    /// Wraps `f`, which must accept every input.
    pub fn new(f: F) -> (r: Self)
        requires
            forall|input: Result<&I, Error>| call_requires(f, (input,)),
        ensures
            r.spec_func() == f,
    {
        Handler { func: f, _p: PhantomData }
    }

    /// Hands `input` to the handler function.
    pub fn call(&self, input: Result<&I, Error>) -> (r: Option<Result<O, Error>>)
        ensures
            call_ensures(self.spec_func(), (input,), r),
    {
        proof {
            use_type_invariant(self);
        }
        (self.func)(input)
    }
}

/// Keeps only the outcome of the latest update for which the handler gave one.
#[verifier::reject_recursive_types(I)]
#[verifier::reject_recursive_types(O)]
pub struct LastFn<I: ReadRequest + ?Sized, O, F: Fn(Result<&I, Error>) -> Option<Result<O, Error>>> {
    handler: Handler<I, O, F>,
    last: Option<Result<O, Error>>,
}

impl<I: ReadRequest + ?Sized, O, F: Fn(Result<&I, Error>) -> Option<Result<O, Error>>> LastFn<I, O, F> {
    /// The handler of updates.
    pub closed spec fn spec_func(self) -> F {
        self.handler.spec_func()
    }

    /// The outcome kept, if any.
    pub closed spec fn spec_last(self) -> Option<Result<O, Error>> {
        self.last
    }

    /// Store that hands each update to `f` and keeps nothing yet.
    pub fn new(f: F) -> (r: Self)
        requires
            forall|input: Result<&I, Error>| call_requires(f, (input,)),
        ensures
            r.spec_func() == f,
            r.spec_last() is None,
    {
        LastFn { handler: Handler::new(f), last: None }
    }
}

impl<I: ReadRequest + ?Sized, O, F: Fn(Result<&I, Error>) -> Option<Result<O, Error>>> Queue for LastFn<
    I,
    O,
    F,
> {
    type Request = I;
    type Output = O;

    fn push(&mut self, input: Result<&I, Error>)
        ensures
            final(self).spec_func() == old(self).spec_func(),
            exists|out: Option<Result<O, Error>>|
                call_ensures(old(self).spec_func(), (input,), out) && final(self).spec_last() == (
                match out {
                    Some(o) => Some(o),
                    None => old(self).spec_last(),
                }),
    {
        let out = self.handler.call(input);
        let ghost g = out;
        if let Some(output) = out {
            self.last = Some(output);
        }
        assert(call_ensures(old(self).spec_func(), (input,), g));
    }

    fn pop(&mut self) -> (r: Option<Result<O, Error>>)
        ensures
            r == old(self).spec_last(),
            final(self).spec_last() is None,
            final(self).spec_func() == old(self).spec_func(),
    {
        self.last.take()
    }
}

/// Queue after taking in one handler outcome: appended when there is one.
pub open spec fn spec_after_push<O>(queue: Seq<O>, out: Option<O>) -> Seq<O> {
    match out {
        Some(o) => queue.push(o),
        None => queue,
    }
}

/// Queue after taking in the handler outcomes `outs`, in order.
pub open spec fn spec_after_pushes<O>(queue: Seq<O>, outs: Seq<Option<O>>) -> Seq<O>
    decreases outs.len(),
{
    if outs.len() == 0 {
        queue
    } else {
        spec_after_push(spec_after_pushes(queue, outs.drop_last()), outs.last())
    }
}

/// The outcomes among `outs` that the handler gave, in order.
pub open spec fn spec_kept<O>(outs: Seq<Option<O>>) -> Seq<O>
    decreases outs.len(),
{
    if outs.len() == 0 {
        Seq::empty()
    } else {
        spec_after_push(spec_kept(outs.drop_last()), outs.last())
    }
}

/// A buffered subscription keeps every outcome that its handler gives, first in first out:
/// after a run of updates the queue is what it held before followed by the new outcomes in the
/// order of their updates, none dropped and none reordered; each pop then takes the oldest.
pub proof fn lemma_queue_first_in_first_out<O>(queue: Seq<O>, outs: Seq<Option<O>>)
    ensures
        spec_after_pushes(queue, outs) == queue + spec_kept(outs),
    decreases outs.len(),
{
    if outs.len() > 0 {
        lemma_queue_first_in_first_out(queue, outs.drop_last());
        match outs.last() {
            Some(o) => {
                assert((queue + spec_kept(outs.drop_last())).push(o) =~= queue + spec_kept(
                    outs.drop_last(),
                ).push(o));
            },
            None => {},
        }
    } else {
        assert(queue + Seq::<O>::empty() =~= queue);
    }
}

/// When the handler gives an outcome for every update, as the copying handlers do, the queue
/// receives every outcome: one per update, in the order of the updates.
pub proof fn lemma_kept_all<O>(outs: Seq<Option<O>>)
    requires
        forall|i: int| 0 <= i < outs.len() ==> #[trigger] outs[i] is Some,
    ensures
        spec_kept(outs).len() == outs.len(),
        forall|i: int| 0 <= i < outs.len() ==> outs[i] == Some(#[trigger] spec_kept(outs)[i]),
    decreases outs.len(),
{
    if outs.len() > 0 {
        let init = outs.drop_last();
        assert forall|i: int| 0 <= i < init.len() implies #[trigger] init[i] is Some by {
            assert(init[i] == outs[i]);
        }
        lemma_kept_all(init);
        assert(outs.last() is Some);
        assert forall|i: int| 0 <= i < outs.len() implies outs[i] == Some(
            #[trigger] spec_kept(outs)[i],
        ) by {
            if i < init.len() {
                assert(init[i] == outs[i]);
            }
        }
    }
}

/// The copying handler gives an outcome for every update: a copy of the request received, or
/// the error; so a subscription that stores its outcomes keeps every update.
pub proof fn lemma_copy_updates<R: Copy>(input: Result<&R, Error>, out: Option<Result<R, Error>>)
    requires
        call_ensures(copy_some::<R>, (input,), out),
    ensures
        match input {
            Ok(req) => out == Some(Ok::<R, Error>(*req)),
            Err(e) => out == Some(Err::<R, Error>(e)),
        },
{
}

/// The array handler gives an outcome for every update: a vector equal to the array received,
/// of its current length, or the error.
pub proof fn lemma_vec_updates<T: Copy>(input: Result<&[T], Error>, out: Option<
    Result<Vec<T>, Error>,
>)
    requires
        call_ensures(clone_vec_some::<T>, (input,), out),
    ensures
        out is Some,
        match input {
            Ok(src) => out matches Some(Ok(v)) && v@ == src@,
            Err(e) => out == Some(Err::<Vec<T>, Error>(e)),
        },
{
}

/// Keeps the outcomes of all updates for which the handler gave one, oldest first.
#[verifier::reject_recursive_types(I)]
#[verifier::reject_recursive_types(O)]
pub struct QueueFn<I: ReadRequest + ?Sized, O, F: Fn(Result<&I, Error>) -> Option<Result<O, Error>>> {
    handler: Handler<I, O, F>,
    queue: VecDeque<Result<O, Error>>,
}

impl<I: ReadRequest + ?Sized, O, F: Fn(Result<&I, Error>) -> Option<Result<O, Error>>> QueueFn<
    I,
    O,
    F,
> {
    /// The handler of updates.
    pub closed spec fn spec_func(self) -> F {
        self.handler.spec_func()
    }

    /// The outcomes kept, oldest first.
    pub closed spec fn spec_queue(self) -> Seq<Result<O, Error>> {
        self.queue@
    }

    /// Store that hands each update to `f` and keeps nothing yet.
    pub fn new(f: F) -> (r: Self)
        requires
            forall|input: Result<&I, Error>| call_requires(f, (input,)),
        ensures
            r.spec_func() == f,
            r.spec_queue() == Seq::<Result<O, Error>>::empty(),
    {
        QueueFn { handler: Handler::new(f), queue: VecDeque::new() }
    }
}

impl<I: ReadRequest + ?Sized, O, F: Fn(Result<&I, Error>) -> Option<Result<O, Error>>> Queue for QueueFn<
    I,
    O,
    F,
> {
    type Request = I;
    type Output = O;

    fn push(&mut self, input: Result<&I, Error>)
        ensures
            final(self).spec_func() == old(self).spec_func(),
            exists|out: Option<Result<O, Error>>|
                call_ensures(old(self).spec_func(), (input,), out) && final(self).spec_queue()
                    == spec_after_push(old(self).spec_queue(), out),
    {
        let out = self.handler.call(input);
        let ghost g = out;
        if let Some(output) = out {
            self.queue.push_back(output);
        }
        assert(call_ensures(old(self).spec_func(), (input,), g));
        assert(self.queue@ == spec_after_push(old(self).spec_queue(), g));
    }

    fn pop(&mut self) -> (r: Option<Result<O, Error>>)
        ensures
            final(self).spec_func() == old(self).spec_func(),
            old(self).spec_queue().len() == 0 ==> r is None && final(self).spec_queue() == old(
                self,
            ).spec_queue(),
            old(self).spec_queue().len() > 0 ==> r == Some(old(self).spec_queue()[0])
                && final(self).spec_queue() == old(self).spec_queue().drop_first(),
    {
        self.queue.pop_front()
    }
}

/// Arguments of the request that starts a subscription.
#[derive(Debug, Clone, Copy, PartialEq, Eq, Structural)]
pub struct SubscribeArgs {
    /// Raw request type.
    pub dbr_type: i32,
    /// Number of elements asked for; zero asks for the channel's own count.
    pub count: usize,
    /// Raw bits of the events asked for.
    pub mask: i32,
    /// User value that each update carries back.
    pub usr: usize,
}

/// A subscription: the store of its updates, the events it asks for, and the library's
/// handle of the subscription once it has started.
pub struct Subscription<F: Queue> {
    state: F,
    mask: EventMask,
    evid: Option<usize>,
}

impl<F: Queue> Subscription<F> {
    /// The store of updates.
    pub closed spec fn spec_state(&self) -> &F {
        &self.state
    }

    /// The events asked for.
    pub closed spec fn spec_mask(&self) -> EventMask {
        self.mask
    }

    /// Handle of the started subscription.
    pub closed spec fn spec_evid(&self) -> Option<usize> {
        self.evid
    }

    /// A subscription to changes of value and alarm that stores its updates in `func`; it has
    /// not started.
    pub fn new(func: F) -> (r: Self)
        ensures
            *r.spec_state() == func,
            r.spec_mask().spec_bits() == (DBE_VALUE | DBE_ALARM) as u32,
            r.spec_evid() is None,
    {
        Subscription { state: func, mask: EventMask::value().union(EventMask::alarm()), evid: None }
    }

    /// Sets the events to ask for.
    pub fn set_event_mask(&mut self, mask: EventMask)
        ensures
            final(self).spec_mask() == mask,
            *final(self).spec_state() == *old(self).spec_state(),
            final(self).spec_evid() == old(self).spec_evid(),
    {
        self.mask = mask;
    }

    /// The events asked for.
    pub fn mask(&self) -> (r: EventMask)
        ensures
            r == self.spec_mask(),
    {
        self.mask
    }

    /// Handle of the started subscription, if it has started.
    pub fn evid(&self) -> (r: Option<usize>)
        ensures
            r == self.spec_evid(),
    {
        self.evid
    }

    /// Arguments of the subscription request: the request type of the store, a count of zero
    /// (the channel's own element count), the raw bits of the events asked for, and the number
    /// of the current request of `process`, which each update carries back.
    pub fn request(&self, process: &ProcessData) -> (r: SubscribeArgs)
        ensures
            r.dbr_type == spec_request_raw(<F::Request as Request>::spec_id()),
            r.count == 0,
            r.mask == self.spec_mask().spec_bits(),
            r.usr == process.spec_id(),
    {
        SubscribeArgs {
            dbr_type: <F::Request as Request>::id().raw(),
            count: 0,
            mask: self.mask.raw(),
            usr: process.id(),
        }
    }

    /// Takes the status with which the library accepted or refused the subscription request and
    /// the handle it gave: the subscription has started under `evid` exactly when the status
    /// reports success, and the error is the status's otherwise.
    pub fn start(&mut self, status: i32, evid: usize) -> (r: Result<(), Error>)
        requires
            old(self).spec_evid() is None,
        ensures
            r is Ok <==> spec_extract_success(status) != 0,
            r is Ok ==> final(self).spec_evid() == Some(evid),
            r matches Err(e) ==> e == spec_decode(status) && final(self).spec_evid() is None,
            final(self).spec_mask() == old(self).spec_mask(),
            *final(self).spec_state() == *old(self).spec_state(),
    {
        let r = result_from_raw(status);
        if r.is_ok() {
            self.evid = Some(evid);
        }
        r
    }

    /// The store of updates.
    pub fn state_mut(&mut self) -> (r: &mut F)
        ensures
            *r == *old(self).spec_state(),
            *final(self).spec_state() == *final(r),
            final(self).spec_mask() == old(self).spec_mask(),
            final(self).spec_evid() == old(self).spec_evid(),
    {
        &mut self.state
    }
}

} // verus!
