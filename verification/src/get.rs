//! What a read does with its reply.
use vstd::prelude::*;

use core::marker::PhantomData;

use crate::caerr::spec_extract_success;
use crate::channel::ProcessData;
use crate::error::{result_from_raw, spec_decode, Error};
use crate::request::{ReadRequest, Request};
use crate::types::id::spec_request_raw;
use crate::types::value::Field;

verus! {

/// Handler of the reply to a read: receives the request read, or the error that ended the
/// read, and produces the read's outcome.
pub trait GetFn {
    /// Type of the request read.
    type Request: ReadRequest + ?Sized;
    /// Outcome of the read.
    type Output;

    /// Whether `output` is an outcome that this handler gives for the reply `input`.
    spec fn spec_handles(&self, input: Result<&Self::Request, Error>, output: Result<
        Self::Output,
        Error,
    >) -> bool;

    /// Turns the reply into the read's outcome.
    fn apply(self, input: Result<&Self::Request, Error>) -> (r: Result<Self::Output, Error>)
        ensures
            self.spec_handles(input, r),
    ;
}

/// Reply handler that copies an array value into a buffer, as much of it as fits, and gives
/// the length of the value received.
pub struct GetToSlice<'a, T: Field> {
    pub dst: &'a mut [T],
}

/// Copies as much of `src` as fits into `dst` and gives the length of `src`.
pub fn copy_to_slice<T: Copy>(dst: &mut [T], src: &[T]) -> (r: usize)
    ensures
        r == src@.len(),
        final(dst)@.len() == old(dst)@.len(),
        forall|i: int|
            0 <= i < old(dst)@.len() ==> final(dst)@[i] == if i < src@.len() {
                src@[i]
            } else {
                old(dst)@[i]
            },
{
    let ghost orig = dst@;
    let n = if dst.len() < src.len() {
        dst.len()
    } else {
        src.len()
    };
    let mut i: usize = 0;
    while i < n
        invariant
            i <= n,
            n <= orig.len(),
            n <= src@.len(),
            n == orig.len() || n == src@.len(),
            dst@.len() == orig.len(),
            forall|j: int|
                0 <= j < orig.len() ==> dst@[j] == if j < i {
                    src@[j]
                } else {
                    orig[j]
                },
        decreases n - i,
    {
        dst[i] = src[i];
        i = i + 1;
    }
    src.len()
}

impl<'a, T: Field> GetFn for GetToSlice<'a, T> {
    type Request = [T];
    type Output = usize;

    /// The length of the value received, or the error.
    open spec fn spec_handles(&self, input: Result<&[T], Error>, output: Result<usize, Error>) -> bool {
        match input {
            Ok(src) => output == Ok::<usize, Error>(src@.len() as usize),
            Err(e) => output == Err::<usize, Error>(e),
        }
    }

    fn apply(self, input: Result<&[T], Error>) -> (r: Result<usize, Error>)
        ensures
            match input {
                Ok(src) => r == Ok::<usize, Error>(src@.len() as usize) && final(self.dst)@.len()
                    == old(self.dst)@.len() && forall|i: int|
                    0 <= i < old(self.dst)@.len() ==> final(self.dst)@[i] == if i < src@.len() {
                        src@[i]
                    } else {
                        old(self.dst)@[i]
                    },
                Err(e) => r == Err::<usize, Error>(e) && final(self.dst)@ == old(self.dst)@,
            },
    {
        match input {
            Ok(src) => Ok(copy_to_slice(self.dst, src)),
            Err(e) => Err(e),
        }
    }
}

/// Reply handler that copies an array value into a new vector.
pub struct GetVec<T: Field> {
    _p: PhantomData<T>,
}

impl<T: Field> GetVec<T> {
    /// The handler.
    pub fn new() -> (r: Self) {
        GetVec { _p: PhantomData }
    }
}

impl<T: Field> GetFn for GetVec<T> {
    type Request = [T];
    type Output = Vec<T>;

    /// A vector with the elements of the value received, or the error.
    open spec fn spec_handles(&self, input: Result<&[T], Error>, output: Result<Vec<T>, Error>) -> bool {
        match input {
            Ok(src) => output matches Ok(v) && v@ == src@,
            Err(e) => output == Err::<Vec<T>, Error>(e),
        }
    }

    fn apply(self, input: Result<&[T], Error>) -> (r: Result<Vec<T>, Error>)
        ensures
            match input {
                Ok(src) => r matches Ok(v) && v@ == src@,
                Err(e) => r == Err::<Vec<T>, Error>(e),
            },
    {
        clone_vec(input)
    }
}

/// Reply handler made of a function that accepts every reply.
#[verifier::reject_recursive_types(R)]
#[verifier::reject_recursive_types(O)]
pub struct GetWrapper<R: ReadRequest + ?Sized, O, F: Fn(Result<&R, Error>) -> Result<O, Error>> {
    func: F,
    _p: PhantomData<(Box<R>, O)>,
}

impl<R: ReadRequest + ?Sized, O, F: Fn(Result<&R, Error>) -> Result<O, Error>> GetWrapper<R, O, F> {
    #[verifier::type_invariant]
    spec fn inv(self) -> bool {
        forall|input: Result<&R, Error>| call_requires(self.func, (input,))
    }

    /// The handler function.
    pub closed spec fn spec_func(self) -> F {
        self.func
    }

    /// Wraps `func`, which must accept every reply.
    pub fn new(func: F) -> (r: Self)
        requires
            forall|input: Result<&R, Error>| call_requires(func, (input,)),
        ensures
            r.spec_func() == func,
    {
        GetWrapper { func, _p: PhantomData }
    }
}

impl<R: ReadRequest + ?Sized, O, F: Fn(Result<&R, Error>) -> Result<O, Error>> GetFn for GetWrapper<
    R,
    O,
    F,
> {
    type Request = R;
    type Output = O;

    /// An outcome that the wrapped function may give for the reply.
    open spec fn spec_handles(&self, input: Result<&R, Error>, output: Result<O, Error>) -> bool {
        call_ensures(self.spec_func(), (input,), output)
    }

    fn apply(self, input: Result<&R, Error>) -> (r: Result<O, Error>)
        ensures
            call_ensures(self.spec_func(), (input,), r),
    {
        proof {
            use_type_invariant(&self);
        }
        (self.func)(input)
    }
}

/// Copies the request read, or passes the error on.
pub fn copy<R: Copy>(input: Result<&R, Error>) -> (r: Result<R, Error>)
    ensures
        match input {
            Ok(req) => r == Ok::<R, Error>(*req),
            Err(e) => r == Err::<R, Error>(e),
        },
{
    match input {
        Ok(req) => Ok(*req),
        Err(e) => Err(e),
    }
}

/// Like [`copy`], for handlers that may skip an update; this one never does.
pub fn copy_some<R: Copy>(input: Result<&R, Error>) -> (r: Option<Result<R, Error>>)
    ensures
        match input {
            Ok(req) => r == Some(Ok::<R, Error>(*req)),
            Err(e) => r == Some(Err::<R, Error>(e)),
        },
{
    Some(copy(input))
}

/// Copies the request read, or passes the error on.
pub fn copied<R: Copy>(input: Result<&R, Error>) -> (r: Result<R, Error>)
    ensures
        match input {
            Ok(req) => r == Ok::<R, Error>(*req),
            Err(e) => r == Err::<R, Error>(e),
        },
{
    copy(input)
}

/// Like [`copied`], for handlers that may skip an update; this one never does.
pub fn copied_some<R: Copy>(input: Result<&R, Error>) -> (r: Option<Result<R, Error>>)
    ensures
        match input {
            Ok(req) => r == Some(Ok::<R, Error>(*req)),
            Err(e) => r == Some(Err::<R, Error>(e)),
        },
{
    Some(copy(input))
}

/// Copies an array value into a new vector, or passes the error on.
pub fn clone_vec<T: Copy>(input: Result<&[T], Error>) -> (r: Result<Vec<T>, Error>)
    ensures
        match input {
            Ok(src) => r matches Ok(v) && v@ == src@,
            Err(e) => r == Err::<Vec<T>, Error>(e),
        },
{
    match input {
        Ok(src) => {
            let mut v: Vec<T> = Vec::new();
            let mut i: usize = 0;
            while i < src.len()
                invariant
                    i <= src@.len(),
                    v@ == src@.take(i as int),
                decreases src@.len() - i,
            {
                v.push(src[i]);
                i = i + 1;
                assert(v@ =~= src@.take(i as int));
            }
            assert(src@.take(src@.len() as int) =~= src@);
            Ok(v)
        },
        Err(e) => Err(e),
    }
}

/// Like [`clone_vec`], for handlers that may skip an update; this one never does.
pub fn clone_vec_some<T: Copy>(input: Result<&[T], Error>) -> (r: Option<Result<Vec<T>, Error>>)
    ensures
        r matches Some(inner) && match input {
            Ok(src) => inner matches Ok(v) && v@ == src@,
            Err(e) => inner == Err::<Vec<T>, Error>(e),
        },
{
    Some(clone_vec(input))
}

/// Progress of a read: waiting for its reply with the handler, or done with its outcome,
/// which has then been taken if the read is `Empty`.
pub enum GetState<F: GetFn> {
    Empty,
    Pending(F),
    Ready(Result<F::Output, Error>),
}

/// Arguments of the request that starts a read.
#[derive(Debug, Clone, Copy, PartialEq, Eq, Structural)]
pub struct ReadArgs {
    /// Raw request type.
    pub dbr_type: i32,
    /// Number of elements asked for; zero asks for the channel's own count.
    pub count: usize,
    /// User value that the reply carries back.
    pub usr: usize,
}

/// A read: its progress, and whether the request has been sent.
pub struct Get<F: GetFn> {
    state: GetState<F>,
    started: bool,
}

impl<F: GetFn> Get<F> {
    /// Progress of the read.
    pub closed spec fn spec_state(&self) -> &GetState<F> {
        &self.state
    }

    /// Whether the request has been sent.
    pub closed spec fn spec_started(&self) -> bool {
        self.started
    }

    /// A read that will hand its reply to `func`; nothing is sent yet.
    pub fn new(func: F) -> (r: Self)
        ensures
            r.spec_state() == GetState::Pending(func),
            !r.spec_started(),
    {
        Get { state: GetState::Pending(func), started: false }
    }

    /// Whether the request has been sent.
    pub fn is_started(&self) -> (r: bool)
        ensures
            r == self.spec_started(),
    {
        self.started
    }

    /// Arguments of the read request: the request type of the handler, a count of zero (the
    /// channel's own element count), and the number of the current request of `process`, which
    /// the reply carries back.
    pub fn request(&self, process: &ProcessData) -> (r: ReadArgs)
        ensures
            r.dbr_type == spec_request_raw(<F::Request as Request>::spec_id()),
            r.count == 0,
            r.usr == process.spec_id(),
    {
        ReadArgs { dbr_type: <F::Request as Request>::id().raw(), count: 0, usr: process.id() }
    }

    /// Takes the status with which the library accepted or refused the read request: the read
    /// has started exactly when the status reports success, and the error is the status's
    /// otherwise.
    pub fn start(&mut self, status: i32) -> (r: Result<(), Error>)
        requires
            !old(self).spec_started(),
        ensures
            r is Ok <==> spec_extract_success(status) != 0,
            r is Ok ==> final(self).spec_started(),
            r matches Err(e) ==> e == spec_decode(status) && !final(self).spec_started(),
            final(self).spec_state() == old(self).spec_state(),
    {
        let r = result_from_raw(status);
        if r.is_ok() {
            self.started = true;
        }
        r
    }

    /// Hands the reply to the handler; returns whether the read was waiting for it.
    pub fn complete(&mut self, input: Result<&F::Request, Error>) -> (r: bool)
        ensures
            r == (old(self).spec_state() is Pending),
            final(self).spec_started() == old(self).spec_started(),
            !r ==> final(self).spec_state() == old(self).spec_state(),
            r ==> match (old(self).spec_state(), final(self).spec_state()) {
                (GetState::Pending(f), GetState::Ready(res)) => f.spec_handles(input, *res),
                _ => false,
            },
    {
        let mut state = GetState::Empty;
        core::mem::swap(&mut state, &mut self.state);
        match state {
            GetState::Pending(func) => {
                self.state = GetState::Ready(func.apply(input));
                true
            },
            other => {
                self.state = other;
                false
            },
        }
    }

    /// Takes the outcome of the read once it is known.
    pub fn take_ready(&mut self) -> (r: Option<Result<F::Output, Error>>)
        ensures
            final(self).spec_started() == old(self).spec_started(),
            match old(self).spec_state() {
                GetState::Ready(res) => r == Some(*res) && final(self).spec_state() is Empty,
                _ => r is None && final(self).spec_state() == old(self).spec_state(),
            },
    {
        let mut state = GetState::Empty;
        core::mem::swap(&mut state, &mut self.state);
        match state {
            GetState::Ready(res) => Some(res),
            other => {
                self.state = other;
                None
            },
        }
    }
}

} // verus!
