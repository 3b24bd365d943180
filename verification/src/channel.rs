//! Decisions of channels: what the library reports about a channel is checked here, and a
//! channel is narrowed to a typed one only when its field type and element count allow it.
//!
//! A [`Channel`] names a channel by the addresses that the Channel Access library gave it and
//! its context; the caller owns the library's resources and hands the library's reports in.
use vstd::prelude::*;

use core::marker::PhantomData;

use crate::db_access::{CA_OP_CONN_DOWN, CA_OP_CONN_UP, TYPENOTCONN};
use crate::error::{
    badcount, badtype, disconn, result_from_raw, spec_badcount, spec_badtype, spec_decode,
    spec_disconn, Error,
};
use crate::caerr::spec_extract_success;
use crate::request::{check_request, spec_check_request, Request};
use crate::types::id::{
    spec_field_from_raw, spec_field_raw, spec_request_from_raw, spec_request_raw, FieldId, RequestId,
};
use crate::types::value::{check_field, check_type, spec_check_field, spec_check_type, Field, Value};

verus! {

/// What the field type that the library reports for a channel means: `TYPENOTCONN` for a
/// disconnected channel, a field type, or a type this library does not know.
pub open spec fn spec_field_type(raw: i16) -> Result<FieldId, Error> {
    if raw == TYPENOTCONN {
        Err(spec_disconn())
    } else {
        match spec_field_from_raw(raw as i32) {
            Some(f) => Ok(f),
            None => Err(spec_badtype()),
        }
    }
}

/// Field type of a channel, from the raw type that the library reports.
pub fn field_type_from_raw(raw: i16) -> (r: Result<FieldId, Error>)
    ensures
        r == spec_field_type(raw),
        r matches Ok(f) ==> spec_field_raw(f) == raw,
{
    let raw: i32 = raw as i32;
    if raw == TYPENOTCONN {
        return Err(disconn());
    }
    match FieldId::try_from_raw(raw) {
        Some(f) => Ok(f),
        None => Err(badtype()),
    }
}

/// What the element count that the library reports for a channel means: zero for a
/// disconnected channel.
pub open spec fn spec_element_count(raw: u64) -> Result<usize, Error> {
    if raw as usize == 0 {
        Err(spec_disconn())
    } else {
        Ok(raw as usize)
    }
}

/// Element count of a channel, from the raw count that the library reports.
pub fn element_count_from_raw(raw: u64) -> (r: Result<usize, Error>)
    ensures
        r == spec_element_count(raw),
{
    let count = raw as usize;
    if count == 0 {
        return Err(disconn());
    }
    Ok(count)
}

/// The host name that the library reports for a disconnected channel.
pub open spec fn disconnected_host() -> Seq<u8> {
    seq![60u8, 100u8, 105u8, 115u8, 99u8, 111u8, 110u8, 110u8, 101u8, 99u8, 116u8, 101u8, 100u8, 62u8]
}

/// Checks the host name that the library reports for a channel: a disconnected channel has
/// none.
pub fn host_name_check(name: &[u8]) -> (r: Result<(), Error>)
    ensures
        r == (if name@ == disconnected_host() {
            Err(spec_disconn())
        } else {
            Ok(())
        }),
{
    let expected: [u8; 14] = [60, 100, 105, 115, 99, 111, 110, 110, 101, 99, 116, 101, 100, 62];
    assert(expected@ =~= disconnected_host());
    if name.len() != 14 {
        return Ok(());
    }
    let mut i: usize = 0;
    while i < 14
        invariant
            i <= 14,
            name@.len() == 14,
            expected@ == disconnected_host(),
            forall|j: int| 0 <= j < i ==> name@[j] == expected@[j],
        decreases 14 - i,
    {
        if name[i] != expected[i] {
            assert(name@[i as int] != disconnected_host()[i as int]);
            return Ok(());
        }
        i = i + 1;
    }
    assert(name@ =~= disconnected_host());
    Err(disconn())
}

/// Connection state that a connection event reports: `Some(true)` when the channel came up,
/// `Some(false)` when it went down, `None` for other operations.
pub fn connection_state(op: i32) -> (r: Option<bool>)
    ensures
        r == (if op == CA_OP_CONN_UP {
            Some(true)
        } else if op == CA_OP_CONN_DOWN {
            Some(false)
        } else {
            None::<bool>
        }),
{
    if op == CA_OP_CONN_UP {
        Some(true)
    } else if op == CA_OP_CONN_DOWN {
        Some(false)
    } else {
        None
    }
}

/// What a connection attempt has come to, from the last operation that its connection events
/// reported (`-1` before any): `None` while waiting, `Some(Ok(()))` once connected, and a
/// disconnection error once the channel went down.
pub fn connect_outcome(op: i32) -> (r: Option<Result<(), Error>>)
    requires
        op == -1 || op == CA_OP_CONN_UP || op == CA_OP_CONN_DOWN,
    ensures
        r == (if op == CA_OP_CONN_UP {
            Some(Ok::<(), Error>(()))
        } else if op == CA_OP_CONN_DOWN {
            Some(Err::<(), Error>(spec_disconn()))
        } else {
            None::<Result<(), Error>>
        }),
{
    if op == CA_OP_CONN_UP {
        Some(Ok(()))
    } else if op == CA_OP_CONN_DOWN {
        Some(Err(disconn()))
    } else {
        None
    }
}

/// What checking a channel with the reported raw field type and element count against value
/// type `V` gives: the first error among the field type, the element count and their match.
pub open spec fn spec_channel_check<V: Value + ?Sized>(field_type: i16, element_count: u64) -> Result<
    (),
    Error,
> {
    match spec_field_type(field_type) {
        Err(e) => Err(e),
        Ok(dbf) => match spec_element_count(element_count) {
            Err(e) => Err(e),
            Ok(count) => spec_check_type::<V>(dbf, count),
        },
    }
}

/// Checks that a channel with the reported raw field type and element count holds values of
/// type `V`.
pub fn channel_check<V: Value + ?Sized>(field_type: i16, element_count: u64) -> (r: Result<
    (),
    Error,
>)
    ensures
        r == spec_channel_check::<V>(field_type, element_count),
{
    let dbf = match field_type_from_raw(field_type) {
        Ok(dbf) => dbf,
        Err(e) => return Err(e),
    };
    let count = match element_count_from_raw(element_count) {
        Ok(count) => count,
        Err(e) => return Err(e),
    };
    check_type::<V>(dbf, count)
}

/// What checking a channel with the reported raw field type and element count against
/// elements of type `item`, one of them if `single`, gives.
pub open spec fn spec_channel_check_field(
    field_type: i16,
    element_count: u64,
    item: FieldId,
    single: bool,
) -> Result<(), Error> {
    match spec_field_type(field_type) {
        Err(e) => Err(e),
        Ok(dbf) => match spec_element_count(element_count) {
            Err(e) => Err(e),
            Ok(count) => spec_check_field(dbf, item, single, count),
        },
    }
}

/// Checks that a channel with the reported raw field type and element count holds elements of
/// type `item`, one of them if `single`; for element types that have no [`Field`]
/// implementation.
pub fn channel_check_field(field_type: i16, element_count: u64, item: FieldId, single: bool) -> (r:
    Result<(), Error>)
    ensures
        r == spec_channel_check_field(field_type, element_count, item, single),
{
    let dbf = match field_type_from_raw(field_type) {
        Ok(dbf) => dbf,
        Err(e) => return Err(e),
    };
    let count = match element_count_from_raw(element_count) {
        Ok(count) => count,
        Err(e) => return Err(e),
    };
    check_field(dbf, item, single, count)
}

/// What the reply to a read of request type `expected`, of one element if `single`, means:
/// the error that its status reports, else a type error for a reply of another type, else a
/// count error when one element is wanted and there are more or fewer.
pub open spec fn spec_reply_check_id(
    status: i32,
    dbr_type: i64,
    count: i64,
    expected: RequestId,
    single: bool,
) -> Result<(), Error> {
    if spec_extract_success(status) == 0 {
        Err(spec_decode(status))
    } else if dbr_type != spec_request_raw(expected) {
        Err(spec_badtype())
    } else if single && count != 1 {
        Err(spec_badcount())
    } else {
        Ok(())
    }
}

/// Checks the reply to a read of request type `expected`, of one element if `single`; for
/// requests that have no [`Request`] implementation.
pub fn reply_check_id(status: i32, dbr_type: i64, count: i64, expected: RequestId, single: bool) -> (r:
    Result<(), Error>)
    ensures
        r == spec_reply_check_id(status, dbr_type, count, expected, single),
{
    match result_from_raw(status) {
        Err(e) => Err(e),
        Ok(()) => {
            if dbr_type != expected.raw() as i64 {
                Err(badtype())
            } else if single && count != 1 {
                Err(badcount())
            } else {
                Ok(())
            }
        },
    }
}

/// What the reply to a read of request type `R` means: the error that its status reports,
/// else a type error for a reply type this library does not know, else the outcome of checking
/// the reply's type and element count against `R`.
pub open spec fn spec_reply_check<R: Request + ?Sized>(status: i32, dbr_type: i64, count: i64) -> Result<
    (),
    Error,
> {
    if spec_extract_success(status) == 0 {
        Err(spec_decode(status))
    } else if !(0 <= dbr_type < 39) {
        Err(spec_badtype())
    } else {
        match spec_request_from_raw(dbr_type as i32) {
            Some(id) => spec_check_request::<R>(id, count as usize),
            None => Err(spec_badtype()),
        }
    }
}

/// Checks the reply to a read of request type `R`: its status, its type and its element count.
pub fn reply_check<R: Request + ?Sized>(status: i32, dbr_type: i64, count: i64) -> (r: Result<
    (),
    Error,
>)
    ensures
        r == spec_reply_check::<R>(status, dbr_type, count),
{
    match result_from_raw(status) {
        Err(e) => Err(e),
        Ok(()) => {
            if dbr_type < 0 || dbr_type >= 39 {
                return Err(badtype());
            }
            match RequestId::try_from_raw(dbr_type as i32) {
                Some(id) => check_request::<R>(id, count as usize),
                None => Err(badtype()),
            }
        },
    }
}

/// State that a channel shares with the callbacks of its pending requests: the number of the
/// current request, whose callbacks are the only ones heard, and the outcome of a write.
pub struct ProcessData {
    id_counter: usize,
    put_res: Option<Result<(), Error>>,
}

impl ProcessData {
    /// Number of the current request.
    pub closed spec fn spec_id(&self) -> usize {
        self.id_counter
    }

    /// Outcome of the current write, once known.
    pub closed spec fn spec_put_res(&self) -> Option<Result<(), Error>> {
        self.put_res
    }

    /// State with request number zero and no write outcome.
    pub fn new() -> (r: Self)
        ensures
            r.spec_id() == 0,
            r.spec_put_res() is None,
    {
        ProcessData { id_counter: 0, put_res: None }
    }

    /// Number of the current request.
    pub fn id(&self) -> (r: usize)
        ensures
            r == self.spec_id(),
    {
        self.id_counter
    }

    /// Moves on to the next request number, so that callbacks of earlier requests are ignored.
    pub fn change_id(&mut self)
        requires
            old(self).spec_id() < usize::MAX,
        ensures
            final(self).spec_id() == old(self).spec_id() + 1,
            final(self).spec_put_res() == old(self).spec_put_res(),
    {
        self.id_counter = self.id_counter + 1;
    }

    /// Whether a callback that carries the user value `usr` belongs to the current request.
    pub fn accepts(&self, usr: usize) -> (r: bool)
        ensures
            r == (usr == self.spec_id()),
    {
        self.id_counter == usr
    }

    /// Forgets the outcome of any earlier write, as a new write starts.
    pub fn start_put(&mut self)
        ensures
            final(self).spec_id() == old(self).spec_id(),
            final(self).spec_put_res() is None,
    {
        self.put_res = None;
    }

    /// Records the status of a write that a callback reports, if the callback belongs to the
    /// current request; returns whether it did.
    pub fn complete_put(&mut self, usr: usize, status: i32) -> (r: bool)
        ensures
            r == (usr == old(self).spec_id()),
            final(self).spec_id() == old(self).spec_id(),
            r ==> final(self).spec_put_res() == Some(
                if spec_extract_success(status) != 0 {
                    Ok::<(), Error>(())
                } else {
                    Err(spec_decode(status))
                },
            ),
            !r ==> final(self).spec_put_res() == old(self).spec_put_res(),
    {
        if self.id_counter != usr {
            return false;
        }
        self.put_res = Some(result_from_raw(status));
        true
    }

    /// Takes the outcome of the current write, if known.
    pub fn take_put_result(&mut self) -> (r: Option<Result<(), Error>>)
        ensures
            r == old(self).spec_put_res(),
            final(self).spec_put_res() is None,
            final(self).spec_id() == old(self).spec_id(),
    {
        self.put_res.take()
    }

    /// Abandons the current request: its callbacks are ignored from now on and its outcome is
    /// forgotten.
    pub fn cancel(&mut self)
        requires
            old(self).spec_id() < usize::MAX,
        ensures
            final(self).spec_id() == old(self).spec_id() + 1,
            final(self).spec_put_res() is None,
    {
        self.change_id();
        self.put_res = None;
    }
}

/// Request numbers count the requests: along states that start from [`ProcessData::new`] and
/// each move on by [`ProcessData::change_id`], the number after `k` changes is `k`, so that no
/// number comes back and a callback that carries the number of an earlier request is never
/// accepted again ([`ProcessData::accepts`]).
pub proof fn lemma_request_numbers(states: Seq<ProcessData>)
    requires
        states.len() > 0,
        states[0].spec_id() == 0,
        forall|i: int|
            0 <= i < states.len() - 1 ==> #[trigger] states[i + 1].spec_id() == states[i].spec_id()
                + 1,
    ensures
        forall|k: int| 0 <= k < states.len() ==> #[trigger] states[k].spec_id() == k,
        forall|i: int, j: int|
            0 <= i < j < states.len() ==> #[trigger] states[i].spec_id() != #[trigger] states[j].spec_id(),
    decreases states.len(),
{
    if states.len() > 1 {
        let init = states.drop_last();
        assert forall|i: int| 0 <= i < init.len() - 1 implies #[trigger] init[i + 1].spec_id()
            == init[i].spec_id() + 1 by {
            assert(init[i + 1] == states[i + 1]);
            assert(init[i] == states[i]);
            assert(states[i + 1].spec_id() == states[i].spec_id() + 1);
        }
        lemma_request_numbers(init);
        assert forall|k: int| 0 <= k < states.len() implies #[trigger] states[k].spec_id() == k by {
            if k < init.len() {
                assert(init[k] == states[k]);
                assert(init[k].spec_id() == k);
            } else {
                let l = k - 1;
                assert(init[l] == states[l]);
                assert(init[l].spec_id() == l);
                assert(states[l + 1].spec_id() == states[l].spec_id() + 1);
            }
        }
    }
}

/// Channel, named by the addresses of its library handle and of its context.
#[derive(Debug, PartialEq, Eq, Structural)]
pub struct Channel {
    ctx: usize,
    raw: usize,
}

impl Channel {
    /// Address of the channel's library handle.
    pub closed spec fn spec_raw(&self) -> usize {
        self.raw
    }

    /// Address of the channel's context.
    pub closed spec fn spec_ctx(&self) -> usize {
        self.ctx
    }

    /// Channel with the given context and library handle.
    pub fn from_raw(ctx: usize, raw: usize) -> (r: Self)
        ensures
            r.spec_ctx() == ctx,
            r.spec_raw() == raw,
    {
        Channel { ctx, raw }
    }

    /// Address of the channel's context.
    pub fn context(&self) -> (r: usize)
        ensures
            r == self.spec_ctx(),
    {
        self.ctx
    }

    /// Address of the channel's library handle.
    pub fn raw(&self) -> (r: usize)
        ensures
            r == self.spec_raw(),
    {
        self.raw
    }

    /// Narrows the channel to one that holds values of type `V`, given the field type and
    /// element count that the library reports for it; the channel comes back with the error
    /// when they do not fit.
    pub fn into_typed<V: Value + ?Sized>(self, field_type: i16, element_count: u64) -> (r: Result<
        TypedChannel<V>,
        (Error, Self),
    >)
        ensures
            r is Ok <==> spec_channel_check::<V>(field_type, element_count) is Ok,
            r matches Ok(t) ==> t.spec_base() == self,
            r matches Err((e, c)) ==> spec_channel_check::<V>(field_type, element_count) == Err::<
                (),
                Error,
            >(e) && c == self,
    {
        match channel_check::<V>(field_type, element_count) {
            Ok(()) => Ok(TypedChannel::new_unchecked(self)),
            Err(err) => Err((err, self)),
        }
    }

    /// Narrows the channel to one whose elements are of type `T`, given the field type that the
    /// library reports for it; the channel comes back with the error when it does not fit.
    pub fn into_array<T: Field>(self, field_type: i16) -> (r: Result<ArrayChannel<T>, (Error, Self)>)
        ensures
            match spec_field_type(field_type) {
                Err(e) => r matches Err((e2, c)) && e2 == e && c == self,
                Ok(dbf) => if dbf == T::spec_id() {
                    r matches Ok(a) && a.spec_base() == self
                } else {
                    r matches Err((e2, c)) && e2 == spec_badtype() && c == self
                },
            },
    {
        let dbf = match field_type_from_raw(field_type) {
            Ok(dbf) => dbf,
            Err(err) => return Err((err, self)),
        };
        if dbf == T::id() {
            Ok(ArrayChannel::new_unchecked(self))
        } else {
            Err((badtype(), self))
        }
    }
}

/// Channel that holds values of type `V`.
pub struct TypedChannel<V: Value + ?Sized> {
    base: Channel,
    _p: PhantomData<V>,
}

impl<V: Value + ?Sized> TypedChannel<V> {
    /// The untyped channel.
    pub closed spec fn spec_base(&self) -> Channel {
        self.base
    }

    /// Treats `base` as holding values of type `V` without checking; reads and writes check
    /// types anyway, as the type of a remote channel can change at any moment.
    pub fn new_unchecked(base: Channel) -> (r: Self)
        ensures
            r.spec_base() == base,
    {
        TypedChannel { base, _p: PhantomData }
    }

    /// The untyped channel.
    pub fn base(&self) -> (r: &Channel)
        ensures
            *r == self.spec_base(),
    {
        &self.base
    }

    /// Gives back the untyped channel.
    pub fn into_base(self) -> (r: Channel)
        ensures
            r == self.spec_base(),
    {
        self.base
    }

    /// Channel for reading and writing values only.
    pub fn into_value(self) -> (r: ValueChannel<V>)
        ensures
            r.spec_typed().spec_base() == self.spec_base(),
    {
        ValueChannel { typed: self }
    }
}

/// Channel used to read and write values only, rather than other requests.
pub struct ValueChannel<V: Value + ?Sized> {
    typed: TypedChannel<V>,
}

impl<V: Value + ?Sized> ValueChannel<V> {
    /// The typed channel.
    pub closed spec fn spec_typed(&self) -> &TypedChannel<V> {
        &self.typed
    }

    /// The typed channel.
    pub fn typed(&self) -> (r: &TypedChannel<V>)
        ensures
            r == self.spec_typed(),
    {
        &self.typed
    }

    /// Gives back the typed channel.
    pub fn into_typed(self) -> (r: TypedChannel<V>)
        ensures
            r.spec_base() == self.spec_typed().spec_base(),
    {
        self.typed
    }
}

/// Channel whose elements are of type `T`, whatever their number.
pub struct ArrayChannel<T: Field> {
    base: Channel,
    _p: PhantomData<T>,
}

impl<T: Field> ArrayChannel<T> {
    /// The untyped channel.
    pub closed spec fn spec_base(&self) -> Channel {
        self.base
    }

    /// Treats `base` as holding elements of type `T` without checking.
    pub fn new_unchecked(base: Channel) -> (r: Self)
        ensures
            r.spec_base() == base,
    {
        ArrayChannel { base, _p: PhantomData }
    }

    /// The untyped channel.
    pub fn base(&self) -> (r: &Channel)
        ensures
            *r == self.spec_base(),
    {
        &self.base
    }

    /// Narrows the channel to one that holds a single element, given the element count that the
    /// library reports for it; the channel comes back with the error when it does not fit.
    pub fn into_scalar(self, element_count: u64) -> (r: Result<ScalarChannel<T>, (Error, Self)>)
        ensures
            match spec_element_count(element_count) {
                Err(e) => r matches Err((e2, c)) && e2 == e && c.spec_base() == self.spec_base(),
                Ok(count) => if count == 1 {
                    r matches Ok(s) && s.spec_chan().spec_base() == self.spec_base()
                } else {
                    r matches Err((e2, c)) && e2 == spec_badcount() && c.spec_base()
                        == self.spec_base()
                },
            },
    {
        let count = match element_count_from_raw(element_count) {
            Ok(n) => n,
            Err(err) => return Err((err, self)),
        };
        if count == 1 {
            Ok(ScalarChannel::new_unchecked(self))
        } else {
            Err((badcount(), self))
        }
    }
}

/// Channel that holds a single element of type `T`.
pub struct ScalarChannel<T: Field> {
    chan: ArrayChannel<T>,
}

impl<T: Field> ScalarChannel<T> {
    /// The array channel.
    pub closed spec fn spec_chan(&self) -> &ArrayChannel<T> {
        &self.chan
    }

    /// Treats `chan` as holding a single element without checking.
    pub fn new_unchecked(chan: ArrayChannel<T>) -> (r: Self)
        ensures
            r.spec_chan().spec_base() == chan.spec_base(),
    {
        ScalarChannel { chan }
    }

    /// The array channel.
    pub fn chan(&self) -> (r: &ArrayChannel<T>)
        ensures
            r == self.spec_chan(),
    {
        &self.chan
    }
}

} // verus!
