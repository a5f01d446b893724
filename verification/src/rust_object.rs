//! Natively owned opaque values.
//!
//! A value is allocated on the native side and exposed to the host only as a
//! token; the host gives the token back to read the field, overwrite it, or
//! dispose of the value.  The token is an index into a slot table, so a
//! use-after-dispose surfaces as a detectable invalid-token error instead of
//! a dangling access.  At every moment each slot is in exactly one of two
//! states: live (the host holds its token) or disposed.  Disposal reclaims
//! the slot and sends exactly one notification through the logging delegate,
//! mirroring the farewell message the value leaves behind on teardown.
//!
//! The field is carried as its plain 32-bit pattern; the boundary layer that
//! talks to the host converts between that pattern and the host's own scalar
//! representation.

use crate::delegates::{DelegateRegistry, Event};
use vstd::prelude::*;

verus! {

/// The message forwarded to the logging delegate when a value is disposed.
pub open spec fn dispose_message() -> Seq<char> {
    "rust object dropped!"@
}

/// The slot table holding every opaque value this store ever created: a live
/// slot holds the value's field, a disposed slot holds nothing.
pub struct RustObjectStore {
    slots: Vec<Option<u32>>,
}

impl View for RustObjectStore {
    type V = Seq<Option<u32>>;

    closed spec fn view(&self) -> Seq<Option<u32>> {
        self.slots@
    }
}

impl RustObjectStore {
    /// Whether `token` names a slot that is live: created and not disposed.
    pub open spec fn live(self, token: int) -> bool {
        0 <= token < self@.len() && self@[token] is Some
    }

    /// The field of the live slot named by `token`.
    pub open spec fn value_of(self, token: int) -> u32 {
        self@[token]->0
    }

    /// A store with no slots: nothing was ever created.
    pub fn new() -> (store: RustObjectStore)
        ensures
            store@ == Seq::<Option<u32>>::empty(),
    {
        RustObjectStore { slots: Vec::new() }
    }
}

/// Allocates a fresh value with a zeroed field and hands its token to the
/// host.  The token is fresh: it names the new slot and no earlier one, and
/// every earlier slot is left as it was.
pub fn rust_object_new(store: &mut RustObjectStore) -> (token: usize)
    ensures
        token == old(store)@.len(),
        final(store)@ == old(store)@.push(Some(0u32)),
        final(store).live(token as int),
        final(store).value_of(token as int) == 0u32,
{
    let token = store.slots.len();
    store.slots.push(Some(0));
    token
}

/// Overwrites the field of the value named by `token`.  Succeeds exactly when
/// the token is live; a stale or out-of-range token is reported as failure
/// and changes nothing.
pub fn rust_object_set_value(store: &mut RustObjectStore, token: usize, value: u32) -> (ok: bool)
    ensures
        ok <==> old(store).live(token as int),
        ok ==> final(store)@ == old(store)@.update(token as int, Some(value)),
        !ok ==> final(store)@ == old(store)@,
{
    if token >= store.slots.len() {
        return false;
    }
    if store.slots[token].is_none() {
        return false;
    }
    let element = vstd::std_specs::vec::vec_index_mut(&mut store.slots, token);
    *element = Some(value);
    true
}

/// Reads the field of the value named by `token`: its current value when the
/// token is live, absent when it is stale or out of range.
pub fn rust_object_get_value(store: &RustObjectStore, token: usize) -> (r: Option<u32>)
    ensures
        r is Some <==> store.live(token as int),
        r matches Some(value) ==> value == store.value_of(token as int),
{
    if token >= store.slots.len() {
        return None;
    }
    store.slots[token]
}

/// Disposes of the value named by `token`: the slot is reclaimed and exactly
/// one notification goes through the logging delegate, carrying the
/// teardown message.  Succeeds exactly when the token is live, so disposing
/// twice fails the second time and sends nothing; failure changes neither
/// the store nor the history.
pub fn rust_object_dispose(
    store: &mut RustObjectStore,
    token: usize,
    registry: &mut DelegateRegistry,
) -> (ok: bool)
    requires
        old(registry).log_bound(),
    ensures
        ok <==> old(store).live(token as int),
        ok ==> final(store)@ == old(store)@.update(token as int, None::<u32>),
        ok ==> final(registry).history()
            == old(registry).history().push(Event::Log(dispose_message())),
        !ok ==> final(store)@ == old(store)@,
        !ok ==> final(registry).history() == old(registry).history(),
        final(registry).bindings() == old(registry).bindings(),
{
    if token >= store.slots.len() {
        return false;
    }
    if store.slots[token].is_none() {
        return false;
    }
    let element = vstd::std_specs::vec::vec_index_mut(&mut store.slots, token);
    *element = None;
    registry.invoke_log("rust object dropped!");
    true
}

} // verus!
