//! Host-handle lifecycle.
//!
//! A `GameObject` wraps an opaque identifier issued by the host's constructor
//! delegate, together with the single-owner obligation to release it through
//! the destructor delegate.  Construction and destruction both round-trip
//! through the delegate registry; destruction consumes the wrapper, so the
//! destructor is forwarded at most once per handle, never before the wrapper
//! is given up and never twice.  [`with_gameobject`] is the scoped form: it
//! acquires an identifier, runs the enclosed operation, and releases the
//! identifier on every exit path, including when the operation reports an
//! error.

use crate::delegates::{DelegateRegistry, Event};
use vstd::prelude::*;

verus! {

/// A host-issued object identifier, held with the obligation to release it
/// exactly once through the destructor delegate.
pub struct GameObject {
    unity_object_id: u32,
}

impl GameObject {
    /// The identifier the host issued for this handle.
    pub closed spec fn id(self) -> u32 {
        self.unity_object_id
    }

    /// Requests a new object from the host through the constructor delegate
    /// and wraps the identifier it issued.  Requires the constructor
    /// delegate to be bound; an unverified caller that skipped the binding
    /// aborts rather than receiving a handle to nothing.
    pub fn new(registry: &mut DelegateRegistry) -> (go: GameObject)
        requires
            old(registry).constructor_bound(),
        ensures
            go.id() == old(registry).constructor_id(),
            final(registry).history()
                == old(registry).history().push(Event::Construct(go.id())),
            final(registry).bindings() == old(registry).bindings(),
    {
        let handle = registry.invoke_constructor();
        GameObject { unity_object_id: handle }
    }

    /// Forwards this handle's identifier and the flag to the activity
    /// delegate.  Purely a host-side effect: the handle itself is unchanged.
    pub fn set_active(&mut self, registry: &mut DelegateRegistry, value: bool)
        requires
            old(registry).set_active_bound(),
        ensures
            *final(self) == *old(self),
            final(registry).history()
                == old(registry).history().push(Event::SetActive(old(self).id(), value)),
            final(registry).bindings() == old(registry).bindings(),
    {
        registry.invoke_set_active(self.unity_object_id, value);
    }

    /// Releases this handle: forwards its identifier to the destructor
    /// delegate and consumes the wrapper, so no second release is possible.
    pub fn destroy(self, registry: &mut DelegateRegistry)
        requires
            old(registry).destructor_bound(),
        ensures
            final(registry).history()
                == old(registry).history().push(Event::Destroy(self.id())),
            final(registry).bindings() == old(registry).bindings(),
    {
        registry.invoke_destructor(self.unity_object_id);
    }

    /// The identifier the host issued for this handle.
    pub fn object_id(&self) -> (id: u32)
        ensures
            id == self.id(),
    {
        self.unity_object_id
    }
}

/// Scoped handle use: acquires an identifier from the host, runs `operation`
/// on it, and releases the identifier afterwards.  The destructor delegate is
/// forwarded exactly once, on every exit path — in particular, also when
/// `operation` reports an error in its result — and exactly the identifier
/// the constructor issued is released.
pub fn with_gameobject<R, F: FnOnce(u32) -> R>(
    registry: &mut DelegateRegistry,
    operation: F,
) -> (r: R)
    requires
        old(registry).constructor_bound(),
        old(registry).destructor_bound(),
        call_requires(operation, (old(registry).constructor_id(),)),
    ensures
        call_ensures(operation, (old(registry).constructor_id(),), r),
        final(registry).history() == old(registry).history()
            .push(Event::Construct(old(registry).constructor_id()))
            .push(Event::Destroy(old(registry).constructor_id())),
        final(registry).bindings() == old(registry).bindings(),
{
    let go = GameObject::new(registry);
    let r = operation(go.object_id());
    go.destroy(registry);
    r
}

} // verus!
