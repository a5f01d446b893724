//! A verified model of a native bridge between host-managed objects and
//! native code: a delegate-binding registry, a handle lifecycle tied to
//! deterministic destruction, natively owned opaque values, and a
//! bounds-checked view over an externally supplied buffer.

use vstd::prelude::*;

pub mod delegates;
pub mod gameobject;
pub mod native_array;
pub mod rust_object;

use crate::delegates::{DelegateRegistry, Event};
use crate::gameobject::GameObject;

verus! {

/// The message the smoke entry point forwards to the logging delegate.
pub open spec fn greeting_message() -> Seq<char> {
    "hello, i am from rust"@
}

/// Smoke entry point exercising the whole bridge in one call: greets the
/// host through the logging delegate, constructs a host object, deactivates
/// it, releases it, and echoes `val + 1` so the host can see the round trip.
/// Requires every delegate it touches to be bound; the forwarded calls are
/// exactly the four below, in order.
pub fn test_run_method(registry: &mut DelegateRegistry, val: i32) -> (r: i32)
    requires
        old(registry).log_bound(),
        old(registry).constructor_bound(),
        old(registry).set_active_bound(),
        old(registry).destructor_bound(),
        val < i32::MAX,
    ensures
        r == val + 1,
        final(registry).history() == old(registry).history()
            .push(Event::Log(greeting_message()))
            .push(Event::Construct(old(registry).constructor_id()))
            .push(Event::SetActive(old(registry).constructor_id(), false))
            .push(Event::Destroy(old(registry).constructor_id())),
        final(registry).bindings() == old(registry).bindings(),
{
    registry.invoke_log("hello, i am from rust");
    let mut go = GameObject::new(registry);
    go.set_active(registry, false);
    go.destroy(registry);
    val + 1
}

} // verus!
