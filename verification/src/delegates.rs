//! Delegate-binding registry.
//!
//! The host supplies, at integration time, one delegate per operation kind;
//! native code later invokes those operations many times.  The registry is an
//! explicit value threaded through every entry point: each slot is either
//! unbound or holds the host's delegate, and every forwarded invocation is
//! recorded, with the exact arguments it was given, in an append-only history.
//! Invoking an operation whose slot is unbound is a contract violation: it is
//! excluded by `requires`, and an unverified caller that does it anyway is
//! stopped rather than silently skipped.

use vstd::prelude::*;

verus! {

/// One crossing of the call boundary, at the specification level: which host
/// operation was forwarded and the exact arguments it received.
pub enum Event {
    /// The logging delegate was handed this message.
    Log(Seq<char>),
    /// The constructor delegate was asked for a new object and issued this
    /// identifier.
    Construct(u32),
    /// The destructor delegate was told to release this identifier.
    Destroy(u32),
    /// The activity delegate was handed this identifier and flag.
    SetActive(u32, bool),
}

/// One recorded crossing of the call boundary, as runtime data: the operation
/// that was forwarded together with the arguments it was given.
#[derive(Debug, Clone, PartialEq, Eq)]
pub enum HostCall {
    /// The logging delegate was handed this message.
    Log(String),
    /// The constructor delegate issued this identifier.
    Construct(u32),
    /// The destructor delegate was told to release this identifier.
    Destroy(u32),
    /// The activity delegate was handed this identifier and flag.
    SetActive(u32, bool),
}

impl View for HostCall {
    type V = Event;

    open spec fn view(&self) -> Event {
        match self {
            HostCall::Log(message) => Event::Log(message@),
            HostCall::Construct(id) => Event::Construct(*id),
            HostCall::Destroy(id) => Event::Destroy(*id),
            HostCall::SetActive(id, active) => Event::SetActive(*id, *active),
        }
    }
}

/// The slots for the host's delegates, together with the history of every
/// invocation forwarded through them.
///
/// The constructor slot carries the identifier the host's constructor hands
/// out; the other operations return nothing, so their slots only record
/// whether a delegate is bound.
pub struct DelegateRegistry {
    log_slot: bool,
    constructor_slot: Option<u32>,
    destructor_slot: bool,
    set_active_slot: bool,
    calls: Vec<HostCall>,
}

impl DelegateRegistry {
    /// Whether the logging delegate is bound.
    pub closed spec fn log_bound(self) -> bool {
        self.log_slot
    }

    /// Whether the constructor delegate is bound.
    pub closed spec fn constructor_bound(self) -> bool {
        self.constructor_slot is Some
    }

    /// The identifier the bound constructor delegate hands out.
    pub closed spec fn constructor_id(self) -> u32 {
        self.constructor_slot->0
    }

    /// Whether the destructor delegate is bound.
    pub closed spec fn destructor_bound(self) -> bool {
        self.destructor_slot
    }

    /// Whether the activity delegate is bound.
    pub closed spec fn set_active_bound(self) -> bool {
        self.set_active_slot
    }

    /// The four slots, taken together; invocations leave this unchanged.
    pub open spec fn bindings(self) -> (bool, Option<u32>, bool, bool) {
        (self.log_bound(),
         if self.constructor_bound() { Some(self.constructor_id()) } else { None },
         self.destructor_bound(),
         self.set_active_bound())
    }

    /// Every invocation forwarded so far, oldest first.
    pub closed spec fn history(self) -> Seq<Event> {
        self.calls@.map_values(|c: HostCall| c@)
    }

    /// A registry with every slot unbound and nothing forwarded yet.
    pub fn new() -> (registry: DelegateRegistry)
        ensures
            !registry.log_bound(),
            !registry.constructor_bound(),
            !registry.destructor_bound(),
            !registry.set_active_bound(),
            registry.history() == Seq::<Event>::empty(),
    {
        let registry = DelegateRegistry {
            log_slot: false,
            constructor_slot: None,
            destructor_slot: false,
            set_active_slot: false,
            calls: Vec::new(),
        };
        proof {
            assert(registry.history() =~= Seq::<Event>::empty());
        }
        registry
    }

    /// Binds the logging delegate; rebinding overwrites.
    pub fn bind_log(&mut self)
        ensures
            final(self).log_bound(),
            final(self).constructor_bound() == old(self).constructor_bound(),
            final(self).constructor_id() == old(self).constructor_id(),
            final(self).destructor_bound() == old(self).destructor_bound(),
            final(self).set_active_bound() == old(self).set_active_bound(),
            final(self).history() == old(self).history(),
    {
        self.log_slot = true;
    }

    /// Binds the constructor delegate; the host's constructor will issue
    /// `id`.  Rebinding overwrites.
    pub fn bind_constructor(&mut self, id: u32)
        ensures
            final(self).constructor_bound(),
            final(self).constructor_id() == id,
            final(self).log_bound() == old(self).log_bound(),
            final(self).destructor_bound() == old(self).destructor_bound(),
            final(self).set_active_bound() == old(self).set_active_bound(),
            final(self).history() == old(self).history(),
    {
        self.constructor_slot = Some(id);
    }

    /// Binds the destructor delegate; rebinding overwrites.
    pub fn bind_destructor(&mut self)
        ensures
            final(self).destructor_bound(),
            final(self).log_bound() == old(self).log_bound(),
            final(self).constructor_bound() == old(self).constructor_bound(),
            final(self).constructor_id() == old(self).constructor_id(),
            final(self).set_active_bound() == old(self).set_active_bound(),
            final(self).history() == old(self).history(),
    {
        self.destructor_slot = true;
    }

    /// Binds the activity delegate; rebinding overwrites.
    pub fn bind_set_active(&mut self)
        ensures
            final(self).set_active_bound(),
            final(self).log_bound() == old(self).log_bound(),
            final(self).constructor_bound() == old(self).constructor_bound(),
            final(self).constructor_id() == old(self).constructor_id(),
            final(self).destructor_bound() == old(self).destructor_bound(),
            final(self).history() == old(self).history(),
    {
        self.set_active_slot = true;
    }

    /// Forwards a message to the logging delegate: exactly one new history
    /// entry, carrying the message unchanged.
    pub fn invoke_log(&mut self, message: &str)
        requires
            old(self).log_bound(),
        ensures
            final(self).history() == old(self).history().push(Event::Log(message@)),
            final(self).bindings() == old(self).bindings(),
    {
        if !self.log_slot {
            // Unverified callers that skip the binding step abort here.
            return vstd::pervasive::unreached();
        }
        let record = HostCall::Log(message.to_owned());
        proof {
            old(self).calls@.lemma_push_map_commute(|c: HostCall| c@, record);
        }
        self.calls.push(record);
    }

    /// Asks the constructor delegate for a new object: returns the identifier
    /// the host issued and records exactly one new history entry carrying it.
    pub fn invoke_constructor(&mut self) -> (id: u32)
        requires
            old(self).constructor_bound(),
        ensures
            id == old(self).constructor_id(),
            final(self).history() == old(self).history().push(Event::Construct(id)),
            final(self).bindings() == old(self).bindings(),
    {
        // Unverified callers that skip the binding step abort here.
        let id = self.constructor_slot.unwrap();
        let record = HostCall::Construct(id);
        proof {
            old(self).calls@.lemma_push_map_commute(|c: HostCall| c@, record);
        }
        self.calls.push(record);
        id
    }

    /// Tells the destructor delegate to release `id`: exactly one new history
    /// entry, carrying the identifier unchanged.
    pub fn invoke_destructor(&mut self, id: u32)
        requires
            old(self).destructor_bound(),
        ensures
            final(self).history() == old(self).history().push(Event::Destroy(id)),
            final(self).bindings() == old(self).bindings(),
    {
        if !self.destructor_slot {
            // Unverified callers that skip the binding step abort here.
            return vstd::pervasive::unreached();
        }
        let record = HostCall::Destroy(id);
        proof {
            old(self).calls@.lemma_push_map_commute(|c: HostCall| c@, record);
        }
        self.calls.push(record);
    }

    /// Forwards an identifier and flag to the activity delegate: exactly one
    /// new history entry, carrying both unchanged.
    pub fn invoke_set_active(&mut self, id: u32, active: bool)
        requires
            old(self).set_active_bound(),
        ensures
            final(self).history() == old(self).history().push(Event::SetActive(id, active)),
            final(self).bindings() == old(self).bindings(),
    {
        if !self.set_active_slot {
            // Unverified callers that skip the binding step abort here.
            return vstd::pervasive::unreached();
        }
        let record = HostCall::SetActive(id, active);
        proof {
            old(self).calls@.lemma_push_map_commute(|c: HostCall| c@, record);
        }
        self.calls.push(record);
    }

    /// Whether the logging delegate is bound, for callers outside the proof.
    pub fn is_log_bound(&self) -> (bound: bool)
        ensures
            bound == self.log_bound(),
    {
        self.log_slot
    }

    /// Whether the constructor delegate is bound, for callers outside the
    /// proof.
    pub fn is_constructor_bound(&self) -> (bound: bool)
        ensures
            bound == self.constructor_bound(),
    {
        self.constructor_slot.is_some()
    }

    /// Whether the destructor delegate is bound, for callers outside the
    /// proof.
    pub fn is_destructor_bound(&self) -> (bound: bool)
        ensures
            bound == self.destructor_bound(),
    {
        self.destructor_slot
    }

    /// Whether the activity delegate is bound, for callers outside the proof.
    pub fn is_set_active_bound(&self) -> (bound: bool)
        ensures
            bound == self.set_active_bound(),
    {
        self.set_active_slot
    }

    /// The recorded invocations, oldest first.
    pub fn calls(&self) -> (calls: &Vec<HostCall>)
        ensures
            calls@.map_values(|c: HostCall| c@) == self.history(),
    {
        &self.calls
    }
}

} // verus!
