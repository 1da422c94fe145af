//! The keyboard-state machine: lazy acquisition of the mapping table.
//!
//! A `KeyboardState` is either waiting on an issued mapping request
//! (`Unresolved`, holding the request's handle) or holding the reply
//! (`Resolved`). The owner performs the transport work: it issues the
//! request, asks [`KeyboardState::pending_handle`] whether a reply is
//! still owed, waits for that reply, and installs it. Once resolved, the
//! table answers every symbol query without further waiting, until a
//! refresh discards it and starts a new pending cycle.

use vstd::prelude::*;

use crate::mapping::{
    spec_resolve_symbol, resolve_symbol, KeyboardMapping, KeyboardSetup, KeysymError,
};

verus! {

/// The two phases of the mapping's lifecycle.
pub enum Innards {
    /// The mapping request with this handle has been issued; its reply
    /// has not been waited for.
    Unresolved(u64),
    /// The reply has arrived and serves all lookups.
    Resolved(KeyboardMapping),
}

/// Keeps track of the keyboard mapping for one connection.
pub struct KeyboardState {
    pub innards: Innards,
}

impl KeyboardState {
    /// The current phase of the state.
    pub open spec fn inner(self) -> Innards {
        self.innards
    }

    /// Whether a symbol query must first wait for a reply.
    pub open spec fn spec_needs_reply(self) -> bool {
        self.innards is Unresolved
    }

    /// The state as it stands right after a request was issued.
    pub open spec fn spec_pending(handle: u64) -> KeyboardState {
        KeyboardState { innards: Innards::Unresolved(handle) }
    }

    /// The state as it stands right after a reply was installed.
    pub open spec fn spec_resolved(mapping: KeyboardMapping) -> KeyboardState {
        KeyboardState { innards: Innards::Resolved(mapping) }
    }

    /// What a refresh makes of the state: a new pending cycle on the
    /// fresh handle, whatever was held before.
    pub open spec fn spec_refresh(self, handle: u64) -> KeyboardState {
        KeyboardState::spec_pending(handle)
    }

    /// Start the first pending cycle: the owner has issued the mapping
    /// request for the setup's whole keycode range and hands over the
    /// request's handle.
    pub fn new(handle: u64) -> (s: Self)
        ensures
            s == KeyboardState::spec_pending(handle),
            s.spec_needs_reply(),
    {
        KeyboardState { innards: Innards::Unresolved(handle) }
    }

    /// Start a new pending cycle, discarding any resolved mapping: the
    /// owner has re-issued the request and hands over the new handle.
    /// The next symbol query must wait for the fresh reply.
    pub fn refresh(&mut self, handle: u64)
        ensures
            *final(self) == old(self).spec_refresh(handle),
            final(self).spec_needs_reply(),
    {
        self.innards = Innards::Unresolved(handle);
    }

    /// The handle of the request whose reply is still owed, or `None`
    /// once the mapping is resolved and no wait is needed.
    pub fn pending_handle(&self) -> (r: Option<u64>)
        ensures
            r is Some <==> self.spec_needs_reply(),
            r is Some ==> self.inner() == Innards::Unresolved(r->0),
    {
        match &self.innards {
            Innards::Unresolved(handle) => Some(*handle),
            Innards::Resolved(_) => None,
        }
    }

    /// Install the reply of the pending request: the state resolves, and
    /// it stays resolved until the next refresh.
    pub fn install(&mut self, mapping: KeyboardMapping)
        requires
            old(self).spec_needs_reply(),
        ensures
            *final(self) == KeyboardState::spec_resolved(mapping),
            !final(self).spec_needs_reply(),
    {
        self.innards = Innards::Resolved(mapping);
    }

    /// The resolved mapping, or `None` while a reply is still owed.
    pub fn mapping(&self) -> (r: Option<&KeyboardMapping>)
        ensures
            r is Some <==> !self.spec_needs_reply(),
            r is Some ==> self.inner() == Innards::Resolved(*r->0),
    {
        match &self.innards {
            Innards::Unresolved(_) => None,
            Innards::Resolved(mapping) => Some(mapping),
        }
    }

    /// Resolve a symbol query from the cached mapping. Takes the state
    /// immutably: a query never changes the phase, so consecutive
    /// queries reuse the one resolved table.
    pub fn symbol(&self, setup: &KeyboardSetup, keycode: u8, column: u8) -> (r: Result<
        u32,
        KeysymError,
    >)
        requires
            self.inner() is Resolved,
            self.inner()->Resolved_0.wf(*setup),
            self.inner()->Resolved_0.keysyms_per_keycode >= 1,
            setup.min_keycode <= keycode <= setup.max_keycode,
        ensures
            r == spec_resolve_symbol(*setup, self.inner()->Resolved_0, keycode, column),
    {
        match &self.innards {
            Innards::Unresolved(_) => unreached(),
            Innards::Resolved(mapping) => resolve_symbol(setup, mapping, keycode, column),
        }
    }
}

/// One symbol query as the owner performs it, at spec level: if a reply
/// is owed, wait for it and install whatever mapping arrived (one
/// wait-for-reply); otherwise answer from the cached mapping (no wait).
/// The result is the state after the query and how many waits it took.
pub open spec fn spec_query_step(s: KeyboardState, arrived: KeyboardMapping) -> (
    KeyboardState,
    nat,
) {
    if s.spec_needs_reply() {
        (KeyboardState::spec_resolved(arrived), 1)
    } else {
        (s, 0)
    }
}

/// A mapping is resolved at most once per pending cycle: two consecutive
/// symbol queries without an intervening refresh wait for a reply at
/// most once in total, and exactly once when the first query found the
/// state pending. Installing the awaited reply leaves a state that owes
/// no further wait, whatever mapping arrived, and a query of a resolved
/// state changes nothing.
pub proof fn lemma_resolves_at_most_once(
    s: KeyboardState,
    first: KeyboardMapping,
    second: KeyboardMapping,
)
    ensures
        spec_query_step(s, first).1 + spec_query_step(spec_query_step(s, first).0, second).1
            <= 1,
        s.spec_needs_reply() ==> spec_query_step(s, first).1 + spec_query_step(
            spec_query_step(s, first).0,
            second,
        ).1 == 1,
        spec_query_step(spec_query_step(s, first).0, second).0 == spec_query_step(s, first).0,
{
}

/// A refresh always forces a new wait: whatever the state held before,
/// even an already resolved mapping, the refreshed state owes a reply,
/// so the symbol query that follows a refresh waits for the fresh reply.
pub proof fn lemma_refresh_forces_wait(s: KeyboardState, handle: u64, arrived: KeyboardMapping)
    ensures
        s.spec_refresh(handle).spec_needs_reply(),
        spec_query_step(s.spec_refresh(handle), arrived).1 == 1,
{
}

} // verus!
