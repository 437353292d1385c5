//! The process-wide preference: should new windows be protected?

use vstd::prelude::*;
use vstd::string::*;
use crate::capture::reply_text;

verus! {

/// The preference that new windows are kept out of screen captures.
///
/// The value is the last one written; a fresh store says `true`.
#[derive(Clone, Copy, Debug)]
pub struct ProtectionState {
    pub enabled: bool,
}

impl Default for ProtectionState {
    /// A fresh store asks for protection.
    fn default() -> (state: Self)
        ensures
            state.enabled,
    {
        ProtectionState { enabled: true }
    }
}

impl ProtectionState {
    /// The store as it is after `enabled` was written to it.
    pub open spec fn after_set(self, enabled: bool) -> ProtectionState {
        ProtectionState { enabled }
    }

    /// Overwrites the preference.
    pub fn set(&mut self, enabled: bool)
        ensures
            *final(self) == old(self).after_set(enabled),
    {
        self.enabled = enabled;
    }

    /// Reads the preference.
    pub fn get(&self) -> (enabled: bool)
        ensures
            enabled == self.enabled,
    {
        self.enabled
    }
}

/// The reply to a write of `enabled`, where the store could be locked.
pub open spec fn written_text(enabled: bool) -> Seq<char> {
    "Global protection state set to: "@ + (if enabled {
        "true"@
    } else {
        "false"@
    })
}

/// The failure of a write where the store could not be locked.
pub open spec fn write_failed_text() -> Seq<char> {
    "Failed to update global protection state"@
}

/// The failure of a read where the store could not be locked.
pub open spec fn read_failed_text() -> Seq<char> {
    "Failed to read global protection state"@
}

/// Writes the preference and says so.
///
/// `state` is the store as the host locked it, or `None` where the lock
/// could not be taken: the write then fails, and says that instead.
pub fn set_global_protection_state(state: Option<&mut ProtectionState>, enabled: bool) -> (reply:
    Result<String, String>)
    ensures
        state matches Some(store) ==> *final(store) == store.after_set(enabled),
        state is Some ==> reply_text(reply) == Ok::<Seq<char>, Seq<char>>(written_text(enabled)),
        state is None ==> reply_text(reply) == Err::<Seq<char>, Seq<char>>(write_failed_text()),
{
    match state {
        Some(store) => {
            store.set(enabled);
            let value = if enabled {
                "true"
            } else {
                "false"
            };
            Ok(String::from_str("Global protection state set to: ").concat(value))
        },
        None => Err(String::from_str("Failed to update global protection state")),
    }
}

/// Reads the preference.
///
/// `state` is the store as the host locked it, or `None` where the lock
/// could not be taken: the read then fails.
pub fn get_global_protection_state(state: Option<&ProtectionState>) -> (reply: Result<bool, String>)
    ensures
        state matches Some(store) ==> reply == Ok::<bool, String>(store.enabled),
        state is None ==> (reply matches Err(message) && message@ == read_failed_text()),
{
    match state {
        Some(store) => Ok(store.get()),
        None => Err(String::from_str("Failed to read global protection state")),
    }
}

/// The store holds the last value written: after any two writes, a read
/// gives the second value, whatever the store held before.
pub proof fn law_last_write_is_read(state: ProtectionState, first: bool, second: bool)
    ensures
        state.after_set(first).enabled == first,
        state.after_set(first).after_set(second).enabled == second,
{
}

} // verus!
