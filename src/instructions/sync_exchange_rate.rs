//! Refreshes the LST rate snapshot metadata, on its own, as one committed
//! mutation.

use vstd::prelude::*;

use crate::error::LaminarError;
pub use crate::state::sync_exchange_rate_in_place;
use crate::state::{sync_spec, GlobalState};

verus! {

/// Syncs the LST rate snapshot at `current_slot` and counts the mutation.
/// A wrong layout version, a zero rate or a backwards clock is refused and
/// leaves the state unchanged.
pub fn handler(global_state: &mut GlobalState, current_slot: u64) -> (r: Result<(), LaminarError>)
    ensures
        if old(global_state).version != crate::state::CURRENT_VERSION {
            r == Err::<(), LaminarError>(LaminarError::InvalidVersion) && *final(global_state)
                == *old(global_state)
        } else {
            match sync_spec(*old(global_state), current_slot) {
                Ok(s) => r == Ok::<(), LaminarError>(()) && *final(global_state) == GlobalState {
                    operation_counter: s.next_counter(),
                    ..s
                },
                Err(e) => r == Err::<(), LaminarError>(e) && *final(global_state) == *old(
                    global_state,
                ),
            }
        },
{
    match global_state.validate_version() {
        Ok(_) => {},
        Err(e) => return Err(e),
    }
    match sync_exchange_rate_in_place(global_state, current_slot) {
        Ok(_) => {},
        Err(e) => return Err(e),
    }
    global_state.operation_counter = if global_state.operation_counter == u64::MAX {
        u64::MAX
    } else {
        global_state.operation_counter + 1
    };
    Ok(())
}

} // verus!
