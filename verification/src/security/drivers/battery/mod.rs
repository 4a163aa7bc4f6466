//! Battery state checks, and the hooks that connect the battery saver to the
//! screen and the keyboard.
use vstd::prelude::*;

pub mod state;

use crate::kernel::drivers::battery::saver::{BatterySaver, PowerPromptState};

verus! {

/// Whether the low-battery dialog must be shown: the saver awaits the user's
/// choice.
pub fn check_battery_status(saver: &BatterySaver) -> (r: bool)
    ensures
        r == (saver.prompt_state == PowerPromptState::AwaitingLowBatteryChoice),
{
    saver.prompt_state == PowerPromptState::AwaitingLowBatteryChoice
}

/// Routes a keypress to the battery saver's pending prompt.
pub fn handle_key_input(saver: &mut BatterySaver, key: char)
    ensures
        *final(saver) == old(saver).after_key(key).0,
{
    let _ = saver.handle_key_input(key);
}

} // verus!
