//! Battery polling and power-profile keys.
use vstd::prelude::*;

pub mod saver;

use crate::security::drivers::battery::state::{BatteryInfo, PowerProfile};
use saver::{BatterySaver, PowerPromptState};

verus! {

/// Periodic battery poll: updates the saver with `info`, the reading just
/// taken from the embedded controller, and reports whether the low-battery
/// dialog must be shown.
pub fn poll(saver: &mut BatterySaver, info: &BatteryInfo) -> (r: bool)
    ensures
        *final(saver) == old(saver).after_update(*info),
        r == (final(saver).prompt_state == PowerPromptState::AwaitingLowBatteryChoice),
{
    saver.update(info);
    saver.should_show_dialog()
}

/// Power-profile keys: '1' selects the power saver profile, '2' the
/// performance profile; other keys do nothing.
pub fn handle_input(saver: &mut BatterySaver, key: char)
    ensures
        *final(saver) == (if key == '1' {
            BatterySaver { active_profile: PowerProfile::PowerSaver, ..*old(saver) }
        } else if key == '2' {
            BatterySaver { active_profile: PowerProfile::Performance, ..*old(saver) }
        } else {
            *old(saver)
        }),
{
    match key {
        '1' => saver.set_profile(PowerProfile::PowerSaver),
        '2' => saver.set_profile(PowerProfile::Performance),
        _ => {},
    }
}

} // verus!
