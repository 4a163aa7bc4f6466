//! The battery saver: power profile selection and the low-battery prompt.
use vstd::prelude::*;
use crate::security::drivers::battery::state::{BatteryInfo, BatteryStatus, PowerProfile};

verus! {

/// Whether the user is being asked what to do about a low battery.
#[derive(Debug, Clone, Copy, PartialEq, Eq, Structural)]
pub enum PowerPromptState {
    Idle,
    AwaitingLowBatteryChoice,
}

/// The user's answer to the low-battery prompt.
#[derive(Debug, Clone, Copy, PartialEq, Eq, Structural)]
pub enum PowerChoice {
    EnableSaver,
    PluggedInCharging,
}

/// Battery saver state.
pub struct BatterySaver {
    pub enabled: bool,
    pub auto_enable: bool,
    pub threshold_percentage: u8,
    pub active_profile: PowerProfile,
    pub prompt_state: PowerPromptState,
}

impl BatterySaver {
    /// The saver after a battery reading.
    pub open spec fn after_update(self, info: BatteryInfo) -> BatterySaver {
        match info.status {
            BatteryStatus::Charging | BatteryStatus::Full => BatterySaver {
                enabled: false,
                prompt_state: PowerPromptState::Idle,
                active_profile: PowerProfile::Performance,
                ..self
            },
            BatteryStatus::Discharging => if info.percentage <= self.threshold_percentage {
                if !self.enabled && self.prompt_state == PowerPromptState::Idle {
                    BatterySaver { prompt_state: PowerPromptState::AwaitingLowBatteryChoice, ..self }
                } else {
                    self
                }
            } else {
                BatterySaver {
                    prompt_state: PowerPromptState::Idle,
                    active_profile: if !self.enabled {
                        PowerProfile::Balanced
                    } else {
                        self.active_profile
                    },
                    ..self
                }
            },
            BatteryStatus::NotPresent | BatteryStatus::Unknown => BatterySaver {
                active_profile: PowerProfile::Balanced,
                ..self
            },
        }
    }

    /// The saver after the user's choice.
    pub open spec fn after_choice(self, choice: PowerChoice) -> BatterySaver {
        match choice {
            PowerChoice::EnableSaver => BatterySaver {
                prompt_state: PowerPromptState::Idle,
                enabled: true,
                active_profile: PowerProfile::PowerSaver,
                ..self
            },
            PowerChoice::PluggedInCharging => BatterySaver {
                prompt_state: PowerPromptState::Idle,
                enabled: false,
                active_profile: PowerProfile::Performance,
                ..self
            },
        }
    }

    /// The saver after a keypress, and the profile that the keypress chose:
    /// while a prompt is pending, '1' enables the saver and '2' reports the
    /// charger; every other key, and every key without a prompt, is ignored.
    pub open spec fn after_key(self, key: char) -> (BatterySaver, Option<PowerProfile>) {
        if self.prompt_state != PowerPromptState::AwaitingLowBatteryChoice {
            (self, None)
        } else if key == '1' {
            let s = self.after_choice(PowerChoice::EnableSaver);
            (s, Some(s.active_profile))
        } else if key == '2' {
            let s = self.after_choice(PowerChoice::PluggedInCharging);
            (s, Some(s.active_profile))
        } else {
            (self, None)
        }
    }

    /// A disabled saver with automatic enabling, a 15% threshold, the
    /// balanced profile and no prompt.
    pub fn new() -> (r: BatterySaver)
        ensures
            r == (BatterySaver {
                enabled: false,
                auto_enable: true,
                threshold_percentage: 15,
                active_profile: PowerProfile::Balanced,
                prompt_state: PowerPromptState::Idle,
            }),
    {
        BatterySaver {
            enabled: false,
            auto_enable: true,
            threshold_percentage: 15,
            active_profile: PowerProfile::Balanced,
            prompt_state: PowerPromptState::Idle,
        }
    }

    /// Takes a battery reading into account and returns the active profile:
    /// on external power the saver turns off for full performance; at or
    /// below the threshold on battery the user is prompted (once, unless the
    /// saver is already on); above it a pending prompt is dropped.
    pub fn update(&mut self, info: &BatteryInfo) -> (r: PowerProfile)
        ensures
            *final(self) == old(self).after_update(*info),
            r == final(self).active_profile,
    {
        match info.status {
            BatteryStatus::Charging | BatteryStatus::Full => {
                self.enabled = false;
                self.prompt_state = PowerPromptState::Idle;
                self.active_profile = PowerProfile::Performance;
            },
            BatteryStatus::Discharging => {
                if info.percentage <= self.threshold_percentage {
                    if !self.enabled && self.prompt_state == PowerPromptState::Idle {
                        self.prompt_state = PowerPromptState::AwaitingLowBatteryChoice;
                    }
                } else {
                    self.prompt_state = PowerPromptState::Idle;
                    if !self.enabled {
                        self.active_profile = PowerProfile::Balanced;
                    }
                }
            },
            BatteryStatus::NotPresent | BatteryStatus::Unknown => {
                self.active_profile = PowerProfile::Balanced;
            },
        }
        self.active_profile
    }

    /// Answers a pending low-battery prompt from a keypress ('1': saver on,
    /// '2': charger plugged in); returns the resulting profile, or `None`
    /// when no prompt is pending or the key is not an answer.
    pub fn handle_key_input(&mut self, key: char) -> (r: Option<PowerProfile>)
        ensures
            (*final(self), r) == old(self).after_key(key),
    {
        if self.prompt_state != PowerPromptState::AwaitingLowBatteryChoice {
            return None;
        }
        match key {
            '1' => Some(self.apply_choice(PowerChoice::EnableSaver)),
            '2' => Some(self.apply_choice(PowerChoice::PluggedInCharging)),
            _ => None,
        }
    }

    /// Applies the user's choice, clears the prompt and returns the new
    /// profile.
    pub fn apply_choice(&mut self, choice: PowerChoice) -> (r: PowerProfile)
        ensures
            *final(self) == old(self).after_choice(choice),
            r == final(self).active_profile,
    {
        self.prompt_state = PowerPromptState::Idle;
        match choice {
            PowerChoice::EnableSaver => {
                self.enabled = true;
                self.active_profile = PowerProfile::PowerSaver;
            },
            PowerChoice::PluggedInCharging => {
                self.enabled = false;
                self.active_profile = PowerProfile::Performance;
            },
        }
        self.active_profile
    }

    /// Whether the low-battery dialog must be shown.
    pub fn should_show_dialog(&self) -> (r: bool)
        ensures
            r == (self.prompt_state == PowerPromptState::AwaitingLowBatteryChoice),
    {
        self.prompt_state == PowerPromptState::AwaitingLowBatteryChoice
    }

    /// Selects a power profile directly.
    pub fn set_profile(&mut self, profile: PowerProfile)
        ensures
            *final(self) == (BatterySaver { active_profile: profile, ..*old(self) }),
    {
        self.active_profile = profile;
    }
}

/// On external power the saver always turns off, drops any prompt and
/// selects full performance.
pub proof fn lemma_external_power_means_performance(s: BatterySaver, info: BatteryInfo)
    requires
        info.status == BatteryStatus::Charging || info.status == BatteryStatus::Full,
    ensures
        !s.after_update(info).enabled,
        s.after_update(info).prompt_state == PowerPromptState::Idle,
        s.after_update(info).active_profile == PowerProfile::Performance,
{
}

/// On battery, a reading never switches the saver on or off. Above the
/// threshold any prompt is dropped and a disabled saver falls back to the
/// balanced profile (an enabled one keeps its profile); at or below it the
/// profile stays and a disabled saver asks the user. With no battery or an
/// unknown state the profile is balanced and nothing else changes.
pub proof fn lemma_battery_readings(s: BatterySaver, info: BatteryInfo)
    ensures
        info.status == BatteryStatus::Discharging ==> {
            &&& s.after_update(info).enabled == s.enabled
            &&& s.after_update(info).threshold_percentage == s.threshold_percentage
            &&& info.percentage > s.threshold_percentage ==> {
                &&& s.after_update(info).prompt_state == PowerPromptState::Idle
                &&& !s.enabled ==> s.after_update(info).active_profile == PowerProfile::Balanced
                &&& s.enabled ==> s.after_update(info).active_profile == s.active_profile
            }
            &&& info.percentage <= s.threshold_percentage ==> {
                &&& s.after_update(info).active_profile == s.active_profile
                &&& !s.enabled ==> s.after_update(info).prompt_state
                    == PowerPromptState::AwaitingLowBatteryChoice
                &&& s.enabled ==> s.after_update(info).prompt_state == s.prompt_state
            }
        },
        (info.status == BatteryStatus::NotPresent || info.status == BatteryStatus::Unknown) ==> {
            &&& s.after_update(info).active_profile == PowerProfile::Balanced
            &&& s.after_update(info).enabled == s.enabled
            &&& s.after_update(info).prompt_state == s.prompt_state
        },
{
}

/// A reading raises the low-battery prompt only when the battery is
/// discharging at or below the threshold and the saver is off.
pub proof fn lemma_prompt_only_when_low(s: BatterySaver, info: BatteryInfo)
    requires
        s.prompt_state == PowerPromptState::Idle,
        s.after_update(info).prompt_state == PowerPromptState::AwaitingLowBatteryChoice,
    ensures
        info.status == BatteryStatus::Discharging,
        info.percentage <= s.threshold_percentage,
        !s.enabled,
{
}

/// Once the saver is on, readings on battery neither turn it off nor change
/// the profile.
pub proof fn lemma_saver_sticks_on_battery(s: BatterySaver, info: BatteryInfo)
    requires
        s.enabled,
        info.status == BatteryStatus::Discharging,
    ensures
        s.after_update(info).enabled,
        s.after_update(info).active_profile == s.active_profile,
{
}

/// Keys are ignored unless a prompt is pending; an answer always clears the
/// prompt and reports the new active profile.
pub proof fn lemma_keys_only_answer_prompts(s: BatterySaver, key: char)
    ensures
        s.prompt_state != PowerPromptState::AwaitingLowBatteryChoice ==> s.after_key(key) == (s, None::<PowerProfile>),
        s.after_key(key).1 is Some ==> {
            &&& s.after_key(key).0.prompt_state == PowerPromptState::Idle
            &&& s.after_key(key).1 == Some(s.after_key(key).0.active_profile)
        },
{
}

} // verus!
