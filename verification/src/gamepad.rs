//! Decision logic of the gamepad poller.
//!
//! The unverified shell pumps raw gamepad events and reads the current mode
//! from the reactor's broadcast; this module decides what each handled
//! button does: which reactor event to enqueue, which status frame or
//! control token to mirror to the GUI, and the new manual attenuation value.

use vstd::prelude::*;

use crate::event::{Event, ManualSetting};
use crate::mode::{Mode, NUM_MODES};
use crate::wire::{gui_mode_frame, gui_mode_frame_spec};

verus! {

/// The gamepad inputs the driver reacts to; every other event is ignored by
/// the shell.
#[derive(Clone, Copy, Debug, PartialEq, Eq, Structural)]
pub enum GamepadInput {
    /// Release of the east face button: cycle the mode.
    EastReleased,
    /// Release of d-pad up: 5 dB less manual attenuation (while manual).
    DPadUpReleased,
    /// Release of d-pad down: 5 dB more manual attenuation (while manual).
    DPadDownReleased,
    /// Press of the right trigger: opaque control token to the GUI.
    RightTrigger2Pressed,
    /// Press of the left trigger: opaque control token to the GUI.
    LeftTrigger2Pressed,
    /// Release of the west face button: opaque control token to the GUI.
    WestReleased,
    /// Release of the south face button: opaque control token to the GUI.
    SouthReleased,
    /// Release of the north face button: opaque control token to the GUI.
    NorthReleased,
}

/// Everything one gamepad input produces.
pub struct GamepadAction {
    /// Event to enqueue for the reactor, if any.
    pub event: Option<Event>,
    /// Mode-status frame for the GUI, if any.
    pub status: Option<Vec<u8>>,
    /// Three-byte control token for the GUI, if any.
    pub token: Option<Vec<u8>>,
    /// The manual attenuation the poller holds after this input.
    pub new_db: u8,
}

/// Manual attenuation one step louder, clamped to the dB range.
pub open spec fn db_step_up_spec(db: u8) -> u8 {
    if db + 5 <= 120 {
        (db + 5) as u8
    } else {
        120
    }
}

/// Manual attenuation one step quieter, clamped to the dB range.
pub open spec fn db_step_down_spec(db: u8) -> u8 {
    if db >= 5 {
        (db - 5) as u8
    } else {
        0
    }
}

/// The reactor event a gamepad mode cycle to code `c` produces: manual mode
/// carries the poller's current attenuation explicitly.
pub open spec fn gamepad_mode_event_spec(c: u8, db: u8) -> Event {
    match Mode::from_code_spec(c) {
        Mode::AutomaticFreeSpace => Event::ModeAutomaticFreeSpace,
        Mode::AutomaticFlatEarthTwoRay => Event::ModeAutomaticFlatEarthTwoRay,
        Mode::AutomaticCurvedEarthTwoRay => Event::ModeAutomaticCurvedEarthTwoRay,
        Mode::AutomaticNineRay => Event::ModeAutomaticNineRay,
        Mode::Manual => Event::ModeManual(ManualSetting::Explicit(db)),
    }
}

/// Decides what one gamepad input does, given the mode code last broadcast
/// by the reactor and the attenuation value the poller holds.
///
/// The east button cycles the mode to the next code modulo `NUM_MODES` and
/// reports the new mode to the GUI.  The d-pad steps the manual attenuation
/// by 5 dB, applied only while the broadcast mode is manual, and reports the
/// (possibly unchanged) value to the GUI either way.  D-pad down makes the
/// attenuation larger and d-pad up smaller, an inversion kept as the
/// hardware shipped with it.  Triggers and the other face buttons only emit
/// their fixed three-byte control token.
pub fn gamepad_input_action(mode_code: u8, current_db: u8, input: GamepadInput) -> (a:
    GamepadAction)
    requires
        mode_code < NUM_MODES,
        current_db <= 120,
    ensures
        a.new_db <= 120,
        a.event matches Some(e) ==> e.wf(),
        input == GamepadInput::EastReleased ==> {
            let c = ((mode_code + 1) % (NUM_MODES as int)) as u8;
            &&& a.new_db == current_db
            &&& a.event == Some(gamepad_mode_event_spec(c, current_db))
            &&& a.status matches Some(f) && f@ == gui_mode_frame_spec(c, current_db)
            &&& a.token is None
        },
        input == GamepadInput::DPadDownReleased ==> {
            &&& a.new_db == if mode_code == 4 {
                db_step_up_spec(current_db)
            } else {
                current_db
            }
            &&& a.event == if mode_code == 4 {
                Some(Event::ModeManual(ManualSetting::Explicit(db_step_up_spec(current_db))))
            } else {
                Option::<Event>::None
            }
            &&& a.status matches Some(f) && f@ == gui_mode_frame_spec(mode_code, a.new_db)
            &&& a.token is None
        },
        input == GamepadInput::DPadUpReleased ==> {
            &&& a.new_db == if mode_code == 4 {
                db_step_down_spec(current_db)
            } else {
                current_db
            }
            &&& a.event == if mode_code == 4 {
                Some(Event::ModeManual(ManualSetting::Explicit(db_step_down_spec(current_db))))
            } else {
                Option::<Event>::None
            }
            &&& a.status matches Some(f) && f@ == gui_mode_frame_spec(mode_code, a.new_db)
            &&& a.token is None
        },
        (input == GamepadInput::RightTrigger2Pressed || input == GamepadInput::LeftTrigger2Pressed
            || input == GamepadInput::WestReleased || input == GamepadInput::SouthReleased || input
            == GamepadInput::NorthReleased) ==> {
            &&& a.new_db == current_db
            &&& a.event is None
            &&& a.status is None
            &&& a.token matches Some(t) && t@ == control_token_spec(input)
        },
{
    match input {
        GamepadInput::EastReleased => {
            let c = (mode_code + 1) % NUM_MODES;
            let ev = match Mode::from_code(c) {
                Mode::AutomaticFreeSpace => Event::ModeAutomaticFreeSpace,
                Mode::AutomaticFlatEarthTwoRay => Event::ModeAutomaticFlatEarthTwoRay,
                Mode::AutomaticCurvedEarthTwoRay => Event::ModeAutomaticCurvedEarthTwoRay,
                Mode::AutomaticNineRay => Event::ModeAutomaticNineRay,
                Mode::Manual => Event::ModeManual(ManualSetting::Explicit(current_db)),
            };
            GamepadAction {
                event: Some(ev),
                status: Some(gui_mode_frame(c, current_db)),
                token: None,
                new_db: current_db,
            }
        },
        GamepadInput::DPadDownReleased => {
            if mode_code == 4 {
                let new_db = if current_db + 5 <= 120 {
                    current_db + 5
                } else {
                    120
                };
                GamepadAction {
                    event: Some(Event::ModeManual(ManualSetting::Explicit(new_db))),
                    status: Some(gui_mode_frame(mode_code, new_db)),
                    token: None,
                    new_db,
                }
            } else {
                GamepadAction {
                    event: None,
                    status: Some(gui_mode_frame(mode_code, current_db)),
                    token: None,
                    new_db: current_db,
                }
            }
        },
        GamepadInput::DPadUpReleased => {
            if mode_code == 4 {
                let new_db = if current_db >= 5 {
                    current_db - 5
                } else {
                    0
                };
                GamepadAction {
                    event: Some(Event::ModeManual(ManualSetting::Explicit(new_db))),
                    status: Some(gui_mode_frame(mode_code, new_db)),
                    token: None,
                    new_db,
                }
            } else {
                GamepadAction {
                    event: None,
                    status: Some(gui_mode_frame(mode_code, current_db)),
                    token: None,
                    new_db: current_db,
                }
            }
        },
        _ => {
            let mut t: Vec<u8> = Vec::new();
            match input {
                GamepadInput::RightTrigger2Pressed => {
                    t.push(69u8);
                    t.push(84u8);
                    t.push(82u8);
                },
                GamepadInput::LeftTrigger2Pressed => {
                    t.push(69u8);
                    t.push(84u8);
                    t.push(76u8);
                },
                GamepadInput::WestReleased => {
                    t.push(69u8);
                    t.push(65u8);
                    t.push(87u8);
                },
                GamepadInput::SouthReleased => {
                    t.push(69u8);
                    t.push(65u8);
                    t.push(83u8);
                },
                _ => {
                    t.push(69u8);
                    t.push(65u8);
                    t.push(78u8);
                },
            }
            assert(t@ =~= control_token_spec(input));
            GamepadAction { event: None, status: None, token: Some(t), new_db: current_db }
        },
    }
}

/// The three ASCII bytes of the control token each opaque button sends:
/// "ETR", "ETL", "EAW", "EAS" or "EAN".
pub open spec fn control_token_spec(input: GamepadInput) -> Seq<u8> {
    match input {
        GamepadInput::RightTrigger2Pressed => seq![69u8, 84u8, 82u8],
        GamepadInput::LeftTrigger2Pressed => seq![69u8, 84u8, 76u8],
        GamepadInput::WestReleased => seq![69u8, 65u8, 87u8],
        GamepadInput::SouthReleased => seq![69u8, 65u8, 83u8],
        _ => seq![69u8, 65u8, 78u8],
    }
}

} // verus!
