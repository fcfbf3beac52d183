//! Logical pin identifiers and their resolution to physical BCM line numbers.
//!
//! Resolution is a pure function of the logical pin and the board revision;
//! the revision itself is probed once from a reserved digital input.

use vstd::prelude::*;
use crate::error::{HatError, Phase};
use crate::hw;

verus! {

/// BCM number of the reserved input that reports the board revision.
pub const BOARD_TYPE: u8 = 12;

/// The closed set of logical pins a robot-hat exposes: digital lines
/// `D0`-`D16`, PWM channels `P0`-`P13`, and fixed-function pins.
#[derive(Copy, Clone, Debug)]
pub enum PinType {
    /// The Digital pin 0
    D0,
    /// The Digital pin 1
    D1,
    /// The Digital pin 2
    D2,
    /// The Digital pin 3
    D3,
    /// The Digital pin 4
    D4,
    /// The Digital pin 5
    D5,
    /// The Digital pin 6
    D6,
    /// The Digital pin 7
    D7,
    /// The Digital pin 8
    D8,
    /// The Digital pin 9
    D9,
    /// The Digital pin 10
    D10,
    /// The Digital pin 11
    D11,
    /// The Digital pin 12
    D12,
    /// The Digital pin 13
    D13,
    /// The Digital pin 14
    D14,
    /// The Digital pin 15
    D15,
    /// The Digital pin 16
    D16,
    /// The Pwm pin 0
    P0,
    /// The Pwm pin 1
    P1,
    /// The Pwm pin 2
    P2,
    /// The Pwm pin 3
    P3,
    /// The Pwm pin 4
    P4,
    /// The Pwm pin 5
    P5,
    /// The Pwm pin 6
    P6,
    /// The Pwm pin 7
    P7,
    /// The Pwm pin 8
    P8,
    /// The Pwm pin 9
    P9,
    /// The Pwm pin 10
    P10,
    /// The Pwm pin 11
    P11,
    /// The Pwm pin 12
    P12,
    /// The Pwm pin 13
    P13,
    /// The USR button
    SW,
    /// The USR button
    User,
    /// The LED on the board
    Led,
    /// The board type pin
    BoardType,
    /// The Reset pin
    Rst,
    /// The Ble interrupt pin
    BleInt,
    /// The Ble reset pin
    BleRst,
    /// The MCU reset pin
    McuRst,
}

/// The physical BCM line a logical pin resolves to, given the board
/// revision (`board_type` is true on the newer revision, whose probe
/// line reads logic-low).
pub open spec fn spec_bcm_num(pin: PinType, board_type: bool) -> u8 {
    match pin {
        PinType::D0 => 17,
        PinType::D1 => if board_type { 18 } else { 4 },
        PinType::D2 => 27,
        PinType::D3 => 22,
        PinType::D4 => 23,
        PinType::D5 => 24,
        PinType::D6 => 25,
        PinType::D7 => 4,
        PinType::D8 => 5,
        PinType::D9 => 6,
        PinType::D10 => 12,
        PinType::D11 => 13,
        PinType::D12 => 19,
        PinType::D13 => 16,
        PinType::D14 => 26,
        PinType::D15 => 20,
        PinType::D16 => 21,
        PinType::P0 => 0,
        PinType::P1 => 1,
        PinType::P2 => 2,
        PinType::P3 => 3,
        PinType::P4 => 4,
        PinType::P5 => 5,
        PinType::P6 => 6,
        PinType::P7 => 7,
        PinType::P8 => 8,
        PinType::P9 => 9,
        PinType::P10 => 10,
        PinType::P11 => 11,
        PinType::P12 => 12,
        PinType::P13 => 13,
        PinType::SW => if board_type { 19 } else { 25 },
        PinType::User => if board_type { 19 } else { 25 },
        PinType::Led => 26,
        PinType::BoardType => 12,
        PinType::Rst => 16,
        PinType::BleInt => 13,
        PinType::BleRst => 20,
        PinType::McuRst => if board_type { 21 } else { 5 },
    }
}

/// True exactly for the digital pins `D0`-`D16`.
pub open spec fn spec_is_digital_pin(pin: PinType) -> bool {
    match pin {
        PinType::D0 | PinType::D1 | PinType::D2 | PinType::D3 | PinType::D4
        | PinType::D5 | PinType::D6 | PinType::D7 | PinType::D8 | PinType::D9
        | PinType::D10 | PinType::D11 | PinType::D12 | PinType::D13
        | PinType::D14 | PinType::D15 | PinType::D16 => true,
        _ => false,
    }
}

/// True exactly for the PWM pins `P0`-`P13`.
pub open spec fn spec_is_pwm_pin(pin: PinType) -> bool {
    match pin {
        PinType::P0 | PinType::P1 | PinType::P2 | PinType::P3 | PinType::P4
        | PinType::P5 | PinType::P6 | PinType::P7 | PinType::P8 | PinType::P9
        | PinType::P10 | PinType::P11 | PinType::P12 | PinType::P13 => true,
        _ => false,
    }
}

/// The PWM channel index of a PWM pin: `P0` is channel 0, ..., `P13` is 13.
/// Pins outside `P0`-`P13` have no channel; the value is unused for them.
pub open spec fn spec_pwm_channel(pin: PinType) -> u8 {
    match pin {
        PinType::P0 => 0,
        PinType::P1 => 1,
        PinType::P2 => 2,
        PinType::P3 => 3,
        PinType::P4 => 4,
        PinType::P5 => 5,
        PinType::P6 => 6,
        PinType::P7 => 7,
        PinType::P8 => 8,
        PinType::P9 => 9,
        PinType::P10 => 10,
        PinType::P11 => 11,
        PinType::P12 => 12,
        PinType::P13 => 13,
        _ => 0,
    }
}

/// Pin resolution depends on the board revision only for `D1`, the user
/// button (`SW`/`User`) and the MCU reset line; every other logical pin
/// resolves to the same physical line on both revisions.
pub proof fn lemma_resolution_revision_invariant(pin: PinType)
    requires
        !(pin is D1),
        !(pin is SW),
        !(pin is User),
        !(pin is McuRst),
    ensures
        spec_bcm_num(pin, true) == spec_bcm_num(pin, false),
{
}

impl PinType {
    /// Resolve this logical pin to its physical BCM line number for the
    /// given board revision.
    pub fn bcm_num(&self, board_type: bool) -> (r: u8)
        ensures
            r == spec_bcm_num(*self, board_type),
    {
        match self {
            PinType::D0 => 17,
            PinType::D1 => {
                if board_type {
                    18
                } else {
                    4
                }
            }
            PinType::D2 => 27,
            PinType::D3 => 22,
            PinType::D4 => 23,
            PinType::D5 => 24,
            PinType::D6 => 25,
            PinType::D7 => 4,
            PinType::D8 => 5,
            PinType::D9 => 6,
            PinType::D10 => 12,
            PinType::D11 => 13,
            PinType::D12 => 19,
            PinType::D13 => 16,
            PinType::D14 => 26,
            PinType::D15 => 20,
            PinType::D16 => 21,
            PinType::P0 => 0,
            PinType::P1 => 1,
            PinType::P2 => 2,
            PinType::P3 => 3,
            PinType::P4 => 4,
            PinType::P5 => 5,
            PinType::P6 => 6,
            PinType::P7 => 7,
            PinType::P8 => 8,
            PinType::P9 => 9,
            PinType::P10 => 10,
            PinType::P11 => 11,
            PinType::P12 => 12,
            PinType::P13 => 13,
            PinType::SW => {
                if board_type {
                    19
                } else {
                    25
                }
            }
            PinType::User => {
                if board_type {
                    19
                } else {
                    25
                }
            }
            PinType::Led => 26,
            PinType::BoardType => 12,
            PinType::Rst => 16,
            PinType::BleInt => 13,
            PinType::BleRst => 20,
            PinType::McuRst => {
                if board_type {
                    21
                } else {
                    5
                }
            }
        }
    }

    /// Checks if this pin is a digital pin (`D0`-`D16`).
    pub fn is_digital_pin(&self) -> (r: bool)
        ensures
            r == spec_is_digital_pin(*self),
    {
        match self {
            PinType::D0 | PinType::D1 | PinType::D2 | PinType::D3 | PinType::D4
            | PinType::D5 | PinType::D6 | PinType::D7 | PinType::D8 | PinType::D9
            | PinType::D10 | PinType::D11 | PinType::D12 | PinType::D13
            | PinType::D14 | PinType::D15 | PinType::D16 => true,
            _ => false,
        }
    }

    /// Checks if this pin is a PWM pin (`P0`-`P13`).
    pub fn is_pwm_pin(&self) -> (r: bool)
        ensures
            r == spec_is_pwm_pin(*self),
    {
        match self {
            PinType::P0 | PinType::P1 | PinType::P2 | PinType::P3 | PinType::P4
            | PinType::P5 | PinType::P6 | PinType::P7 | PinType::P8 | PinType::P9
            | PinType::P10 | PinType::P11 | PinType::P12 | PinType::P13 => true,
            _ => false,
        }
    }

    /// The PWM channel index of a PWM pin (`P0` is 0, ..., `P13` is 13).
    pub fn pwm_channel(&self) -> (r: u8)
        requires
            spec_is_pwm_pin(*self),
        ensures
            r == spec_pwm_channel(*self),
            r < 14,
    {
        match self {
            PinType::P0 => 0,
            PinType::P1 => 1,
            PinType::P2 => 2,
            PinType::P3 => 3,
            PinType::P4 => 4,
            PinType::P5 => 5,
            PinType::P6 => 6,
            PinType::P7 => 7,
            PinType::P8 => 8,
            PinType::P9 => 9,
            PinType::P10 => 10,
            PinType::P11 => 11,
            PinType::P12 => 12,
            PinType::P13 => 13,
            _ => 0,
        }
    }
}

/// Probe the board revision: the reserved input reads logic-low on the
/// newer revision.
fn check_board_type() -> (r: Result<bool, HatError>)
    ensures
        r matches Err(e) ==> e is Gpio,
{
    let gpio = match hw::gpio_new() {
        Ok(g) => g,
        Err(e) => {
            return Err(HatError::Gpio(Phase::GpioOpen, e));
        }
    };
    let pin = match hw::gpio_get(&gpio, BOARD_TYPE) {
        Ok(p) => p,
        Err(e) => {
            return Err(HatError::Gpio(Phase::LineClaim, e));
        }
    };
    let type_pin = hw::pin_into_input(pin);

    Ok(hw::input_is_low(&type_pin))
}

/// A claimed physical line, together with the BCM number it was resolved to.
#[derive(Debug)]
pub struct RHPin {
    /// The claimed GPIO line.
    pub gpio_pin: rppal::gpio::Pin,
    /// The BCM line number `gpio_pin` was claimed under.
    pub bcm: u8,
}

impl RHPin {
    /// Probe the board revision, resolve the logical pin against it, and
    /// claim the resulting physical line.
    pub fn new(pin_type: PinType) -> (r: Result<RHPin, HatError>)
        ensures
            r matches Ok(p) ==> p.bcm == spec_bcm_num(pin_type, true)
                || p.bcm == spec_bcm_num(pin_type, false),
            r matches Err(e) ==> e is Gpio,
    {
        let board_type = check_board_type()?;
        let bcm_num = pin_type.bcm_num(board_type);
        let gpio = match hw::gpio_new() {
            Ok(g) => g,
            Err(e) => {
                return Err(HatError::Gpio(Phase::GpioOpen, e));
            }
        };
        let gpio_pin = match hw::gpio_get(&gpio, bcm_num) {
            Ok(p) => p,
            Err(e) => {
                return Err(HatError::Gpio(Phase::LineClaim, e));
            }
        };

        Ok(RHPin { gpio_pin, bcm: bcm_num })
    }
}

} // verus!
