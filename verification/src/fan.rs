//! Fan actuator output: turns a normalized Q16.16 duty fraction into a PWM
//! compare code, rejecting out-of-range requests instead of clamping them, so
//! that an actuator-side bounds decision is always visible to the caller.

use vstd::prelude::*;

verus! {

/// The pin lines the fan is wired to: a tachometer input and the PWM output.
pub struct FanPins {
    /// Tachometer input line.
    pub tacho: u8,
    /// PWM output line.
    pub pwm: u8,
}

/// Failure of an actuator command.
#[derive(Clone, Copy, Debug, PartialEq, Eq, Structural)]
pub enum Error {
    /// The requested duty does not map into `[0, max_duty_code)`; the output
    /// was left unchanged.
    Bounds,
}

/// The fan PWM channel: the hardware's maximal compare code and the code
/// currently committed to the output. Mutated only through `set_duty`.
pub struct Fan {
    max_duty_code: u32,
    current_code: u32,
}

/// The PWM code a duty request maps to: `round(duty * max_duty_code)` in
/// Q16.16, rounding half up.
pub open spec fn duty_code(duty: u32, max_duty_code: u32) -> int {
    (duty * max_duty_code + 0x8000) / 0x10000
}

impl Fan {
    /// The maximal compare code the PWM timer was configured with.
    pub closed spec fn spec_max_duty(self) -> u32 {
        self.max_duty_code
    }

    /// The compare code currently committed to the output.
    pub closed spec fn spec_current(self) -> u32 {
        self.current_code
    }

    /// A fan driver over a PWM channel with the given maximal compare code;
    /// the output starts disabled (code zero).
    pub fn new(pins: FanPins, max_duty_code: u32) -> (fan: Fan)
        ensures
            fan.spec_max_duty() == max_duty_code,
            fan.spec_current() == 0,
    {
        let _ = pins;
        Fan { max_duty_code, current_code: 0 }
    }

    /// Commit a duty fraction to the output. The request succeeds with the
    /// rounded code exactly when that code falls in `[0, max_duty_code)`;
    /// otherwise the command fails and the committed code is untouched.
    pub fn set_duty(&mut self, duty: u32) -> (r: Result<u32, Error>)
        ensures
            final(self).spec_max_duty() == old(self).spec_max_duty(),
            duty_code(duty, old(self).spec_max_duty()) < old(self).spec_max_duty() ==> {
                &&& r == Ok::<u32, Error>(duty_code(duty, old(self).spec_max_duty()) as u32)
                &&& final(self).spec_current() == duty_code(duty, old(self).spec_max_duty())
            },
            duty_code(duty, old(self).spec_max_duty()) >= old(self).spec_max_duty() ==> {
                &&& r == Err::<u32, Error>(Error::Bounds)
                &&& *final(self) == *old(self)
            },
    {
        let max = self.max_duty_code;
        proof {
            assert((duty as int) * (max as int) <= 0xffff_fffe_0000_0001) by (nonlinear_arith)
                requires
                    0 <= duty as int <= 0xffff_ffff,
                    0 <= max as int <= 0xffff_ffff,
            ;
        }
        let code: u64 = ((duty as u64) * (max as u64) + 0x8000) / 0x10000;
        if code >= max as u64 {
            Err(Error::Bounds)
        } else {
            self.current_code = code as u32;
            Ok(code as u32)
        }
    }

    /// The compare code currently committed to the output.
    pub fn current_code(&self) -> (code: u32)
        ensures
            code == self.spec_current(),
    {
        self.current_code
    }

    /// The maximal compare code the PWM timer was configured with.
    pub fn max_duty_code(&self) -> (max: u32)
        ensures
            max == self.spec_max_duty(),
    {
        self.max_duty_code
    }
}

} // verus!
