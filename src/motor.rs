use crate::error::{ActuatorError, Coil, MotorError};
use crate::motion::Motion;
use crate::power::{magnitude, power_steps, rounded_steps};
use vstd::prelude::*;

verus! {

/// The optional features a motor supports.
#[derive(Clone, Copy, Debug, PartialEq, Eq, Structural)]
pub struct MotorSupportedProperties {
    pub position_reporting: bool,
}

/// A four-coil stepper on the pins `in_1` to `in_4`. It keeps no position:
/// without an encoder it has none to keep.
#[derive(Clone, Copy, Debug, PartialEq, Eq, Structural)]
pub struct Stepper {
    pub in_1: i32,
    pub in_2: i32,
    pub in_3: i32,
    pub in_4: i32,
}

impl Stepper {
    /// The coil pins, `in_1` first.
    pub open spec fn pins(&self) -> Seq<i32> {
        seq![self.in_1, self.in_2, self.in_3, self.in_4]
    }

    /// The result of configuring a stepper: the board is checked first, then
    /// the pin attributes in order, and the first one missing is reported.
    pub open spec fn configured(
        has_board: bool,
        in_1: Option<i32>,
        in_2: Option<i32>,
        in_3: Option<i32>,
        in_4: Option<i32>,
    ) -> Result<Stepper, MotorError> {
        if !has_board {
            Err(MotorError::MissingBoard)
        } else if in_1 is None {
            Err(MotorError::MissingAttribute(Coil::In1))
        } else if in_2 is None {
            Err(MotorError::MissingAttribute(Coil::In2))
        } else if in_3 is None {
            Err(MotorError::MissingAttribute(Coil::In3))
        } else if in_4 is None {
            Err(MotorError::MissingAttribute(Coil::In4))
        } else {
            Ok(
                Stepper {
                    in_1: in_1->0,
                    in_2: in_2->0,
                    in_3: in_3->0,
                    in_4: in_4->0,
                },
            )
        }
    }

    pub fn new(in_1: i32, in_2: i32, in_3: i32, in_4: i32) -> (r: Result<Stepper, MotorError>)
        ensures
            r == Ok::<Stepper, MotorError>(Stepper { in_1, in_2, in_3, in_4 }),
    {
        Ok(Stepper { in_1, in_2, in_3, in_4 })
    }

    /// Builds a stepper from what the configuration holds: whether a board
    /// was given, and each pin attribute if present. Nothing touches the
    /// hardware before all of them are known.
    pub fn from_config(
        has_board: bool,
        in_1: Option<i32>,
        in_2: Option<i32>,
        in_3: Option<i32>,
        in_4: Option<i32>,
    ) -> (r: Result<Stepper, MotorError>)
        ensures
            r == Stepper::configured(has_board, in_1, in_2, in_3, in_4),
    {
        if !has_board {
            return Err(MotorError::MissingBoard);
        }
        let in_1 = match in_1 {
            Some(p) => p,
            None => return Err(MotorError::MissingAttribute(Coil::In1)),
        };
        let in_2 = match in_2 {
            Some(p) => p,
            None => return Err(MotorError::MissingAttribute(Coil::In2)),
        };
        let in_3 = match in_3 {
            Some(p) => p,
            None => return Err(MotorError::MissingAttribute(Coil::In3)),
        };
        let in_4 = match in_4 {
            Some(p) => p,
            None => return Err(MotorError::MissingAttribute(Coil::In4)),
        };
        Stepper::new(in_1, in_2, in_3, in_4)
    }

    /// Starts `count` traversals of the half-step table, forward or in
    /// reverse, each followed by switching every coil off.
    pub fn step(&self, count: u32, forwards: bool) -> (r: Motion)
        ensures
            r.wf(),
            r.is_start(self.pins(), count as nat, forwards),
    {
        let pins: [i32; 4] = [self.in_1, self.in_2, self.in_3, self.in_4];
        assert(pins@ =~= self.pins());
        Motion::new(pins, count, forwards)
    }

    /// Starts the motion for power `num / den`, between -1 and 1: the
    /// rounded `|power| * 512` traversals, forward unless the power is
    /// negative. Power sets the distance only; the speed is fixed.
    pub fn set_power(&self, num: i64, den: u64) -> (r: Motion)
        requires
            den > 0,
            magnitude(num as int) <= den,
        ensures
            r.wf(),
            r.is_start(self.pins(), rounded_steps(num as int, den as int) as nat, num >= 0),
    {
        let steps = power_steps(num, den);
        if num < 0 {
            self.step(steps, false)
        } else {
            self.step(steps, true)
        }
    }

    /// Stopping is setting the power to zero: no pattern is driven, and every
    /// coil is switched off.
    pub fn stop(&self) -> (r: Motion)
        ensures
            r.wf(),
            r.is_start(self.pins(), 0, true),
    {
        self.set_power(0, 1)
    }

    /// The motor has no encoder: there is never a position to report.
    pub fn get_position(&self) -> (r: Result<i32, MotorError>)
        ensures
            r == Err::<i32, MotorError>(MotorError::MissingEncoder),
    {
        Err(MotorError::MissingEncoder)
    }

    /// Motion at a given rate for a given distance needs an encoder, which
    /// this motor lacks, so it always fails, whatever the rate and distance.
    pub fn go_for(&self) -> (r: Result<(), MotorError>)
        ensures
            r == Err::<(), MotorError>(MotorError::MissingEncoder),
    {
        Err(MotorError::MissingEncoder)
    }

    pub fn get_properties(&self) -> (r: MotorSupportedProperties)
        ensures
            !r.position_reporting,
    {
        MotorSupportedProperties { position_reporting: false }
    }

    /// Every motion runs to its end before the call that started it returns,
    /// so the motor is never seen moving.
    pub fn is_moving(&self) -> (r: Result<bool, ActuatorError>)
        ensures
            r == Ok::<bool, ActuatorError>(false),
    {
        Ok(false)
    }
}

/// The 28BYJ-48 stepper model: the stepper engine under the model's name,
/// with the actuator's error for a failed stop.
#[derive(Clone, Copy, Debug, PartialEq, Eq, Structural)]
pub struct Stepper28byj48 {
    pub stepper: Stepper,
}

impl Stepper28byj48 {
    pub fn new(in_1: i32, in_2: i32, in_3: i32, in_4: i32) -> (r: Result<
        Stepper28byj48,
        MotorError,
    >)
        ensures
            r == Ok::<Stepper28byj48, MotorError>(
                Stepper28byj48 { stepper: Stepper { in_1, in_2, in_3, in_4 } },
            ),
    {
        Ok(Stepper28byj48 { stepper: Stepper { in_1, in_2, in_3, in_4 } })
    }

    /// Builds the model from its configuration, as `Stepper::from_config`.
    pub fn from_config(
        has_board: bool,
        in_1: Option<i32>,
        in_2: Option<i32>,
        in_3: Option<i32>,
        in_4: Option<i32>,
    ) -> (r: Result<Stepper28byj48, MotorError>)
        ensures
            match Stepper::configured(has_board, in_1, in_2, in_3, in_4) {
                Ok(s) => r == Ok::<Stepper28byj48, MotorError>(Stepper28byj48 { stepper: s }),
                Err(e) => r == Err::<Stepper28byj48, MotorError>(e),
            },
    {
        match Stepper::from_config(has_board, in_1, in_2, in_3, in_4) {
            Ok(stepper) => Ok(Stepper28byj48 { stepper }),
            Err(e) => Err(e),
        }
    }

    /// The actuator's view of how a stop motion ended: any fault means the
    /// motor could not be stopped.
    pub fn stop_outcome(result: Result<(), MotorError>) -> (r: Result<(), ActuatorError>)
        ensures
            result is Ok <==> r is Ok,
            result is Err ==> r == Err::<(), ActuatorError>(ActuatorError::CouldntStop),
    {
        match result {
            Ok(()) => Ok(()),
            Err(_) => Err(ActuatorError::CouldntStop),
        }
    }
}

} // verus!
