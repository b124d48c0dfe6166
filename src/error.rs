use vstd::prelude::*;

verus! {

/// One of the four coil inputs of the driver board.
#[derive(Clone, Copy, Debug, PartialEq, Eq, Structural)]
pub enum Coil {
    In1,
    In2,
    In3,
    In4,
}

/// What a motor command can fail with.
#[derive(Clone, Copy, Debug, PartialEq, Eq, Structural)]
pub enum MotorError {
    /// The configuration names no board to drive the coils with.
    MissingBoard,
    /// The configuration lacks the pin attribute of this coil.
    MissingAttribute(Coil),
    /// A coil pin could not be set; the motion was cut short.
    HardwareIo,
    /// The motor has no encoder, so it can neither report a position nor
    /// run at a controlled rate.
    MissingEncoder,
}

/// What the generic actuator commands can fail with.
#[derive(Clone, Copy, Debug, PartialEq, Eq, Structural)]
pub enum ActuatorError {
    /// Stopping the motor failed: a coil could not be switched off.
    CouldntStop,
}

} // verus!
