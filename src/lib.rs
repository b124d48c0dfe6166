//! Half-step driver for a four-coil unipolar stepper motor (28BYJ-48 on a
//! ULN2003 board).
//!
//! The engine never touches hardware itself: it decides, one action at a
//! time, which coil pin to set, when to pause and when the motion is over,
//! and the host performs each action and reports back whether it worked.
mod error;
mod motion;
mod motor;
mod power;
mod step_table;

pub use error::{ActuatorError, Coil, MotorError};
pub use motion::{
    drive_action, lemma_drive_follows_traversal, lemma_finished_coils_off,
    lemma_zero_cycles_only_low_writes, Action, Motion, STEP_DELAY_MS,
};
pub use motor::{MotorSupportedProperties, Stepper, Stepper28byj48};
pub use power::{lemma_power_scale, magnitude, power_steps, rounded_steps, FULL_POWER_STEPS};
pub use step_table::{
    changed_coils, coil_level, forward_pattern, half_step, lemma_reverse_retraces_forward,
    lemma_traversal_is_half_steps, pattern_at, traversal, COILS, PATTERNS_PER_CYCLE,
};
