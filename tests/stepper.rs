use stepper_28byj48::{
    coil_level, half_step, power_steps, Action, ActuatorError, Coil, Motion, MotorError, Stepper,
    Stepper28byj48, STEP_DELAY_MS,
};

/// Runs a motion to its end, failing the writes whose indices are listed,
/// and returns every action issued with the motion's result.
fn run(mut m: Motion, failing: &[usize]) -> (Vec<Action>, Result<(), MotorError>) {
    let mut actions = Vec::new();
    let mut writes = 0usize;
    loop {
        let a = m.action();
        match a {
            Action::Finish { result } => return (actions, result),
            Action::SetPin { .. } => {
                let ok = !failing.contains(&writes);
                writes += 1;
                actions.push(a);
                m.advance(ok);
            }
            Action::Sleep { .. } => {
                actions.push(a);
                m.advance(true);
            }
        }
    }
}

/// Applies the successful writes of a run to four coil levels.
fn final_levels(s: &Stepper, actions: &[Action], failing: &[usize]) -> [Option<bool>; 4] {
    let pins = [s.in_1, s.in_2, s.in_3, s.in_4];
    let mut levels = [None; 4];
    let mut writes = 0usize;
    for a in actions {
        if let Action::SetPin { pin, level } = a {
            let c = pins.iter().position(|p| p == pin).unwrap();
            levels[c] = if failing.contains(&writes) { None } else { Some(*level) };
            writes += 1;
        }
    }
    levels
}

fn patterns(actions: &[Action]) -> Vec<[bool; 4]> {
    let mut out = Vec::new();
    let mut cur = [false; 4];
    let mut n = 0;
    for a in actions {
        match a {
            Action::SetPin { pin, level } => {
                cur[(*pin - 1) as usize] = *level;
                n += 1;
            }
            Action::Sleep { .. } => {
                assert_eq!(n, 4);
                out.push(cur);
                n = 0;
            }
            _ => {}
        }
    }
    out
}

fn motor() -> Stepper {
    Stepper::new(1, 2, 3, 4).unwrap()
}

#[test]
fn forward_table_matches_half_step_sequence() {
    assert_eq!(half_step(0), [false, false, false, true]);
    assert_eq!(half_step(1), [false, false, true, true]);
    assert_eq!(half_step(5), [true, true, false, false]);
    assert_eq!(half_step(7), [true, false, false, true]);
}

#[test]
fn reverse_table_is_forward_read_backward() {
    for i in 0..8 {
        for c in 0..4 {
            assert_eq!(coil_level(false, i, c), half_step(7 - i)[c]);
            assert_eq!(coil_level(true, i, c), half_step(i)[c]);
        }
    }
    assert!(coil_level(false, 0, 0));
    assert!(coil_level(false, 0, 3));
    assert!(!coil_level(false, 0, 1));
}

#[test]
fn forward_then_reverse_retraces_and_ends_off() {
    let s = motor();
    let (fwd, r1) = run(s.step(3, true), &[]);
    let (rev, r2) = run(s.step(3, false), &[]);
    assert_eq!(r1, Ok(()));
    assert_eq!(r2, Ok(()));
    let pf = patterns(&fwd);
    let mut pr = patterns(&rev);
    assert_eq!(pf.len(), 24);
    pr.reverse();
    assert_eq!(pf, pr);
    for w in pf.windows(2) {
        let changed = (0..4).filter(|&c| w[0][c] != w[1][c]).count();
        assert_eq!(changed, 1);
    }
    assert_eq!(final_levels(&s, &rev, &[]), [Some(false); 4]);
}

#[test]
fn one_cycle_issues_every_write_then_cleanup() {
    let s = motor();
    let (actions, result) = run(s.step(1, true), &[]);
    assert_eq!(result, Ok(()));
    assert_eq!(actions.len(), 8 * 5 + 4);
    assert_eq!(actions[0], Action::SetPin { pin: 1, level: false });
    assert_eq!(actions[3], Action::SetPin { pin: 4, level: true });
    assert_eq!(actions[4], Action::Sleep { millis: STEP_DELAY_MS });
    assert_eq!(STEP_DELAY_MS, 2);
    let tail: Vec<Action> = actions[40..].to_vec();
    assert_eq!(
        tail,
        vec![
            Action::SetPin { pin: 1, level: false },
            Action::SetPin { pin: 2, level: false },
            Action::SetPin { pin: 3, level: false },
            Action::SetPin { pin: 4, level: false },
        ]
    );
}

#[test]
fn zero_power_writes_only_the_final_all_off() {
    let s = motor();
    let (actions, result) = run(s.set_power(0, 1), &[]);
    assert_eq!(result, Ok(()));
    assert_eq!(
        actions,
        vec![
            Action::SetPin { pin: 1, level: false },
            Action::SetPin { pin: 2, level: false },
            Action::SetPin { pin: 3, level: false },
            Action::SetPin { pin: 4, level: false },
        ]
    );
}

#[test]
fn stop_is_zero_power() {
    let s = motor();
    let (a, r) = run(s.stop(), &[]);
    let (b, q) = run(s.set_power(0, 1), &[]);
    assert_eq!(a, b);
    assert_eq!(r, q);
}

#[test]
fn full_and_half_power_step_counts() {
    assert_eq!(power_steps(1, 1), 512);
    assert_eq!(power_steps(-1, 1), 512);
    assert_eq!(power_steps(1, 2), 256);
    assert_eq!(power_steps(0, 1), 0);
    assert_eq!(power_steps(3, 4), 384);
    assert_eq!(power_steps(1, 1024), 1);
    assert_eq!(power_steps(1, 1025), 0);
    assert_eq!(power_steps(1, 2048), 0);
    assert_eq!(power_steps(-1, 1024), 1);
    assert_eq!(power_steps(-3, 2048), 1);
    assert_eq!(power_steps(i64::MIN, u64::MAX), 256);
    assert_eq!(power_steps(i64::MAX, i64::MAX as u64), 512);
}

#[test]
fn set_power_direction_follows_sign() {
    let s = motor();
    let (fwd, _) = run(s.set_power(1, 512), &[]);
    let (rev, _) = run(s.set_power(-1, 512), &[]);
    assert_eq!(patterns(&fwd), (0..8).map(half_step).collect::<Vec<_>>());
    assert_eq!(patterns(&rev), (0..8).rev().map(half_step).collect::<Vec<_>>());
}

#[test]
fn full_power_motion_length() {
    let s = motor();
    let (fwd, r) = run(s.set_power(1, 1), &[]);
    assert_eq!(r, Ok(()));
    assert_eq!(patterns(&fwd).len(), 512 * 8);
    let (rev, _) = run(s.set_power(-1, 1), &[]);
    assert_eq!(patterns(&rev).len(), 512 * 8);
    assert_eq!(patterns(&rev)[0], half_step(7));
    let (half, _) = run(s.set_power(1, 2), &[]);
    assert_eq!(patterns(&half).len(), 256 * 8);
    assert_eq!(patterns(&half)[0], half_step(0));
}

#[test]
fn failed_drive_write_aborts_then_switches_off() {
    let s = motor();
    let (actions, result) = run(s.step(2, true), &[5]);
    assert_eq!(result, Err(MotorError::HardwareIo));
    // six drive writes (the last one failing) and one pause, then the cleanup
    assert_eq!(actions.len(), 7 + 4);
    assert_eq!(final_levels(&s, &actions, &[5]), [Some(false); 4]);
}

#[test]
fn failed_cleanup_write_still_attempts_the_rest() {
    let s = motor();
    let (actions, result) = run(s.step(0, true), &[1]);
    assert_eq!(result, Err(MotorError::HardwareIo));
    assert_eq!(actions.len(), 4);
    assert_eq!(
        final_levels(&s, &actions, &[1]),
        [Some(false), None, Some(false), Some(false)]
    );
}

#[test]
fn finished_motion_stays_finished() {
    let s = motor();
    let mut m = s.stop();
    for _ in 0..4 {
        assert!(!m.finished());
        m.advance(true);
    }
    assert!(m.finished());
    m.advance(false);
    assert!(m.finished());
    assert_eq!(m.action(), Action::Finish { result: Ok(()) });
}

#[test]
fn no_encoder_operations_fail() {
    let s = motor();
    assert_eq!(s.get_position(), Err(MotorError::MissingEncoder));
    assert_eq!(s.go_for(), Err(MotorError::MissingEncoder));
    assert!(!s.get_properties().position_reporting);
}

#[test]
fn never_moving_after_a_call() {
    let s = motor();
    let _ = run(s.set_power(1, 4), &[]);
    assert_eq!(s.is_moving(), Ok(false));
    let _ = run(s.step(1, false), &[3]);
    assert_eq!(s.is_moving(), Ok(false));
}

#[test]
fn from_config_reports_first_missing() {
    assert_eq!(
        Stepper::from_config(false, Some(1), Some(2), Some(3), Some(4)),
        Err(MotorError::MissingBoard)
    );
    assert_eq!(
        Stepper::from_config(true, None, None, Some(3), Some(4)),
        Err(MotorError::MissingAttribute(Coil::In1))
    );
    assert_eq!(
        Stepper::from_config(true, Some(1), None, Some(3), Some(4)),
        Err(MotorError::MissingAttribute(Coil::In2))
    );
    assert_eq!(
        Stepper::from_config(true, Some(1), Some(2), None, Some(4)),
        Err(MotorError::MissingAttribute(Coil::In3))
    );
    assert_eq!(
        Stepper::from_config(true, Some(1), Some(2), Some(3), None),
        Err(MotorError::MissingAttribute(Coil::In4))
    );
    assert_eq!(
        Stepper::from_config(true, Some(12), Some(13), Some(14), Some(15)),
        Ok(Stepper { in_1: 12, in_2: 13, in_3: 14, in_4: 15 })
    );
}

#[test]
fn model_builds_and_maps_stop_failure() {
    let m = Stepper28byj48::new(5, 6, 7, 8).unwrap();
    assert_eq!(m.stepper, Stepper { in_1: 5, in_2: 6, in_3: 7, in_4: 8 });
    assert_eq!(
        Stepper28byj48::from_config(true, Some(5), Some(6), None, Some(8)),
        Err(MotorError::MissingAttribute(Coil::In3))
    );
    assert_eq!(Stepper28byj48::from_config(true, Some(5), Some(6), Some(7), Some(8)), Ok(m));
    let (_, r) = run(m.stepper.stop(), &[0]);
    assert_eq!(Stepper28byj48::stop_outcome(r), Err(ActuatorError::CouldntStop));
    assert_eq!(Stepper28byj48::stop_outcome(Ok(())), Ok(()));
}
