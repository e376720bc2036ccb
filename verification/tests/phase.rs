use roborace2023::actuator::ActuatorCommand;
use roborace2023::phase::{
    ArmSettings, DrivePhase, DrivePhaseMachine, PhaseStep, Thresholds, WARM_UP_TICKS,
};

fn thresholds() -> Thresholds {
    Thresholds { distance_center: 20_000, distance_trigger: 40_000, stop_distance: 20_000 }
}

fn arm() -> ArmSettings {
    ArmSettings { rotate: true, steady_duty: 70 }
}

#[test]
fn each_threshold_counts_in_its_own_phase_only() {
    let t = thresholds();
    assert_eq!(DrivePhase::Entry.step(Some(18_000), &t), PhaseStep::Advance(DrivePhase::Follow));
    assert_eq!(DrivePhase::Entry.step(Some(45_000), &t), PhaseStep::Remain);
    assert_eq!(DrivePhase::Entry.step(None, &t), PhaseStep::Remain);
    assert_eq!(DrivePhase::Follow.step(Some(45_000), &t), PhaseStep::Advance(DrivePhase::Exit));
    assert_eq!(DrivePhase::Follow.step(Some(18_000), &t), PhaseStep::Remain);
    assert_eq!(DrivePhase::Follow.step(None, &t), PhaseStep::Remain);
    assert_eq!(DrivePhase::Exit.step(Some(15_000), &t), PhaseStep::Terminate);
    assert_eq!(DrivePhase::Exit.step(Some(45_000), &t), PhaseStep::Remain);
    assert_eq!(DrivePhase::Exit.step(None, &t), PhaseStep::Remain);
    assert_eq!(DrivePhase::SimpleOnly.step(Some(15_000), &t), PhaseStep::Remain);
    assert_eq!(DrivePhase::SimpleOnly.step(Some(45_000), &t), PhaseStep::Remain);
}

#[test]
fn machine_runs_through_the_phases() {
    let mut machine = DrivePhaseMachine::new(DrivePhase::Entry);
    let distances = [25_000, 18_000, 45_000, 15_000];
    let mut phases = Vec::new();
    let mut commands = Vec::new();
    let mut ends = Vec::new();
    for (tick, distance) in distances.iter().enumerate() {
        let outcome = machine.evaluate(tick as u64, Some(*distance), &thresholds(), &arm());
        phases.push(machine.phase);
        commands.push(outcome.commands);
        ends.push(outcome.terminate);
    }
    assert_eq!(phases, vec![DrivePhase::Entry, DrivePhase::Follow, DrivePhase::Exit, DrivePhase::Exit]);
    assert_eq!(ends, vec![false, false, false, true]);
    assert_eq!(commands[0], vec![]);
    assert_eq!(commands[1], vec![ActuatorCommand::StartArmFullPower]);
    assert_eq!(commands[2], vec![ActuatorCommand::StopArm]);
    assert_eq!(
        commands[3],
        vec![ActuatorCommand::SignalCompletion, ActuatorCommand::StopLeft, ActuatorCommand::StopRight]
    );
}

#[test]
fn readings_round_a_threshold_make_the_phase_flap_on() {
    // No band round a threshold: the phases are run through on readings that
    // hover round one value.
    let t = Thresholds { distance_center: 20_000, distance_trigger: 20_000, stop_distance: 20_000 };
    let mut machine = DrivePhaseMachine::new(DrivePhase::Entry);
    machine.evaluate(0, Some(19_999), &t, &arm());
    assert_eq!(machine.phase, DrivePhase::Follow);
    machine.evaluate(1, Some(20_001), &t, &arm());
    assert_eq!(machine.phase, DrivePhase::Exit);
    let outcome = machine.evaluate(2, Some(19_999), &t, &arm());
    assert!(outcome.terminate);
}

#[test]
fn throttle_waits_for_the_warm_up() {
    assert_eq!(WARM_UP_TICKS, 10);
    let mut machine = DrivePhaseMachine::new(DrivePhase::Entry);
    machine.evaluate(100, Some(1), &thresholds(), &arm());
    assert_eq!(machine.arm_started, Some(100));
    let outcome = machine.evaluate(109, None, &thresholds(), &arm());
    assert_eq!(outcome.commands, vec![]);
    let outcome = machine.evaluate(110, None, &thresholds(), &arm());
    assert_eq!(outcome.commands, vec![ActuatorCommand::SetArmSpeed(70)]);
    assert_eq!(machine.arm_started, None);
    assert_eq!(machine.phase, DrivePhase::Follow);
}

#[test]
fn a_schedule_is_kept_through_the_stop_of_the_arm() {
    let mut machine = DrivePhaseMachine::new(DrivePhase::Entry);
    machine.evaluate(0, Some(1), &thresholds(), &arm());
    let outcome = machine.evaluate(1, Some(50_000), &thresholds(), &arm());
    assert_eq!(outcome.commands, vec![ActuatorCommand::StopArm]);
    assert_eq!(machine.arm_started, Some(0));
    let outcome = machine.evaluate(10, None, &thresholds(), &arm());
    assert_eq!(outcome.commands, vec![ActuatorCommand::SetArmSpeed(70)]);
}

#[test]
fn a_machine_set_up_with_a_schedule_throttles_in_any_phase() {
    for phase in [DrivePhase::Entry, DrivePhase::Exit, DrivePhase::SimpleOnly] {
        let mut machine = DrivePhaseMachine { phase, arm_started: Some(4) };
        let outcome = machine.evaluate(14, None, &thresholds(), &arm());
        assert_eq!(outcome.commands, vec![ActuatorCommand::SetArmSpeed(70)]);
        assert_eq!(machine.phase, phase);
        assert_eq!(machine.arm_started, None);
    }
}
