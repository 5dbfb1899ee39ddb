use pipeshell::dispatch::{parse_line, ParsedLine};
use pipeshell::executor::{Action, Executor, StageStatus, WaitOutcome};
use pipeshell::stage::Stage;
use pipeshell::wiring::{wiring, InputSource, OutputSink, Wiring};

fn stage(program: &str) -> Stage {
    Stage::new(String::from(program), Vec::new())
}

fn stages_of(line: &str) -> Vec<Stage> {
    match parse_line(line) {
        ParsedLine::Pipeline { stages } => stages,
        _ => panic!("expected a pipeline line"),
    }
}

#[test]
fn wiring_of_a_three_stage_pipeline() {
    assert_eq!(
        wiring(0, 3),
        Wiring { input: InputSource::Inherited, output: OutputSink::ToChannel }
    );
    assert_eq!(
        wiring(1, 3),
        Wiring { input: InputSource::FromChannel, output: OutputSink::ToChannel }
    );
    assert_eq!(
        wiring(2, 3),
        Wiring { input: InputSource::FromChannel, output: OutputSink::Inherited }
    );
}

#[test]
fn wiring_of_a_single_stage_inherits_both_ends() {
    assert_eq!(
        wiring(0, 1),
        Wiring { input: InputSource::Inherited, output: OutputSink::Inherited }
    );
}

#[test]
fn echo_into_cat_spawns_two_and_creates_one_channel() {
    // `echo hello | cat`: two spawns, one channel, overall success.
    let mut exec = Executor::new(stages_of("echo hello | cat"));

    match exec.next_action() {
        Action::Spawn { index, wires } => {
            assert_eq!(index, 0);
            assert_eq!(wires.input, InputSource::Inherited);
            assert_eq!(wires.output, OutputSink::ToChannel);
        }
        a => panic!("expected a spawn, got {:?}", a),
    }
    exec.note_spawn_ok();

    match exec.next_action() {
        Action::Spawn { index, wires } => {
            assert_eq!(index, 1);
            assert_eq!(wires.input, InputSource::FromChannel);
            assert_eq!(wires.output, OutputSink::Inherited);
        }
        a => panic!("expected a spawn, got {:?}", a),
    }
    exec.note_spawn_ok();

    assert_eq!(exec.channels_created, 1);

    assert_eq!(exec.next_action(), Action::Wait { index: 0 });
    exec.note_wait(WaitOutcome::Exited { code: 0 });
    assert_eq!(exec.next_action(), Action::Wait { index: 1 });
    exec.note_wait(WaitOutcome::Exited { code: 0 });

    assert_eq!(exec.next_action(), Action::Finish);
    assert!(exec.all_succeeded());
}

#[test]
fn spawn_failure_still_spawns_and_waits_the_rest() {
    // `badprog | cat`: stage 0 fails to start, stage 1 is still spawned and
    // waited on, and the pipeline as a whole fails.
    let mut exec = Executor::new(stages_of("badprog | cat"));

    assert!(matches!(exec.next_action(), Action::Spawn { index: 0, .. }));
    exec.note_spawn_failed();

    assert!(matches!(exec.next_action(), Action::Spawn { index: 1, .. }));
    exec.note_spawn_ok();

    assert_eq!(exec.channels_created, 1);

    // Stage 0 never spawned, so the first (and only) wait is on stage 1.
    assert_eq!(exec.next_action(), Action::Wait { index: 1 });
    exec.note_wait(WaitOutcome::Exited { code: 0 });

    assert_eq!(exec.next_action(), Action::Finish);
    assert!(!exec.all_succeeded());
    assert_eq!(exec.status[0], StageStatus::SpawnFailed);
    assert_eq!(exec.status[1], StageStatus::Exited { code: 0 });
}

#[test]
fn failing_exit_code_fails_the_pipeline() {
    // `false | true`: both spawn and are waited on; the non-zero exit of
    // stage 0 makes the overall result a failure, and both codes are kept.
    let mut exec = Executor::new(stages_of("false | true"));

    assert!(matches!(exec.next_action(), Action::Spawn { index: 0, .. }));
    exec.note_spawn_ok();
    assert!(matches!(exec.next_action(), Action::Spawn { index: 1, .. }));
    exec.note_spawn_ok();

    assert_eq!(exec.next_action(), Action::Wait { index: 0 });
    exec.note_wait(WaitOutcome::Exited { code: 1 });
    assert_eq!(exec.next_action(), Action::Wait { index: 1 });
    exec.note_wait(WaitOutcome::Exited { code: 0 });

    assert_eq!(exec.next_action(), Action::Finish);
    assert!(!exec.all_succeeded());
    assert_eq!(exec.status[0], StageStatus::Exited { code: 1 });
    assert_eq!(exec.status[1], StageStatus::Exited { code: 0 });
}

#[test]
fn four_stages_make_three_channels() {
    let mut exec = Executor::new(vec![stage("a"), stage("b"), stage("c"), stage("d")]);
    for i in 0..4 {
        assert!(matches!(exec.next_action(), Action::Spawn { index, .. } if index == i));
        exec.note_spawn_ok();
    }
    assert_eq!(exec.channels_created, 3);
    for st in exec.status.iter() {
        assert_ne!(*st, StageStatus::Pending);
    }
}

#[test]
fn no_wait_is_asked_before_every_spawn() {
    // Even when earlier stages are already running, the executor keeps
    // spawning until every stage has been attempted, and only then waits.
    let mut exec = Executor::new(vec![stage("a"), stage("b"), stage("c")]);
    exec.note_spawn_ok();
    exec.note_spawn_ok();
    match exec.next_action() {
        Action::Spawn { index, .. } => assert_eq!(index, 2),
        a => panic!("waiting must not begin before all spawns, got {:?}", a),
    }
    exec.note_spawn_ok();
    assert_eq!(exec.next_action(), Action::Wait { index: 0 });
}

#[test]
fn all_spawns_failing_still_finishes() {
    let mut exec = Executor::new(vec![stage("a"), stage("b")]);
    exec.note_spawn_failed();
    exec.note_spawn_failed();
    // Nothing spawned, so nothing is waited on.
    assert_eq!(exec.next_action(), Action::Finish);
    assert!(!exec.all_succeeded());
    assert_eq!(exec.channels_created, 1);
}

#[test]
fn abnormal_termination_fails_the_pipeline() {
    let mut exec = Executor::new(vec![stage("a"), stage("b")]);
    exec.note_spawn_ok();
    exec.note_spawn_ok();
    exec.note_wait(WaitOutcome::Abnormal);
    exec.note_wait(WaitOutcome::Exited { code: 0 });
    assert_eq!(exec.status[0], StageStatus::WaitFailed);
    assert!(!exec.all_succeeded());
}

#[test]
fn single_stage_pipeline_runs_without_channels() {
    let mut exec = Executor::new(vec![stage("a")]);
    match exec.next_action() {
        Action::Spawn { index, wires } => {
            assert_eq!(index, 0);
            assert_eq!(wires.input, InputSource::Inherited);
            assert_eq!(wires.output, OutputSink::Inherited);
        }
        a => panic!("expected a spawn, got {:?}", a),
    }
    exec.note_spawn_ok();
    assert_eq!(exec.channels_created, 0);
    assert_eq!(exec.next_action(), Action::Wait { index: 0 });
    exec.note_wait(WaitOutcome::Exited { code: 0 });
    assert!(exec.all_succeeded());
}
