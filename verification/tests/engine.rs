use w11boost::gui::engine::{plan_apply, plan_unset_all, Action, Engine, Phase, StartError};
use w11boost::gui::shared_state::Progress;
use w11boost::gui::state::TweakStates;
use w11boost::gui::string_map::StringMap;
use w11boost::gui::tweaks::{get_all_tweaks, Catalog, Category, Operation, RegValue, Tweak};

fn set(subkey: &'static str) -> Operation {
    Operation { subkey, value_name: "Value", value: RegValue::Dword(1) }
}

fn unset(subkey: &'static str) -> Operation {
    Operation { subkey, value_name: "Value", value: RegValue::Delete }
}

fn keys(plan: &Vec<Operation>) -> Vec<&'static str> {
    plan.iter().map(|op| op.subkey).collect()
}

/// Three tweaks: `first` with 2 enable operations, `second` with 1, `third` with 3.
fn three_tweaks() -> Vec<Tweak> {
    vec![
        Tweak {
            id: "first",
            name: "First",
            description: "The first",
            category: "c",
            enabled_ops: vec![set("a1"), set("a2")],
            disabled_ops: vec![unset("a1"), unset("a2")],
        },
        Tweak {
            id: "second",
            name: "Second",
            description: "The second",
            category: "c",
            enabled_ops: vec![set("b1")],
            disabled_ops: vec![unset("b1")],
        },
        Tweak {
            id: "third",
            name: "Third",
            description: "The third",
            category: "c",
            enabled_ops: vec![set("c1"), set("c2"), set("c3")],
            disabled_ops: vec![unset("c1"), unset("c2"), unset("c3")],
        },
    ]
}

fn three_tweak_catalog() -> Catalog {
    Catalog::new(three_tweaks(), vec![Category { id: "c", label: "C" }]).unwrap()
}

/// `first` and `third` checked, `second` not.
fn two_checked() -> TweakStates {
    let mut selection = TweakStates { states: StringMap::new(), input_values: StringMap::new() };
    selection.toggle("first");
    selection.toggle("third");
    selection
}

/// Drives the run to its end. The restore point goes as `restore_point` says;
/// the apply call with the number `fail_at` (counted from 1) fails with
/// `detail`, every other one succeeds. Returns how many apply calls were made.
fn drive(
    engine: &mut Engine,
    restore_point: Result<(), String>,
    fail_at: usize,
    detail: &str,
) -> usize {
    let mut apply_calls: usize = 0;
    loop {
        match engine.next_action() {
            Action::CreateRestorePoint => engine.step(restore_point.clone()),
            Action::Apply(_) => {
                apply_calls += 1;
                if apply_calls == fail_at {
                    engine.step(Err(detail.to_string()));
                } else {
                    engine.step(Ok(()));
                }
            }
            Action::Finish => return apply_calls,
        }
    }
}

#[test]
fn new_engine_is_idle() {
    let engine = Engine::new();
    assert_eq!(engine.phase(), Phase::Idle);
    assert!(matches!(engine.next_action(), Action::Finish));
    assert!(engine.plan().is_empty());
    assert!(engine.input_values().is_empty());
    let state = engine.state();
    assert_eq!(state.total_ops, 0);
    assert_eq!(state.completed_ops, 0);
    assert!(!state.is_running);
    assert!(!state.is_complete);
    assert!(state.error.is_none());
    assert!(state.log_messages.is_empty());
}

#[test]
fn plan_apply_takes_checked_tweaks_in_catalog_order() {
    let tweaks = three_tweaks();
    let selection = two_checked();
    let plan = plan_apply(&tweaks, &selection.states);
    assert_eq!(keys(&plan), vec!["a1", "a2", "c1", "c2", "c3"]);
    assert!(matches!(plan[0].value, RegValue::Dword(1)));
}

#[test]
fn plan_apply_skips_unchecked_and_unknown() {
    let tweaks = three_tweaks();
    let mut selection = two_checked();
    selection.toggle("first");
    selection.toggle("elsewhere");
    let plan = plan_apply(&tweaks, &selection.states);
    assert_eq!(keys(&plan), vec!["c1", "c2", "c3"]);

    let none: StringMap<bool> = StringMap::new();
    assert!(plan_apply(&tweaks, &none).is_empty());
    assert!(plan_apply(&Vec::new(), &selection.states).is_empty());
}

#[test]
fn plan_apply_is_deterministic() {
    let tweaks = three_tweaks();
    let selection = two_checked();
    let once = plan_apply(&tweaks, &selection.states);
    let again = plan_apply(&tweaks, &selection.states);
    assert_eq!(keys(&once), keys(&again));
}

#[test]
fn plan_apply_of_the_default_selection() {
    let plan = plan_apply(&get_all_tweaks(), &TweakStates::default().states);
    assert_eq!(
        keys(&plan),
        vec![
            "SOFTWARE\\Policies\\Microsoft\\Windows\\DataCollection",
            "SOFTWARE\\Policies\\Microsoft\\Windows\\AdvertisingInfo",
            "SOFTWARE\\Policies\\Microsoft\\Windows\\WindowsCopilot",
        ]
    );
}

#[test]
fn plan_unset_all_reverts_in_reverse_catalog_order() {
    let tweaks = three_tweaks();
    let plan = plan_unset_all(&tweaks);
    assert_eq!(keys(&plan), vec!["c1", "c2", "c3", "b1", "a1", "a2"]);
    assert!(matches!(plan[0].value, RegValue::Delete));
    assert!(plan_unset_all(&Vec::new()).is_empty());
}

#[test]
fn run_in_which_every_operation_succeeds() {
    let catalog = three_tweak_catalog();
    let selection = two_checked();
    let mut engine = Engine::new();
    assert_eq!(engine.begin_apply(&catalog, &selection, false), Ok(()));
    assert_eq!(engine.state().total_ops, 5);
    assert!(engine.state().is_running);
    assert_eq!(engine.phase(), Phase::Applying);

    let calls = drive(&mut engine, Ok(()), 0, "");

    assert_eq!(calls, 5);
    let state = engine.state();
    assert_eq!(state.completed_ops, 5);
    assert_eq!(state.total_ops, 5);
    assert_eq!(state.progress.numerator as f32 / state.progress.denominator as f32, 1.0);
    assert_eq!(state.progress, Progress { numerator: 1, denominator: 1 });
    assert!(state.is_complete);
    assert!(!state.is_running);
    assert_eq!(state.error, None);
    assert_eq!(state.status_message, "Done! Reboot for changes to take full effect.");
    assert_eq!(
        state.log_messages,
        vec![
            "Applied a1".to_string(),
            "Applied a2".to_string(),
            "Applied c1".to_string(),
            "Applied c2".to_string(),
            "Applied c3".to_string(),
        ]
    );
    assert_eq!(engine.phase(), Phase::Complete);
}

#[test]
fn run_that_fails_at_the_third_operation() {
    let catalog = three_tweak_catalog();
    let selection = two_checked();
    let mut engine = Engine::new();
    assert_eq!(engine.begin_apply(&catalog, &selection, false), Ok(()));

    let calls = drive(&mut engine, Ok(()), 3, "access denied");

    assert_eq!(calls, 3);
    let state = engine.state();
    assert_eq!(state.completed_ops, 2);
    assert_eq!(state.total_ops, 5);
    assert!(!state.is_running);
    assert!(!state.is_complete);
    assert_eq!(state.error, Some("access denied".to_string()));
    assert_eq!(state.status_message, "Error: access denied");
    assert_eq!(
        state.log_messages,
        vec![
            "Applied a1".to_string(),
            "Applied a2".to_string(),
            "ERROR: access denied".to_string(),
        ]
    );
    assert!(state.log_messages.iter().any(|line| line.starts_with("ERROR: ")));
    assert_eq!(state.progress, Progress { numerator: 2, denominator: 5 });
    assert_eq!(engine.phase(), Phase::Failed);
}

#[test]
fn run_whose_restore_point_fails() {
    let catalog = three_tweak_catalog();
    let selection = two_checked();
    let mut engine = Engine::new();
    assert_eq!(engine.begin_apply(&catalog, &selection, true), Ok(()));
    assert!(matches!(engine.next_action(), Action::CreateRestorePoint));
    assert_eq!(engine.phase(), Phase::RestorePoint);

    let calls = drive(&mut engine, Err("restore points are disabled".to_string()), 0, "");

    assert_eq!(calls, 0);
    let state = engine.state();
    assert_eq!(state.completed_ops, 0);
    assert_eq!(state.total_ops, 5);
    assert_eq!(state.error, Some("restore points are disabled".to_string()));
    assert!(!state.is_running);
    assert!(!state.is_complete);
    assert_eq!(state.log_messages, vec!["ERROR: restore points are disabled".to_string()]);
    assert_eq!(engine.phase(), Phase::Failed);
    assert!(matches!(engine.next_action(), Action::Finish));
}

#[test]
fn run_after_a_restore_point() {
    let catalog = three_tweak_catalog();
    let selection = two_checked();
    let mut engine = Engine::new();
    assert_eq!(engine.begin_apply(&catalog, &selection, true), Ok(()));
    engine.step(Ok(()));
    assert_eq!(engine.phase(), Phase::Applying);
    assert_eq!(engine.state().completed_ops, 0);
    assert!(engine.state().log_messages.is_empty());
    match engine.next_action() {
        Action::Apply(op) => assert_eq!(op.subkey, "a1"),
        _ => panic!("an operation should be pending"),
    }
    let calls = drive(&mut engine, Ok(()), 0, "");
    assert_eq!(calls, 5);
    assert!(engine.state().is_complete);
    assert_eq!(engine.state().completed_ops, 5);
}

#[test]
fn operations_are_asked_for_in_plan_order() {
    let catalog = three_tweak_catalog();
    let selection = two_checked();
    let mut engine = Engine::new();
    assert_eq!(engine.begin_apply(&catalog, &selection, false), Ok(()));
    let mut asked: Vec<&'static str> = Vec::new();
    let mut seen: u32 = 0;
    loop {
        match engine.next_action() {
            Action::Apply(op) => {
                asked.push(op.subkey);
                engine.step(Ok(()));
                assert!(engine.state().completed_ops >= seen);
                assert!(engine.state().completed_ops <= engine.state().total_ops);
                seen = engine.state().completed_ops;
            }
            Action::CreateRestorePoint => panic!("no restore point was asked for"),
            Action::Finish => break,
        }
    }
    assert_eq!(asked, vec!["a1", "a2", "c1", "c2", "c3"]);
    assert_eq!(keys(engine.plan()), asked);
}

#[test]
fn run_without_operations_completes_at_once() {
    let catalog = three_tweak_catalog();
    let selection = TweakStates { states: StringMap::new(), input_values: StringMap::new() };
    let mut engine = Engine::new();
    assert_eq!(engine.begin_apply(&catalog, &selection, false), Ok(()));
    assert_eq!(engine.phase(), Phase::Complete);
    assert!(engine.state().is_complete);
    assert!(!engine.state().is_running);
    assert_eq!(engine.state().total_ops, 0);
    assert_eq!(engine.state().completed_ops, 0);
    assert_eq!(engine.state().progress, Progress { numerator: 1, denominator: 1 });
    assert!(matches!(engine.next_action(), Action::Finish));

    let mut guarded = Engine::new();
    assert_eq!(guarded.begin(Vec::new(), StringMap::new(), true), Ok(()));
    assert_eq!(guarded.phase(), Phase::RestorePoint);
    assert!(guarded.state().is_running);
    guarded.step(Ok(()));
    assert_eq!(guarded.phase(), Phase::Complete);
    assert!(guarded.state().is_complete);
}

#[test]
fn only_one_run_at_a_time() {
    let catalog = three_tweak_catalog();
    let selection = two_checked();
    let mut engine = Engine::new();
    assert_eq!(engine.begin_apply(&catalog, &selection, false), Ok(()));
    engine.step(Ok(()));
    assert_eq!(engine.begin_unset_all(&catalog, &selection, false), Err(StartError::Busy));
    assert_eq!(engine.begin(vec![set("z")], StringMap::new(), true), Err(StartError::Busy));
    assert_eq!(engine.state().completed_ops, 1);
    assert_eq!(engine.state().total_ops, 5);
    assert_eq!(engine.phase(), Phase::Applying);
    assert_eq!(keys(engine.plan()), vec!["a1", "a2", "c1", "c2", "c3"]);

    let mut waiting = Engine::new();
    assert_eq!(waiting.begin(vec![set("z")], StringMap::new(), true), Ok(()));
    assert_eq!(waiting.begin(vec![set("y")], StringMap::new(), false), Err(StartError::Busy));
    assert_eq!(waiting.phase(), Phase::RestorePoint);
}

#[test]
fn terminal_states_take_no_outcome() {
    let catalog = three_tweak_catalog();
    let selection = two_checked();
    let mut failed = Engine::new();
    assert_eq!(failed.begin_apply(&catalog, &selection, false), Ok(()));
    drive(&mut failed, Ok(()), 1, "no");
    failed.step(Ok(()));
    failed.step(Err("again".to_string()));
    assert_eq!(failed.phase(), Phase::Failed);
    assert_eq!(failed.state().completed_ops, 0);
    assert_eq!(failed.state().error, Some("no".to_string()));
    assert_eq!(failed.state().log_messages, vec!["ERROR: no".to_string()]);

    let mut complete = Engine::new();
    assert_eq!(complete.begin(vec![set("k")], StringMap::new(), false), Ok(()));
    drive(&mut complete, Ok(()), 0, "");
    complete.step(Err("late".to_string()));
    complete.step(Ok(()));
    assert_eq!(complete.phase(), Phase::Complete);
    assert!(complete.state().is_complete);
    assert_eq!(complete.state().error, None);
    assert_eq!(complete.state().completed_ops, 1);

    let mut idle = Engine::new();
    idle.step(Ok(()));
    idle.step(Err("nothing".to_string()));
    assert_eq!(idle.phase(), Phase::Idle);
    assert_eq!(idle.state().error, None);
    assert!(idle.state().log_messages.is_empty());
}

#[test]
fn a_new_run_clears_the_last_one() {
    let catalog = three_tweak_catalog();
    let selection = two_checked();
    let mut engine = Engine::new();
    assert_eq!(engine.begin_apply(&catalog, &selection, false), Ok(()));
    drive(&mut engine, Ok(()), 2, "access denied");
    assert!(engine.state().error.is_some());

    assert_eq!(engine.begin_unset_all(&catalog, &selection, false), Ok(()));
    let state = engine.state();
    assert_eq!(state.error, None);
    assert_eq!(state.completed_ops, 0);
    assert_eq!(state.total_ops, 6);
    assert!(state.is_running);
    assert!(!state.is_complete);
    assert!(state.log_messages.is_empty());
    assert!(state.status_message.is_empty());
    assert_eq!(state.progress, Progress { numerator: 0, denominator: 1 });
    assert_eq!(keys(engine.plan()), vec!["c1", "c2", "c3", "b1", "a1", "a2"]);

    let calls = drive(&mut engine, Ok(()), 0, "");
    assert_eq!(calls, 6);
    assert!(engine.state().is_complete);
    assert_eq!(engine.state().completed_ops, 6);
}

#[test]
fn a_run_keeps_the_input_values_it_was_started_with() {
    let catalog = three_tweak_catalog();
    let mut selection = two_checked();
    selection.set_input("first", "alpha".to_string());
    let mut engine = Engine::new();
    assert_eq!(engine.begin_apply(&catalog, &selection, false), Ok(()));

    selection.set_input("first", "beta".to_string());
    selection.toggle("second");
    engine.step(Ok(()));

    assert_eq!(engine.input_values().get("first"), Some(&"alpha".to_string()));
    assert_eq!(engine.input_values().len(), 1);
    assert_eq!(engine.state().total_ops, 5);
    drive(&mut engine, Ok(()), 0, "");
    assert_eq!(engine.input_values().get("first"), Some(&"alpha".to_string()));
}

#[test]
fn run_over_the_shipped_catalog() {
    let catalog = Catalog::shipped();
    let selection = TweakStates::default();
    let mut engine = Engine::new();
    assert_eq!(engine.begin_apply(&catalog, &selection, true), Ok(()));
    assert_eq!(engine.state().total_ops, 3);
    let calls = drive(&mut engine, Ok(()), 0, "");
    assert_eq!(calls, 3);
    assert!(engine.state().is_complete);
    assert_eq!(
        engine.state().log_messages[0],
        "Applied SOFTWARE\\Policies\\Microsoft\\Windows\\DataCollection"
    );

    assert_eq!(engine.begin_unset_all(&catalog, &selection, false), Ok(()));
    assert_eq!(engine.state().total_ops, 6);
    match engine.next_action() {
        Action::Apply(op) => {
            assert_eq!(op.subkey, "SOFTWARE\\Policies\\Microsoft\\Dsh");
            assert!(matches!(op.value, RegValue::Delete));
        }
        _ => panic!("an operation should be pending"),
    }
}

#[test]
fn failure_at_the_last_operation() {
    let mut engine = Engine::new();
    assert_eq!(engine.begin(vec![set("p"), set("q")], StringMap::new(), true), Ok(()));
    let calls = drive(&mut engine, Ok(()), 2, "locked");
    assert_eq!(calls, 2);
    assert_eq!(engine.state().completed_ops, 1);
    assert_eq!(engine.state().total_ops, 2);
    assert!(!engine.state().is_complete);
    assert_eq!(engine.state().error, Some("locked".to_string()));
}
