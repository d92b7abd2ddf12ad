use desktop_bootstrap::capability::Module;
use desktop_bootstrap::diagnostic::failure_message;
use desktop_bootstrap::startup::Action;
use desktop_bootstrap::startup::Event;
use desktop_bootstrap::startup::Phase;
use desktop_bootstrap::startup::Startup;

/// Stands in for the application framework: it counts what it is asked to do
/// and answers the run loop's invocation with a prepared outcome.
struct Harness {
    builders: u32,
    registrations: Vec<String>,
    contexts: u32,
    run_loops: u32,
    context_at_run: Option<u32>,
    registrations_at_context: Option<usize>,
    registrations_at_run: Option<usize>,
    outcome: Option<Result<(), String>>,
    termination: Option<String>,
    phases: Vec<Phase>,
    returned_normally: bool,
}

fn harness(outcome: Option<Result<(), String>>) -> Harness {
    Harness {
        builders: 0,
        registrations: Vec::new(),
        contexts: 0,
        run_loops: 0,
        context_at_run: None,
        registrations_at_context: None,
        registrations_at_run: None,
        outcome,
        termination: None,
        phases: Vec::new(),
        returned_normally: false,
    }
}

/// The entry operation against the harness: performs each action and hands
/// back the event. It stops when the machine has nothing further to ask, when
/// it orders the process to terminate, or when the run loop keeps control.
fn enter(h: &mut Harness) {
    let mut startup = Startup::new();
    h.phases.push(startup.phase());
    let mut event = Event::Start;
    loop {
        let action = startup.step(event);
        h.phases.push(startup.phase());
        event = match action {
            Action::CreateBuilder => {
                h.builders += 1;
                Event::BuilderCreated
            }
            Action::RegisterModule(module) => {
                h.registrations.push(module.identifier().to_string());
                Event::ModuleRegistered(module)
            }
            Action::GenerateContext => {
                h.contexts += 1;
                h.registrations_at_context = Some(h.registrations.len());
                Event::ContextGenerated
            }
            Action::EnterRunLoop => {
                h.run_loops += 1;
                h.context_at_run = Some(h.contexts);
                h.registrations_at_run = Some(h.registrations.len());
                match h.outcome.take() {
                    Some(Ok(())) => Event::RunLoopEntered,
                    Some(Err(detail)) => Event::StartupFailed(detail),
                    None => return,
                }
            }
            Action::Terminate(message) => {
                h.termination = Some(message);
                return;
            }
            Action::Nothing => {
                h.returned_normally = true;
                return;
            }
        };
    }
}

#[test]
fn entry_registers_opener_once_then_enters_run_loop() {
    let mut h = harness(Some(Ok(())));
    enter(&mut h);
    assert_eq!(h.builders, 1);
    assert_eq!(h.registrations, vec!["opener".to_string()]);
    assert_eq!(h.contexts, 1);
    assert_eq!(h.run_loops, 1);
    assert_eq!(h.context_at_run, Some(1));
    assert_eq!(h.registrations_at_run, Some(1));
    assert_eq!(h.termination, None);
}

#[test]
fn opener_is_registered_before_context_and_run_loop() {
    let mut h = harness(Some(Ok(())));
    enter(&mut h);
    assert_eq!(h.registrations_at_context, Some(1));
    assert_eq!(h.registrations_at_run, Some(1));
    assert_eq!(h.context_at_run, Some(1));
}

#[test]
fn run_loop_failure_terminates_with_prefix_and_detail() {
    let mut h = harness(Some(Err("disk full".to_string())));
    enter(&mut h);
    let message = h.termination.clone().expect("the process is ordered to terminate");
    assert!(message.contains("error while running tauri application"));
    assert!(message.contains("disk full"));
    assert_eq!(message, "error while running tauri application: disk full");
    assert_eq!(h.registrations, vec!["opener".to_string()]);
    assert_eq!(h.run_loops, 1);
    assert!(!h.returned_normally);
}

#[test]
fn run_loop_that_keeps_control_leaves_startup_configured() {
    let mut h = harness(None);
    enter(&mut h);
    assert_eq!(h.run_loops, 1);
    assert_eq!(h.termination, None);
    assert!(!h.returned_normally);
    assert_eq!(h.phases.last(), Some(&Phase::Configured));
}

#[test]
fn successful_startup_walks_the_phases_in_order() {
    let mut h = harness(Some(Ok(())));
    enter(&mut h);
    assert_eq!(
        h.phases,
        vec![
            Phase::Uninitialized,
            Phase::Building,
            Phase::Building,
            Phase::Building,
            Phase::Configured,
            Phase::Running,
        ]
    );
}

#[test]
fn failed_startup_ends_in_failed_phase() {
    let mut h = harness(Some(Err("no display".to_string())));
    enter(&mut h);
    assert_eq!(h.phases.last(), Some(&Phase::FailedStartup));
    assert!(!h.phases.contains(&Phase::Running));
}

#[test]
fn each_step_answers_with_the_next_action() {
    let mut startup = Startup::new();
    assert_eq!(startup.phase(), Phase::Uninitialized);
    assert_eq!(startup.step(Event::Start), Action::CreateBuilder);
    assert_eq!(startup.phase(), Phase::Building);
    assert_eq!(
        startup.step(Event::BuilderCreated),
        Action::RegisterModule(Module::Opener)
    );
    assert_eq!(startup.phase(), Phase::Building);
    assert_eq!(
        startup.step(Event::ModuleRegistered(Module::Opener)),
        Action::GenerateContext
    );
    assert_eq!(startup.phase(), Phase::Building);
    assert_eq!(startup.step(Event::ContextGenerated), Action::EnterRunLoop);
    assert_eq!(startup.phase(), Phase::Configured);
    assert_eq!(startup.step(Event::RunLoopEntered), Action::Nothing);
    assert_eq!(startup.phase(), Phase::Running);
}

#[test]
fn events_out_of_turn_change_nothing() {
    let mut startup = Startup::new();
    assert_eq!(startup.step(Event::BuilderCreated), Action::Nothing);
    assert_eq!(startup.step(Event::ContextGenerated), Action::Nothing);
    assert_eq!(startup.step(Event::RunLoopEntered), Action::Nothing);
    assert_eq!(
        startup.step(Event::ModuleRegistered(Module::Opener)),
        Action::Nothing
    );
    assert_eq!(startup.phase(), Phase::Uninitialized);
    assert_eq!(startup.step(Event::Start), Action::CreateBuilder);
    assert_eq!(startup.step(Event::Start), Action::Nothing);
    assert_eq!(startup.step(Event::ContextGenerated), Action::Nothing);
    assert_eq!(startup.phase(), Phase::Building);
    assert_eq!(
        startup.step(Event::BuilderCreated),
        Action::RegisterModule(Module::Opener)
    );
}

#[test]
fn failure_before_startup_begins_is_ignored() {
    let mut startup = Startup::new();
    assert_eq!(
        startup.step(Event::StartupFailed("too early".to_string())),
        Action::Nothing
    );
    assert_eq!(startup.phase(), Phase::Uninitialized);
    assert_eq!(startup.step(Event::Start), Action::CreateBuilder);
}

#[test]
fn failure_while_building_is_fatal() {
    let mut startup = Startup::new();
    startup.step(Event::Start);
    startup.step(Event::BuilderCreated);
    assert_eq!(
        startup.step(Event::StartupFailed("module failed to initialize".to_string())),
        Action::Terminate(
            "error while running tauri application: module failed to initialize".to_string()
        )
    );
    assert_eq!(startup.phase(), Phase::FailedStartup);
}

#[test]
fn nothing_follows_a_failed_startup() {
    let mut startup = Startup::new();
    startup.step(Event::Start);
    startup.step(Event::StartupFailed("first".to_string()));
    assert_eq!(startup.step(Event::Start), Action::Nothing);
    assert_eq!(startup.step(Event::BuilderCreated), Action::Nothing);
    assert_eq!(
        startup.step(Event::ModuleRegistered(Module::Opener)),
        Action::Nothing
    );
    assert_eq!(startup.step(Event::ContextGenerated), Action::Nothing);
    assert_eq!(startup.step(Event::RunLoopEntered), Action::Nothing);
    assert_eq!(
        startup.step(Event::StartupFailed("second".to_string())),
        Action::Nothing
    );
    assert_eq!(startup.phase(), Phase::FailedStartup);
}

#[test]
fn nothing_follows_an_entered_run_loop() {
    let mut startup = Startup::new();
    startup.step(Event::Start);
    startup.step(Event::BuilderCreated);
    startup.step(Event::ModuleRegistered(Module::Opener));
    startup.step(Event::ContextGenerated);
    startup.step(Event::RunLoopEntered);
    assert_eq!(startup.step(Event::Start), Action::Nothing);
    assert_eq!(startup.step(Event::BuilderCreated), Action::Nothing);
    assert_eq!(
        startup.step(Event::StartupFailed("late".to_string())),
        Action::Nothing
    );
    assert_eq!(startup.step(Event::RunLoopEntered), Action::Nothing);
    assert_eq!(startup.phase(), Phase::Running);
}

#[test]
fn registration_is_asked_for_once_however_events_repeat() {
    let mut startup = Startup::new();
    let events = vec![
        Event::BuilderCreated,
        Event::Start,
        Event::Start,
        Event::BuilderCreated,
        Event::BuilderCreated,
        Event::ContextGenerated,
        Event::ModuleRegistered(Module::Opener),
        Event::BuilderCreated,
        Event::ModuleRegistered(Module::Opener),
        Event::ContextGenerated,
        Event::BuilderCreated,
        Event::ContextGenerated,
        Event::RunLoopEntered,
        Event::BuilderCreated,
    ];
    let mut actions = Vec::new();
    for event in events {
        actions.push(startup.step(event));
    }
    let registered: Vec<usize> = (0..actions.len())
        .filter(|i| matches!(actions[*i], Action::RegisterModule(_)))
        .collect();
    assert_eq!(registered, vec![3]);
    let context = actions
        .iter()
        .position(|a| *a == Action::GenerateContext)
        .expect("the context is asked for");
    let run_loop = actions
        .iter()
        .position(|a| *a == Action::EnterRunLoop)
        .expect("the run loop is asked for");
    assert_eq!(context, 6);
    assert_eq!(run_loop, 9);
    assert!(registered[0] < context && context < run_loop);
    assert_eq!(startup.phase(), Phase::Running);
}

#[test]
fn opener_identifier() {
    assert_eq!(Module::Opener.identifier(), "opener");
}

#[test]
fn failure_message_exact_text() {
    assert_eq!(
        failure_message("disk full"),
        "error while running tauri application: disk full"
    );
    assert_eq!(failure_message(""), "error while running tauri application: ");
    assert_eq!(
        failure_message("a: b"),
        "error while running tauri application: a: b"
    );
}
