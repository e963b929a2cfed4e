use libeldenring::acquire::{
    AcquireError, Action, Event, Outcome, State, LOADER_COMPLETE, WAIT_TIMEOUT_MS,
};
use libeldenring::modules::{find_module, szcmp, ModuleEntry};

const WAIT: Action = Action::WaitForEvent { timeout_ms: 1000 };

fn run(polls: u32, events: &[Event]) -> (State, Vec<Action>) {
    let (mut state, first) = State::start(polls);
    let mut actions = vec![first];
    for event in events {
        let (next, action) = state.step(*event);
        state = next;
        actions.push(action);
    }
    (state, actions)
}

fn failed(error: AcquireError) -> Action {
    Action::Finish { outcome: Outcome::Failed(error) }
}

#[test]
fn acquisition_reads_the_module_once_the_loader_is_done() {
    assert_eq!(LOADER_COMPLETE, 2);
    assert_eq!(WAIT_TIMEOUT_MS, 1000);
    let (state, actions) = run(
        10,
        &[
            Event::Launched { created: true },
            Event::DebugEvent { code: 3 },
            Event::Continued,
            Event::DebugEvent { code: 6 },
            Event::Continued,
            Event::WaitTimedOut,
            Event::DebugEvent { code: 2 },
            Event::Continued,
            Event::ModuleRead { found: true },
            Event::Terminated,
        ],
    );
    assert_eq!(
        actions,
        vec![
            Action::Launch,
            WAIT,
            Action::ContinueEvent,
            WAIT,
            Action::ContinueEvent,
            WAIT,
            WAIT,
            Action::ContinueEvent,
            Action::ReadModule,
            Action::Terminate,
            Action::Finish { outcome: Outcome::Snapshot },
        ]
    );
    assert_eq!(state, State::Done { outcome: Outcome::Snapshot });
}

#[test]
fn acquisition_without_a_process_ends_at_once() {
    let (state, actions) = run(10, &[Event::Launched { created: false }]);
    assert_eq!(actions, vec![Action::Launch, failed(AcquireError::ProcessCreation)]);
    assert_eq!(
        state,
        State::Done { outcome: Outcome::Failed(AcquireError::ProcessCreation) }
    );
}

#[test]
fn acquisition_without_the_module_terminates_the_process() {
    let (_, actions) = run(
        1,
        &[
            Event::Launched { created: true },
            Event::DebugEvent { code: 2 },
            Event::Continued,
            Event::ModuleRead { found: false },
            Event::Terminated,
        ],
    );
    assert_eq!(
        actions[3..],
        [Action::ReadModule, Action::Terminate, failed(AcquireError::ModuleNotFound)]
    );
}

#[test]
fn acquisition_gives_up_when_the_waits_are_used() {
    let (_, actions) = run(
        3,
        &[
            Event::Launched { created: true },
            Event::WaitTimedOut,
            Event::DebugEvent { code: 1 },
            Event::Continued,
            Event::WaitTimedOut,
            Event::Terminated,
        ],
    );
    assert_eq!(
        actions,
        vec![
            Action::Launch,
            WAIT,
            WAIT,
            Action::ContinueEvent,
            WAIT,
            Action::Terminate,
            failed(AcquireError::LoaderTimeout),
        ]
    );
    // The event that ends the wait still counts when it is the last.
    let (_, actions) = run(
        1,
        &[Event::Launched { created: true }, Event::DebugEvent { code: 2 }, Event::Continued],
    );
    assert_eq!(actions[3], Action::ReadModule);
    // No wait granted: nothing is waited for.
    let (_, actions) = run(0, &[Event::Launched { created: true }, Event::Terminated]);
    assert_eq!(
        actions,
        vec![Action::Launch, Action::Terminate, failed(AcquireError::LoaderTimeout)]
    );
}

#[test]
fn acquisition_terminates_after_a_failed_wait() {
    let (state, actions) =
        run(5, &[Event::Launched { created: true }, Event::WaitFailed, Event::Terminated]);
    assert_eq!(
        actions,
        vec![Action::Launch, WAIT, Action::Terminate, failed(AcquireError::WaitFailed)]
    );
    assert_eq!(state, State::Done { outcome: Outcome::Failed(AcquireError::WaitFailed) });
}

#[test]
fn acquisition_out_of_turn() {
    // Before the process exists nothing has to be terminated.
    let (_, actions) = run(5, &[Event::Continued]);
    assert_eq!(actions, vec![Action::Launch, failed(AcquireError::OutOfTurn)]);
    // Afterwards it is terminated first.
    let (_, actions) = run(
        5,
        &[Event::Launched { created: true }, Event::ModuleRead { found: true }, Event::Terminated],
    );
    assert_eq!(
        actions,
        vec![Action::Launch, WAIT, Action::Terminate, failed(AcquireError::OutOfTurn)]
    );
    // Until the termination is reported, it is asked for again.
    let (state, actions) = run(
        5,
        &[
            Event::Launched { created: true },
            Event::WaitFailed,
            Event::Continued,
            Event::WaitTimedOut,
            Event::Terminated,
            Event::Terminated,
        ],
    );
    assert_eq!(
        actions[2..],
        [
            Action::Terminate,
            Action::Terminate,
            Action::Terminate,
            failed(AcquireError::WaitFailed),
            failed(AcquireError::WaitFailed),
        ]
    );
    assert_eq!(state, State::Done { outcome: Outcome::Failed(AcquireError::WaitFailed) });
}

#[test]
fn acquisition_ends_within_its_bound() {
    for polls in 0..6u32 {
        let events = [
            Event::Launched { created: true },
            Event::DebugEvent { code: 1 },
            Event::Continued,
            Event::WaitTimedOut,
            Event::Terminated,
        ];
        let (mut state, _) = State::start(polls);
        let mut steps = 0;
        let mut turn = 0;
        while !matches!(state, State::Done { .. }) {
            // Feed whatever answers the state.
            let event = match state {
                State::Launching { .. } => events[0],
                State::Waiting { .. } => events[1 + 2 * (turn % 2)],
                State::Continuing { .. } => events[2],
                State::Reading => Event::ModuleRead { found: true },
                State::Stopping { .. } => events[4],
                State::Done { .. } => unreachable!(),
            };
            turn += 1;
            state = state.step(event).0;
            steps += 1;
            assert!(steps <= 2 * polls + 5);
        }
        assert_eq!(state, State::Done { outcome: Outcome::Failed(AcquireError::LoaderTimeout) });
    }
}

fn name_field(name: &str) -> Vec<u8> {
    let mut field = name.as_bytes().to_vec();
    field.resize(256, 0);
    field
}

#[test]
fn name_fields_are_compared_up_to_the_shorter() {
    assert!(szcmp(&name_field("eldenring.exe"), "eldenring.exe"));
    assert!(szcmp(&name_field("eldenring.exe.bak"), "eldenring.exe"));
    assert!(!szcmp(&name_field("eldenring.ex"), "eldenring.exe"));
    assert!(!szcmp(&name_field("Eldenring.exe"), "eldenring.exe"));
    assert!(szcmp(&name_field("anything"), ""));
    assert!(szcmp(&[], "eldenring.exe"));
    assert!(szcmp(b"elden", "eldenring.exe"));
    assert!(!szcmp(b"eldex", "eldenring.exe"));
    // Characters are cut down to their low byte.
    assert!(szcmp(&[0x41, 0xe9], "Aé"));
    assert!(szcmp(&[0x41, 0x41], "A\u{141}"));
    assert!(!szcmp(&[0x41, 0x42], "A\u{141}"));
}

#[test]
fn main_module_is_the_first_of_its_name() {
    let modules = vec![
        ModuleEntry { name: name_field("ntdll.dll"), base: 0x7ffa_0000_0000, size: 0x1000 },
        ModuleEntry { name: name_field("eldenring.exe"), base: 0x7ff6_0000_0000, size: 0x5000 },
        ModuleEntry { name: name_field("eldenring.exe"), base: 0x1, size: 0x1 },
    ];
    assert_eq!(find_module(&modules, "eldenring.exe"), Some(1));
    assert_eq!(find_module(&modules, "ntdll"), Some(0));
    assert_eq!(find_module(&modules, "kernel32.dll"), None);
    assert_eq!(find_module(&modules, ""), Some(0));
    assert_eq!(find_module(&Vec::new(), "eldenring.exe"), None);
    assert_eq!(find_module(&Vec::new(), ""), None);
}
