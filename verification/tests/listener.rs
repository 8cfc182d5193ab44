use event_bridge::lifecycle::{BridgeError, ListenerHandle, Phase, Rendezvous, StopAction};
use event_bridge::listener::{
    all_categories, Category, Command, ListenerContext, Outcome, Stage, Step,
};
use windows::Win32::System::SystemServices::{
    GUID_CONSOLE_DISPLAY_STATE, GUID_POWERSCHEME_PERSONALITY,
};

const DISPLAY: u128 = 0x6fe69556_704a_47a0_8f24_c28d936fda47;
const PERSONALITY: u128 = 0x245d8541_3943_4422_b025_13a784f679b7;
const WINDOW: isize = 0x4242;

fn quiet(command: Command) -> Step {
    Step { command, report: None }
}

fn noted(command: Command, error: BridgeError) -> Step {
    Step { command, report: Some(error) }
}

/// A context that has been brought to its message loop.
fn running() -> ListenerContext {
    let mut context = ListenerContext::new(all_categories());
    context.advance(Outcome::ClassRegistered { atom: 0xc001 });
    context.advance(Outcome::WindowCreated { window: WINDOW });
    context.advance(Outcome::Subscribed { token: 11 });
    context.advance(Outcome::Subscribed { token: 22 });
    context.advance(Outcome::HandedOff);
    context
}

#[test]
fn category_identifiers() {
    assert_eq!(Category::ConsoleDisplayState.setting_id(), DISPLAY);
    assert_eq!(Category::PowerSchemePersonality.setting_id(), PERSONALITY);
    assert_eq!(Category::ConsoleDisplayState.setting_id(), GUID_CONSOLE_DISPLAY_STATE.to_u128());
    assert_eq!(
        Category::PowerSchemePersonality.setting_id(),
        GUID_POWERSCHEME_PERSONALITY.to_u128()
    );
}

#[test]
fn both_categories() {
    assert_eq!(
        all_categories(),
        vec![Category::PowerSchemePersonality, Category::ConsoleDisplayState]
    );
}

#[test]
fn a_new_context_registers_the_class() {
    let context = ListenerContext::new(all_categories());
    assert_eq!(context.stage(), Stage::RegisteringClass);
    assert_eq!(context.command(), Command::RegisterClass);
    assert_eq!(context.phase(), Phase::Starting);
    assert_eq!(context.window(), 0);
    assert_eq!(context.subscriptions(), 0);
    assert!(!context.failed());
}

#[test]
fn a_successful_setup_step_by_step() {
    let mut context = ListenerContext::new(all_categories());
    assert_eq!(
        context.advance(Outcome::ClassRegistered { atom: 0xc001 }),
        quiet(Command::CreateWindow)
    );
    assert_eq!(
        context.advance(Outcome::WindowCreated { window: WINDOW }),
        quiet(Command::Subscribe { window: WINDOW, setting: PERSONALITY })
    );
    assert_eq!(context.window(), WINDOW);
    assert_eq!(
        context.advance(Outcome::Subscribed { token: 11 }),
        quiet(Command::Subscribe { window: WINDOW, setting: DISPLAY })
    );
    assert_eq!(context.phase(), Phase::Starting);
    assert_eq!(
        context.advance(Outcome::Subscribed { token: 22 }),
        quiet(Command::HandOff(Rendezvous::Window(WINDOW)))
    );
    assert_eq!(context.subscriptions(), 2);
    assert_eq!(context.phase(), Phase::Starting);
    assert_eq!(context.advance(Outcome::HandedOff), quiet(Command::NextMessage));
    assert_eq!(context.stage(), Stage::Running);
    assert_eq!(context.phase(), Phase::Running);
    assert!(!context.failed());
}

#[test]
fn the_message_loop_retrieves_and_dispatches() {
    let mut context = running();
    for message in [15u32, 536, 1, 2, 0x0400] {
        assert_eq!(
            context.advance(Outcome::Retrieved { more: true, window: WINDOW, message }),
            quiet(Command::Dispatch)
        );
        assert_eq!(context.stage(), Stage::Dispatching);
        assert_eq!(context.phase(), Phase::Running);
        assert_eq!(context.advance(Outcome::Dispatched), quiet(Command::NextMessage));
        assert_eq!(context.stage(), Stage::Running);
    }
}

#[test]
fn the_close_request_ends_the_loop_and_tears_down() {
    let mut context = running();
    assert_eq!(
        context.advance(Outcome::Retrieved { more: true, window: WINDOW, message: 16 }),
        quiet(Command::Unsubscribe { token: 22 })
    );
    assert_eq!(context.stage(), Stage::Closing);
    assert_eq!(context.phase(), Phase::Stopping);
    assert_eq!(
        context.advance(Outcome::Unsubscribed { ok: true }),
        quiet(Command::Unsubscribe { token: 11 })
    );
    assert_eq!(
        context.advance(Outcome::Unsubscribed { ok: true }),
        quiet(Command::DestroyWindow { window: WINDOW })
    );
    assert_eq!(context.phase(), Phase::Stopping);
    assert_eq!(context.advance(Outcome::WindowDestroyed), quiet(Command::Exit));
    assert_eq!(context.stage(), Stage::Exited);
    assert_eq!(context.phase(), Phase::Stopped);
    assert_eq!(context.window(), 0);
    assert_eq!(context.subscriptions(), 0);
    assert!(!context.failed());
}

#[test]
fn the_stop_signal_is_what_ends_the_loop() {
    let mut handle = ListenerHandle::from_rendezvous(Rendezvous::Window(WINDOW)).unwrap();
    let mut context = running();
    match handle.stop() {
        StopAction::Signal { window, message } => {
            let step = context.advance(Outcome::Retrieved { more: true, window, message });
            assert_eq!(step.command, Command::Unsubscribe { token: 22 });
        }
        StopAction::Ignored => panic!("the first stop must signal"),
    }
    assert_eq!(context.phase(), Phase::Stopping);
}

#[test]
fn a_close_request_for_another_window_is_dispatched() {
    let mut context = running();
    assert_eq!(
        context.advance(Outcome::Retrieved { more: true, window: WINDOW + 1, message: 16 }),
        quiet(Command::Dispatch)
    );
    assert_eq!(context.phase(), Phase::Running);
}

#[test]
fn a_quit_ends_the_loop() {
    let mut context = running();
    assert_eq!(
        context.advance(Outcome::Retrieved { more: false, window: 0, message: 0 }),
        quiet(Command::Unsubscribe { token: 22 })
    );
    assert_eq!(context.phase(), Phase::Stopping);
}

#[test]
fn a_failed_unsubscribe_is_noted_and_teardown_goes_on() {
    let mut context = running();
    context.advance(Outcome::Retrieved { more: false, window: 0, message: 0 });
    assert_eq!(
        context.advance(Outcome::Unsubscribed { ok: false }),
        noted(Command::Unsubscribe { token: 11 }, BridgeError::UnregisterFailed)
    );
    assert_eq!(
        context.advance(Outcome::Unsubscribed { ok: false }),
        noted(Command::DestroyWindow { window: WINDOW }, BridgeError::UnregisterFailed)
    );
    assert_eq!(context.advance(Outcome::WindowDestroyed), quiet(Command::Exit));
    assert_eq!(context.phase(), Phase::Stopped);
    assert_eq!(context.subscriptions(), 0);
}

#[test]
fn a_failed_class_registration_aborts() {
    let mut context = ListenerContext::new(all_categories());
    assert_eq!(
        context.advance(Outcome::ClassRegistered { atom: 0 }),
        noted(Command::HandOff(Rendezvous::Failed), BridgeError::ListenerInitFailed)
    );
    assert!(context.failed());
    assert_eq!(context.phase(), Phase::Starting);
    assert_eq!(context.advance(Outcome::HandedOff), quiet(Command::Exit));
    assert_eq!(context.phase(), Phase::Stopped);
    assert_eq!(context.window(), 0);
    assert_eq!(context.subscriptions(), 0);
}

#[test]
fn a_failed_window_creation_aborts() {
    let mut context = ListenerContext::new(all_categories());
    context.advance(Outcome::ClassRegistered { atom: 1 });
    assert_eq!(
        context.advance(Outcome::WindowCreated { window: 0 }),
        noted(Command::HandOff(Rendezvous::Failed), BridgeError::ListenerInitFailed)
    );
    assert_eq!(context.advance(Outcome::HandedOff), quiet(Command::Exit));
    assert_eq!(context.phase(), Phase::Stopped);
    assert!(context.failed());
}

#[test]
fn a_failed_first_subscription_destroys_the_window_and_aborts() {
    let mut context = ListenerContext::new(all_categories());
    context.advance(Outcome::ClassRegistered { atom: 1 });
    context.advance(Outcome::WindowCreated { window: WINDOW });
    assert_eq!(
        context.advance(Outcome::Subscribed { token: 0 }),
        noted(Command::DestroyWindow { window: WINDOW }, BridgeError::ListenerInitFailed)
    );
    assert_eq!(context.phase(), Phase::Starting);
    assert_eq!(
        context.advance(Outcome::WindowDestroyed),
        quiet(Command::HandOff(Rendezvous::Failed))
    );
    assert_eq!(context.window(), 0);
    assert_eq!(context.advance(Outcome::HandedOff), quiet(Command::Exit));
    assert_eq!(context.phase(), Phase::Stopped);
}

#[test]
fn a_failed_second_subscription_gives_back_the_first() {
    let mut context = ListenerContext::new(all_categories());
    context.advance(Outcome::ClassRegistered { atom: 1 });
    context.advance(Outcome::WindowCreated { window: WINDOW });
    context.advance(Outcome::Subscribed { token: 11 });
    assert_eq!(
        context.advance(Outcome::Subscribed { token: 0 }),
        noted(Command::Unsubscribe { token: 11 }, BridgeError::ListenerInitFailed)
    );
    assert_eq!(context.phase(), Phase::Starting);
    assert_eq!(
        context.advance(Outcome::Unsubscribed { ok: true }),
        quiet(Command::DestroyWindow { window: WINDOW })
    );
    assert_eq!(
        context.advance(Outcome::WindowDestroyed),
        quiet(Command::HandOff(Rendezvous::Failed))
    );
    assert_eq!(context.advance(Outcome::HandedOff), quiet(Command::Exit));
    assert_eq!(context.phase(), Phase::Stopped);
    assert_eq!(context.subscriptions(), 0);
    assert_eq!(context.window(), 0);
    assert!(context.failed());
}

#[test]
fn a_failed_start_gives_the_caller_no_listener() {
    let mut context = ListenerContext::new(all_categories());
    let step = context.advance(Outcome::ClassRegistered { atom: 0 });
    match step.command {
        Command::HandOff(rendezvous) => {
            assert_eq!(
                ListenerHandle::from_rendezvous(rendezvous).unwrap_err(),
                BridgeError::ListenerInitFailed
            );
        }
        other => panic!("unexpected command {:?}", other),
    }
}

#[test]
fn a_good_start_gives_the_caller_a_running_listener() {
    let mut context = ListenerContext::new(vec![Category::ConsoleDisplayState]);
    context.advance(Outcome::ClassRegistered { atom: 5 });
    context.advance(Outcome::WindowCreated { window: WINDOW });
    let step = context.advance(Outcome::Subscribed { token: 3 });
    match step.command {
        Command::HandOff(rendezvous) => {
            let handle = ListenerHandle::from_rendezvous(rendezvous).unwrap();
            assert_eq!(handle.window(), WINDOW);
            assert_eq!(handle.phase(), Phase::Running);
        }
        other => panic!("unexpected command {:?}", other),
    }
}

#[test]
fn no_interest_means_no_subscription() {
    let mut context = ListenerContext::new(Vec::new());
    context.advance(Outcome::ClassRegistered { atom: 5 });
    assert_eq!(
        context.advance(Outcome::WindowCreated { window: WINDOW }),
        quiet(Command::HandOff(Rendezvous::Window(WINDOW)))
    );
    assert_eq!(context.advance(Outcome::HandedOff), quiet(Command::NextMessage));
    assert_eq!(
        context.advance(Outcome::Retrieved { more: false, window: 0, message: 0 }),
        quiet(Command::DestroyWindow { window: WINDOW })
    );
    assert_eq!(context.advance(Outcome::WindowDestroyed), quiet(Command::Exit));
}

#[test]
fn an_outcome_that_answers_nothing_changes_nothing() {
    let mut context = ListenerContext::new(all_categories());
    for outcome in [
        Outcome::WindowCreated { window: WINDOW },
        Outcome::Subscribed { token: 1 },
        Outcome::HandedOff,
        Outcome::Retrieved { more: false, window: 0, message: 0 },
        Outcome::Dispatched,
        Outcome::Unsubscribed { ok: false },
        Outcome::WindowDestroyed,
    ] {
        assert_eq!(context.advance(outcome), quiet(Command::RegisterClass));
        assert_eq!(context.stage(), Stage::RegisteringClass);
    }
    let mut context = running();
    for outcome in [
        Outcome::ClassRegistered { atom: 0 },
        Outcome::WindowCreated { window: 0 },
        Outcome::Subscribed { token: 0 },
        Outcome::HandedOff,
        Outcome::Dispatched,
        Outcome::Unsubscribed { ok: false },
        Outcome::WindowDestroyed,
    ] {
        assert_eq!(context.advance(outcome), quiet(Command::NextMessage));
        assert_eq!(context.subscriptions(), 2);
        assert_eq!(context.window(), WINDOW);
    }
}

#[test]
fn the_window_is_not_destroyed_before_the_subscriptions_are_back() {
    let mut context = running();
    context.advance(Outcome::Retrieved { more: false, window: 0, message: 0 });
    assert_eq!(
        context.advance(Outcome::WindowDestroyed),
        quiet(Command::Unsubscribe { token: 22 })
    );
    assert_eq!(context.window(), WINDOW);
    assert_eq!(context.subscriptions(), 2);
}

#[test]
fn an_exited_context_stays_exited() {
    let mut context = running();
    context.advance(Outcome::Retrieved { more: false, window: 0, message: 0 });
    context.advance(Outcome::Unsubscribed { ok: true });
    context.advance(Outcome::Unsubscribed { ok: true });
    context.advance(Outcome::WindowDestroyed);
    for outcome in [
        Outcome::ClassRegistered { atom: 1 },
        Outcome::WindowCreated { window: WINDOW },
        Outcome::Subscribed { token: 1 },
        Outcome::HandedOff,
        Outcome::Retrieved { more: true, window: WINDOW, message: 536 },
        Outcome::Dispatched,
        Outcome::Unsubscribed { ok: true },
        Outcome::WindowDestroyed,
    ] {
        assert_eq!(context.advance(outcome), quiet(Command::Exit));
        assert_eq!(context.phase(), Phase::Stopped);
        assert_eq!(context.window(), 0);
        assert_eq!(context.subscriptions(), 0);
    }
}

#[test]
fn teardown_takes_one_step_per_subscription_and_one_for_the_window() {
    let mut interest = Vec::new();
    for _ in 0..40 {
        interest.push(Category::ConsoleDisplayState);
    }
    let mut context = ListenerContext::new(interest);
    context.advance(Outcome::ClassRegistered { atom: 1 });
    context.advance(Outcome::WindowCreated { window: WINDOW });
    for token in 1..=40isize {
        context.advance(Outcome::Subscribed { token });
    }
    context.advance(Outcome::HandedOff);
    assert_eq!(context.phase(), Phase::Running);
    context.advance(Outcome::Retrieved { more: true, window: WINDOW, message: 16 });
    let mut steps = 0;
    while context.command() != Command::Exit {
        match context.command() {
            Command::Unsubscribe { .. } => {
                context.advance(Outcome::Unsubscribed { ok: steps % 2 == 0 });
            }
            Command::DestroyWindow { .. } => {
                context.advance(Outcome::WindowDestroyed);
            }
            other => panic!("unexpected command {:?}", other),
        }
        steps += 1;
    }
    assert_eq!(steps, 41);
}
