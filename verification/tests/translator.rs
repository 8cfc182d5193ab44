use event_bridge::powerevents::{
    carries_setting, classify_broadcast, translate, translate_all, translate_broadcast,
    translate_setting, window_proc, BroadcastKind, PowerEvent, PowerSetting, WindowAction,
    WindowMessage,
};
use windows::Win32::System::SystemServices::{
    GUID_CONSOLE_DISPLAY_STATE, GUID_POWERSCHEME_PERSONALITY,
};
use windows::Win32::UI::WindowsAndMessaging::{
    PBT_APMBATTERYLOW, PBT_APMOEMEVENT, PBT_APMPOWERSTATUSCHANGE, PBT_APMQUERYSUSPEND,
    PBT_APMQUERYSUSPENDFAILED, PBT_APMRESUMEAUTOMATIC, PBT_APMRESUMECRITICAL,
    PBT_APMRESUMESUSPEND, PBT_APMSUSPEND, PBT_POWERSETTINGCHANGE, WM_CLOSE, WM_CREATE,
    WM_DESTROY, WM_POWERBROADCAST,
};

const DISPLAY: u128 = 0x6fe69556_704a_47a0_8f24_c28d936fda47;
const PERSONALITY: u128 = 0x245d8541_3943_4422_b025_13a784f679b7;

fn broadcast(wparam: usize) -> WindowMessage {
    WindowMessage { message: 536, wparam, setting: None }
}

fn display(state: u8) -> WindowMessage {
    WindowMessage {
        message: 536,
        wparam: 32787,
        setting: Some(PowerSetting { setting: DISPLAY, state }),
    }
}

#[test]
fn display_off_and_on() {
    assert_eq!(translate(&display(0)), Some(PowerEvent::MonitorsTurnedOff));
    assert_eq!(translate(&display(1)), Some(PowerEvent::MonitorsTurnedOn));
}

#[test]
fn display_other_bytes_give_nothing() {
    let mut state: u8 = 2;
    loop {
        assert_eq!(translate(&display(state)), None);
        if state == 255 {
            break;
        }
        state += 1;
    }
}

#[test]
fn display_state_gives_exactly_one_event() {
    assert_eq!(translate_all(&vec![display(0)]), vec![PowerEvent::MonitorsTurnedOff]);
    assert_eq!(translate_all(&vec![display(1)]), vec![PowerEvent::MonitorsTurnedOn]);
    assert_eq!(translate_all(&vec![display(7)]), vec![]);
}

#[test]
fn other_settings_give_nothing() {
    let personality = PowerSetting { setting: PERSONALITY, state: 0 };
    assert_eq!(translate_setting(&personality), None);
    let unknown = PowerSetting { setting: 1, state: 1 };
    assert_eq!(translate_setting(&unknown), None);
    let msg = WindowMessage { message: 536, wparam: 32787, setting: Some(personality) };
    assert_eq!(translate(&msg), None);
}

#[test]
fn setting_change_without_setting_gives_nothing() {
    assert_eq!(translate(&broadcast(32787)), None);
    assert_eq!(translate_broadcast(BroadcastKind::PowerSettingChange, &None), None);
}

#[test]
fn suspend_and_resume() {
    assert_eq!(translate(&broadcast(4)), Some(PowerEvent::ComputerWillSleep));
    assert_eq!(translate(&broadcast(7)), Some(PowerEvent::ComputerResumed));
    assert_eq!(translate_all(&vec![broadcast(4)]), vec![PowerEvent::ComputerWillSleep]);
    assert_eq!(translate_all(&vec![broadcast(7)]), vec![PowerEvent::ComputerResumed]);
}

#[test]
fn other_known_broadcasts_give_nothing() {
    for code in [0usize, 2, 6, 9, 10, 11, 18] {
        assert!(classify_broadcast(code) != BroadcastKind::Unrecognized);
        assert_eq!(translate(&broadcast(code)), None);
        assert_eq!(translate_all(&vec![broadcast(code)]), vec![]);
    }
}

#[test]
fn unknown_broadcasts_give_nothing() {
    for code in [1usize, 3, 5, 8, 12, 17, 19, 32786, 32788, 65535] {
        assert_eq!(classify_broadcast(code), BroadcastKind::Unrecognized);
        assert_eq!(translate(&broadcast(code)), None);
    }
}

#[test]
fn broadcast_kinds_by_number() {
    assert_eq!(classify_broadcast(0), BroadcastKind::QuerySuspend);
    assert_eq!(classify_broadcast(2), BroadcastKind::QuerySuspendFailed);
    assert_eq!(classify_broadcast(4), BroadcastKind::Suspend);
    assert_eq!(classify_broadcast(6), BroadcastKind::ResumeCritical);
    assert_eq!(classify_broadcast(7), BroadcastKind::ResumeSuspend);
    assert_eq!(classify_broadcast(9), BroadcastKind::BatteryLow);
    assert_eq!(classify_broadcast(10), BroadcastKind::PowerStatusChange);
    assert_eq!(classify_broadcast(11), BroadcastKind::OemEvent);
    assert_eq!(classify_broadcast(18), BroadcastKind::ResumeAutomatic);
    assert_eq!(classify_broadcast(32787), BroadcastKind::PowerSettingChange);
}

#[test]
fn broadcast_kinds_by_the_crate_constants() {
    assert_eq!(classify_broadcast(PBT_APMQUERYSUSPEND as usize), BroadcastKind::QuerySuspend);
    assert_eq!(
        classify_broadcast(PBT_APMQUERYSUSPENDFAILED as usize),
        BroadcastKind::QuerySuspendFailed
    );
    assert_eq!(classify_broadcast(PBT_APMSUSPEND as usize), BroadcastKind::Suspend);
    assert_eq!(classify_broadcast(PBT_APMRESUMECRITICAL as usize), BroadcastKind::ResumeCritical);
    assert_eq!(classify_broadcast(PBT_APMRESUMESUSPEND as usize), BroadcastKind::ResumeSuspend);
    assert_eq!(classify_broadcast(PBT_APMBATTERYLOW as usize), BroadcastKind::BatteryLow);
    assert_eq!(
        classify_broadcast(PBT_APMPOWERSTATUSCHANGE as usize),
        BroadcastKind::PowerStatusChange
    );
    assert_eq!(classify_broadcast(PBT_APMOEMEVENT as usize), BroadcastKind::OemEvent);
    assert_eq!(
        classify_broadcast(PBT_APMRESUMEAUTOMATIC as usize),
        BroadcastKind::ResumeAutomatic
    );
    assert_eq!(
        classify_broadcast(PBT_POWERSETTINGCHANGE as usize),
        BroadcastKind::PowerSettingChange
    );
}

#[test]
fn crate_constants_translate() {
    let suspend = WindowMessage {
        message: WM_POWERBROADCAST,
        wparam: PBT_APMSUSPEND as usize,
        setting: None,
    };
    assert_eq!(translate(&suspend), Some(PowerEvent::ComputerWillSleep));
    let on = WindowMessage {
        message: WM_POWERBROADCAST,
        wparam: PBT_POWERSETTINGCHANGE as usize,
        setting: Some(PowerSetting { setting: GUID_CONSOLE_DISPLAY_STATE.to_u128(), state: 1 }),
    };
    assert_eq!(translate(&on), Some(PowerEvent::MonitorsTurnedOn));
    let personality = WindowMessage {
        message: WM_POWERBROADCAST,
        wparam: PBT_POWERSETTINGCHANGE as usize,
        setting: Some(PowerSetting { setting: GUID_POWERSCHEME_PERSONALITY.to_u128(), state: 1 }),
    };
    assert_eq!(translate(&personality), None);
}

#[test]
fn only_the_low_word_of_the_parameter_counts() {
    let high: usize = 1usize << (usize::BITS - 1);
    if usize::BITS > 32 {
        assert_eq!(classify_broadcast(high + 4), BroadcastKind::Suspend);
        assert_eq!(translate(&broadcast(high + 7)), Some(PowerEvent::ComputerResumed));
    }
}

#[test]
fn other_messages_give_nothing() {
    for message in [0u32, 1, 2, 16, 535, 537] {
        let msg = WindowMessage { message, wparam: 4, setting: None };
        assert_eq!(translate(&msg), None);
    }
}

#[test]
fn setting_is_read_for_setting_changes_only() {
    assert!(carries_setting(536, 32787));
    assert!(!carries_setting(536, 4));
    assert!(!carries_setting(1, 32787));
}

#[test]
fn window_procedure_actions() {
    let create = WindowMessage { message: WM_CREATE, wparam: 0, setting: None };
    assert_eq!(window_proc(&create), WindowAction::AttachSink);
    let destroy = WindowMessage { message: WM_DESTROY, wparam: 0, setting: None };
    assert_eq!(window_proc(&destroy), WindowAction::DetachSink);
    let close = WindowMessage { message: WM_CLOSE, wparam: 0, setting: None };
    assert_eq!(window_proc(&close), WindowAction::Default);
    assert_eq!(window_proc(&broadcast(4)), WindowAction::Deliver(PowerEvent::ComputerWillSleep));
    assert_eq!(window_proc(&broadcast(9)), WindowAction::Acknowledge);
    assert_eq!(window_proc(&display(0)), WindowAction::Deliver(PowerEvent::MonitorsTurnedOff));
    let other = WindowMessage { message: 15, wparam: 4, setting: None };
    assert_eq!(window_proc(&other), WindowAction::Default);
}

#[test]
fn window_procedure_by_number() {
    let create = WindowMessage { message: 1, wparam: 0, setting: None };
    assert_eq!(window_proc(&create), WindowAction::AttachSink);
    let destroy = WindowMessage { message: 2, wparam: 0, setting: None };
    assert_eq!(window_proc(&destroy), WindowAction::DetachSink);
}

#[test]
fn window_procedure_replies() {
    assert_eq!(WindowAction::AttachSink.reply(), Some(0));
    assert_eq!(WindowAction::DetachSink.reply(), Some(0));
    assert_eq!(WindowAction::Deliver(PowerEvent::ComputerResumed).reply(), Some(1));
    assert_eq!(WindowAction::Acknowledge.reply(), Some(1));
    assert_eq!(WindowAction::Default.reply(), None);
}

#[test]
fn events_keep_the_order_of_their_messages() {
    let mut msgs: Vec<WindowMessage> = Vec::new();
    let mut expected: Vec<PowerEvent> = Vec::new();
    for k in 0..120usize {
        match k % 6 {
            0 => {
                msgs.push(broadcast(4));
                expected.push(PowerEvent::ComputerWillSleep);
            }
            1 => msgs.push(broadcast(9)),
            2 => {
                msgs.push(display(0));
                expected.push(PowerEvent::MonitorsTurnedOff);
            }
            3 => {
                msgs.push(broadcast(7));
                expected.push(PowerEvent::ComputerResumed);
            }
            4 => msgs.push(display(3)),
            _ => {
                msgs.push(display(1));
                expected.push(PowerEvent::MonitorsTurnedOn);
            }
        }
    }
    assert_eq!(translate_all(&msgs), expected);
    assert_eq!(expected.len(), 80);
}

#[test]
fn translating_in_two_parts_is_translating_at_once() {
    let first = vec![broadcast(4), broadcast(18), display(1)];
    let second = vec![display(0), broadcast(7)];
    let mut whole = first.clone();
    whole.extend(second.iter().copied());
    let mut joined = translate_all(&first);
    joined.extend(translate_all(&second));
    assert_eq!(translate_all(&whole), joined);
}

#[test]
fn no_messages_no_events() {
    assert_eq!(translate_all(&Vec::new()), vec![]);
}
