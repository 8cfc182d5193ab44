//! The notification translator: from raw window messages to power events.
//!
//! A raw message is held as plain values: the message code, the word
//! parameter, and, for a power-setting change, the changed setting. The
//! translator is a pure function of these values; it never blocks and yields
//! at most one event per message.

use crate::codes::{
    battery_low_code, console_display_state_id, create_code, destroy_code, guid_console_display_state, oem_event_code,
    pbt_battery_low, pbt_oem_event, pbt_power_setting_change, pbt_power_status_change,
    pbt_query_suspend, pbt_query_suspend_failed, pbt_resume_automatic, pbt_resume_critical,
    pbt_resume_suspend, pbt_suspend, power_broadcast_code, power_setting_change_code,
    power_status_change_code, query_suspend_code, query_suspend_failed_code,
    resume_automatic_code, resume_critical_code, resume_suspend_code, suspend_code,
    wm_create, wm_destroy, wm_power_broadcast,
};
use vstd::prelude::*;

verus! {

/// Power and display events a listener reports.
#[derive(Debug, Clone, Copy, PartialEq, Eq, Structural)]
pub enum PowerEvent {
    /// The computer is about to suspend.
    ComputerWillSleep,
    /// The computer resumed from suspension.
    ComputerResumed,
    /// The display went off.
    MonitorsTurnedOff,
    /// The display came on.
    MonitorsTurnedOn,
}

/// What a power-setting change carries: the category that changed and the
/// first byte of its data.
#[derive(Debug, Clone, Copy, PartialEq, Eq, Structural)]
pub struct PowerSetting {
    /// Identifier of the power-setting category.
    pub setting: u128,
    /// First data byte; for the display state, 0 is off and 1 is on.
    pub state: u8,
}

/// A raw window message as the translator reads it.
#[derive(Debug, Clone, Copy, PartialEq, Eq)]
pub struct WindowMessage {
    /// The message code.
    pub message: u32,
    /// The word parameter; for a power broadcast its low 32 bits hold the
    /// broadcast subtype.
    pub wparam: usize,
    /// The changed setting, where the message carries one.
    pub setting: Option<PowerSetting>,
}

/// The subtypes of a power broadcast.
#[derive(Debug, Clone, Copy, PartialEq, Eq, Structural)]
pub enum BroadcastKind {
    QuerySuspend,
    QuerySuspendFailed,
    Suspend,
    ResumeCritical,
    ResumeSuspend,
    BatteryLow,
    PowerStatusChange,
    OemEvent,
    ResumeAutomatic,
    PowerSettingChange,
    /// A subtype with none of the codes above.
    Unrecognized,
}

impl BroadcastKind {
    /// The code that announces this subtype; `Unrecognized` has none.
    pub open spec fn code(self) -> Option<u32> {
        match self {
            BroadcastKind::QuerySuspend => Some(query_suspend_code()),
            BroadcastKind::QuerySuspendFailed => Some(query_suspend_failed_code()),
            BroadcastKind::Suspend => Some(suspend_code()),
            BroadcastKind::ResumeCritical => Some(resume_critical_code()),
            BroadcastKind::ResumeSuspend => Some(resume_suspend_code()),
            BroadcastKind::BatteryLow => Some(battery_low_code()),
            BroadcastKind::PowerStatusChange => Some(power_status_change_code()),
            BroadcastKind::OemEvent => Some(oem_event_code()),
            BroadcastKind::ResumeAutomatic => Some(resume_automatic_code()),
            BroadcastKind::PowerSettingChange => Some(power_setting_change_code()),
            BroadcastKind::Unrecognized => None,
        }
    }

    /// Whether the subtype is one of the ten known ones.
    pub open spec fn recognized(self) -> bool {
        self != BroadcastKind::Unrecognized
    }
}

/// The subtype that a code announces.
pub open spec fn kind_of_code(code: u32) -> BroadcastKind {
    if code == query_suspend_code() {
        BroadcastKind::QuerySuspend
    } else if code == query_suspend_failed_code() {
        BroadcastKind::QuerySuspendFailed
    } else if code == suspend_code() {
        BroadcastKind::Suspend
    } else if code == resume_critical_code() {
        BroadcastKind::ResumeCritical
    } else if code == resume_suspend_code() {
        BroadcastKind::ResumeSuspend
    } else if code == battery_low_code() {
        BroadcastKind::BatteryLow
    } else if code == power_status_change_code() {
        BroadcastKind::PowerStatusChange
    } else if code == oem_event_code() {
        BroadcastKind::OemEvent
    } else if code == resume_automatic_code() {
        BroadcastKind::ResumeAutomatic
    } else if code == power_setting_change_code() {
        BroadcastKind::PowerSettingChange
    } else {
        BroadcastKind::Unrecognized
    }
}

/// The subtype of a power broadcast with word parameter `wparam`: only the
/// low 32 bits count.
pub open spec fn broadcast_kind(wparam: usize) -> BroadcastKind {
    kind_of_code(wparam as u32)
}

/// The event that a display state byte stands for.
pub open spec fn display_event(state: u8) -> Option<PowerEvent> {
    if state == 0 {
        Some(PowerEvent::MonitorsTurnedOff)
    } else if state == 1 {
        Some(PowerEvent::MonitorsTurnedOn)
    } else {
        None
    }
}

/// The event that a changed power setting stands for. Only the display state
/// is reported; every other category is observed and ignored.
pub open spec fn setting_event(setting: PowerSetting) -> Option<PowerEvent> {
    if setting.setting == console_display_state_id() {
        display_event(setting.state)
    } else {
        None
    }
}

/// The event that a power broadcast of subtype `kind` stands for.
pub open spec fn broadcast_event(kind: BroadcastKind, setting: Option<PowerSetting>) -> Option<
    PowerEvent,
> {
    match kind {
        BroadcastKind::Suspend => Some(PowerEvent::ComputerWillSleep),
        BroadcastKind::ResumeSuspend => Some(PowerEvent::ComputerResumed),
        BroadcastKind::PowerSettingChange => match setting {
            Some(changed) => setting_event(changed),
            None => None,
        },
        _ => None,
    }
}

/// The event that a raw window message stands for, if any.
pub open spec fn translation(msg: WindowMessage) -> Option<PowerEvent> {
    if msg.message == power_broadcast_code() {
        broadcast_event(broadcast_kind(msg.wparam), msg.setting)
    } else {
        None
    }
}

/// Names the subtype of a power broadcast from its word parameter.
pub fn classify_broadcast(wparam: usize) -> (kind: BroadcastKind)
    ensures
        kind == broadcast_kind(wparam),
{
    let code: u32 = #[verifier::truncate] (wparam as u32);
    if code == pbt_query_suspend() {
        BroadcastKind::QuerySuspend
    } else if code == pbt_query_suspend_failed() {
        BroadcastKind::QuerySuspendFailed
    } else if code == pbt_suspend() {
        BroadcastKind::Suspend
    } else if code == pbt_resume_critical() {
        BroadcastKind::ResumeCritical
    } else if code == pbt_resume_suspend() {
        BroadcastKind::ResumeSuspend
    } else if code == pbt_battery_low() {
        BroadcastKind::BatteryLow
    } else if code == pbt_power_status_change() {
        BroadcastKind::PowerStatusChange
    } else if code == pbt_oem_event() {
        BroadcastKind::OemEvent
    } else if code == pbt_resume_automatic() {
        BroadcastKind::ResumeAutomatic
    } else if code == pbt_power_setting_change() {
        BroadcastKind::PowerSettingChange
    } else {
        BroadcastKind::Unrecognized
    }
}

/// Whether a message is a power broadcast that announces a changed power
/// setting, so that its setting has to be read before it is translated.
pub fn carries_setting(message: u32, wparam: usize) -> (yes: bool)
    ensures
        yes == (message == power_broadcast_code() && broadcast_kind(wparam)
            == BroadcastKind::PowerSettingChange),
{
    message == wm_power_broadcast() && classify_broadcast(wparam)
        == BroadcastKind::PowerSettingChange
}

/// Translates a changed power setting.
pub fn translate_setting(setting: &PowerSetting) -> (event: Option<PowerEvent>)
    ensures
        event == setting_event(*setting),
{
    if setting.setting == guid_console_display_state() {
        if setting.state == 0 {
            Some(PowerEvent::MonitorsTurnedOff)
        } else if setting.state == 1 {
            Some(PowerEvent::MonitorsTurnedOn)
        } else {
            None
        }
    } else {
        None
    }
}

/// Translates a power broadcast of a known subtype.
pub fn translate_broadcast(kind: BroadcastKind, setting: &Option<PowerSetting>) -> (event: Option<
    PowerEvent,
>)
    ensures
        event == broadcast_event(kind, *setting),
{
    match kind {
        BroadcastKind::Suspend => Some(PowerEvent::ComputerWillSleep),
        BroadcastKind::ResumeSuspend => Some(PowerEvent::ComputerResumed),
        BroadcastKind::PowerSettingChange => match setting {
            Some(changed) => translate_setting(changed),
            None => None,
        },
        _ => None,
    }
}

/// Translates a raw window message into the event it stands for, if any.
pub fn translate(msg: &WindowMessage) -> (event: Option<PowerEvent>)
    ensures
        event == translation(*msg),
{
    if msg.message == wm_power_broadcast() {
        translate_broadcast(classify_broadcast(msg.wparam), &msg.setting)
    } else {
        None
    }
}

/// The events that a run of messages stands for, in the order of the
/// messages: each message adds its event, if it has one, behind the events of
/// the messages before it.
pub open spec fn translations(msgs: Seq<WindowMessage>) -> Seq<PowerEvent>
    decreases msgs.len(),
{
    if msgs.len() == 0 {
        Seq::empty()
    } else {
        let earlier = translations(msgs.drop_last());
        match translation(msgs.last()) {
            Some(event) => earlier.push(event),
            None => earlier,
        }
    }
}

/// Translates a run of messages, oldest first.
pub fn translate_all(msgs: &Vec<WindowMessage>) -> (events: Vec<PowerEvent>)
    ensures
        events@ == translations(msgs@),
{
    let mut events: Vec<PowerEvent> = Vec::new();
    let mut i: usize = 0;
    while i < msgs.len()
        invariant
            i <= msgs.len(),
            events@ == translations(msgs@.take(i as int)),
        decreases msgs.len() - i,
    {
        assert(msgs@.take(i + 1).drop_last() == msgs@.take(i as int));
        match translate(&msgs[i]) {
            Some(event) => {
                events.push(event);
            },
            None => {},
        }
        i += 1;
    }
    assert(msgs@.take(msgs.len() as int) == msgs@);
    events
}

/// For each event of `translations(msgs)`, the position in `msgs` of the
/// message it came from.
pub open spec fn sources(msgs: Seq<WindowMessage>) -> Seq<int>
    decreases msgs.len(),
{
    if msgs.len() == 0 {
        Seq::empty()
    } else {
        let earlier = sources(msgs.drop_last());
        if translation(msgs.last()) is Some {
            earlier.push(msgs.len() - 1)
        } else {
            earlier
        }
    }
}

/// Whether `events` are the events of `msgs` in message order, with
/// `origin[k]` the position of the message behind `events[k]`: every event is
/// the translation of its message, a later event comes from a later message,
/// and no message that has an event is passed over.
pub open spec fn in_message_order(
    msgs: Seq<WindowMessage>,
    events: Seq<PowerEvent>,
    origin: Seq<int>,
) -> bool {
    &&& origin.len() == events.len()
    &&& forall|k: int|
        0 <= k < origin.len() ==> 0 <= #[trigger] origin[k] < msgs.len() && translation(
            msgs[origin[k]],
        ) == Some(events[k])
    &&& forall|j: int, k: int|
        0 <= j < k < origin.len() ==> #[trigger] origin[j] < #[trigger] origin[k]
    &&& forall|i: int|
        0 <= i < msgs.len() && translation(#[trigger] msgs[i]) is Some ==> exists|k: int|
            0 <= k < origin.len() && #[trigger] origin[k] == i
}

/// A display-state change with state byte 0 gives `MonitorsTurnedOff`, with
/// state byte 1 `MonitorsTurnedOn`, and with any other byte no event.
pub proof fn lemma_display_state(msg: WindowMessage, state: u8)
    requires
        msg.message == power_broadcast_code(),
        broadcast_kind(msg.wparam) == BroadcastKind::PowerSettingChange,
        msg.setting == Some(PowerSetting { setting: console_display_state_id(), state }),
    ensures
        state == 0 ==> translation(msg) == Some(PowerEvent::MonitorsTurnedOff),
        state == 1 ==> translation(msg) == Some(PowerEvent::MonitorsTurnedOn),
        state > 1 ==> translation(msg) is None,
        translations(seq![msg]).len() == (if state <= 1 {
            1nat
        } else {
            0nat
        }),
{
    lemma_single_message(msg);
}

/// Of the power broadcasts, "about to suspend" gives `ComputerWillSleep` and
/// "resumed from suspension" gives `ComputerResumed`; every other known
/// subtype but a power-setting change gives no event, and so does an unknown
/// one.
pub proof fn lemma_power_broadcast(msg: WindowMessage)
    requires
        msg.message == power_broadcast_code(),
    ensures
        broadcast_kind(msg.wparam) == BroadcastKind::Suspend ==> translations(seq![msg]) == seq![
            PowerEvent::ComputerWillSleep,
        ],
        broadcast_kind(msg.wparam) == BroadcastKind::ResumeSuspend ==> translations(seq![msg])
            == seq![PowerEvent::ComputerResumed],
        broadcast_kind(msg.wparam) != BroadcastKind::Suspend && broadcast_kind(msg.wparam)
            != BroadcastKind::ResumeSuspend && broadcast_kind(msg.wparam)
            != BroadcastKind::PowerSettingChange ==> translation(msg) is None && translations(
            seq![msg],
        ).len() == 0,
{
    lemma_single_message(msg);
}

/// A code names the one subtype that has it, and `Unrecognized` exactly when
/// no subtype has it.
pub proof fn lemma_kind_of_code(code: u32)
    ensures
        kind_of_code(code).recognized() ==> kind_of_code(code).code() == Some(code),
        forall|kind: BroadcastKind| #[trigger] kind.code() == Some(code) ==> kind_of_code(code) == kind,
{
}

/// One message gives its event alone, or nothing.
pub proof fn lemma_single_message(msg: WindowMessage)
    ensures
        translations(seq![msg]) == match translation(msg) {
            Some(event) => seq![event],
            None => Seq::<PowerEvent>::empty(),
        },
{
    let one = seq![msg];
    assert(one.drop_last() == Seq::<WindowMessage>::empty());
    assert(translations(one.drop_last()) == Seq::<PowerEvent>::empty());
    assert(one.last() == msg);
}

/// Translating one run of messages after another gives the events of the
/// first run followed by those of the second: nothing is reordered, merged or
/// lost at the seam.
pub proof fn lemma_translations_concat(first: Seq<WindowMessage>, second: Seq<WindowMessage>)
    ensures
        translations(first + second) == translations(first) + translations(second),
    decreases second.len(),
{
    if second.len() == 0 {
        assert(first + second == first);
        assert(translations(first) + Seq::<PowerEvent>::empty() == translations(first));
    } else {
        lemma_translations_concat(first, second.drop_last());
        assert((first + second).drop_last() == first + second.drop_last());
        assert((first + second).last() == second.last());
        match translation(second.last()) {
            Some(event) => {
                assert((translations(first) + translations(second.drop_last())).push(event)
                    == translations(first) + translations(second.drop_last()).push(event));
            },
            None => {},
        }
    }
}

/// The events of a run of messages come in the order of the messages that
/// caused them.
pub proof fn lemma_events_keep_message_order(msgs: Seq<WindowMessage>)
    ensures
        in_message_order(msgs, translations(msgs), sources(msgs)),
    decreases msgs.len(),
{
    if msgs.len() > 0 {
        let shorter = msgs.drop_last();
        lemma_events_keep_message_order(shorter);
        let origin = sources(msgs);
        let events = translations(msgs);
        assert forall|k: int| 0 <= k < origin.len() implies 0 <= #[trigger] origin[k] < msgs.len()
            && translation(msgs[origin[k]]) == Some(events[k]) by {
            if k < sources(shorter).len() {
                assert(origin[k] == sources(shorter)[k]);
                assert(shorter[origin[k]] == msgs[origin[k]]);
            }
        }
        assert forall|j: int, k: int| 0 <= j < k < origin.len() implies #[trigger] origin[j]
            < #[trigger] origin[k] by {
            assert(origin[j] == sources(shorter)[j]);
            if k < sources(shorter).len() {
                assert(origin[k] == sources(shorter)[k]);
            }
        }
        assert forall|i: int| 0 <= i < msgs.len() && translation(#[trigger] msgs[i]) is Some
            implies exists|k: int| 0 <= k < origin.len() && #[trigger] origin[k] == i by {
            if i < shorter.len() {
                assert(shorter[i] == msgs[i]);
                let k = choose|k: int| 0 <= k < sources(shorter).len() && #[trigger] sources(
                    shorter,
                )[k] == i;
                assert(origin[k] == i);
            } else {
                assert(origin[origin.len() - 1] == i);
            }
        }
    }
}

/// What the window procedure does with a message.
#[derive(Debug, Clone, Copy, PartialEq, Eq, Structural)]
pub enum WindowAction {
    /// The window is being created: the event sink is tied to it.
    AttachSink,
    /// The window is being destroyed: the sink is let go and the message
    /// loop is told to quit.
    DetachSink,
    /// A power broadcast that stands for an event: the event goes to the
    /// sink.
    Deliver(PowerEvent),
    /// A power broadcast that stands for no event: it is granted and nothing
    /// else happens.
    Acknowledge,
    /// Any other message: it is left to the default window procedure.
    Default,
}

impl WindowAction {
    /// The value that the window procedure returns; `None` where the default
    /// window procedure decides it.
    pub open spec fn reply_value(self) -> Option<isize> {
        match self {
            WindowAction::AttachSink => Some(0isize),
            WindowAction::DetachSink => Some(0isize),
            WindowAction::Deliver(_) => Some(1isize),
            WindowAction::Acknowledge => Some(1isize),
            WindowAction::Default => None,
        }
    }

    /// The value that the window procedure returns for this action.
    pub fn reply(&self) -> (value: Option<isize>)
        ensures
            value == self.reply_value(),
    {
        match self {
            WindowAction::AttachSink => Some(0),
            WindowAction::DetachSink => Some(0),
            WindowAction::Deliver(_) => Some(1),
            WindowAction::Acknowledge => Some(1),
            WindowAction::Default => None,
        }
    }
}

/// What the window procedure does with `msg`: creation and destruction tie
/// and untie the sink, a power broadcast is translated, and the rest is left
/// to the default procedure.
pub open spec fn window_action(msg: WindowMessage) -> WindowAction {
    if msg.message == create_code() {
        WindowAction::AttachSink
    } else if msg.message == destroy_code() {
        WindowAction::DetachSink
    } else if msg.message == power_broadcast_code() {
        match translation(msg) {
            Some(event) => WindowAction::Deliver(event),
            None => WindowAction::Acknowledge,
        }
    } else {
        WindowAction::Default
    }
}

/// Decides what the window procedure does with a message.
pub fn window_proc(msg: &WindowMessage) -> (action: WindowAction)
    ensures
        action == window_action(*msg),
{
    if msg.message == wm_create() {
        WindowAction::AttachSink
    } else if msg.message == wm_destroy() {
        WindowAction::DetachSink
    } else if msg.message == wm_power_broadcast() {
        match translate(msg) {
            Some(event) => WindowAction::Deliver(event),
            None => WindowAction::Acknowledge,
        }
    } else {
        WindowAction::Default
    }
}

} // verus!
