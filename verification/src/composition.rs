//! The composition layer: what ties listeners to one window of the user
//! interface.
//!
//! Events that listeners deliver are passed on to the window as named
//! messages. The handles of the listeners started for a window are kept in a
//! [`WindowBinding`]; when the window is destroyed, every one of them is
//! stopped, each exactly once.

use crate::lifecycle::{HandleState, ListenerHandle, StopAction};
use crate::powerevents::PowerEvent;
use vstd::prelude::*;

verus! {

/// The name under which a power event is passed on to the window.
pub open spec fn power_event_name(event: PowerEvent) -> Seq<char> {
    match event {
        PowerEvent::ComputerWillSleep => "computer_will_suspend"@,
        PowerEvent::ComputerResumed => "computer_resumed"@,
        PowerEvent::MonitorsTurnedOff => "monitors_turned_off"@,
        PowerEvent::MonitorsTurnedOn => "monitors_turned_on"@,
    }
}

/// The name under which a power event is passed on to the window.
pub fn event_name(event: PowerEvent) -> (name: &'static str)
    ensures
        name@ == power_event_name(event),
{
    match event {
        PowerEvent::ComputerWillSleep => "computer_will_suspend",
        PowerEvent::ComputerResumed => "computer_resumed",
        PowerEvent::MonitorsTurnedOff => "monitors_turned_off",
        PowerEvent::MonitorsTurnedOn => "monitors_turned_on",
    }
}

/// The name under which a change of desktop is passed on to the window.
pub fn desktop_changed_name() -> (name: &'static str)
    ensures
        name@ == "virtual_desktop_changed"@,
{
    "virtual_desktop_changed"
}

/// The name under which gaining (`focused`) or losing the input focus is
/// passed on to the window.
pub fn focus_event_name(focused: bool) -> (name: &'static str)
    ensures
        name@ == (if focused {
            "focus"@
        } else {
            "blur"@
        }),
{
    if focused {
        "focus"
    } else {
        "blur"
    }
}

/// A virtual desktop as the window is told of it.
#[derive(Debug, Clone, PartialEq, Eq)]
pub struct WebDesktop {
    /// The desktop's position among the desktops.
    pub index: u32,
    /// The desktop's name.
    pub name: String,
}

impl WebDesktop {
    /// Describes a desktop from what could be looked up of it: a position
    /// that is not known counts as 0 and a name that is not known as empty.
    pub fn from_lookup(index: Option<u32>, name: Option<String>) -> (desktop: WebDesktop)
        ensures
            desktop.index == (match index {
                Some(known) => known,
                None => 0u32,
            }),
            desktop.name@ == (match name {
                Some(known) => known@,
                None => Seq::<char>::empty(),
            }),
    {
        let index: u32 = match index {
            Some(known) => known,
            None => 0,
        };
        let name: String = match name {
            Some(known) => known,
            None => String::new(),
        };
        WebDesktop { index, name }
    }
}

/// What a virtual-desktop listener reports.
#[derive(Debug, Clone, PartialEq, Eq)]
pub enum DesktopEvent {
    /// The current desktop changed from `previous` to `current`.
    DesktopChanged { previous: WebDesktop, current: WebDesktop },
    /// Anything else that happened to the desktops.
    Other,
}

/// The desktop that the window is told of for a desktop event: the new
/// current desktop of a change, and nothing for any other event.
pub fn desktop_payload(event: DesktopEvent) -> (payload: Option<WebDesktop>)
    ensures
        payload == (match event {
            DesktopEvent::DesktopChanged { previous, current } => Some(current),
            DesktopEvent::Other => None,
        }),
{
    match event {
        DesktopEvent::DesktopChanged { previous, current } => Some(current),
        DesktopEvent::Other => None,
    }
}

/// What happens to the window that listeners are bound to.
#[derive(Debug, Clone, Copy, PartialEq, Eq, Structural)]
pub enum WindowEvent {
    /// The window is destroyed.
    Destroyed,
    /// The window gained (`true`) or lost the input focus.
    Focused(bool),
    /// Anything else.
    Other,
}

/// The listeners bound to one window.
#[derive(Debug)]
pub struct WindowBinding {
    handles: Vec<ListenerHandle>,
}

impl View for WindowBinding {
    type V = Seq<HandleState>;

    closed spec fn view(&self) -> Seq<HandleState> {
        Seq::new(self.handles@.len(), |k: int| self.handles@[k]@)
    }
}

/// What stopping every listener of `handles` asks for, one action per
/// listener.
pub open spec fn stop_actions(handles: Seq<HandleState>) -> Seq<StopAction> {
    Seq::new(handles.len(), |k: int| handles[k].stop_action())
}

/// The listeners of `handles` after each was stopped.
pub open spec fn all_stopped(handles: Seq<HandleState>) -> Seq<HandleState> {
    Seq::new(handles.len(), |k: int| handles[k].stopped())
}

impl WindowBinding {
    /// A binding with no listener.
    pub fn new() -> (binding: WindowBinding)
        ensures
            binding@ == Seq::<HandleState>::empty(),
    {
        WindowBinding { handles: Vec::new() }
    }

    /// How many listeners are bound.
    pub fn len(&self) -> (count: usize)
        ensures
            count == self@.len(),
    {
        self.handles.len()
    }

    /// Keeps the handle of a listener started for the window, behind those
    /// kept before.
    pub fn retain(&mut self, handle: ListenerHandle)
        ensures
            final(self)@ == old(self)@.push(handle@),
    {
        self.handles.push(handle);
    }

    /// The window is destroyed: stops every listener and returns what each
    /// stop asks for, in the order in which the listeners were bound.
    pub fn stop_all(&mut self) -> (actions: Vec<StopAction>)
        ensures
            actions@ == stop_actions(old(self)@),
            final(self)@ == all_stopped(old(self)@),
    {
        let mut actions: Vec<StopAction> = Vec::new();
        let mut k: usize = 0;
        while k < self.handles.len()
            invariant
                k <= self.handles@.len(),
                self.handles@.len() == old(self).handles@.len(),
                actions@.len() == k,
                forall|j: int|
                    0 <= j < k ==> #[trigger] self.handles@[j]@ == old(self).handles@[j]@.stopped(),
                forall|j: int|
                    k <= j < self.handles@.len() ==> #[trigger] self.handles@[j] == old(
                        self,
                    ).handles@[j],
                forall|j: int|
                    0 <= j < k ==> #[trigger] actions@[j] == old(self).handles@[j]@.stop_action(),
            decreases self.handles@.len() - k,
        {
            let action = self.handles[k].stop();
            actions.push(action);
            k += 1;
        }
        actions
    }

    /// Takes what happened to the window and returns what each bound
    /// listener is asked to do: a destroyed window stops them all, and
    /// anything else leaves them alone and returns no action.
    pub fn on_window_event(&mut self, event: WindowEvent) -> (actions: Vec<StopAction>)
        ensures
            event == WindowEvent::Destroyed ==> actions@ == stop_actions(old(self)@) && final(self)@
                == all_stopped(old(self)@),
            event != WindowEvent::Destroyed ==> actions@.len() == 0 && final(self)@ == old(self)@,
    {
        match event {
            WindowEvent::Destroyed => self.stop_all(),
            _ => Vec::new(),
        }
    }

    /// Records that the thread of the listener bound at `slot` has exited.
    /// A slot that is not bound changes nothing.
    pub fn thread_exited(&mut self, slot: usize)
        ensures
            slot < old(self)@.len() ==> final(self)@ == old(self)@.update(
                slot as int,
                old(self)@[slot as int].exited(),
            ),
            slot >= old(self)@.len() ==> final(self)@ == old(self)@,
    {
        if slot < self.handles.len() {
            self.handles[slot].thread_exited();
        }
    }
}

/// Every listener is stopped exactly once: when the window is destroyed a
/// second time, no listener is signalled again and none changes.
pub proof fn lemma_destroyed_twice(handles: Seq<HandleState>)
    ensures
        all_stopped(all_stopped(handles)) == all_stopped(handles),
        forall|k: int|
            0 <= k < handles.len() ==> #[trigger] stop_actions(all_stopped(handles))[k]
                == StopAction::Ignored,
{
}

/// Listeners are independent: what stopping asks of one listener, and what
/// becomes of it, depends on that listener alone.
pub proof fn lemma_stops_are_independent(handles: Seq<HandleState>, others: Seq<HandleState>, k: int)
    requires
        0 <= k < handles.len(),
        k < others.len(),
        handles[k] == others[k],
    ensures
        stop_actions(handles)[k] == stop_actions(others)[k],
        all_stopped(handles)[k] == all_stopped(others)[k],
{
}

} // verus!
