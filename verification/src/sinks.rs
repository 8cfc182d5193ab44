//! The table that ties each listener window to its event sink.
//!
//! The window procedure finds the sink of a window here. A sink is tied to a
//! window when the window is created and let go when the window is
//! destroyed; between the two, the events of that window's power broadcasts
//! are routed to it. Any number of windows can be tied at once.

use crate::lifecycle::BridgeError;
use crate::powerevents::{
    translation, translations, window_action, window_proc, PowerEvent, WindowAction,
    WindowMessage,
};
use std::collections::HashMap;
use vstd::prelude::*;

verus! {

broadcast use vstd::std_specs::hash::group_hash_axioms;

/// A table from window to sink; `S` is whatever sends events on.
pub struct SinkTable<S> {
    sinks: HashMap<isize, S>,
}

impl<S> View for SinkTable<S> {
    type V = Map<isize, S>;

    closed spec fn view(&self) -> Map<isize, S> {
        self.sinks@
    }
}

/// Where the event of `msg` goes when `msg` reaches `window`: to the sink
/// tied to that window, if there is one and the message stands for an event.
pub open spec fn routing<S>(table: Map<isize, S>, window: isize, msg: WindowMessage) -> Option<
    (S, PowerEvent),
> {
    match window_action(msg) {
        WindowAction::Deliver(event) => if table.contains_key(window) {
            Some((table[window], event))
        } else {
            None
        },
        _ => None,
    }
}

impl<S> SinkTable<S> {
    /// A table with no window in it.
    pub fn new() -> (table: SinkTable<S>)
        ensures
            table@ == Map::<isize, S>::empty(),
    {
        SinkTable { sinks: HashMap::new() }
    }

    /// How many windows are tied to a sink.
    pub fn len(&self) -> (count: usize)
        ensures
            count == self@.len(),
            self@.dom().finite(),
    {
        self.sinks.len()
    }

    /// Whether `window` is tied to a sink.
    pub fn is_attached(&self, window: isize) -> (yes: bool)
        ensures
            yes == self@.contains_key(window),
    {
        self.sinks.contains_key(&window)
    }

    /// Ties `sink` to `window`, and hands back the sink that was tied to it
    /// before, if any.
    pub fn attach(&mut self, window: isize, sink: S) -> (previous: Option<S>)
        ensures
            final(self)@ == old(self)@.insert(window, sink),
            previous == (if old(self)@.contains_key(window) {
                Some(old(self)@[window])
            } else {
                None
            }),
    {
        self.sinks.insert(window, sink)
    }

    /// Lets go of the sink of `window` and hands it back, if there was one.
    /// Other windows keep theirs.
    pub fn detach(&mut self, window: isize) -> (sink: Option<S>)
        ensures
            final(self)@ == old(self)@.remove(window),
            sink == (if old(self)@.contains_key(window) {
                Some(old(self)@[window])
            } else {
                None
            }),
    {
        self.sinks.remove(&window)
    }

    /// The sink tied to `window`, if any.
    pub fn sink(&self, window: isize) -> (sink: Option<&S>)
        ensures
            match sink {
                Some(found) => self@.contains_key(window) && *found == self@[window],
                None => !self@.contains_key(window),
            },
    {
        self.sinks.get(&window)
    }

    /// Routes a message that reached `window`: the sink to send to and the
    /// event to send, or nothing where the message stands for no event or
    /// the window has no sink.
    pub fn route(&self, window: isize, msg: &WindowMessage) -> (target: Option<(&S, PowerEvent)>)
        ensures
            match target {
                Some((sink, event)) => routing(self@, window, *msg) == Some((*sink, event)),
                None => routing(self@, window, *msg) is None,
            },
    {
        match window_proc(msg) {
            WindowAction::Deliver(event) => match self.sinks.get(&window) {
                Some(sink) => Some((sink, event)),
                None => None,
            },
            _ => None,
        }
    }
}

/// Names what came of sending an event to a sink: nothing when it was sent,
/// and `DeliveryDropped` when the consumer was gone. The error is for the
/// record only; the sink stays tied and the listener goes on.
pub fn delivery_outcome(sent: bool) -> (outcome: Result<(), BridgeError>)
    ensures
        outcome == (if sent {
            Ok::<(), BridgeError>(())
        } else {
            Err::<(), BridgeError>(BridgeError::DeliveryDropped)
        }),
{
    if sent {
        Ok(())
    } else {
        Err(BridgeError::DeliveryDropped)
    }
}

/// Once a window's sink is let go, no message to that window is routed
/// anywhere, whatever the message is, while other windows are served as
/// before.
pub proof fn lemma_nothing_after_detach<S>(
    table: Map<isize, S>,
    window: isize,
    other: isize,
    msg: WindowMessage,
)
    ensures
        routing(table.remove(window), window, msg) is None,
        other != window ==> routing(table.remove(window), other, msg) == routing(
            table,
            other,
            msg,
        ),
{
}

/// A window that was never tied to a sink gets no event.
pub proof fn lemma_nothing_before_attach<S>(window: isize, msg: WindowMessage)
    ensures
        routing(Map::<isize, S>::empty(), window, msg) is None,
{
}

/// A tied window gets exactly the translation of each message, so the
/// events reach its sink one by one in message order.
pub proof fn lemma_attached_window_gets_translation<S>(
    table: Map<isize, S>,
    window: isize,
    msg: WindowMessage,
)
    requires
        table.contains_key(window),
    ensures
        routing(table, window, msg) == match translation(msg) {
            Some(event) => Some((table[window], event)),
            None => None,
        },
{
}

/// The table after `msg` reached `window`: its creation ties `sink` to the
/// window, its destruction lets the window's sink go, and any other message
/// leaves the table as it is.
pub open spec fn table_after<S>(
    table: Map<isize, S>,
    window: isize,
    msg: WindowMessage,
    sink: S,
) -> Map<isize, S> {
    match window_action(msg) {
        WindowAction::AttachSink => table.insert(window, sink),
        WindowAction::DetachSink => table.remove(window),
        _ => table,
    }
}

/// The table after a run of messages reached `window`, oldest first.
pub open spec fn table_after_all<S>(
    table: Map<isize, S>,
    window: isize,
    msgs: Seq<WindowMessage>,
    sink: S,
) -> Map<isize, S>
    decreases msgs.len(),
{
    if msgs.len() == 0 {
        table
    } else {
        table_after(table_after_all(table, window, msgs.drop_last(), sink), window, msgs.last(), sink)
    }
}

/// The events that the sink of `window` is sent while a run of messages
/// reaches the window, in the order in which they are sent.
pub open spec fn deliveries<S>(
    table: Map<isize, S>,
    window: isize,
    msgs: Seq<WindowMessage>,
    sink: S,
) -> Seq<PowerEvent>
    decreases msgs.len(),
{
    if msgs.len() == 0 {
        Seq::empty()
    } else {
        let earlier = deliveries(table, window, msgs.drop_last(), sink);
        match routing(table_after_all(table, window, msgs.drop_last(), sink), window, msgs.last()) {
            Some((_, event)) => earlier.push(event),
            None => earlier,
        }
    }
}

/// Whether none of `msgs` announces the creation of a window.
pub open spec fn no_creation(msgs: Seq<WindowMessage>) -> bool {
    forall|k: int| 0 <= k < msgs.len() ==> window_action(#[trigger] msgs[k]) != WindowAction::AttachSink
}

/// Whether none of `msgs` announces the destruction of a window.
pub open spec fn no_destruction(msgs: Seq<WindowMessage>) -> bool {
    forall|k: int| 0 <= k < msgs.len() ==> window_action(#[trigger] msgs[k]) != WindowAction::DetachSink
}

/// What a window's sink is sent over two runs of messages is what it is
/// sent over the first, followed by what it is sent over the second from
/// the table that the first left.
pub proof fn lemma_deliveries_concat<S>(
    table: Map<isize, S>,
    window: isize,
    first: Seq<WindowMessage>,
    second: Seq<WindowMessage>,
    sink: S,
)
    ensures
        table_after_all(table, window, first + second, sink) == table_after_all(
            table_after_all(table, window, first, sink),
            window,
            second,
            sink,
        ),
        deliveries(table, window, first + second, sink) == deliveries(table, window, first, sink)
            + deliveries(table_after_all(table, window, first, sink), window, second, sink),
    decreases second.len(),
{
    let middle = table_after_all(table, window, first, sink);
    if second.len() == 0 {
        assert(first + second == first);
        assert(deliveries(table, window, first, sink) + Seq::<PowerEvent>::empty() == deliveries(
            table,
            window,
            first,
            sink,
        ));
    } else {
        lemma_deliveries_concat(table, window, first, second.drop_last(), sink);
        assert((first + second).drop_last() == first + second.drop_last());
        assert((first + second).last() == second.last());
        let head = deliveries(table, window, first, sink);
        let tail = deliveries(middle, window, second.drop_last(), sink);
        match routing(
            table_after_all(middle, window, second.drop_last(), sink),
            window,
            second.last(),
        ) {
            Some((_, event)) => {
                assert((head + tail).push(event) == head + tail.push(event));
            },
            None => {},
        }
    }
}

/// A window without a sink gets no event from a run of messages in which
/// no window is created, and is without a sink after it.
pub proof fn lemma_untied_window_gets_nothing<S>(
    table: Map<isize, S>,
    window: isize,
    msgs: Seq<WindowMessage>,
    sink: S,
)
    requires
        !table.contains_key(window),
        no_creation(msgs),
    ensures
        !table_after_all(table, window, msgs, sink).contains_key(window),
        deliveries(table, window, msgs, sink) == Seq::<PowerEvent>::empty(),
    decreases msgs.len(),
{
    if msgs.len() > 0 {
        assert(no_creation(msgs.drop_last())) by {
            assert forall|k: int| 0 <= k < msgs.drop_last().len() implies window_action(
                #[trigger] msgs.drop_last()[k],
            ) != WindowAction::AttachSink by {
                assert(msgs.drop_last()[k] == msgs[k]);
            }
        }
        lemma_untied_window_gets_nothing(table, window, msgs.drop_last(), sink);
        assert(msgs.last() == msgs[msgs.len() - 1]);
    }
}

/// No event reaches a window's sink after the window is destroyed: once
/// the destruction has been handled, whatever further messages arrive for
/// the window, short of the creation of a new window, the sink has been sent
/// all it will ever be sent.
pub proof fn lemma_no_delivery_after_destroy<S>(
    table: Map<isize, S>,
    window: isize,
    before: Seq<WindowMessage>,
    after: Seq<WindowMessage>,
    sink: S,
)
    requires
        before.len() > 0,
        window_action(before.last()) == WindowAction::DetachSink,
        no_creation(after),
    ensures
        deliveries(table, window, before + after, sink) == deliveries(table, window, before, sink),
        !table_after_all(table, window, before + after, sink).contains_key(window),
{
    let middle = table_after_all(table, window, before, sink);
    lemma_deliveries_concat(table, window, before, after, sink);
    lemma_untied_window_gets_nothing(middle, window, after, sink);
    assert(deliveries(table, window, before, sink) + Seq::<PowerEvent>::empty() == deliveries(
        table,
        window,
        before,
        sink,
    ));
}

/// While a window is tied to a sink, the sink is sent exactly the events
/// that the window's messages stand for, in the order of the messages.
pub proof fn lemma_deliveries_keep_message_order<S>(
    table: Map<isize, S>,
    window: isize,
    msgs: Seq<WindowMessage>,
    sink: S,
)
    requires
        table.contains_key(window),
        no_destruction(msgs),
    ensures
        table_after_all(table, window, msgs, sink).contains_key(window),
        deliveries(table, window, msgs, sink) == translations(msgs),
    decreases msgs.len(),
{
    if msgs.len() > 0 {
        assert(no_destruction(msgs.drop_last())) by {
            assert forall|k: int| 0 <= k < msgs.drop_last().len() implies window_action(
                #[trigger] msgs.drop_last()[k],
            ) != WindowAction::DetachSink by {
                assert(msgs.drop_last()[k] == msgs[k]);
            }
        }
        lemma_deliveries_keep_message_order(table, window, msgs.drop_last(), sink);
        assert(msgs.last() == msgs[msgs.len() - 1]);
        lemma_attached_window_gets_translation(
            table_after_all(table, window, msgs.drop_last(), sink),
            window,
            msgs.last(),
        );
    }
}

/// The table of a replay: `window` alone, tied to a sink or not.
pub open spec fn replay_table(window: isize, tied: bool) -> Map<isize, ()> {
    if tied {
        Map::<isize, ()>::empty().insert(window, ())
    } else {
        Map::<isize, ()>::empty()
    }
}

/// Replays a recorded run of messages to one window, oldest first, and
/// returns the events that the window's sink is sent, in the order in which
/// it is sent them, and whether the window is tied to a sink at the end.
/// `tied` says whether it is at the start.
pub fn replay(window: isize, msgs: &Vec<WindowMessage>, tied: bool) -> (outcome: (
    Vec<PowerEvent>,
    bool,
))
    ensures
        outcome.0@ == deliveries(replay_table(window, tied), window, msgs@, ()),
        outcome.1 == table_after_all(replay_table(window, tied), window, msgs@, ()).contains_key(
            window,
        ),
{
    let mut table: SinkTable<()> = SinkTable::new();
    if tied {
        table.attach(window, ());
    }
    let mut events: Vec<PowerEvent> = Vec::new();
    let mut k: usize = 0;
    while k < msgs.len()
        invariant
            k <= msgs.len(),
            table@ == table_after_all(replay_table(window, tied), window, msgs@.take(k as int), ()),
            events@ == deliveries(replay_table(window, tied), window, msgs@.take(k as int), ()),
        decreases msgs.len() - k,
    {
        assert(msgs@.take(k + 1).drop_last() == msgs@.take(k as int));
        assert(msgs@.take(k + 1).last() == msgs@[k as int]);
        match table.route(window, &msgs[k]) {
            Some((_, event)) => {
                events.push(event);
            },
            None => {},
        }
        match window_proc(&msgs[k]) {
            WindowAction::AttachSink => {
                table.attach(window, ());
            },
            WindowAction::DetachSink => {
                table.detach(window);
            },
            _ => {},
        }
        k += 1;
    }
    assert(msgs@.take(msgs.len() as int) == msgs@);
    let tied_after: bool = table.is_attached(window);
    (events, tied_after)
}

} // verus!
