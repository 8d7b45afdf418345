//! The event bridge: turns what one sidecar process emits into the events
//! that subscribers receive.
//!
//! The bridge lives as long as one sidecar. The caller waits for the
//! process's next event, hands it to [`EventBridge::on_event`] and carries
//! out the [`BridgeAction`] that comes back.

use vstd::prelude::*;
use crate::text::decode_lossy;
use crate::text::lossy_decoding;

verus! {

/// What a sidecar process emits.
#[derive(Debug, PartialEq, Eq)]
pub enum SidecarEvent {
    /// A line on standard output, as raw bytes.
    Stdout(Vec<u8>),
    /// A line on standard error, as raw bytes.
    Stderr(Vec<u8>),
    /// The process has exited, with this code if it has one.
    Terminated(Option<i32>),
    /// Anything else.
    Other,
}

/// A [`SidecarEvent`] over plain values.
pub enum SidecarEventView {
    Stdout(Seq<u8>),
    Stderr(Seq<u8>),
    Terminated(Option<i32>),
    Other,
}

impl View for SidecarEvent {
    type V = SidecarEventView;

    open spec fn view(&self) -> SidecarEventView {
        match *self {
            SidecarEvent::Stdout(line) => SidecarEventView::Stdout(line@),
            SidecarEvent::Stderr(line) => SidecarEventView::Stderr(line@),
            SidecarEvent::Terminated(code) => SidecarEventView::Terminated(code),
            SidecarEvent::Other => SidecarEventView::Other,
        }
    }
}

/// An event published to subscribers.
#[derive(Debug, PartialEq, Eq)]
pub enum BackendEvent {
    /// A line that the sidecar wrote to standard output.
    Log(String),
    /// A line that the sidecar wrote to standard error.
    Error(String),
    /// The sidecar has exited, with this code if it has one.
    Terminated(Option<i32>),
}

/// A [`BackendEvent`] over plain values.
pub enum BackendEventView {
    Log(Seq<char>),
    Error(Seq<char>),
    Terminated(Option<i32>),
}

impl View for BackendEvent {
    type V = BackendEventView;

    open spec fn view(&self) -> BackendEventView {
        match *self {
            BackendEvent::Log(line) => BackendEventView::Log(line@),
            BackendEvent::Error(line) => BackendEventView::Error(line@),
            BackendEvent::Terminated(code) => BackendEventView::Terminated(code),
        }
    }
}

/// The name under which `event` is published.
pub open spec fn channel_of(event: BackendEventView) -> Seq<char> {
    match event {
        BackendEventView::Log(line) => "backend-log"@,
        BackendEventView::Error(line) => "backend-error"@,
        BackendEventView::Terminated(code) => "backend-terminated"@,
    }
}

impl BackendEvent {
    /// The name under which the event is published.
    pub fn channel(&self) -> (name: &'static str)
        ensures
            name@ == channel_of(self@),
    {
        match self {
            BackendEvent::Log(line) => "backend-log",
            BackendEvent::Error(line) => "backend-error",
            BackendEvent::Terminated(code) => "backend-terminated",
        }
    }
}

/// What the caller does after handing an event to the bridge.
pub struct BridgeAction {
    /// The event to publish, if any.
    pub publish: Option<BackendEvent>,
    /// Whether the sidecar is gone: the caller then records the exit in the
    /// supervisor and stops listening.
    pub finish: bool,
}

/// A [`BridgeAction`] over plain values.
pub struct BridgeActionView {
    pub publish: Option<BackendEventView>,
    pub finish: bool,
}

impl View for BridgeAction {
    type V = BridgeActionView;

    open spec fn view(&self) -> BridgeActionView {
        BridgeActionView {
            publish: match self.publish {
                Some(event) => Some(event@),
                None => None,
            },
            finish: self.finish,
        }
    }
}

/// The event that stands for what the sidecar emitted: an output line as
/// text, decoded leniently; its exit with the exit code; nothing for the
/// rest.
pub open spec fn relayed(event: SidecarEventView) -> Option<BackendEventView> {
    match event {
        SidecarEventView::Stdout(line) => Some(BackendEventView::Log(lossy_decoding(line))),
        SidecarEventView::Stderr(line) => Some(BackendEventView::Error(lossy_decoding(line))),
        SidecarEventView::Terminated(code) => Some(BackendEventView::Terminated(code)),
        SidecarEventView::Other => None,
    }
}

/// What a bridge does with `event`: a bridge that has seen the exit does
/// nothing more; before that each event is relayed, and the exit finishes
/// the bridge.
pub open spec fn action_for(finished: bool, event: SidecarEventView) -> BridgeActionView {
    if finished {
        BridgeActionView { publish: None, finish: false }
    } else {
        BridgeActionView { publish: relayed(event), finish: event is Terminated }
    }
}

/// Whether a bridge has seen the exit after `event`.
pub open spec fn finished_after(finished: bool, event: SidecarEventView) -> bool {
    finished || event is Terminated
}

/// The bridge between one sidecar process and the subscribers.
pub struct EventBridge {
    finished: bool,
}

impl EventBridge {
    /// Whether the bridge has seen its sidecar exit.
    pub closed spec fn finished(&self) -> bool {
        self.finished
    }

    /// A bridge for a sidecar that was just spawned.
    pub fn new() -> (bridge: Self)
        ensures
            !bridge.finished(),
    {
        EventBridge { finished: false }
    }

    /// Whether the bridge has seen its sidecar exit.
    pub fn is_finished(&self) -> (finished: bool)
        ensures
            finished == self.finished(),
    {
        self.finished
    }

    /// Takes the sidecar's next event and says what to do about it.
    pub fn on_event(&mut self, event: SidecarEvent) -> (action: BridgeAction)
        ensures
            action@ == action_for(old(self).finished(), event@),
            final(self).finished() == finished_after(old(self).finished(), event@),
    {
        if self.finished {
            return BridgeAction { publish: None, finish: false };
        }
        match event {
            SidecarEvent::Stdout(line) => {
                let text: String = decode_lossy(&line);
                BridgeAction { publish: Some(BackendEvent::Log(text)), finish: false }
            },
            SidecarEvent::Stderr(line) => {
                let text: String = decode_lossy(&line);
                BridgeAction { publish: Some(BackendEvent::Error(text)), finish: false }
            },
            SidecarEvent::Terminated(code) => {
                self.finished = true;
                BridgeAction { publish: Some(BackendEvent::Terminated(code)), finish: true }
            },
            SidecarEvent::Other => BridgeAction { publish: None, finish: false },
        }
    }
}

/// Everything that a bridge publishes while it is handed `events` in order.
pub open spec fn published(finished: bool, events: Seq<SidecarEventView>) -> Seq<
    BackendEventView,
>
    decreases events.len(),
{
    if events.len() == 0 {
        Seq::empty()
    } else {
        let rest = published(finished_after(finished, events[0]), events.drop_first());
        match action_for(finished, events[0]).publish {
            Some(event) => seq![event] + rest,
            None => rest,
        }
    }
}

/// Whether a bridge has seen the exit after it was handed `events`.
pub open spec fn finished_after_all(finished: bool, events: Seq<SidecarEventView>) -> bool
    decreases events.len(),
{
    if events.len() == 0 {
        finished
    } else {
        finished_after_all(finished_after(finished, events[0]), events.drop_first())
    }
}

/// One for an event that announces an exit, none for any other.
pub open spec fn count_exit(event: BackendEventView) -> nat {
    if event is Terminated {
        1
    } else {
        0
    }
}

/// How many of `events` announce an exit.
pub open spec fn exits(events: Seq<BackendEventView>) -> nat
    decreases events.len(),
{
    if events.len() == 0 {
        0
    } else {
        count_exit(events[0]) + exits(events.drop_first())
    }
}

/// A finished bridge stays finished and publishes nothing.
proof fn lemma_finished_bridge_is_silent(events: Seq<SidecarEventView>)
    ensures
        published(true, events) == Seq::<BackendEventView>::empty(),
        finished_after_all(true, events),
    decreases events.len(),
{
    if events.len() > 0 {
        lemma_finished_bridge_is_silent(events.drop_first());
    }
}

/// A single event announces one exit or none.
proof fn lemma_exits_of_one(event: BackendEventView)
    ensures
        exits(seq![event]) == count_exit(event),
{
    assert(exits(seq![event].drop_first()) == 0);
}

/// The exits among `a` followed by `b` are those of `a` and those of `b`.
proof fn lemma_exits_of_concat(a: Seq<BackendEventView>, b: Seq<BackendEventView>)
    ensures
        exits(a + b) == exits(a) + exits(b),
    decreases a.len(),
{
    if a.len() > 0 {
        assert((a + b).drop_first() =~= a.drop_first() + b);
        lemma_exits_of_concat(a.drop_first(), b);
    }
}

/// Whatever a bridge is handed, it announces at most one exit, and it
/// announces one exactly when it ends up finished without having started
/// so.
pub proof fn law_at_most_one_exit(finished: bool, events: Seq<SidecarEventView>)
    ensures
        exits(published(finished, events)) <= 1,
        exits(published(finished, events)) == 1 <==> !finished && finished_after_all(
            finished,
            events,
        ),
    decreases events.len(),
{
    if finished {
        lemma_finished_bridge_is_silent(events);
    } else if events.len() > 0 {
        let rest = published(finished_after(false, events[0]), events.drop_first());
        law_at_most_one_exit(finished_after(false, events[0]), events.drop_first());
        lemma_finished_bridge_is_silent(events.drop_first());
        if let Some(event) = relayed(events[0]) {
            lemma_exits_of_concat(seq![event], rest);
            lemma_exits_of_one(event);
        }
    }
}

/// When the sidecar exits with `code` after `before`, none of which is an
/// exit, a fresh bridge relays what came before, then announces the exit
/// with that code, once, and publishes nothing of what comes `after`.
pub proof fn law_exit_is_published_once(
    before: Seq<SidecarEventView>,
    code: Option<i32>,
    after: Seq<SidecarEventView>,
)
    requires
        forall|i: int| 0 <= i < before.len() ==> !(#[trigger] before[i] is Terminated),
    ensures
        ({
            let events = before + seq![SidecarEventView::Terminated(code)] + after;
            &&& published(false, events) == published(false, before) + seq![
                BackendEventView::Terminated(code),
            ]
            &&& exits(published(false, before)) == 0
            &&& exits(published(false, events)) == 1
            &&& finished_after_all(false, events)
            &&& !finished_after_all(false, before)
        }),
    decreases before.len(),
{
    let exit = SidecarEventView::Terminated(code);
    let announced = BackendEventView::Terminated(code);
    let events = before + seq![exit] + after;
    if before.len() == 0 {
        assert(events.drop_first() =~= after);
        lemma_finished_bridge_is_silent(after);
    } else {
        let head = before[0];
        let rest = before.drop_first();
        assert(events.drop_first() =~= rest + seq![exit] + after);
        assert forall|i: int| 0 <= i < rest.len() implies !(#[trigger] rest[i] is Terminated) by {
            assert(rest[i] == before[i + 1]);
        }
        law_exit_is_published_once(rest, code, after);
        let tail = published(false, rest);
        if let Some(event) = relayed(head) {
            assert(seq![event] + (tail + seq![announced]) =~= (seq![event] + tail) + seq![
                announced,
            ]);
            lemma_exits_of_concat(seq![event], tail);
            lemma_exits_of_one(event);
        }
    }
    lemma_exits_of_concat(published(false, before), seq![announced]);
    lemma_exits_of_one(announced);
}

} // verus!
