//! Publishing events to subscribers by topic. The bus keeps, for each
//! topic, the subscription numbers in the order they subscribed; whoever
//! holds the handlers calls the ones a publication names.

use vstd::prelude::*;
use crate::sdk::event::SuperEvent;
use crate::text::{str_eq, to_owned_string};

verus! {

/// The topic an event is published under.
pub open spec fn event_topic_spec(event: SuperEvent) -> Seq<char> {
    match event {
        SuperEvent::WorkspaceOpened { .. } => "workspace.opened"@,
        SuperEvent::WorkspaceClosed { .. } => "workspace.closed"@,
        SuperEvent::FileOpened { .. } => "file.opened"@,
        SuperEvent::FileSaved { .. } => "file.saved"@,
        SuperEvent::CommandInvoked { .. } => "command.invoked"@,
        SuperEvent::SearchRequested { .. } => "search.requested"@,
        SuperEvent::TerminalStarted { .. } => "terminal.started"@,
        SuperEvent::GitStatusChanged { .. } => "git.status_changed"@,
        SuperEvent::AiRequested { .. } => "ai.requested"@,
        SuperEvent::ProviderReady { .. } => "provider.ready"@,
        SuperEvent::ProviderFailed { .. } => "provider.failed"@,
        SuperEvent::AgentStarted { .. } => "agent.started"@,
        SuperEvent::AgentFinished { .. } => "agent.finished"@,
        SuperEvent::ExtensionActivated { .. } => "extension.activated"@,
        SuperEvent::Custom { topic, .. } => topic@,
    }
}

/// The topic an event is published under: a fixed name per kind of event,
/// or its own topic for a custom event.
pub fn event_topic(event: &SuperEvent) -> (r: String)
    ensures
        r@ == event_topic_spec(*event),
{
    match event {
        SuperEvent::WorkspaceOpened { .. } => to_owned_string("workspace.opened"),
        SuperEvent::WorkspaceClosed { .. } => to_owned_string("workspace.closed"),
        SuperEvent::FileOpened { .. } => to_owned_string("file.opened"),
        SuperEvent::FileSaved { .. } => to_owned_string("file.saved"),
        SuperEvent::CommandInvoked { .. } => to_owned_string("command.invoked"),
        SuperEvent::SearchRequested { .. } => to_owned_string("search.requested"),
        SuperEvent::TerminalStarted { .. } => to_owned_string("terminal.started"),
        SuperEvent::GitStatusChanged { .. } => to_owned_string("git.status_changed"),
        SuperEvent::AiRequested { .. } => to_owned_string("ai.requested"),
        SuperEvent::ProviderReady { .. } => to_owned_string("provider.ready"),
        SuperEvent::ProviderFailed { .. } => to_owned_string("provider.failed"),
        SuperEvent::AgentStarted { .. } => to_owned_string("agent.started"),
        SuperEvent::AgentFinished { .. } => to_owned_string("agent.finished"),
        SuperEvent::ExtensionActivated { .. } => to_owned_string("extension.activated"),
        SuperEvent::Custom { topic, .. } => topic.clone(),
    }
}

/// Something events can be published to.
pub trait EventSink {
    /// Hands `event` to whoever listens for its topic.
    fn publish(&self, event: SuperEvent);
}

/// The subscription numbers of `topic`, in subscription order.
pub open spec fn subscribers(subs: Seq<(Seq<char>, u64)>, topic: Seq<char>) -> Seq<u64>
    decreases subs.len(),
{
    if subs.len() == 0 {
        Seq::empty()
    } else {
        subscribers(subs.drop_last(), topic) + if subs.last().0 == topic {
            seq![subs.last().1]
        } else {
            Seq::empty()
        }
    }
}

/// The subscriptions of the bus: topic and number, oldest first.
#[derive(Debug)]
pub struct EventBus {
    subscriptions: Vec<(String, u64)>,
    next_id: u64,
}

impl EventBus {
    /// The subscriptions, oldest first.
    pub closed spec fn subs_view(&self) -> Seq<(Seq<char>, u64)> {
        self.subscriptions@.map_values(|p: (String, u64)| (p.0@, p.1))
    }

    /// The number the next subscription gets.
    pub closed spec fn next_view(&self) -> u64 {
        self.next_id
    }

    /// The number the next subscription gets.
    pub fn next_id(&self) -> (r: u64)
        ensures
            r == self.next_view(),
    {
        self.next_id
    }

    /// A bus with no subscriptions; the first one is numbered 1.
    pub fn new() -> (r: Self)
        ensures
            r.subs_view() == Seq::<(Seq<char>, u64)>::empty(),
            r.next_view() == 1,
    {
        let r = EventBus { subscriptions: Vec::new(), next_id: 1 };
        assert(r.subs_view() =~= Seq::<(Seq<char>, u64)>::empty());
        r
    }

    /// Subscribes to `topic` and returns the subscription's number. The
    /// numbers must not run out.
    pub fn subscribe(&mut self, topic: &str) -> (id: u64)
        requires
            old(self).next_view() < u64::MAX,
        ensures
            id == old(self).next_view(),
            final(self).next_view() == id + 1,
            final(self).subs_view() == old(self).subs_view().push((topic@, id)),
    {
        let id = self.next_id;
        self.next_id = id + 1;
        let ghost prev = self.subscriptions@;
        self.subscriptions.push((to_owned_string(topic), id));
        assert(self.subscriptions@.map_values(|p: (String, u64)| (p.0@, p.1)) =~= prev.map_values(
            |p: (String, u64)| (p.0@, p.1),
        ).push((topic@, id)));
        id
    }

    /// The subscriptions to call for `event`: those of its topic, in the
    /// order they subscribed.
    pub fn publish(&self, event: &SuperEvent) -> (r: Vec<u64>)
        ensures
            r@ == subscribers(self.subs_view(), event_topic_spec(*event)),
    {
        let topic = event_topic(event);
        let ghost subs = self.subs_view();
        let mut out: Vec<u64> = Vec::new();
        let mut i: usize = 0;
        while i < self.subscriptions.len()
            invariant
                i <= self.subscriptions@.len(),
                subs == self.subs_view(),
                out@ == subscribers(subs.take(i as int), topic@),
            decreases self.subscriptions.len() - i,
        {
            assert(subs.take(i + 1).drop_last() =~= subs.take(i as int));
            if str_eq(self.subscriptions[i].0.as_str(), topic.as_str()) {
                out.push(self.subscriptions[i].1);
            }
            i = i + 1;
        }
        assert(subs.take(i as int) =~= subs);
        out
    }
}

impl Default for EventBus {
    fn default() -> (r: Self)
        ensures
            r.subs_view() == Seq::<(Seq<char>, u64)>::empty(),
            r.next_view() == 1,
    {
        EventBus::new()
    }
}

} // verus!
