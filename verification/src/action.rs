//! What the run loop is told to do next, and what became of an inbound
//! message.

use vstd::prelude::*;

verus! {

/// The discovery message of one entity.
#[derive(Debug, PartialEq, Eq)]
pub struct Announcement {
    pub index: usize,
    /// Topic of the discovery message.
    pub topic: Vec<u8>,
    /// The discovery document.
    pub payload: Vec<u8>,
    /// The topic to subscribe to, for an entity that takes commands.
    pub subscribe: Option<Vec<u8>>,
}

pub struct AnnouncementView {
    pub index: usize,
    pub topic: Seq<u8>,
    pub payload: Seq<u8>,
    pub subscribe: Option<Seq<u8>>,
}

impl View for Announcement {
    type V = AnnouncementView;

    open spec fn view(&self) -> AnnouncementView {
        AnnouncementView {
            index: self.index,
            topic: self.topic@,
            payload: self.payload@,
            subscribe: match self.subscribe {
                Some(topic) => Some(topic@),
                None => None,
            },
        }
    }
}

/// The state message of one entity: where it goes and the value to write.
#[derive(Debug, PartialEq, Eq)]
pub struct StateUpdate {
    pub index: usize,
    pub topic: Vec<u8>,
    /// Bit pattern of the value.
    pub value: u32,
}

pub struct StateUpdateView {
    pub index: usize,
    pub topic: Seq<u8>,
    pub value: u32,
}

impl View for StateUpdate {
    type V = StateUpdateView;

    open spec fn view(&self) -> StateUpdateView {
        StateUpdateView { index: self.index, topic: self.topic@, value: self.value }
    }
}

/// The next thing for the run loop to do on the transport.
#[derive(Debug, PartialEq, Eq)]
pub enum Action {
    /// Send the discovery message of an entity.
    Announce(Announcement),
    /// Send the state message of an entity.
    Publish(StateUpdate),
    /// Nothing is left to send: wait for inbound bytes.
    Receive,
}

pub enum ActionView {
    Announce(AnnouncementView),
    Publish(StateUpdateView),
    Receive,
}

impl View for Action {
    type V = ActionView;

    open spec fn view(&self) -> ActionView {
        match self {
            Action::Announce(a) => ActionView::Announce(a@),
            Action::Publish(u) => ActionView::Publish(u@),
            Action::Receive => ActionView::Receive,
        }
    }
}

/// What became of an inbound message.
#[derive(Debug, Clone, Copy, PartialEq, Eq, Structural)]
pub enum Dispatch {
    /// No entity takes commands on the topic. Nothing has changed.
    Unmatched,
    /// The topic is that of an entity, but the payload held no value.
    /// Nothing has changed.
    Malformed { index: usize },
    /// The value is in the entity's command slot. `wake` is the token of the
    /// task that waited for it, if one did.
    Delivered { index: usize, wake: Option<u64> },
}

/// What the transport answered to the run loop's last read or write.
#[derive(Debug, Clone, Copy, PartialEq, Eq, Structural)]
pub enum TransportEvent {
    /// A message was written in full.
    Written,
    /// A write failed.
    WriteFailed,
    /// A read returned this many bytes.
    Read(usize),
    /// A read failed.
    ReadFailed,
}

/// Why a run loop is over. None of these is retried: a new loop is started
/// on a new transport.
#[derive(Debug, Clone, Copy, PartialEq, Eq, Structural)]
pub enum Fatal {
    WriteFailed,
    ReadFailed,
    /// A read returned no bytes: the remote end has closed the connection.
    Closed,
}

impl TransportEvent {
    /// The failure that this event is, if it is one. A read of no bytes is
    /// never "no data": it is the end of the connection.
    pub open spec fn fatal(self) -> Option<Fatal> {
        match self {
            TransportEvent::Written => None,
            TransportEvent::WriteFailed => Some(Fatal::WriteFailed),
            TransportEvent::Read(n) => if n == 0 {
                Some(Fatal::Closed)
            } else {
                None
            },
            TransportEvent::ReadFailed => Some(Fatal::ReadFailed),
        }
    }
}

} // verus!
