//! What the chain reports about the execution of a block.

use vstd::prelude::*;
use crate::block::{
    attributes_complete, attributes_read, default_attributes, event_kind_of, EventKind,
    TxAttributes, TxAttributesView, TxEventStatusCode,
};
use crate::sequence::collect;
use crate::text::pairs_view;

verus! {

/// Whether a transaction took effect.
#[derive(Debug, Clone, Copy, PartialEq, Eq, Structural)]
pub enum TransactionExitStatus {
    Applied,
    Rejected,
}

impl TransactionExitStatus {
    /// `Applied` for the status code `Success`, `Rejected` for `Fail`.
    pub fn from(code: TxEventStatusCode) -> (r: Self)
        ensures
            r == exit_status_of(code),
    {
        match code {
            TxEventStatusCode::Success => TransactionExitStatus::Applied,
            TxEventStatusCode::Fail => TransactionExitStatus::Rejected,
        }
    }
}

/// The exit status that a status code stands for.
pub open spec fn exit_status_of(code: TxEventStatusCode) -> TransactionExitStatus {
    match code {
        TxEventStatusCode::Success => TransactionExitStatus::Applied,
        TxEventStatusCode::Fail => TransactionExitStatus::Rejected,
    }
}

/// An event as the chain reports it: the name of its kind and its
/// attributes as pairs of key and value.
#[derive(Debug, Clone, PartialEq, Eq)]
pub struct RawEvent {
    pub kind: String,
    pub attributes: Vec<(String, String)>,
}

/// One event of a block's execution.
#[derive(Debug, Clone, PartialEq, Eq)]
pub struct Event {
    pub kind: EventKind,
    pub attributes: Option<TxAttributes>,
}

/// The mathematical value of an [`Event`].
pub struct EventView {
    pub kind: EventKind,
    pub attributes: Option<TxAttributesView>,
}

impl View for Event {
    type V = EventView;

    open spec fn view(&self) -> EventView {
        EventView {
            kind: self.kind,
            attributes: match self.attributes {
                Some(attributes) => Some(attributes@),
                None => None,
            },
        }
    }
}

/// The values of a list of events.
pub open spec fn events_view(events: Seq<Event>) -> Seq<EventView> {
    events.map_values(|e: Event| e@)
}

/// The event that a reported event stands for: one of unknown kind has the
/// default attributes; one of a known kind has what its attributes say, and
/// none where they are not complete.
pub open spec fn event_of(raw: RawEvent) -> EventView {
    let kind = event_kind_of(raw.kind@);
    EventView {
        kind,
        attributes: if kind is Unknown {
            Some(default_attributes())
        } else if attributes_complete(pairs_view(raw.attributes@)) {
            Some(attributes_read(pairs_view(raw.attributes@)))
        } else {
            None
        },
    }
}

/// The event of a transaction that a reported event stands for; an event of
/// unknown kind is none.
pub open spec fn transaction_event_of(raw: RawEvent) -> Option<EventView> {
    if event_kind_of(raw.kind@) is Unknown {
        None
    } else {
        Some(event_of(raw))
    }
}

/// `event_of` as a function.
pub open spec fn event_fn() -> spec_fn(RawEvent) -> Option<EventView> {
    |raw: RawEvent| Some(event_of(raw))
}

/// `transaction_event_of` as a function.
pub open spec fn transaction_event_fn() -> spec_fn(RawEvent) -> Option<EventView> {
    |raw: RawEvent| transaction_event_of(raw)
}

impl Event {
    /// The event that a reported event stands for.
    pub fn from(raw: &RawEvent) -> (r: Self)
        ensures
            r@ == event_of(*raw),
    {
        let kind = EventKind::from(raw.kind.as_str());
        let attributes = match kind {
            EventKind::Unknown => Some(TxAttributes::default()),
            _ => TxAttributes::read(&raw.attributes),
        };
        Event { kind, attributes }
    }
}

/// The events of a block's execution. The end events stand in the order of
/// the block's transactions: the event at a position belongs to the
/// transaction at that position.
#[derive(Debug, Clone, PartialEq, Eq)]
pub struct BlockResult {
    pub height: u64,
    pub begin_events: Vec<Event>,
    pub end_events: Vec<Event>,
}

/// The exit status of the transaction at `index`: `Applied` where the event
/// at that position carries the status code `Success`, `Rejected` otherwise, and
/// so also where there is no such event or it carries no attributes.
pub open spec fn exit_status_at(events: Seq<Event>, index: int) -> TransactionExitStatus {
    if 0 <= index < events.len() {
        match events[index].attributes {
            Some(attributes) => exit_status_of(attributes.code),
            None => TransactionExitStatus::Rejected,
        }
    } else {
        TransactionExitStatus::Rejected
    }
}

/// The gas that the transaction at `index` used: what the event at that
/// position says, and zero where there is no such event or it carries no
/// attributes.
pub open spec fn gas_used_at(events: Seq<Event>, index: int) -> u64 {
    if 0 <= index < events.len() {
        match events[index].attributes {
            Some(attributes) => attributes.gas,
            None => 0,
        }
    } else {
        0
    }
}

impl BlockResult {
    /// The execution results of the block at `height`: the begin events as
    /// they were reported, and of the reported end events those of a known
    /// kind, which are the events of the transactions, in their order.
    pub fn from(height: u64, begin: &Vec<RawEvent>, end: &Vec<RawEvent>) -> (r: Self)
        ensures
            r.height == height,
            events_view(r.begin_events@) == collect(begin@, event_fn()),
            events_view(r.end_events@) == collect(end@, transaction_event_fn()),
    {
        let mut begin_events: Vec<Event> = Vec::new();
        let mut i: usize = 0;
        assert(events_view(begin_events@) =~= Seq::<EventView>::empty());
        while i < begin.len()
            invariant
                i <= begin.len(),
                events_view(begin_events@) == collect(begin@.take(i as int), event_fn()),
            decreases begin.len() - i,
        {
            proof {
                crate::sequence::lemma_collect_step(begin@, event_fn(), i as int);
            }
            let ghost before = events_view(begin_events@);
            let event = Event::from(&begin[i]);
            let ghost view = event@;
            begin_events.push(event);
            proof {
                assert(events_view(begin_events@) =~= before.push(view));
            }
            i = i + 1;
        }
        proof {
            assert(begin@.take(i as int) =~= begin@);
        }
        let mut end_events: Vec<Event> = Vec::new();
        let mut j: usize = 0;
        assert(events_view(end_events@) =~= Seq::<EventView>::empty());
        while j < end.len()
            invariant
                j <= end.len(),
                events_view(end_events@) == collect(end@.take(j as int), transaction_event_fn()),
            decreases end.len() - j,
        {
            proof {
                crate::sequence::lemma_collect_step(end@, transaction_event_fn(), j as int);
            }
            let ghost before = events_view(end_events@);
            let event = Event::from(&end[j]);
            if event.kind != EventKind::Unknown {
                let ghost view = event@;
                end_events.push(event);
                proof {
                    assert(events_view(end_events@) =~= before.push(view));
                }
            }
            j = j + 1;
        }
        proof {
            assert(end@.take(j as int) =~= end@);
        }
        BlockResult { height, begin_events, end_events }
    }

    /// The exit status of the transaction at `index`.
    pub fn is_wrapper_tx_applied(&self, index: usize) -> (r: TransactionExitStatus)
        ensures
            r == exit_status_at(self.end_events@, index as int),
    {
        if index < self.end_events.len() {
            match &self.end_events[index].attributes {
                Some(attributes) => TransactionExitStatus::from(attributes.code),
                None => TransactionExitStatus::Rejected,
            }
        } else {
            TransactionExitStatus::Rejected
        }
    }

    /// The gas that the transaction at `index` used.
    pub fn gas_used(&self, index: usize) -> (r: u64)
        ensures
            r == gas_used_at(self.end_events@, index as int),
    {
        if index < self.end_events.len() {
            match &self.end_events[index].attributes {
                Some(attributes) => attributes.gas,
                None => 0,
            }
        } else {
            0
        }
    }
}

} // verus!
