//! What the user interface keeps of the engine's events: a log of them, and
//! the few facts its screens are drawn from.

use crate::call::{view_of, EngineCallState};
use crate::config::clone_text;
use crate::engine::{SipEvent, SipEventView};
use crate::session::{event_id_text, event_text};
use vstd::prelude::*;
use vstd::string::*;

verus! {

/// What happened, in a log entry.
#[derive(Debug, PartialEq, Eq)]
pub enum CallEventType {
    IncomingCall { from: String, display_name: Option<String> },
    CallConnected { codec: String },
    CallEnded,
    CallStateChanged { state: EngineCallState },
    DtmfSent { digits: String },
    Error { message: String },
}

/// The mathematical model of a [`CallEventType`].
#[verifier::ext_equal]
pub enum CallEventTypeView {
    IncomingCall { from: Seq<char>, display_name: Option<Seq<char>> },
    CallConnected { codec: Seq<char> },
    CallEnded,
    CallStateChanged { state: EngineCallState },
    DtmfSent { digits: Seq<char> },
    Error { message: Seq<char> },
}

impl View for CallEventType {
    type V = CallEventTypeView;

    open spec fn view(&self) -> CallEventTypeView {
        match *self {
            CallEventType::IncomingCall { from, display_name } => CallEventTypeView::IncomingCall {
                from: from@,
                display_name: view_of(display_name),
            },
            CallEventType::CallConnected { codec } => CallEventTypeView::CallConnected {
                codec: codec@,
            },
            CallEventType::CallEnded => CallEventTypeView::CallEnded,
            CallEventType::CallStateChanged { state } => CallEventTypeView::CallStateChanged {
                state,
            },
            CallEventType::DtmfSent { digits } => CallEventTypeView::DtmfSent { digits: digits@ },
            CallEventType::Error { message } => CallEventTypeView::Error { message: message@ },
        }
    }
}

/// One entry of the log. `timestamp` is in milliseconds since the Unix epoch.
#[derive(Debug, PartialEq, Eq)]
pub struct CallEvent {
    /// The call the entry is about; empty where it is about none.
    pub call_id: String,
    pub event_type: CallEventType,
    pub timestamp: i64,
}

/// The mathematical model of a [`CallEvent`].
#[verifier::ext_equal]
pub struct CallEventView {
    pub call_id: Seq<char>,
    pub event_type: CallEventTypeView,
    pub timestamp: i64,
}

impl View for CallEvent {
    type V = CallEventView;

    open spec fn view(&self) -> CallEventView {
        CallEventView {
            call_id: self.call_id@,
            event_type: self.event_type@,
            timestamp: self.timestamp,
        }
    }
}

/// The models of the entries of a log.
pub open spec fn entry_views(events: Seq<CallEvent>) -> Seq<CallEventView> {
    Seq::new(events.len(), |i: int| events[i]@)
}

/// What the user interface has kept of the events so far.
#[verifier::ext_equal]
pub struct EventLogView {
    pub events: Seq<CallEventView>,
    /// The call that is being offered, and who it is from.
    pub incoming_call: Option<(Seq<char>, Seq<char>)>,
    pub call_connected: bool,
    pub call_ended: bool,
}

/// The log entry that an event leaves at the time `now`, if it leaves one.
/// `id_text` is the text written for the number of the call the event speaks
/// of.
pub open spec fn entry_of(event: SipEventView, now: i64, id_text: Seq<char>) -> Option<
    CallEventView,
> {
    match event {
        SipEventView::IncomingCall { call_id, from, display_name } => Some(
            CallEventView {
                call_id: id_text,
                event_type: CallEventTypeView::IncomingCall { from, display_name },
                timestamp: now,
            },
        ),
        SipEventView::CallConnected { call_id, codec } => Some(
            CallEventView {
                call_id: id_text,
                event_type: CallEventTypeView::CallConnected { codec },
                timestamp: now,
            },
        ),
        SipEventView::CallEnded { call_id } => Some(
            CallEventView {
                call_id: id_text,
                event_type: CallEventTypeView::CallEnded,
                timestamp: now,
            },
        ),
        SipEventView::CallStateChanged { call_id, new_state } => Some(
            CallEventView {
                call_id: id_text,
                event_type: CallEventTypeView::CallStateChanged { state: new_state },
                timestamp: now,
            },
        ),
        SipEventView::DtmfSent { call_id, digits } => Some(
            CallEventView {
                call_id: id_text,
                event_type: CallEventTypeView::DtmfSent { digits },
                timestamp: now,
            },
        ),
        SipEventView::Error { message } => Some(
            CallEventView {
                call_id: Seq::empty(),
                event_type: CallEventTypeView::Error { message },
                timestamp: now,
            },
        ),
        _ => None,
    }
}

/// What is kept after `event` has come at the time `now`: its entry is added
/// to the log; an offered call is remembered until a call ends; a call counts
/// as connected from the moment its media flows or the engine says so, until
/// it ends or is terminated, and as ended from then on. `id_text` is the text
/// written for the number of the call the event speaks of.
pub open spec fn logged(
    log: EventLogView,
    event: SipEventView,
    now: i64,
    id_text: Seq<char>,
) -> EventLogView {
    let events = match entry_of(event, now, id_text) {
        Some(entry) => log.events.push(entry),
        None => log.events,
    };
    match event {
        SipEventView::IncomingCall { call_id, from, display_name } => EventLogView {
            events,
            incoming_call: Some((id_text, from)),
            ..log
        },
        SipEventView::CallConnected { call_id, codec } => EventLogView {
            events,
            call_connected: true,
            ..log
        },
        SipEventView::CallEnded { call_id } => EventLogView {
            events,
            incoming_call: None,
            call_connected: false,
            call_ended: true,
        },
        SipEventView::CallStateChanged { call_id, new_state } => match new_state {
            EngineCallState::Connected => EventLogView { events, call_connected: true, ..log },
            EngineCallState::Terminated => EventLogView {
                events,
                call_connected: false,
                call_ended: true,
                ..log
            },
            _ => EventLogView { events, ..log },
        },
        _ => EventLogView { events, ..log },
    }
}

/// The event handler of the user interface.
#[derive(Debug)]
pub struct DioxusEventHandler {
    pub events: Vec<CallEvent>,
    /// The call that is being offered, and who it is from.
    pub incoming_call: Option<(String, String)>,
    pub call_connected: bool,
    pub call_ended: bool,
}

impl View for DioxusEventHandler {
    type V = EventLogView;

    open spec fn view(&self) -> EventLogView {
        EventLogView {
            events: entry_views(self.events@),
            incoming_call: match self.incoming_call {
                Some(pair) => Some((pair.0@, pair.1@)),
                None => None,
            },
            call_connected: self.call_connected,
            call_ended: self.call_ended,
        }
    }
}

impl DioxusEventHandler {
    /// A handler that has seen no event.
    pub fn new() -> (r: Self)
        ensures
            r@ == (EventLogView {
                events: Seq::empty(),
                incoming_call: None,
                call_connected: false,
                call_ended: false,
            }),
    {
        let r = DioxusEventHandler {
            events: Vec::new(),
            incoming_call: None,
            call_connected: false,
            call_ended: false,
        };
        assert(entry_views(r.events@) =~= Seq::empty());
        r
    }

    fn record(&mut self, call_id: String, event_type: CallEventType, timestamp: i64)
        ensures
            final(self)@ == (EventLogView {
                events: old(self)@.events.push(
                    CallEventView { call_id: call_id@, event_type: event_type@, timestamp },
                ),
                ..old(self)@
            }),
    {
        let ghost before = self@.events;
        let entry = CallEvent { call_id, event_type, timestamp };
        let ghost added = entry@;
        self.events.push(entry);
        assert(entry_views(self.events@) =~= before.push(added));
    }

    /// Takes an event of the engine, at the time `now`, with `id_text` as the
    /// text written for the number of the call it speaks of: see [`logged`].
    pub fn log_event(&mut self, event: &SipEvent, now: i64, id_text: &str)
        ensures
            final(self)@ == logged(old(self)@, event@, now, id_text@),
    {
        match event {
            SipEvent::IncomingCall { call_id, from, display_name } => {
                self.record(
                    String::from_str(id_text),
                    CallEventType::IncomingCall {
                        from: from.clone(),
                        display_name: clone_text(display_name),
                    },
                    now,
                );
                self.incoming_call = Some((String::from_str(id_text), from.clone()));
            },
            SipEvent::CallConnected { call_id, codec } => {
                self.record(
                    String::from_str(id_text),
                    CallEventType::CallConnected { codec: codec.clone() },
                    now,
                );
                self.call_connected = true;
            },
            SipEvent::CallEnded { call_id } => {
                self.record(String::from_str(id_text), CallEventType::CallEnded, now);
                self.call_ended = true;
                self.call_connected = false;
                self.incoming_call = None;
            },
            SipEvent::CallStateChanged { call_id, new_state } => {
                self.record(
                    String::from_str(id_text),
                    CallEventType::CallStateChanged { state: *new_state },
                    now,
                );
                match new_state {
                    EngineCallState::Connected => {
                        self.call_connected = true;
                    },
                    EngineCallState::Terminated => {
                        self.call_connected = false;
                        self.call_ended = true;
                    },
                    _ => {},
                }
            },
            SipEvent::DtmfSent { call_id, digits } => {
                self.record(
                    String::from_str(id_text),
                    CallEventType::DtmfSent { digits: digits.clone() },
                    now,
                );
            },
            SipEvent::Error { message } => {
                self.record(String::new(), CallEventType::Error { message: message.clone() }, now);
            },
            _ => {},
        }
    }

    /// Takes an event of the engine, at the time `now`: see [`logged`].
    pub fn handle_sip_event(&mut self, event: &SipEvent, now: i64)
        ensures
            final(self)@ == logged(old(self)@, event@, now, event_text(event@)),
    {
        let id_text = event_id_text(event);
        self.log_event(event, now, id_text.as_str());
    }
}

} // verus!
