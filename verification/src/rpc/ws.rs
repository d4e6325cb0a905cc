//! Events over WebSocket connections.
//!
//! A client connects, names the events that it wants and is then sent those
//! events as they happen. What is awaited and sent is done outside; what each
//! thing that happens leads to is decided here.

use vstd::prelude::*;
use vstd::string::*;

use crate::primitives::text::text_eq;
use crate::rpc::dto::{ConsensusStatusDto, IntentStatusDto, TransactionReceiptDto};
use crate::rpc::json::{JsonNumber, JsonValue};
use crate::rpc::mcp::handler::{is_number_member, is_text_member};
use crate::rpc::middleware::Refusal;

verus! {

/// Number of events that wait for a slow client.
pub const BROADCAST_CAPACITY: usize = 1024;

/// How long a client may take to name its events, in seconds.
pub const SUBSCRIBE_TIMEOUT_SECS: u64 = 10;

/// Something that happened in the node.
#[derive(Debug, Clone)]
pub enum NodeEvent {
    /// A batch was committed.
    NewCommit {
        /// Commit sequence number.
        sequence: u64,
        /// Number of certificates in the committed sub-DAG.
        certificate_count: usize,
        /// When it was committed.
        committed_at_ms: u64,
    },
    /// A transaction was executed.
    TransactionExecuted(TransactionReceiptDto),
    /// The status of an intent changed.
    IntentStatusChanged(IntentStatusDto),
    /// The consensus status changed.
    ConsensusStatus(ConsensusStatusDto),
}

/// The events that a client wants.
#[derive(Debug, Clone)]
pub struct SubscribeRequest {
    /// Names of the events.
    pub subscribe: Vec<String>,
}

/// The name of an event.
pub open spec fn event_name(event: NodeEvent) -> Seq<char> {
    match event {
        NodeEvent::NewCommit { .. } => "new_commit"@,
        NodeEvent::TransactionExecuted(_) => "transaction_executed"@,
        NodeEvent::IntentStatusChanged(_) => "intent_status"@,
        NodeEvent::ConsensusStatus(_) => "consensus_status"@,
    }
}

/// Whether a client with the filters `filters` wants an event: any where it
/// has none, else those that it named.
pub open spec fn wants(filters: Seq<String>, event: NodeEvent) -> bool {
    ||| filters.len() == 0
    ||| exists|i: int| 0 <= i < filters.len() && (#[trigger] filters[i])@ == event_name(event)
}

/// Whether a client with the filters `filters` wants an event.
pub fn matches_filter(event: &NodeEvent, filters: &Vec<String>) -> (r: bool)
    ensures
        r == wants(filters@, *event),
{
    if filters.len() == 0 {
        return true;
    }
    let name = match event {
        NodeEvent::NewCommit { .. } => "new_commit",
        NodeEvent::TransactionExecuted(_) => "transaction_executed",
        NodeEvent::IntentStatusChanged(_) => "intent_status",
        NodeEvent::ConsensusStatus(_) => "consensus_status",
    };
    let mut i: usize = 0;
    while i < filters.len()
        invariant
            0 <= i <= filters@.len(),
            name@ == event_name(*event),
            filters@.len() > 0,
            forall|j: int| 0 <= j < i ==> (#[trigger] filters@[j])@ != event_name(*event),
        decreases filters@.len() - i,
    {
        if text_eq(filters[i].as_str(), name) {
            return true;
        }
        i = i + 1;
    }
    false
}

/// Whether `refusal` refuses a connection because there are too many.
pub open spec fn is_full(refusal: Refusal) -> bool {
    &&& refusal.status == 503
    &&& refusal.retry_after_secs is None
    &&& refusal.body is Object
    &&& refusal.body->Object_0@.len() == 2
    &&& is_text_member(refusal.body->Object_0@[0], "error"@, "SERVICE_UNAVAILABLE"@)
    &&& is_text_member(
        refusal.body->Object_0@[1],
        "message"@,
        "maximum WebSocket connections reached"@,
    )
}

/// Decides whether another connection is accepted where there are `current`,
/// and what it is refused with if not.
pub fn ws_upgrade(current: usize, max_ws_connections: usize) -> (r: Option<Refusal>)
    ensures
        r is None <==> current < max_ws_connections,
        r is Some ==> is_full(r->Some_0),
{
    if current < max_ws_connections {
        return None;
    }
    let mut members: Vec<(String, JsonValue)> = Vec::new();
    members.push(("error".to_owned(), JsonValue::Text("SERVICE_UNAVAILABLE".to_owned())));
    members.push(
        (
            "message".to_owned(),
            JsonValue::Text("maximum WebSocket connections reached".to_owned()),
        ),
    );
    Some(Refusal { status: 503, retry_after_secs: None, body: JsonValue::Object(members) })
}

/// Whether `body` tells a client that it missed so many events.
pub open spec fn tells_of_lag(body: JsonValue, missed: u64) -> bool {
    &&& body is Object
    &&& body->Object_0@.len() == 2
    &&& is_text_member(body->Object_0@[0], "warning"@, "lagged"@)
    &&& is_number_member(body->Object_0@[1], "missed_events"@, missed)
}

/// What a client is sent that was too slow for `missed` events.
pub fn lag_warning(missed: u64) -> (r: JsonValue)
    ensures
        tells_of_lag(r, missed),
{
    let mut members: Vec<(String, JsonValue)> = Vec::new();
    members.push(("warning".to_owned(), JsonValue::Text("lagged".to_owned())));
    members.push(
        ("missed_events".to_owned(), JsonValue::Number(JsonNumber::Unsigned(missed))),
    );
    JsonValue::Object(members)
}

/// The count of connections after one more opened; it wraps round at its
/// limit.
pub open spec fn count_after_opening(count: usize) -> usize {
    if count == usize::MAX {
        0
    } else {
        (count + 1) as usize
    }
}

/// The count of connections after one of them ended; it wraps round at zero.
pub open spec fn count_after_closing(count: usize) -> usize {
    if count == 0 {
        usize::MAX
    } else {
        (count - 1) as usize
    }
}

/// Counts a connection that opens.
pub fn connection_opened(count: &mut usize)
    ensures
        *final(count) == count_after_opening(*old(count)),
{
    *count = count.wrapping_add(1);
}

/// Counts a connection that ends.
pub fn connection_closed(count: &mut usize)
    ensures
        *final(count) == count_after_closing(*old(count)),
{
    *count = count.wrapping_sub(1);
}

/// A connection that opens and ends leaves the count as it was, and so do two
/// that are open at the same time.
pub proof fn law_closed_connections_do_not_count(count: usize)
    ensures
        count_after_closing(count_after_opening(count)) == count,
        count_after_opening(count_after_closing(count)) == count,
        count_after_closing(count_after_closing(count_after_opening(count_after_opening(count))))
            == count,
{
}

/// What came of waiting for a client to name its events.
#[derive(Debug)]
pub enum FirstMessage {
    /// A text: the events that it names, or nothing where it is malformed.
    Text(Option<SubscribeRequest>),
    /// The client closed the connection.
    Closed,
    /// Nothing came in time.
    TimedOut,
    /// A message of another kind, or a broken one.
    Other,
}

/// The filters of a client, or `None` where its connection ends without any.
/// Whoever names no events, or sends something other than text, is sent
/// everything.
pub fn wait_for_subscribe(first: FirstMessage) -> (r: Option<Vec<String>>)
    ensures
        match first {
            FirstMessage::Text(Some(request)) => r == Some(request.subscribe),
            FirstMessage::Text(None) => r is None,
            FirstMessage::Closed => r is None,
            FirstMessage::TimedOut => r is None,
            FirstMessage::Other => r is Some && r->Some_0@.len() == 0,
        },
{
    match first {
        FirstMessage::Text(Some(request)) => Some(request.subscribe),
        FirstMessage::Text(None) => None,
        FirstMessage::Closed => None,
        FirstMessage::TimedOut => None,
        FirstMessage::Other => Some(Vec::new()),
    }
}

/// Something that happens to an open connection.
#[derive(Debug)]
pub enum WsInput {
    /// An event was published.
    Event(NodeEvent),
    /// The client was too slow: this many events were dropped.
    Lagged(u64),
    /// No more events will be published.
    EventsClosed,
    /// The client closed the connection, or it broke.
    ClientClosed,
    /// The client sent something else.
    ClientMessage,
    /// Sending an event to the client failed.
    SendFailed,
}

/// What to do for an open connection.
#[derive(Debug)]
pub enum WsAction {
    /// Send the event to the client.
    Send(NodeEvent),
    /// Tell the client how many events it missed; whether that succeeds does
    /// not matter.
    WarnLagged(u64),
    /// Wait for the next thing to happen.
    Wait,
    /// End the connection.
    Stop,
}

/// What to do where `input` happens to the connection of a client with the
/// filters `filters`.
pub open spec fn ws_reaction(filters: Seq<String>, input: WsInput) -> WsAction {
    match input {
        WsInput::Event(event) => if wants(filters, event) {
            WsAction::Send(event)
        } else {
            WsAction::Wait
        },
        WsInput::Lagged(missed) => WsAction::WarnLagged(missed),
        WsInput::EventsClosed => WsAction::Stop,
        WsInput::ClientClosed => WsAction::Stop,
        WsInput::ClientMessage => WsAction::Wait,
        WsInput::SendFailed => WsAction::Stop,
    }
}

/// Decides what to do where `input` happens to the connection of a client with
/// the filters `filters`.
pub fn handle_ws(filters: &Vec<String>, input: WsInput) -> (r: WsAction)
    ensures
        r == ws_reaction(filters@, input),
{
    match input {
        WsInput::Event(event) => {
            if matches_filter(&event, filters) {
                WsAction::Send(event)
            } else {
                WsAction::Wait
            }
        },
        WsInput::Lagged(missed) => WsAction::WarnLagged(missed),
        WsInput::EventsClosed => WsAction::Stop,
        WsInput::ClientClosed => WsAction::Stop,
        WsInput::ClientMessage => WsAction::Wait,
        WsInput::SendFailed => WsAction::Stop,
    }
}

/// The events that a client is sent of those that happen on its connection, up
/// to the one that ends it.
pub open spec fn events_sent(filters: Seq<String>, inputs: Seq<WsInput>) -> Seq<NodeEvent>
    decreases inputs.len(),
{
    if inputs.len() == 0 {
        Seq::empty()
    } else {
        match ws_reaction(filters, inputs[0]) {
            WsAction::Send(event) => seq![event] + events_sent(filters, inputs.drop_first()),
            WsAction::Stop => Seq::empty(),
            _ => events_sent(filters, inputs.drop_first()),
        }
    }
}

/// Whether a connection has not ended before the `k`-th of what happens on it.
pub open spec fn connection_lives(filters: Seq<String>, inputs: Seq<WsInput>, k: int) -> bool {
    forall|j: int| 0 <= j < k ==> !(ws_reaction(filters, #[trigger] inputs[j]) is Stop)
}

/// How much happens on a connection before what ends it.
pub open spec fn lifetime(filters: Seq<String>, inputs: Seq<WsInput>) -> nat
    decreases inputs.len(),
{
    if inputs.len() == 0 || ws_reaction(filters, inputs[0]) is Stop {
        0
    } else {
        1 + lifetime(filters, inputs.drop_first())
    }
}

/// Whether an event happens that a client wants.
pub open spec fn wanted_event(filters: Seq<String>, input: WsInput) -> bool {
    input is Event && wants(filters, input->Event_0)
}

proof fn lemma_lifetime(filters: Seq<String>, inputs: Seq<WsInput>)
    ensures
        lifetime(filters, inputs) <= inputs.len(),
        connection_lives(filters, inputs, lifetime(filters, inputs) as int),
        lifetime(filters, inputs) < inputs.len() ==> ws_reaction(
            filters,
            inputs[lifetime(filters, inputs) as int],
        ) is Stop,
    decreases inputs.len(),
{
    let n = lifetime(filters, inputs) as int;
    if n > 0 {
        let later = inputs.drop_first();
        lemma_lifetime(filters, later);
        assert forall|j: int| 0 <= j < n implies !(ws_reaction(
            filters,
            #[trigger] inputs[j],
        ) is Stop) by {
            if j > 0 {
                assert(inputs[j] == later[j - 1]);
            }
        }
    }
}

/// A client is sent the events that it wants, each once and in the order in
/// which they happen, until its connection ends: no other event, and none of
/// them is left out.
pub proof fn law_clients_get_what_they_want(filters: Seq<String>, inputs: Seq<WsInput>)
    ensures
        events_sent(filters, inputs) == inputs.take(lifetime(filters, inputs) as int).filter(
            |input: WsInput| wanted_event(filters, input),
        ).map_values(|input: WsInput| input->Event_0),
        lifetime(filters, inputs) <= inputs.len(),
        connection_lives(filters, inputs, lifetime(filters, inputs) as int),
        lifetime(filters, inputs) < inputs.len() ==> ws_reaction(
            filters,
            inputs[lifetime(filters, inputs) as int],
        ) is Stop,
    decreases inputs.len(),
{
    reveal(Seq::filter);
    lemma_lifetime(filters, inputs);
    let n = lifetime(filters, inputs) as int;
    let pred = |input: WsInput| wanted_event(filters, input);
    let event = |input: WsInput| input->Event_0;
    if n > 0 {
        let later = inputs.drop_first();
        law_clients_get_what_they_want(filters, later);
        let head = seq![inputs[0]];
        let tail = later.take(n - 1);
        assert(inputs.take(n) =~= head + tail);
        Seq::filter_distributes_over_add(head, tail, pred);
        assert(head.drop_last() =~= Seq::<WsInput>::empty());
        assert(head.drop_last().filter(pred) =~= Seq::<WsInput>::empty());
        if pred(inputs[0]) {
            assert(head.filter(pred) =~= head);
            assert(events_sent(filters, inputs) =~= (head + tail.filter(pred)).map_values(event));
        } else {
            assert(head.filter(pred) =~= Seq::<WsInput>::empty());
            assert(head.filter(pred) + tail.filter(pred) =~= tail.filter(pred));
        }
    } else {
        assert(inputs.take(0) =~= Seq::<WsInput>::empty());
        assert(inputs.take(0).filter(pred) =~= Seq::<WsInput>::empty());
        assert(events_sent(filters, inputs) =~= inputs.take(0).filter(pred).map_values(event));
    }
}

} // verus!
