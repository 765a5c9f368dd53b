//! The broker gateway: what is asked of the broker for each command of a
//! worker, and what is handed to the workers for each packet of the broker.

use crate::config::Config;
use crate::topics::{availability_topic, make_availability_topic, make_state_topic};
use vstd::prelude::*;
use vstd::string::*;
use vstd::utf8::{decode_utf8, encode_utf8, valid_utf8};

verus! {

/// How many packets wait for a worker that has fallen behind; older ones
/// are dropped.
pub const FAN_OUT_BACKLOG: usize = 10;

/// A message as the workers see it: a topic and a text payload.
#[derive(Debug, PartialEq, Eq)]
pub struct MqttMessage {
    pub topic: String,
    pub payload: String,
}

pub struct MqttMessageView {
    pub topic: Seq<char>,
    pub payload: Seq<char>,
}

impl View for MqttMessage {
    type V = MqttMessageView;

    open spec fn view(&self) -> MqttMessageView {
        MqttMessageView { topic: self.topic@, payload: self.payload@ }
    }
}

impl DeepView for MqttMessage {
    type V = MqttMessageView;

    open spec fn deep_view(&self) -> MqttMessageView {
        self@
    }
}

impl Clone for MqttMessage {
    fn clone(&self) -> (copy: MqttMessage)
        ensures
            copy@ == self@,
    {
        MqttMessage { topic: self.topic.clone(), payload: self.payload.clone() }
    }
}

/// What a worker asks of the gateway.
#[derive(Debug, PartialEq, Eq)]
pub enum MqttCommand {
    Emit(MqttMessage),
    Subscribe(String),
}

pub enum MqttCommandView {
    Emit(MqttMessageView),
    Subscribe(Seq<char>),
}

impl View for MqttCommand {
    type V = MqttCommandView;

    open spec fn view(&self) -> MqttCommandView {
        match self {
            MqttCommand::Emit(message) => MqttCommandView::Emit(message@),
            MqttCommand::Subscribe(topic) => MqttCommandView::Subscribe(topic@),
        }
    }
}

impl DeepView for MqttCommand {
    type V = MqttCommandView;

    open spec fn deep_view(&self) -> MqttCommandView {
        self@
    }
}

impl Clone for MqttCommand {
    fn clone(&self) -> (copy: MqttCommand)
        ensures
            copy@ == self@,
    {
        match self {
            MqttCommand::Emit(message) => MqttCommand::Emit(message.clone()),
            MqttCommand::Subscribe(topic) => MqttCommand::Subscribe(topic.clone()),
        }
    }
}

impl MqttCommand {
    /// The command that publishes `payload`, a document the caller has
    /// already encoded as JSON, on `topic`.
    pub fn new_json(topic: String, payload: String) -> (command: MqttCommand)
        ensures
            command@ == MqttCommandView::Emit(
                MqttMessageView { topic: topic@, payload: payload@ },
            ),
    {
        MqttCommand::Emit(MqttMessage { topic, payload })
    }

    /// The command that starts listening on `topic`.
    pub fn subscribe(topic: String) -> (command: MqttCommand)
        ensures
            command@ == MqttCommandView::Subscribe(topic@),
    {
        MqttCommand::Subscribe(topic)
    }
}

/// A message whose payload is still a value. Whoever sends it encodes the
/// payload and emits the result on `topic`.
#[derive(Debug)]
pub struct Publication<T> {
    pub topic: String,
    pub payload: T,
}

/// How hard the broker tries to deliver.
#[derive(Debug, Clone, Copy, PartialEq, Eq, Structural)]
pub enum QoS {
    AtMostOnce,
    AtLeastOnce,
    ExactlyOnce,
}

/// One operation on the broker connection.
#[derive(Debug, PartialEq, Eq)]
pub enum BrokerRequest {
    Publish { topic: String, payload: Vec<u8>, retain: bool },
    Subscribe { topic: String, qos: QoS },
}

pub enum BrokerRequestView {
    Publish { topic: Seq<char>, payload: Seq<u8>, retain: bool },
    Subscribe { topic: Seq<char>, qos: QoS },
}

impl View for BrokerRequest {
    type V = BrokerRequestView;

    open spec fn view(&self) -> BrokerRequestView {
        match self {
            BrokerRequest::Publish { topic, payload, retain } => BrokerRequestView::Publish {
                topic: topic@,
                payload: payload@,
                retain: *retain,
            },
            BrokerRequest::Subscribe { topic, qos } => BrokerRequestView::Subscribe {
                topic: topic@,
                qos: *qos,
            },
        }
    }
}

/// What the gateway waits for: a command of a worker or a packet of the
/// broker.
#[derive(Debug, PartialEq, Eq)]
pub enum GatewayEvent {
    Command(MqttCommand),
    Packet { topic: String, payload: Vec<u8> },
}

pub enum GatewayEventView {
    Command(MqttCommandView),
    Packet { topic: Seq<char>, payload: Seq<u8> },
}

impl View for GatewayEvent {
    type V = GatewayEventView;

    open spec fn view(&self) -> GatewayEventView {
        match self {
            GatewayEvent::Command(command) => GatewayEventView::Command(command@),
            GatewayEvent::Packet { topic, payload } => GatewayEventView::Packet {
                topic: topic@,
                payload: payload@,
            },
        }
    }
}

impl DeepView for GatewayEvent {
    type V = GatewayEventView;

    open spec fn deep_view(&self) -> GatewayEventView {
        self@
    }
}

/// What the gateway does about an event: ask the broker for something,
/// hand a message to every worker that listens, or let the event pass.
#[derive(Debug, PartialEq, Eq)]
pub enum GatewayAction {
    Send(BrokerRequest),
    Deliver(MqttMessage),
    Skip,
}

pub enum GatewayActionView {
    Send(BrokerRequestView),
    Deliver(MqttMessageView),
    Skip,
}

impl View for GatewayAction {
    type V = GatewayActionView;

    open spec fn view(&self) -> GatewayActionView {
        match self {
            GatewayAction::Send(request) => GatewayActionView::Send(request@),
            GatewayAction::Deliver(message) => GatewayActionView::Deliver(message@),
            GatewayAction::Skip => GatewayActionView::Skip,
        }
    }
}

impl DeepView for GatewayAction {
    type V = GatewayActionView;

    open spec fn deep_view(&self) -> GatewayActionView {
        self@
    }
}

/// Why a packet is no message.
#[derive(Debug, Clone, Copy, PartialEq, Eq, Structural)]
pub enum GatewayError {
    /// A packet's payload is not UTF-8 text.
    InvalidPayload,
}

/// The retained publish of `payload` on `topic`.
pub open spec fn retained(topic: Seq<char>, payload: Seq<char>) -> BrokerRequestView {
    BrokerRequestView::Publish { topic, payload: encode_utf8(payload), retain: true }
}

/// The announcement that the bridge is running.
pub open spec fn online_request(entity_id: Seq<char>) -> BrokerRequestView {
    retained(availability_topic(entity_id), "online"@)
}

/// The announcement that the bridge has stopped.
pub open spec fn offline_request(entity_id: Seq<char>) -> BrokerRequestView {
    retained(availability_topic(entity_id), "offline"@)
}

/// What is asked of the broker for a command: an emitted message is
/// published retained, a subscription is made at least once.
pub open spec fn request_for(command: MqttCommandView) -> BrokerRequestView {
    match command {
        MqttCommandView::Emit(message) => retained(message.topic, message.payload),
        MqttCommandView::Subscribe(topic) => BrokerRequestView::Subscribe {
            topic,
            qos: QoS::AtLeastOnce,
        },
    }
}

/// What the gateway does about one event. A command is passed on to the
/// broker and a packet is handed to the workers; a packet whose payload is
/// not UTF-8 text is dropped, and the gateway goes on.
pub open spec fn outcome(event: GatewayEventView) -> GatewayActionView {
    match event {
        GatewayEventView::Command(command) => GatewayActionView::Send(request_for(command)),
        GatewayEventView::Packet { topic, payload } => if valid_utf8(payload) {
            GatewayActionView::Deliver(MqttMessageView { topic, payload: decode_utf8(payload) })
        } else {
            GatewayActionView::Skip
        },
    }
}

/// Everything a run does, in order: the online announcement, then one
/// action per event.
pub open spec fn run_actions(entity_id: Seq<char>, events: Seq<GatewayEventView>) -> Seq<
    GatewayActionView,
> {
    seq![GatewayActionView::Send(online_request(entity_id))] + Seq::new(
        events.len(),
        |i: int| outcome(events[i]),
    )
}

/// A run followed by a clean shutdown: the offline announcement comes last.
pub open spec fn session_actions(entity_id: Seq<char>, events: Seq<GatewayEventView>) -> Seq<
    GatewayActionView,
> {
    run_actions(entity_id, events).push(GatewayActionView::Send(offline_request(entity_id)))
}

/// Whatever the commands and packets of a session are, the first thing it
/// does is to send `online` on the availability topic, before anything else
/// goes out, and the last is to send `offline` on the same topic.
pub proof fn lemma_session_is_bracketed(entity_id: Seq<char>, events: Seq<GatewayEventView>)
    ensures
        session_actions(entity_id, events).len() == events.len() + 2,
        session_actions(entity_id, events).first() == GatewayActionView::Send(
            online_request(entity_id),
        ),
        session_actions(entity_id, events).last() == GatewayActionView::Send(
            offline_request(entity_id),
        ),
        online_request(entity_id) == (BrokerRequestView::Publish {
            topic: availability_topic(entity_id),
            payload: encode_utf8("online"@),
            retain: true,
        }),
        offline_request(entity_id) == (BrokerRequestView::Publish {
            topic: availability_topic(entity_id),
            payload: encode_utf8("offline"@),
            retain: true,
        }),
{
}

/// Whatever a session publishes is retained.
pub proof fn lemma_session_publishes_retained(
    entity_id: Seq<char>,
    events: Seq<GatewayEventView>,
    at: int,
)
    requires
        0 <= at < session_actions(entity_id, events).len(),
    ensures
        session_actions(entity_id, events)[at] matches GatewayActionView::Send(
            BrokerRequestView::Publish { retain, .. },
        ) ==> retain,
{
    if 1 <= at <= events.len() {
        assert(session_actions(entity_id, events)[at] == outcome(events[at - 1]));
    }
}

/// Every command of a session is passed on to the broker once, at its own
/// place in the order of events, whatever packets arrive around it.
pub proof fn lemma_session_keeps_commands(
    entity_id: Seq<char>,
    events: Seq<GatewayEventView>,
    at: int,
)
    requires
        0 <= at < events.len(),
    ensures
        events[at] matches GatewayEventView::Command(command) ==> session_actions(
            entity_id,
            events,
        )[at + 1] == GatewayActionView::Send(request_for(command)),
        events[at] is Packet ==> !(session_actions(entity_id, events)[at + 1] is Send),
{
    assert(session_actions(entity_id, events)[at + 1] == outcome(events[at]));
}

/// What came of waiting for the next message of the gateway.
#[derive(Debug, PartialEq, Eq)]
pub enum Received {
    /// The next message.
    Message(MqttMessage),
    /// The worker fell behind and messages were dropped before it read them.
    Lagged,
    /// The gateway is gone.
    Closed,
}

/// What a worker does after waiting for a message.
#[derive(Debug, PartialEq, Eq)]
pub enum Step {
    Handle(MqttMessage),
    Skip,
    Stop,
}

/// Decides how a worker goes on after waiting for a message: it handles a
/// message, goes on waiting after it fell behind, and stops only when the
/// gateway is gone.
pub fn after_receive(received: Received) -> (step: Step)
    ensures
        match received {
            Received::Message(message) => step == Step::Handle(message),
            Received::Lagged => step == Step::Skip,
            Received::Closed => step == Step::Stop,
        },
{
    match received {
        Received::Message(message) => Step::Handle(message),
        Received::Lagged => Step::Skip,
        Received::Closed => Step::Stop,
    }
}

/// The error of `String::from_utf8`; it is passed on unread.
#[verifier::external_type_specification]
#[verifier::external_body]
pub struct ExFromUtf8Error(std::string::FromUtf8Error);

/// Calls `String::from_utf8` of the standard library: it succeeds exactly on
/// well-formed UTF-8 and then gives the text that the bytes encode.
#[verifier::external_body]
fn string_from_utf8(bytes: Vec<u8>) -> (text: Result<String, std::string::FromUtf8Error>)
    ensures
        text is Ok <==> valid_utf8(bytes@),
        text matches Ok(decoded) ==> decoded@ == decode_utf8(bytes@),
{
    String::from_utf8(bytes)
}

/// The gateway: the one owner of the broker connection.
#[derive(Debug)]
pub struct MqttWorker {
    entity_id: String,
}

impl MqttWorker {
    /// The entity the gateway announces.
    pub closed spec fn entity_id(&self) -> Seq<char> {
        self.entity_id@
    }

    pub fn new(config: &Config) -> (worker: MqttWorker)
        ensures
            worker.entity_id() == config.hass.entity_id@,
    {
        MqttWorker { entity_id: config.hass.entity_id.clone() }
    }

    fn announce(&self, payload: &str) -> (request: BrokerRequest)
        ensures
            request@ == retained(availability_topic(self.entity_id()), payload@),
    {
        let topic = make_availability_topic(make_state_topic(self.entity_id.as_str()).as_str());
        BrokerRequest::Publish { topic, payload: payload.as_bytes_vec(), retain: true }
    }

    /// The first thing to send once connected: `online`, retained, on the
    /// availability topic.
    pub fn online(&self) -> (request: BrokerRequest)
        ensures
            request@ == online_request(self.entity_id()),
    {
        self.announce("online")
    }

    /// The last thing to send before the connection is given up: `offline`,
    /// retained, on the availability topic.
    pub fn offline(&self) -> (request: BrokerRequest)
        ensures
            request@ == offline_request(self.entity_id()),
    {
        self.announce("offline")
    }

    /// Publishes a message, retained.
    pub fn publish(message: MqttMessage) -> (request: BrokerRequest)
        ensures
            request@ == retained(message.topic@, message.payload@),
    {
        let payload = message.payload.as_str().as_bytes_vec();
        BrokerRequest::Publish { topic: message.topic, payload, retain: true }
    }

    /// Subscribes to a topic, at least once.
    pub fn subscribe(topic: String) -> (request: BrokerRequest)
        ensures
            request@ == (BrokerRequestView::Subscribe { topic: topic@, qos: QoS::AtLeastOnce }),
    {
        BrokerRequest::Subscribe { topic, qos: QoS::AtLeastOnce }
    }

    /// Turns a packet of the broker into a message for the workers, or says
    /// that its payload is not text.
    pub fn recv(topic: String, payload: Vec<u8>) -> (message: Result<MqttMessage, GatewayError>)
        ensures
            message is Ok <==> valid_utf8(payload@),
            message matches Ok(m) ==> m@ == (MqttMessageView {
                topic: topic@,
                payload: decode_utf8(payload@),
            }),
            message matches Err(e) ==> e == GatewayError::InvalidPayload,
    {
        match string_from_utf8(payload) {
            Ok(text) => Ok(MqttMessage { topic, payload: text }),
            Err(_) => Err(GatewayError::InvalidPayload),
        }
    }

    /// Decides what to do about one event. A packet that is no message is
    /// dropped.
    pub fn handle(event: GatewayEvent) -> (action: GatewayAction)
        ensures
            action@ == outcome(event@),
    {
        match event {
            GatewayEvent::Command(MqttCommand::Emit(message)) => GatewayAction::Send(
                Self::publish(message),
            ),
            GatewayEvent::Command(MqttCommand::Subscribe(topic)) => GatewayAction::Send(
                Self::subscribe(topic),
            ),
            GatewayEvent::Packet { topic, payload } => match Self::recv(topic, payload) {
                Ok(message) => GatewayAction::Deliver(message),
                Err(_) => GatewayAction::Skip,
            },
        }
    }

    /// Replays a finished stream of events: the online announcement first,
    /// then one action per event, in order.
    #[verifier::loop_isolation(false)]
    pub fn run(&self, events: Vec<GatewayEvent>) -> (actions: Vec<GatewayAction>)
        ensures
            actions.deep_view() == run_actions(self.entity_id(), events.deep_view()),
    {
        let mut actions: Vec<GatewayAction> = Vec::new();
        actions.push(GatewayAction::Send(self.online()));
        let ghost items = events@;
        let ghost all = events.deep_view();
        assert(actions.deep_view() == run_actions(self.entity_id(), all.subrange(0, 0)));
        for event in it: events
            invariant
                it.seq() == items,
                all == Seq::new(items.len(), |k: int| items[k]@),
                actions.deep_view() == run_actions(
                    self.entity_id(),
                    all.subrange(0, it.index() as int),
                ),
        {
            let ghost at = it.index() as int;
            assert(event@ == all[at]);
            let ghost before = actions.deep_view();
            let action = Self::handle(event);
            actions.push(action);
            assert(actions.deep_view() == before.push(action@));
            assert(before.push(action@) == run_actions(self.entity_id(), all.subrange(0, at + 1)));
        }
        assert(all.subrange(0, all.len() as int) == all);
        actions
    }
}

/// The announcement that ends a session for the configured entity.
pub fn go_offline(config: &Config) -> (request: BrokerRequest)
    ensures
        request@ == offline_request(config.hass.entity_id@),
{
    MqttWorker::new(config).offline()
}

} // verus!
