//! The publisher: what is sent to the broker for one meter, and when.
//!
//! A publisher holds the identifier of its meter and the topics that belong
//! to it. It does not hold the connection: `new` gives the request to
//! connect, `publish` and `publish_discovery` give the first request of an
//! operation, and the caller carries the requests to the transport (see the
//! module `protocol`).

use vstd::prelude::*;
use vstd::string::*;

use crate::discovery::{discovery_of, sensor_members, sensor_text, Discovery, DiscoveryView};
use crate::encoding::json_string;
use crate::message::{message_of, message_views, Message, MessageView};
use crate::meter::MeterValues;
use crate::payload::{state_members, state_payload, state_text};
use crate::protocol::{
    lemma_all_messages_sent, lemma_failed_reconnect_sends_nothing,
    lemma_one_reconnect_before_any_send, run, standard_options, Call, ConnectOptions,
    ConnectOutcome, Request, RequestView, Script, Trace, KEEP_ALIVE_SECS,
};
use crate::text::join2;
use crate::topics::{discovery_in_topic, discovery_out_topic, state_topic, topics_of, Topics};

verus! {

/// The message for a broker that could not be connected to.
pub open spec fn connect_failure_message(url: Seq<char>, cause: Seq<char>) -> Seq<char> {
    "Cannot connect to "@ + url + ": "@ + cause
}

/// The state message of the meter `identifier` for a reading: it is not
/// retained.
pub open spec fn state_message(identifier: Seq<char>, values: MeterValues) -> MessageView {
    message_of(state_topic(identifier), state_text(values), false)
}

/// The base of the discovery payloads of the meter `identifier`.
pub open spec fn discovery_base(identifier: Seq<char>) -> DiscoveryView {
    discovery_of(identifier, state_topic(identifier))
}

/// The discovery message for imported energy: it is retained.
pub open spec fn discovery_in_message(identifier: Seq<char>) -> MessageView {
    message_of(
        discovery_in_topic(identifier),
        sensor_text(discovery_base(identifier).input()),
        true,
    )
}

/// The discovery message for exported energy: it is retained.
pub open spec fn discovery_out_message(identifier: Seq<char>) -> MessageView {
    message_of(
        discovery_out_topic(identifier),
        sensor_text(discovery_base(identifier).output()),
        true,
    )
}

/// The discovery messages of the meter `identifier`: input before output.
pub open spec fn discovery_messages(identifier: Seq<char>) -> Seq<MessageView> {
    seq![discovery_in_message(identifier), discovery_out_message(identifier)]
}

/// The request to connect to the broker, as mathematical values.
pub struct ConnectingView {
    pub url: Seq<char>,
    pub identifier: Seq<char>,
    pub options: ConnectOptions,
}

/// The request to connect to the broker: a client for the address is to be
/// made and connected, once, as the options say. It waits for the outcome,
/// and gives the publisher if the connection is up.
pub struct Connecting {
    url: String,
    identifier: String,
    options: ConnectOptions,
}

impl View for Connecting {
    type V = ConnectingView;

    closed spec fn view(&self) -> ConnectingView {
        ConnectingView { url: self.url@, identifier: self.identifier@, options: self.options }
    }
}

/// The calls on the transport that make a publisher: the one connect that
/// the request asks for.
pub open spec fn construction_calls(request: ConnectingView) -> Seq<Call> {
    seq![Call::Connect(request.url, request.options)]
}

/// Publishes the readings of one meter.
pub struct MeterPublisher {
    identifier: String,
    topics: Topics,
}

impl MeterPublisher {
    /// The topics are those of the identifier, from the beginning to the end.
    #[verifier::type_invariant]
    spec fn topics_belong_to_identifier(self) -> bool {
        self.topics@ == topics_of(self.identifier@)
    }

    /// The identifier of the meter.
    pub closed spec fn id(&self) -> Seq<char> {
        self.identifier@
    }

    /// How to connect to the broker: keep-alive every 20 seconds, clean
    /// session, and neither last will nor credentials nor encryption.
    pub fn connect_options() -> (options: ConnectOptions)
        ensures
            options == standard_options(),
    {
        ConnectOptions {
            keep_alive_secs: KEEP_ALIVE_SECS,
            clean_session: true,
            last_will: false,
            credentials: false,
            tls: false,
        }
    }

    /// Begins the making of the publisher for the meter `identifier`: asks
    /// for the connection to the broker at `url`, with `connect_options`.
    pub fn new(url: &str, identifier: &str) -> (request: Connecting)
        ensures
            request@ == (ConnectingView {
                url: url@,
                identifier: identifier@,
                options: standard_options(),
            }),
    {
        Connecting {
            url: url.to_owned(),
            identifier: identifier.to_owned(),
            options: MeterPublisher::connect_options(),
        }
    }

    /// The identifier of the meter.
    pub fn identifier(&self) -> (identifier: &String)
        ensures
            identifier@ == self.id(),
    {
        &self.identifier
    }

    /// The topics of the meter.
    pub fn topics(&self) -> (topics: &Topics)
        ensures
            topics@ == topics_of(self.id()),
    {
        proof {
            use_type_invariant(self);
        }
        &self.topics
    }

    /// The base of the discovery payloads.
    pub fn discovery(&self) -> (base: Discovery)
        ensures
            base@ == discovery_base(self.id()),
    {
        proof {
            use_type_invariant(self);
        }
        Discovery::new(self.identifier.as_str(), self.topics.state().as_str())
    }

    /// Begins the publication of a reading: one message on the state topic,
    /// not retained, after the connection was checked.
    pub fn publish(&self, values: &MeterValues) -> (request: Request)
        ensures
            request@ == RequestView::CheckLink(seq![state_message(self.id(), *values)]),
    {
        proof {
            use_type_invariant(self);
        }
        let message = Message::new(self.topics.state().as_str(), state_payload(values));
        let mut messages: Vec<Message> = Vec::new();
        messages.push(message);
        assert(message_views(messages@) =~= seq![state_message(self.id(), *values)]);
        Request::operation(messages)
    }

    /// Begins the announcement of the two sensors: the discovery message for
    /// imported energy, then that for exported energy, both retained, after
    /// the connection was checked.
    pub fn publish_discovery(&self) -> (request: Request)
        ensures
            request@ == RequestView::CheckLink(discovery_messages(self.id())),
    {
        proof {
            use_type_invariant(self);
        }
        let base = self.discovery();
        let input = Message::new_retained(
            self.topics.discovery_in().as_str(),
            base.input().to_json(),
        );
        let output = Message::new_retained(
            self.topics.discovery_out().as_str(),
            base.output().to_json(),
        );
        let mut messages: Vec<Message> = Vec::new();
        messages.push(input);
        messages.push(output);
        assert(message_views(messages@) =~= discovery_messages(self.id()));
        Request::operation(messages)
    }

    /// Ends the publisher: the connection is to be closed. The publisher is
    /// used up, so this happens once.
    pub fn shutdown(self) -> (request: Request)
        ensures
            request@ == RequestView::Disconnect,
    {
        Request::Disconnect
    }
}

impl Connecting {
    /// The address of the broker.
    pub fn url(&self) -> (url: &String)
        ensures
            url@ == self@.url,
    {
        &self.url
    }

    /// How the connection is to be set up.
    pub fn options(&self) -> (options: ConnectOptions)
        ensures
            options == self@.options,
    {
        self.options
    }

    /// The connection was tried. There is a publisher only if it is up: a
    /// failure is final and is reported with its cause, a failed connect
    /// also with the address.
    pub fn answer(self, outcome: ConnectOutcome) -> (result: Result<MeterPublisher, String>)
        ensures
            match outcome {
                ConnectOutcome::Connected => result matches Ok(publisher) && publisher.id()
                    == self@.identifier,
                ConnectOutcome::ClientFailed(cause) => result matches Err(message) && message@
                    == cause@,
                ConnectOutcome::ConnectFailed(cause) => result matches Err(message) && message@
                    == connect_failure_message(self@.url, cause@),
            },
    {
        match outcome {
            ConnectOutcome::Connected => {
                let topics = Topics::new(self.identifier.as_str());
                Ok(MeterPublisher { identifier: self.identifier, topics: topics })
            },
            ConnectOutcome::ClientFailed(cause) => Err(cause),
            ConnectOutcome::ConnectFailed(cause) => {
                let mut message = join2("Cannot connect to ", self.url.as_str());
                message.append(": ");
                message.append(cause.as_str());
                Err(message)
            },
        }
    }
}

/// Making a publisher asks for one connect, to the given address, with
/// keep-alive every 20 seconds and a clean session, and with neither last
/// will nor credentials nor encryption.
pub proof fn lemma_construction_connects_once(request: Connecting, url: Seq<char>)
    requires
        request@.url == url,
        request@.options == standard_options(),
    ensures
        construction_calls(request@) == seq![
            Call::Connect(
                url,
                ConnectOptions {
                    keep_alive_secs: 20,
                    clean_session: true,
                    last_will: false,
                    credentials: false,
                    tls: false,
                },
            ),
        ],
{
}

/// Over a connection that is up, or that the reconnect brings up, and with
/// no send failing, the announcement makes exactly two sends: the discovery
/// message for imported energy, then that for exported energy, each retained
/// and on its own topic.
pub proof fn lemma_discovery_announces_both_sensors(identifier: Seq<char>, script: Script)
    requires
        script.connected || script.reconnect is Ok,
        (script.send)(0) is Ok,
        (script.send)(1) is Ok,
    ensures
        ({
            let trace = run(RequestView::CheckLink(discovery_messages(identifier)), script, 0);
            let first = if script.connected {
                1int
            } else {
                2int
            };
            &&& trace.result == Ok::<(), Seq<char>>(())
            &&& trace.calls.len() == first + 2
            &&& trace.calls[first] == Call::Send(discovery_in_message(identifier))
            &&& trace.calls[first + 1] == Call::Send(discovery_out_message(identifier))
            &&& discovery_in_message(identifier).retained
            &&& discovery_out_message(identifier).retained
            &&& discovery_in_message(identifier).topic == discovery_in_topic(identifier)
            &&& discovery_out_message(identifier).topic == discovery_out_topic(identifier)
        }),
{
    lemma_all_messages_sent(discovery_messages(identifier), script);
}

/// Publishing a reading begins with the question whether the connection is
/// up. The reading is sent only over a connection that is up: at once if it
/// was found up, and behind the one reconnect, if that succeeded, when it
/// was found down. The same holds of the announcement.
pub proof fn lemma_publish_reconnects_before_sending(
    identifier: Seq<char>,
    values: MeterValues,
    script: Script,
)
    ensures
        ({
            let reading = run(
                RequestView::CheckLink(seq![state_message(identifier, values)]),
                script,
                0,
            ).calls;
            let announcement = run(
                RequestView::CheckLink(discovery_messages(identifier)),
                script,
                0,
            ).calls;
            &&& reading[0] == Call::IsConnected
            &&& announcement[0] == Call::IsConnected
            &&& !script.connected ==> reading[1] == Call::Reconnect && announcement[1]
                == Call::Reconnect
            &&& forall|i: int|
                0 <= i < reading.len() && i != 1 ==> reading[i] != Call::Reconnect
            &&& forall|i: int|
                0 <= i < announcement.len() && i != 1 ==> announcement[i] != Call::Reconnect
            &&& forall|i: int|
                0 <= i < reading.len() && reading[i] is Send ==> script.connected || (i >= 2
                    && script.reconnect is Ok)
            &&& forall|i: int|
                0 <= i < announcement.len() && announcement[i] is Send ==> script.connected || (i
                    >= 2 && script.reconnect is Ok)
        }),
{
    lemma_one_reconnect_before_any_send(seq![state_message(identifier, values)], script);
    lemma_one_reconnect_before_any_send(discovery_messages(identifier), script);
}

/// If the connection is down and the reconnect fails, publishing a reading
/// and announcing the sensors both end with the cause of that failure, and
/// neither sends a message.
pub proof fn lemma_publish_fails_without_sending(
    identifier: Seq<char>,
    values: MeterValues,
    script: Script,
)
    requires
        !script.connected,
        script.reconnect is Err,
    ensures
        run(RequestView::CheckLink(seq![state_message(identifier, values)]), script, 0) == (Trace {
            calls: seq![Call::IsConnected, Call::Reconnect],
            result: script.reconnect,
        }),
        run(RequestView::CheckLink(discovery_messages(identifier)), script, 0) == (Trace {
            calls: seq![Call::IsConnected, Call::Reconnect],
            result: script.reconnect,
        }),
{
    lemma_failed_reconnect_sends_nothing(seq![state_message(identifier, values)], script);
    lemma_failed_reconnect_sends_nothing(discovery_messages(identifier), script);
}

/// Both sensors are announced with their availability. It is read from the
/// state topic of the meter, out of the field `state` of a state message,
/// where `ON` says that the sensors are available and `OFF` that they are
/// not. Every state message carries that field, and says `ON`.
pub proof fn lemma_availability_follows_state(identifier: Seq<char>, values: MeterValues)
    ensures
        ({
            let base = discovery_base(identifier);
            let input = sensor_members(base.input());
            let output = sensor_members(base.output());
            &&& base.availability_topic == state_topic(identifier)
            &&& input[2] == ("availability_topic"@, json_string(state_topic(identifier)))
            &&& input[3] == ("availability_template"@, json_string("{{ value_json.state }}"@))
            &&& input[4] == ("payload_available"@, json_string("ON"@))
            &&& input[5] == ("payload_not_available"@, json_string("OFF"@))
            &&& output[2] == input[2]
            &&& output[3] == input[3]
            &&& output[4] == input[4]
            &&& output[5] == input[5]
            &&& state_members(values)[0] == ("state"@, json_string(base.payload_available))
        }),
{
}

} // verus!
