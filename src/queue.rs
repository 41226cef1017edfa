use vstd::prelude::*;

verus! {

/// The topic exchange that carries job-start events.
pub const INCOMING_TOPIC: &'static str = "game.starting";

/// The topic exchange that carries job-complete events.
pub const OUTGOING_TOPIC: &'static str = "game.complete";

/// The binding pattern that matches every routing key.
pub const CATCH_ALL_PATTERN: &'static str = "#";

/// The content type of every published payload.
pub const PAYLOAD_CONTENT_TYPE: &'static str = "application/json";

/// The AMQP delivery mode of a message that the broker keeps on disk.
pub const PERSISTENT_DELIVERY: u8 = 2;

/// The consumer tag of the continuous consumer.
pub const STARTING_CONSUMER_TAG: &'static str = "game_starting_consumer";

/// The consumer tag of a one-shot consumer.
pub const ONE_SHOT_CONSUMER_TAG: &'static str = "one_shot_consumer";

/// A topic exchange to declare.
pub struct ExchangeDeclaration {
    pub name: String,
    pub durable: bool,
}

/// A queue to declare. An empty name asks the broker to pick one.
pub struct QueueDeclaration {
    pub name: String,
    pub durable: bool,
    pub exclusive: bool,
    pub auto_delete: bool,
}

/// A binding of a declared queue to an exchange, under a routing pattern.
pub struct QueueBinding {
    pub exchange: String,
    pub pattern: String,
}

/// A message to publish.
pub struct Publication {
    pub exchange: String,
    pub routing_key: String,
    pub content_type: String,
    pub delivery_mode: u8,
    pub payload: Vec<u8>,
}

/// What the continuous consumer's stream gave next.
pub enum StreamEvent {
    /// A delivery arrived.
    Delivery,
    /// The stream failed, with this message.
    Failed(String),
    /// The stream ended.
    Ended,
}

/// What the continuous consumer does next.
pub enum ConsumerStep {
    /// Hand the payload to the handler, then acknowledge the delivery whatever
    /// the handler returned.
    HandleThenAck,
    /// Stop with this error.
    Fail(String),
    /// Stop without error.
    Finish,
}

/// Why a one-shot consume gave no payload.
pub enum ConsumeOneError {
    /// The consumer's stream ended before any delivery.
    NoMessage,
    /// The broker failed, with this message.
    Broker(String),
}

/// Both topics, declared as durable topic exchanges.
pub fn topic_exchanges() -> (r: Vec<ExchangeDeclaration>)
    ensures
        r@.len() == 2,
        r@[0].name@ == INCOMING_TOPIC@ && r@[0].durable,
        r@[1].name@ == OUTGOING_TOPIC@ && r@[1].durable,
{
    let mut r: Vec<ExchangeDeclaration> = Vec::new();
    r.push(ExchangeDeclaration { name: String::from_str(INCOMING_TOPIC), durable: true });
    r.push(ExchangeDeclaration { name: String::from_str(OUTGOING_TOPIC), durable: true });
    r
}

/// The name of the topic that carries job-complete events.
pub fn outgoing_topic() -> (r: String)
    ensures
        r@ == OUTGOING_TOPIC@,
{
    String::from_str(OUTGOING_TOPIC)
}

/// The durable named queue of the continuous consumer.
pub fn consumer_queue(queue_name: &str) -> (r: QueueDeclaration)
    ensures
        r.name@ == queue_name@,
        r.durable && !r.exclusive && !r.auto_delete,
{
    QueueDeclaration {
        name: String::from_str(queue_name),
        durable: true,
        exclusive: false,
        auto_delete: false,
    }
}

/// The continuous consumer's binding: every routing key of the incoming topic.
pub fn consumer_binding() -> (r: QueueBinding)
    ensures
        r.exchange@ == INCOMING_TOPIC@,
        r.pattern@ == CATCH_ALL_PATTERN@,
{
    QueueBinding {
        exchange: String::from_str(INCOMING_TOPIC),
        pattern: String::from_str(CATCH_ALL_PATTERN),
    }
}

/// The anonymous queue of a one-shot consumer, private to the connection and
/// deleted with its last consumer.
pub fn one_shot_queue() -> (r: QueueDeclaration)
    ensures
        r.name@ == Seq::<char>::empty(),
        !r.durable && r.exclusive && r.auto_delete,
{
    QueueDeclaration { name: String::new(), durable: false, exclusive: true, auto_delete: true }
}

/// The binding of a one-shot consumer: `topic` under exactly `routing_key`.
pub open spec fn one_shot_binding_spec(topic: Seq<char>, routing_key: Seq<char>) -> (
    Seq<char>,
    Seq<char>,
) {
    (topic, routing_key)
}

/// Binds a one-shot consumer to `topic` under exactly `routing_key`.
pub fn one_shot_binding(topic: &str, routing_key: &str) -> (r: QueueBinding)
    ensures
        (r.exchange@, r.pattern@) == one_shot_binding_spec(topic@, routing_key@),
{
    QueueBinding { exchange: String::from_str(topic), pattern: String::from_str(routing_key) }
}

/// A persistent publication of `payload` to `exchange` under `routing_key`.
pub open spec fn publication_of(
    p: Publication,
    exchange: Seq<char>,
    routing_key: Seq<char>,
    payload: Seq<u8>,
) -> bool {
    &&& p.exchange@ == exchange
    &&& p.routing_key@ == routing_key
    &&& p.content_type@ == PAYLOAD_CONTENT_TYPE@
    &&& p.delivery_mode == PERSISTENT_DELIVERY
    &&& p.payload@ == payload
}

/// A copy of the bytes.
fn copy_bytes(data: &[u8]) -> (r: Vec<u8>)
    ensures
        r@ == data@,
{
    let mut r: Vec<u8> = Vec::new();
    let mut i: usize = 0;
    while i < data.len()
        invariant
            i <= data@.len(),
            r@ == data@.subrange(0, i as int),
        decreases data@.len() - i,
    {
        r.push(data[i]);
        i = i + 1;
    }
    assert(r@ =~= data@);
    r
}

fn publication(exchange: &str, routing_key: &str, payload: &[u8]) -> (r: Publication)
    ensures
        publication_of(r, exchange@, routing_key@, payload@),
{
    Publication {
        exchange: String::from_str(exchange),
        routing_key: String::from_str(routing_key),
        content_type: String::from_str(PAYLOAD_CONTENT_TYPE),
        delivery_mode: PERSISTENT_DELIVERY,
        payload: copy_bytes(payload),
    }
}

/// A job-start event: to the incoming topic, under the empty routing key.
pub fn game_starting_publication(payload: &[u8]) -> (r: Publication)
    ensures
        publication_of(r, INCOMING_TOPIC@, Seq::empty(), payload@),
{
    proof {
        reveal_strlit("");
        assert(""@ =~= Seq::<char>::empty());
    }
    publication(INCOMING_TOPIC, "", payload)
}

/// A job-complete event: to the outgoing topic, under the job's id.
pub fn game_complete_publication(routing_key: &str, payload: &[u8]) -> (r: Publication)
    ensures
        publication_of(r, OUTGOING_TOPIC@, routing_key@, payload@),
{
    publication(OUTGOING_TOPIC, routing_key, payload)
}

/// Decides what the continuous consumer does with the next event of its
/// stream: a delivery is handled and then acknowledged, a failure of the stream
/// ends consumption with that failure, and the end of the stream ends it
/// without error.
pub fn consumer_step(event: StreamEvent) -> (r: ConsumerStep)
    ensures
        match event {
            StreamEvent::Delivery => r is HandleThenAck,
            StreamEvent::Failed(m) => r == ConsumerStep::Fail(m),
            StreamEvent::Ended => r is Finish,
        },
{
    match event {
        StreamEvent::Delivery => ConsumerStep::HandleThenAck,
        StreamEvent::Failed(m) => ConsumerStep::Fail(m),
        StreamEvent::Ended => ConsumerStep::Finish,
    }
}

/// The outcome of a one-shot consume, from the first thing its stream gave:
/// the payload of the first delivery, the broker's error, or `NoMessage` where
/// the stream ended first.
pub fn one_shot_outcome(first: Option<Result<Vec<u8>, String>>) -> (r: Result<
    Vec<u8>,
    ConsumeOneError,
>)
    ensures
        match first {
            Some(Ok(data)) => r == Ok::<Vec<u8>, ConsumeOneError>(data),
            Some(Err(m)) => r == Err::<Vec<u8>, ConsumeOneError>(ConsumeOneError::Broker(m)),
            None => r == Err::<Vec<u8>, ConsumeOneError>(ConsumeOneError::NoMessage),
        },
{
    match first {
        Some(Ok(data)) => Ok(data),
        Some(Err(m)) => Err(ConsumeOneError::Broker(m)),
        None => Err(ConsumeOneError::NoMessage),
    }
}

/// A job-complete event published under a routing key goes to the very
/// exchange and routing key that a one-shot consumer binds for that key on the
/// outgoing topic, and carries the published bytes unchanged.
pub proof fn lemma_complete_event_meets_one_shot_binding(
    p: Publication,
    routing_key: Seq<char>,
    payload: Seq<u8>,
)
    requires
        publication_of(p, OUTGOING_TOPIC@, routing_key, payload),
    ensures
        (p.exchange@, p.routing_key@) == one_shot_binding_spec(OUTGOING_TOPIC@, routing_key),
        p.payload@ == payload,
{
}

} // verus!
