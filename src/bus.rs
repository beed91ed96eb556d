use vstd::prelude::*;
use vstd::string::*;

verus! {

/// Where and how to reach the message broker.
#[derive(Clone, Debug)]
pub struct RabbitmqConfig {
    pub host: String,
    pub port: u16,
    pub username: String,
    pub password: String,
    pub exchange: String,
}

/// A broker failure, as the broker client described it.
#[derive(Clone, Debug)]
pub struct RabbitError(pub String);

/// The topic exchange that carries every media event.
pub open spec fn exchange_name() -> Seq<char> {
    "media_events"@
}

/// Routing key of uploaded events.
pub open spec fn uploaded_key() -> Seq<char> {
    "media.uploaded"@
}

/// Routing key of compressed events.
pub open spec fn compressed_key() -> Seq<char> {
    "media.compressed"@
}

/// Status of an asset whose compressed copy is written.
pub open spec fn compressed_status() -> Seq<char> {
    "compressed"@
}

pub fn media_exchange() -> (r: String)
    ensures
        r@ == exchange_name(),
{
    String::from_str("media_events")
}

pub fn uploaded_routing_key() -> (r: String)
    ensures
        r@ == uploaded_key(),
{
    String::from_str("media.uploaded")
}

pub fn compressed_routing_key() -> (r: String)
    ensures
        r@ == compressed_key(),
{
    String::from_str("media.compressed")
}

pub fn status_compressed() -> (r: String)
    ensures
        r@ == compressed_status(),
{
    String::from_str("compressed")
}

/// Binding of the compression worker's queue.
pub fn worker_binding() -> (r: String)
    ensures
        r@ == uploaded_key(),
{
    uploaded_routing_key()
}

/// Binding of the reconciliation queue: every media event.
pub fn reconciliation_binding() -> (r: String)
    ensures
        r@ == "media.#"@,
{
    String::from_str("media.#")
}

/// Durable queue of the compression worker.
pub fn worker_queue() -> (r: String)
    ensures
        r@ == "media_compresion_service"@,
{
    String::from_str("media_compresion_service")
}

/// Durable queue of the reconciliation consumer.
pub fn reconciliation_queue() -> (r: String)
    ensures
        r@ == "media_service"@,
{
    String::from_str("media_service")
}

/// How a consumer settles a delivery with the broker.
#[derive(Clone, Copy, Debug, PartialEq, Eq, Structural)]
pub enum Disposition {
    /// Acknowledge: the broker forgets the message.
    Ack,
    /// Reject without requeueing: the message is dropped.
    Reject,
    /// Settle nothing: the broker redelivers once the channel closes.
    Abandon,
}

} // verus!
