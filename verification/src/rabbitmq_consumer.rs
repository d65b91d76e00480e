//! Queue intake: decoding a delivery body and deciding, per message,
//! whether it is acknowledged or dead-lettered.

use vstd::prelude::*;
use vstd::utf8::{decode_utf8, valid_utf8};

verus! {

pub const QUEUE_NAME: &'static str = "manga_urls_queue";

pub const EXCHANGE_NAME: &'static str = "manga_urls_exchange";

/// Failures while reading configuration values, carried as the offending
/// value's description.
#[derive(Debug)]
pub enum ConfigErrorType {
    ParseEnv(String),
    ParseInt(String),
}

/// Failures while decoding one delivery body into a job request.
#[derive(Debug)]
pub enum ParseDeliveryErrorType {
    ParseFromUtf8Error,
    ParseJsonError(String),
}

/// Failures of the broker lifecycle, each carrying the broker's message
/// text. All of them are fatal: the consumer cannot continue without a
/// working channel.
#[derive(Debug)]
pub enum AmqpWrapperError {
    Connect(String),
    ChannelCreate(String),
    QueueCreate(String),
    ExchangeCreate(String),
    ConsumerCreate(String),
    QueueBind(String),
    PrefetchSet(String),
    Ack(String),
    Nack(String),
}

/// Every way consuming can fail.
#[derive(Debug)]
pub enum Error {
    Config(ConfigErrorType),
    Amqp(AmqpWrapperError),
    ParseDelivery(ParseDeliveryErrorType),
}

/// Relies on std::str::from_utf8: it returns `Ok` exactly for valid UTF-8,
/// and then the decoded characters of the input bytes.
#[verifier::external_body]
fn utf8_bytes_to_string(data: &[u8]) -> (r: Option<String>)
    ensures
        (r is Some <==> valid_utf8(data@)),
        (r matches Some(s) ==> s@ == decode_utf8(data@)),
{
    match std::str::from_utf8(data) {
        Ok(s) => Some(s.to_string()),
        Err(_) => None,
    }
}

/// Reads a delivery body as UTF-8 text; a body that is not valid UTF-8 is
/// a decode failure, which the consumer treats as a poison message.
pub fn parse_delivery_data(data: &[u8]) -> (r: Result<String, ParseDeliveryErrorType>)
    ensures
        (r is Ok <==> valid_utf8(data@)),
        (r matches Ok(s) ==> s@ == decode_utf8(data@)),
        (r matches Err(e) ==> e is ParseFromUtf8Error),
{
    match utf8_bytes_to_string(data) {
        Some(s) => Ok(s),
        None => Err(ParseDeliveryErrorType::ParseFromUtf8Error),
    }
}

/// What the consumer does with one delivery.
#[derive(Debug, Clone, Copy, PartialEq, Eq, Structural)]
pub enum AckAction {
    Ack,
    Nack { requeue: bool },
}

/// How one delivery turned out: its body failed to decode, or a job ran
/// and its scraping and callback publish each succeeded or failed.
#[derive(Debug, Clone, Copy, PartialEq, Eq, Structural)]
pub enum DeliveryOutcome {
    DecodeFailed,
    Job { scrape_succeeded: bool, publish_succeeded: bool },
}

/// The acknowledgement decision for one delivery.
///
/// A body that could not be decoded is a poison message and is
/// dead-lettered: nacked with requeue disabled. A job whose scraping
/// failed has already exhausted its in-process retries, so its message is
/// also nacked without requeue rather than re-run. A job whose scraping
/// succeeded is acknowledged — whether or not the callback publish
/// succeeded, since delivery of the callback is best-effort and never
/// turns a scraped job into a failure.
pub fn delivery_disposition(outcome: &DeliveryOutcome) -> (a: AckAction)
    ensures
        a == match *outcome {
            DeliveryOutcome::DecodeFailed => AckAction::Nack { requeue: false },
            DeliveryOutcome::Job { scrape_succeeded, .. } => {
                if scrape_succeeded {
                    AckAction::Ack
                } else {
                    AckAction::Nack { requeue: false }
                }
            },
        },
{
    match outcome {
        DeliveryOutcome::DecodeFailed => AckAction::Nack { requeue: false },
        DeliveryOutcome::Job { scrape_succeeded, .. } => {
            if *scrape_succeeded {
                AckAction::Ack
            } else {
                AckAction::Nack { requeue: false }
            }
        },
    }
}

/// The acknowledgement never asks the broker to redeliver: a failed job
/// has already retried internally, and re-running the identical job could
/// only fail the same way.
pub proof fn lemma_no_requeue(outcome: DeliveryOutcome, a: AckAction)
    requires
        a == match outcome {
            DeliveryOutcome::DecodeFailed => AckAction::Nack { requeue: false },
            DeliveryOutcome::Job { scrape_succeeded, .. } => {
                if scrape_succeeded {
                    AckAction::Ack
                } else {
                    AckAction::Nack { requeue: false }
                }
            },
        },
    ensures
        !(a matches AckAction::Nack { requeue: true }),
{
}

} // verus!
