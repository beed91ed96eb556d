use vstd::prelude::*;
use vstd::utf8::encode_utf8;
use crate::bus::{
    Disposition, compressed_key, compressed_routing_key, compressed_status, exchange_name,
    media_exchange, status_compressed,
};
use crate::events::{MediaCompressedMessage, MediaUploadedMessage, compressed_json, decoded_uploaded};

verus! {

/// Originals smaller than this many bytes are left as they are.
pub const COMPRESSION_THRESHOLD: i64 = 8 * 1024 * 1024;

/// What the compression worker asks its surroundings to do next.
pub enum WorkerStep {
    /// Fetch the original object and report its declared size.
    FetchOriginal { key: String },
    /// Find out whether an object is stored under `key`.
    CheckCompressed { key: String },
    /// Read the original's bytes and transcode them.
    Transcode,
    /// Write the compressed bytes under `key`, overwriting any object there.
    StoreCompressed { key: String, bytes: Vec<u8> },
    /// Publish `payload` to `exchange` under `routing_key`.
    PublishCompressed { exchange: String, routing_key: String, payload: Vec<u8> },
    /// Settle the delivery and stop.
    Finish(Disposition),
}

/// What came of the step the worker asked for.
pub enum StepOutcome {
    Fetched { content_length: Option<i64> },
    FetchFailed,
    CompressedFound,
    CompressedAbsent,
    CheckFailed,
    Transcoded { bytes: Vec<u8> },
    TranscodeFailed,
    Stored,
    StoreFailed,
    Published,
    PublishFailed,
}

/// Where a job stands: which outcome it waits for.
#[derive(Clone, Copy, Debug, PartialEq, Eq, Structural)]
pub enum Stage {
    Fetching,
    Checking,
    Transcoding,
    Storing,
    Publishing,
    Done,
}

/// One delivery of an uploaded event, on its way through the worker.
pub struct CompressionJob {
    pub event: MediaUploadedMessage,
    pub stage: Stage,
}

pub open spec fn is_fetch(step: WorkerStep, key: Seq<char>) -> bool {
    match step {
        WorkerStep::FetchOriginal { key: k } => k@ == key,
        _ => false,
    }
}

pub open spec fn is_check(step: WorkerStep, key: Seq<char>) -> bool {
    match step {
        WorkerStep::CheckCompressed { key: k } => k@ == key,
        _ => false,
    }
}

pub open spec fn is_store(step: WorkerStep, key: Seq<char>, bytes: Seq<u8>) -> bool {
    match step {
        WorkerStep::StoreCompressed { key: k, bytes: b } => k@ == key && b@ == bytes,
        _ => false,
    }
}

/// The step publishes the compressed event of `id` and `compressed_id`.
pub open spec fn is_publish(step: WorkerStep, id: Seq<char>, compressed_id: Seq<char>) -> bool {
    match step {
        WorkerStep::PublishCompressed { exchange, routing_key, payload } => {
            &&& exchange@ == exchange_name()
            &&& routing_key@ == compressed_key()
            &&& payload@ == encode_utf8(compressed_json(id, compressed_id, compressed_status()))
        },
        _ => false,
    }
}

pub open spec fn is_finish(step: WorkerStep, d: Disposition) -> bool {
    match step {
        WorkerStep::Finish(x) => x == d,
        _ => false,
    }
}

/// The stage a job moves to, and the disposition it finishes with if it
/// finishes, on an outcome.
pub open spec fn transition(stage: Stage, outcome: StepOutcome) -> (Stage, Option<Disposition>) {
    match (stage, outcome) {
        (Stage::Fetching, StepOutcome::Fetched { content_length: Some(n) }) => if n
            < COMPRESSION_THRESHOLD {
            (Stage::Done, Some(Disposition::Ack))
        } else {
            (Stage::Checking, None)
        },
        (Stage::Fetching, StepOutcome::Fetched { content_length: None }) => (
            Stage::Done,
            Some(Disposition::Ack),
        ),
        (Stage::Checking, StepOutcome::CompressedFound) => (Stage::Done, Some(Disposition::Ack)),
        (Stage::Checking, StepOutcome::CompressedAbsent) => (Stage::Transcoding, None),
        (Stage::Checking, StepOutcome::CheckFailed) => (Stage::Done, Some(Disposition::Ack)),
        (Stage::Fetching, StepOutcome::FetchFailed) => (Stage::Done, Some(Disposition::Ack)),
        (Stage::Transcoding, StepOutcome::Transcoded { .. }) => (Stage::Storing, None),
        (Stage::Transcoding, StepOutcome::TranscodeFailed) => (Stage::Done, Some(Disposition::Ack)),
        (Stage::Storing, StepOutcome::Stored) => (Stage::Publishing, None),
        (Stage::Storing, StepOutcome::StoreFailed) => (Stage::Done, Some(Disposition::Ack)),
        (Stage::Publishing, StepOutcome::Published) => (Stage::Done, Some(Disposition::Ack)),
        (Stage::Publishing, StepOutcome::PublishFailed) => (Stage::Done, Some(Disposition::Ack)),
        _ => (stage, Some(Disposition::Abandon)),
    }
}

impl CompressionJob {
    /// Takes a delivery off the worker's queue. A body that is not an
    /// uploaded event is rejected; otherwise the original is fetched.
    pub fn start(content: &[u8]) -> (r: (Option<CompressionJob>, WorkerStep))
        ensures
            decoded_uploaded(content@) is None ==> r.0 is None && is_finish(r.1, Disposition::Reject),
            decoded_uploaded(content@) is Some ==> r.0 is Some && ({
                let job = r.0.unwrap();
                let (id, cid) = decoded_uploaded(content@).unwrap();
                &&& job.event.id@ == id
                &&& job.event.compressed_id@ == cid
                &&& job.stage == Stage::Fetching
                &&& is_fetch(r.1, id)
            }),
    {
        match MediaUploadedMessage::decode(content) {
            None => (None, WorkerStep::Finish(Disposition::Reject)),
            Some(event) => {
                let key = event.id.clone();
                (Some(CompressionJob { event, stage: Stage::Fetching }), WorkerStep::FetchOriginal { key })
            },
        }
    }

    /// Moves the job on by the outcome of its last step. Small originals
    /// are acknowledged untouched; for a large one the compressed key is
    /// checked first: when a compressed copy is already stored (a
    /// redelivery), the delivery is acknowledged with nothing written or
    /// published; otherwise the original is transcoded, stored under the
    /// compressed key and announced. Every failure after the event was read,
    /// an original of no declared size included, is acknowledged. An
    /// outcome the stage does not wait for changes nothing.
    pub fn advance(&mut self, outcome: StepOutcome) -> (r: WorkerStep)
        ensures
            final(self).event == old(self).event,
            final(self).stage == transition(old(self).stage, outcome).0,
            transition(old(self).stage, outcome).1 matches Some(d) ==> is_finish(r, d),
            old(self).stage == Stage::Fetching && transition(old(self).stage, outcome).0
                == Stage::Checking ==> is_check(r, old(self).event.compressed_id@),
            old(self).stage == Stage::Checking && transition(old(self).stage, outcome).0
                == Stage::Transcoding ==> r is Transcode,
            old(self).stage == Stage::Transcoding ==> (outcome matches StepOutcome::Transcoded {
                bytes,
            } ==> is_store(r, old(self).event.compressed_id@, bytes@)),
            outcome is Stored && old(self).stage == Stage::Storing ==> is_publish(
                r,
                old(self).event.id@,
                old(self).event.compressed_id@,
            ),
    {
        match (self.stage, outcome) {
            (Stage::Fetching, StepOutcome::Fetched { content_length: Some(n) }) => {
                if n < COMPRESSION_THRESHOLD {
                    self.stage = Stage::Done;
                    WorkerStep::Finish(Disposition::Ack)
                } else {
                    self.stage = Stage::Checking;
                    WorkerStep::CheckCompressed { key: self.event.compressed_id.clone() }
                }
            },
            (Stage::Checking, StepOutcome::CompressedAbsent) => {
                self.stage = Stage::Transcoding;
                WorkerStep::Transcode
            },
            (Stage::Transcoding, StepOutcome::Transcoded { bytes }) => {
                self.stage = Stage::Storing;
                WorkerStep::StoreCompressed { key: self.event.compressed_id.clone(), bytes }
            },
            (Stage::Storing, StepOutcome::Stored) => {
                self.stage = Stage::Publishing;
                let event = MediaCompressedMessage {
                    id: self.event.id.clone(),
                    compressed_id: self.event.compressed_id.clone(),
                    status: status_compressed(),
                };
                WorkerStep::PublishCompressed {
                    exchange: media_exchange(),
                    routing_key: compressed_routing_key(),
                    payload: event.encode(),
                }
            },
            (Stage::Fetching, StepOutcome::FetchFailed)
            | (Stage::Fetching, StepOutcome::Fetched { content_length: None })
            | (Stage::Checking, StepOutcome::CompressedFound)
            | (Stage::Checking, StepOutcome::CheckFailed)
            | (Stage::Transcoding, StepOutcome::TranscodeFailed)
            | (Stage::Storing, StepOutcome::StoreFailed)
            | (Stage::Publishing, StepOutcome::Published)
            | (Stage::Publishing, StepOutcome::PublishFailed) => {
                self.stage = Stage::Done;
                WorkerStep::Finish(Disposition::Ack)
            },
            _ => WorkerStep::Finish(Disposition::Abandon),
        }
    }
}

/// An original whose declared size is under the threshold is acknowledged
/// at once: no object is written and no event is published for it.
pub proof fn lemma_small_original_untouched(stage: Stage, content_length: i64)
    requires
        stage == Stage::Fetching,
        content_length < COMPRESSION_THRESHOLD,
    ensures
        transition(stage, StepOutcome::Fetched { content_length: Some(content_length) }) == (
            Stage::Done,
            Some(Disposition::Ack),
        ),
        forall|o: StepOutcome| #[trigger] transition(Stage::Done, o) == (Stage::Done, Some(Disposition::Abandon)),
{
}

/// A redelivered event whose compressed copy the first delivery already
/// stored is acknowledged at once: it stores and publishes nothing more, so
/// the object store and the broker end as after a single delivery.
pub proof fn lemma_redelivery_settles_without_effects(content_length: i64)
    requires
        content_length >= COMPRESSION_THRESHOLD,
    ensures
        transition(Stage::Fetching, StepOutcome::Fetched { content_length: Some(content_length) })
            == (Stage::Checking, None::<Disposition>),
        transition(Stage::Checking, StepOutcome::CompressedFound) == (
            Stage::Done,
            Some(Disposition::Ack),
        ),
{
}

/// Object store contents after a worker step: a store writes, or
/// overwrites, one key; no other step touches the store.
pub open spec fn objects_after(objects: Map<Seq<char>, Seq<u8>>, step: WorkerStep) -> Map<
    Seq<char>,
    Seq<u8>,
> {
    match step {
        WorkerStep::StoreCompressed { key, bytes } => objects.insert(key@, bytes@),
        _ => objects,
    }
}

/// A redelivered event repeats the same store: the object store ends as
/// after a single delivery.
pub proof fn lemma_repeated_store_idempotent(objects: Map<Seq<char>, Seq<u8>>, step: WorkerStep)
    ensures
        objects_after(objects_after(objects, step), step) == objects_after(objects, step),
{
    match step {
        WorkerStep::StoreCompressed { key, bytes } => {
            assert(objects.insert(key@, bytes@).insert(key@, bytes@) =~= objects.insert(
                key@,
                bytes@,
            ));
        },
        _ => {},
    }
}

} // verus!
