use vstd::prelude::*;
use crate::bus::{Disposition, compressed_key, compressed_routing_key, compressed_status, status_compressed};
use crate::events::{MediaCompressedMessage, decoded_compressed, is_json_object, json_object_entries};
use crate::store::{
    MediaTable, Mutation, RecordView, first_match, lemma_lookup_is_first, lookup, matches_media_id, no_match, set_status,
};

verus! {

/// What the reconciliation consumer does with a delivery.
pub enum ReconcileAction {
    /// Set the status of the record whose media id contains `media_id`.
    UpdateStatus { media_id: String, status: String },
    /// Nothing to persist.
    Ignore,
}

pub open spec fn is_update(a: ReconcileAction, media_id: Seq<char>, status: Seq<char>) -> bool {
    match a {
        ReconcileAction::UpdateStatus { media_id: m, status: s } => m@ == media_id && s@ == status,
        _ => false,
    }
}

/// Decides what a delivery on the reconciliation queue asks for. Only
/// compressed events are acted on; a well-formed event under another
/// routing key is acknowledged and ignored; a body that is not a JSON
/// object, or a compressed event that does not decode, is rejected.
pub fn plan_reconciliation(routing_key: &str, content: &[u8]) -> (r: (ReconcileAction, Disposition))
    ensures
        routing_key@ != compressed_key() ==> r.0 is Ignore,
        routing_key@ != compressed_key() && json_object_entries(content@) is Some ==> r.1
            == Disposition::Ack,
        routing_key@ != compressed_key() && json_object_entries(content@) is None ==> r.1
            == Disposition::Reject,
        routing_key@ == compressed_key() && decoded_compressed(content@) is None ==> r.0 is Ignore
            && r.1 == Disposition::Reject,
        routing_key@ == compressed_key() && decoded_compressed(content@) is Some ==> is_update(
            r.0,
            decoded_compressed(content@).unwrap().0,
            compressed_status(),
        ) && r.1 == Disposition::Ack,
{
    let key = routing_key.to_owned();
    if key != compressed_routing_key() {
        if is_json_object(content) {
            return (ReconcileAction::Ignore, Disposition::Ack);
        } else {
            return (ReconcileAction::Ignore, Disposition::Reject);
        }
    }
    match MediaCompressedMessage::decode(content) {
        None => (ReconcileAction::Ignore, Disposition::Reject),
        Some(event) => (
            ReconcileAction::UpdateStatus { media_id: event.id, status: status_compressed() },
            Disposition::Ack,
        ),
    }
}

/// Handles one delivery against the media table: a compressed event marks
/// the matching record compressed. A missing record is no failure: the
/// delivery is still acknowledged and the table left as it was.
pub fn handle_delivery(db: &mut MediaTable, routing_key: &str, content: &[u8]) -> (r: Disposition)
    requires
        old(db).wf(),
    ensures
        final(db).wf(),
        routing_key@ != compressed_key() ==> final(db)@ == old(db)@,
        routing_key@ != compressed_key() && json_object_entries(content@) is Some ==> r
            == Disposition::Ack,
        routing_key@ != compressed_key() && json_object_entries(content@) is None ==> r
            == Disposition::Reject,
        routing_key@ == compressed_key() && decoded_compressed(content@) is None ==> r
            == Disposition::Reject && final(db)@ == old(db)@,
        routing_key@ == compressed_key() && decoded_compressed(content@) is Some ==> r
            == Disposition::Ack && final(db)@ == set_status(
            old(db)@,
            decoded_compressed(content@).unwrap().0,
            compressed_status(),
        ),
        routing_key@ == compressed_key() && decoded_compressed(content@) is Some && no_match(
            old(db)@,
            decoded_compressed(content@).unwrap().0,
        ) ==> r == Disposition::Ack && final(db)@ == old(db)@,
{
    let (action, disposition) = plan_reconciliation(routing_key, content);
    match action {
        ReconcileAction::UpdateStatus { media_id, status } => {
            let _ = Mutation::update_user_media_by_id(db, media_id.as_str(), status);
        },
        ReconcileAction::Ignore => {},
    }
    disposition
}

/// Setting a status only changes the status field, so a lookup by media id
/// finds the same record afterwards.
proof fn lemma_lookup_after_set_status(rs: Seq<RecordView>, media_id: Seq<char>, status: Seq<char>)
    ensures
        lookup(set_status(rs, media_id, status), media_id) == lookup(rs, media_id),
{
    lemma_lookup_is_first(rs, media_id);
    let rs2 = set_status(rs, media_id, status);
    assert(rs2.len() == rs.len());
    assert forall|j: int| #![trigger rs2[j]] #![trigger rs[j]] 0 <= j < rs.len() implies matches_media_id(rs2[j], media_id)
        == matches_media_id(rs[j], media_id) by {
        assert(rs2[j].media_id == rs[j].media_id);
    }
    assert forall|k: int| first_match(rs2, media_id, k) == first_match(rs, media_id, k) by {
        if 0 <= k < rs.len() {
            assert(matches_media_id(rs2[k], media_id) == matches_media_id(rs[k], media_id));
        }
    }
    assert(no_match(rs2, media_id) == no_match(rs, media_id));
}

/// Handling the same compressed event twice leaves the records as handling
/// it once does.
pub proof fn lemma_status_update_idempotent(rs: Seq<RecordView>, media_id: Seq<char>, status: Seq<char>)
    ensures
        set_status(set_status(rs, media_id, status), media_id, status) == set_status(
            rs,
            media_id,
            status,
        ),
{
    lemma_lookup_after_set_status(rs, media_id, status);
    lemma_lookup_is_first(rs, media_id);
    let rs2 = set_status(rs, media_id, status);
    match lookup(rs, media_id) {
        Some(i) => {
            assert(rs2.update(i, rs2[i].with_status(status)) =~= rs2);
        },
        None => {},
    }
}

} // verus!
