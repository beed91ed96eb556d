use media_pipeline::auth::{extract_jwt, session_token, AuthError, Claims, CookieHeader};
use media_pipeline::bus::Disposition;
use media_pipeline::events::{MediaCompressedMessage, MediaUploadedMessage};
use media_pipeline::ingest::{classify_field, FormField, Message, UploadForm};
use media_pipeline::reconcile::{handle_delivery, plan_reconciliation, ReconcileAction};
use media_pipeline::store::{contains_str, MediaRecord, MediaTable, Mutation, Query, StoreError};
use media_pipeline::transcode::{
    jpeg_settings, resize_for_encoding, target_dimensions, ChromaSubsampling,
};
use media_pipeline::worker::{CompressionJob, Stage, StepOutcome, WorkerStep, COMPRESSION_THRESHOLD};

fn uploaded(id: &str, cid: &str) -> Vec<u8> {
    MediaUploadedMessage { id: id.to_string(), compressed_id: cid.to_string() }.encode()
}

fn record(media_id: &str, status: &str) -> MediaRecord {
    MediaRecord {
        id: 0,
        user_id: 7,
        media_id: media_id.to_string(),
        media_compressed_id: format!("{}-c", media_id),
        status: status.to_string(),
    }
}

fn png_bytes(width: u32, height: u32) -> Vec<u8> {
    let img = image::RgbImage::from_fn(width, height, |x, y| image::Rgb([(x % 256) as u8, (y % 256) as u8, 128]));
    let mut out = std::io::Cursor::new(Vec::new());
    img.write_to(&mut out, image::ImageFormat::Png).unwrap();
    out.into_inner()
}

#[test]
fn jwt_found_between_cookies() {
    assert_eq!(extract_jwt("a=1; jwt=abc.def; b=2"), Some("abc.def"));
}

#[test]
fn jwt_at_end_of_string() {
    assert_eq!(extract_jwt("theme=dark; jwt=xyz"), Some("xyz"));
}

#[test]
fn jwt_missing() {
    assert_eq!(extract_jwt("theme=dark; session=1"), None);
    assert_eq!(extract_jwt(""), None);
}

#[test]
fn jwt_first_occurrence_and_empty_value() {
    assert_eq!(extract_jwt("jwt=;jwt=second"), Some(""));
    assert_eq!(extract_jwt("jwt=one;jwt=two"), Some("one"));
}

#[test]
fn session_token_cases() {
    assert_eq!(session_token(&CookieHeader::Missing), Err(AuthError::MissingToken));
    assert_eq!(session_token(&CookieHeader::Unreadable), Err(AuthError::InvalidToken));
    assert_eq!(session_token(&CookieHeader::Text("a=b".to_string())), Err(AuthError::MissingToken));
    assert_eq!(session_token(&CookieHeader::Text("jwt=t0k; x=1".to_string())), Ok("t0k".to_string()));
}

#[test]
fn auth_error_replies() {
    assert_eq!(AuthError::InvalidToken.message(), "Invalid token");
    assert_eq!(AuthError::MissingToken.message(), "Missing token");
    assert_eq!(AuthError::MissingToken.status_code(), 400);
}

#[test]
fn claims_description() {
    assert_eq!(Claims { user_id: 42, exp: 1700000000 }.describe(), "User id: 42\nExpires: 1700000000");
    assert_eq!(Claims { user_id: -5, exp: 0 }.describe(), "User id: -5\nExpires: 0");
}

#[test]
fn uploaded_event_wire_format() {
    let bytes = uploaded("a1", "b2");
    assert_eq!(String::from_utf8(bytes).unwrap(), r#"{"id":"a1","compressed_id":"b2"}"#);
}

#[test]
fn compressed_event_wire_format_escapes() {
    let m = MediaCompressedMessage { id: "q\"x".to_string(), compressed_id: "c".to_string(), status: "compressed".to_string() };
    assert_eq!(String::from_utf8(m.encode()).unwrap(), r#"{"id":"q\"x","compressed_id":"c","status":"compressed"}"#);
}

#[test]
fn uploaded_event_round_trip() {
    let m = MediaUploadedMessage::decode(&uploaded("x\\y", "z")).unwrap();
    assert_eq!(m.id, "x\\y");
    assert_eq!(m.compressed_id, "z");
}

#[test]
fn decode_rejects_malformed_and_incomplete() {
    assert!(MediaUploadedMessage::decode(b"not json").is_none());
    assert!(MediaUploadedMessage::decode(br#"{"id":"a"}"#).is_none());
    assert!(MediaCompressedMessage::decode(br#"{"id":"a","compressed_id":"b"}"#).is_none());
    let m = MediaUploadedMessage::decode(br#"{"compressed_id":"b","id":"a","extra":"e"}"#).unwrap();
    assert_eq!((m.id.as_str(), m.compressed_id.as_str()), ("a", "b"));
    let m = MediaUploadedMessage::decode(br#"{"id":"a","compressed_id":"b","size":1}"#).unwrap();
    assert_eq!((m.id.as_str(), m.compressed_id.as_str()), ("a", "b"));
    assert!(MediaUploadedMessage::decode(br#"{"id":1,"compressed_id":"b"}"#).is_none());
}

#[test]
fn target_dimensions_examples() {
    assert_eq!(target_dimensions(4000, 3000), Some((1080, 810)));
    assert_eq!(target_dimensions(7, 5), Some((1080, 771)));
    assert_eq!(target_dimensions(8, 1), Some((1080, 135)));
    assert_eq!(target_dimensions(16, 1), Some((1080, 68)));
    assert_eq!(target_dimensions(500, 500), Some((1080, 1080)));
    assert_eq!(target_dimensions(0, 10), None);
    assert_eq!(target_dimensions(1, u32::MAX), None);
}

#[test]
fn jpeg_settings_values() {
    let s = jpeg_settings();
    assert_eq!(s.quality, 80);
    assert_eq!(s.subsampling, ChromaSubsampling::Sub2x1);
}

#[test]
fn resize_small_png_to_target_width() {
    let frame = resize_for_encoding(png_bytes(40, 30)).unwrap();
    assert_eq!((frame.width, frame.height), (1080, 810));
    assert_eq!(frame.pixels.len(), 1080 * 810 * 3);
    assert_eq!(frame.pitch(), 1080 * 3);
}

#[test]
fn resize_rejects_garbage() {
    let err = resize_for_encoding(vec![1, 2, 3, 4]).err().unwrap();
    assert!(err.message().starts_with("Failed to map image to dynamic image: "));
    let err = resize_for_encoding(Vec::new()).err().unwrap();
    assert!(err.message().starts_with("Failed to map image to dynamic image: "));
}

#[test]
fn worker_rejects_malformed_delivery() {
    let (job, step) = CompressionJob::start(b"{not json");
    assert!(job.is_none());
    assert!(matches!(step, WorkerStep::Finish(Disposition::Reject)));
}

#[test]
fn worker_acks_small_original_untouched() {
    let (job, step) = CompressionJob::start(&uploaded("m1", "c1"));
    let mut job = job.unwrap();
    match step {
        WorkerStep::FetchOriginal { key } => assert_eq!(key, "m1"),
        _ => panic!("expected a fetch"),
    }
    let step = job.advance(StepOutcome::Fetched { content_length: Some(COMPRESSION_THRESHOLD - 1) });
    assert!(matches!(step, WorkerStep::Finish(Disposition::Ack)));
    assert_eq!(job.stage, Stage::Done);
}

#[test]
fn worker_acks_unsized_original() {
    let mut job = CompressionJob::start(&uploaded("m1", "c1")).0.unwrap();
    let step = job.advance(StepOutcome::Fetched { content_length: None });
    assert!(matches!(step, WorkerStep::Finish(Disposition::Ack)));
    assert_eq!(job.stage, Stage::Done);
}

#[test]
fn worker_acks_redelivery_of_compressed_original() {
    let mut job = CompressionJob::start(&uploaded("m1", "c1")).0.unwrap();
    match job.advance(StepOutcome::Fetched { content_length: Some(COMPRESSION_THRESHOLD) }) {
        WorkerStep::CheckCompressed { key } => assert_eq!(key, "c1"),
        _ => panic!("expected a check"),
    }
    assert!(matches!(job.advance(StepOutcome::CompressedFound), WorkerStep::Finish(Disposition::Ack)));
    assert_eq!(job.stage, Stage::Done);
}

#[test]
fn worker_acks_after_failures() {
    let mut job = CompressionJob::start(&uploaded("m1", "c1")).0.unwrap();
    assert!(matches!(job.advance(StepOutcome::FetchFailed), WorkerStep::Finish(Disposition::Ack)));
    let mut job = CompressionJob::start(&uploaded("m1", "c1")).0.unwrap();
    job.advance(StepOutcome::Fetched { content_length: Some(COMPRESSION_THRESHOLD) });
    assert!(matches!(job.advance(StepOutcome::CheckFailed), WorkerStep::Finish(Disposition::Ack)));
    let mut job = CompressionJob::start(&uploaded("m1", "c1")).0.unwrap();
    job.advance(StepOutcome::Fetched { content_length: Some(COMPRESSION_THRESHOLD) });
    job.advance(StepOutcome::CompressedAbsent);
    assert!(matches!(job.advance(StepOutcome::TranscodeFailed), WorkerStep::Finish(Disposition::Ack)));
    let mut job = CompressionJob::start(&uploaded("m1", "c1")).0.unwrap();
    job.advance(StepOutcome::Fetched { content_length: Some(COMPRESSION_THRESHOLD) });
    job.advance(StepOutcome::CompressedAbsent);
    job.advance(StepOutcome::Transcoded { bytes: vec![1] });
    assert!(matches!(job.advance(StepOutcome::StoreFailed), WorkerStep::Finish(Disposition::Ack)));
}

#[test]
fn worker_ignores_out_of_place_outcome() {
    let mut job = CompressionJob::start(&uploaded("m1", "c1")).0.unwrap();
    assert!(matches!(job.advance(StepOutcome::Stored), WorkerStep::Finish(Disposition::Abandon)));
    assert_eq!(job.stage, Stage::Fetching);
}

fn run_large(content: &[u8]) -> Vec<WorkerStep> {
    let (job, first) = CompressionJob::start(content);
    let mut job = job.unwrap();
    let mut steps = vec![first];
    steps.push(job.advance(StepOutcome::Fetched { content_length: Some(10 * 1024 * 1024) }));
    steps.push(job.advance(StepOutcome::CompressedAbsent));
    steps.push(job.advance(StepOutcome::Transcoded { bytes: vec![0xff, 0xd8, 0xff] }));
    steps.push(job.advance(StepOutcome::Stored));
    steps.push(job.advance(StepOutcome::Published));
    steps
}

#[test]
fn worker_compresses_large_original() {
    let steps = run_large(&uploaded("m1", "c1"));
    assert!(matches!(steps[1], WorkerStep::CheckCompressed { .. }));
    assert!(matches!(steps[2], WorkerStep::Transcode));
    match &steps[3] {
        WorkerStep::StoreCompressed { key, bytes } => {
            assert_eq!(key, "c1");
            assert_eq!(bytes, &vec![0xff, 0xd8, 0xff]);
        }
        _ => panic!("expected a store"),
    }
    match &steps[4] {
        WorkerStep::PublishCompressed { exchange, routing_key, payload } => {
            assert_eq!(exchange, "media_events");
            assert_eq!(routing_key, "media.compressed");
            let m = MediaCompressedMessage::decode(payload).unwrap();
            assert_eq!((m.id.as_str(), m.compressed_id.as_str(), m.status.as_str()), ("m1", "c1", "compressed"));
        }
        _ => panic!("expected a publish"),
    }
    assert!(matches!(steps[5], WorkerStep::Finish(Disposition::Ack)));
}

#[test]
fn duplicate_delivery_repeats_same_effects() {
    let content = uploaded("m1", "c1");
    let first = run_large(&content);
    let effects = first.iter().filter(|s| matches!(s, WorkerStep::StoreCompressed { .. } | WorkerStep::PublishCompressed { .. })).count();
    assert_eq!(effects, 2);
    // The redelivery finds the compressed copy stored and settles at once.
    let (job, _) = CompressionJob::start(&content);
    let mut job = job.unwrap();
    assert!(matches!(job.advance(StepOutcome::Fetched { content_length: Some(10 * 1024 * 1024) }), WorkerStep::CheckCompressed { .. }));
    assert!(matches!(job.advance(StepOutcome::CompressedFound), WorkerStep::Finish(Disposition::Ack)));
    let mut db = MediaTable::new();
    Mutation::create_post(&mut db, record("m1", "uploaded")).unwrap();
    let p = match &first[4] {
        WorkerStep::PublishCompressed { payload, .. } => payload.clone(),
        _ => panic!("expected a publish"),
    };
    handle_delivery(&mut db, "media.compressed", &p);
    let once: Vec<String> = db.records.iter().map(|r| r.status.clone()).collect();
    handle_delivery(&mut db, "media.compressed", &p);
    let twice: Vec<String> = db.records.iter().map(|r| r.status.clone()).collect();
    assert_eq!(once, twice);
}

#[test]
fn store_assigns_ascending_ids() {
    let mut db = MediaTable::new();
    let a = Mutation::create_post(&mut db, record("aaa", "uploaded")).unwrap();
    let b = Mutation::create_post(&mut db, record("bbb", "uploaded")).unwrap();
    assert_eq!((a.id, b.id), (1, 2));
    assert_eq!(db.records.len(), 2);
}

#[test]
fn store_ids_exhausted() {
    let mut db = MediaTable::new();
    db.records.push(MediaRecord { id: i32::MAX, ..record("z", "uploaded") });
    assert_eq!(Mutation::create_post(&mut db, record("y", "uploaded")).err(), Some(StoreError::IdsExhausted));
}

#[test]
fn store_lookup_by_containment() {
    let mut db = MediaTable::new();
    Mutation::create_post(&mut db, record("prefix-abc-suffix", "uploaded")).unwrap();
    Mutation::create_post(&mut db, record("abc", "uploaded")).unwrap();
    let found = Query::find_post_by_media_id(&db, "abc").unwrap();
    assert_eq!(found.id, 1);
    assert!(Query::find_post_by_media_id(&db, "zzz").is_none());
    assert!(contains_str("hello", ""));
    assert!(!contains_str("he", "hello"));
}

#[test]
fn store_update_and_not_found() {
    let mut db = MediaTable::new();
    Mutation::create_post(&mut db, record("abc", "uploaded")).unwrap();
    let r = Mutation::update_user_media_by_id(&mut db, "abc", "compressed".to_string()).unwrap();
    assert_eq!(r.status, "compressed");
    assert_eq!(db.records[0].status, "compressed");
    assert_eq!(Mutation::update_user_media_by_id(&mut db, "nope", "x".to_string()).err(), Some(StoreError::NotFound));
}

#[test]
fn store_pages() {
    let mut db = MediaTable::new();
    for i in 0..5 {
        Mutation::create_post(&mut db, record(&format!("m{}", i), "uploaded")).unwrap();
    }
    let (page, n) = Query::find_posts_in_page(&db, 2, 2);
    assert_eq!(n, 3);
    assert_eq!(page.iter().map(|r| r.id).collect::<Vec<_>>(), vec![3, 4]);
    let (page, _) = Query::find_posts_in_page(&db, 3, 2);
    assert_eq!(page.iter().map(|r| r.id).collect::<Vec<_>>(), vec![5]);
    let (page, _) = Query::find_posts_in_page(&db, 4, 2);
    assert!(page.is_empty());
    let (_, n) = Query::find_posts_in_page(&MediaTable::new(), 1, 3);
    assert_eq!(n, 0);
}

#[test]
fn reconcile_unmatched_event_is_acked() {
    let mut db = MediaTable::new();
    Mutation::create_post(&mut db, record("abc", "uploaded")).unwrap();
    let payload = MediaCompressedMessage { id: "other".to_string(), compressed_id: "c".to_string(), status: "compressed".to_string() }.encode();
    assert_eq!(handle_delivery(&mut db, "media.compressed", &payload), Disposition::Ack);
    assert_eq!(db.records[0].status, "uploaded");
}

#[test]
fn reconcile_rejects_malformed_and_ignores_other_keys() {
    let mut db = MediaTable::new();
    assert_eq!(handle_delivery(&mut db, "media.compressed", b"garbage"), Disposition::Reject);
    assert_eq!(handle_delivery(&mut db, "media.uploaded", b"garbage"), Disposition::Reject);
    assert_eq!(handle_delivery(&mut db, "media.uploaded", &uploaded("a", "b")), Disposition::Ack);
    let (action, d) = plan_reconciliation("media.uploaded", &uploaded("a", "b"));
    assert!(matches!(action, ReconcileAction::Ignore));
    assert_eq!(d, Disposition::Ack);
}

#[test]
fn form_fields_are_classified() {
    assert_eq!(classify_field(Some("description"), None).unwrap(), FormField::Description);
    assert_eq!(classify_field(Some("image"), Some("image/png")).unwrap(), FormField::Image);
    assert_eq!(classify_field(Some("image"), Some("image/jpeg")).unwrap(), FormField::Image);
    assert_eq!(classify_field(Some("image"), Some("image/gif")).err().unwrap().message(), "Invalid image type. Only JPG and PNG are allowed.");
    assert_eq!(classify_field(Some("image"), None).err().unwrap().message(), "content type not found");
    assert_eq!(classify_field(Some("other"), None).unwrap(), FormField::Other);
    assert_eq!(classify_field(None, Some("image/png")).unwrap(), FormField::Other);
}

#[test]
fn form_validation_errors() {
    let mut form = UploadForm::new();
    assert_eq!(form.validate().err().unwrap().message(), "Missing description");
    form.description = "d".to_string();
    assert_eq!(form.validate().err().unwrap().message(), "Missing image file.");
    form.image = Some(vec![0; 3000]);
    assert_eq!(form.validate().unwrap(), 3000);
    form.description.clear();
    assert!(form.accept(1).is_err());
}

#[test]
fn health_message() {
    assert_eq!(Message::health().message, "Hello, Axum!");
}

#[test]
fn end_to_end_large_upload() {
    let mut form = UploadForm::new();
    form.description = "test".to_string();
    form.image = Some(vec![0; 10 * 1024 * 1024]);
    let accepted = form.accept(9).unwrap();
    assert_eq!(accepted.media_id.len(), 36);
    assert_ne!(accepted.media_id, accepted.compressed_id);
    assert_eq!(accepted.confirmation, "Uploaded image with description: test and Size 10240 kb");
    let mut db = MediaTable::new();
    let created = Mutation::create_post(&mut db, accepted.record).unwrap();
    assert_eq!(created.status, "uploaded");
    let event = MediaUploadedMessage::decode(&accepted.event).unwrap();
    assert_eq!(event.id, accepted.media_id);
    assert_eq!(target_dimensions(4000, 3000), Some((1080, 810)));
    let (job, _) = CompressionJob::start(&accepted.event);
    let mut job = job.unwrap();
    assert!(matches!(job.advance(StepOutcome::Fetched { content_length: Some(10 * 1024 * 1024) }), WorkerStep::CheckCompressed { .. }));
    assert!(matches!(job.advance(StepOutcome::CompressedAbsent), WorkerStep::Transcode));
    match job.advance(StepOutcome::Transcoded { bytes: vec![9] }) {
        WorkerStep::StoreCompressed { key, .. } => assert_eq!(key, accepted.compressed_id),
        _ => panic!("expected a store"),
    }
    let payload = match job.advance(StepOutcome::Stored) {
        WorkerStep::PublishCompressed { payload, .. } => payload,
        _ => panic!("expected a publish"),
    };
    assert_eq!(MediaCompressedMessage::decode(&payload).unwrap().status, "compressed");
    assert_eq!(handle_delivery(&mut db, "media.compressed", &payload), Disposition::Ack);
    assert_eq!(db.records[0].status, "compressed");
}

#[test]
fn event_encoding_escapes_control_characters() {
    let m = MediaUploadedMessage { id: "a\tb\u{1}".to_string(), compressed_id: "\\\n".to_string() };
    assert_eq!(String::from_utf8(m.encode()).unwrap(), r#"{"id":"a\tb\u0001","compressed_id":"\\\n"}"#);
}

#[test]
fn accepted_keys_differ() {
    let mut form = UploadForm::new();
    form.description = "d".to_string();
    form.image = Some(vec![1, 2, 3]);
    let a = form.accept(1).unwrap();
    assert_ne!(a.media_id, a.compressed_id);
    assert_eq!(a.compressed_id.len(), 36);
}
