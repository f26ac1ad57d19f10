use magicer::analyze_content::chunk_read_failed;
use magicer::analyze_content::reject_empty;
use magicer::analyze_content::settle_engine_call;
use magicer::analyze_content::spill_failed;
use magicer::analyze_content::ContentIngest;
use magicer::analyze_content::EngineCallOutcome;
use magicer::analyze_content::IngestFinish;
use magicer::analyze_content::SpillFailure;
use magicer::errors::ApplicationError;
use magicer::errors::MagicError;
use magicer::fake_magic_repository::FakeMagicRepository;
use magicer::filename::WindowsCompatibleFilename;
use magicer::mime_type::MimeType;
use magicer::request_id::RequestId;

fn classify_buffer(data: &[u8]) -> (MimeType, String) {
    let repo = FakeMagicRepository::new().unwrap();
    repo.analyze_buffer(data, "any").unwrap()
}

#[test]
fn test_small_payload_never_creates_spill_file() {
    let mut ingest = ContentIngest::new(100, 0);
    for chunk in [&b"abc"[..], &b"defg"[..], &b"h"[..]] {
        assert!(!ingest.crosses_threshold(chunk));
        ingest.absorb_chunk(chunk);
    }
    assert_eq!(ingest.spill_count(), 0);
    assert!(!ingest.spilled());
    assert_eq!(ingest.finish_plan(), IngestFinish::ClassifyBuffer);
    assert_eq!(ingest.into_buffer(), b"abcdefgh".to_vec());
}

#[test]
fn test_crossing_payload_creates_exactly_one_spill() {
    let mut ingest = ContentIngest::new(4, 0);
    ingest.absorb_chunk(b"abc");
    let chunk = b"defgh";
    assert!(ingest.crosses_threshold(chunk));
    assert!(ingest.check_capacity(100).is_ok());
    let prefix = ingest.begin_spill(chunk);
    assert_eq!(prefix, b"abcdefgh".to_vec());
    assert_eq!(ingest.spill_count(), 1);
    // later chunks go straight to the file and begin no second spill
    let late = b"xyz";
    assert!(!ingest.crosses_threshold(late));
    ingest.note_spilled_chunk(late);
    assert_eq!(ingest.spill_count(), 1);
    assert_eq!(ingest.finish_plan(), IngestFinish::ClassifySpill);
}

#[test]
fn test_capacity_refusal_prevents_spill() {
    let ingest = ContentIngest::new(4, 1024);
    let refused = ingest.check_capacity(12);
    assert!(refused.is_err());
    match refused.unwrap_err() {
        ApplicationError::InternalError(m) => {
            assert_eq!(m, "Insufficient storage space for analysis")
        }
        other => panic!("wrong failure kind: {:?}", other),
    }
    assert_eq!(ingest.spill_count(), 0);
}

#[test]
fn test_empty_stream_is_rejected() {
    let ingest = ContentIngest::new(100, 0);
    assert_eq!(ingest.finish_plan(), IngestFinish::RejectEmpty);
}

#[test]
fn test_analyze_content_empty_rejected() {
    let result = reject_empty(b"");
    assert!(result.is_err());
    let err = result.unwrap_err();
    assert!(matches!(err, ApplicationError::BadRequest(_)));
    assert!(reject_empty(b"some data").is_ok());
}

#[test]
fn test_pdf_scenario_in_memory() {
    // filename test.pdf, body %PDF-1.4, threshold far above the body size
    let mut ingest = ContentIngest::new(10 * 1024 * 1024, 0);
    let body = b"%PDF-1.4";
    assert!(!ingest.crosses_threshold(body));
    ingest.absorb_chunk(body);
    assert_eq!(ingest.spill_count(), 0);
    assert_eq!(ingest.finish_plan(), IngestFinish::ClassifyBuffer);
    let buffer = ingest.into_buffer();

    let (mime, description) = classify_buffer(&buffer);
    let request_id = RequestId::generate();
    let filename = WindowsCompatibleFilename::new("test.pdf").unwrap();
    let outcome = EngineCallOutcome::Finished(Ok((mime, description)));
    let result = settle_engine_call(request_id, filename, outcome).unwrap();
    assert_eq!(result.mime_type().as_str(), "application/pdf");
    assert_eq!(result.description(), "PDF document");
}

#[test]
fn test_zero_threshold_exercises_spill_and_classifies() {
    // threshold forced to zero: the very first chunk spills
    let mut ingest = ContentIngest::new(0, 0);
    let body = b"%PDF-1.4";
    assert!(ingest.crosses_threshold(body));
    assert!(ingest.check_capacity(1).is_ok());
    let spill_contents = ingest.begin_spill(body);
    assert_eq!(ingest.spill_count(), 1);
    assert_eq!(ingest.finish_plan(), IngestFinish::ClassifySpill);

    // the spill file holds exactly the payload; classifying it yields
    // the same answer as the in-memory path
    assert_eq!(spill_contents, body.to_vec());
    let (mime, _) = classify_buffer(&spill_contents);
    assert_eq!(mime.as_str(), "application/pdf");
}

#[test]
fn test_deadline_exceeded_settles_to_timeout() {
    let request_id = RequestId::generate();
    let filename = WindowsCompatibleFilename::new("slow.bin").unwrap();
    let result = settle_engine_call(request_id, filename, EngineCallOutcome::DeadlineExceeded);
    assert!(matches!(result.unwrap_err(), ApplicationError::Timeout));
}

#[test]
fn test_analyze_content_repository_failure() {
    let request_id = RequestId::generate();
    let filename = WindowsCompatibleFilename::new("test.pdf").unwrap();
    let outcome =
        EngineCallOutcome::Finished(Err(MagicError::AnalysisFailed("forced failure".to_string())));
    let result = settle_engine_call(request_id, filename, outcome);
    assert!(result.is_err());
    let err = result.unwrap_err();
    assert!(err.message().contains("Analysis failed: forced failure"));
}

#[test]
fn test_spill_failure_messages() {
    let e = spill_failed(SpillFailure::Create, "disk on fire");
    assert_eq!(e.message(), "Internal Error: Failed to create temp file: disk on fire");
    let e = spill_failed(SpillFailure::Sync, "gone");
    assert_eq!(e.message(), "Internal Error: Failed to sync temp file: gone");
    let e = chunk_read_failed("connection reset");
    assert_eq!(e.status_code(), 400);
}

#[test]
fn test_spill_path_reproduces_every_byte_in_order() {
    let payload: Vec<u8> = (0u8..=255).cycle().take(1000).collect();
    let chunks: Vec<&[u8]> = payload.chunks(64).collect();

    let mut ingest = ContentIngest::new(200, 0);
    let mut written: Vec<u8> = Vec::new();
    for chunk in chunks {
        if ingest.crosses_threshold(chunk) {
            ingest.check_capacity(1).unwrap();
            let prefix = ingest.begin_spill(chunk);
            written.extend_from_slice(&prefix);
        } else if ingest.spilled() {
            written.extend_from_slice(chunk);
            ingest.note_spilled_chunk(chunk);
        } else {
            ingest.absorb_chunk(chunk);
        }
    }
    assert_eq!(ingest.finish_plan(), IngestFinish::ClassifySpill);
    assert_eq!(ingest.spill_count(), 1);
    // the spill file receives exactly the payload, in order
    assert_eq!(written, payload);
}
