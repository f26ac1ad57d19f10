use std::time::Duration;
use std::time::Instant;

use magicer::analyze_content::settle_engine_call;
use magicer::analyze_content::EngineCallOutcome;
use magicer::errors::ApplicationError;
use magicer::errors::MagicError;
use magicer::filename::WindowsCompatibleFilename;
use magicer::mime_type::MimeType;
use magicer::request_id::RequestId;

#[test]
fn test_analyze_content_timeout() {
    let rt = tokio::runtime::Builder::new_current_thread()
        .enable_time()
        .build()
        .unwrap();
    let deadline = Duration::from_millis(100);
    let started = Instant::now();
    let outcome = rt.block_on(async {
        let slow_engine = async {
            tokio::time::sleep(Duration::from_secs(5)).await;
            Ok::<(MimeType, String), MagicError>((
                MimeType::try_from("application/pdf").unwrap(),
                "PDF document".to_string(),
            ))
        };
        match tokio::time::timeout(deadline, slow_engine).await {
            Ok(engine_result) => EngineCallOutcome::Finished(engine_result),
            Err(_) => EngineCallOutcome::DeadlineExceeded,
        }
    });
    let elapsed = started.elapsed();

    // the awaiting side observed the deadline within a bounded margin of
    // the configured duration, not after the engine finished
    assert!(elapsed < deadline + Duration::from_millis(900));

    let request_id = RequestId::generate();
    let filename = WindowsCompatibleFilename::new("test.pdf").unwrap();
    let result = settle_engine_call(request_id, filename, outcome);
    assert!(result.is_err());
    let err = result.unwrap_err();
    assert!(matches!(err, ApplicationError::Timeout));
    assert_eq!(err.status_code(), 504);
}

#[test]
fn test_call_inside_deadline_is_not_a_timeout() {
    let rt = tokio::runtime::Builder::new_current_thread()
        .enable_time()
        .build()
        .unwrap();
    let outcome = rt.block_on(async {
        let engine = async {
            Ok::<(MimeType, String), MagicError>((
                MimeType::try_from("application/pdf").unwrap(),
                "PDF document".to_string(),
            ))
        };
        match tokio::time::timeout(Duration::from_secs(5), engine).await {
            Ok(engine_result) => EngineCallOutcome::Finished(engine_result),
            Err(_) => EngineCallOutcome::DeadlineExceeded,
        }
    });
    let request_id = RequestId::generate();
    let filename = WindowsCompatibleFilename::new("test.pdf").unwrap();
    let result = settle_engine_call(request_id, filename, outcome).unwrap();
    assert_eq!(result.mime_type().as_str(), "application/pdf");
}
