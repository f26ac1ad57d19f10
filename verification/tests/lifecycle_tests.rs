use magicer::decimal::u64_to_string;
use magicer::errors::InfrastructureError;
use magicer::health_check::HealthCheckUseCase;
use magicer::mmap::mapped_read_verdict;
use magicer::mmap::plan_mapping;
use magicer::mmap::mmap_attempt_strategy;
use magicer::mmap::FileReadStrategy;
use magicer::mmap::MappedReadVerdict;
use magicer::mmap::MmapPlan;
use magicer::temp_file_handler::generate_unique_filename;
use magicer::temp_file_handler::next_attempt_after_collision;
use magicer::temp_file_handler::FsTempStorageService;
use magicer::temp_file_handler::TempFileHandler;

#[test]
fn test_mmap_empty_file() {
    // a zero-length file yields a valid empty view, not an error and not
    // a mapping call
    assert_eq!(plan_mapping(0), MmapPlan::EmptyView);
}

#[test]
fn test_mmap_non_empty_file_maps_whole_length() {
    assert_eq!(plan_mapping(11), MmapPlan::MapWholeFile { len: 11 });
}

#[test]
fn test_mmap_fallback_rule() {
    assert_eq!(mmap_attempt_strategy(true, false), FileReadStrategy::UseMapping);
    assert_eq!(mmap_attempt_strategy(true, true), FileReadStrategy::UseMapping);
    assert_eq!(mmap_attempt_strategy(false, true), FileReadStrategy::BufferedFallback);
    assert_eq!(mmap_attempt_strategy(false, false), FileReadStrategy::Abort);
}

#[test]
fn test_fault_flag_condemns_mapped_read() {
    assert_eq!(mapped_read_verdict(false), MappedReadVerdict::Reliable);
    assert_eq!(
        mapped_read_verdict(true),
        MappedReadVerdict::FallBackToBufferedRead
    );
}

#[test]
fn test_temp_file_cleanup_exactly_once() {
    let mut handler = TempFileHandler::new("/tmp/spill");
    assert!(handler.path().starts_with("/tmp/spill/temp_"));
    assert!(handler.path().ends_with(".tmp"));
    assert!(handler.begin_cleanup());
    assert!(!handler.begin_cleanup());
    assert!(!handler.begin_cleanup());
}

#[test]
fn test_unique_filename_shape() {
    let name = generate_unique_filename();
    assert!(name.starts_with("temp_"));
    assert!(name.ends_with(".tmp"));
    let middle = &name["temp_".len()..name.len() - ".tmp".len()];
    let parts: Vec<&str> = middle.split('_').collect();
    assert_eq!(parts.len(), 3);
    assert!(parts[0].chars().all(|c| c.is_ascii_digit()));
    assert_eq!(parts[1].len(), 32);
    assert!(parts[1].chars().all(|c| c.is_ascii_hexdigit() && !c.is_ascii_uppercase()));
    assert_eq!(parts[2].len(), 8);
    assert!(parts[2].chars().all(|c| c.is_ascii_alphanumeric()));

    let other = generate_unique_filename();
    assert_ne!(name, other);
}

#[test]
fn test_collision_retry_is_bounded() {
    let mut attempts: u32 = 0;
    for _ in 0..9 {
        attempts = next_attempt_after_collision(attempts).unwrap();
    }
    assert_eq!(attempts, 9);
    // the tenth collision exhausts the bound: the operation gives up
    let failure = next_attempt_after_collision(attempts).unwrap_err();
    match failure {
        InfrastructureError::MaxRetriesExceeded(m) => {
            assert_eq!(m, "Failed to generate unique temp filename")
        }
        other => panic!("wrong failure kind: {:?}", other),
    }
}

#[test]
fn test_temp_storage_service_remembers_directory() {
    let service = FsTempStorageService::new("/tmp/spill".to_string());
    assert_eq!(service.temp_dir(), "/tmp/spill");
}

#[test]
fn test_spill_file_removed_after_completion() {
    let rt = tokio::runtime::Builder::new_current_thread()
        .enable_all()
        .build()
        .unwrap();
    rt.block_on(async {
        let dir = tempfile::tempdir().unwrap();
        let mut handler = TempFileHandler::new(&dir.path().to_string_lossy());
        let path = handler.path().to_string();
        tokio::fs::write(&path, b"spilled bytes").await.unwrap();
        assert!(tokio::fs::metadata(&path).await.is_ok());

        // the handler decides the deletion; performing it is one call
        if handler.begin_cleanup() {
            tokio::fs::remove_file(&path).await.unwrap();
        }
        assert!(tokio::fs::metadata(&path).await.is_err());
        // a second reckoning yields no second deletion
        assert!(!handler.begin_cleanup());
    });
}

#[test]
fn test_health_check_success() {
    let use_case = HealthCheckUseCase::new();
    let result = use_case.execute();
    assert!(result.is_ok());
}

#[test]
fn test_decimal_rendering() {
    assert_eq!(u64_to_string(0), "0");
    assert_eq!(u64_to_string(7), "7");
    assert_eq!(u64_to_string(12345), "12345");
    assert_eq!(u64_to_string(u64::MAX), "18446744073709551615");
}
