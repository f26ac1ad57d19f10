use magicer::analyze_content::settle_engine_call;
use magicer::analyze_content::EngineCallOutcome;
use magicer::analyze_path::AnalyzePathUseCase;
use magicer::fake_magic_repository::FakeMagicRepository;
use magicer::filename::WindowsCompatibleFilename;
use magicer::request_id::RequestId;
use magicer::analyze_path::FileOpenError;
use magicer::errors::ApplicationError;
use magicer::path::RelativePath;
use magicer::sandbox::PathSandbox;

#[test]
fn test_sandbox_resolve_path_success() {
    let base_dir = "/tmp/sandbox".to_string();
    let sandbox = PathSandbox::new(base_dir.clone());
    let relative_path = RelativePath::new("file.txt").unwrap();

    let result = sandbox.resolve_path(&relative_path);

    assert!(result.is_ok());
    assert_eq!(result.unwrap(), "/tmp/sandbox/file.txt");
}

#[test]
fn test_sandbox_resolve_keeps_root_prefix() {
    let sandbox = PathSandbox::new("/srv/files".to_string());
    let relative_path = RelativePath::new("a/b/c.bin").unwrap();
    let resolved = sandbox.resolve_path(&relative_path).unwrap();
    assert!(resolved.starts_with("/srv/files/"));
    assert_eq!(resolved, "/srv/files/a/b/c.bin");
}

#[test]
fn test_sandbox_root_with_trailing_separator() {
    let sandbox = PathSandbox::new("/srv/files/".to_string());
    let relative_path = RelativePath::new("x.txt").unwrap();
    assert_eq!(sandbox.resolve_path(&relative_path).unwrap(), "/srv/files/x.txt");
}

#[test]
fn test_sandbox_resolve_path_boundary_violation() {
    // a RelativePath is validated at construction, so a traversal never
    // reaches the resolver: the escape attempt dies here
    let escape = RelativePath::new("../outside.txt");
    assert!(escape.is_err());

    // and whatever does reach the resolver stays under the root
    let sandbox = PathSandbox::new("/tmp/sandbox".to_string());
    let inside = RelativePath::new("deep/nested/file.bin").unwrap();
    let resolved = sandbox.resolve_path(&inside).unwrap();
    assert!(resolved.starts_with("/tmp/sandbox"));
}

#[test]
fn test_missing_file_reports_not_found() {
    // relative path missing.bin resolving to a non-existent file: the
    // failure is not-found, carrying the resolved path, not an internal
    // error
    let use_case = AnalyzePathUseCase::new(PathSandbox::new("/sandbox".to_string()), 30);
    let path = RelativePath::new("missing.bin").unwrap();
    let resolved = use_case.resolve(&path).unwrap();
    assert_eq!(resolved, "/sandbox/missing.bin");

    let err = AnalyzePathUseCase::open_failed(&resolved, &FileOpenError::NotFound);
    assert!(matches!(err, ApplicationError::NotFound(_)));
    assert_eq!(err.message(), "Not Found: /sandbox/missing.bin");
}

#[test]
fn test_other_open_failure_is_internal() {
    let err = AnalyzePathUseCase::open_failed(
        "/sandbox/locked.bin",
        &FileOpenError::Other("permission denied".to_string()),
    );
    assert!(matches!(err, ApplicationError::InternalError(_)));
    assert_eq!(
        err.message(),
        "Internal Error: Failed to open file for analysis: permission denied"
    );
}

#[test]
fn test_analyze_path_success() {
    // the whole sandboxed-path pipeline on a deterministic engine: the
    // path resolves under the root, the engine answers inside the
    // deadline, and the outcome carries the classification verbatim
    let use_case = AnalyzePathUseCase::new(PathSandbox::new("/sandbox".to_string()), 30);
    let path = RelativePath::new("uploads/test.pdf").unwrap();
    let resolved = use_case.resolve(&path).unwrap();
    assert_eq!(resolved, "/sandbox/uploads/test.pdf");

    let repo = FakeMagicRepository::new().unwrap();
    let engine_result = repo.analyze_buffer(b"%PDF-1.4", "test.pdf");
    let request_id = RequestId::generate();
    let filename = WindowsCompatibleFilename::new("test.pdf").unwrap();
    let result = settle_engine_call(
        request_id.clone(),
        filename,
        EngineCallOutcome::Finished(engine_result),
    )
    .unwrap();
    assert_eq!(result.mime_type().as_str(), "application/pdf");
    assert_eq!(result.description(), "PDF document");
    assert_eq!(result.request_id(), &request_id);
}
