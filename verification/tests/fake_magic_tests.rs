use magicer::fake_magic_repository::FakeMagicRepository;
use magicer::path::RelativePath;
use magicer::sandbox::PathSandbox;

#[test]
fn test_analyze_buffer_pdf() {
    let repo = FakeMagicRepository::new().expect("Failed to create FakeMagicRepository");
    let pdf_data = b"%PDF-1.4\n";

    let (mime, desc) = repo.analyze_buffer(pdf_data, "test.pdf").unwrap();

    assert_eq!(mime.as_str(), "application/pdf");
    assert!(desc.contains("PDF"));
}

#[test]
fn test_png_magic_bytes_classified_as_png() {
    // filename bench.png, sandbox-resolved file whose content carries the
    // PNG magic bytes
    let sandbox = PathSandbox::new("/tmp/sandbox".to_string());
    let path = RelativePath::new("bench.png").unwrap();
    let resolved = sandbox.resolve_path(&path).unwrap();
    assert_eq!(resolved, "/tmp/sandbox/bench.png");

    let png_bytes = [0x89u8, 0x50, 0x4E, 0x47, 0x0D, 0x0A, 0x1A, 0x0A];
    let repo = FakeMagicRepository::new().unwrap();
    let (mime, desc) = repo.analyze_buffer(&png_bytes, "bench.png").unwrap();
    assert_eq!(mime.as_str(), "image/png");
    assert_eq!(desc, "PNG image data");
}

#[test]
fn test_unknown_bytes_are_opaque() {
    let repo = FakeMagicRepository::new().unwrap();
    let (mime, desc) = repo.analyze_buffer(b"hello world", "note.txt").unwrap();
    assert_eq!(mime.as_str(), "application/octet-stream");
    assert_eq!(desc, "data");
}
