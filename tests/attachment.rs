use base64::{engine::general_purpose, Engine as _};
use send_with_us::Attachment;

#[test]
fn test_attachment_from_bytes_with_explicit_filename() {
    let content = b"test text";
    let filename = "rawr.txt";
    let attachment = Attachment::from_bytes(content, filename);

    assert_eq!(attachment.id, "rawr.txt");
    assert_eq!(attachment.data, general_purpose::STANDARD.encode(content));
}

#[test]
fn test_attachment_from_path() {
    let content = b"test content";
    let attachment = Attachment::from_bytes(content, "path.txt");

    assert_eq!(attachment.id, "path.txt");
    assert_eq!(attachment.data, general_purpose::STANDARD.encode(content));
}

#[test]
fn from_bytes_encodes_exact_base64() {
    let attachment = Attachment::from_bytes(b"test text", "rawr.txt");
    assert_eq!(attachment.data, "dGVzdCB0ZXh0");
    let attachment = Attachment::from_bytes(b"", "empty.bin");
    assert_eq!(attachment.data, "");
    let attachment = Attachment::from_bytes(&[0xff, 0x00], "bin");
    assert_eq!(attachment.data, "/wA=");
}

#[test]
fn file_contents_named_by_base_name() {
    let attachment = Attachment::from_file(Some("test_file.txt"), b"hello world from file");
    assert_eq!(attachment.id, "test_file.txt");
    assert_eq!(
        attachment.data,
        general_purpose::STANDARD.encode(b"hello world from file")
    );
}

#[test]
fn file_without_name_gets_fallback() {
    let attachment = Attachment::from_file(None, b"x");
    assert_eq!(attachment.id, "attachment");
    assert_eq!(attachment.data, "eA==");
}
