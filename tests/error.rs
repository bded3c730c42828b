use send_with_us::api::parse_body;
use send_with_us::Error;

#[test]
fn test_error_display() {
    let error = Error::InvalidCredentials;
    assert_eq!(error.message(), "Invalid or missing API key");

    let error = Error::MissingTemplateId;
    assert_eq!(error.message(), "Email template ID is required");

    let error = Error::MissingRecipientAddress;
    assert_eq!(error.message(), "Recipient email address is required");

    let error = Error::InvalidEndpoint("custom/endpoint".to_string());
    assert_eq!(error.message(), "Invalid API endpoint: custom/endpoint");

    let error = Error::InvalidRequest("Invalid parameter".to_string());
    assert_eq!(
        error.message(),
        "SendWithUs API rejected request: Invalid parameter"
    );

    let error = Error::ApiError {
        status: 500,
        message: "Server error".to_string(),
    };
    assert_eq!(error.message(), "SendWithUs API error: 500 - Server error");

    let error = Error::Unexpected("Something unexpected".to_string());
    assert_eq!(error.message(), "Unexpected error: Something unexpected");

    let error = Error::InvalidApiUrl;
    assert_eq!(error.message(), "Invalid SendWithUs API URL");

    let error = Error::ConnectionFailed;
    assert_eq!(error.message(), "Connection to SendWithUs API failed");

    let error = Error::FileAccessFailed(std::io::Error::new(
        std::io::ErrorKind::NotFound,
        "File not found",
    ));
    assert!(error.message().contains("File access error"));

    let io_error = std::io::Error::new(std::io::ErrorKind::ConnectionRefused, "Connection refused");
    let error = Error::FileAccessFailed(io_error);
    assert!(error.message().contains("File access error"));
}

#[test]
fn api_error_message_renders_status_digits() {
    let error = Error::ApiError { status: 0, message: String::new() };
    assert_eq!(error.message(), "SendWithUs API error: 0 - ");
    let error = Error::ApiError { status: 65535, message: "x".to_string() };
    assert_eq!(error.message(), "SendWithUs API error: 65535 - x");
    let error = Error::ApiError { status: 404, message: "gone".to_string() };
    assert_eq!(error.message(), "SendWithUs API error: 404 - gone");
}

#[test]
fn serialization_and_file_messages_carry_cause() {
    let e = parse_body("{").unwrap_err();
    let text = e.message();
    assert!(text.starts_with("Data serialization error: "));
    assert!(text.len() > "Data serialization error: ".len());
    let e = Error::FileAccessFailed(std::io::Error::new(std::io::ErrorKind::NotFound, "gone"));
    assert_eq!(e.message(), "File access error: gone");
}
