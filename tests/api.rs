use send_with_us::api::{
    build_url, check_status, handle_response, log_query, request_headers, send_error,
    transport_error, ApiRequest, Method,
};
use send_with_us::types::{
    CustomerOptions, DripCampaignOptions, EmailOptions, Recipient, RenderOptions, Sender,
    TemplateOptions,
};
use send_with_us::wire::WireValue;
use send_with_us::{Attachment, Config, Error};
use serde_json::Value;
use std::collections::{BTreeSet, HashMap};

fn keys_of(req: &ApiRequest) -> BTreeSet<String> {
    req.json_payload().unwrap().keys().cloned().collect()
}

fn template() -> TemplateOptions {
    TemplateOptions {
        name: "Welcome".to_string(),
        subject: "Hi".to_string(),
        html: "<p>Hi</p>".to_string(),
        text: "Hi".to_string(),
        preheader: None,
        amp_html: None,
    }
}

#[test]
fn test_build_url() {
    let config = Config::new("api-key");
    let url = build_url(&config, "test-endpoint").expect("Failed to build URL");
    assert!(url.contains("/api/v1/test-endpoint"));
    assert!(url.starts_with("https://api.sendwithus.com"));
}

#[test]
fn build_url_exact_text() {
    let config = Config::new("api-key");
    assert_eq!(
        build_url(&config, "test-endpoint").unwrap(),
        "https://api.sendwithus.com/api/v1/test-endpoint"
    );
    let config = Config::new("k")
        .with_url("http://127.0.0.1:8080/prefix")
        .with_api_version("2");
    assert_eq!(
        build_url(&config, "customers/a@b.c/logs?count=2").unwrap(),
        "http://127.0.0.1:8080/prefix/api/v2/customers/a@b.c/logs?count=2"
    );
}

#[test]
fn build_url_puts_segments_in_the_path() {
    let config = Config::new("k").with_url("https://h.example/?a=1");
    assert_eq!(
        build_url(&config, "send").unwrap(),
        "https://h.example/api/v1/send"
    );
    let config = Config::new("k").with_url("https://h.example/base/");
    assert_eq!(
        build_url(&config, "logs/x y").unwrap(),
        "https://h.example/base/api/v1/logs/x%20y"
    );
}

#[test]
fn build_url_rejects_path_read_as_host() {
    let config = Config::new("k").with_url("https://api.example.com//proxy");
    assert!(matches!(build_url(&config, "send"), Err(Error::InvalidApiUrl)));
}

#[test]
fn build_url_rejects_url_without_path_segments() {
    let config = Config::new("k").with_url("mailto:someone@example.com");
    assert!(matches!(build_url(&config, "send"), Err(Error::InvalidApiUrl)));
}

#[test]
fn headers_carry_key_and_client() {
    let config = Config::new("secret-key");
    let headers = request_headers(&config);
    assert_eq!(
        headers,
        vec![
            ("Content-Type".to_string(), "application/json".to_string()),
            ("X-SWU-API-KEY".to_string(), "secret-key".to_string()),
            ("X-SWU-API-CLIENT".to_string(), config.client_stub.clone()),
        ]
    );
}

#[test]
fn send_email_without_template_id_is_rejected() {
    let options = EmailOptions::new("", Recipient::new("test@example.com"));
    assert!(matches!(
        ApiRequest::send_email(&options),
        Err(Error::MissingTemplateId)
    ));
}

#[test]
fn send_email_plan() {
    let recipient = Recipient::new("test@example.com").with_name("Test User");
    let options = EmailOptions::new("template-id", recipient);
    let req = ApiRequest::send_email(&options).unwrap();
    assert_eq!(req.method, Method::Post);
    assert_eq!(req.endpoint, "send");
    assert_eq!(
        req.body().unwrap().unwrap(),
        r#"{"email_id":"template-id","recipient":{"address":"test@example.com","name":"Test User"}}"#
    );
}

#[test]
fn send_email_success_returns_parsed_body() {
    let body = r#"{"success": true, "message": "Test response"}"#;
    let value = handle_response("send", 200, body.to_string()).unwrap();
    assert_eq!(value, serde_json::from_str::<Value>(body).unwrap());
    assert_eq!(value["success"], Value::from(true));
    assert_eq!(value["message"], Value::from("Test response"));
}

#[test]
fn required_fields_only_payload() {
    let options = EmailOptions::new("t-1", Recipient::new("a@example.com"));
    let req = ApiRequest::send_email(&options).unwrap();
    let expected: BTreeSet<String> = ["email_id", "recipient"].iter().map(|s| s.to_string()).collect();
    assert_eq!(keys_of(&req), expected);
}

#[test]
fn every_optional_field_appears_under_its_key() {
    let mut data = HashMap::new();
    data.insert("name".to_string(), Value::from("John"));
    let headers = HashMap::from([("X-A".to_string(), "1".to_string())]);
    let options = EmailOptions::new("t-1", Recipient::new("a@example.com"))
        .with_data(data)
        .with_sender(Sender::new("s@example.com").with_reply_to("r@example.com"))
        .with_cc(vec![Recipient::new("cc@example.com")])
        .with_bcc(vec![Recipient::new("bcc@example.com")])
        .with_files(vec![Attachment::from_bytes(b"abc", "a.txt")])
        .with_esp_account("esp")
        .with_version_name("v")
        .with_headers(headers)
        .with_tags(vec!["t".to_string()])
        .with_locale("en-US");
    let req = ApiRequest::send_email(&options).unwrap();
    let expected: BTreeSet<String> = [
        "email_id", "recipient", "email_data", "sender", "cc", "bcc", "files", "esp_account",
        "version_name", "headers", "tags", "locale",
    ]
    .iter()
    .map(|s| s.to_string())
    .collect();
    assert_eq!(keys_of(&req), expected);
    let json = req.json_payload().unwrap();
    assert_eq!(json["email_data"]["name"], "John");
    assert_eq!(json["sender"]["reply_to"], "r@example.com");
    assert!(json["sender"].get("name").is_none());
    assert_eq!(json["cc"][0]["address"], "cc@example.com");
    assert_eq!(json["files"][0]["id"], "a.txt");
    assert_eq!(json["files"][0]["data"], "YWJj");
    assert_eq!(json["headers"]["X-A"], "1");
    assert_eq!(json["tags"][0], "t");
    assert_eq!(json["locale"], "en-US");
}

#[test]
fn single_optional_field_is_added() {
    let options = EmailOptions::new("t-1", Recipient::new("a@example.com")).with_locale("fr");
    let req = ApiRequest::send_email(&options).unwrap();
    let expected: BTreeSet<String> =
        ["email_id", "recipient", "locale"].iter().map(|s| s.to_string()).collect();
    assert_eq!(keys_of(&req), expected);
}

#[test]
fn unsubscribe_with_empty_address_is_rejected() {
    assert!(matches!(
        ApiRequest::drips_unsubscribe(""),
        Err(Error::MissingRecipientAddress)
    ));
}

#[test]
fn unsubscribe_body_holds_only_the_address() {
    let req = ApiRequest::drips_unsubscribe("test@example.com").unwrap();
    assert_eq!(req.method, Method::Post);
    assert_eq!(req.endpoint, "drips/unsubscribe");
    assert_eq!(
        req.body().unwrap().unwrap(),
        r#"{"email_address":"test@example.com"}"#
    );
}

#[test]
fn customer_email_log_without_filters_has_no_query() {
    let req = ApiRequest::customer_email_log("test@example.com", None, None, None);
    assert_eq!(req.method, Method::Get);
    assert_eq!(req.endpoint, "customers/test@example.com/logs");
    assert!(req.payload.is_none());
}

#[test]
fn customer_email_log_with_count() {
    let req = ApiRequest::customer_email_log("test@example.com", Some(2), None, None);
    assert_eq!(req.endpoint, "customers/test@example.com/logs?count=2");
}

#[test]
fn customer_email_log_filters_in_order() {
    let req = ApiRequest::customer_email_log(
        "a@b.c",
        Some(120),
        Some("1700000000".to_string()),
        Some("1800000000".to_string()),
    );
    assert_eq!(
        req.endpoint,
        "customers/a@b.c/logs?count=120&created_gt=1700000000&created_lt=1800000000"
    );
    let req = ApiRequest::customer_email_log("a@b.c", None, None, Some("9".to_string()));
    assert_eq!(req.endpoint, "customers/a@b.c/logs?created_lt=9");
    let req = ApiRequest::customer_email_log("a@b.c", Some(0), Some("5".to_string()), None);
    assert_eq!(req.endpoint, "customers/a@b.c/logs?count=0&created_gt=5");
}

#[test]
fn log_query_largest_count() {
    assert_eq!(log_query(Some(u32::MAX), &None, &None), "?count=4294967295");
    assert_eq!(log_query(None, &None, &None), "");
}

#[test]
fn operation_paths_and_verbs() {
    let t = template();
    let cases = vec![
        (ApiRequest::list_templates(), Method::Get, "emails"),
        (ApiRequest::create_template(&t), Method::Post, "emails"),
        (ApiRequest::list_drip_campaigns(), Method::Get, "drip_campaigns"),
        (ApiRequest::drip_campaign_details("dc_1"), Method::Get, "drip_campaigns/dc_1"),
        (ApiRequest::customer_get("c@x.io"), Method::Get, "customers/c@x.io"),
        (ApiRequest::customer_delete("c@x.io"), Method::Delete, "customers/c@x.io"),
        (ApiRequest::log("log_1"), Method::Get, "logs/log_1"),
        (ApiRequest::log_events("log_1"), Method::Get, "logs/log_1/events"),
        (ApiRequest::delete_template("tem_1"), Method::Delete, "templates/tem_1"),
        (ApiRequest::list_template_versions("tem_1"), Method::Get, "templates/tem_1/versions"),
        (ApiRequest::get_template_version("tem_1", "ver_1"), Method::Get, "templates/tem_1/versions/ver_1"),
        (ApiRequest::update_template_version("tem_1", "ver_1", &t), Method::Put, "templates/tem_1/versions/ver_1"),
        (ApiRequest::create_template_version("tem_1", &t), Method::Post, "templates/tem_1/versions"),
    ];
    for (req, method, endpoint) in cases {
        assert_eq!(req.method, method);
        assert_eq!(req.endpoint, endpoint);
    }
}

#[test]
fn drip_campaign_requests() {
    let options = DripCampaignOptions {
        recipient_address: "some@email.stub".to_string(),
        email_data: None,
        tags: Some(vec!["a".to_string()]),
        locale: None,
    };
    let req = ApiRequest::start_on_drip_campaign("dc_SoMeCampaIGnID", &options);
    assert_eq!(req.method, Method::Post);
    assert_eq!(req.endpoint, "drip_campaigns/dc_SoMeCampaIGnID/activate");
    assert_eq!(
        req.body().unwrap().unwrap(),
        r#"{"recipient_address":"some@email.stub","tags":["a"]}"#
    );
    let req = ApiRequest::remove_from_drip_campaign("dc_1", "some@email.stub");
    assert_eq!(req.endpoint, "drip_campaigns/dc_1/deactivate");
    assert_eq!(
        req.body().unwrap().unwrap(),
        r#"{"recipient_address":"some@email.stub"}"#
    );
}

#[test]
fn render_and_customer_payloads() {
    let options = RenderOptions {
        template: "template-id".to_string(),
        version_id: None,
        template_data: HashMap::new(),
        strict: true,
        locale: Some("fr-CA".to_string()),
    };
    let req = ApiRequest::render(&options);
    assert_eq!(req.endpoint, "render");
    assert_eq!(
        req.body().unwrap().unwrap(),
        r#"{"locale":"fr-CA","strict":true,"template":"template-id","template_data":{}}"#
    );
    let options = CustomerOptions {
        email: "customer@example.com".to_string(),
        data: None,
        locale: None,
    };
    let req = ApiRequest::customer_create(&options);
    assert_eq!(req.method, Method::Post);
    assert_eq!(req.endpoint, "customers");
    assert_eq!(req.body().unwrap().unwrap(), r#"{"email":"customer@example.com"}"#);
}

#[test]
fn template_payload_omits_absent_fields() {
    let mut t = template();
    t.preheader = Some("pre".to_string());
    let p = t.payload();
    let keys: Vec<&str> = p.fields.iter().map(|(k, _)| k.as_str()).collect();
    assert_eq!(keys, vec!["name", "subject", "html", "text", "preheader"]);
    assert_eq!(p.fields[4].1, WireValue::Text("pre".to_string()));
}

#[test]
fn get_requests_have_no_body() {
    assert_eq!(ApiRequest::list_templates().body().unwrap(), None);
}

#[test]
fn status_not_found_names_endpoint() {
    match handle_response("nonexistent-endpoint", 404, "Not Found".to_string()) {
        Err(Error::InvalidEndpoint(endpoint)) => assert_eq!(endpoint, "nonexistent-endpoint"),
        other => panic!("unexpected: {:?}", other),
    }
}

#[test]
fn status_forbidden_is_invalid_credentials() {
    assert!(matches!(
        handle_response("test-endpoint", 403, "Forbidden".to_string()),
        Err(Error::InvalidCredentials)
    ));
}

#[test]
fn status_bad_request_keeps_body() {
    match handle_response("test-endpoint", 400, "Missing required field".to_string()) {
        Err(Error::InvalidRequest(message)) => assert_eq!(message, "Missing required field"),
        other => panic!("unexpected: {:?}", other),
    }
}

#[test]
fn other_status_is_api_error() {
    match handle_response("test-endpoint", 500, "Internal server error".to_string()) {
        Err(Error::ApiError { status, message }) => {
            assert_eq!(status, 500);
            assert_eq!(message, "Internal server error");
        }
        other => panic!("unexpected: {:?}", other),
    }
    assert!(matches!(
        handle_response("e", 204, String::new()),
        Err(Error::ApiError { status: 204, .. })
    ));
}

#[test]
fn created_and_accepted_are_success() {
    let v = handle_response("e", 201, r#"{"success": true, "data_received": true}"#.to_string())
        .unwrap();
    assert_eq!(v["data_received"], Value::from(true));
    let v = handle_response(
        "e",
        202,
        r#"{"status": "accepted", "message": "Request accepted"}"#.to_string(),
    )
    .unwrap();
    assert_eq!(v["status"], "accepted");
    assert_eq!(v["message"], "Request accepted");
}

#[test]
fn success_with_malformed_body_is_serialization_error() {
    assert!(matches!(
        handle_response("e", 200, "not json".to_string()),
        Err(Error::SerializationFailed(_))
    ));
    assert!(matches!(
        check_status("e", 200, "not json".to_string()),
        Ok(ref b) if b == "not json"
    ));
}

#[test]
fn transport_failures_are_classified() {
    let err = reqwest::Client::new().get("not a url").build().unwrap_err();
    assert!(matches!(send_error(err), Error::RequestFailed(_)));
    let err = reqwest::Client::new().get("not a url").build().unwrap_err();
    assert!(matches!(transport_error(true, err), Error::ConnectionFailed));
    let err = reqwest::Client::new().get("not a url").build().unwrap_err();
    let text = err.to_string();
    let e = transport_error(false, err);
    assert_eq!(e.message(), format!("API communication error: {}", text));
}
