use tracker_client::data::Checkpoint;
use tracker_client::errors::decode_failed_line;
use tracker_client::errors::http_error_line;
use tracker_client::errors::request_failed_message;
use tracker_client::errors::TrackError;
use tracker_client::numfmt::u16_to_decimal;
use tracker_client::render::display_status;
use tracker_client::render::render_checkpoint_line;
use tracker_client::render::render_checkpoints;
use tracker_client::request::build_tracker_url;
use tracker_client::request::is_success_status;
use tracker_client::response::decode_response;
use tracker_client::response::interpret_response;

fn cp(time: &str, status_raw: &str) -> Checkpoint {
    Checkpoint {
        time: time.to_owned(),
        status_raw: status_raw.to_owned(),
    }
}

#[test]
fn sentinel_status_renders_as_received() {
    assert_eq!(display_status("GTMS_SIGNED"), "Received");
}

#[test]
fn other_status_renders_unchanged() {
    assert_eq!(display_status("In transit"), "In transit");
    assert_eq!(display_status("DELIVERED"), "DELIVERED");
}

#[test]
fn empty_status_renders_unchanged() {
    assert_eq!(display_status(""), "");
}

#[test]
fn status_containing_sentinel_renders_unchanged() {
    assert_eq!(display_status("GTMS_SIGNED_TWICE"), "GTMS_SIGNED_TWICE");
    assert_eq!(display_status("XGTMS_SIGNED"), "XGTMS_SIGNED");
    assert_eq!(display_status("gtms_signed"), "gtms_signed");
}

#[test]
fn checkpoint_line_has_bracketed_time_then_status() {
    let line = render_checkpoint_line(&cp("2024-01-01T10:00:00Z", "GTMS_SIGNED"));
    assert_eq!(line, "[2024-01-01T10:00:00Z] Received");
    let line = render_checkpoint_line(&cp("2024-01-02T09:00:00Z", "In transit"));
    assert_eq!(line, "[2024-01-02T09:00:00Z] In transit");
}

#[test]
fn rendering_preserves_count_and_order() {
    let cps = vec![cp("t1", "a"), cp("t2", "b"), cp("t3", "GTMS_SIGNED"), cp("t4", "d")];
    let lines = render_checkpoints(&cps);
    assert_eq!(lines.len(), 4);
    assert_eq!(lines[0], "[t1] a");
    assert_eq!(lines[1], "[t2] b");
    assert_eq!(lines[2], "[t3] Received");
    assert_eq!(lines[3], "[t4] d");
}

#[test]
fn empty_checkpoints_render_no_lines() {
    let lines = render_checkpoints(&Vec::new());
    assert_eq!(lines.len(), 0);
}

#[test]
fn success_envelope_decodes_in_order() {
    let body = "{\"data\":{\"checkpoints\":[\
        {\"time\":\"2024-01-01T10:00:00Z\",\"status_raw\":\"GTMS_SIGNED\"},\
        {\"time\":\"2024-01-02T09:00:00Z\",\"status_raw\":\"In transit\"}]}}";
    let resp = decode_response(body).unwrap();
    assert_eq!(resp.data.checkpoints.len(), 2);
    assert_eq!(resp.data.checkpoints[0].time, "2024-01-01T10:00:00Z");
    assert_eq!(resp.data.checkpoints[0].status_raw, "GTMS_SIGNED");
    assert_eq!(resp.data.checkpoints[1].time, "2024-01-02T09:00:00Z");
    assert_eq!(resp.data.checkpoints[1].status_raw, "In transit");
}

#[test]
fn end_to_end_success_prints_expected_lines() {
    let body = "{\"data\":{\"checkpoints\":[\
        {\"time\":\"2024-01-01T10:00:00Z\",\"status_raw\":\"GTMS_SIGNED\"},\
        {\"time\":\"2024-01-02T09:00:00Z\",\"status_raw\":\"In transit\"}]}}";
    let resp = interpret_response(200, body.to_owned()).unwrap();
    let lines = render_checkpoints(&resp.data.checkpoints);
    assert_eq!(lines, vec!["[2024-01-01T10:00:00Z] Received", "[2024-01-02T09:00:00Z] In transit"]);
}

#[test]
fn empty_checkpoint_array_decodes_to_no_checkpoints() {
    let resp = decode_response("{\"data\":{\"checkpoints\":[]}}").unwrap();
    assert_eq!(resp.data.checkpoints.len(), 0);
    assert_eq!(render_checkpoints(&resp.data.checkpoints).len(), 0);
}

#[test]
fn missing_data_field_is_a_decode_error() {
    assert!(decode_response("{\"checkpoints\":[]}").is_err());
    assert!(decode_response("{}").is_err());
}

#[test]
fn missing_checkpoints_field_is_a_decode_error() {
    assert!(decode_response("{\"data\":{}}").is_err());
    assert!(decode_response("{\"data\":{\"other\":1}}").is_err());
}

#[test]
fn non_object_data_is_a_decode_error() {
    assert!(decode_response("{\"data\":7}").is_err());
    assert!(decode_response("{\"data\":[1,2]}").is_err());
}

#[test]
fn non_array_checkpoints_is_a_decode_error() {
    assert!(decode_response("{\"data\":{\"checkpoints\":\"no\"}}").is_err());
    assert!(decode_response("{\"data\":{\"checkpoints\":{}}}").is_err());
}

#[test]
fn malformed_checkpoint_is_a_decode_error() {
    assert!(decode_response("{\"data\":{\"checkpoints\":[{\"time\":\"t\"}]}}").is_err());
    assert!(decode_response("{\"data\":{\"checkpoints\":[{\"status_raw\":\"s\"}]}}").is_err());
    assert!(
        decode_response("{\"data\":{\"checkpoints\":[{\"time\":1,\"status_raw\":\"s\"}]}}")
            .is_err()
    );
    assert!(
        decode_response("{\"data\":{\"checkpoints\":[{\"time\":\"t\",\"status_raw\":null}]}}")
            .is_err()
    );
}

#[test]
fn invalid_json_is_a_decode_error() {
    assert!(decode_response("").is_err());
    assert!(decode_response("{\"data\":").is_err());
    assert!(decode_response("not json").is_err());
}

#[test]
fn extra_fields_around_checkpoints_are_tolerated() {
    let body = "{\"data\":{\"checkpoints\":[\
        {\"time\":\"t\",\"status_raw\":\"s\",\"note\":\"extra\"}],\"more\":true}}";
    let resp = decode_response(body).unwrap();
    assert_eq!(resp.data.checkpoints.len(), 1);
    assert_eq!(resp.data.checkpoints[0].time, "t");
    assert_eq!(resp.data.checkpoints[0].status_raw, "s");
}

#[test]
fn non_success_status_is_an_http_error_with_status_and_body() {
    let r = interpret_response(404, "not found".to_owned());
    match r {
        Err(TrackError::Http { status, body }) => {
            assert_eq!(status, 404);
            assert_eq!(body, "not found");
        }
        _ => panic!("expected an HTTP error"),
    }
}

#[test]
fn http_error_messages_contain_status_and_body() {
    let e = TrackError::Http {
        status: 404,
        body: "not found".to_owned(),
    };
    let diagnostic = e.diagnostic_line();
    assert_eq!(diagnostic, "Error: 404 - Response Body: not found");
    assert!(diagnostic.contains("404"));
    assert!(diagnostic.contains("not found"));
    assert_eq!(e.summary(), "Request failed: 404");
}

#[test]
fn decode_error_messages_carry_the_decoder_message() {
    let e = TrackError::Decode {
        message: "missing object field `data`".to_owned(),
    };
    assert_eq!(
        e.diagnostic_line(),
        "Failed to decode response body: missing object field `data`"
    );
    assert_eq!(e.summary(), "missing object field `data`");
}

#[test]
fn error_line_builders_format_exactly() {
    assert_eq!(http_error_line(500, "oops"), "Error: 500 - Response Body: oops");
    assert_eq!(request_failed_message(503), "Request failed: 503");
    assert_eq!(decode_failed_line("bad"), "Failed to decode response body: bad");
}

#[test]
fn interpret_response_boundaries() {
    let good = "{\"data\":{\"checkpoints\":[]}}";
    assert!(interpret_response(200, good.to_owned()).is_ok());
    assert!(interpret_response(204, good.to_owned()).is_ok());
    assert!(interpret_response(299, good.to_owned()).is_ok());
    assert!(matches!(
        interpret_response(199, good.to_owned()),
        Err(TrackError::Http { status: 199, .. })
    ));
    assert!(matches!(
        interpret_response(300, good.to_owned()),
        Err(TrackError::Http { status: 300, .. })
    ));
    assert!(matches!(
        interpret_response(500, good.to_owned()),
        Err(TrackError::Http { status: 500, .. })
    ));
}

#[test]
fn success_status_with_bad_body_is_a_decode_error() {
    assert!(matches!(
        interpret_response(200, "{}".to_owned()),
        Err(TrackError::Decode { .. })
    ));
}

#[test]
fn is_success_status_covers_the_2xx_range() {
    assert!(!is_success_status(0));
    assert!(!is_success_status(199));
    assert!(is_success_status(200));
    assert!(is_success_status(250));
    assert!(is_success_status(299));
    assert!(!is_success_status(300));
    assert!(!is_success_status(404));
    assert!(!is_success_status(65535));
}

#[test]
fn tracker_url_embeds_provider_then_tracking_number() {
    assert_eq!(
        build_tracker_url("cdek", "ABC123"),
        "https://gdeposylka.ru/api/v4/tracker/cdek/ABC123"
    );
    assert_eq!(
        build_tracker_url("", ""),
        "https://gdeposylka.ru/api/v4/tracker//"
    );
}

#[test]
fn status_codes_render_in_decimal() {
    assert_eq!(u16_to_decimal(0), "0");
    assert_eq!(u16_to_decimal(7), "7");
    assert_eq!(u16_to_decimal(10), "10");
    assert_eq!(u16_to_decimal(404), "404");
    assert_eq!(u16_to_decimal(65535), "65535");
}

#[test]
fn decoder_failure_reports_the_parser_message_for_invalid_json() {
    let err = decode_response("not json").unwrap_err();
    assert!(!err.is_empty());
    let err = decode_response("{\"data\":{}}").unwrap_err();
    assert_eq!(err, "missing object field `checkpoints`");
    let err = decode_response("{}").unwrap_err();
    assert_eq!(err, "missing object field `data`");
}
