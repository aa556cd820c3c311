//! The wire parsers: ECC XML responses and Surveyor plain-text bodies.

use attpc_envoy::ecc_envoy::{parse_ecc_operation_response, parse_ecc_status_response};
use attpc_envoy::error::EnvoyError;
use attpc_envoy::message::MessageKind;
use attpc_envoy::surveyor_envoy::parse_response;
use attpc_envoy::surveyor_state::SurveyorDiskStatus;

fn status_body(error_code: i32, state: i32, transition: i32) -> String {
    format!(
        "<?xml version=\"1.0\" encoding=\"UTF-8\"?>\n<SOAP-ENV:Envelope>\n<SOAP-ENV:Body>\n<getStateResponse>\n<ErrorCode>{}</ErrorCode><ErrorMessage></ErrorMessage><State>{}</State><Transition>{}</Transition>\n</getStateResponse>\n</SOAP-ENV:Body>\n</SOAP-ENV:Envelope>",
        error_code, state, transition
    )
}

#[test]
fn status_response_decodes_fields() {
    let m = parse_ecc_status_response(&status_body(0, 4, 0), 2).unwrap();
    assert_eq!(m.kind, MessageKind::ECCStatus);
    assert_eq!(m.id, 2);
    let resp = m.try_into_ecc_status().unwrap();
    assert_eq!(resp.error_code, 0);
    assert_eq!(resp.error_message, "");
    assert_eq!(resp.state, 4);
    assert_eq!(resp.transition, 0);
}

#[test]
fn status_response_keeps_error_message() {
    let body = "<ErrorCode>2</ErrorCode><ErrorMessage>boom</ErrorMessage><State>1</State><Transition>0</Transition>";
    let resp = parse_ecc_status_response(body, 0).unwrap().try_into_ecc_status().unwrap();
    assert_eq!(resp.error_code, 2);
    assert_eq!(resp.error_message, "boom");
}

#[test]
fn status_response_missing_element_is_refused() {
    let body = "<ErrorCode>0</ErrorCode><State>4</State>";
    let r = parse_ecc_status_response(body, 0);
    assert!(matches!(r, Err(EnvoyError::XMLConversionError)));
}

#[test]
fn status_response_non_numeric_is_refused() {
    let body = "<ErrorCode>zero</ErrorCode><State>4</State><Transition>0</Transition>";
    let r = parse_ecc_status_response(body, 0);
    assert!(matches!(r, Err(EnvoyError::StringToIntError)));
}

#[test]
fn operation_response_decodes_fields() {
    let body = "<?xml version=\"1.0\"?><Envelope><Body><describeResponse><ErrorCode>0</ErrorCode><ErrorMessage></ErrorMessage><Text>performed</Text></describeResponse></Body></Envelope>";
    let m = parse_ecc_operation_response(body, 7).unwrap();
    assert_eq!(m.kind, MessageKind::ECCOperation);
    assert_eq!(m.id, 7);
    let resp = m.try_into_ecc_op().unwrap();
    assert_eq!(resp.error_code, 0);
    assert_eq!(resp.error_message, "");
    assert_eq!(resp.text, "performed");
}

#[test]
fn operation_response_missing_text_reads_empty() {
    let body = "<ErrorCode>1</ErrorCode><ErrorMessage>no such config</ErrorMessage>";
    let resp = parse_ecc_operation_response(body, 0).unwrap().try_into_ecc_op().unwrap();
    assert_eq!(resp.error_code, 1);
    assert_eq!(resp.error_message, "no such config");
    assert_eq!(resp.text, "");
}

#[test]
fn surveyor_body_parses_completely() {
    let body = "1\n/mnt/data\nignored line\nFilesystem 2097152 x x 37% y\nrun_0001.graw 0 0 1048576\nrun_0002.graw 0 0 524288\n";
    let (m, watermark) = parse_response(body, 3, 0).unwrap();
    assert_eq!(m.kind, MessageKind::Surveyor);
    assert_eq!(m.id, 3);
    let resp = m.try_into_surveyor().unwrap();
    assert_eq!(resp.state, 1);
    assert_eq!(resp.location, "/mnt/data");
    assert_eq!(resp.disk_space, 2097152u64 * 512);
    assert_eq!(resp.disk_space, 1073741824);
    assert_eq!(resp.percent_used, "37%");
    assert_eq!(resp.files, 2);
    assert_eq!(resp.bytes_used, 1572864);
    assert_eq!(resp.disk_status, SurveyorDiskStatus::Filled);
    assert_eq!(resp.window_bytes, 1572864);
    assert_eq!(resp.window_bytes as f64 / 2.0, 786432.0);
    assert_eq!(watermark, 1572864);
}

#[test]
fn surveyor_rate_uses_previous_watermark() {
    let body = "1\n/mnt/data\nignored\nFilesystem 2097152 x x 37% y\nrun_0001.graw 0 0 1048576\n";
    let (_, watermark) = parse_response(body, 0, 0).unwrap();
    assert_eq!(watermark, 1048576);
    let later = "1\n/mnt/data\nignored\nFilesystem 2097152 x x 40% y\nrun_0001.graw 0 0 1048576\nrun_0002.graw 0 0 2048\n";
    let (m, watermark2) = parse_response(later, 0, watermark).unwrap();
    let resp = m.try_into_surveyor().unwrap();
    assert_eq!(resp.bytes_used, 1050624);
    assert_eq!(resp.window_bytes, 2048);
    assert_eq!(watermark2, 1050624);
}

#[test]
fn surveyor_without_graw_files_reads_empty_disk() {
    let body = "1\n/mnt/data\nignored\nFilesystem 8 x x 1% y\nsomething.txt 0 0 5\n";
    let resp = parse_response(body, 0, 0).unwrap().0.try_into_surveyor().unwrap();
    assert_eq!(resp.files, 0);
    assert_eq!(resp.bytes_used, 0);
    assert_eq!(resp.disk_status, SurveyorDiskStatus::Empty);
    assert_eq!(resp.disk_space, 4096);
}

#[test]
fn surveyor_empty_body_yields_default() {
    let (m, watermark) = parse_response("", 5, 77).unwrap();
    let resp = m.try_into_surveyor().unwrap();
    assert_eq!(resp.state, 0);
    assert_eq!(resp.location, "N/A");
    assert_eq!(resp.files, 0);
    assert_eq!(watermark, 77);
}

#[test]
fn surveyor_offline_state_yields_default() {
    let body = "0\n/mnt/data\nignored\nFilesystem 2097152 x x 37% y\n";
    let (m, watermark) = parse_response(body, 0, 9).unwrap();
    let resp = m.try_into_surveyor().unwrap();
    assert_eq!(resp.state, 0);
    assert_eq!(resp.location, "N/A");
    assert_eq!(watermark, 9);
}

#[test]
fn surveyor_short_body_yields_default() {
    let body = "1\n/mnt/data\n";
    let (m, watermark) = parse_response(body, 0, 4).unwrap();
    let resp = m.try_into_surveyor().unwrap();
    assert_eq!(resp.state, 0);
    assert_eq!(resp.location, "N/A");
    assert_eq!(watermark, 4);
}

#[test]
fn surveyor_bad_state_line_is_refused() {
    let r = parse_response("online\n/mnt\nx\nFilesystem 1 x x 1% y\n", 0, 0);
    assert!(matches!(r, Err(EnvoyError::StringToIntError)));
}

#[test]
fn surveyor_bad_graw_field_is_refused() {
    let body = "1\n/mnt\nx\nFilesystem 1 x x 1% y\nrun.graw 0 0 big\n";
    let r = parse_response(body, 0, 0);
    assert!(matches!(r, Err(EnvoyError::StringToIntError)));
}

#[test]
fn surveyor_handles_carriage_returns() {
    let body = "1\r\n/mnt/data\r\nignored\r\nFilesystem 2 x x 3% y\r\n";
    let resp = parse_response(body, 0, 0).unwrap().0.try_into_surveyor().unwrap();
    assert_eq!(resp.state, 1);
    assert_eq!(resp.location, "/mnt/data");
    assert_eq!(resp.disk_space, 1024);
}
