use base64::Engine;
use qrmax::dispatch::{
    create_server, finish_fetch_body, finish_fetch_failure, finish_fetch_headers, finish_upload,
    CallParams, DispatchOutcome, McpServer, RegisteredTool, RequestEnvelope, ResponseEnvelope,
    ResponsePayload,
};
use qrmax::pipeline::{generate_prepare, FetchFailure};
use qrmax::tools::{QrGeneratorTool, QrToolName, ToolArgs, ToolOutput};

fn request(method: &str, params: Option<CallParams>) -> RequestEnvelope {
    RequestEnvelope {
        id: Some("1".to_string()),
        method: method.to_string(),
        params,
    }
}

fn call_params(name: Option<&str>, args: Option<ToolArgs>) -> CallParams {
    CallParams {
        name: name.map(|s| s.to_string()),
        arguments: args,
    }
}

fn expect_response(outcome: DispatchOutcome) -> ResponseEnvelope {
    match outcome {
        DispatchOutcome::Respond(r) => r,
        _ => panic!("expected a complete response"),
    }
}

fn expect_error(resp: ResponseEnvelope) -> (i64, String) {
    match resp.outcome {
        Err(e) => (e.code, e.message),
        Ok(_) => panic!("expected an error response"),
    }
}

#[test]
fn tool_names() {
    assert_eq!(QrToolName::Generate.as_str(), "generate_qr_code");
    assert_eq!(QrToolName::Decode.as_str(), "decode_qr_code");
}

#[test]
fn initialize_returns_metadata() {
    let server = create_server();
    let resp = expect_response(server.handle_request(&request("initialize", None)));
    assert_eq!(resp.id, Some("1".to_string()));
    match resp.outcome.unwrap() {
        ResponsePayload::Initialize(info) => {
            assert_eq!(info.protocol_version, "2024-11-05");
            assert_eq!(info.server_name, "qrmax");
            assert_eq!(info.server_version, "0.1.0");
        }
        _ => panic!("expected initialize metadata"),
    }
}

#[test]
fn tools_list_names_both_capabilities() {
    let server = create_server();
    let resp = expect_response(server.handle_request(&request("tools/list", None)));
    match resp.outcome.unwrap() {
        ResponsePayload::ToolsList(ds) => {
            let names: Vec<String> = ds.iter().map(|d| d.name.clone()).collect();
            assert_eq!(names.len(), 2);
            assert!(names.contains(&"generate_qr_code".to_string()));
            assert!(names.contains(&"decode_qr_code".to_string()));
            for d in &ds {
                assert!(!d.description.is_empty());
                assert!(d.input_schema.contains("\"type\":\"object\""));
            }
        }
        _ => panic!("expected the capability list"),
    }
}

#[test]
fn reregistering_replaces_by_name() {
    let mut server = McpServer::new();
    server.register_tool(RegisteredTool::Generator(QrGeneratorTool));
    server.register_tool(RegisteredTool::Generator(QrGeneratorTool));
    let resp = expect_response(server.handle_request(&request("tools/list", None)));
    match resp.outcome.unwrap() {
        ResponsePayload::ToolsList(ds) => assert_eq!(ds.len(), 1),
        _ => panic!("expected the capability list"),
    }
}

#[test]
fn unknown_method_rejected() {
    let server = create_server();
    let resp = expect_response(server.handle_request(&request("resources/list", None)));
    let (code, message) = expect_error(resp);
    assert_eq!(code, -32601);
    assert_eq!(message, "Method not found");
}

#[test]
fn call_without_params_rejected() {
    let server = create_server();
    let resp = expect_response(server.handle_request(&request("tools/call", None)));
    let (code, message) = expect_error(resp);
    assert_eq!(code, -32602);
    assert_eq!(message, "Invalid params");
}

#[test]
fn call_without_name_rejected() {
    let server = create_server();
    let params = call_params(None, None);
    let resp = expect_response(server.handle_request(&request("tools/call", Some(params))));
    let (code, message) = expect_error(resp);
    assert_eq!(code, -32602);
    assert_eq!(message, "Missing tool name");
}

#[test]
fn unknown_tool_named_in_error() {
    let server = create_server();
    let params = call_params(Some("nope"), None);
    let resp = expect_response(server.handle_request(&request("tools/call", Some(params))));
    let (code, message) = expect_error(resp);
    assert_eq!(code, -32601);
    assert_eq!(message, "Tool 'nope' not found");
}

#[test]
fn generate_without_content_rejected() {
    let server = create_server();
    let args = ToolArgs { content: None, image_data: None };
    let params = call_params(Some("generate_qr_code"), Some(args));
    let resp = expect_response(server.handle_request(&request("tools/call", Some(params))));
    let (code, message) = expect_error(resp);
    assert_eq!(code, -32000);
    assert_eq!(message, "Missing required parameter: content");
}

#[test]
fn decode_without_image_data_rejected() {
    let server = create_server();
    let args = ToolArgs { content: None, image_data: None };
    let params = call_params(Some("decode_qr_code"), Some(args));
    let resp = expect_response(server.handle_request(&request("tools/call", Some(params))));
    let (code, message) = expect_error(resp);
    assert_eq!(code, -32000);
    assert_eq!(message, "Missing required parameter: image_data");
}

#[test]
fn generate_hands_out_upload_then_succeeds() {
    let server = create_server();
    let args = ToolArgs { content: Some("hello".to_string()), image_data: None };
    let params = call_params(Some("generate_qr_code"), Some(args));
    match server.handle_request(&request("tools/call", Some(params))) {
        DispatchOutcome::Upload { id, png } => {
            assert_eq!(id, Some("1".to_string()));
            assert_eq!(&png[0..4], &[137u8, 80, 78, 71]);
            let resp = finish_upload(id, Some("https://files.catbox.moe/xyz.png"));
            match resp.outcome.unwrap() {
                ResponsePayload::ToolResult(ToolOutput::Url(u)) => {
                    assert_eq!(u, "https://files.catbox.moe/xyz.png");
                }
                _ => panic!("expected the published URL"),
            }
        }
        _ => panic!("expected a pending upload"),
    }
}

#[test]
fn failed_upload_collapses_to_one_error() {
    let resp = finish_upload(Some("7".to_string()), Some("nope"));
    let (code, message) = expect_error(resp);
    assert_eq!(code, -32000);
    assert_eq!(message, "Upload failed");
}

#[test]
fn decode_inline_completes_without_network() {
    let server = create_server();
    let png = generate_prepare("dispatched").unwrap();
    let encoded = base64::engine::general_purpose::STANDARD.encode(&png);
    let args = ToolArgs { content: None, image_data: Some(encoded) };
    let params = call_params(Some("decode_qr_code"), Some(args));
    let resp = expect_response(server.handle_request(&request("tools/call", Some(params))));
    match resp.outcome.unwrap() {
        ResponsePayload::ToolResult(ToolOutput::Content(c)) => assert_eq!(c, "dispatched"),
        _ => panic!("expected the decoded text"),
    }
}

#[test]
fn decode_url_hands_out_fetch_then_succeeds() {
    let server = create_server();
    let args = ToolArgs {
        content: None,
        image_data: Some("http://files.catbox.moe/xyz.png".to_string()),
    };
    let params = call_params(Some("decode_qr_code"), Some(args));
    match server.handle_request(&request("tools/call", Some(params))) {
        DispatchOutcome::Fetch { id, url } => {
            assert_eq!(url, "https://files.catbox.moe/xyz.png");
            assert!(finish_fetch_headers(id.clone(), true, Some("image/png"), None).is_none());
            let png = generate_prepare("fetched").unwrap();
            let resp = finish_fetch_body(id, png);
            match resp.outcome.unwrap() {
                ResponsePayload::ToolResult(ToolOutput::Content(c)) => assert_eq!(c, "fetched"),
                _ => panic!("expected the decoded text"),
            }
        }
        _ => panic!("expected a pending fetch"),
    }
}

#[test]
fn fetch_header_judgment_can_end_the_call() {
    let resp = finish_fetch_headers(Some("9".to_string()), true, Some("text/html"), None)
        .expect("expected a finished error response");
    let (code, message) = expect_error(resp);
    assert_eq!(code, -32000);
    assert_eq!(message, "Not an image");
}

#[test]
fn fetch_transport_failures_named() {
    let (_, m1) = expect_error(finish_fetch_failure(None, FetchFailure::ClientBuild));
    assert_eq!(m1, "HTTP client error");
    let (_, m2) = expect_error(finish_fetch_failure(None, FetchFailure::Send));
    assert_eq!(m2, "Download failed");
    let (_, m3) = expect_error(finish_fetch_failure(None, FetchFailure::Read));
    assert_eq!(m3, "Read failed");
}

#[test]
fn envelope_without_id_is_dropped() {
    let server = create_server();
    let req = RequestEnvelope { id: None, method: "initialize".to_string(), params: None };
    assert!(server.process_envelope(&req).is_none());
}

#[test]
fn envelope_with_id_gets_exactly_one_outcome() {
    let server = create_server();
    let req = request("initialize", None);
    assert!(server.process_envelope(&req).is_some());
}
