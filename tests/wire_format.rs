use catalyst_plugin_api::mcp_server::McpRequest;
use catalyst_plugin_api::wire::{decimal_string, encode_request, json_string, LineFramer};

#[test]
fn request_line_without_params() {
    let r = McpRequest { id: 123, method: "tools/list".to_string(), params: None };
    assert_eq!(encode_request(&r), "{\"jsonrpc\":\"2.0\",\"id\":123,\"method\":\"tools/list\"}\n");
}

#[test]
fn request_line_with_params() {
    let r = McpRequest { id: 1, method: "initialize".to_string(), params: Some("{\"protocolVersion\":\"2024-11-05\"}".to_string()) };
    assert_eq!(
        encode_request(&r),
        "{\"jsonrpc\":\"2.0\",\"id\":1,\"method\":\"initialize\",\"params\":{\"protocolVersion\":\"2024-11-05\"}}\n"
    );
}

#[test]
fn json_strings_are_escaped() {
    assert_eq!(json_string("a\"b\\c\n"), "\"a\\\"b\\\\c\\n\"");
    assert_eq!(json_string(""), "\"\"");
}

#[test]
fn decimals() {
    assert_eq!(decimal_string(0), "0");
    assert_eq!(decimal_string(18446744073709551615), "18446744073709551615");
}

#[test]
fn frames_cut_at_line_feeds() {
    let mut f = LineFramer::new();
    assert!(f.push(b"{\"id\":1").is_empty());
    let got = f.push(b"}\n{\"id\":2}\n{\"id");
    assert_eq!(got, vec![b"{\"id\":1}".to_vec(), b"{\"id\":2}".to_vec()]);
    let got = f.push(b"\":3}\n\n");
    assert_eq!(got, vec![b"{\"id\":3}".to_vec(), Vec::new()]);
    assert!(f.push(b"").is_empty());
}
