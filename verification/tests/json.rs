use sd_mobile_core::json::{Json, JsonNumber};
use sd_mobile_core::wire::{JsonRpcError, JsonRpcErrorData, JsonRpcResponse};

#[test]
fn builders_make_the_documents_they_name() {
    assert_eq!(Json::text("a\"b"), Json::Text("a\"b".to_string()));
    assert_eq!(Json::unsigned(120), Json::Number(JsonNumber::PosInt(120)));
    assert_eq!(
        Json::object1("reason", Json::text("why")),
        Json::Object(vec![("reason".to_string(), Json::Text("why".to_string()))])
    );
    assert_eq!(
        Json::object2("method", Json::text("m"), "timeout_secs", Json::unsigned(30)),
        Json::Object(vec![
            ("method".to_string(), Json::Text("m".to_string())),
            ("timeout_secs".to_string(), Json::Number(JsonNumber::PosInt(30))),
        ])
    );
}

#[test]
fn only_an_object_without_entries_is_an_empty_object() {
    assert!(Json::Object(Vec::new()).is_empty_object());
    assert!(!Json::Object(vec![("k".to_string(), Json::Null)]).is_empty_object());
    assert!(!Json::Null.is_empty_object());
    assert!(!Json::Array(Vec::new()).is_empty_object());
    assert!(!Json::Text(String::new()).is_empty_object());
    assert!(!Json::Bool(false).is_empty_object());
    assert!(!Json::Number(JsonNumber::NegInt(-1)).is_empty_object());
    assert!(!Json::Number(JsonNumber::Float(0)).is_empty_object());
}

#[test]
fn responses_carry_a_result_or_an_error() {
    let ok = JsonRpcResponse::success("1".to_string(), Json::Bool(true));
    assert_eq!(
        ok,
        JsonRpcResponse {
            jsonrpc: "2.0".to_string(),
            id: "1".to_string(),
            result: Some(Json::Bool(true)),
            error: None,
        }
    );
    let failed = JsonRpcResponse::failure("2".to_string(), -32000, "m".to_string(), "TAG", None);
    assert_eq!(
        failed,
        JsonRpcResponse {
            jsonrpc: "2.0".to_string(),
            id: "2".to_string(),
            result: None,
            error: Some(JsonRpcError {
                code: -32000,
                message: "m".to_string(),
                data: Some(JsonRpcErrorData { error_type: "TAG".to_string(), details: None }),
            }),
        }
    );
    let bare = JsonRpcResponse::bare_failure(String::new(), -32700, "p".to_string());
    assert_eq!(
        bare,
        JsonRpcResponse {
            jsonrpc: "2.0".to_string(),
            id: String::new(),
            result: None,
            error: Some(JsonRpcError { code: -32700, message: "p".to_string(), data: None }),
        }
    );
}
