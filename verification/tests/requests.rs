use serde_json::Value;
use session_launch::request::ServerRequest;

fn json(request: ServerRequest) -> Value {
    Value::Object(request.to_json())
}

fn parsed(text: &str) -> Value {
    serde_json::from_str(text).unwrap()
}

#[test]
fn cycle_model_request() {
    assert_eq!(
        json(ServerRequest::CycleModel { id: 2, direction: -1 }),
        parsed(r#"{"type":"cycle_model","id":2,"direction":-1}"#)
    );
    assert_eq!(
        json(ServerRequest::CycleModel { id: 3, direction: 1 }),
        parsed(r#"{"type":"cycle_model","id":3,"direction":1}"#)
    );
}

#[test]
fn catalog_and_history_requests() {
    assert_eq!(
        json(ServerRequest::GetModelCatalog { id: u64::MAX }),
        parsed(r#"{"type":"get_model_catalog","id":18446744073709551615}"#)
    );
    assert_eq!(
        json(ServerRequest::GetHistory { id: 4 }),
        parsed(r#"{"type":"get_history","id":4}"#)
    );
}

#[test]
fn set_requests() {
    assert_eq!(
        json(ServerRequest::SetModel { id: 5, model: "a \"b\"".to_string() }),
        parsed(r#"{"type":"set_model","id":5,"model":"a \"b\""}"#)
    );
    assert_eq!(
        json(ServerRequest::SetReasoningEffort { id: 6, effort: "low".to_string() }),
        parsed(r#"{"type":"set_reasoning_effort","id":6,"effort":"low"}"#)
    );
}

#[test]
fn message_request_carries_its_images() {
    let images = vec![
        ("image/png".to_string(), "AAAA".to_string()),
        ("image/jpeg".to_string(), "BBBB".to_string()),
    ];
    assert_eq!(
        json(ServerRequest::Message { id: 7, content: "hello\n".to_string(), images }),
        parsed(
            r#"{"type":"message","id":7,"content":"hello\n",
                "images":[["image/png","AAAA"],["image/jpeg","BBBB"]]}"#
        )
    );
    assert_eq!(
        json(ServerRequest::Message { id: 8, content: String::new(), images: Vec::new() }),
        parsed(r#"{"type":"message","id":8,"content":"","images":[]}"#)
    );
}

#[test]
fn an_image_pair_is_written_as_the_pair_serialises() {
    let images = vec![("a".to_string(), "b".to_string())];
    let request = ServerRequest::Message { id: 1, content: String::new(), images: images.clone() };
    assert_eq!(json(request)["images"], serde_json::to_value(&images).unwrap());
}

#[test]
fn different_requests_have_different_objects() {
    let requests = [
        ServerRequest::CycleModel { id: 1, direction: 0 },
        ServerRequest::CycleModel { id: 1, direction: 1 },
        ServerRequest::GetModelCatalog { id: 1 },
        ServerRequest::GetModelCatalog { id: 2 },
        ServerRequest::SetModel { id: 1, model: "x".to_string() },
        ServerRequest::GetHistory { id: 1 },
        ServerRequest::SetReasoningEffort { id: 1, effort: "x".to_string() },
        ServerRequest::Message { id: 1, content: "x".to_string(), images: Vec::new() },
    ];
    for (i, a) in requests.iter().enumerate() {
        for b in &requests[..i] {
            assert_ne!(a.to_json(), b.to_json());
        }
    }
}
