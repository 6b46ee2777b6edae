use apollo::graphql::client::new_graph_key_of;
use apollo::graphql::client::ApolloCloudClient;
use apollo::graphql::client::GraphqlOperationError;
use apollo::graphql::client::NO_API_KEY;
use apollo::graphql::client::NO_DATA;
use apollo::graphql::transport::TransportOutcome;
use apollo::graphql::transport::BAD_STATUS;
use apollo::graphql::transport::TIMED_OUT;
use apollo::graphql::transport::UNEXPECTED_SHAPE;
use apollo::graphql::types::ApiKey;
use apollo::graphql::types::CreateGraphData;
use apollo::graphql::types::CreateGraphResponse;
use apollo::graphql::types::GraphqlError;
use apollo::graphql::types::NewService;
use apollo::graphql::types::Reply;

fn cloud() -> ApolloCloudClient {
    ApolloCloudClient::new("https://example.test/graphql".to_string(), "key-123".to_string())
}

fn answered(body: &str) -> TransportOutcome {
    TransportOutcome::Replied { status: 200, body: body.to_string() }
}

fn internal(message: &str) -> GraphqlOperationError {
    GraphqlOperationError { message: message.to_string(), user_error: false }
}

fn service(keys: &[&str]) -> CreateGraphData {
    CreateGraphData {
        newService: NewService {
            id: "my-graph".to_string(),
            apiKeys: keys.iter().map(|t| ApiKey { token: t.to_string() }).collect(),
        },
    }
}

#[test]
fn single_key_reply_returns_that_token() {
    let body = r#"{"data":{"newService":{"id":"my-graph","apiKeys":[{"token":"service:my-graph:abc"}]}}}"#;
    assert_eq!(cloud().create_new_graph(answered(body)), Ok("service:my-graph:abc".to_string()));
}

#[test]
fn first_of_several_keys_is_returned() {
    let body = r#"{"data":{"newService":{"id":"g","apiKeys":[{"token":"first"},{"token":"second"}]}}}"#;
    assert_eq!(cloud().create_new_graph(answered(body)), Ok("first".to_string()));
    let response = CreateGraphResponse { data: Some(service(&["k1", "k2", "k3"])), errors: None };
    assert_eq!(new_graph_key_of(&response), Ok("k1".to_string()));
}

#[test]
fn two_errors_are_joined_by_a_newline() {
    let body = r#"{"errors":[{"message":"graph id taken"},{"message":"account not found"}]}"#;
    assert_eq!(
        cloud().create_new_graph(answered(body)),
        Err(internal("graph id taken\naccount not found"))
    );
}

#[test]
fn one_error_is_returned_as_it_is() {
    let response = CreateGraphResponse {
        data: None,
        errors: Some(vec![GraphqlError { message: "only one".to_string() }]),
    };
    assert_eq!(new_graph_key_of(&response), Err(internal("only one")));
}

#[test]
fn three_errors_are_joined_in_order() {
    let response = CreateGraphResponse {
        data: None,
        errors: Some(vec![
            GraphqlError { message: "a".to_string() },
            GraphqlError { message: "".to_string() },
            GraphqlError { message: "c".to_string() },
        ]),
    };
    assert_eq!(new_graph_key_of(&response), Err(internal("a\n\nc")));
}

#[test]
fn errors_win_over_data() {
    let body = r#"{"data":{"newService":{"id":"g","apiKeys":[{"token":"t"}]}},"errors":[{"message":"denied"}]}"#;
    assert_eq!(cloud().create_new_graph(answered(body)), Err(internal("denied")));
}

#[test]
fn an_empty_error_list_is_no_failure() {
    let body = r#"{"data":{"newService":{"id":"g","apiKeys":[{"token":"t"}]}},"errors":[]}"#;
    assert_eq!(cloud().create_new_graph(answered(body)), Ok("t".to_string()));
    let response = CreateGraphResponse { data: None, errors: Some(vec![]) };
    assert_eq!(new_graph_key_of(&response), Err(internal(NO_DATA)));
}

#[test]
fn empty_key_list_is_an_explicit_error() {
    let body = r#"{"data":{"newService":{"id":"my-graph","apiKeys":[]}}}"#;
    let e = cloud().create_new_graph(answered(body)).unwrap_err();
    assert_eq!(e.message, "service created but no API key was returned");
    assert!(!e.user_error);
    let response = CreateGraphResponse { data: Some(service(&[])), errors: None };
    assert_eq!(new_graph_key_of(&response), Err(internal(NO_API_KEY)));
}

#[test]
fn absent_data_without_errors_is_an_error() {
    let e = cloud().create_new_graph(answered("{}")).unwrap_err();
    assert_eq!(e.message, "no data returned");
    assert!(!e.user_error);
    assert_eq!(cloud().create_new_graph(answered(r#"{"data":null}"#)), Err(internal(NO_DATA)));
}

#[test]
fn create_graph_transport_failure_is_recoverable() {
    let outcome = TransportOutcome::Failed { message: "connection refused".to_string() };
    assert_eq!(cloud().create_new_graph(outcome), Err(internal("connection refused")));
}

#[test]
fn create_graph_timeout_is_reported() {
    assert_eq!(cloud().create_new_graph(TransportOutcome::TimedOut), Err(internal(TIMED_OUT)));
    assert_eq!(TIMED_OUT, "request timed out");
}

#[test]
fn create_graph_bad_status_is_reported() {
    let outcome = TransportOutcome::Replied { status: 401, body: "unauthorized".to_string() };
    assert_eq!(cloud().create_new_graph(outcome), Err(internal(BAD_STATUS)));
    assert_eq!(BAD_STATUS, "server answered with a non-success status");
}

#[test]
fn create_graph_wraps_the_parser_message() {
    let body = "<html>oops</html>";
    let expected = serde_json::from_str::<serde_json::Value>(body).unwrap_err().to_string();
    assert!(!expected.is_empty());
    assert_eq!(cloud().create_new_graph(answered(body)), Err(internal(&expected)));
}

#[test]
fn create_graph_reports_a_reply_of_the_wrong_shape() {
    for body in [
        "[]",
        "\"text\"",
        r#"{"data":[]}"#,
        r#"{"data":{}}"#,
        r#"{"data":{"newService":null}}"#,
        r#"{"data":{"newService":{"apiKeys":[]}}}"#,
        r#"{"data":{"newService":{"id":"g"}}}"#,
        r#"{"data":{"newService":{"id":"g","apiKeys":null}}}"#,
        r#"{"data":{"newService":{"id":"g","apiKeys":[{"token":1}]}}}"#,
        r#"{"data":{"newService":{"id":"g","apiKeys":[{}]}}}"#,
        r#"{"data":{"newService":{"id":1,"apiKeys":[]}}}"#,
        r#"{"errors":{"message":"m"}}"#,
        r#"{"errors":[{"message":null}]}"#,
        r#"{"errors":["m"]}"#,
    ] {
        assert_eq!(
            cloud().create_new_graph(answered(body)),
            Err(internal(UNEXPECTED_SHAPE)),
            "{}",
            body
        );
    }
    assert_eq!(UNEXPECTED_SHAPE, "response does not have the expected shape");
}

#[test]
fn create_graph_reply_decodes_into_its_typed_shape() {
    let doc = serde_json::from_str::<serde_json::Value>(
        r#"{"data":{"newService":{"id":"my-graph","apiKeys":[{"token":"t1","id":"k1"},{"token":"t2"}],"name":null}},"errors":[]}"#,
    )
    .unwrap();
    let expected = CreateGraphResponse { data: Some(service(&["t1", "t2"])), errors: Some(vec![]) };
    assert_eq!(CreateGraphResponse::decode(&doc), Some(expected));
    let wrong = serde_json::from_str::<serde_json::Value>(r#"{"data":"nothing"}"#).unwrap();
    assert_eq!(CreateGraphResponse::decode(&wrong), None);
}
