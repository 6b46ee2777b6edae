use apollo::graphql::client::org_memberships_of;
use apollo::graphql::client::ApolloCloudClient;
use apollo::graphql::client::GraphqlOperationError;
use apollo::graphql::client::COULD_NOT_AUTHENTICATE;
use apollo::graphql::client::COULD_NOT_FETCH;
use apollo::graphql::transport::TransportOutcome;
use apollo::graphql::types::Account;
use apollo::graphql::types::GetOrgMembershipData;
use apollo::graphql::types::GetOrgMembershipResponse;
use apollo::graphql::types::GraphqlError;
use apollo::graphql::types::Me;
use apollo::graphql::types::Membership;
use apollo::graphql::types::Reply;
use std::collections::HashSet;

fn client() -> ApolloCloudClient {
    ApolloCloudClient::new("https://example.test/graphql".to_string(), "key-123".to_string())
}

fn replied(body: &str) -> TransportOutcome {
    TransportOutcome::Replied { status: 200, body: body.to_string() }
}

fn membership(id: &str) -> Membership {
    Membership { account: Account { id: id.to_string() } }
}

fn authentication_failure() -> GraphqlOperationError {
    GraphqlOperationError { message: COULD_NOT_AUTHENTICATE.to_string(), user_error: true }
}

fn fetch_failure() -> GraphqlOperationError {
    GraphqlOperationError { message: COULD_NOT_FETCH.to_string(), user_error: false }
}

#[test]
fn memberships_across_distinct_accounts_are_all_returned() {
    let body = r#"{"data":{"me":{"memberships":[
        {"account":{"id":"acme"}},
        {"account":{"id":"globex"}},
        {"account":{"id":"initech"}}
    ]}}}"#;
    let ids = client().get_org_memberships(replied(body)).unwrap();
    assert_eq!(ids, vec!["acme".to_string(), "globex".to_string(), "initech".to_string()]);
    let set: HashSet<String> = ids.into_iter().collect();
    assert_eq!(set.len(), 3);
}

#[test]
fn two_memberships_in_one_account_collapse() {
    let body = r#"{"data":{"me":{"memberships":[{"account":{"id":"acme"}},{"account":{"id":"acme"}}]}}}"#;
    let ids = client().get_org_memberships(replied(body)).unwrap();
    assert_eq!(ids, vec!["acme".to_string()]);
    assert_eq!(ids.len(), 1);
}

#[test]
fn repeated_accounts_keep_their_first_place() {
    let response = GetOrgMembershipResponse {
        data: Some(GetOrgMembershipData {
            me: Some(Me {
                memberships: vec![
                    membership("b"),
                    membership("a"),
                    membership("b"),
                    membership("c"),
                    membership("a"),
                ],
            }),
        }),
        errors: None,
    };
    assert_eq!(
        org_memberships_of(&response),
        Ok(vec!["b".to_string(), "a".to_string(), "c".to_string()])
    );
}

#[test]
fn a_user_without_memberships_gives_an_empty_list() {
    let ids = client().get_org_memberships(replied(r#"{"data":{"me":{"memberships":[]}}}"#));
    assert_eq!(ids, Ok(Vec::<String>::new()));
}

#[test]
fn absent_data_is_an_authentication_failure() {
    assert_eq!(client().get_org_memberships(replied("{}")), Err(authentication_failure()));
    assert_eq!(
        client().get_org_memberships(replied(r#"{"data":null}"#)),
        Err(authentication_failure())
    );
    let response = GetOrgMembershipResponse { data: None, errors: None };
    assert_eq!(org_memberships_of(&response), Err(authentication_failure()));
}

#[test]
fn absent_me_is_an_authentication_failure() {
    assert_eq!(
        client().get_org_memberships(replied(r#"{"data":{"me":null}}"#)),
        Err(authentication_failure())
    );
    assert_eq!(
        client().get_org_memberships(replied(r#"{"data":{}}"#)),
        Err(authentication_failure())
    );
    let response =
        GetOrgMembershipResponse { data: Some(GetOrgMembershipData { me: None }), errors: None };
    assert_eq!(org_memberships_of(&response), Err(authentication_failure()));
}

#[test]
fn authentication_failure_text_is_fixed() {
    let e = client().get_org_memberships(replied("{}")).unwrap_err();
    assert_eq!(e.message, "could not authenticate; check that your token is current");
    assert!(e.user_error);
}

#[test]
fn memberships_ignore_listed_errors() {
    let body = r#"{"data":{"me":{"memberships":[{"account":{"id":"acme"}}]}},"errors":[{"message":"partial"}]}"#;
    assert_eq!(client().get_org_memberships(replied(body)), Ok(vec!["acme".to_string()]));
    let with_errors_only = r#"{"errors":[{"message":"unauthorized"}]}"#;
    assert_eq!(
        client().get_org_memberships(replied(with_errors_only)),
        Err(authentication_failure())
    );
}

#[test]
fn memberships_transport_failure_is_recoverable() {
    let outcome = TransportOutcome::Failed { message: "connection refused".to_string() };
    assert_eq!(client().get_org_memberships(outcome), Err(fetch_failure()));
    assert_eq!(client().get_org_memberships(TransportOutcome::TimedOut), Err(fetch_failure()));
}

#[test]
fn memberships_fetch_failure_text_is_fixed() {
    let e = client().get_org_memberships(TransportOutcome::TimedOut).unwrap_err();
    assert_eq!(e.message, "could not fetch organizations");
    assert!(!e.user_error);
}

#[test]
fn memberships_bad_status_is_a_fetch_failure() {
    let outcome = TransportOutcome::Replied {
        status: 500,
        body: r#"{"data":{"me":{"memberships":[]}}}"#.to_string(),
    };
    assert_eq!(client().get_org_memberships(outcome), Err(fetch_failure()));
}

#[test]
fn memberships_undecodable_bodies_are_fetch_failures() {
    for body in [
        "not json",
        "",
        "[]",
        "null",
        "42",
        r#"{"data":5}"#,
        r#"{"data":{"me":5}}"#,
        r#"{"data":{"me":{}}}"#,
        r#"{"data":{"me":{"memberships":{}}}}"#,
        r#"{"data":{"me":{"memberships":[{}]}}}"#,
        r#"{"data":{"me":{"memberships":[{"account":{}}]}}}"#,
        r#"{"data":{"me":{"memberships":[{"account":{"id":7}}]}}}"#,
        r#"{"data":{"me":{"memberships":[{"account":{"id":"a"}},{"account":null}]}}}"#,
        r#"{"errors":"boom"}"#,
        r#"{"errors":[{"text":"boom"}]}"#,
    ] {
        assert_eq!(client().get_org_memberships(replied(body)), Err(fetch_failure()), "{}", body);
    }
}

#[test]
fn memberships_reply_decodes_into_its_typed_shape() {
    let doc = serde_json::from_str::<serde_json::Value>(
        r#"{"data":{"me":{"memberships":[{"account":{"id":"acme","name":"Acme"}}],"extra":1}},"errors":[{"message":"m1","path":[]}],"extensions":{}}"#,
    )
    .unwrap();
    let expected = GetOrgMembershipResponse {
        data: Some(GetOrgMembershipData { me: Some(Me { memberships: vec![membership("acme")] }) }),
        errors: Some(vec![GraphqlError { message: "m1".to_string() }]),
    };
    assert_eq!(GetOrgMembershipResponse::decode(&doc), Some(expected));
}

#[test]
fn memberships_reply_with_null_members_decodes_as_absent() {
    let doc =
        serde_json::from_str::<serde_json::Value>(r#"{"data":null,"errors":null}"#).unwrap();
    assert_eq!(
        GetOrgMembershipResponse::decode(&doc),
        Some(GetOrgMembershipResponse { data: None, errors: None })
    );
    let not_an_object = serde_json::from_str::<serde_json::Value>("[1,2]").unwrap();
    assert_eq!(GetOrgMembershipResponse::decode(&not_an_object), None);
}
