//! The typed shapes of the replies, and how each is read out of a JSON
//! document.
//!
//! A reply is a JSON object with an optional `data` member, whose shape
//! depends on the operation, and an optional `errors` member, an array of
//! objects that each carry a `message`. A member that may be left out reads as
//! absent both when it is missing and when it holds `null`. Members that are
//! not named here are ignored.

use vstd::prelude::*;
use crate::graphql::json::JsonValue;
use crate::graphql::json::json_content;
use crate::graphql::json::json_is_null;
use crate::graphql::json::json_is_object;
use crate::graphql::json::json_items;
use crate::graphql::json::json_member;
use crate::graphql::json::json_quote;
use crate::graphql::json::json_string_literal;
use crate::graphql::json::json_text;

verus! {

/// One entry of a reply's `errors` array.
#[derive(Debug, Clone, PartialEq, Eq)]
pub struct GraphqlError {
    pub message: String,
}

/// An account, known by its identifier.
#[derive(Debug, Clone, PartialEq, Eq)]
pub struct Account {
    pub id: String,
}

/// The tie between the signed-in user and one account.
#[derive(Debug, Clone, PartialEq, Eq)]
pub struct Membership {
    pub account: Account,
}

/// The signed-in user.
#[derive(Debug, Clone, PartialEq, Eq)]
pub struct Me {
    pub memberships: Vec<Membership>,
}

/// The `data` of a reply to the memberships query.
#[derive(Debug, Clone, PartialEq, Eq)]
pub struct GetOrgMembershipData {
    pub me: Option<Me>,
}

/// A reply to the memberships query.
#[derive(Debug, Clone, PartialEq, Eq)]
pub struct GetOrgMembershipResponse {
    pub data: Option<GetOrgMembershipData>,
    pub errors: Option<Vec<GraphqlError>>,
}

/// One API key of a graph.
#[derive(Debug, Clone, PartialEq, Eq)]
pub struct ApiKey {
    pub token: String,
}

/// A newly created graph.
#[allow(non_snake_case)]
#[derive(Debug, Clone, PartialEq, Eq)]
pub struct NewService {
    pub id: String,
    pub apiKeys: Vec<ApiKey>,
}

/// The `data` of a reply to the create-graph mutation.
#[allow(non_snake_case)]
#[derive(Debug, Clone, PartialEq, Eq)]
pub struct CreateGraphData {
    pub newService: NewService,
}

/// A reply to the create-graph mutation.
#[derive(Debug, Clone, PartialEq, Eq)]
pub struct CreateGraphResponse {
    pub data: Option<CreateGraphData>,
    pub errors: Option<Vec<GraphqlError>>,
}

/// The variables of the create-graph mutation.
#[allow(non_snake_case)]
#[derive(Debug, Clone, PartialEq, Eq)]
pub struct CreateGraphVariables {
    pub graphID: String,
    pub accountID: String,
}

/// What a reply says, whatever its payload: the payload if there is one, and
/// the messages of its errors if it lists any.
pub struct ResponseView<T> {
    pub data: Option<T>,
    pub errors: Option<Seq<Seq<char>>>,
}

/// What the payload of a create-graph reply says: the new graph's identifier
/// and the tokens of its API keys, in order.
pub struct NewServiceView {
    pub id: Seq<char>,
    pub tokens: Seq<Seq<char>>,
}

/// The messages of a list of errors, in order.
pub open spec fn error_messages(errors: Seq<GraphqlError>) -> Seq<Seq<char>> {
    errors.map_values(|e: GraphqlError| e.message@)
}

/// The account identifiers of a list of memberships, in order.
pub open spec fn account_ids(memberships: Seq<Membership>) -> Seq<Seq<char>> {
    memberships.map_values(|m: Membership| m.account.id@)
}

/// The tokens of a list of API keys, in order.
pub open spec fn key_tokens(keys: Seq<ApiKey>) -> Seq<Seq<char>> {
    keys.map_values(|k: ApiKey| k.token@)
}

/// The messages of an optional list of errors.
pub open spec fn optional_messages(errors: Option<Vec<GraphqlError>>) -> Option<Seq<Seq<char>>> {
    match errors {
        Some(list) => Some(error_messages(list@)),
        None => None,
    }
}

impl View for GetOrgMembershipData {
    /// The account identifiers of the user's memberships, if there is a user.
    type V = Option<Seq<Seq<char>>>;

    open spec fn view(&self) -> Option<Seq<Seq<char>>> {
        match self.me {
            Some(me) => Some(account_ids(me.memberships@)),
            None => None,
        }
    }
}

impl View for GetOrgMembershipResponse {
    type V = ResponseView<Option<Seq<Seq<char>>>>;

    open spec fn view(&self) -> ResponseView<Option<Seq<Seq<char>>>> {
        ResponseView {
            data: match self.data {
                Some(data) => Some(data@),
                None => None,
            },
            errors: optional_messages(self.errors),
        }
    }
}

impl View for NewService {
    type V = NewServiceView;

    open spec fn view(&self) -> NewServiceView {
        NewServiceView { id: self.id@, tokens: key_tokens(self.apiKeys@) }
    }
}

impl View for CreateGraphResponse {
    type V = ResponseView<NewServiceView>;

    open spec fn view(&self) -> ResponseView<NewServiceView> {
        ResponseView {
            data: match self.data {
                Some(data) => Some(data.newService@),
                None => None,
            },
            errors: optional_messages(self.errors),
        }
    }
}

/// The variables object around two string literals: the member `graphID`,
/// then the member `accountID`.
pub open spec fn framed_variables(graph_literal: Seq<char>, account_literal: Seq<char>) -> Seq<
    char,
> {
    "{\"graphID\":"@ + graph_literal + ",\"accountID\":"@ + account_literal + "}"@
}

/// The JSON text of the variables of the create-graph mutation.
pub open spec fn variables_json(graph_id: Seq<char>, account_id: Seq<char>) -> Seq<char> {
    framed_variables(json_string_literal(graph_id), json_string_literal(account_id))
}

/// Writes the variables object around two JSON string literals, which are
/// copied as they are.
pub fn frame_variables(graph_literal: &str, account_literal: &str) -> (text: String)
    ensures
        text@ == framed_variables(graph_literal@, account_literal@),
{
    let mut text = String::from_str("{\"graphID\":");
    text.append(graph_literal);
    text.append(",\"accountID\":");
    text.append(account_literal);
    text.append("}");
    text
}

/// The variables of an operation: a value that writes itself out as the JSON
/// text of an object.
pub trait Variables {
    /// The JSON text of the variables.
    spec fn json(&self) -> Seq<char>;

    /// Serializes the variables into JSON text.
    fn to_json(&self) -> (text: String)
        ensures
            text@ == self.json(),
    ;
}

impl Variables for CreateGraphVariables {
    open spec fn json(&self) -> Seq<char> {
        variables_json(self.graphID@, self.accountID@)
    }

    fn to_json(&self) -> (text: String) {
        let graph_literal = json_quote(self.graphID.as_str()).unwrap();
        let account_literal = json_quote(self.accountID.as_str()).unwrap();
        frame_variables(graph_literal.as_str(), account_literal.as_str())
    }
}

/// The documents held by a list of parsed values, in order.
pub open spec fn contents(values: Seq<serde_json::Value>) -> Seq<JsonValue> {
    values.map_values(|v: serde_json::Value| json_content(v))
}

/// A member that may be left out: `None` when the key is missing or holds
/// `null`.
pub open spec fn optional_member(doc: JsonValue, key: Seq<char>) -> Option<JsonValue> {
    match doc.member(key) {
        Some(found) => if found is Null {
            None
        } else {
            Some(found)
        },
        None => None,
    }
}

/// A member that must be a string: its text, or `None` when the key is
/// missing or holds anything else.
pub open spec fn text_member(doc: JsonValue, key: Seq<char>) -> Option<Seq<char>> {
    match doc.member(key) {
        Some(JsonValue::Text(text)) => Some(text),
        _ => None,
    }
}

/// The message of one entry of `errors`.
pub open spec fn read_error(item: JsonValue) -> Option<Seq<char>> {
    text_member(item, "message"@)
}

/// The account identifier of one membership.
pub open spec fn read_membership(item: JsonValue) -> Option<Seq<char>> {
    match item.member("account"@) {
        Some(account) => text_member(account, "id"@),
        None => None,
    }
}

/// The token of one API key.
pub open spec fn read_api_key(item: JsonValue) -> Option<Seq<char>> {
    text_member(item, "token"@)
}

/// Reads every element of a list with `read`: `None` as soon as one element
/// does not read.
pub open spec fn read_each(
    items: Seq<JsonValue>,
    read: spec_fn(JsonValue) -> Option<Seq<char>>,
) -> Option<Seq<Seq<char>>> {
    if forall|i: int| 0 <= i < items.len() ==> (#[trigger] read(items[i])) is Some {
        Some(items.map_values(|item: JsonValue| read(item).unwrap()))
    } else {
        None
    }
}

/// Reads an array whose elements all read with `read`.
pub open spec fn read_list(
    doc: JsonValue,
    read: spec_fn(JsonValue) -> Option<Seq<char>>,
) -> Option<Seq<Seq<char>>> {
    match doc {
        JsonValue::Array(items) => read_each(items, read),
        _ => None,
    }
}

/// The `errors` member of a reply: `Some(None)` when it is absent,
/// `Some(Some(messages))` when it is an array of well-formed entries, `None`
/// when it has another shape.
pub open spec fn read_errors(doc: JsonValue) -> Option<Option<Seq<Seq<char>>>> {
    match optional_member(doc, "errors"@) {
        None => Some(None),
        Some(list) => match read_list(list, |item: JsonValue| read_error(item)) {
            Some(messages) => Some(Some(messages)),
            None => None,
        },
    }
}

/// The user of a memberships reply, as the account identifiers of the
/// memberships.
pub open spec fn read_me(doc: JsonValue) -> Option<Seq<Seq<char>>> {
    match doc.member("memberships"@) {
        Some(list) => read_list(list, |item: JsonValue| read_membership(item)),
        None => None,
    }
}

/// The `data` of a memberships reply: an object whose `me` may be left out.
pub open spec fn read_memberships_data(doc: JsonValue) -> Option<Option<Seq<Seq<char>>>> {
    if !(doc is Object) {
        None
    } else {
        match optional_member(doc, "me"@) {
            None => Some(None),
            Some(me) => match read_me(me) {
                Some(ids) => Some(Some(ids)),
                None => None,
            },
        }
    }
}

/// The new graph of a create-graph reply.
pub open spec fn read_new_service(doc: JsonValue) -> Option<NewServiceView> {
    match (text_member(doc, "id"@), doc.member("apiKeys"@)) {
        (Some(id), Some(list)) => match read_list(list, |item: JsonValue| read_api_key(item)) {
            Some(tokens) => Some(NewServiceView { id, tokens }),
            None => None,
        },
        _ => None,
    }
}

/// The `data` of a create-graph reply: an object that holds the new graph.
pub open spec fn read_create_graph_data(doc: JsonValue) -> Option<NewServiceView> {
    match doc.member("newService"@) {
        Some(service) => read_new_service(service),
        None => None,
    }
}

/// A whole memberships reply, or `None` when the document does not have that
/// shape.
pub open spec fn read_memberships_response(doc: JsonValue) -> Option<
    ResponseView<Option<Seq<Seq<char>>>>,
> {
    if !(doc is Object) {
        None
    } else {
        match (optional_member(doc, "data"@), read_errors(doc)) {
            (_, None) => None,
            (None, Some(errors)) => Some(ResponseView { data: None, errors }),
            (Some(data), Some(errors)) => match read_memberships_data(data) {
                Some(me) => Some(ResponseView { data: Some(me), errors }),
                None => None,
            },
        }
    }
}

/// A whole create-graph reply, or `None` when the document does not have that
/// shape.
pub open spec fn read_create_graph_response(doc: JsonValue) -> Option<
    ResponseView<NewServiceView>,
> {
    if !(doc is Object) {
        None
    } else {
        match (optional_member(doc, "data"@), read_errors(doc)) {
            (_, None) => None,
            (None, Some(errors)) => Some(ResponseView { data: None, errors }),
            (Some(data), Some(errors)) => match read_create_graph_data(data) {
                Some(service) => Some(ResponseView { data: Some(service), errors }),
                None => None,
            },
        }
    }
}

/// A kind of reply that can be read out of a JSON document.
pub trait Reply: View + Sized {
    /// What a document says when it is read as this kind of reply, or `None`
    /// when it does not have the shape.
    spec fn read(doc: JsonValue) -> Option<Self::V>;

    /// Decodes a reply from a parsed document. Returns `None` exactly when
    /// the document does not have the shape of such a reply.
    fn decode(doc: &serde_json::Value) -> (r: Option<Self>)
        ensures
            match r {
                Some(reply) => Self::read(json_content(*doc)) == Some(reply@),
                None => Self::read(json_content(*doc)) is None,
            },
    ;
}

/// Looks up a member that may be left out.
fn find_optional<'a>(doc: &'a serde_json::Value, key: &str) -> (r: Option<&'a serde_json::Value>)
    ensures
        match r {
            Some(found) => optional_member(json_content(*doc), key@) == Some(json_content(*found)),
            None => optional_member(json_content(*doc), key@) is None,
        },
{
    match json_member(doc, key) {
        Some(found) => if json_is_null(found) {
            None
        } else {
            Some(found)
        },
        None => None,
    }
}

/// Looks up a member that must be a string, and copies its text.
fn find_text(doc: &serde_json::Value, key: &str) -> (r: Option<String>)
    ensures
        match r {
            Some(text) => text_member(json_content(*doc), key@) == Some(text@),
            None => text_member(json_content(*doc), key@) is None,
        },
{
    match json_member(doc, key) {
        Some(found) => match json_text(found) {
            Some(text) => Some(String::from_str(text)),
            None => None,
        },
        None => None,
    }
}

/// Decodes the entries of an `errors` array.
fn decode_errors_list(items: &Vec<serde_json::Value>) -> (r: Option<Vec<GraphqlError>>)
    ensures
        match r {
            Some(list) => read_each(contents(items@), |item: JsonValue| read_error(item)) == Some(
                error_messages(list@),
            ),
            None => read_each(contents(items@), |item: JsonValue| read_error(item)) is None,
        },
{
    let ghost docs = contents(items@);
    let ghost read = |item: JsonValue| read_error(item);
    let mut list: Vec<GraphqlError> = Vec::new();
    let mut i: usize = 0;
    while i < items.len()
        invariant
            0 <= i <= items.len(),
            docs == contents(items@),
            read == (|item: JsonValue| read_error(item)),
            list@.len() == i,
            forall|j: int| 0 <= j < i ==> (#[trigger] read(docs[j])) == Some(list@[j].message@),
        decreases items.len() - i,
    {
        match find_text(&items[i], "message") {
            Some(message) => {
                list.push(GraphqlError { message });
            },
            None => {
                assert(read(docs[i as int]) is None);
                return None;
            },
        }
        i = i + 1;
    }
    Some(list)
}

/// Decodes the entries of a `memberships` array.
fn decode_memberships_list(items: &Vec<serde_json::Value>) -> (r: Option<Vec<Membership>>)
    ensures
        match r {
            Some(list) => read_each(contents(items@), |item: JsonValue| read_membership(item))
                == Some(account_ids(list@)),
            None => read_each(contents(items@), |item: JsonValue| read_membership(item)) is None,
        },
{
    let ghost docs = contents(items@);
    let ghost read = |item: JsonValue| read_membership(item);
    let mut list: Vec<Membership> = Vec::new();
    let mut i: usize = 0;
    while i < items.len()
        invariant
            0 <= i <= items.len(),
            docs == contents(items@),
            read == (|item: JsonValue| read_membership(item)),
            list@.len() == i,
            forall|j: int| 0 <= j < i ==> (#[trigger] read(docs[j])) == Some(list@[j].account.id@),
        decreases items.len() - i,
    {
        let id = match json_member(&items[i], "account") {
            Some(account) => find_text(account, "id"),
            None => None,
        };
        match id {
            Some(id) => {
                list.push(Membership { account: Account { id } });
            },
            None => {
                assert(read(docs[i as int]) is None);
                return None;
            },
        }
        i = i + 1;
    }
    Some(list)
}

/// Decodes the entries of an `apiKeys` array.
fn decode_api_keys(items: &Vec<serde_json::Value>) -> (r: Option<Vec<ApiKey>>)
    ensures
        match r {
            Some(list) => read_each(contents(items@), |item: JsonValue| read_api_key(item))
                == Some(key_tokens(list@)),
            None => read_each(contents(items@), |item: JsonValue| read_api_key(item)) is None,
        },
{
    let ghost docs = contents(items@);
    let ghost read = |item: JsonValue| read_api_key(item);
    let mut list: Vec<ApiKey> = Vec::new();
    let mut i: usize = 0;
    while i < items.len()
        invariant
            0 <= i <= items.len(),
            docs == contents(items@),
            read == (|item: JsonValue| read_api_key(item)),
            list@.len() == i,
            forall|j: int| 0 <= j < i ==> (#[trigger] read(docs[j])) == Some(list@[j].token@),
        decreases items.len() - i,
    {
        match find_text(&items[i], "token") {
            Some(token) => {
                list.push(ApiKey { token });
            },
            None => {
                assert(read(docs[i as int]) is None);
                return None;
            },
        }
        i = i + 1;
    }
    Some(list)
}

/// Decodes the `errors` member of a reply. The outer `None` reports a member
/// of the wrong shape.
fn decode_errors(doc: &serde_json::Value) -> (r: Option<Option<Vec<GraphqlError>>>)
    ensures
        match r {
            Some(errors) => read_errors(json_content(*doc)) == Some(optional_messages(errors)),
            None => read_errors(json_content(*doc)) is None,
        },
{
    match find_optional(doc, "errors") {
        None => Some(None),
        Some(list) => match json_items(list) {
            Some(items) => match decode_errors_list(items) {
                Some(errors) => Some(Some(errors)),
                None => None,
            },
            None => None,
        },
    }
}

/// Decodes the user of a memberships reply.
fn decode_me(doc: &serde_json::Value) -> (r: Option<Me>)
    ensures
        match r {
            Some(me) => read_me(json_content(*doc)) == Some(account_ids(me.memberships@)),
            None => read_me(json_content(*doc)) is None,
        },
{
    match json_member(doc, "memberships") {
        Some(list) => match json_items(list) {
            Some(items) => match decode_memberships_list(items) {
                Some(memberships) => Some(Me { memberships }),
                None => None,
            },
            None => None,
        },
        None => None,
    }
}

/// Decodes the `data` of a memberships reply.
fn decode_memberships_data(doc: &serde_json::Value) -> (r: Option<GetOrgMembershipData>)
    ensures
        match r {
            Some(data) => read_memberships_data(json_content(*doc)) == Some(data@),
            None => read_memberships_data(json_content(*doc)) is None,
        },
{
    if !json_is_object(doc) {
        return None;
    }
    match find_optional(doc, "me") {
        None => Some(GetOrgMembershipData { me: None }),
        Some(me) => match decode_me(me) {
            Some(me) => Some(GetOrgMembershipData { me: Some(me) }),
            None => None,
        },
    }
}

/// Decodes the new graph of a create-graph reply.
fn decode_new_service(doc: &serde_json::Value) -> (r: Option<NewService>)
    ensures
        match r {
            Some(service) => read_new_service(json_content(*doc)) == Some(service@),
            None => read_new_service(json_content(*doc)) is None,
        },
{
    let id = match find_text(doc, "id") {
        Some(id) => id,
        None => {
            return None;
        },
    };
    match json_member(doc, "apiKeys") {
        Some(list) => match json_items(list) {
            Some(items) => match decode_api_keys(items) {
                Some(keys) => Some(NewService { id, apiKeys: keys }),
                None => None,
            },
            None => None,
        },
        None => None,
    }
}

/// Decodes the `data` of a create-graph reply.
fn decode_create_graph_data(doc: &serde_json::Value) -> (r: Option<CreateGraphData>)
    ensures
        match r {
            Some(data) => read_create_graph_data(json_content(*doc)) == Some(data.newService@),
            None => read_create_graph_data(json_content(*doc)) is None,
        },
{
    match json_member(doc, "newService") {
        Some(service) => match decode_new_service(service) {
            Some(service) => Some(CreateGraphData { newService: service }),
            None => None,
        },
        None => None,
    }
}

impl Reply for GetOrgMembershipResponse {
    open spec fn read(doc: JsonValue) -> Option<ResponseView<Option<Seq<Seq<char>>>>> {
        read_memberships_response(doc)
    }

    fn decode(doc: &serde_json::Value) -> (r: Option<GetOrgMembershipResponse>) {
        if !json_is_object(doc) {
            return None;
        }
        let errors = match decode_errors(doc) {
            Some(errors) => errors,
            None => {
                return None;
            },
        };
        match find_optional(doc, "data") {
            None => Some(GetOrgMembershipResponse { data: None, errors }),
            Some(data) => match decode_memberships_data(data) {
                Some(data) => Some(GetOrgMembershipResponse { data: Some(data), errors }),
                None => None,
            },
        }
    }
}

impl Reply for CreateGraphResponse {
    open spec fn read(doc: JsonValue) -> Option<ResponseView<NewServiceView>> {
        read_create_graph_response(doc)
    }

    fn decode(doc: &serde_json::Value) -> (r: Option<CreateGraphResponse>) {
        if !json_is_object(doc) {
            return None;
        }
        let errors = match decode_errors(doc) {
            Some(errors) => errors,
            None => {
                return None;
            },
        };
        match find_optional(doc, "data") {
            None => Some(CreateGraphResponse { data: None, errors }),
            Some(data) => match decode_create_graph_data(data) {
                Some(data) => Some(CreateGraphResponse { data: Some(data), errors }),
                None => None,
            },
        }
    }
}

} // verus!
