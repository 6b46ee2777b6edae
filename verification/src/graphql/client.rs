//! The client: its configuration, the requests of the two supported
//! operations, and what each operation makes of the transport's report.

use vstd::prelude::*;
use crate::graphql::transport::accepts_header_value;
use crate::graphql::transport::decoded_reply;
use crate::graphql::transport::envelope_body;
use crate::graphql::transport::is_header_safe;
use crate::graphql::transport::read_reply;
use crate::graphql::transport::GraphqlQuery;
use crate::graphql::transport::Header;
use crate::graphql::transport::HeaderView;
use crate::graphql::transport::HttpRequest;
use crate::graphql::transport::HttpRequestView;
use crate::graphql::transport::TransportOutcome;
use crate::graphql::types::account_ids;
use crate::graphql::types::error_messages;
use crate::graphql::types::variables_json;
use crate::graphql::types::CreateGraphResponse;
use crate::graphql::types::CreateGraphVariables;
use crate::graphql::types::GetOrgMembershipResponse;
use crate::graphql::types::GraphqlError;
use crate::graphql::types::Membership;
use crate::graphql::types::NewServiceView;
use crate::graphql::types::ResponseView;
use crate::graphql::types::Variables;

verus! {

/// The query that lists the accounts the signed-in user belongs to.
pub const GET_ORG_MEMBERSHIPS_QUERY: &'static str = "
query GetOrgMemberships {
  me {
    ...on User {
      memberships {
         account {
           id
         }
      }
    }
  }
}
";

/// The mutation that creates a graph and returns its API keys.
pub const CREATE_GRAPH_QUERY: &'static str = "
mutation CreateGraph($accountID: ID!, $graphID: ID!) {
  newService(accountId: $accountID, id: $graphID) {
    id
    apiKeys {
      token
    }
  }
}
";

/// The name of the header that carries the API key.
pub const API_KEY_HEADER: &'static str = "X-API-KEY";

/// The name of the header that announces the type of the body.
pub const CONTENT_TYPE_HEADER: &'static str = "CONTENT-TYPE";

/// The type of every request body.
pub const JSON_CONTENT_TYPE: &'static str = "application/json";

/// The message for a memberships query that produced no decoded reply.
pub const COULD_NOT_FETCH: &'static str = "could not fetch organizations";

/// The message for a reply that names no signed-in user.
pub const COULD_NOT_AUTHENTICATE: &'static str =
    "could not authenticate; check that your token is current";

/// The message for a create-graph reply with neither errors nor data.
pub const NO_DATA: &'static str = "no data returned";

/// The message for a new graph that came without an API key.
pub const NO_API_KEY: &'static str = "service created but no API key was returned";

/// Why an operation failed: a message, and whether the user can act on it
/// (a stale token, say) or the fault lies with the transport or the server.
#[derive(Debug, Clone, PartialEq, Eq)]
pub struct GraphqlOperationError {
    pub message: String,
    pub user_error: bool,
}

/// The mathematical content of a [`GraphqlOperationError`].
pub struct OperationErrorView {
    pub message: Seq<char>,
    pub user_error: bool,
}

impl View for GraphqlOperationError {
    type V = OperationErrorView;

    open spec fn view(&self) -> OperationErrorView {
        OperationErrorView { message: self.message@, user_error: self.user_error }
    }
}

/// The texts of a list of strings, in order.
pub open spec fn texts(strings: Seq<String>) -> Seq<Seq<char>> {
    strings.map_values(|s: String| s@)
}

/// The items of a list without repetitions: each item stands where it first
/// occurs.
pub open spec fn distinct(items: Seq<Seq<char>>) -> Seq<Seq<char>>
    decreases items.len(),
{
    if items.len() == 0 {
        Seq::empty()
    } else {
        let earlier = distinct(items.drop_last());
        if earlier.contains(items.last()) {
            earlier
        } else {
            earlier.push(items.last())
        }
    }
}

/// The lines of a list joined into one text, with a line feed between each
/// two.
pub open spec fn join_lines(lines: Seq<Seq<char>>) -> Seq<char>
    decreases lines.len(),
{
    if lines.len() == 0 {
        Seq::empty()
    } else if lines.len() == 1 {
        lines[0]
    } else {
        join_lines(lines.drop_last()) + seq!['\n'] + lines.last()
    }
}

/// The error of an operation that failed for a reason the user cannot mend.
pub open spec fn internal_error(message: Seq<char>) -> OperationErrorView {
    OperationErrorView { message, user_error: false }
}

/// The error for a reply that names no signed-in user. The user can act on
/// it, by supplying a current token.
pub open spec fn authentication_failure() -> OperationErrorView {
    OperationErrorView { message: COULD_NOT_AUTHENTICATE@, user_error: true }
}

/// What a decoded memberships reply gives: the distinct account identifiers
/// of the user's memberships, or an authentication failure when the reply has
/// no `data` or no `me`.
pub open spec fn org_memberships(response: ResponseView<Option<Seq<Seq<char>>>>) -> Result<
    Seq<Seq<char>>,
    OperationErrorView,
> {
    match response.data {
        Some(Some(ids)) => Ok(distinct(ids)),
        _ => Err(authentication_failure()),
    }
}

/// What a decoded create-graph reply gives: the token of the first API key of
/// the new graph. A reply that lists errors fails with their messages, one
/// per line, whatever else it holds; without errors, a reply without `data`
/// and a graph without keys fail with a message of their own.
pub open spec fn new_graph_key(response: ResponseView<NewServiceView>) -> Result<
    Seq<char>,
    OperationErrorView,
> {
    if response.errors is Some && response.errors.unwrap().len() > 0 {
        Err(internal_error(join_lines(response.errors.unwrap())))
    } else {
        match response.data {
            None => Err(internal_error(NO_DATA@)),
            Some(service) => if service.tokens.len() == 0 {
                Err(internal_error(NO_API_KEY@))
            } else {
                Ok(service.tokens[0])
            },
        }
    }
}

/// What the memberships operation returns for each report of the transport.
pub open spec fn org_memberships_result(outcome: TransportOutcome) -> Result<
    Seq<Seq<char>>,
    OperationErrorView,
> {
    match decoded_reply::<GetOrgMembershipResponse>(outcome) {
        Ok(response) => org_memberships(response),
        Err(_) => Err(internal_error(COULD_NOT_FETCH@)),
    }
}

/// What the create-graph operation returns for each report of the transport.
pub open spec fn new_graph_result(outcome: TransportOutcome) -> Result<
    Seq<char>,
    OperationErrorView,
> {
    match decoded_reply::<CreateGraphResponse>(outcome) {
        Ok(response) => new_graph_key(response),
        Err(e) => Err(internal_error(e.message())),
    }
}

/// Every item of a list occurs in its distinct items, exactly once, and
/// nothing else does.
pub proof fn lemma_distinct(items: Seq<Seq<char>>)
    ensures
        distinct(items).no_duplicates(),
        distinct(items).to_set() == items.to_set(),
        distinct(items).len() <= items.len(),
    decreases items.len(),
{
    if items.len() > 0 {
        let init = items.drop_last();
        let last = items.last();
        let earlier = distinct(init);
        lemma_distinct(init);
        assert forall|x: Seq<char>| items.contains(x) <==> (init.contains(x) || x == last) by {
            if items.contains(x) {
                let i = choose|i: int| 0 <= i < items.len() && items[i] == x;
                if i < items.len() - 1 {
                    assert(init[i] == x);
                }
            }
        }
        assert forall|x: Seq<char>| earlier.contains(x) <==> init.contains(x) by {
            assert(earlier.to_set().contains(x) <==> init.to_set().contains(x));
        }
        if !earlier.contains(last) {
            let all = earlier.push(last);
            assert forall|x: Seq<char>| all.contains(x) <==> (earlier.contains(x) || x == last) by {
                if earlier.contains(x) {
                    let i = choose|i: int| 0 <= i < earlier.len() && earlier[i] == x;
                    assert(all[i] == x);
                }
                if x == last {
                    assert(all[all.len() - 1] == x);
                }
            }
        }
    }
}

/// Tells whether a text occurs in a list of strings.
fn holds(strings: &Vec<String>, text: &String) -> (found: bool)
    ensures
        found == texts(strings@).contains(text@),
{
    let mut i: usize = 0;
    while i < strings.len()
        invariant
            0 <= i <= strings.len(),
            forall|j: int| 0 <= j < i ==> texts(strings@)[j] != text@,
        decreases strings.len() - i,
    {
        if strings[i] == *text {
            assert(texts(strings@)[i as int] == text@);
            return true;
        }
        i = i + 1;
    }
    false
}

/// Collects the account identifiers of a list of memberships, each once, in
/// the order in which they first occur.
fn distinct_account_ids(memberships: &Vec<Membership>) -> (ids: Vec<String>)
    ensures
        texts(ids@) == distinct(account_ids(memberships@)),
{
    let ghost all = account_ids(memberships@);
    let mut ids: Vec<String> = Vec::new();
    let mut i: usize = 0;
    while i < memberships.len()
        invariant
            0 <= i <= memberships.len(),
            all == account_ids(memberships@),
            texts(ids@) == distinct(all.take(i as int)),
        decreases memberships.len() - i,
    {
        let id = &memberships[i].account.id;
        assert(all.take(i + 1).drop_last() =~= all.take(i as int));
        if !holds(&ids, id) {
            ids.push(id.clone());
        }
        i = i + 1;
    }
    assert(all.take(memberships.len() as int) =~= all);
    ids
}

/// Joins the messages of a list of errors, one per line.
fn join_messages(errors: &Vec<GraphqlError>) -> (text: String)
    ensures
        text@ == join_lines(error_messages(errors@)),
{
    let ghost all = error_messages(errors@);
    let mut text = String::new();
    let mut i: usize = 0;
    while i < errors.len()
        invariant
            0 <= i <= errors.len(),
            all == error_messages(errors@),
            text@ == join_lines(all.take(i as int)),
        decreases errors.len() - i,
    {
        proof {
            reveal_strlit("\n");
            assert(all.take(i + 1).drop_last() =~= all.take(i as int));
        }
        if i > 0 {
            text.append("\n");
        }
        text.append(errors[i].message.as_str());
        i = i + 1;
    }
    assert(all.take(errors.len() as int) =~= all);
    text
}

/// Makes the error of an operation out of one of the fixed messages.
fn operation_error(message: &str, user_error: bool) -> (e: GraphqlOperationError)
    ensures
        e@ == (OperationErrorView { message: message@, user_error }),
{
    GraphqlOperationError { message: String::from_str(message), user_error }
}

/// Reads the answer of the memberships query out of a decoded reply.
///
/// Returns the account identifiers of the user's memberships, each once, in
/// the order in which they first occur. A reply without `data`, or whose
/// `data` has no `me`, gives the authentication failure. Errors listed in the
/// reply are not looked at.
pub fn org_memberships_of(response: &GetOrgMembershipResponse) -> (r: Result<
    Vec<String>,
    GraphqlOperationError,
>)
    ensures
        match r {
            Ok(ids) => org_memberships(response@) == Ok::<Seq<Seq<char>>, OperationErrorView>(
                texts(ids@),
            ),
            Err(e) => org_memberships(response@) == Err::<Seq<Seq<char>>, OperationErrorView>(e@),
        },
        r matches Ok(ids) ==> texts(ids@).no_duplicates(),
        r matches Ok(ids) ==> texts(ids@).to_set() == account_ids(
            response.data.unwrap().me.unwrap().memberships@,
        ).to_set(),
{
    match &response.data {
        Some(data) => match &data.me {
            Some(me) => {
                proof {
                    lemma_distinct(account_ids(me.memberships@));
                }
                Ok(distinct_account_ids(&me.memberships))
            },
            None => Err(operation_error(COULD_NOT_AUTHENTICATE, true)),
        },
        None => Err(operation_error(COULD_NOT_AUTHENTICATE, true)),
    }
}

/// Reads the answer of the create-graph mutation out of a decoded reply.
///
/// Returns the token of the first API key of the new graph. A reply that
/// lists at least one error fails with all their messages, joined by line
/// feeds, whatever else it holds. Otherwise a reply without `data` fails, and
/// so does a graph without keys. None of these errors is one the user can act
/// on.
pub fn new_graph_key_of(response: &CreateGraphResponse) -> (r: Result<
    String,
    GraphqlOperationError,
>)
    ensures
        match r {
            Ok(token) => new_graph_key(response@) == Ok::<Seq<char>, OperationErrorView>(token@),
            Err(e) => new_graph_key(response@) == Err::<Seq<char>, OperationErrorView>(e@),
        },
{
    match &response.errors {
        Some(errors) => if errors.len() > 0 {
            return Err(GraphqlOperationError { message: join_messages(errors), user_error: false });
        },
        None => {},
    }
    match &response.data {
        None => Err(operation_error(NO_DATA, false)),
        Some(data) => if data.newService.apiKeys.len() == 0 {
            Err(operation_error(NO_API_KEY, false))
        } else {
            Ok(data.newService.apiKeys[0].token.clone())
        },
    }
}

/// A client of the cloud API: where it posts its queries, the API key it
/// presents, and how long it lets a request take.
///
/// A client does not change once it is made, and its API key is always safe
/// as a header value.
#[derive(Debug, PartialEq, Eq)]
pub struct ApolloCloudClient {
    endpoint_url: String,
    auth_token: String,
    timeout_millis: Option<u64>,
}

/// The mathematical content of an [`ApolloCloudClient`].
pub struct ClientView {
    pub endpoint_url: Seq<char>,
    pub auth_token: Seq<char>,
    pub timeout_millis: Option<u64>,
}

/// The two headers that go with every request of a client: the API key, then
/// the content type.
pub open spec fn default_headers(client: ClientView) -> Seq<HeaderView> {
    seq![
        HeaderView { name: API_KEY_HEADER@, value: client.auth_token },
        HeaderView { name: CONTENT_TYPE_HEADER@, value: JSON_CONTENT_TYPE@ },
    ]
}

/// The POST by which a client sends a body.
pub open spec fn post_of(client: ClientView, body: Seq<char>) -> HttpRequestView {
    HttpRequestView {
        url: client.endpoint_url,
        headers: default_headers(client),
        body,
        timeout_millis: client.timeout_millis,
    }
}

/// Whether the value of every header of a request is safe as a header value.
pub open spec fn has_safe_headers(request: HttpRequestView) -> bool {
    forall|i: int|
        0 <= i < request.headers.len() ==> is_header_safe((#[trigger] request.headers[i]).value)
}

impl View for ApolloCloudClient {
    type V = ClientView;

    closed spec fn view(&self) -> ClientView {
        ClientView {
            endpoint_url: self.endpoint_url@,
            auth_token: self.auth_token@,
            timeout_millis: self.timeout_millis,
        }
    }
}

impl Clone for ApolloCloudClient {
    fn clone(&self) -> (client: ApolloCloudClient)
        ensures
            client@ == self@,
    {
        proof {
            use_type_invariant(self);
        }
        ApolloCloudClient {
            endpoint_url: self.endpoint_url.clone(),
            auth_token: self.auth_token.clone(),
            timeout_millis: self.timeout_millis,
        }
    }
}

impl ApolloCloudClient {
    #[verifier::type_invariant]
    spec fn well_formed(self) -> bool {
        is_header_safe(self.auth_token@)
    }

    /// Tells whether a text can serve as the API key of a client: it has to
    /// be safe as a header value.
    pub fn accepts_auth_token(auth_token: &str) -> (ok: bool)
        ensures
            ok == is_header_safe(auth_token@),
    {
        accepts_header_value(auth_token)
    }

    /// Makes a client that posts to `endpoint_url` and presents `auth_token`
    /// as its API key, with no limit of its own on the time a request may
    /// take.
    ///
    /// The API key has to be safe as a header value;
    /// [`ApolloCloudClient::accepts_auth_token`] tells whether it is.
    pub fn new(endpoint_url: String, auth_token: String) -> (client: ApolloCloudClient)
        requires
            is_header_safe(auth_token@),
        ensures
            client@ == (ClientView {
                endpoint_url: endpoint_url@,
                auth_token: auth_token@,
                timeout_millis: None,
            }),
    {
        ApolloCloudClient { endpoint_url, auth_token, timeout_millis: None }
    }

    /// The same client with a limit, in milliseconds, on the time a request
    /// may take.
    pub fn with_timeout(self, millis: u64) -> (client: ApolloCloudClient)
        ensures
            client@ == (ClientView { timeout_millis: Some(millis), ..self@ }),
    {
        proof {
            use_type_invariant(&self);
        }
        ApolloCloudClient {
            endpoint_url: self.endpoint_url,
            auth_token: self.auth_token,
            timeout_millis: Some(millis),
        }
    }

    /// The address the client posts to.
    pub fn endpoint_url(&self) -> (url: &String)
        ensures
            url@ == self@.endpoint_url,
    {
        &self.endpoint_url
    }

    /// The limit on the time a request may take, if there is one.
    pub fn timeout_millis(&self) -> (limit: Option<u64>)
        ensures
            limit == self@.timeout_millis,
    {
        self.timeout_millis
    }

    /// The API key the client presents. It is safe as a header value.
    pub fn auth_token(&self) -> (token: &String)
        ensures
            token@ == self@.auth_token,
            is_header_safe(token@),
    {
        proof {
            use_type_invariant(self);
        }
        &self.auth_token
    }

    /// Wraps a body into the POST that sends it: to the client's endpoint,
    /// with the API key and the content type as headers, within the client's
    /// time limit.
    fn post(&self, body: String) -> (request: HttpRequest)
        ensures
            request@ == post_of(self@, body@),
            has_safe_headers(request@),
    {
        proof {
            use_type_invariant(self);
            reveal_strlit("application/json");
        }
        let mut headers: Vec<Header> = Vec::new();
        headers.push(
            Header { name: String::from_str(API_KEY_HEADER), value: self.auth_token.clone() },
        );
        headers.push(
            Header {
                name: String::from_str(CONTENT_TYPE_HEADER),
                value: String::from_str(JSON_CONTENT_TYPE),
            },
        );
        let request = HttpRequest {
            url: self.endpoint_url.clone(),
            headers,
            body,
            timeout_millis: self.timeout_millis,
        };
        assert(request@.headers =~= default_headers(self@));
        request
    }

    /// Prepares the request that sends a query: the envelope, serialized, as
    /// the body of a POST to the client's endpoint.
    pub fn send_query(&self, query: &GraphqlQuery) -> (request: HttpRequest)
        ensures
            request@ == post_of(self@, envelope_body(query.query@, query.variables_view())),
            has_safe_headers(request@),
    {
        self.post(query.to_body())
    }

    /// Prepares the request for an operation that takes variables: the
    /// variables are written out as JSON and travel as a string beside the
    /// operation text.
    pub fn execute_operation<V: Variables>(
        &self,
        operation_string: &str,
        variables: &V,
    ) -> (request: HttpRequest)
        ensures
            request@ == post_of(self@, envelope_body(operation_string@, Some(variables.json()))),
            has_safe_headers(request@),
    {
        let vars_string = variables.to_json();
        let gql_query = GraphqlQuery { query: operation_string, variables: Some(&vars_string) };
        self.send_query(&gql_query)
    }

    /// Prepares the request for an operation that takes no variables: the
    /// envelope then has no `variables` member.
    pub fn execute_operation_no_variables(&self, operation_string: &str) -> (request: HttpRequest)
        ensures
            request@ == post_of(self@, envelope_body(operation_string@, None)),
            has_safe_headers(request@),
    {
        let gql_query = GraphqlQuery { query: operation_string, variables: None };
        self.send_query(&gql_query)
    }

    /// The request of the memberships query.
    pub fn org_memberships_request(&self) -> (request: HttpRequest)
        ensures
            request@ == post_of(self@, envelope_body(GET_ORG_MEMBERSHIPS_QUERY@, None)),
            has_safe_headers(request@),
    {
        self.execute_operation_no_variables(GET_ORG_MEMBERSHIPS_QUERY)
    }

    /// The request of the mutation that creates the graph `graph_id` in the
    /// account `account_id`.
    pub fn new_graph_request(&self, graph_id: String, account_id: String) -> (request: HttpRequest)
        ensures
            request@ == post_of(
                self@,
                envelope_body(CREATE_GRAPH_QUERY@, Some(variables_json(graph_id@, account_id@))),
            ),
            has_safe_headers(request@),
    {
        let variables = CreateGraphVariables { graphID: graph_id, accountID: account_id };
        self.execute_operation(CREATE_GRAPH_QUERY, &variables)
    }

    /// Finishes the memberships query: takes what the transport reported for
    /// the request of [`ApolloCloudClient::org_memberships_request`] and
    /// returns the accounts the user belongs to.
    ///
    /// The account identifiers come each once, in the order in which they
    /// first occur in the reply. Whenever no reply could be decoded, whether
    /// the transport failed, the time ran out, the status was not a success
    /// or the body did not decode, the result is the one error that the
    /// organizations could not be fetched. A decoded reply without `data` or
    /// without `me` gives the authentication failure.
    pub fn get_org_memberships(&self, outcome: TransportOutcome) -> (r: Result<
        Vec<String>,
        GraphqlOperationError,
    >)
        ensures
            match r {
                Ok(ids) => org_memberships_result(outcome) == Ok::<
                    Seq<Seq<char>>,
                    OperationErrorView,
                >(texts(ids@)),
                Err(e) => org_memberships_result(outcome) == Err::<
                    Seq<Seq<char>>,
                    OperationErrorView,
                >(e@),
            },
            r matches Ok(ids) ==> texts(ids@).no_duplicates(),
    {
        match read_reply::<GetOrgMembershipResponse>(outcome) {
            Ok(response) => org_memberships_of(&response),
            Err(_) => Err(operation_error(COULD_NOT_FETCH, false)),
        }
    }

    /// Finishes the create-graph mutation: takes what the transport reported
    /// for the request of [`ApolloCloudClient::new_graph_request`] and
    /// returns the token of the new graph's first API key.
    ///
    /// Whenever no reply could be decoded the error carries the message of
    /// what went wrong. A decoded reply is read as
    /// [`new_graph_key_of`] reads it.
    pub fn create_new_graph(&self, outcome: TransportOutcome) -> (r: Result<
        String,
        GraphqlOperationError,
    >)
        ensures
            match r {
                Ok(token) => new_graph_result(outcome) == Ok::<Seq<char>, OperationErrorView>(
                    token@,
                ),
                Err(e) => new_graph_result(outcome) == Err::<Seq<char>, OperationErrorView>(e@),
            },
    {
        match read_reply::<CreateGraphResponse>(outcome) {
            Ok(response) => new_graph_key_of(&response),
            Err(e) => Err(GraphqlOperationError { message: e.message(), user_error: false }),
        }
    }
}

} // verus!
