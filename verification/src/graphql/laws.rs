//! What holds of the two operations for every reply, stated over the same
//! spec functions as the contracts of the operations themselves.

use vstd::prelude::*;
use crate::graphql::client::authentication_failure;
use crate::graphql::client::distinct;
use crate::graphql::client::internal_error;
use crate::graphql::client::join_lines;
use crate::graphql::client::lemma_distinct;
use crate::graphql::client::new_graph_key;
use crate::graphql::client::new_graph_result;
use crate::graphql::client::org_memberships;
use crate::graphql::client::org_memberships_result;
use crate::graphql::client::OperationErrorView;
use crate::graphql::client::COULD_NOT_FETCH;
use crate::graphql::client::NO_API_KEY;
use crate::graphql::transport::decoded_reply;
use crate::graphql::transport::QueryErrorView;
use crate::graphql::transport::TransportOutcome;
use crate::graphql::types::CreateGraphResponse;
use crate::graphql::types::GetOrgMembershipResponse;
use crate::graphql::types::NewServiceView;
use crate::graphql::types::ResponseView;

verus! {

/// A list in which nothing occurs twice is its own list of distinct items.
pub proof fn lemma_distinct_keeps_a_list_without_repetitions(items: Seq<Seq<char>>)
    requires
        items.no_duplicates(),
    ensures
        distinct(items) == items,
    decreases items.len(),
{
    if items.len() > 0 {
        let init = items.drop_last();
        lemma_distinct_keeps_a_list_without_repetitions(init);
        if init.contains(items.last()) {
            let i = choose|i: int| 0 <= i < init.len() && init[i] == items.last();
            assert(items[i] == items[items.len() - 1]);
        }
        assert(init.push(items.last()) =~= items);
    }
}

/// Whenever the reply to the memberships query names a user, the operation
/// succeeds with the user's accounts as a set: every account identifier of
/// the reply is returned, none is returned twice, and nothing else is
/// returned. Where the memberships lie in accounts that all differ, the
/// result is the list of their identifiers as it stands.
pub proof fn lemma_memberships_are_the_distinct_accounts(
    outcome: TransportOutcome,
    response: ResponseView<Option<Seq<Seq<char>>>>,
    ids: Seq<Seq<char>>,
)
    requires
        decoded_reply::<GetOrgMembershipResponse>(outcome) == Ok::<
            ResponseView<Option<Seq<Seq<char>>>>,
            QueryErrorView,
        >(response),
        response.data == Some(Some(ids)),
    ensures
        org_memberships_result(outcome) is Ok,
        org_memberships_result(outcome)->Ok_0.no_duplicates(),
        org_memberships_result(outcome)->Ok_0.to_set() == ids.to_set(),
        org_memberships_result(outcome)->Ok_0.len() <= ids.len(),
        ids.no_duplicates() ==> org_memberships_result(outcome)->Ok_0 == ids,
{
    lemma_distinct(ids);
    if ids.no_duplicates() {
        lemma_distinct_keeps_a_list_without_repetitions(ids);
    }
}

/// Two memberships in one account give one account.
pub proof fn lemma_one_account_twice_is_one_account(id: Seq<char>)
    ensures
        distinct(seq![id, id]) == seq![id],
{
    let twice = seq![id, id];
    assert(twice.drop_last() =~= seq![id]);
    assert(distinct(seq![id]) =~= seq![id]) by {
        reveal_with_fuel(distinct, 2);
    }
}

/// Whenever the reply to the memberships query has no `data`, or its `data`
/// has no `me`, the operation fails with the authentication failure.
pub proof fn lemma_missing_user_is_an_authentication_failure(
    outcome: TransportOutcome,
    response: ResponseView<Option<Seq<Seq<char>>>>,
)
    requires
        decoded_reply::<GetOrgMembershipResponse>(outcome) == Ok::<
            ResponseView<Option<Seq<Seq<char>>>>,
            QueryErrorView,
        >(response),
        response.data is None || response.data == Some(None::<Seq<Seq<char>>>),
    ensures
        org_memberships_result(outcome) == Err::<Seq<Seq<char>>, OperationErrorView>(
            authentication_failure(),
        ),
        org_memberships(response) == Err::<Seq<Seq<char>>, OperationErrorView>(
            authentication_failure(),
        ),
{
}

/// Whenever the request could not be sent, or ran out of time, both
/// operations return an error: the memberships query its fixed one, the
/// create-graph mutation one that carries the transport's message.
pub proof fn lemma_transport_failure_is_an_error(outcome: TransportOutcome)
    requires
        outcome is Failed || outcome is TimedOut,
    ensures
        org_memberships_result(outcome) == Err::<Seq<Seq<char>>, OperationErrorView>(
            internal_error(COULD_NOT_FETCH@),
        ),
        new_graph_result(outcome) is Err,
        outcome matches TransportOutcome::Failed { message } ==> new_graph_result(outcome) == Err::<
            Seq<char>,
            OperationErrorView,
        >(internal_error(message@)),
{
}

/// Whenever the reply to the create-graph mutation lists errors, the
/// operation fails with one internal error whose message is their messages
/// joined by line feeds, whatever `data` the reply holds.
pub proof fn lemma_listed_errors_are_joined(
    outcome: TransportOutcome,
    response: ResponseView<NewServiceView>,
    messages: Seq<Seq<char>>,
)
    requires
        decoded_reply::<CreateGraphResponse>(outcome) == Ok::<
            ResponseView<NewServiceView>,
            QueryErrorView,
        >(response),
        response.errors == Some(messages),
        messages.len() > 0,
    ensures
        new_graph_result(outcome) == Err::<Seq<char>, OperationErrorView>(
            internal_error(join_lines(messages)),
        ),
        !internal_error(join_lines(messages)).user_error,
{
}

/// Two messages join into the first, a line feed and the second.
pub proof fn lemma_two_lines_join_with_one_line_feed(first: Seq<char>, second: Seq<char>)
    ensures
        join_lines(seq![first, second]) == first + seq!['\n'] + second,
{
    let both = seq![first, second];
    assert(both.drop_last() =~= seq![first]);
    assert(join_lines(seq![first]) == first);
}

/// Whenever the reply to the create-graph mutation lists no error and holds
/// a new graph without API keys, the operation fails with the error that
/// says so.
pub proof fn lemma_graph_without_keys_is_an_error(
    outcome: TransportOutcome,
    response: ResponseView<NewServiceView>,
    service: NewServiceView,
)
    requires
        decoded_reply::<CreateGraphResponse>(outcome) == Ok::<
            ResponseView<NewServiceView>,
            QueryErrorView,
        >(response),
        response.errors is None || response.errors == Some(Seq::<Seq<char>>::empty()),
        response.data == Some(service),
        service.tokens.len() == 0,
    ensures
        new_graph_result(outcome) == Err::<Seq<char>, OperationErrorView>(
            internal_error(NO_API_KEY@),
        ),
        new_graph_key(response) == Err::<Seq<char>, OperationErrorView>(
            internal_error(NO_API_KEY@),
        ),
{
}

/// Whenever the reply to the create-graph mutation lists no error and holds
/// a new graph with exactly one API key, the operation returns that key's
/// token.
pub proof fn lemma_single_key_is_returned(
    outcome: TransportOutcome,
    response: ResponseView<NewServiceView>,
    service: NewServiceView,
    token: Seq<char>,
)
    requires
        decoded_reply::<CreateGraphResponse>(outcome) == Ok::<
            ResponseView<NewServiceView>,
            QueryErrorView,
        >(response),
        response.errors is None || response.errors == Some(Seq::<Seq<char>>::empty()),
        response.data == Some(service),
        service.tokens == seq![token],
    ensures
        new_graph_result(outcome) == Ok::<Seq<char>, OperationErrorView>(
            token,
        ),
{
}

} // verus!
