//! The second half of an operation that is answered through a callback:
//! from what came out of the bridge to what the caller gets.
//!
//! What the bridge delivers is one of three things. The callback fired with
//! a success: the operation succeeds with its value. The callback fired with
//! a failure: the operation fails with the platform's text, unchanged. The
//! callback was discarded: the operation fails as abandoned. Nothing is
//! retried and nothing is remembered from one operation to the next.

use crate::bigint::{decode, decoded};
use crate::bridge::{Delivery, Poll, Slot};
use crate::workshop::{
    entry, shown, Error, ErrorView, Published, QueryItem, QueryItemView, QueryResults, UgcResult,
    UgcResultView,
};
use vstd::prelude::*;

verus! {

/// What the caller gets for a delivery once its success has been turned
/// into `value`.
pub open spec fn outcome<R, V>(delivery: Delivery<Result<R, String>>, value: V) -> Result<
    V,
    ErrorView,
> {
    match delivery {
        Delivery::Closed => Err(ErrorView::ChannelClosed),
        Delivery::Value(Err(text)) => Err(ErrorView::Sdk(text@)),
        Delivery::Value(Ok(_)) => Ok(value),
    }
}

/// What a delivery brought, where the callback fired with a success.
pub open spec fn brought<R>(delivery: Delivery<Result<R, String>>) -> R
    recommends
        delivery matches Delivery::Value(Ok(_)),
{
    delivery->Value_0->Ok_0
}

/// The outcome that a published item is reported as.
pub open spec fn reported(published: Published) -> UgcResultView {
    UgcResultView {
        item_id: decoded(published.item),
        needs_to_accept_agreement: published.needs_to_accept_agreement,
    }
}

/// The content of the result of creating or updating an item.
pub open spec fn ugc_view(result: Result<UgcResult, Error>) -> Result<UgcResultView, ErrorView> {
    match result {
        Ok(value) => Ok(value@),
        Err(error) => Err(error@),
    }
}

fn published(delivery: Delivery<Result<Published, String>>) -> (result: Result<UgcResult, Error>)
    ensures
        ugc_view(result) == outcome(delivery, reported(brought(delivery))),
{
    match delivery {
        Delivery::Closed => Err(Error::ChannelClosed),
        Delivery::Value(Err(text)) => Err(Error::Sdk(text)),
        Delivery::Value(Ok(published)) => Ok(
            UgcResult {
                item_id: decode(published.item),
                needs_to_accept_agreement: published.needs_to_accept_agreement,
            },
        ),
    }
}

/// The result of creating an item: its identifier, decoded, and whether the
/// user has yet to accept the workshop's legal agreement.
pub fn create_item(delivery: Delivery<Result<Published, String>>) -> (result: Result<
    UgcResult,
    Error,
>)
    ensures
        ugc_view(result) == outcome(delivery, reported(brought(delivery))),
{
    published(delivery)
}

/// The result of updating an item: its identifier, decoded, and whether the
/// user has yet to accept the workshop's legal agreement.
pub fn update_item(delivery: Delivery<Result<Published, String>>) -> (result: Result<
    UgcResult,
    Error,
>)
    ensures
        ugc_view(result) == outcome(delivery, reported(brought(delivery))),
{
    published(delivery)
}

/// The content of the result of a query for one item.
pub open spec fn item_view(result: Result<QueryItem, Error>) -> Result<QueryItemView, ErrorView> {
    match result {
        Ok(value) => Ok(value@),
        Err(error) => Err(error@),
    }
}

/// What the caller of a query for one item gets: the first entry of the
/// results, or an error where there is none.
pub open spec fn first_item(delivery: Delivery<Result<QueryResults, String>>) -> Result<
    QueryItemView,
    ErrorView,
> {
    match delivery {
        Delivery::Closed => Err(ErrorView::ChannelClosed),
        Delivery::Value(Err(text)) => Err(ErrorView::Sdk(text@)),
        Delivery::Value(Ok(page)) => match entry(page.results@, 0) {
            Some(result) => Ok(shown(result)),
            None => Err(ErrorView::NotFound),
        },
    }
}

/// The result of a query for one item.
///
/// A query that the platform answered with no entry at all, or with an
/// entry it could not read, is an error of its own kind, `NotFound`.
pub fn query_item(delivery: Delivery<Result<QueryResults, String>>) -> (result: Result<
    QueryItem,
    Error,
>)
    ensures
        item_view(result) == first_item(delivery),
{
    match delivery {
        Delivery::Closed => Err(Error::ChannelClosed),
        Delivery::Value(Err(text)) => Err(Error::Sdk(text)),
        Delivery::Value(Ok(page)) => {
            if page.results.len() == 0 {
                Err(Error::NotFound)
            } else {
                match &page.results[0] {
                    Some(result) => Ok(QueryItem::from_result(result)),
                    None => Err(Error::NotFound),
                }
            }
        },
    }
}

/// Every entry of a page could be read.
pub open spec fn all_read(page: QueryResults) -> bool {
    forall|i: int| 0 <= i < page.results@.len() ==> (#[trigger] entry(page.results@, i)) is Some
}

/// The entries of a page as the caller is shown them, in the page's order.
pub open spec fn shown_page(page: QueryResults) -> Seq<QueryItemView> {
    Seq::new(page.results@.len(), |i: int| shown(entry(page.results@, i)->Some_0))
}

/// The content of the result of a query for a page of items.
pub open spec fn page_view(result: Result<Vec<QueryItem>, Error>) -> Result<
    Seq<QueryItemView>,
    ErrorView,
> {
    match result {
        Ok(items) => Ok(items@.map_values(|item: QueryItem| item@)),
        Err(error) => Err(error@),
    }
}

/// What the caller of a query for a page of items gets: every entry of the
/// page, or an error where one of them could not be read.
pub open spec fn all_items(delivery: Delivery<Result<QueryResults, String>>) -> Result<
    Seq<QueryItemView>,
    ErrorView,
> {
    match delivery {
        Delivery::Closed => Err(ErrorView::ChannelClosed),
        Delivery::Value(Err(text)) => Err(ErrorView::Sdk(text@)),
        Delivery::Value(Ok(page)) => if all_read(page) {
            Ok(shown_page(page))
        } else {
            Err(ErrorView::NotFound)
        },
    }
}

/// The result of a query for a page of the user's items: the entries in the
/// order in which the platform gave them.
///
/// A page with an entry that the platform could not read is refused as a
/// whole, with `NotFound`.
pub fn query_user(delivery: Delivery<Result<QueryResults, String>>) -> (result: Result<
    Vec<QueryItem>,
    Error,
>)
    ensures
        page_view(result) == all_items(delivery),
        result matches Ok(items) ==> {
            &&& delivery matches Delivery::Value(Ok(page))
            &&& items@.len() == page.results@.len()
            &&& forall|i: int|
                0 <= i < items@.len() ==> (#[trigger] items@[i])@ == shown(
                    entry(page.results@, i)->Some_0,
                )
        },
{
    match delivery {
        Delivery::Closed => Err(Error::ChannelClosed),
        Delivery::Value(Err(text)) => Err(Error::Sdk(text)),
        Delivery::Value(Ok(page)) => {
            let mut items: Vec<QueryItem> = Vec::new();
            let mut i: usize = 0;
            while i < page.results.len()
                invariant
                    delivery == Delivery::Value(Ok::<QueryResults, String>(page)),
                    i <= page.results@.len(),
                    items@.len() == i,
                    forall|k: int| 0 <= k < i ==> (#[trigger] entry(page.results@, k)) is Some,
                    forall|k: int|
                        0 <= k < i ==> (#[trigger] items@[k])@ == shown(
                            entry(page.results@, k)->Some_0,
                        ),
                decreases page.results@.len() - i,
            {
                match &page.results[i] {
                    Some(result) => {
                        items.push(QueryItem::from_result(result));
                    },
                    None => {
                        assert(entry(page.results@, i as int) is None);
                        return Err(Error::NotFound);
                    },
                }
                i += 1;
            }
            assert(items@.map_values(|item: QueryItem| item@) =~= shown_page(page));
            Ok(items)
        },
    }
}

/// The result of a query for the number of the user's items: the count of
/// entries over all pages, which may be more than the page holds.
pub fn query_user_total_results_num(delivery: Delivery<Result<QueryResults, String>>) -> (result:
    Result<u32, Error>)
    ensures
        match result {
            Ok(total) => Ok(total),
            Err(error) => Err(error@),
        } == outcome(delivery, brought(delivery).total_results),
{
    match delivery {
        Delivery::Closed => Err(Error::ChannelClosed),
        Delivery::Value(Err(text)) => Err(Error::Sdk(text)),
        Delivery::Value(Ok(page)) => Ok(page.total_results),
    }
}

/// The content of the result of an operation that brings no value.
pub open spec fn done_view(result: Result<(), Error>) -> Result<(), ErrorView> {
    match result {
        Ok(()) => Ok(()),
        Err(error) => Err(error@),
    }
}

fn done(delivery: Delivery<Result<(), String>>) -> (result: Result<(), Error>)
    ensures
        done_view(result) == outcome(delivery, ()),
{
    match delivery {
        Delivery::Closed => Err(Error::ChannelClosed),
        Delivery::Value(Err(text)) => Err(Error::Sdk(text)),
        Delivery::Value(Ok(())) => Ok(()),
    }
}

/// The result of subscribing to an item. Whether the user was subscribed
/// before plays no part: what the platform says is what the caller gets.
pub fn subscribe(delivery: Delivery<Result<(), String>>) -> (result: Result<(), Error>)
    ensures
        done_view(result) == outcome(delivery, ()),
{
    done(delivery)
}

/// The result of unsubscribing from an item. Whether the user was
/// subscribed plays no part: what the platform says is what the caller gets.
pub fn unsubscribe(delivery: Delivery<Result<(), String>>) -> (result: Result<(), Error>)
    ensures
        done_view(result) == outcome(delivery, ()),
{
    done(delivery)
}

/// The result of deleting an item.
pub fn delete_item(delivery: Delivery<Result<(), String>>) -> (result: Result<(), Error>)
    ensures
        done_view(result) == outcome(delivery, ()),
{
    done(delivery)
}

/// **An empty query is an error.** A query for one item whose page has no
/// first entry to read never succeeds and never passes for anything but
/// `NotFound`.
pub proof fn law_empty_query_is_not_found(page: QueryResults)
    requires
        entry(page.results@, 0) is None,
    ensures
        first_item(Delivery::Value(Ok(page))) == Err::<QueryItemView, ErrorView>(
            ErrorView::NotFound,
        ),
{
}

/// The callback fired with a success.
pub open spec fn went_well<R>(delivery: Delivery<Result<R, String>>) -> bool {
    delivery matches Delivery::Value(Ok(_))
}

/// **Lifecycle operations keep no record.** What subscribing, unsubscribing
/// and deleting give depends on the platform's reply to this call alone.
/// Repeat a call, and where the platform says twice that it went well the
/// caller is told so twice. The only failures are the platform's own and
/// abandonment; no other kind of error is ever made up.
pub proof fn law_lifecycle_is_stateless(
    first: Delivery<Result<(), String>>,
    second: Delivery<Result<(), String>>,
)
    ensures
        went_well(first) && went_well(second) ==> outcome(first, ()) == Ok::<(), ErrorView>(())
            && outcome(second, ()) == Ok::<(), ErrorView>(()),
        outcome(second, ()) is Ok <==> went_well(second),
        outcome(second, ()) is Err ==> outcome(second, ()) == Err::<(), ErrorView>(
            ErrorView::ChannelClosed,
        ) || exists|text: String|
            second == Delivery::Value(Err::<(), String>(text)) && outcome(second, ()) == Err::<
                (),
                ErrorView,
            >(ErrorView::Sdk(text@)),
{
    if let Delivery::Value(Err(text)) = second {
        assert(second == Delivery::Value(Err::<(), String>(text)));
    }
}

/// **An abandoned call is an error, not a hang.** Where the callback of a
/// fresh slot is discarded before it fires, the next poll is answered at
/// once, and every operation turns that answer into the error of an
/// abandoned call.
pub proof fn law_abandoned_call_fails<R, V>(slot: Slot<Result<R, String>>, value: V)
    requires
        slot is Open,
    ensures
        slot.after_close().poll_result() == Poll::<Result<R, String>>::Ready(Delivery::Closed),
        outcome(Delivery::<Result<R, String>>::Closed, value) == Err::<V, ErrorView>(
            ErrorView::ChannelClosed,
        ),
{
}

/// **A failure is passed on word for word.** Whatever text the platform
/// gives with a failure is the message that the caller is shown.
pub proof fn law_failure_text_is_verbatim<R, V>(text: String, value: V)
    ensures
        outcome(Delivery::Value(Err::<R, String>(text)), value) matches Err(error)
            && error.reason() == text@,
{
}

} // verus!
