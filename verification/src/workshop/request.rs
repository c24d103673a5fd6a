//! The first half of an operation that is answered through a callback: from
//! the caller's arguments to the call that is to be made.
//!
//! An identifier comes in with unbounded precision and goes out as its low
//! 64 bits. Nothing is checked against the platform here: whether an item
//! exists is for the platform to say, in its reply.

use crate::bigint::{encode, BigInt};
use crate::update::{planned_steps, update_steps, UgcUpdate};
use crate::workshop::{
    ItemCall, PublishCall, PublishCallView, QueryCall, Session, UserListOrder,
};
use vstd::prelude::*;

verus! {

/// Create a new item. It is made for the application of the session.
pub fn create_item(session: &Session) -> (call: PublishCall)
    ensures
        call@ == (PublishCallView::CreateItem { app_id: session.app_id }),
{
    PublishCall::CreateItem { app_id: session.app_id }
}

/// Update an item.
///
/// The update takes one step for each field that `update_details` has, and
/// none for a field it lacks; its last step makes the item public, whatever
/// the request says. The change note goes with the submission if there is
/// one.
pub fn update_item(session: &Session, item_id: &BigInt, update_details: UgcUpdate) -> (call:
    PublishCall)
    ensures
        call@ == (PublishCallView::SubmitItemUpdate {
            app_id: session.app_id,
            item: item_id@.low_word(),
            steps: planned_steps(update_details@),
            change_note: update_details@.change_note,
        }),
{
    let item = encode(item_id);
    let plan = update_steps(update_details);
    PublishCall::SubmitItemUpdate {
        app_id: session.app_id,
        item,
        steps: plan.0,
        change_note: plan.1,
    }
}

/// Query the details of exactly one item.
pub fn query_item(item_id: &BigInt) -> (call: QueryCall)
    ensures
        call == (QueryCall::Item { item: item_id@.low_word() }),
{
    QueryCall::Item { item: encode(item_id) }
}

/// Query one page of the items that the user of the session is subscribed
/// to, latest subscription first. The application of the session stands in
/// both roles, as the one the items were made with and the one they are for.
/// Pages are counted from one.
pub fn query_user(session: &Session, page: u32) -> (call: QueryCall)
    ensures
        call == (QueryCall::SubscribedItems {
            account: session.account_id,
            order: UserListOrder::SubscriptionDateDesc,
            creator_app: session.app_id,
            consumer_app: session.app_id,
            page: page,
        }),
{
    QueryCall::SubscribedItems {
        account: session.account_id,
        order: UserListOrder::SubscriptionDateDesc,
        creator_app: session.app_id,
        consumer_app: session.app_id,
        page,
    }
}

/// Query how many items the user of the session is subscribed to. The count
/// comes with any page of results, so the first page is asked for.
pub fn query_user_total_results_num(session: &Session) -> (call: QueryCall)
    ensures
        call == (QueryCall::SubscribedItems {
            account: session.account_id,
            order: UserListOrder::CreationOrderAsc,
            creator_app: session.app_id,
            consumer_app: session.app_id,
            page: 1,
        }),
{
    QueryCall::SubscribedItems {
        account: session.account_id,
        order: UserListOrder::CreationOrderAsc,
        creator_app: session.app_id,
        consumer_app: session.app_id,
        page: 1,
    }
}

/// Subscribe to an item.
pub fn subscribe(item_id: &BigInt) -> (call: ItemCall)
    ensures
        call == (ItemCall::Subscribe { item: item_id@.low_word() }),
{
    ItemCall::Subscribe { item: encode(item_id) }
}

/// Unsubscribe from an item.
pub fn unsubscribe(item_id: &BigInt) -> (call: ItemCall)
    ensures
        call == (ItemCall::Unsubscribe { item: item_id@.low_word() }),
{
    ItemCall::Unsubscribe { item: encode(item_id) }
}

/// Delete an item from the workshop.
pub fn delete_item(item_id: &BigInt) -> (call: ItemCall)
    ensures
        call == (ItemCall::Delete { item: item_id@.low_word() }),
{
    ItemCall::Delete { item: encode(item_id) }
}

} // verus!
