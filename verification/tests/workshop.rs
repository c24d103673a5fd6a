use steamworksjs::bigint::{decode, encode, BigInt};
use steamworksjs::bridge::Delivery;
use steamworksjs::update::{UgcUpdate, UpdateStep, Visibility};
use steamworksjs::workshop::local;
use steamworksjs::workshop::reply;
use steamworksjs::workshop::request;
use steamworksjs::workshop::{
    DownloadInfo, Error, InstallInfo, InstalledItem, ItemCall, PublishCall, Published, QueryCall,
    QueryItem, QueryResult, QueryResults, Session, UgcResult, UserListOrder,
};

fn session() -> Session {
    Session { app_id: 1634680, account_id: 140280942 }
}

fn result(id: u64, title: &str) -> QueryResult {
    QueryResult {
        published_file_id: id,
        owner: 76561198100546670,
        title: String::from(title),
        description: String::from("about ") + title,
        tags: vec![String::from("map"), String::from("hard")],
        url: String::from("https://example.invalid/") + title,
    }
}

fn item(id: u64, title: &str) -> QueryItem {
    QueryItem {
        published_file_id: decode(id),
        owner_steam_id: decode(76561198100546670),
        title: String::from(title),
        description: String::from("about ") + title,
        tags: vec![String::from("map"), String::from("hard")],
        url: String::from("https://example.invalid/") + title,
    }
}

fn failed<T>(text: &str) -> Delivery<Result<T, String>> {
    Delivery::Value(Err(String::from(text)))
}

#[test]
fn set_update_item() {
    let id = decode(2892196504);
    let update = UgcUpdate {
        title: Some(String::from("ttt")),
        description: Some(String::from("ttt")),
        change_note: Some(String::from("ttt")),
        preview_path: None,
        content_path: None,
        tags: None,
    };
    let call = request::update_item(&session(), &id, update);
    assert_eq!(
        call,
        PublishCall::SubmitItemUpdate {
            app_id: 1634680,
            item: 2892196504,
            steps: vec![
                UpdateStep::Title(String::from("ttt")),
                UpdateStep::Description(String::from("ttt")),
                UpdateStep::Visibility(Visibility::Public),
            ],
            change_note: Some(String::from("ttt")),
        }
    );
}

#[test]
fn test_query_item() {
    let call = request::query_item(&decode(2892196504));
    assert_eq!(call, QueryCall::Item { item: 2892196504 });
    let page = QueryResults { results: vec![Some(result(2892196504, "first"))], total_results: 1 };
    assert_eq!(reply::query_item(Delivery::Value(Ok(page))), Ok(item(2892196504, "first")));
}

#[test]
fn ttttt() {}

#[test]
fn a_query_for_one_item_takes_the_first_entry() {
    let page = QueryResults {
        results: vec![Some(result(5, "first")), Some(result(6, "second"))],
        total_results: 2,
    };
    assert_eq!(reply::query_item(Delivery::Value(Ok(page))), Ok(item(5, "first")));
}

#[test]
fn an_empty_query_is_not_found() {
    let empty = QueryResults { results: Vec::new(), total_results: 0 };
    assert_eq!(reply::query_item(Delivery::Value(Ok(empty))), Err(Error::NotFound));
    let unread = QueryResults { results: vec![None, Some(result(6, "second"))], total_results: 2 };
    assert_eq!(reply::query_item(Delivery::Value(Ok(unread))), Err(Error::NotFound));
}

#[test]
fn a_query_fails_as_the_platform_says() {
    assert_eq!(
        reply::query_item(failed("a file was not found")),
        Err(Error::Sdk(String::from("a file was not found")))
    );
    assert_eq!(reply::query_item(Delivery::Closed), Err(Error::ChannelClosed));
    assert_eq!(
        reply::query_user(failed("access denied")),
        Err(Error::Sdk(String::from("access denied")))
    );
    assert_eq!(reply::query_user(Delivery::Closed), Err(Error::ChannelClosed));
    assert_eq!(
        reply::query_user_total_results_num(failed("operation timed out")),
        Err(Error::Sdk(String::from("operation timed out")))
    );
    assert_eq!(reply::query_user_total_results_num(Delivery::Closed), Err(Error::ChannelClosed));
}

#[test]
fn a_page_keeps_its_order() {
    let page = QueryResults {
        results: vec![Some(result(9, "nine")), Some(result(3, "three")), Some(result(7, "seven"))],
        total_results: 120,
    };
    assert_eq!(
        reply::query_user(Delivery::Value(Ok(page))),
        Ok(vec![item(9, "nine"), item(3, "three"), item(7, "seven")])
    );
    let empty = QueryResults { results: Vec::new(), total_results: 120 };
    assert_eq!(reply::query_user(Delivery::Value(Ok(empty))), Ok(Vec::new()));
}

#[test]
fn a_page_with_an_unread_entry_is_refused() {
    let page = QueryResults {
        results: vec![Some(result(9, "nine")), None, Some(result(7, "seven"))],
        total_results: 3,
    };
    assert_eq!(reply::query_user(Delivery::Value(Ok(page))), Err(Error::NotFound));
}

#[test]
fn the_total_is_not_the_length_of_the_page() {
    let page = QueryResults { results: vec![Some(result(9, "nine"))], total_results: 120 };
    assert_eq!(reply::query_user_total_results_num(Delivery::Value(Ok(page))), Ok(120));
    let empty = QueryResults { results: Vec::new(), total_results: 0 };
    assert_eq!(reply::query_user_total_results_num(Delivery::Value(Ok(empty))), Ok(0));
}

#[test]
fn a_created_item_is_reported_with_its_identifier() {
    let published = Published { item: 2892196504, needs_to_accept_agreement: true };
    assert_eq!(
        reply::create_item(Delivery::Value(Ok(published))),
        Ok(UgcResult {
            item_id: BigInt { sign_bit: false, words: vec![2892196504] },
            needs_to_accept_agreement: true,
        })
    );
    let largest = Published { item: u64::MAX, needs_to_accept_agreement: false };
    assert_eq!(
        reply::update_item(Delivery::Value(Ok(largest))),
        Ok(UgcResult { item_id: decode(u64::MAX), needs_to_accept_agreement: false })
    );
}

#[test]
fn publishing_fails_as_the_platform_says() {
    assert_eq!(
        reply::create_item(failed("a generic failure from the steamworks API")),
        Err(Error::Sdk(String::from("a generic failure from the steamworks API")))
    );
    assert_eq!(
        reply::update_item(failed("access denied")),
        Err(Error::Sdk(String::from("access denied")))
    );
    assert_eq!(reply::create_item(Delivery::Closed), Err(Error::ChannelClosed));
    assert_eq!(reply::update_item(Delivery::Closed), Err(Error::ChannelClosed));
}

#[test]
fn lifecycle_operations_say_what_the_platform_says() {
    assert_eq!(reply::subscribe(Delivery::Value(Ok(()))), Ok(()));
    assert_eq!(reply::subscribe(Delivery::Value(Ok(()))), Ok(()));
    assert_eq!(reply::unsubscribe(Delivery::Value(Ok(()))), Ok(()));
    assert_eq!(reply::delete_item(Delivery::Value(Ok(()))), Ok(()));
    assert_eq!(reply::subscribe(failed("x")), Err(Error::Sdk(String::from("x"))));
    assert_eq!(reply::unsubscribe(failed("")), Err(Error::Sdk(String::new())));
    assert_eq!(reply::delete_item(failed("busy")), Err(Error::Sdk(String::from("busy"))));
    assert_eq!(reply::subscribe(Delivery::Closed), Err(Error::ChannelClosed));
    assert_eq!(reply::unsubscribe(Delivery::Closed), Err(Error::ChannelClosed));
    assert_eq!(reply::delete_item(Delivery::Closed), Err(Error::ChannelClosed));
}

#[test]
fn install_information_is_there_or_not() {
    let id = decode(2892196504);
    assert_eq!(local::install_info(&id, |_| None), None);
    let info = local::install_info(&id, |item| {
        Some(InstalledItem {
            folder: format!("/games/workshop/content/480/{}", item),
            size_on_disk: 5_000_000_000,
            timestamp: 1691544032,
        })
    });
    assert_eq!(
        info,
        Some(InstallInfo {
            folder: String::from("/games/workshop/content/480/2892196504"),
            size_on_disk: decode(5_000_000_000),
            timestamp: 1691544032,
        })
    );
    let installed = InstalledItem { folder: String::new(), size_on_disk: u64::MAX, timestamp: 0 };
    assert_eq!(
        InstallInfo::from_installed(installed),
        InstallInfo { folder: String::new(), size_on_disk: decode(u64::MAX), timestamp: 0 }
    );
}

#[test]
fn download_information_is_there_or_not() {
    let id = decode(77);
    assert_eq!(local::download_info(&id, |_| None), None);
    assert_eq!(
        local::download_info(&id, |item| Some((item, u64::MAX))),
        Some(DownloadInfo { current: decode(77), total: decode(u64::MAX) })
    );
    assert_eq!(
        DownloadInfo::from_progress((1024, 4096)),
        DownloadInfo { current: decode(1024), total: decode(4096) }
    );
}

#[test]
fn the_state_is_read_for_the_encoded_identifier() {
    // 9 = 1 (subscribed) + 8 (needs update)
    let flags = |item: u64| if item == 2892196504 { 9 } else { 0 };
    assert_eq!(local::state(&decode(2892196504), flags), 9);
    assert_eq!(local::state(&decode(5), flags), 0);
    let wide = BigInt { sign_bit: true, words: vec![2892196504, 6] };
    assert_eq!(local::state(&wide, flags), 9);
}

#[test]
fn a_download_is_asked_for_not_waited_for() {
    let id = decode(31);
    assert!(local::download(&id, true, |item, high_priority| item == 31 && high_priority));
    assert!(local::download(&id, false, |item, high_priority| item == 31 && !high_priority));
    assert!(!local::download(&id, false, |_, _| false));
}

#[test]
fn every_error_has_its_message() {
    assert_eq!(Error::Sdk(String::from("name is invalid")).reason(), "name is invalid");
    assert_eq!(Error::Sdk(String::new()).reason(), "");
    assert_eq!(Error::NotFound.reason(), "workshop item not found");
    assert_eq!(
        Error::ChannelClosed.reason(),
        "operation abandoned: the callback channel was closed"
    );
}

#[test]
fn creating_is_asked_for_the_application_of_the_session() {
    assert_eq!(request::create_item(&session()), PublishCall::CreateItem { app_id: 1634680 });
}

#[test]
fn an_update_of_nothing_still_asks_for_public_visibility() {
    let nothing = UgcUpdate {
        title: None,
        description: None,
        change_note: None,
        preview_path: None,
        content_path: None,
        tags: None,
    };
    assert_eq!(
        request::update_item(&session(), &decode(7), nothing),
        PublishCall::SubmitItemUpdate {
            app_id: 1634680,
            item: 7,
            steps: vec![UpdateStep::Visibility(Visibility::Public)],
            change_note: None,
        }
    );
}

#[test]
fn pages_of_subscribed_items_are_asked_for_latest_first() {
    assert_eq!(
        request::query_user(&session(), 3),
        QueryCall::SubscribedItems {
            account: 140280942,
            order: UserListOrder::SubscriptionDateDesc,
            creator_app: 1634680,
            consumer_app: 1634680,
            page: 3,
        }
    );
}

#[test]
fn the_count_is_asked_for_with_the_first_page() {
    assert_eq!(
        request::query_user_total_results_num(&session()),
        QueryCall::SubscribedItems {
            account: 140280942,
            order: UserListOrder::CreationOrderAsc,
            creator_app: 1634680,
            consumer_app: 1634680,
            page: 1,
        }
    );
}

#[test]
fn every_call_on_an_item_carries_the_encoded_identifier() {
    let id = decode(2892196504);
    assert_eq!(request::subscribe(&id), ItemCall::Subscribe { item: 2892196504 });
    assert_eq!(request::unsubscribe(&id), ItemCall::Unsubscribe { item: 2892196504 });
    assert_eq!(request::delete_item(&id), ItemCall::Delete { item: 2892196504 });
    assert_eq!(request::query_item(&id), QueryCall::Item { item: 2892196504 });
}

#[test]
fn an_identifier_that_is_too_wide_is_cut_not_refused() {
    // 1 + 2 * 2^64, and -3: only the low word of the magnitude goes out.
    let wide = BigInt { sign_bit: false, words: vec![1, 2] };
    assert_eq!(request::query_item(&wide), QueryCall::Item { item: 1 });
    assert_eq!(request::subscribe(&wide), ItemCall::Subscribe { item: 1 });
    let negative = BigInt { sign_bit: true, words: vec![3] };
    assert_eq!(request::unsubscribe(&negative), ItemCall::Unsubscribe { item: 3 });
    let written_with_no_word = BigInt { sign_bit: false, words: Vec::new() };
    assert_eq!(request::delete_item(&written_with_no_word), ItemCall::Delete { item: 0 });
}

#[test]
fn a_query_result_is_shown_with_decoded_identifiers() {
    let shown = QueryItem::from_result(&result(u64::MAX, "edge"));
    assert_eq!(shown, item(u64::MAX, "edge"));
    assert!(shown.published_file_id.fits_u64());
    assert_eq!(encode(&shown.owner_steam_id), 76561198100546670);
}
