//! Workshop operations.
//!
//! An operation that the platform answers later, through a callback, has
//! two halves around the call. The [`request`] half takes the caller's
//! arguments and says which call to make, with which arguments. The
//! [`reply`] half takes what came back, as it came out of the bridge, and
//! says what the caller gets. The call itself, and the waiting, are the
//! business of whoever owns the client session.
//!
//! An operation that the platform answers on the spot is one function, in
//! [`local`], which is handed the platform's function to call.
//!
//! This file holds the values that pass between the operations and their
//! surroundings: the calls, the platform's answers as plain values, and the
//! results handed to the caller.

use crate::bigint::{decode, decoded, BigInt, BigIntView};
use crate::update::{clone_strings, UpdateStep, UpdateStepView, steps_view};
use vstd::prelude::*;

pub mod local;
pub mod reply;
pub mod request;

verus! {

/// What an operation reads from the client session: the application it runs
/// for and the account that is logged in.
#[derive(Clone, Copy, Debug, PartialEq, Eq, Structural)]
pub struct Session {
    pub app_id: u32,
    pub account_id: u32,
}

/// A call whose callback brings the identifier of a published item.
#[derive(Debug, PartialEq, Eq)]
pub enum PublishCall {
    /// Create a new community item for application `app_id`.
    CreateItem { app_id: u32 },
    /// Start an update of `item` for application `app_id`, take `steps` on
    /// it in order, and submit it, with the change note if there is one.
    SubmitItemUpdate { app_id: u32, item: u64, steps: Vec<UpdateStep>, change_note: Option<String> },
}

/// The mathematical content of a [`PublishCall`].
pub enum PublishCallView {
    CreateItem { app_id: u32 },
    SubmitItemUpdate {
        app_id: u32,
        item: u64,
        steps: Seq<UpdateStepView>,
        change_note: Option<Seq<char>>,
    },
}

impl View for PublishCall {
    type V = PublishCallView;

    open spec fn view(&self) -> PublishCallView {
        match self {
            PublishCall::CreateItem { app_id } => PublishCallView::CreateItem { app_id: *app_id },
            PublishCall::SubmitItemUpdate {
                app_id,
                item,
                steps,
                change_note,
            } => PublishCallView::SubmitItemUpdate {
                app_id: *app_id,
                item: *item,
                steps: steps_view(steps@),
                change_note: change_note.deep_view(),
            },
        }
    }
}

/// A call whose callback brings success or failure and nothing else.
#[derive(Clone, Copy, Debug, PartialEq, Eq, Structural)]
pub enum ItemCall {
    Subscribe { item: u64 },
    Unsubscribe { item: u64 },
    Delete { item: u64 },
}

/// The order in which a query lists a user's items.
#[derive(Clone, Copy, Debug, PartialEq, Eq, Structural)]
pub enum UserListOrder {
    CreationOrderAsc,
    SubscriptionDateDesc,
}

/// A call whose callback brings query results.
#[derive(Clone, Copy, Debug, PartialEq, Eq, Structural)]
pub enum QueryCall {
    /// The details of the one item `item`.
    Item { item: u64 },
    /// One page of the items that `account` is subscribed to, in `order`,
    /// among those made with application `creator_app` for application
    /// `consumer_app`.
    SubscribedItems {
        account: u32,
        order: UserListOrder,
        creator_app: u32,
        consumer_app: u32,
        page: u32,
    },
}

/// What the platform hands to the callback of a [`PublishCall`] that went
/// well.
#[derive(Clone, Copy, Debug, PartialEq, Eq, Structural)]
pub struct Published {
    pub item: u64,
    pub needs_to_accept_agreement: bool,
}

/// One entry of the platform's query results, reduced to what the
/// operations read.
#[derive(Debug, PartialEq, Eq)]
pub struct QueryResult {
    pub published_file_id: u64,
    pub owner: u64,
    pub title: String,
    pub description: String,
    pub tags: Vec<String>,
    pub url: String,
}

/// The mathematical content of a [`QueryResult`].
pub struct QueryResultView {
    pub published_file_id: u64,
    pub owner: u64,
    pub title: Seq<char>,
    pub description: Seq<char>,
    pub tags: Seq<Seq<char>>,
    pub url: Seq<char>,
}

impl View for QueryResult {
    type V = QueryResultView;

    open spec fn view(&self) -> QueryResultView {
        QueryResultView {
            published_file_id: self.published_file_id,
            owner: self.owner,
            title: self.title@,
            description: self.description@,
            tags: self.tags.deep_view(),
            url: self.url@,
        }
    }
}

/// What the platform hands to the callback of a [`QueryCall`] that went
/// well: the entries of the page that was asked for, and how many entries
/// the query has over all its pages. An entry that the platform could not
/// read is `None`.
#[derive(Debug, PartialEq, Eq)]
pub struct QueryResults {
    pub results: Vec<Option<QueryResult>>,
    pub total_results: u32,
}

/// The content of entry `index` of a page: `None` where the page has no
/// such entry or the platform could not read it.
pub open spec fn entry(results: Seq<Option<QueryResult>>, index: int) -> Option<QueryResultView> {
    if 0 <= index < results.len() {
        match results[index] {
            Some(result) => Some(result@),
            None => None,
        }
    } else {
        None
    }
}

/// What the platform knows of an item that is installed on this client.
#[derive(Debug, PartialEq, Eq)]
pub struct InstalledItem {
    pub folder: String,
    pub size_on_disk: u64,
    pub timestamp: u32,
}

/// The outcome of creating or updating an item.
#[derive(Debug, PartialEq, Eq)]
pub struct UgcResult {
    pub item_id: BigInt,
    pub needs_to_accept_agreement: bool,
}

/// The mathematical content of a [`UgcResult`].
pub struct UgcResultView {
    pub item_id: BigIntView,
    pub needs_to_accept_agreement: bool,
}

impl View for UgcResult {
    type V = UgcResultView;

    open spec fn view(&self) -> UgcResultView {
        UgcResultView {
            item_id: self.item_id@,
            needs_to_accept_agreement: self.needs_to_accept_agreement,
        }
    }
}

/// One workshop entry as a query shows it.
#[derive(Debug, PartialEq, Eq)]
pub struct QueryItem {
    pub published_file_id: BigInt,
    pub owner_steam_id: BigInt,
    pub title: String,
    pub description: String,
    pub tags: Vec<String>,
    pub url: String,
}

/// The mathematical content of a [`QueryItem`].
pub struct QueryItemView {
    pub published_file_id: BigIntView,
    pub owner_steam_id: BigIntView,
    pub title: Seq<char>,
    pub description: Seq<char>,
    pub tags: Seq<Seq<char>>,
    pub url: Seq<char>,
}

impl View for QueryItem {
    type V = QueryItemView;

    open spec fn view(&self) -> QueryItemView {
        QueryItemView {
            published_file_id: self.published_file_id@,
            owner_steam_id: self.owner_steam_id@,
            title: self.title@,
            description: self.description@,
            tags: self.tags.deep_view(),
            url: self.url@,
        }
    }
}

/// The entry that a query result is shown as: both identifiers decoded,
/// every text as it is.
pub open spec fn shown(result: QueryResultView) -> QueryItemView {
    QueryItemView {
        published_file_id: decoded(result.published_file_id),
        owner_steam_id: decoded(result.owner),
        title: result.title,
        description: result.description,
        tags: result.tags,
        url: result.url,
    }
}

impl QueryItem {
    /// Shows one query result to the caller.
    pub fn from_result(result: &QueryResult) -> (item: QueryItem)
        ensures
            item@ == shown(result@),
    {
        QueryItem {
            published_file_id: decode(result.published_file_id),
            owner_steam_id: decode(result.owner),
            title: result.title.clone(),
            description: result.description.clone(),
            tags: clone_strings(&result.tags),
            url: result.url.clone(),
        }
    }
}

/// Where an item is installed.
#[derive(Debug, PartialEq, Eq)]
pub struct InstallInfo {
    pub folder: String,
    pub size_on_disk: BigInt,
    pub timestamp: u32,
}

/// The mathematical content of an [`InstallInfo`].
pub struct InstallInfoView {
    pub folder: Seq<char>,
    pub size_on_disk: BigIntView,
    pub timestamp: u32,
}

impl View for InstallInfo {
    type V = InstallInfoView;

    open spec fn view(&self) -> InstallInfoView {
        InstallInfoView {
            folder: self.folder@,
            size_on_disk: self.size_on_disk@,
            timestamp: self.timestamp,
        }
    }
}

/// What the caller is told of an installed item: the folder and the time as
/// they are, the size decoded.
pub open spec fn shown_install(installed: InstalledItem) -> InstallInfoView {
    InstallInfoView {
        folder: installed.folder@,
        size_on_disk: decoded(installed.size_on_disk),
        timestamp: installed.timestamp,
    }
}

impl InstallInfo {
    /// Shows the caller what the platform knows of an installed item.
    pub fn from_installed(installed: InstalledItem) -> (info: InstallInfo)
        ensures
            info@ == shown_install(installed),
    {
        InstallInfo {
            folder: installed.folder,
            size_on_disk: decode(installed.size_on_disk),
            timestamp: installed.timestamp,
        }
    }
}

/// How far a download is.
#[derive(Debug, PartialEq, Eq)]
pub struct DownloadInfo {
    pub current: BigInt,
    pub total: BigInt,
}

/// The mathematical content of a [`DownloadInfo`].
pub struct DownloadInfoView {
    pub current: BigIntView,
    pub total: BigIntView,
}

impl View for DownloadInfo {
    type V = DownloadInfoView;

    open spec fn view(&self) -> DownloadInfoView {
        DownloadInfoView { current: self.current@, total: self.total@ }
    }
}

/// What the caller is told of a download: the bytes that are there and the
/// bytes in all, both decoded.
pub open spec fn shown_progress(progress: (u64, u64)) -> DownloadInfoView {
    DownloadInfoView { current: decoded(progress.0), total: decoded(progress.1) }
}

impl DownloadInfo {
    /// Shows the caller how far a download is.
    pub fn from_progress(progress: (u64, u64)) -> (info: DownloadInfo)
        ensures
            info@ == shown_progress(progress),
    {
        DownloadInfo { current: decode(progress.0), total: decode(progress.1) }
    }
}

/// Why an operation failed.
#[derive(Debug, PartialEq, Eq)]
pub enum Error {
    /// The platform reported a failure. The text is its own, unchanged.
    Sdk(String),
    /// A query for one item, or one entry of a page, brought nothing.
    NotFound,
    /// The callback was discarded before it fired: the operation was
    /// abandoned.
    ChannelClosed,
}

/// The mathematical content of an [`Error`].
pub enum ErrorView {
    Sdk(Seq<char>),
    NotFound,
    ChannelClosed,
}

impl ErrorView {
    /// The message that the caller is shown.
    pub open spec fn reason(self) -> Seq<char> {
        match self {
            ErrorView::Sdk(text) => text,
            ErrorView::NotFound => "workshop item not found"@,
            ErrorView::ChannelClosed => "operation abandoned: the callback channel was closed"@,
        }
    }
}

impl View for Error {
    type V = ErrorView;

    open spec fn view(&self) -> ErrorView {
        match self {
            Error::Sdk(text) => ErrorView::Sdk(text@),
            Error::NotFound => ErrorView::NotFound,
            Error::ChannelClosed => ErrorView::ChannelClosed,
        }
    }
}

impl Error {
    /// The message that the caller is shown. For a failure that the platform
    /// reported it is the platform's text and nothing else.
    pub fn reason(&self) -> (text: String)
        ensures
            text@ == self@.reason(),
    {
        match self {
            Error::Sdk(text) => text.clone(),
            Error::NotFound => "workshop item not found".to_owned(),
            Error::ChannelClosed => "operation abandoned: the callback channel was closed".to_owned(),
        }
    }
}

} // verus!
