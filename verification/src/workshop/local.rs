//! Operations that the platform answers on the spot, from what the client
//! knows locally. No callback is involved and nothing is waited for.
//!
//! Each operation is handed the platform's function as an argument. It
//! encodes the identifier, makes the one call, and shows the answer to the
//! caller. That there is no answer (an item that is not installed, a
//! download that is not running) is an answer too, and no error.

use crate::bigint::{encode, BigInt};
use crate::workshop::{
    shown_install, shown_progress, DownloadInfo, DownloadInfoView, InstallInfo, InstallInfoView,
    InstalledItem,
};
use vstd::prelude::*;

verus! {

/// The state of an item on this client: the flags that `item_state` gives
/// for the encoded identifier, as one number. The flags are the platform's
/// and are passed on as they are.
pub fn state<F: FnOnce(u64) -> u32>(item_id: &BigInt, item_state: F) -> (flags: u32)
    requires
        call_requires(item_state, (item_id@.low_word(),)),
    ensures
        call_ensures(item_state, (item_id@.low_word(),), flags),
{
    item_state(encode(item_id))
}

/// The content of what [`install_info`] gives.
pub open spec fn install_view(info: Option<InstallInfo>) -> Option<InstallInfoView> {
    match info {
        Some(info) => Some(info@),
        None => None,
    }
}

/// What the caller is told for an answer of the platform on an installed
/// item.
pub open spec fn shown_install_answer(answer: Option<InstalledItem>) -> Option<InstallInfoView> {
    match answer {
        Some(installed) => Some(shown_install(installed)),
        None => None,
    }
}

/// Where an item is installed: what `item_install_info` answers for the
/// encoded identifier, shown to the caller. `None` means that the item is
/// not installed.
pub fn install_info<F: FnOnce(u64) -> Option<InstalledItem>>(
    item_id: &BigInt,
    item_install_info: F,
) -> (info: Option<InstallInfo>)
    requires
        call_requires(item_install_info, (item_id@.low_word(),)),
    ensures
        exists|answer: Option<InstalledItem>|
            call_ensures(item_install_info, (item_id@.low_word(),), answer) && install_view(info)
                == shown_install_answer(answer),
{
    let answer = item_install_info(encode(item_id));
    let ghost seen = answer;
    let info = match answer {
        Some(installed) => Some(InstallInfo::from_installed(installed)),
        None => None,
    };
    assert(call_ensures(item_install_info, (item_id@.low_word(),), seen) && install_view(info)
        == shown_install_answer(seen));
    info
}

/// The content of what [`download_info`] gives.
pub open spec fn download_view(info: Option<DownloadInfo>) -> Option<DownloadInfoView> {
    match info {
        Some(info) => Some(info@),
        None => None,
    }
}

/// What the caller is told for an answer of the platform on a download.
pub open spec fn shown_progress_answer(answer: Option<(u64, u64)>) -> Option<DownloadInfoView> {
    match answer {
        Some(progress) => Some(shown_progress(progress)),
        None => None,
    }
}

/// How far the download of an item is: what `item_download_info` answers for
/// the encoded identifier, shown to the caller. `None` means that no
/// download of the item is running.
pub fn download_info<F: FnOnce(u64) -> Option<(u64, u64)>>(
    item_id: &BigInt,
    item_download_info: F,
) -> (info: Option<DownloadInfo>)
    requires
        call_requires(item_download_info, (item_id@.low_word(),)),
    ensures
        exists|answer: Option<(u64, u64)>|
            call_ensures(item_download_info, (item_id@.low_word(),), answer) && download_view(
                info,
            ) == shown_progress_answer(answer),
{
    let answer = item_download_info(encode(item_id));
    let info = match answer {
        Some(progress) => Some(DownloadInfo::from_progress(progress)),
        None => None,
    };
    assert(call_ensures(item_download_info, (item_id@.low_word(),), answer) && download_view(info)
        == shown_progress_answer(answer));
    info
}

/// Asks for an item to be downloaded or brought up to date, ahead of all
/// other downloads if `high_priority` is set. The answer is whether
/// `download_item` took the request for the encoded identifier; the download
/// itself is not waited for.
pub fn download<F: FnOnce(u64, bool) -> bool>(
    item_id: &BigInt,
    high_priority: bool,
    download_item: F,
) -> (accepted: bool)
    requires
        call_requires(download_item, (item_id@.low_word(), high_priority)),
    ensures
        call_ensures(download_item, (item_id@.low_word(), high_priority), accepted),
{
    download_item(encode(item_id), high_priority)
}

} // verus!
