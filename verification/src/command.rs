//! What the commands of the user interface take and report.

use crate::dlsite::dto::{DLsiteProductAgeCategory, DLsiteProductType};
use crate::dlsite::session::{LoginError, LoginFailure};
use vstd::prelude::*;

verus! {

/// A catalog query as the user interface sends it.
#[derive(Debug, Clone)]
pub struct ProductQuery<'a> {
    pub query: Option<&'a str>,
    pub ty: Option<DLsiteProductType>,
    pub age: Option<DLsiteProductAgeCategory>,
    pub order_by_asc: bool,
}

impl<'a> Default for ProductQuery<'a> {
    fn default() -> (query: Self)
        ensures
            query.query is None,
            query.ty is None,
            query.age is None,
            !query.order_by_asc,
    {
        ProductQuery { query: None, ty: None, age: None, order_by_asc: false }
    }
}

/// Progress of the download of a product, in percent.
#[derive(Debug, Clone)]
pub struct ProductDownloadProgressEvent<'a> {
    pub product_id: &'a str,
    pub progress: usize,
    pub decompressing: bool,
}

/// The end of the download of a product, with the directory it was downloaded to if the
/// download succeeded.
#[derive(Debug, Clone)]
pub struct ProductDownloadEndEvent<'a> {
    pub product_id: &'a str,
    pub downloaded_path: Option<&'a str>,
}

/// `progress` of `total` in percent, rounded to the nearest whole number, halves up.
/// Of a total of nothing, no progress is 0 percent and any other is beyond all bounds.
pub open spec fn percent_of(progress: u64, total: u64) -> int {
    if total == 0 {
        if progress == 0 {
            0
        } else {
            usize::MAX as int
        }
    } else {
        (progress * 200 + total) / (2 * total)
    }
}

/// `progress` of `total` in percent.
pub fn percent(progress: u64, total: u64) -> (percent: usize)
    ensures
        percent == if percent_of(progress, total) <= usize::MAX {
            percent_of(progress, total)
        } else {
            usize::MAX as int
        },
{
    if total == 0 {
        if progress == 0 {
            0
        } else {
            usize::MAX
        }
    } else {
        let scaled: u128 = (progress as u128) * 200 + total as u128;
        let rounded: u128 = scaled / (2 * (total as u128));
        if rounded > usize::MAX as u128 {
            usize::MAX
        } else {
            rounded as usize
        }
    }
}

impl<'a> ProductDownloadProgressEvent<'a> {
    /// The event that reports `progress` bytes of `total` for the product `product_id`.
    pub fn new(product_id: &'a str, progress: u64, total: u64, decompressing: bool) -> (event:
        Self)
        ensures
            event.product_id@ == product_id@,
            event.decompressing == decompressing,
            event.progress == if percent_of(progress, total) <= usize::MAX {
                percent_of(progress, total)
            } else {
                usize::MAX as int
            },
    {
        ProductDownloadProgressEvent {
            product_id,
            progress: percent(progress, total),
            decompressing,
        }
    }
}

/// What the test of an account's credentials reports to the user interface: the number
/// of its purchases, or -1 for wrong credentials. Any other failure is an error.
pub open spec fn account_test_report(login: Result<(), LoginError>, count: Option<u32>) -> Result<
    isize,
    LoginFailure,
> {
    match login {
        Err(LoginError::WrongCredentials) => Ok(-1isize),
        Err(LoginError::Other(failure)) => Err(failure),
        Ok(()) => match count {
            Some(count) => Ok(count as isize),
            None => Err(LoginFailure::Transport),
        },
    }
}

/// Sums up the test of an account's credentials: `login` is the outcome of the login,
/// `count` the product count that was fetched after it, if one was.
pub fn account_management_test_account(login: Result<(), LoginError>, count: Option<u32>) -> (report:
    Result<isize, LoginFailure>)
    ensures
        report == account_test_report(login, count),
{
    match login {
        Err(LoginError::WrongCredentials) => Ok(-1),
        Err(LoginError::Other(failure)) => Err(failure),
        Ok(()) => match count {
            Some(count) => Ok(count as isize),
            None => Err(LoginFailure::Transport),
        },
    }
}

/// What is known of the recorded download location of a product.
#[derive(Debug, Clone, Copy, PartialEq, Eq, Structural)]
pub enum DownloadLocation {
    /// No location is recorded.
    Unknown,
    /// A location is recorded, and it is no directory any more.
    Missing,
    /// A location is recorded, and it is a directory.
    Present,
}

/// What is done when the user asks for the folder of a downloaded product.
#[derive(Debug, Clone, Copy, PartialEq, Eq, Structural)]
pub enum OpenFolderAction {
    /// Tell the user interface that the product is not downloaded.
    ReportInvalid,
    /// Forget the recorded location, then tell the user interface that the product is
    /// not downloaded.
    ForgetAndReportInvalid,
    /// Open the folder.
    Open,
}

/// Decides what to do when the user asks for the folder of a downloaded product.
pub fn product_open_downloaded_folder(location: DownloadLocation) -> (action: OpenFolderAction)
    ensures
        action == match location {
            DownloadLocation::Unknown => OpenFolderAction::ReportInvalid,
            DownloadLocation::Missing => OpenFolderAction::ForgetAndReportInvalid,
            DownloadLocation::Present => OpenFolderAction::Open,
        },
{
    match location {
        DownloadLocation::Unknown => OpenFolderAction::ReportInvalid,
        DownloadLocation::Missing => OpenFolderAction::ForgetAndReportInvalid,
        DownloadLocation::Present => OpenFolderAction::Open,
    }
}

} // verus!
