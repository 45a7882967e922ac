//! The actions of the application menu: what an entry of the menu starts, the guard that
//! keeps two catalog updates from running at once, the events that report progress, and
//! the scan of the download directory for products that no account owns.

use crate::database::models::v2::{CreatingProduct, CreatingProductDownload};
use crate::dlsite::dto::DLsiteProduct;
use crate::text::str_eq;
use vstd::prelude::*;

verus! {

/// Progress of an incremental sync.
#[derive(Debug, Clone, Copy, PartialEq, Eq, Structural)]
pub struct FetchNewProductsProgressEvent {
    pub progress: u32,
    pub total_progress: u32,
}

/// Progress of a full refresh.
#[derive(Debug, Clone, Copy, PartialEq, Eq, Structural)]
pub struct RefreshProductsAllProgressEvent {
    pub progress: u32,
    pub total_progress: u32,
}

/// Progress of a refresh of the catalog listing.
#[derive(Debug, Clone, Copy, PartialEq, Eq, Structural)]
pub struct RefreshProductListEvent {
    pub progress: usize,
    pub total_progress: usize,
}

/// Progress of an update of the catalog listing.
#[derive(Debug, Clone, Copy, PartialEq, Eq, Structural)]
pub struct UpdateProductListEvent {
    pub progress: usize,
    pub total_progress: usize,
}

/// What an entry of the menu starts.
#[derive(Debug, Clone, Copy, PartialEq, Eq, Structural)]
pub enum MenuCommand {
    OpenAccountManagement,
    FetchNewProducts,
    RefreshProductsAll,
    ScanDownloadedProducts,
    OpenSetting,
    OpenLogDirectory,
    /// The entry is none of this application's.
    Ignore,
}

/// The command of the menu entry with the id `id`.
pub open spec fn command_of(id: Seq<char>) -> MenuCommand {
    if id == "account/open-account-management"@ {
        MenuCommand::OpenAccountManagement
    } else if id == "product/fetch-new-products"@ {
        MenuCommand::FetchNewProducts
    } else if id == "product/refresh-products-all"@ {
        MenuCommand::RefreshProductsAll
    } else if id == "product/scan-downloaded-products"@ {
        MenuCommand::ScanDownloadedProducts
    } else if id == "setting/open-setting"@ {
        MenuCommand::OpenSetting
    } else if id == "log/open-log-directory"@ {
        MenuCommand::OpenLogDirectory
    } else {
        MenuCommand::Ignore
    }
}

/// Reads the id of a menu entry.
pub fn handle_menu(id: &str) -> (command: MenuCommand)
    ensures
        command == command_of(id@),
{
    if str_eq(id, "account/open-account-management") {
        MenuCommand::OpenAccountManagement
    } else if str_eq(id, "product/fetch-new-products") {
        MenuCommand::FetchNewProducts
    } else if str_eq(id, "product/refresh-products-all") {
        MenuCommand::RefreshProductsAll
    } else if str_eq(id, "product/scan-downloaded-products") {
        MenuCommand::ScanDownloadedProducts
    } else if str_eq(id, "setting/open-setting") {
        MenuCommand::OpenSetting
    } else if str_eq(id, "log/open-log-directory") {
        MenuCommand::OpenLogDirectory
    } else {
        MenuCommand::Ignore
    }
}

/// The command changes the catalog, so that only one of its kind may run at a time.
pub open spec fn updates_catalog(command: MenuCommand) -> bool {
    command == MenuCommand::FetchNewProducts || command == MenuCommand::RefreshProductsAll
        || command == MenuCommand::ScanDownloadedProducts
}

/// Takes the guard of catalog updates for `command`. The command may run if and only if
/// it does not change the catalog or no other update is running; in the second case the
/// guard is taken.
pub fn try_begin(is_updating_product: &mut bool, command: MenuCommand) -> (may_run: bool)
    ensures
        may_run == (!updates_catalog(command) || !*old(is_updating_product)),
        *final(is_updating_product) == (*old(is_updating_product) || updates_catalog(command)),
{
    let updates = match command {
        MenuCommand::FetchNewProducts => true,
        MenuCommand::RefreshProductsAll => true,
        MenuCommand::ScanDownloadedProducts => true,
        _ => false,
    };
    if !updates {
        true
    } else if *is_updating_product {
        false
    } else {
        *is_updating_product = true;
        true
    }
}

/// Gives the guard of catalog updates back after an update has ended.
pub fn finish(is_updating_product: &mut bool)
    ensures
        !*final(is_updating_product),
{
    *is_updating_product = false;
}

/// One entry of the download directory.
#[derive(Debug, Clone)]
pub struct ScannedEntry {
    /// The name of the entry; `None` where the name is no valid text.
    pub file_name: Option<String>,
    pub is_dir: bool,
    pub path: String,
}

/// A directory of the download directory, taken for a product by its name.
#[derive(Debug, Clone)]
pub struct ScannedProductDownload {
    pub id: String,
    pub path: String,
}

/// A product that was found on disk and that the public lookup knows.
#[derive(Debug, Clone)]
pub struct ScannedProduct {
    pub id: String,
    pub path: String,
    pub product: DLsiteProduct,
}

/// The entry is taken for a product: it is a directory and its name is valid text.
pub open spec fn is_candidate(entry: ScannedEntry) -> bool {
    entry.is_dir && entry.file_name is Some
}

/// Product id and path of the entries that are taken for products, in the order of
/// the entries.
pub open spec fn candidates_of(entries: Seq<ScannedEntry>) -> Seq<(Seq<char>, Seq<char>)>
    decreases entries.len(),
{
    if entries.len() == 0 {
        Seq::empty()
    } else {
        let rest = candidates_of(entries.drop_last());
        let entry = entries.last();
        if is_candidate(entry) {
            rest.push((entry.file_name->0@, entry.path@))
        } else {
            rest
        }
    }
}

/// Product id and path of scanned directories.
pub open spec fn downloads_view(downloads: Seq<ScannedProductDownload>) -> Seq<
    (Seq<char>, Seq<char>),
> {
    Seq::new(downloads.len(), |i: int| (downloads[i].id@, downloads[i].path@))
}

/// The directories of the download directory that are taken for products: every
/// directory whose name is valid text, the name being the product id.
pub fn scan_candidates(entries: &Vec<ScannedEntry>) -> (downloads: Vec<ScannedProductDownload>)
    ensures
        downloads_view(downloads@) == candidates_of(entries@),
{
    let mut downloads: Vec<ScannedProductDownload> = Vec::new();
    let mut i: usize = 0;
    assert(downloads_view(downloads@) =~= candidates_of(entries@.take(0)));
    while i < entries.len()
        invariant
            i <= entries@.len(),
            downloads_view(downloads@) == candidates_of(entries@.take(i as int)),
        decreases entries@.len() - i,
    {
        let ghost before = downloads_view(downloads@);
        proof {
            assert(entries@.take(i + 1).drop_last() =~= entries@.take(i as int));
            assert(entries@.take(i + 1).last() == entries@[i as int]);
        }
        let entry = &entries[i];
        if entry.is_dir {
            match &entry.file_name {
                Some(name) => {
                    downloads.push(
                        ScannedProductDownload { id: name.clone(), path: entry.path.clone() },
                    );
                    assert(downloads_view(downloads@) =~= before.push((name@, entry.path@)));
                },
                None => {},
            }
        }
        i += 1;
    }
    assert(entries@.take(i as int) =~= entries@);
    downloads
}

/// What the lookups of scanned directories yield: for every directory whose lookup
/// succeeded, its index among the directories, in order. A failed lookup drops that one
/// directory and no other.
pub open spec fn found_indices(lookups: Seq<Option<DLsiteProduct>>) -> Seq<int>
    decreases lookups.len(),
{
    if lookups.len() == 0 {
        Seq::empty()
    } else {
        let rest = found_indices(lookups.drop_last());
        if lookups.last() is Some {
            rest.push(lookups.len() - 1)
        } else {
            rest
        }
    }
}

/// The lookups that belong to scanned directories: `lookups[i]` is the outcome of the
/// lookup of `downloads[i]`, and a lookup beyond the last directory belongs to none.
pub open spec fn paired_lookups(
    downloads: Seq<ScannedProductDownload>,
    lookups: Seq<Option<DLsiteProduct>>,
) -> Seq<Option<DLsiteProduct>> {
    if lookups.len() <= downloads.len() {
        lookups
    } else {
        lookups.take(downloads.len() as int)
    }
}

/// The scanned directories that the public lookup knows, each with what the lookup
/// said of it. `lookups[i]` is the outcome of the lookup of `downloads[i]`; a directory
/// whose lookup failed, or for which none was made, is left out.
pub fn scanned_products(
    downloads: &Vec<ScannedProductDownload>,
    lookups: &Vec<Option<DLsiteProduct>>,
) -> (products: Vec<ScannedProduct>)
    ensures
        products@.len() == found_indices(paired_lookups(downloads@, lookups@)).len(),
        forall|k: int|
            0 <= k < products@.len() ==> {
                let i = found_indices(paired_lookups(downloads@, lookups@))[k];
                &&& 0 <= i < paired_lookups(downloads@, lookups@).len()
                &&& lookups@[i] is Some
                &&& (#[trigger] products@[k]).id@ == downloads@[i].id@
                &&& products@[k].path@ == downloads@[i].path@
                &&& products@[k].product.id@ == lookups@[i]->0.id@
                &&& products@[k].product.title@ == lookups@[i]->0.title@
                &&& products@[k].product.ty == lookups@[i]->0.ty
                &&& products@[k].product.age == lookups@[i]->0.age
                &&& products@[k].product.thumbnail@ == lookups@[i]->0.thumbnail@
                &&& products@[k].product.group_id@ == lookups@[i]->0.group_id@
                &&& products@[k].product.group_name@ == lookups@[i]->0.group_name@
                &&& products@[k].product.registered_at == lookups@[i]->0.registered_at
            },
{
    let mut products: Vec<ScannedProduct> = Vec::new();
    let count = if lookups.len() <= downloads.len() {
        lookups.len()
    } else {
        downloads.len()
    };
    let ghost paired = paired_lookups(downloads@, lookups@);
    let mut i: usize = 0;
    while i < count
        invariant
            i <= count,
            count == paired.len(),
            count <= lookups@.len(),
            count <= downloads@.len(),
            paired == lookups@.take(count as int),
            products@.len() == found_indices(lookups@.take(i as int)).len(),
            forall|k: int|
                0 <= k < products@.len() ==> {
                    let j = found_indices(lookups@.take(i as int))[k];
                    &&& 0 <= j < i
                    &&& lookups@[j] is Some
                    &&& (#[trigger] products@[k]).id@ == downloads@[j].id@
                    &&& products@[k].path@ == downloads@[j].path@
                    &&& products@[k].product.id@ == lookups@[j]->0.id@
                    &&& products@[k].product.title@ == lookups@[j]->0.title@
                    &&& products@[k].product.ty == lookups@[j]->0.ty
                    &&& products@[k].product.age == lookups@[j]->0.age
                    &&& products@[k].product.thumbnail@ == lookups@[j]->0.thumbnail@
                    &&& products@[k].product.group_id@ == lookups@[j]->0.group_id@
                    &&& products@[k].product.group_name@ == lookups@[j]->0.group_name@
                    &&& products@[k].product.registered_at == lookups@[j]->0.registered_at
                },
        decreases count - i,
    {
        proof {
            assert(lookups@.take(i + 1).drop_last() =~= lookups@.take(i as int));
            assert(lookups@.take(i + 1).last() == lookups@[i as int]);
        }
        match &lookups[i] {
            Some(found) => {
                products.push(
                    ScannedProduct {
                        id: downloads[i].id.clone(),
                        path: downloads[i].path.clone(),
                        product: DLsiteProduct {
                            id: found.id.clone(),
                            ty: found.ty.duplicate(),
                            age: found.age.duplicate(),
                            title: found.title.clone(),
                            thumbnail: found.thumbnail.clone(),
                            group_id: found.group_id.clone(),
                            group_name: found.group_name.clone(),
                            registered_at: found.registered_at,
                        },
                    },
                );
            },
            None => {},
        }
        i += 1;
    }
    products
}

/// `creating` is the catalog entry of the scanned product `scanned`, owned by no
/// account, as it is handed to the catalog store.
pub open spec fn is_unowned_entry(creating: CreatingProduct, scanned: ScannedProduct) -> bool {
    &&& creating.id@ == scanned.product.id@
    &&& creating.account_id is None
    &&& creating.ty == scanned.product.ty
    &&& creating.age == scanned.product.age
    &&& creating.title@ == scanned.product.title@
    &&& creating.thumbnail@ == scanned.product.thumbnail@
    &&& creating.group_id@ == scanned.product.group_id@
    &&& creating.group_name@ == scanned.product.group_name@
    &&& creating.registered_at == Some(scanned.product.registered_at)
}

/// The catalog entry of a scanned product, owned by no account.
pub fn make_unowned_product<'a>(scanned: &'a ScannedProduct) -> (creating: CreatingProduct<'a>)
    ensures
        is_unowned_entry(creating, *scanned),
{
    CreatingProduct {
        id: scanned.product.id.as_str(),
        account_id: None,
        ty: scanned.product.ty.duplicate(),
        age: scanned.product.age.duplicate(),
        title: scanned.product.title.as_str(),
        thumbnail: scanned.product.thumbnail.as_str(),
        group_id: scanned.product.group_id.as_str(),
        group_name: scanned.product.group_name.as_str(),
        registered_at: Some(scanned.product.registered_at),
    }
}

/// The download location of a scanned product: the directory it was found in.
pub fn make_product_download<'a>(scanned: &'a ScannedProduct) -> (download: CreatingProductDownload<
    'a,
>)
    ensures
        download.product_id@ == scanned.id@,
        download.path@ == scanned.path@,
{
    CreatingProductDownload { product_id: scanned.id.as_str(), path: scanned.path.as_str() }
}

} // verus!
