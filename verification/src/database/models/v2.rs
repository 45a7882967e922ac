//! The records of the second schema: accounts, catalog entries and download locations.

use crate::dlsite::dto::{DLsiteProductAgeCategory, DLsiteProductType};
use vstd::prelude::*;

verus! {

/// An account of the storefront, with the product count that was last recorded for it
/// and its serialized session.
#[derive(Debug, Clone)]
pub struct Account {
    pub id: i64,
    pub username: String,
    pub password: String,
    pub memo: Option<String>,
    pub product_count: i32,
    /// The serialized cookie jar. It is stored and handed back as it is, never read.
    pub cookie_json: String,
}

/// An account without what the engine keeps of it.
#[derive(Debug, Clone)]
pub struct SimpleAccount {
    pub id: i64,
    pub username: String,
    pub password: String,
    pub memo: Option<String>,
}

/// An account that is about to be created.
#[derive(Debug, Clone)]
pub struct CreatingAccount<'a> {
    pub username: &'a str,
    pub password: &'a str,
    pub memo: Option<&'a str>,
}

/// An account with its new values.
#[derive(Debug, Clone)]
pub struct UpdatingAccount<'a> {
    pub id: i64,
    pub username: &'a str,
    pub password: &'a str,
    pub memo: Option<&'a str>,
}

impl SimpleAccount {
    /// `self` is the account `id` with the values of `account`.
    pub open spec fn holds(self, id: i64, username: Seq<char>, password: Seq<char>, memo: Option<
        Seq<char>,
    >) -> bool {
        &&& self.id == id
        &&& self.username@ == username
        &&& self.password@ == password
        &&& match (self.memo, memo) {
            (Some(own), Some(given)) => own@ == given,
            (None, None) => true,
            _ => false,
        }
    }

    /// The account that was created under `id` from `account`.
    pub fn created(id: i64, account: &CreatingAccount) -> (simple: Self)
        ensures
            simple.holds(
                id,
                account.username@,
                account.password@,
                match account.memo {
                    Some(memo) => Some(memo@),
                    None => None,
                },
            ),
    {
        SimpleAccount {
            id,
            username: account.username.to_owned(),
            password: account.password.to_owned(),
            memo: match account.memo {
                Some(memo) => Some(memo.to_owned()),
                None => None,
            },
        }
    }

    /// The account as `account` has updated it.
    pub fn updated(account: &UpdatingAccount) -> (simple: Self)
        ensures
            simple.holds(
                account.id,
                account.username@,
                account.password@,
                match account.memo {
                    Some(memo) => Some(memo@),
                    None => None,
                },
            ),
    {
        SimpleAccount {
            id: account.id,
            username: account.username.to_owned(),
            password: account.password.to_owned(),
            memo: match account.memo {
                Some(memo) => Some(memo.to_owned()),
                None => None,
            },
        }
    }
}

/// A catalog entry as it is stored.
#[derive(Debug, Clone)]
pub struct Product {
    pub id: String,
    /// The owning account; `None` for an entry that was found on disk and belongs to no
    /// account.
    pub account_id: Option<i64>,
    pub ty: DLsiteProductType,
    pub age: DLsiteProductAgeCategory,
    pub title: String,
    pub thumbnail: String,
    pub group_id: String,
    pub group_name: String,
    /// Seconds since the Unix epoch, UTC.
    pub registered_at: Option<i64>,
}

/// A catalog entry that is about to be stored.
#[derive(Debug, Clone)]
pub struct CreatingProduct<'a> {
    pub id: &'a str,
    /// The owning account; `None` for an entry that was found on disk and belongs to no
    /// account.
    pub account_id: Option<i64>,
    pub ty: DLsiteProductType,
    pub age: DLsiteProductAgeCategory,
    pub title: &'a str,
    pub thumbnail: &'a str,
    pub group_id: &'a str,
    pub group_name: &'a str,
    /// Seconds since the Unix epoch, UTC.
    pub registered_at: Option<i64>,
}

/// Where a product was downloaded to.
#[derive(Debug, Clone)]
pub struct ProductDownload {
    pub product_id: String,
    pub path: String,
}

/// A download location that is about to be stored.
#[derive(Debug, Clone)]
pub struct CreatingProductDownload<'a> {
    pub product_id: &'a str,
    pub path: &'a str,
}

/// The settings of the application.
#[derive(Debug, Clone)]
pub struct Setting {
    /// The directory below which products are downloaded.
    pub download_root_dir: Option<String>,
}

impl Default for Setting {
    fn default() -> (setting: Self)
        ensures
            setting.download_root_dir is None,
    {
        Setting { download_root_dir: None }
    }
}

} // verus!
