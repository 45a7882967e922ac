//! The tables of the second schema.

use vstd::prelude::*;

verus! {

/// A table of the database.
pub trait Table {
    /// The statements that create the table where it does not exist yet.
    fn get_ddl() -> &'static str;
}

/// The statements that create the table of accounts.
pub const ACCOUNT_DDL: &'static str = r#"
CREATE TABLE IF NOT EXISTS v2_accounts (
    id INTEGER PRIMARY KEY NOT NULL,
    username TEXT NOT NULL,
    password TEXT NOT NULL,
    memo TEXT,
    product_count INTEGER NOT NULL DEFAULT 0,
    cookie_json TEXT NOT NULL DEFAULT '{}'
);
"#;

/// The statements that create the table of catalog entries, the trigger that numbers
/// them in the order of their arrival, and their full-text index.
pub const PRODUCT_DDL: &'static str = r#"
CREATE TABLE IF NOT EXISTS v2_products (
    id TEXT NOT NULL PRIMARY KEY,
    order_index INTEGER UNIQUE,
    account_id INTEGER,
    ty TEXT NOT NULL,
    age TEXT NOT NULL,
    title TEXT NOT NULL,
    thumbnail TEXT NOT NULL,
    group_id TEXT NOT NULL,
    group_name TEXT NOT NULL,
    registered_at INTEGER NULL,

    FOREIGN KEY(account_id) REFERENCES v2_accounts(id) ON UPDATE CASCADE ON DELETE CASCADE
);

CREATE TRIGGER IF NOT EXISTS v2_products_order_index AFTER INSERT ON v2_products
WHEN NEW.order_index IS NULL
BEGIN
    UPDATE v2_products SET order_index = (SELECT IFNULL(MAX(order_index), 0) + 1 FROM v2_products) WHERE id = NEW.id;
END;

CREATE VIRTUAL TABLE IF NOT EXISTS v2_indexed_products USING fts5 (
    id,
    title,
    group_id,
    group_name,
    tokenize = 'trigram'
);
"#;

/// The statements that create the table of download locations.
pub const PRODUCT_DOWNLOAD_DDL: &'static str = r#"
CREATE TABLE IF NOT EXISTS v2_product_downloads (
    product_id TEXT NOT NULL PRIMARY KEY,
    path TEXT NOT NULL,

    FOREIGN KEY(product_id) REFERENCES v2_products(id) ON UPDATE CASCADE ON DELETE CASCADE
);
"#;

/// The statements that create the table of the one settings row.
pub const SETTING_DDL: &'static str = r#"
CREATE TABLE IF NOT EXISTS v2_settings (
    id INTEGER PRIMARY KEY CHECK (id = 1),
    download_root_dir TEXT
);
"#;

/// The table of accounts.
pub struct AccountTable;

impl Table for AccountTable {
    fn get_ddl() -> (ddl: &'static str)
        ensures
            ddl@ == ACCOUNT_DDL@,
    {
        ACCOUNT_DDL
    }
}

/// The table of catalog entries.
pub struct ProductTable;

impl Table for ProductTable {
    fn get_ddl() -> (ddl: &'static str)
        ensures
            ddl@ == PRODUCT_DDL@,
    {
        PRODUCT_DDL
    }
}

/// The table of download locations.
pub struct ProductDownloadTable;

impl Table for ProductDownloadTable {
    fn get_ddl() -> (ddl: &'static str)
        ensures
            ddl@ == PRODUCT_DOWNLOAD_DDL@,
    {
        PRODUCT_DOWNLOAD_DDL
    }
}

/// The table of the one settings row.
pub struct SettingTable;

impl Table for SettingTable {
    fn get_ddl() -> (ddl: &'static str)
        ensures
            ddl@ == SETTING_DDL@,
    {
        SETTING_DDL
    }
}

/// Why an operation on the database failed.
#[derive(Debug, Clone, Copy, PartialEq, Eq, Structural)]
pub enum DBError {
    /// The database refused the statement.
    Rusqlite,
    /// A row could not be turned into a record, or a record into parameters.
    SerdeRusqlite,
    /// Anything else.
    Any,
}

} // verus!
