//! The tables of the first schema that are still read: the display languages and the
//! latest catalog query.

use crate::database::models::v1::{
    ColumnError, DisplayLanguageSetting, LatestProductQuery, LatestProductQueryRow,
};
use vstd::prelude::*;

verus! {

/// The statements that create the table of display languages.
pub const DISPLAY_LANGUAGE_SETTING_DDL: &'static str = "
CREATE TABLE IF NOT EXISTS display_language_settings (
    language TEXT PRIMARY KEY NOT NULL,
    order_index INTEGER NOT NULL UNIQUE
);";

/// The statements that create the table of the latest catalog query.
pub const LATEST_PRODUCT_QUERY_DDL: &'static str = "
CREATE TABLE IF NOT EXISTS latest_product_query (
    query TEXT,
    ty TEXT,
    age TEXT,
    order_by TEXT NOT NULL,
    download TEXT
);";

/// The statements that create the table of settings.
pub const SETTING_DDL: &'static str = "
CREATE TABLE IF NOT EXISTS settings (
    download_root_dir TEXT
);";

/// One row of the table of display languages.
#[derive(Debug, Clone)]
pub struct DisplayLanguageRow {
    pub language: String,
    pub order_index: usize,
}

/// The table of display languages.
pub struct DisplayLanguageSettingTable;

impl DisplayLanguageSettingTable {
    /// The statements that create the table where it does not exist yet.
    pub fn get_ddl() -> (ddl: &'static str)
        ensures
            ddl@ == DISPLAY_LANGUAGE_SETTING_DDL@,
    {
        DISPLAY_LANGUAGE_SETTING_DDL
    }

    /// The setting that the stored languages make, given in the order of their index: the
    /// stored ones, or the five defaults where none are stored.
    pub fn get(languages: Vec<String>) -> (setting: DisplayLanguageSetting)
        ensures
            setting.languages_spec() == if languages@.len() == 0 {
                DisplayLanguageSetting::default_languages()
            } else {
                Seq::new(languages@.len(), |i: int| languages@[i]@)
            },
    {
        DisplayLanguageSetting::from_stored(languages)
    }

    /// The rows that replace the table's content: one per language, numbered from 0 in
    /// the order of preference.
    pub fn set(setting: &DisplayLanguageSetting) -> (rows: Vec<DisplayLanguageRow>)
        ensures
            rows@.len() == setting.languages@.len(),
            forall|i: int|
                0 <= i < rows@.len() ==> (#[trigger] rows@[i]).language@ == setting.languages@[i]@
                    && rows@[i].order_index == i,
    {
        let mut rows: Vec<DisplayLanguageRow> = Vec::new();
        let mut index: usize = 0;
        while index < setting.languages.len()
            invariant
                index <= setting.languages@.len(),
                rows@.len() == index,
                forall|i: int|
                    0 <= i < index ==> (#[trigger] rows@[i]).language@ == setting.languages@[i]@
                        && rows@[i].order_index == i,
            decreases setting.languages@.len() - index,
        {
            rows.push(
                DisplayLanguageRow {
                    language: setting.languages[index].clone(),
                    order_index: index,
                },
            );
            index += 1;
        }
        rows
    }
}

/// The table of the latest catalog query.
pub struct LatestProductQueryTable;

impl LatestProductQueryTable {
    /// The statements that create the table where it does not exist yet.
    pub fn get_ddl() -> (ddl: &'static str)
        ensures
            ddl@ == LATEST_PRODUCT_QUERY_DDL@,
    {
        LATEST_PRODUCT_QUERY_DDL
    }

    /// The latest catalog query that the table's row stands for: the default query where
    /// the table is empty, else what the row says. A row with a column that names no
    /// known value is refused with that column.
    pub fn get(row: Option<LatestProductQueryRow>) -> (outcome: Result<
        LatestProductQuery,
        ColumnError,
    >)
        ensures
            match row {
                None => outcome matches Ok(latest) && latest.is_default(),
                Some(stored) => match LatestProductQuery::first_bad_column(stored) {
                    Some(column) => outcome == Err::<LatestProductQuery, ColumnError>(column),
                    None => outcome matches Ok(latest) && latest.matches_row(stored),
                },
            },
    {
        LatestProductQuery::get(row)
    }

    /// The row that replaces the table's content: each value under its name.
    pub fn set(query: &LatestProductQuery) -> (row: LatestProductQueryRow)
        ensures
            query.written_as(row),
    {
        query.to_row()
    }
}

} // verus!
