//! The records of the first schema: the settings and the latest catalog query.

use crate::database::tables::v1::{
    DISPLAY_LANGUAGE_SETTING_DDL, LATEST_PRODUCT_QUERY_DDL, SETTING_DDL,
};
use crate::dlsite::dto::{DLsiteProductAgeCategory, DLsiteProductType};
use crate::text::str_eq;
use vstd::prelude::*;

verus! {

/// An account that is about to be created.
#[derive(Debug, Clone)]
pub struct CreatedAccount {
    pub username: String,
    pub password: String,
    pub memo: Option<String>,
}

/// An account with its new values.
#[derive(Debug, Clone)]
pub struct UpdatedAccount {
    pub id: i64,
    pub username: String,
    pub password: String,
    pub memo: Option<String>,
}

/// The languages in which titles are shown, most preferred first.
#[derive(Debug, Clone)]
pub struct DisplayLanguageSetting {
    pub languages: Vec<String>,
}

impl DisplayLanguageSetting {
    /// The statements that create the table of display languages where it does not
    /// exist yet.
    pub fn get_ddl() -> (ddl: &'static str)
        ensures
            ddl@ == DISPLAY_LANGUAGE_SETTING_DDL@,
    {
        DISPLAY_LANGUAGE_SETTING_DDL
    }

    /// The languages that apply where none are stored.
    pub open spec fn default_languages() -> Seq<Seq<char>> {
        seq!["japanese"@, "english"@, "korean"@, "taiwanese"@, "chinese"@]
    }

    /// The languages of the setting, as texts.
    pub open spec fn languages_spec(self) -> Seq<Seq<char>> {
        Seq::new(self.languages@.len(), |i: int| self.languages@[i]@)
    }

    /// The setting that the stored languages make: the stored ones in their order, or,
    /// where none are stored, the five defaults.
    pub fn from_stored(languages: Vec<String>) -> (setting: Self)
        ensures
            setting.languages_spec() == if languages@.len() == 0 {
                Self::default_languages()
            } else {
                Seq::new(languages@.len(), |i: int| languages@[i]@)
            },
    {
        if languages.len() == 0 {
            let mut defaults: Vec<String> = Vec::new();
            defaults.push("japanese".to_owned());
            defaults.push("english".to_owned());
            defaults.push("korean".to_owned());
            defaults.push("taiwanese".to_owned());
            defaults.push("chinese".to_owned());
            let setting = DisplayLanguageSetting { languages: defaults };
            assert(setting.languages_spec() =~= Self::default_languages());
            setting
        } else {
            let setting = DisplayLanguageSetting { languages };
            assert(setting.languages_spec() =~= Seq::new(
                languages@.len(),
                |i: int| languages@[i]@,
            ));
            setting
        }
    }
}

/// The order in which a catalog query lists products.
#[derive(Debug, Clone, Copy, PartialEq, Eq, Hash, Structural)]
pub enum ProductQueryOrderBy {
    IdAsc,
    IdDesc,
    TitleAsc,
    TitleDesc,
    GroupAsc,
    GroupDesc,
    RegistrationDateAsc,
    RegistrationDateDesc,
    PurchaseDateAsc,
    PurchaseDateDesc,
}

impl ProductQueryOrderBy {
    /// The name under which the value is stored: that of the variant.
    pub open spec fn name_spec(self) -> Seq<char> {
        match self {
            ProductQueryOrderBy::IdAsc => "IdAsc"@,
            ProductQueryOrderBy::IdDesc => "IdDesc"@,
            ProductQueryOrderBy::TitleAsc => "TitleAsc"@,
            ProductQueryOrderBy::TitleDesc => "TitleDesc"@,
            ProductQueryOrderBy::GroupAsc => "GroupAsc"@,
            ProductQueryOrderBy::GroupDesc => "GroupDesc"@,
            ProductQueryOrderBy::RegistrationDateAsc => "RegistrationDateAsc"@,
            ProductQueryOrderBy::RegistrationDateDesc => "RegistrationDateDesc"@,
            ProductQueryOrderBy::PurchaseDateAsc => "PurchaseDateAsc"@,
            ProductQueryOrderBy::PurchaseDateDesc => "PurchaseDateDesc"@,
        }
    }

    /// The value that is stored under `name`, if `name` is the name of a variant, letter
    /// for letter.
    pub open spec fn of_name(name: Seq<char>) -> Option<ProductQueryOrderBy> {
        if name == "IdAsc"@ {
            Some(ProductQueryOrderBy::IdAsc)
        } else         if name == "IdDesc"@ {
            Some(ProductQueryOrderBy::IdDesc)
        } else         if name == "TitleAsc"@ {
            Some(ProductQueryOrderBy::TitleAsc)
        } else         if name == "TitleDesc"@ {
            Some(ProductQueryOrderBy::TitleDesc)
        } else         if name == "GroupAsc"@ {
            Some(ProductQueryOrderBy::GroupAsc)
        } else         if name == "GroupDesc"@ {
            Some(ProductQueryOrderBy::GroupDesc)
        } else         if name == "RegistrationDateAsc"@ {
            Some(ProductQueryOrderBy::RegistrationDateAsc)
        } else         if name == "RegistrationDateDesc"@ {
            Some(ProductQueryOrderBy::RegistrationDateDesc)
        } else         if name == "PurchaseDateAsc"@ {
            Some(ProductQueryOrderBy::PurchaseDateAsc)
        } else         if name == "PurchaseDateDesc"@ {
            Some(ProductQueryOrderBy::PurchaseDateDesc)
        } else {
            None
        }
    }

    /// The name under which the value is stored.
    pub fn name(&self) -> (name: &'static str)
        ensures
            name@ == self.name_spec(),
    {
        match self {
            ProductQueryOrderBy::IdAsc => "IdAsc",
            ProductQueryOrderBy::IdDesc => "IdDesc",
            ProductQueryOrderBy::TitleAsc => "TitleAsc",
            ProductQueryOrderBy::TitleDesc => "TitleDesc",
            ProductQueryOrderBy::GroupAsc => "GroupAsc",
            ProductQueryOrderBy::GroupDesc => "GroupDesc",
            ProductQueryOrderBy::RegistrationDateAsc => "RegistrationDateAsc",
            ProductQueryOrderBy::RegistrationDateDesc => "RegistrationDateDesc",
            ProductQueryOrderBy::PurchaseDateAsc => "PurchaseDateAsc",
            ProductQueryOrderBy::PurchaseDateDesc => "PurchaseDateDesc",
        }
    }

    /// Reads a stored name. `None` for a text that names no variant.
    pub fn from_name(name: &str) -> (value: Option<Self>)
        ensures
            value == Self::of_name(name@),
    {
        if str_eq(name, "IdAsc") {
            Some(ProductQueryOrderBy::IdAsc)
        } else         if str_eq(name, "IdDesc") {
            Some(ProductQueryOrderBy::IdDesc)
        } else         if str_eq(name, "TitleAsc") {
            Some(ProductQueryOrderBy::TitleAsc)
        } else         if str_eq(name, "TitleDesc") {
            Some(ProductQueryOrderBy::TitleDesc)
        } else         if str_eq(name, "GroupAsc") {
            Some(ProductQueryOrderBy::GroupAsc)
        } else         if str_eq(name, "GroupDesc") {
            Some(ProductQueryOrderBy::GroupDesc)
        } else         if str_eq(name, "RegistrationDateAsc") {
            Some(ProductQueryOrderBy::RegistrationDateAsc)
        } else         if str_eq(name, "RegistrationDateDesc") {
            Some(ProductQueryOrderBy::RegistrationDateDesc)
        } else         if str_eq(name, "PurchaseDateAsc") {
            Some(ProductQueryOrderBy::PurchaseDateAsc)
        } else         if str_eq(name, "PurchaseDateDesc") {
            Some(ProductQueryOrderBy::PurchaseDateDesc)
        } else {
            None
        }
    }
}

impl Default for ProductQueryOrderBy {
    fn default() -> (order: Self)
        ensures
            order == ProductQueryOrderBy::PurchaseDateDesc,
    {
        ProductQueryOrderBy::PurchaseDateDesc
    }
}

/// The download states that a catalog query can ask for.
#[derive(Debug, Clone, Copy, PartialEq, Eq, Hash, Structural)]
pub enum ProductDownloadState {
    NotDownloaded,
    Downloading,
    Downloaded,
    DownloadingAndDownloaded,
}

impl ProductDownloadState {
    /// The name under which the value is stored: that of the variant.
    pub open spec fn name_spec(self) -> Seq<char> {
        match self {
            ProductDownloadState::NotDownloaded => "NotDownloaded"@,
            ProductDownloadState::Downloading => "Downloading"@,
            ProductDownloadState::Downloaded => "Downloaded"@,
            ProductDownloadState::DownloadingAndDownloaded => "DownloadingAndDownloaded"@,
        }
    }

    /// The value that is stored under `name`, if `name` is the name of a variant, letter
    /// for letter.
    pub open spec fn of_name(name: Seq<char>) -> Option<ProductDownloadState> {
        if name == "NotDownloaded"@ {
            Some(ProductDownloadState::NotDownloaded)
        } else         if name == "Downloading"@ {
            Some(ProductDownloadState::Downloading)
        } else         if name == "Downloaded"@ {
            Some(ProductDownloadState::Downloaded)
        } else         if name == "DownloadingAndDownloaded"@ {
            Some(ProductDownloadState::DownloadingAndDownloaded)
        } else {
            None
        }
    }

    /// The name under which the value is stored.
    pub fn name(&self) -> (name: &'static str)
        ensures
            name@ == self.name_spec(),
    {
        match self {
            ProductDownloadState::NotDownloaded => "NotDownloaded",
            ProductDownloadState::Downloading => "Downloading",
            ProductDownloadState::Downloaded => "Downloaded",
            ProductDownloadState::DownloadingAndDownloaded => "DownloadingAndDownloaded",
        }
    }

    /// Reads a stored name. `None` for a text that names no variant.
    pub fn from_name(name: &str) -> (value: Option<Self>)
        ensures
            value == Self::of_name(name@),
    {
        if str_eq(name, "NotDownloaded") {
            Some(ProductDownloadState::NotDownloaded)
        } else         if str_eq(name, "Downloading") {
            Some(ProductDownloadState::Downloading)
        } else         if str_eq(name, "Downloaded") {
            Some(ProductDownloadState::Downloaded)
        } else         if str_eq(name, "DownloadingAndDownloaded") {
            Some(ProductDownloadState::DownloadingAndDownloaded)
        } else {
            None
        }
    }
}

/// A catalog query.
#[derive(Debug, Clone)]
pub struct ProductQuery {
    pub query: Option<String>,
    pub ty: Option<DLsiteProductType>,
    pub age: Option<DLsiteProductAgeCategory>,
    pub order_by: ProductQueryOrderBy,
}

impl Default for ProductQuery {
    fn default() -> (query: Self)
        ensures
            query.query is None,
            query.ty is None,
            query.age is None,
            query.order_by == ProductQueryOrderBy::PurchaseDateDesc,
    {
        ProductQuery {
            query: None,
            ty: None,
            age: None,
            order_by: ProductQueryOrderBy::PurchaseDateDesc,
        }
    }
}

/// The catalog query that was made last, kept so that the catalog opens as it was left.
#[derive(Debug, Clone)]
pub struct LatestProductQuery {
    pub query: ProductQuery,
    pub download: Option<ProductDownloadState>,
}

impl Default for LatestProductQuery {
    fn default() -> (latest: Self)
        ensures
            latest.is_default(),
    {
        LatestProductQuery { query: ProductQuery::default(), download: None }
    }
}

/// The stored row of the latest catalog query, column by column.
#[derive(Debug, Clone)]
pub struct LatestProductQueryRow {
    pub query: Option<String>,
    pub ty: Option<String>,
    pub age: Option<String>,
    pub order_by: String,
    pub download: Option<String>,
}

/// The column of a stored row whose text names no known value.
#[derive(Debug, Clone, Copy, PartialEq, Eq, Structural)]
pub enum ColumnError {
    Ty,
    Age,
    OrderBy,
    Download,
}

impl LatestProductQuery {
    /// The statements that create the table of the latest catalog query where it does
    /// not exist yet.
    pub fn get_ddl() -> (ddl: &'static str)
        ensures
            ddl@ == LATEST_PRODUCT_QUERY_DDL@,
    {
        LATEST_PRODUCT_QUERY_DDL
    }

    /// The latest catalog query that the stored row stands for: the default query
    /// where none is stored, else what the row says. A row with a column that names no
    /// known value is refused with that column.
    pub fn get(row: Option<LatestProductQueryRow>) -> (outcome: Result<Self, ColumnError>)
        ensures
            match row {
                None => outcome matches Ok(latest) && latest.is_default(),
                Some(stored) => match Self::first_bad_column(stored) {
                    Some(column) => outcome == Err::<Self, ColumnError>(column),
                    None => outcome matches Ok(latest) && latest.matches_row(stored),
                },
            },
    {
        match row {
            None => Ok(LatestProductQuery::default()),
            Some(stored) => LatestProductQuery::from_row(stored),
        }
    }

    /// The query that applies where none is stored: no filter, latest purchase first.
    pub open spec fn is_default(self) -> bool {
        &&& self.query.query is None
        &&& self.query.ty is None
        &&& self.query.age is None
        &&& self.query.order_by == ProductQueryOrderBy::PurchaseDateDesc
        &&& self.download is None
    }

    /// The first column of `row`, in the order `ty`, `age`, `order_by`, `download`, whose
    /// text names no known value.
    pub open spec fn first_bad_column(row: LatestProductQueryRow) -> Option<ColumnError> {
        if row.ty matches Some(t) && DLsiteProductType::of_name(t@) is None {
            Some(ColumnError::Ty)
        } else if row.age matches Some(a) && DLsiteProductAgeCategory::of_name(a@) is None {
            Some(ColumnError::Age)
        } else if ProductQueryOrderBy::of_name(row.order_by@) is None {
            Some(ColumnError::OrderBy)
        } else if row.download matches Some(d) && ProductDownloadState::of_name(d@) is None {
            Some(ColumnError::Download)
        } else {
            None
        }
    }

    /// `self` holds what the columns of `row` say.
    pub open spec fn matches_row(self, row: LatestProductQueryRow) -> bool {
        &&& match (self.query.query, row.query) {
            (Some(q), Some(r)) => q@ == r@,
            (None, None) => true,
            _ => false,
        }
        &&& self.query.ty == match row.ty {
            Some(t) => DLsiteProductType::of_name(t@),
            None => None,
        }
        &&& self.query.age == match row.age {
            Some(a) => DLsiteProductAgeCategory::of_name(a@),
            None => None,
        }
        &&& Some(self.query.order_by) == ProductQueryOrderBy::of_name(row.order_by@)
        &&& self.download == match row.download {
            Some(d) => ProductDownloadState::of_name(d@),
            None => None,
        }
    }

    /// Reads a stored row. The row is refused, with the first offending column, where a
    /// column's text names no known value; a column that is empty stays empty.
    pub fn from_row(row: LatestProductQueryRow) -> (outcome: Result<Self, ColumnError>)
        ensures
            match Self::first_bad_column(row) {
                Some(column) => outcome == Err::<Self, ColumnError>(column),
                None => outcome matches Ok(latest) && latest.matches_row(row),
            },
    {
        let ty = match &row.ty {
            Some(t) => match DLsiteProductType::from_name(t.as_str()) {
                Some(ty) => Some(ty),
                None => {
                    return Err(ColumnError::Ty);
                },
            },
            None => None,
        };
        let age = match &row.age {
            Some(a) => match DLsiteProductAgeCategory::from_name(a.as_str()) {
                Some(age) => Some(age),
                None => {
                    return Err(ColumnError::Age);
                },
            },
            None => None,
        };
        let order_by = match ProductQueryOrderBy::from_name(row.order_by.as_str()) {
            Some(order_by) => order_by,
            None => {
                return Err(ColumnError::OrderBy);
            },
        };
        let download = match &row.download {
            Some(d) => match ProductDownloadState::from_name(d.as_str()) {
                Some(download) => Some(download),
                None => {
                    return Err(ColumnError::Download);
                },
            },
            None => None,
        };
        Ok(LatestProductQuery { query: ProductQuery { query: row.query, ty, age, order_by }, download })
    }

    /// `row` holds, column by column, the names of what `self` holds.
    pub open spec fn written_as(self, row: LatestProductQueryRow) -> bool {
        &&& match (self.query.query, row.query) {
            (Some(q), Some(r)) => q@ == r@,
            (None, None) => true,
            _ => false,
        }
        &&& match (self.query.ty, row.ty) {
            (Some(t), Some(r)) => r@ == t.name_spec(),
            (None, None) => true,
            _ => false,
        }
        &&& match (self.query.age, row.age) {
            (Some(a), Some(r)) => r@ == a.name_spec(),
            (None, None) => true,
            _ => false,
        }
        &&& row.order_by@ == self.query.order_by.name_spec()
        &&& match (self.download, row.download) {
            (Some(d), Some(r)) => r@ == d.name_spec(),
            (None, None) => true,
            _ => false,
        }
    }

    /// The row under which the query is stored: each value under its name.
    pub fn to_row(&self) -> (row: LatestProductQueryRow)
        ensures
            self.written_as(row),
    {
        LatestProductQueryRow {
            query: match &self.query.query {
                Some(q) => Some(q.clone()),
                None => None,
            },
            ty: match &self.query.ty {
                Some(t) => Some(t.name()),
                None => None,
            },
            age: match &self.query.age {
                Some(a) => Some(a.name()),
                None => None,
            },
            order_by: self.query.order_by.name().to_owned(),
            download: match &self.download {
                Some(d) => Some(d.name().to_owned()),
                None => None,
            },
        }
    }
}

/// The settings of the application.
#[derive(Debug, Clone)]
pub struct Setting {
    /// The directory below which products are downloaded.
    pub download_root_dir: Option<String>,
}

impl Setting {
    /// The statements that create the table of settings where it does not exist yet.
    pub fn get_ddl() -> (ddl: &'static str)
        ensures
            ddl@ == SETTING_DDL@,
    {
        SETTING_DDL
    }

    /// The settings that the stored row stands for, `download_root_dir` being its one
    /// column: the default settings where no row is stored.
    pub fn get(download_root_dir: Option<Option<String>>) -> (setting: Self)
        ensures
            setting.download_root_dir == match download_root_dir {
                Some(stored) => stored,
                None => None,
            },
    {
        match download_root_dir {
            Some(stored) => Setting { download_root_dir: stored },
            None => Setting { download_root_dir: None },
        }
    }
}

impl Default for Setting {
    fn default() -> (setting: Self)
        ensures
            setting.download_root_dir is None,
    {
        Setting { download_root_dir: None }
    }
}

} // verus!
