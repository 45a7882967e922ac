use dlsite_manager::command::{
    account_management_test_account, percent, product_open_downloaded_folder, DownloadLocation,
    OpenFolderAction, ProductDownloadEndEvent, ProductDownloadProgressEvent, ProductQuery,
};
use dlsite_manager::database::models::v1::{
    ColumnError, CreatedAccount, DisplayLanguageSetting, LatestProductQuery,
    LatestProductQueryRow, ProductDownloadState, ProductQueryOrderBy, Setting, UpdatedAccount,
};
use dlsite_manager::database::models::v2::{
    CreatingAccount, CreatingProductDownload, SimpleAccount, UpdatingAccount,
};
use dlsite_manager::database::tables::v1::{DisplayLanguageSettingTable, LatestProductQueryTable};
use dlsite_manager::database::tables::v2::{
    AccountTable, ProductDownloadTable, ProductTable, SettingTable, Table,
};
use dlsite_manager::dlsite::dto::{DLsiteProduct, DLsiteProductAgeCategory, DLsiteProductType};
use dlsite_manager::dlsite::session::{LoginError, LoginFailure};
use dlsite_manager::menu::{
    finish, handle_menu, make_product_download, make_unowned_product, scan_candidates,
    scanned_products, try_begin, FetchNewProductsProgressEvent, MenuCommand,
    RefreshProductListEvent, RefreshProductsAllProgressEvent, ScannedEntry,
    UpdateProductListEvent,
};
use dlsite_manager::window::{
    AccountAddWindow, AccountEditWindow, AccountManagementWindow, MainWindow, SettingWindow,
    WindowInfoProvider,
};

fn row(ty: Option<&str>, age: Option<&str>, order_by: &str, download: Option<&str>) -> LatestProductQueryRow {
    LatestProductQueryRow {
        query: Some("neko".to_owned()),
        ty: ty.map(str::to_owned),
        age: age.map(str::to_owned),
        order_by: order_by.to_owned(),
        download: download.map(str::to_owned),
    }
}

#[test]
fn order_and_state_names() {
    let orders = [
        (ProductQueryOrderBy::IdAsc, "IdAsc"),
        (ProductQueryOrderBy::IdDesc, "IdDesc"),
        (ProductQueryOrderBy::TitleAsc, "TitleAsc"),
        (ProductQueryOrderBy::TitleDesc, "TitleDesc"),
        (ProductQueryOrderBy::GroupAsc, "GroupAsc"),
        (ProductQueryOrderBy::GroupDesc, "GroupDesc"),
        (ProductQueryOrderBy::RegistrationDateAsc, "RegistrationDateAsc"),
        (ProductQueryOrderBy::RegistrationDateDesc, "RegistrationDateDesc"),
        (ProductQueryOrderBy::PurchaseDateAsc, "PurchaseDateAsc"),
        (ProductQueryOrderBy::PurchaseDateDesc, "PurchaseDateDesc"),
    ];
    for (order, name) in orders {
        assert_eq!(order.name(), name);
        assert_eq!(ProductQueryOrderBy::from_name(name), Some(order));
    }
    assert_eq!(ProductQueryOrderBy::from_name("idasc"), None);
    assert_eq!(ProductQueryOrderBy::default(), ProductQueryOrderBy::PurchaseDateDesc);
    let states = [
        (ProductDownloadState::NotDownloaded, "NotDownloaded"),
        (ProductDownloadState::Downloading, "Downloading"),
        (ProductDownloadState::Downloaded, "Downloaded"),
        (ProductDownloadState::DownloadingAndDownloaded, "DownloadingAndDownloaded"),
    ];
    for (state, name) in states {
        assert_eq!(state.name(), name);
        assert_eq!(ProductDownloadState::from_name(name), Some(state));
    }
    assert_eq!(ProductDownloadState::from_name(""), None);
}

#[test]
fn latest_query_is_read_from_its_row() {
    let latest = LatestProductQueryTable::get(Some(row(
        Some("Voice"),
        Some("R18"),
        "TitleAsc",
        Some("Downloaded"),
    )))
    .unwrap();
    assert_eq!(latest.query.query.as_deref(), Some("neko"));
    assert_eq!(latest.query.ty, Some(DLsiteProductType::Voice));
    assert_eq!(latest.query.age, Some(DLsiteProductAgeCategory::R18));
    assert_eq!(latest.query.order_by, ProductQueryOrderBy::TitleAsc);
    assert_eq!(latest.download, Some(ProductDownloadState::Downloaded));
    let latest = LatestProductQuery::from_row(LatestProductQueryRow {
        query: None,
        ty: None,
        age: None,
        order_by: "IdDesc".to_owned(),
        download: None,
    })
    .unwrap();
    assert!(latest.query.query.is_none());
    assert!(latest.query.ty.is_none());
    assert!(latest.query.age.is_none());
    assert_eq!(latest.query.order_by, ProductQueryOrderBy::IdDesc);
    assert!(latest.download.is_none());
}

#[test]
fn latest_query_defaults_where_nothing_is_stored() {
    let latest = LatestProductQueryTable::get(None).unwrap();
    assert!(latest.query.query.is_none());
    assert!(latest.query.ty.is_none());
    assert!(latest.query.age.is_none());
    assert_eq!(latest.query.order_by, ProductQueryOrderBy::PurchaseDateDesc);
    assert!(latest.download.is_none());
    let default = LatestProductQuery::default();
    assert_eq!(default.query.order_by, ProductQueryOrderBy::PurchaseDateDesc);
}

#[test]
fn latest_query_row_is_refused_with_first_bad_column() {
    assert_eq!(
        LatestProductQueryTable::get(Some(row(Some("voice"), Some("x"), "y", Some("z")))).unwrap_err(),
        ColumnError::Ty
    );
    assert_eq!(
        LatestProductQueryTable::get(Some(row(Some("Voice"), Some("x"), "y", Some("z")))).unwrap_err(),
        ColumnError::Age
    );
    assert_eq!(
        LatestProductQueryTable::get(Some(row(None, None, "y", Some("z")))).unwrap_err(),
        ColumnError::OrderBy
    );
    assert_eq!(
        LatestProductQueryTable::get(Some(row(None, None, "IdAsc", Some("z")))).unwrap_err(),
        ColumnError::Download
    );
}

#[test]
fn latest_query_round_trips_through_its_row() {
    let latest = LatestProductQueryTable::get(Some(row(
        Some("Game"),
        Some("All"),
        "GroupDesc",
        Some("NotDownloaded"),
    )))
    .unwrap();
    let written = LatestProductQueryTable::set(&latest);
    assert_eq!(written.query.as_deref(), Some("neko"));
    assert_eq!(written.ty.as_deref(), Some("Game"));
    assert_eq!(written.age.as_deref(), Some("All"));
    assert_eq!(written.order_by, "GroupDesc");
    assert_eq!(written.download.as_deref(), Some("NotDownloaded"));
    let again = LatestProductQuery::from_row(latest.to_row()).unwrap();
    assert_eq!(again.query.ty, Some(DLsiteProductType::Game));
    assert_eq!(again.download, Some(ProductDownloadState::NotDownloaded));
}

#[test]
fn display_languages_default_to_five() {
    let setting = DisplayLanguageSettingTable::get(vec![]);
    assert_eq!(setting.languages, vec!["japanese", "english", "korean", "taiwanese", "chinese"]);
    let setting = DisplayLanguageSettingTable::get(vec!["english".to_owned(), "korean".to_owned()]);
    assert_eq!(setting.languages, vec!["english", "korean"]);
    let rows = DisplayLanguageSettingTable::set(&setting);
    assert_eq!(rows.len(), 2);
    assert_eq!((rows[0].language.as_str(), rows[0].order_index), ("english", 0));
    assert_eq!((rows[1].language.as_str(), rows[1].order_index), ("korean", 1));
    assert_eq!(DisplayLanguageSetting::from_stored(vec![]).languages.len(), 5);
}

#[test]
fn tables_name_their_ddl() {
    assert!(DisplayLanguageSettingTable::get_ddl()
        .contains("CREATE TABLE IF NOT EXISTS display_language_settings"));
    assert!(LatestProductQueryTable::get_ddl()
        .contains("CREATE TABLE IF NOT EXISTS latest_product_query"));
    assert!(LatestProductQueryTable::get_ddl().contains("order_by TEXT NOT NULL"));
    assert!(AccountTable::get_ddl().contains("CREATE TABLE IF NOT EXISTS v2_accounts"));
    assert!(AccountTable::get_ddl().contains("cookie_json TEXT NOT NULL DEFAULT '{}'"));
    assert!(ProductTable::get_ddl().contains("CREATE TABLE IF NOT EXISTS v2_products"));
    assert!(ProductTable::get_ddl().contains("tokenize = 'trigram'"));
    assert!(ProductDownloadTable::get_ddl()
        .contains("CREATE TABLE IF NOT EXISTS v2_product_downloads"));
    assert!(SettingTable::get_ddl().contains("id INTEGER PRIMARY KEY CHECK (id = 1)"));
}

#[test]
fn plain_records_hold_their_fields() {
    let created = CreatedAccount { username: "u".to_owned(), password: "p".to_owned(), memo: None };
    assert_eq!(created.username, "u");
    let updated = UpdatedAccount { id: 3, username: "u".to_owned(), password: "p".to_owned(), memo: Some("m".to_owned()) };
    assert_eq!(updated.memo.as_deref(), Some("m"));
    assert!(Setting::default().download_root_dir.is_none());
    assert!(dlsite_manager::database::models::v2::Setting::default().download_root_dir.is_none());
    let creating = CreatingAccount { username: "u", password: "p", memo: Some("m") };
    let simple = SimpleAccount::created(12, &creating);
    assert_eq!((simple.id, simple.username.as_str(), simple.password.as_str(), simple.memo.as_deref()), (12, "u", "p", Some("m")));
    let updating = UpdatingAccount { id: 12, username: "v", password: "q", memo: None };
    let simple = SimpleAccount::updated(&updating);
    assert_eq!((simple.id, simple.username.as_str(), simple.password.as_str(), simple.memo.as_deref()), (12, "v", "q", None));
    let download = CreatingProductDownload { product_id: "RJ1", path: "/d/RJ1" };
    assert_eq!(download.path, "/d/RJ1");
    let query = ProductQuery::default();
    assert!(query.query.is_none() && query.ty.is_none() && query.age.is_none());
    assert!(!query.order_by_asc);
}

#[test]
fn progress_events_hold_percent() {
    assert_eq!(percent(0, 100), 0);
    assert_eq!(percent(1, 3), 33);
    assert_eq!(percent(2, 3), 67);
    assert_eq!(percent(1, 200), 1);
    assert_eq!(percent(1, 201), 0);
    assert_eq!(percent(100, 100), 100);
    assert_eq!(percent(300, 100), 300);
    assert_eq!(percent(0, 0), 0);
    assert_eq!(percent(1, 0), usize::MAX);
    assert_eq!(percent(u64::MAX, u64::MAX), 100);
    let event = ProductDownloadProgressEvent::new("RJ1", 512, 1024, true);
    assert_eq!((event.product_id, event.progress, event.decompressing), ("RJ1", 50, true));
    let end = ProductDownloadEndEvent { product_id: "RJ1", downloaded_path: Some("/d/RJ1") };
    assert_eq!(end.downloaded_path, Some("/d/RJ1"));
    assert_eq!(
        FetchNewProductsProgressEvent { progress: 1, total_progress: 2 },
        FetchNewProductsProgressEvent { progress: 1, total_progress: 2 }
    );
    assert_eq!(RefreshProductsAllProgressEvent { progress: 1, total_progress: 2 }.total_progress, 2);
    assert_eq!(RefreshProductListEvent { progress: 1, total_progress: 2 }.progress, 1);
    assert_eq!(UpdateProductListEvent { progress: 1, total_progress: 2 }.progress, 1);
}

#[test]
fn account_test_reports() {
    assert_eq!(account_management_test_account(Err(LoginError::WrongCredentials), None), Ok(-1));
    assert_eq!(
        account_management_test_account(Err(LoginError::WrongCredentials), Some(4)),
        Ok(-1)
    );
    assert_eq!(
        account_management_test_account(
            Err(LoginError::Other(LoginFailure::AntiForgeryCookieMissing)),
            None
        ),
        Err(LoginFailure::AntiForgeryCookieMissing)
    );
    assert_eq!(account_management_test_account(Ok(()), Some(45)), Ok(45));
    assert_eq!(account_management_test_account(Ok(()), None), Err(LoginFailure::Transport));
}

#[test]
fn open_folder_decisions() {
    assert_eq!(
        product_open_downloaded_folder(DownloadLocation::Unknown),
        OpenFolderAction::ReportInvalid
    );
    assert_eq!(
        product_open_downloaded_folder(DownloadLocation::Missing),
        OpenFolderAction::ForgetAndReportInvalid
    );
    assert_eq!(product_open_downloaded_folder(DownloadLocation::Present), OpenFolderAction::Open);
}

#[test]
fn menu_entries_and_update_guard() {
    assert_eq!(handle_menu("account/open-account-management"), MenuCommand::OpenAccountManagement);
    assert_eq!(handle_menu("product/fetch-new-products"), MenuCommand::FetchNewProducts);
    assert_eq!(handle_menu("product/refresh-products-all"), MenuCommand::RefreshProductsAll);
    assert_eq!(handle_menu("product/scan-downloaded-products"), MenuCommand::ScanDownloadedProducts);
    assert_eq!(handle_menu("setting/open-setting"), MenuCommand::OpenSetting);
    assert_eq!(handle_menu("log/open-log-directory"), MenuCommand::OpenLogDirectory);
    assert_eq!(handle_menu("quit"), MenuCommand::Ignore);
    let mut updating = false;
    assert!(try_begin(&mut updating, MenuCommand::OpenSetting));
    assert!(!updating);
    assert!(try_begin(&mut updating, MenuCommand::FetchNewProducts));
    assert!(updating);
    assert!(!try_begin(&mut updating, MenuCommand::RefreshProductsAll));
    assert!(!try_begin(&mut updating, MenuCommand::ScanDownloadedProducts));
    assert!(try_begin(&mut updating, MenuCommand::OpenLogDirectory));
    assert!(updating);
    finish(&mut updating);
    assert!(!updating);
    assert!(try_begin(&mut updating, MenuCommand::ScanDownloadedProducts));
}

#[test]
fn scan_takes_directories_with_readable_names() {
    let entry = |name: Option<&str>, is_dir: bool, path: &str| ScannedEntry {
        file_name: name.map(str::to_owned),
        is_dir,
        path: path.to_owned(),
    };
    let downloads = scan_candidates(&vec![
        entry(Some("RJ1"), true, "/d/RJ1"),
        entry(Some("notes.txt"), false, "/d/notes.txt"),
        entry(None, true, "/d/???"),
        entry(Some("RJ2"), true, "/d/RJ2"),
        entry(Some("RJ3"), true, "/d/RJ3"),
    ]);
    let got: Vec<(&str, &str)> = downloads.iter().map(|d| (d.id.as_str(), d.path.as_str())).collect();
    assert_eq!(got, vec![("RJ1", "/d/RJ1"), ("RJ2", "/d/RJ2"), ("RJ3", "/d/RJ3")]);
    let product = |id: &str| DLsiteProduct {
        id: id.to_owned(),
        ty: DLsiteProductType::Comic,
        age: DLsiteProductAgeCategory::All,
        title: format!("title of {}", id),
        thumbnail: "t".to_owned(),
        group_id: "g".to_owned(),
        group_name: "gn".to_owned(),
        registered_at: 7,
    };
    let products = scanned_products(&downloads, &vec![Some(product("RJ1")), None, Some(product("RJ3"))]);
    assert_eq!(products.len(), 2);
    assert_eq!((products[0].id.as_str(), products[0].path.as_str()), ("RJ1", "/d/RJ1"));
    assert_eq!((products[1].id.as_str(), products[1].path.as_str()), ("RJ3", "/d/RJ3"));
    assert_eq!(products[1].product.title, "title of RJ3");
    let creating = make_unowned_product(&products[1]);
    assert_eq!(creating.id, "RJ3");
    assert_eq!(creating.account_id, None);
    assert_eq!(creating.registered_at, Some(7));
    let download = make_product_download(&products[1]);
    assert_eq!((download.product_id, download.path), ("RJ3", "/d/RJ3"));
    let short = scanned_products(&downloads, &vec![None]);
    assert_eq!(short.len(), 0);
    let long = scanned_products(
        &downloads,
        &vec![None, Some(product("RJ2")), None, Some(product("RJ4")), Some(product("RJ5"))],
    );
    assert_eq!(long.len(), 1);
    assert_eq!(long[0].id, "RJ2");
    assert_eq!(scan_candidates(&vec![]).len(), 0);
}

#[test]
fn windows_describe_themselves() {
    assert_eq!(MainWindow.label(), "main");
    assert_eq!(MainWindow.entry(), "main");
    assert_eq!(MainWindow.title(), "DLsite Manager");
    assert_eq!(MainWindow.size(), (800, 600));
    assert!(MainWindow.resizable());
    assert_eq!(MainWindow.init_scripts(), Vec::<String>::new());
    assert_eq!(AccountAddWindow.label(), "account-add");
    assert_eq!(AccountAddWindow.title(), "Add Account - DLsite Manager");
    assert_eq!(AccountAddWindow.size(), (320, 450));
    assert!(!AccountAddWindow.resizable());
    let edit = AccountEditWindow { account_id: -12 };
    assert_eq!(edit.label(), "account-edit");
    assert_eq!(edit.title(), "Edit Account - DLsite Manager");
    assert_eq!(edit.size(), (320, 450));
    assert_eq!(edit.init_scripts(), vec!["window.accountId = -12".to_owned()]);
    assert_eq!(AccountManagementWindow.label(), "account-management");
    assert_eq!(AccountManagementWindow.title(), "Account Management - DLsite Manager");
    assert_eq!(AccountManagementWindow.size(), (600, 500));
    assert!(AccountManagementWindow.resizable());
    assert_eq!(SettingWindow.label(), "setting");
    assert_eq!(SettingWindow.title(), "Settings - DLsite Manager");
    assert_eq!(SettingWindow.size(), (600, 300));
    assert!(!SettingWindow.resizable());
}

#[test]
fn records_know_their_tables() {
    assert_eq!(DisplayLanguageSetting::get_ddl(), DisplayLanguageSettingTable::get_ddl());
    assert_eq!(LatestProductQuery::get_ddl(), LatestProductQueryTable::get_ddl());
    assert!(Setting::get_ddl().contains("CREATE TABLE IF NOT EXISTS settings"));
    assert!(Setting::get_ddl().contains("download_root_dir TEXT"));
    assert!(Setting::get(None).download_root_dir.is_none());
    assert!(Setting::get(Some(None)).download_root_dir.is_none());
    assert_eq!(
        Setting::get(Some(Some("/downloads".to_owned()))).download_root_dir.as_deref(),
        Some("/downloads")
    );
    let latest = LatestProductQuery::get(None).unwrap();
    assert_eq!(latest.query.order_by, ProductQueryOrderBy::PurchaseDateDesc);
    assert_eq!(
        LatestProductQuery::get(Some(row(None, None, "nope", None))).unwrap_err(),
        ColumnError::OrderBy
    );
    let latest = LatestProductQuery::get(Some(row(None, Some("R15"), "IdAsc", None))).unwrap();
    assert_eq!(latest.query.age, Some(DLsiteProductAgeCategory::R15));
}
