use dlsite_manager::database::catalog::Catalog;
use dlsite_manager::database::models::v2::CreatingProduct;
use dlsite_manager::dlsite::dto::{DLsiteProductAgeCategory, DLsiteProductType};

fn entry<'a>(id: &'a str, account_id: Option<i64>, title: &'a str) -> CreatingProduct<'a> {
    CreatingProduct {
        id,
        account_id,
        ty: DLsiteProductType::Voice,
        age: DLsiteProductAgeCategory::All,
        title,
        thumbnail: "thumb",
        group_id: "RG1",
        group_name: "group",
        registered_at: Some(5),
    }
}

#[test]
fn upsert_twice_keeps_one_row_with_latest_title() {
    let mut catalog = Catalog::new();
    catalog.insert_one(&entry("RJ1", Some(1), "old title"));
    catalog.insert_one(&entry("RJ2", Some(1), "other"));
    catalog.insert_one(&entry("RJ1", Some(1), "new title"));
    assert_eq!(catalog.len(), 2);
    let rows: Vec<_> = catalog.products.iter().filter(|p| p.id == "RJ1").collect();
    assert_eq!(rows.len(), 1);
    assert_eq!(rows[0].title, "new title");
    assert_eq!(catalog.products[0].id, "RJ1");
    assert_eq!(catalog.products[1].id, "RJ2");
    assert_eq!(catalog.products[1].title, "other");
}

#[test]
fn upsert_keeps_the_owning_account() {
    let mut catalog = Catalog::new();
    catalog.insert_one(&entry("RJ1", Some(1), "a"));
    catalog.insert_one(&CreatingProduct {
        ty: DLsiteProductType::Game,
        age: DLsiteProductAgeCategory::R18,
        thumbnail: "t2",
        group_id: "RG2",
        group_name: "g2",
        registered_at: None,
        ..entry("RJ1", Some(2), "b")
    });
    let row = &catalog.products[0];
    assert_eq!(row.account_id, Some(1));
    assert_eq!(row.title, "b");
    assert_eq!(row.ty, DLsiteProductType::Game);
    assert_eq!(row.age, DLsiteProductAgeCategory::R18);
    assert_eq!(row.thumbnail, "t2");
    assert_eq!(row.group_id, "RG2");
    assert_eq!(row.group_name, "g2");
    assert_eq!(row.registered_at, None);
    catalog.insert_one(&entry("RJ3", None, "c"));
    catalog.insert_one(&entry("RJ3", Some(9), "d"));
    assert_eq!(catalog.products[1].account_id, None);
}

#[test]
fn batch_is_stored_in_order() {
    let mut catalog = Catalog::new();
    catalog.insert_many(&vec![
        entry("RJ1", Some(1), "one"),
        entry("RJ2", Some(1), "two"),
        entry("RJ1", Some(1), "uno"),
    ]);
    assert_eq!(catalog.len(), 2);
    assert_eq!(catalog.products[0].title, "uno");
    assert_eq!(catalog.products[1].title, "two");
    catalog.insert_many(&vec![]);
    assert_eq!(catalog.len(), 2);
    assert_eq!(catalog.find("RJ2"), Some(1));
    assert_eq!(catalog.find("RJ9"), None);
}

#[test]
fn clearing_owned_entries_keeps_scanned_ones() {
    let mut catalog = Catalog::new();
    catalog.insert_many(&vec![
        entry("A", Some(1), "a"),
        entry("B", None, "b"),
        entry("C", Some(2), "c"),
        entry("D", None, "d"),
    ]);
    let mut owned = catalog.clone();
    catalog.remove_many_owned();
    let ids: Vec<&str> = catalog.products.iter().map(|p| p.id.as_str()).collect();
    assert_eq!(ids, vec!["B", "D"]);
    owned.remove_many_not_owned();
    let ids: Vec<&str> = owned.products.iter().map(|p| p.id.as_str()).collect();
    assert_eq!(ids, vec!["A", "C"]);
    owned.remove_many_owned();
    assert_eq!(owned.len(), 0);
}
