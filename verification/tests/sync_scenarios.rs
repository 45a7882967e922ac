use dlsite_manager::services::sync::{
    AccountCheckpoint, SyncAction, SyncEngine, SyncEvent, SyncMode,
};

#[test]
fn incremental_sync_walks_pages_from_checkpoint() {
    let mut engine = SyncEngine::new(
        SyncMode::Incremental,
        vec![AccountCheckpoint { account_id: 7, product_count: 45 }],
    );
    assert_eq!(engine.step(SyncEvent::Start), SyncAction::Probe { account_id: 7 });
    assert_eq!(
        engine.step(SyncEvent::Counted { count: 120 }),
        SyncAction::Report { progress: 0, total: 75 }
    );
    assert_eq!(
        engine.step(SyncEvent::Succeeded),
        SyncAction::FetchPage { account_id: 7, page: 1 }
    );
    assert_eq!(
        engine.step(SyncEvent::PageFetched { count: 50 }),
        SyncAction::Commit { account_id: 7, skip: 45, checkpoint: 50 }
    );
    assert_eq!(
        engine.step(SyncEvent::Succeeded),
        SyncAction::Report { progress: 5, total: 75 }
    );
    assert_eq!(
        engine.step(SyncEvent::Succeeded),
        SyncAction::FetchPage { account_id: 7, page: 2 }
    );
    assert_eq!(
        engine.step(SyncEvent::PageFetched { count: 50 }),
        SyncAction::Commit { account_id: 7, skip: 0, checkpoint: 100 }
    );
    assert_eq!(
        engine.step(SyncEvent::Succeeded),
        SyncAction::Report { progress: 55, total: 75 }
    );
    assert_eq!(
        engine.step(SyncEvent::Succeeded),
        SyncAction::FetchPage { account_id: 7, page: 3 }
    );
    assert_eq!(
        engine.step(SyncEvent::PageFetched { count: 20 }),
        SyncAction::Commit { account_id: 7, skip: 0, checkpoint: 120 }
    );
    assert_eq!(
        engine.step(SyncEvent::Succeeded),
        SyncAction::Report { progress: 75, total: 75 }
    );
    assert_eq!(engine.step(SyncEvent::Succeeded), SyncAction::Finish);
}

use dlsite_manager::services::dlsite_service::{checkpoint_of, make_creating_product, DLsiteService};
use dlsite_manager::services::sync::{SyncError, SyncPhase, PAGE_LIMIT};
use dlsite_manager::dlsite::dto::{DLsiteProduct, DLsiteProductAgeCategory, DLsiteProductType};

fn drive(engine: &mut SyncEngine, events: &[SyncEvent]) -> Vec<SyncAction> {
    events.iter().map(|event| engine.step(*event)).collect()
}

#[test]
fn unchanged_or_lower_count_fetches_no_page() {
    let mut engine = DLsiteService::new().fetch_new_products(vec![
        AccountCheckpoint { account_id: 1, product_count: 30 },
        AccountCheckpoint { account_id: 2, product_count: 30 },
        AccountCheckpoint { account_id: 3, product_count: 0 },
    ]);
    let actions = drive(
        &mut engine,
        &[
            SyncEvent::Start,
            SyncEvent::Counted { count: 30 },
            SyncEvent::Counted { count: 12 },
            SyncEvent::Counted { count: 0 },
        ],
    );
    assert_eq!(
        actions,
        vec![
            SyncAction::Probe { account_id: 1 },
            SyncAction::Probe { account_id: 2 },
            SyncAction::Probe { account_id: 3 },
            SyncAction::Finish,
        ]
    );
    assert_eq!(engine.plan.len(), 0);
    assert_eq!(engine.progress, 0);
    assert_eq!(engine.phase, SyncPhase::Done);
}

#[test]
fn only_grown_accounts_are_walked() {
    let mut engine = SyncEngine::new(
        SyncMode::Incremental,
        vec![
            AccountCheckpoint { account_id: 1, product_count: 10 },
            AccountCheckpoint { account_id: 2, product_count: 100 },
        ],
    );
    let actions = drive(
        &mut engine,
        &[
            SyncEvent::Start,
            SyncEvent::Counted { count: 10 },
            SyncEvent::Counted { count: 103 },
            SyncEvent::Succeeded,
            SyncEvent::PageFetched { count: 3 },
            SyncEvent::Succeeded,
            SyncEvent::Succeeded,
        ],
    );
    assert_eq!(
        actions,
        vec![
            SyncAction::Probe { account_id: 1 },
            SyncAction::Probe { account_id: 2 },
            SyncAction::Report { progress: 0, total: 3 },
            SyncAction::FetchPage { account_id: 2, page: 3 },
            SyncAction::Commit { account_id: 2, skip: 0, checkpoint: 103 },
            SyncAction::Report { progress: 3, total: 3 },
            SyncAction::Finish,
        ]
    );
    assert_eq!(engine.plan.len(), 1);
    assert_eq!(engine.plan[0].checkpoint, engine.plan[0].start + engine.plan[0].ingested);
}

#[test]
fn full_refresh_clears_and_starts_at_page_one() {
    let mut engine = DLsiteService::new().refresh_products_all(vec![
        AccountCheckpoint { account_id: 5, product_count: 77 },
    ]);
    let actions = drive(
        &mut engine,
        &[
            SyncEvent::Start,
            SyncEvent::Succeeded,
            SyncEvent::Counted { count: 60 },
            SyncEvent::Succeeded,
            SyncEvent::PageFetched { count: 50 },
            SyncEvent::Succeeded,
            SyncEvent::Succeeded,
            SyncEvent::PageFetched { count: 10 },
            SyncEvent::Succeeded,
            SyncEvent::Succeeded,
        ],
    );
    assert_eq!(
        actions,
        vec![
            SyncAction::ClearOwned,
            SyncAction::Probe { account_id: 5 },
            SyncAction::Report { progress: 0, total: 60 },
            SyncAction::FetchPage { account_id: 5, page: 1 },
            SyncAction::Commit { account_id: 5, skip: 0, checkpoint: 50 },
            SyncAction::Report { progress: 50, total: 60 },
            SyncAction::FetchPage { account_id: 5, page: 2 },
            SyncAction::Commit { account_id: 5, skip: 0, checkpoint: 60 },
            SyncAction::Report { progress: 60, total: 60 },
            SyncAction::Finish,
        ]
    );
}

#[test]
fn refresh_then_update_ingests_nothing() {
    let mut refresh = SyncEngine::new(
        SyncMode::FullRefresh,
        vec![AccountCheckpoint { account_id: 9, product_count: 3 }],
    );
    drive(
        &mut refresh,
        &[
            SyncEvent::Start,
            SyncEvent::Succeeded,
            SyncEvent::Counted { count: 51 },
            SyncEvent::Succeeded,
            SyncEvent::PageFetched { count: 50 },
            SyncEvent::Succeeded,
            SyncEvent::Succeeded,
            SyncEvent::PageFetched { count: 1 },
            SyncEvent::Succeeded,
        ],
    );
    assert_eq!(refresh.step(SyncEvent::Succeeded), SyncAction::Finish);
    let stored = refresh.plan[0].checkpoint;
    assert_eq!(stored, 51);
    let mut update = SyncEngine::new(
        SyncMode::Incremental,
        vec![AccountCheckpoint { account_id: 9, product_count: stored }],
    );
    assert_eq!(update.step(SyncEvent::Start), SyncAction::Probe { account_id: 9 });
    assert_eq!(update.step(SyncEvent::Counted { count: 51 }), SyncAction::Finish);
    assert_eq!(update.progress, 0);
}

#[test]
fn not_authenticated_account_is_passed_over() {
    let mut engine = SyncEngine::new(
        SyncMode::Incremental,
        vec![
            AccountCheckpoint { account_id: 1, product_count: 0 },
            AccountCheckpoint { account_id: 2, product_count: 0 },
            AccountCheckpoint { account_id: 3, product_count: 0 },
        ],
    );
    let actions = drive(
        &mut engine,
        &[
            SyncEvent::Start,
            SyncEvent::NotAuthenticated,
            SyncEvent::Counted { count: 2 },
            SyncEvent::Counted { count: 1 },
            SyncEvent::Succeeded,
            SyncEvent::NotAuthenticated,
            SyncEvent::PageFetched { count: 1 },
            SyncEvent::Succeeded,
            SyncEvent::Succeeded,
        ],
    );
    assert_eq!(
        actions,
        vec![
            SyncAction::Probe { account_id: 1 },
            SyncAction::Probe { account_id: 2 },
            SyncAction::Probe { account_id: 3 },
            SyncAction::Report { progress: 0, total: 3 },
            SyncAction::FetchPage { account_id: 2, page: 1 },
            SyncAction::FetchPage { account_id: 3, page: 1 },
            SyncAction::Commit { account_id: 3, skip: 0, checkpoint: 1 },
            SyncAction::Report { progress: 1, total: 3 },
            SyncAction::Finish,
        ]
    );
}

#[test]
fn hard_errors_abort_the_sync() {
    let accounts = || vec![AccountCheckpoint { account_id: 1, product_count: 0 }];
    let mut engine = SyncEngine::new(SyncMode::Incremental, accounts());
    engine.step(SyncEvent::Start);
    assert_eq!(engine.step(SyncEvent::Failed), SyncAction::Abort { error: SyncError::Remote });
    assert_eq!(engine.phase, SyncPhase::Failed);
    assert_eq!(
        engine.step(SyncEvent::Succeeded),
        SyncAction::Abort { error: SyncError::UnexpectedEvent }
    );

    let mut engine = SyncEngine::new(SyncMode::Incremental, accounts());
    drive(&mut engine, &[SyncEvent::Start, SyncEvent::Counted { count: 5 }, SyncEvent::Succeeded]);
    assert_eq!(engine.step(SyncEvent::Failed), SyncAction::Abort { error: SyncError::Remote });

    let mut engine = SyncEngine::new(SyncMode::FullRefresh, accounts());
    engine.step(SyncEvent::Start);
    assert_eq!(engine.step(SyncEvent::Failed), SyncAction::Abort { error: SyncError::Storage });

    let mut engine = SyncEngine::new(SyncMode::Incremental, accounts());
    engine.step(SyncEvent::Start);
    assert_eq!(
        engine.step(SyncEvent::WrongCredentials),
        SyncAction::Abort { error: SyncError::InvalidCredentials }
    );
}

#[test]
fn counts_beyond_32_bits_are_refused() {
    let mut engine = SyncEngine::new(
        SyncMode::Incremental,
        vec![
            AccountCheckpoint { account_id: 1, product_count: 0 },
            AccountCheckpoint { account_id: 2, product_count: 0 },
        ],
    );
    engine.step(SyncEvent::Start);
    engine.step(SyncEvent::Counted { count: u32::MAX });
    assert_eq!(
        engine.step(SyncEvent::Counted { count: 1 }),
        SyncAction::Abort { error: SyncError::CountOverflow }
    );

    let mut engine = SyncEngine::new(
        SyncMode::Incremental,
        vec![AccountCheckpoint { account_id: 1, product_count: u32::MAX - 1 }],
    );
    drive(&mut engine, &[SyncEvent::Start, SyncEvent::Counted { count: u32::MAX }, SyncEvent::Succeeded]);
    let skip = (u32::MAX - 1) % PAGE_LIMIT;
    assert_eq!(
        engine.step(SyncEvent::PageFetched { count: skip + 2 }),
        SyncAction::Abort { error: SyncError::CountOverflow }
    );
}

#[test]
fn failed_commit_keeps_checkpoint_and_leaves_account() {
    let mut engine = SyncEngine::new(
        SyncMode::Incremental,
        vec![
            AccountCheckpoint { account_id: 1, product_count: 0 },
            AccountCheckpoint { account_id: 2, product_count: 0 },
        ],
    );
    drive(
        &mut engine,
        &[
            SyncEvent::Start,
            SyncEvent::Counted { count: 4 },
            SyncEvent::Counted { count: 2 },
            SyncEvent::Succeeded,
            SyncEvent::PageFetched { count: 4 },
        ],
    );
    assert_eq!(
        engine.step(SyncEvent::Failed),
        SyncAction::FetchPage { account_id: 2, page: 1 }
    );
    assert_eq!(engine.plan[0].checkpoint, 0);
    assert_eq!(engine.plan[0].ingested, 0);
    assert_eq!(engine.progress, 0);
}

#[test]
fn page_without_new_entries_leaves_account() {
    let mut engine = SyncEngine::new(
        SyncMode::Incremental,
        vec![AccountCheckpoint { account_id: 1, product_count: 45 }],
    );
    drive(&mut engine, &[SyncEvent::Start, SyncEvent::Counted { count: 120 }, SyncEvent::Succeeded]);
    assert_eq!(engine.step(SyncEvent::PageFetched { count: 45 }), SyncAction::Finish);
    assert_eq!(engine.plan[0].checkpoint, 45);
}

#[test]
fn recorded_counts_and_owned_entries() {
    assert_eq!(checkpoint_of(4, 17), AccountCheckpoint { account_id: 4, product_count: 17 });
    assert_eq!(checkpoint_of(4, -1), AccountCheckpoint { account_id: 4, product_count: 0 });
    assert_eq!(
        checkpoint_of(4, i32::MAX),
        AccountCheckpoint { account_id: 4, product_count: 2147483647 }
    );
    let product = DLsiteProduct {
        id: "RJ1".to_owned(),
        ty: DLsiteProductType::Manga,
        age: DLsiteProductAgeCategory::R15,
        title: "t".to_owned(),
        thumbnail: "th".to_owned(),
        group_id: "g".to_owned(),
        group_name: "gn".to_owned(),
        registered_at: 99,
    };
    let creating = make_creating_product(8, &product);
    assert_eq!(creating.id, "RJ1");
    assert_eq!(creating.account_id, Some(8));
    assert_eq!(creating.ty, DLsiteProductType::Manga);
    assert_eq!(creating.age, DLsiteProductAgeCategory::R15);
    assert_eq!(creating.title, "t");
    assert_eq!(creating.thumbnail, "th");
    assert_eq!(creating.group_id, "g");
    assert_eq!(creating.group_name, "gn");
    assert_eq!(creating.registered_at, Some(99));
}
