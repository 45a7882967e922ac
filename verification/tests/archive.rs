use dlsite_manager::dlsite::dto::{DLsiteProductFile, DLsiteProductFiles};
use dlsite_manager::services::archive::{
    archive_file_name, select_strategy, staged_path, staging_dir, ArchiveNormalizer,
    ArchiveStrategy, NormalizeAction, NormalizeError, NormalizeEvent, NormalizePhase,
};

fn names(names: &[&str]) -> DLsiteProductFiles {
    DLsiteProductFiles {
        files: names
            .iter()
            .map(|name| DLsiteProductFile { file_name: (*name).to_owned(), file_size: "1".to_owned() })
            .collect(),
    }
}

fn feed(normalizer: &mut ArchiveNormalizer, events: &[NormalizeEvent]) -> Vec<NormalizeAction> {
    events.iter().map(|event| normalizer.step(*event)).collect()
}

#[test]
fn strategy_follows_declared_names() {
    assert_eq!(select_strategy(&names(&["game.zip"])), ArchiveStrategy::Zip);
    assert_eq!(select_strategy(&names(&["GAME.ZIP"])), ArchiveStrategy::Zip);
    assert_eq!(select_strategy(&names(&["setup.exe"])), ArchiveStrategy::SelfExtracting);
    assert_eq!(
        select_strategy(&names(&["part1.exe", "part2.rar", "part3.rar"])),
        ArchiveStrategy::MultiVolume
    );
    assert_eq!(select_strategy(&names(&["a.zip", "b.zip"])), ArchiveStrategy::Plain);
    assert_eq!(select_strategy(&names(&["a.rar", "b.exe"])), ArchiveStrategy::Plain);
    assert_eq!(select_strategy(&names(&["movie.mp4"])), ArchiveStrategy::Plain);
    assert_eq!(select_strategy(&names(&["zip"])), ArchiveStrategy::Plain);
    assert_eq!(select_strategy(&names(&[])), ArchiveStrategy::Plain);
}

#[test]
fn archive_name_replaces_extension() {
    assert_eq!(archive_file_name("part1.exe"), Some("part1.rar".to_owned()));
    assert_eq!(archive_file_name("Part1.EXE"), Some("Part1.rar".to_owned()));
    assert_eq!(archive_file_name("a.b.exe"), Some("a.b.rar".to_owned()));
    assert_eq!(archive_file_name("作品.exe"), Some("作品.rar".to_owned()));
    assert_eq!(archive_file_name(".exe"), Some(".exe.rar".to_owned()));
    assert_eq!(archive_file_name("dir/.exe"), Some("dir/.exe.rar".to_owned()));
    assert_eq!(archive_file_name("part1.zip"), None);
    assert_eq!(archive_file_name("exe"), None);
}

#[test]
fn archive_name_agrees_with_path_extension() {
    for name in ["part1.exe", "a.b.exe", ".exe", "x/.exe", "x/y.exe", "Y.Exe"] {
        let expected = std::path::Path::new(name).with_extension("rar");
        assert_eq!(archive_file_name(name).as_deref(), expected.to_str(), "for {:?}", name);
    }
}

#[test]
fn staged_paths() {
    assert_eq!(staging_dir(), "__tmp__");
    assert_eq!(staged_path(None, "A"), vec!["__tmp__".to_owned(), "A".to_owned()]);
    assert_eq!(
        staged_path(Some("wrapper"), "A"),
        vec!["__tmp__".to_owned(), "wrapper".to_owned(), "A".to_owned()]
    );
}

#[test]
fn single_zip_is_extracted_and_removed() {
    let files = names(&["game.zip"]);
    let mut normalizer = ArchiveNormalizer::new(select_strategy(&files), files.files.len());
    let actions = feed(
        &mut normalizer,
        &[
            NormalizeEvent::Start,
            NormalizeEvent::Succeeded,
            NormalizeEvent::Listed { count: 2, single_directory: false },
            NormalizeEvent::Succeeded,
            NormalizeEvent::Succeeded,
            NormalizeEvent::Succeeded,
            NormalizeEvent::Succeeded,
        ],
    );
    assert_eq!(
        actions,
        vec![
            NormalizeAction::ExtractZip,
            NormalizeAction::ListStaging,
            NormalizeAction::MoveUp { entry: 0, wrapped: false },
            NormalizeAction::MoveUp { entry: 1, wrapped: false },
            NormalizeAction::RemoveStaging,
            NormalizeAction::RemoveFile { file: 0 },
            NormalizeAction::Finish,
        ]
    );
    assert_eq!(normalizer.phase, NormalizePhase::Done);
}

#[test]
fn zip_with_single_directory_is_not_unwrapped_twice() {
    let mut normalizer = ArchiveNormalizer::new(ArchiveStrategy::Zip, 1);
    let actions = feed(
        &mut normalizer,
        &[
            NormalizeEvent::Start,
            NormalizeEvent::Succeeded,
            NormalizeEvent::Listed { count: 1, single_directory: true },
        ],
    );
    assert_eq!(actions[2], NormalizeAction::MoveUp { entry: 0, wrapped: false });
}

#[test]
fn single_wrapping_directory_is_flattened() {
    let files = names(&["vol.exe", "vol.r00"]);
    let mut normalizer = ArchiveNormalizer::new(select_strategy(&files), files.files.len());
    let actions = feed(
        &mut normalizer,
        &[
            NormalizeEvent::Start,
            NormalizeEvent::Succeeded,
            NormalizeEvent::Succeeded,
            NormalizeEvent::Succeeded,
            NormalizeEvent::Listed { count: 1, single_directory: true },
            NormalizeEvent::Listed { count: 2, single_directory: false },
            NormalizeEvent::Succeeded,
            NormalizeEvent::Succeeded,
            NormalizeEvent::Succeeded,
            NormalizeEvent::Failed,
            NormalizeEvent::Succeeded,
        ],
    );
    assert_eq!(
        actions,
        vec![
            NormalizeAction::RenameToArchive,
            NormalizeAction::ExtractVolumes,
            NormalizeAction::RestoreName,
            NormalizeAction::ListStaging,
            NormalizeAction::ListWrapper,
            NormalizeAction::MoveUp { entry: 0, wrapped: true },
            NormalizeAction::MoveUp { entry: 1, wrapped: true },
            NormalizeAction::RemoveStaging,
            NormalizeAction::RemoveFile { file: 0 },
            NormalizeAction::RemoveFile { file: 1 },
            NormalizeAction::Finish,
        ]
    );
    assert_eq!(staged_path(Some("Wrapper"), "A"), vec!["__tmp__", "Wrapper", "A"]);
}

#[test]
fn several_top_level_entries_are_moved_as_they_are() {
    let mut normalizer = ArchiveNormalizer::new(ArchiveStrategy::SelfExtracting, 1);
    let actions = feed(
        &mut normalizer,
        &[
            NormalizeEvent::Start,
            NormalizeEvent::Succeeded,
            NormalizeEvent::Succeeded,
            NormalizeEvent::Succeeded,
            NormalizeEvent::Listed { count: 1, single_directory: false },
            NormalizeEvent::Succeeded,
        ],
    );
    assert_eq!(actions[4], NormalizeAction::MoveUp { entry: 0, wrapped: false });
    assert_eq!(actions[5], NormalizeAction::RemoveStaging);
    let mut empty = ArchiveNormalizer::new(ArchiveStrategy::SelfExtracting, 1);
    let actions = feed(
        &mut empty,
        &[
            NormalizeEvent::Start,
            NormalizeEvent::Succeeded,
            NormalizeEvent::Succeeded,
            NormalizeEvent::Succeeded,
            NormalizeEvent::Listed { count: 0, single_directory: false },
        ],
    );
    assert_eq!(actions[4], NormalizeAction::RemoveStaging);
}

#[test]
fn failed_extraction_rolls_back_and_keeps_downloads() {
    let mut zip = ArchiveNormalizer::new(ArchiveStrategy::Zip, 1);
    let actions = feed(
        &mut zip,
        &[NormalizeEvent::Start, NormalizeEvent::Failed, NormalizeEvent::Failed, NormalizeEvent::Succeeded],
    );
    assert_eq!(
        actions,
        vec![
            NormalizeAction::ExtractZip,
            NormalizeAction::RemoveStaging,
            NormalizeAction::Abort { error: NormalizeError::ArchiveFormat },
            NormalizeAction::Abort { error: NormalizeError::UnexpectedEvent },
        ]
    );
    let mut volumes = ArchiveNormalizer::new(ArchiveStrategy::MultiVolume, 3);
    let actions = feed(
        &mut volumes,
        &[
            NormalizeEvent::Start,
            NormalizeEvent::Succeeded,
            NormalizeEvent::Failed,
            NormalizeEvent::Succeeded,
            NormalizeEvent::Succeeded,
        ],
    );
    assert_eq!(
        actions,
        vec![
            NormalizeAction::RenameToArchive,
            NormalizeAction::ExtractVolumes,
            NormalizeAction::RemoveStaging,
            NormalizeAction::RestoreName,
            NormalizeAction::Abort { error: NormalizeError::ArchiveFormat },
        ]
    );
    assert_eq!(volumes.phase, NormalizePhase::Failed);
}

#[test]
fn file_system_failures_are_hard_errors() {
    let mut rename = ArchiveNormalizer::new(ArchiveStrategy::MultiVolume, 2);
    assert_eq!(
        feed(&mut rename, &[NormalizeEvent::Start, NormalizeEvent::Failed]),
        vec![
            NormalizeAction::RenameToArchive,
            NormalizeAction::Abort { error: NormalizeError::Filesystem },
        ]
    );
    let mut moving = ArchiveNormalizer::new(ArchiveStrategy::Zip, 1);
    let actions = feed(
        &mut moving,
        &[
            NormalizeEvent::Start,
            NormalizeEvent::Succeeded,
            NormalizeEvent::Listed { count: 3, single_directory: false },
            NormalizeEvent::Succeeded,
            NormalizeEvent::Failed,
            NormalizeEvent::Succeeded,
        ],
    );
    assert_eq!(actions[4], NormalizeAction::RemoveStaging);
    assert_eq!(actions[5], NormalizeAction::Abort { error: NormalizeError::Filesystem });
    let mut listing = ArchiveNormalizer::new(ArchiveStrategy::Zip, 1);
    let actions = feed(
        &mut listing,
        &[NormalizeEvent::Start, NormalizeEvent::Succeeded, NormalizeEvent::Failed, NormalizeEvent::Succeeded],
    );
    assert_eq!(actions[2], NormalizeAction::RemoveStaging);
    assert_eq!(actions[3], NormalizeAction::Abort { error: NormalizeError::Filesystem });
    let mut restore = ArchiveNormalizer::new(ArchiveStrategy::SelfExtracting, 1);
    let actions = feed(
        &mut restore,
        &[
            NormalizeEvent::Start,
            NormalizeEvent::Succeeded,
            NormalizeEvent::Succeeded,
            NormalizeEvent::Failed,
            NormalizeEvent::Succeeded,
        ],
    );
    assert_eq!(actions[3], NormalizeAction::RemoveStaging);
    assert_eq!(actions[4], NormalizeAction::Abort { error: NormalizeError::Filesystem });
}

#[test]
fn plain_files_need_no_processing() {
    let mut normalizer = ArchiveNormalizer::new(ArchiveStrategy::Plain, 4);
    assert_eq!(normalizer.step(NormalizeEvent::Start), NormalizeAction::Finish);
    assert_eq!(
        normalizer.step(NormalizeEvent::Start),
        NormalizeAction::Abort { error: NormalizeError::UnexpectedEvent }
    );
}
