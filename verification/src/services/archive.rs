//! The archive normalizer: which kind of post-processing a manifest asks for, and the
//! order of the file-system steps that turn staged downloads into the final layout.

use crate::dlsite::dto::{DLsiteProductFile, DLsiteProductFiles};
use crate::text::{ends_with, ends_with_lowercase, lower};
use vstd::prelude::*;
use vstd::string::{StrSliceExecFns, StringExecFns};

verus! {

/// The name of the temporary directory, inside the product directory, that archives are
/// extracted into.
pub open spec fn staging_dir_spec() -> Seq<char> {
    "__tmp__"@
}

/// The name of the temporary directory that archives are extracted into.
pub fn staging_dir() -> (name: &'static str)
    ensures
        name@ == staging_dir_spec(),
{
    "__tmp__"
}

/// How the staged files of a product are post-processed.
#[derive(Clone, Copy, Debug, PartialEq, Eq, Structural)]
pub enum ArchiveStrategy {
    /// A single zip archive: extract it and delete it.
    Zip,
    /// Several volumes behind a self-extracting first file.
    MultiVolume,
    /// A single self-extracting executable that holds an archive.
    SelfExtracting,
    /// The staged files are the final artifact.
    Plain,
}

/// `name` ends, whatever the case of its ASCII letters, with the lower-case `suffix`.
pub open spec fn has_extension(name: Seq<char>, suffix: Seq<char>) -> bool {
    ends_with(lower(name), suffix)
}

/// The strategy that the names of a manifest call for. Only the declared names decide,
/// never what the files hold.
pub open spec fn strategy_of(files: Seq<DLsiteProductFile>) -> ArchiveStrategy {
    if files.len() == 1 && has_extension(files[0].file_name@, ".zip"@) {
        ArchiveStrategy::Zip
    } else if files.len() == 1 && has_extension(files[0].file_name@, ".exe"@) {
        ArchiveStrategy::SelfExtracting
    } else if files.len() > 1 && has_extension(files[0].file_name@, ".exe"@) {
        ArchiveStrategy::MultiVolume
    } else {
        ArchiveStrategy::Plain
    }
}

/// Chooses the post-processing of a manifest once, from the names it declares.
pub fn select_strategy(product_files: &DLsiteProductFiles) -> (strategy: ArchiveStrategy)
    ensures
        strategy == strategy_of(product_files.files@),
{
    let count = product_files.files.len();
    if count == 0 {
        return ArchiveStrategy::Plain;
    }
    let first = product_files.files[0].file_name.as_str();
    if count == 1 && ends_with_lowercase(first, ".zip") {
        ArchiveStrategy::Zip
    } else if ends_with_lowercase(first, ".exe") {
        if count == 1 {
            ArchiveStrategy::SelfExtracting
        } else {
            ArchiveStrategy::MultiVolume
        }
    } else {
        ArchiveStrategy::Plain
    }
}

/// The name that a self-extracting container carries while it is read as an archive: its
/// extension replaced by `rar`. A name that is nothing but the extension keeps it and
/// gets `.rar` appended, as a path's extension is replaced. `None` for a name that does
/// not end in `.exe`.
pub open spec fn archive_name_spec(name: Seq<char>) -> Option<Seq<char>> {
    if !has_extension(name, ".exe"@) {
        None
    } else if name.len() == 4 || name[name.len() - 5] == '/' {
        Some(name + ".rar"@)
    } else {
        Some(name.subrange(0, name.len() - 3) + "rar"@)
    }
}

/// The `rar` name of a self-extracting container, under which a volume-aware reader
/// opens it.
pub fn archive_file_name(name: &str) -> (renamed: Option<String>)
    ensures
        match archive_name_spec(name@) {
            Some(expected) => renamed matches Some(r) && r@ == expected,
            None => renamed is None,
        },
{
    if !ends_with_lowercase(name, ".exe") {
        return None;
    }
    proof {
        reveal_strlit(".exe");
    }
    let chars = crate::text::chars_of(name);
    let len = chars.len();
    assert(len >= 4);
    if len == 4 || chars[len - 5] == '/' {
        let mut renamed = String::from_str(name);
        renamed.append(".rar");
        Some(renamed)
    } else {
        let mut renamed = String::from_str(name.substring_char(0, len - 3));
        renamed.append("rar");
        Some(renamed)
    }
}

/// Where an extracted entry lies before it is moved up: the path, component by
/// component and relative to the product directory, of the entry `name` in the staging
/// directory, below the wrapping directory if there is one.
pub open spec fn staged_path_spec(wrapper: Option<Seq<char>>, name: Seq<char>) -> Seq<Seq<char>> {
    match wrapper {
        Some(w) => seq![staging_dir_spec(), w, name],
        None => seq![staging_dir_spec(), name],
    }
}

/// The path of a staged entry, component by component and relative to the product
/// directory.
pub fn staged_path(wrapper: Option<&str>, name: &str) -> (path: Vec<String>)
    ensures
        path@.len() == staged_path_spec(
            match wrapper {
                Some(w) => Some(w@),
                None => None,
            },
            name@,
        ).len(),
        forall|i: int|
            0 <= i < path@.len() ==> (#[trigger] path@[i])@ == staged_path_spec(
                match wrapper {
                    Some(w) => Some(w@),
                    None => None,
                },
                name@,
            )[i],
{
    let mut path: Vec<String> = Vec::new();
    path.push(String::from_str(staging_dir()));
    match wrapper {
        Some(w) => {
            path.push(String::from_str(w));
        },
        None => {},
    }
    path.push(String::from_str(name));
    path
}

/// Where the normalization of one product stands.
#[derive(Clone, Copy, Debug, PartialEq, Eq, Structural)]
pub enum NormalizePhase {
    /// Nothing was done yet.
    Idle,
    /// The first container is being renamed to its archive name.
    Renaming,
    /// The archive is being extracted into the staging directory.
    Extracting,
    /// The first container is getting its declared name back.
    Restoring,
    /// The staging directory is being listed.
    ListingStaging,
    /// The single directory in the staging directory is being listed.
    ListingWrapper,
    /// An extracted entry is being moved into the product directory.
    Moving,
    /// The staging directory is being removed after all entries were moved.
    RemovingStaging,
    /// A downloaded container is being removed.
    RemovingFiles,
    /// The staging directory is being removed after a failure.
    RollingBack,
    /// After a failure, the first container is getting its declared name back.
    Unrenaming,
    /// The product directory has its final layout.
    Done,
    /// Normalization was given up.
    Failed,
}

/// What the file system or the archive reader reports back.
#[derive(Clone, Copy, Debug, PartialEq, Eq, Structural)]
pub enum NormalizeEvent {
    /// The download is complete and normalization may begin.
    Start,
    /// The step that was asked for is done.
    Succeeded,
    /// The step that was asked for failed.
    Failed,
    /// The directory that was to be listed holds `count` entries; `single_directory` says
    /// whether it holds exactly one entry and that entry is a directory.
    Listed { count: usize, single_directory: bool },
}

/// Why normalization was given up.
#[derive(Clone, Copy, Debug, PartialEq, Eq, Structural)]
pub enum NormalizeError {
    /// A rename, a listing or a move failed.
    Filesystem,
    /// The archive could not be read or extracted.
    ArchiveFormat,
    /// An event arrived that the current phase does not expect.
    UnexpectedEvent,
}

/// What the caller has to do next. Files are named by their index in the manifest,
/// extracted entries by their index in the latest listing.
#[derive(Clone, Copy, Debug, PartialEq, Eq, Structural)]
pub enum NormalizeAction {
    /// Rename the first container to its archive name.
    RenameToArchive,
    /// Extract the first file, a zip archive, into the staging directory, without the
    /// archive's own top-level folder.
    ExtractZip,
    /// Extract every entry of the renamed container, and of the volumes that follow it,
    /// into the staging directory.
    ExtractVolumes,
    /// Give the first container its declared name back.
    RestoreName,
    /// List the staging directory.
    ListStaging,
    /// List the only entry of the staging directory, a directory.
    ListWrapper,
    /// Move entry `entry` of the latest listing into the product directory, under its
    /// own name. `wrapped` says that the entry lies in the wrapping directory.
    MoveUp { entry: usize, wrapped: bool },
    /// Remove the staging directory and everything in it.
    RemoveStaging,
    /// Remove the downloaded file at index `file` of the manifest.
    RemoveFile { file: usize },
    /// The product directory has its final layout.
    Finish,
    /// Report `error`; nothing more is to be done.
    Abort { error: NormalizeError },
}

/// The normalization of one product's staged files.
#[derive(Clone, Copy, Debug, PartialEq, Eq, Structural)]
pub struct ArchiveNormalizer {
    pub strategy: ArchiveStrategy,
    /// The number of files in the manifest.
    pub file_count: usize,
    pub phase: NormalizePhase,
    /// The first container carries its archive name.
    pub renamed: bool,
    /// The entries to move lie in a single wrapping directory.
    pub wrapped: bool,
    /// The number of entries to move.
    pub entry_count: usize,
    /// The entry being moved, or the file being removed.
    pub cursor: usize,
    /// The error to report once the rollback is done.
    pub error: NormalizeError,
}

impl ArchiveNormalizer {
    /// The phase reports a failure from which no path leads to the removal of a downloaded
    /// file.
    pub open spec fn given_up(self) -> bool {
        self.phase == NormalizePhase::RollingBack || self.phase == NormalizePhase::Unrenaming
            || self.phase == NormalizePhase::Failed
    }

    /// The state that asks for the rollback after a failure of kind `error`.
    pub open spec fn roll_back(self, error: NormalizeError) -> (
        ArchiveNormalizer,
        NormalizeAction,
    ) {
        (
            ArchiveNormalizer { phase: NormalizePhase::RollingBack, error, ..self },
            NormalizeAction::RemoveStaging,
        )
    }

    /// The state that reports an unexpected event.
    pub open spec fn refuse(self) -> (ArchiveNormalizer, NormalizeAction) {
        (
            ArchiveNormalizer { phase: NormalizePhase::Failed, ..self },
            NormalizeAction::Abort { error: NormalizeError::UnexpectedEvent },
        )
    }

    /// With `entry_count` entries to move of which `cursor` are done: the next move, or
    /// the removal of the staging directory once none is left.
    pub open spec fn move_or_clean(self) -> (ArchiveNormalizer, NormalizeAction) {
        if self.cursor < self.entry_count {
            (
                ArchiveNormalizer { phase: NormalizePhase::Moving, ..self },
                NormalizeAction::MoveUp { entry: self.cursor, wrapped: self.wrapped },
            )
        } else {
            (
                ArchiveNormalizer { phase: NormalizePhase::RemovingStaging, ..self },
                NormalizeAction::RemoveStaging,
            )
        }
    }

    /// With `cursor` downloaded files removed: the next removal, or the end.
    pub open spec fn remove_or_finish(self) -> (ArchiveNormalizer, NormalizeAction) {
        if self.cursor < self.file_count {
            (
                ArchiveNormalizer { phase: NormalizePhase::RemovingFiles, ..self },
                NormalizeAction::RemoveFile { file: self.cursor },
            )
        } else {
            (ArchiveNormalizer { phase: NormalizePhase::Done, ..self }, NormalizeAction::Finish)
        }
    }

    /// The state after `event`, and what it asks of the caller.
    pub open spec fn next(self, event: NormalizeEvent) -> (ArchiveNormalizer, NormalizeAction) {
        match (self.phase, event) {
            (NormalizePhase::Idle, NormalizeEvent::Start) => match self.strategy {
                ArchiveStrategy::Plain => (
                    ArchiveNormalizer { phase: NormalizePhase::Done, ..self },
                    NormalizeAction::Finish,
                ),
                ArchiveStrategy::Zip => (
                    ArchiveNormalizer { phase: NormalizePhase::Extracting, ..self },
                    NormalizeAction::ExtractZip,
                ),
                _ => (
                    ArchiveNormalizer { phase: NormalizePhase::Renaming, ..self },
                    NormalizeAction::RenameToArchive,
                ),
            },
            (NormalizePhase::Renaming, NormalizeEvent::Succeeded) => (
                ArchiveNormalizer { phase: NormalizePhase::Extracting, renamed: true, ..self },
                NormalizeAction::ExtractVolumes,
            ),
            (NormalizePhase::Renaming, NormalizeEvent::Failed) => (
                ArchiveNormalizer {
                    phase: NormalizePhase::Failed,
                    error: NormalizeError::Filesystem,
                    ..self
                },
                NormalizeAction::Abort { error: NormalizeError::Filesystem },
            ),
            (NormalizePhase::Extracting, NormalizeEvent::Succeeded) => if self.renamed {
                (
                    ArchiveNormalizer { phase: NormalizePhase::Restoring, ..self },
                    NormalizeAction::RestoreName,
                )
            } else {
                (
                    ArchiveNormalizer { phase: NormalizePhase::ListingStaging, ..self },
                    NormalizeAction::ListStaging,
                )
            },
            (NormalizePhase::Extracting, NormalizeEvent::Failed) => self.roll_back(
                NormalizeError::ArchiveFormat,
            ),
            (NormalizePhase::Restoring, NormalizeEvent::Succeeded) => (
                ArchiveNormalizer {
                    phase: NormalizePhase::ListingStaging,
                    renamed: false,
                    ..self
                },
                NormalizeAction::ListStaging,
            ),
            (NormalizePhase::Restoring, NormalizeEvent::Failed) => (ArchiveNormalizer {
                renamed: false,
                ..self
            }).roll_back(NormalizeError::Filesystem),
            (
                NormalizePhase::ListingStaging,
                NormalizeEvent::Listed { count, single_directory },
            ) => if self.strategy != ArchiveStrategy::Zip && count == 1 && single_directory {
                (
                    ArchiveNormalizer {
                        phase: NormalizePhase::ListingWrapper,
                        wrapped: true,
                        ..self
                    },
                    NormalizeAction::ListWrapper,
                )
            } else {
                (ArchiveNormalizer { wrapped: false, entry_count: count, cursor: 0, ..self })
                    .move_or_clean()
            },
            (NormalizePhase::ListingWrapper, NormalizeEvent::Listed { count, single_directory }) => (
            ArchiveNormalizer { entry_count: count, cursor: 0, ..self }).move_or_clean(),
            (NormalizePhase::ListingStaging, NormalizeEvent::Failed) | (
                NormalizePhase::ListingWrapper,
                NormalizeEvent::Failed,
            ) | (NormalizePhase::Moving, NormalizeEvent::Failed) => self.roll_back(
                NormalizeError::Filesystem,
            ),
            (NormalizePhase::Moving, NormalizeEvent::Succeeded) => if self.cursor
                < self.entry_count {
                (ArchiveNormalizer { cursor: (self.cursor + 1) as usize, ..self }).move_or_clean()
            } else {
                self.refuse()
            },
            (NormalizePhase::RemovingStaging, NormalizeEvent::Succeeded) | (
                NormalizePhase::RemovingStaging,
                NormalizeEvent::Failed,
            ) => (ArchiveNormalizer { cursor: 0, ..self }).remove_or_finish(),
            (NormalizePhase::RemovingFiles, NormalizeEvent::Succeeded) | (
                NormalizePhase::RemovingFiles,
                NormalizeEvent::Failed,
            ) => if self.cursor < self.file_count {
                (ArchiveNormalizer { cursor: (self.cursor + 1) as usize, ..self })
                    .remove_or_finish()
            } else {
                self.refuse()
            },
            (NormalizePhase::RollingBack, NormalizeEvent::Succeeded) | (
                NormalizePhase::RollingBack,
                NormalizeEvent::Failed,
            ) => if self.renamed {
                (
                    ArchiveNormalizer { phase: NormalizePhase::Unrenaming, ..self },
                    NormalizeAction::RestoreName,
                )
            } else {
                (
                    ArchiveNormalizer { phase: NormalizePhase::Failed, ..self },
                    NormalizeAction::Abort { error: self.error },
                )
            },
            (NormalizePhase::Unrenaming, NormalizeEvent::Succeeded) | (
                NormalizePhase::Unrenaming,
                NormalizeEvent::Failed,
            ) => (
                ArchiveNormalizer { phase: NormalizePhase::Failed, renamed: false, ..self },
                NormalizeAction::Abort { error: self.error },
            ),
            _ => self.refuse(),
        }
    }

    /// The state after a run of events, one after the other.
    pub open spec fn run(self, events: Seq<NormalizeEvent>) -> ArchiveNormalizer
        decreases events.len(),
    {
        if events.len() == 0 {
            self
        } else {
            self.next(events[0]).0.run(events.drop_first())
        }
    }

    /// The state after `count` steps in a row have succeeded.
    pub open spec fn after_successes(self, count: nat) -> ArchiveNormalizer
        decreases count,
    {
        if count == 0 {
            self
        } else {
            self.next(NormalizeEvent::Succeeded).0.after_successes((count - 1) as nat)
        }
    }

    /// A normalizer for a manifest of `file_count` files with the given strategy, of
    /// which nothing was done yet.
    pub fn new(strategy: ArchiveStrategy, file_count: usize) -> (normalizer: Self)
        ensures
            normalizer == (ArchiveNormalizer {
                strategy,
                file_count,
                phase: NormalizePhase::Idle,
                renamed: false,
                wrapped: false,
                entry_count: 0,
                cursor: 0,
                error: NormalizeError::UnexpectedEvent,
            }),
    {
        ArchiveNormalizer {
            strategy,
            file_count,
            phase: NormalizePhase::Idle,
            renamed: false,
            wrapped: false,
            entry_count: 0,
            cursor: 0,
            error: NormalizeError::UnexpectedEvent,
        }
    }

    fn do_roll_back(&mut self, error: NormalizeError) -> (action: NormalizeAction)
        ensures
            (*final(self), action) == old(self).roll_back(error),
    {
        self.phase = NormalizePhase::RollingBack;
        self.error = error;
        NormalizeAction::RemoveStaging
    }

    fn do_refuse(&mut self) -> (action: NormalizeAction)
        ensures
            (*final(self), action) == old(self).refuse(),
    {
        self.phase = NormalizePhase::Failed;
        NormalizeAction::Abort { error: NormalizeError::UnexpectedEvent }
    }

    fn do_move_or_clean(&mut self) -> (action: NormalizeAction)
        ensures
            (*final(self), action) == old(self).move_or_clean(),
    {
        if self.cursor < self.entry_count {
            self.phase = NormalizePhase::Moving;
            NormalizeAction::MoveUp { entry: self.cursor, wrapped: self.wrapped }
        } else {
            self.phase = NormalizePhase::RemovingStaging;
            NormalizeAction::RemoveStaging
        }
    }

    fn do_remove_or_finish(&mut self) -> (action: NormalizeAction)
        ensures
            (*final(self), action) == old(self).remove_or_finish(),
    {
        if self.cursor < self.file_count {
            self.phase = NormalizePhase::RemovingFiles;
            NormalizeAction::RemoveFile { file: self.cursor }
        } else {
            self.phase = NormalizePhase::Done;
            NormalizeAction::Finish
        }
    }

    /// Takes one event and says what to do next.
    pub fn step(&mut self, event: NormalizeEvent) -> (action: NormalizeAction)
        ensures
            (*final(self), action) == old(self).next(event),
    {
        match (self.phase, event) {
            (NormalizePhase::Idle, NormalizeEvent::Start) => match self.strategy {
                ArchiveStrategy::Plain => {
                    self.phase = NormalizePhase::Done;
                    NormalizeAction::Finish
                },
                ArchiveStrategy::Zip => {
                    self.phase = NormalizePhase::Extracting;
                    NormalizeAction::ExtractZip
                },
                _ => {
                    self.phase = NormalizePhase::Renaming;
                    NormalizeAction::RenameToArchive
                },
            },
            (NormalizePhase::Renaming, NormalizeEvent::Succeeded) => {
                self.phase = NormalizePhase::Extracting;
                self.renamed = true;
                NormalizeAction::ExtractVolumes
            },
            (NormalizePhase::Renaming, NormalizeEvent::Failed) => {
                self.phase = NormalizePhase::Failed;
                self.error = NormalizeError::Filesystem;
                NormalizeAction::Abort { error: NormalizeError::Filesystem }
            },
            (NormalizePhase::Extracting, NormalizeEvent::Succeeded) => {
                if self.renamed {
                    self.phase = NormalizePhase::Restoring;
                    NormalizeAction::RestoreName
                } else {
                    self.phase = NormalizePhase::ListingStaging;
                    NormalizeAction::ListStaging
                }
            },
            (NormalizePhase::Extracting, NormalizeEvent::Failed) => self.do_roll_back(
                NormalizeError::ArchiveFormat,
            ),
            (NormalizePhase::Restoring, NormalizeEvent::Succeeded) => {
                self.phase = NormalizePhase::ListingStaging;
                self.renamed = false;
                NormalizeAction::ListStaging
            },
            (NormalizePhase::Restoring, NormalizeEvent::Failed) => {
                self.renamed = false;
                self.do_roll_back(NormalizeError::Filesystem)
            },
            (
                NormalizePhase::ListingStaging,
                NormalizeEvent::Listed { count, single_directory },
            ) => {
                if self.strategy != ArchiveStrategy::Zip && count == 1 && single_directory {
                    self.phase = NormalizePhase::ListingWrapper;
                    self.wrapped = true;
                    NormalizeAction::ListWrapper
                } else {
                    self.wrapped = false;
                    self.entry_count = count;
                    self.cursor = 0;
                    self.do_move_or_clean()
                }
            },
            (NormalizePhase::ListingWrapper, NormalizeEvent::Listed { count, single_directory }) => {
                self.entry_count = count;
                self.cursor = 0;
                self.do_move_or_clean()
            },
            (NormalizePhase::ListingStaging, NormalizeEvent::Failed) | (
                NormalizePhase::ListingWrapper,
                NormalizeEvent::Failed,
            ) | (NormalizePhase::Moving, NormalizeEvent::Failed) => self.do_roll_back(
                NormalizeError::Filesystem,
            ),
            (NormalizePhase::Moving, NormalizeEvent::Succeeded) => {
                if self.cursor < self.entry_count {
                    self.cursor = self.cursor + 1;
                    self.do_move_or_clean()
                } else {
                    self.do_refuse()
                }
            },
            (NormalizePhase::RemovingStaging, NormalizeEvent::Succeeded) | (
                NormalizePhase::RemovingStaging,
                NormalizeEvent::Failed,
            ) => {
                self.cursor = 0;
                self.do_remove_or_finish()
            },
            (NormalizePhase::RemovingFiles, NormalizeEvent::Succeeded) | (
                NormalizePhase::RemovingFiles,
                NormalizeEvent::Failed,
            ) => {
                if self.cursor < self.file_count {
                    self.cursor = self.cursor + 1;
                    self.do_remove_or_finish()
                } else {
                    self.do_refuse()
                }
            },
            (NormalizePhase::RollingBack, NormalizeEvent::Succeeded) | (
                NormalizePhase::RollingBack,
                NormalizeEvent::Failed,
            ) => {
                if self.renamed {
                    self.phase = NormalizePhase::Unrenaming;
                    NormalizeAction::RestoreName
                } else {
                    self.phase = NormalizePhase::Failed;
                    NormalizeAction::Abort { error: self.error }
                }
            },
            (NormalizePhase::Unrenaming, NormalizeEvent::Succeeded) | (
                NormalizePhase::Unrenaming,
                NormalizeEvent::Failed,
            ) => {
                self.phase = NormalizePhase::Failed;
                self.renamed = false;
                NormalizeAction::Abort { error: self.error }
            },
            _ => self.do_refuse(),
        }
    }
}

/// A failed extraction deletes none of the downloaded files: it leads to the rollback of
/// the staging directory, and from there on no step ever asks for the removal of a
/// downloaded file, whatever follows.
pub proof fn law_failure_keeps_downloads(normalizer: ArchiveNormalizer, event: NormalizeEvent)
    ensures
        normalizer.phase == NormalizePhase::Extracting ==> normalizer.next(NormalizeEvent::Failed)
            == normalizer.roll_back(NormalizeError::ArchiveFormat),
        normalizer.phase == NormalizePhase::Extracting ==> normalizer.next(
            NormalizeEvent::Failed,
        ).0.given_up(),
        normalizer.given_up() ==> normalizer.next(event).0.given_up(),
        normalizer.given_up() ==> !(normalizer.next(event).1 is RemoveFile) && !(normalizer.next(
            event,
        ).1 is Finish),
        normalizer.next(event).1 is RemoveFile ==> normalizer.phase
            == NormalizePhase::RemovingStaging || normalizer.phase == NormalizePhase::RemovingFiles,
{
}

/// After a failure the rollback always ends in an `Abort` that names the failure: at
/// most two more steps, whatever they report.
pub proof fn law_rollback_reports_failure(
    normalizer: ArchiveNormalizer,
    first: NormalizeEvent,
    second: NormalizeEvent,
)
    requires
        normalizer.phase == NormalizePhase::RollingBack,
        first == NormalizeEvent::Succeeded || first == NormalizeEvent::Failed,
        second == NormalizeEvent::Succeeded || second == NormalizeEvent::Failed,
    ensures
        !normalizer.renamed ==> normalizer.next(first).1 == (NormalizeAction::Abort {
            error: normalizer.error,
        }),
        normalizer.renamed ==> normalizer.next(first).1 == NormalizeAction::RestoreName
            && normalizer.next(first).0.next(second).1 == (NormalizeAction::Abort {
            error: normalizer.error,
        }),
{
}

/// While entries are moved, the `k`-th success in a row asks for the move of the next
/// entry, in the order of the listing and with the same wrapping, until all are moved;
/// then the staging directory is removed.
pub proof fn lemma_moves_in_order(normalizer: ArchiveNormalizer, k: nat)
    requires
        normalizer.phase == NormalizePhase::Moving,
        normalizer.cursor < normalizer.entry_count,
        normalizer.cursor + k < normalizer.entry_count,
    ensures
        normalizer.after_successes(k) == (ArchiveNormalizer {
            cursor: (normalizer.cursor + k) as usize,
            ..normalizer
        }),
        normalizer.after_successes(k).next(NormalizeEvent::Succeeded).1 == if normalizer.cursor + k
            + 1 < normalizer.entry_count {
            NormalizeAction::MoveUp {
                entry: (normalizer.cursor + k + 1) as usize,
                wrapped: normalizer.wrapped,
            }
        } else {
            NormalizeAction::RemoveStaging
        },
    decreases k,
{
    if k > 0 {
        let stepped = normalizer.next(NormalizeEvent::Succeeded).0;
        assert(stepped == (ArchiveNormalizer {
            cursor: (normalizer.cursor + 1) as usize,
            ..normalizer
        }));
        lemma_moves_in_order(stepped, (k - 1) as nat);
    }
}

/// Flattening: where the staging directory of a multi-volume or self-extracting product
/// holds exactly one directory, and that directory holds `count` entries, every one of
/// them is moved into the product directory itself, in the listing's order and marked
/// as wrapped, and then the staging directory, the wrapping directory with it, is
/// removed before any downloaded container is.
pub proof fn law_single_directory_is_flattened(normalizer: ArchiveNormalizer, count: usize, i: nat)
    requires
        normalizer.phase == NormalizePhase::ListingStaging,
        normalizer.strategy != ArchiveStrategy::Zip,
        count > 0,
        i < count,
    ensures
        normalizer.next(NormalizeEvent::Listed { count: 1, single_directory: true }).1
            == NormalizeAction::ListWrapper,
        ({
            let listing = normalizer.next(
                NormalizeEvent::Listed { count: 1, single_directory: true },
            ).0;
            let moving = listing.next(NormalizeEvent::Listed { count, single_directory: false });
            &&& moving.1 == NormalizeAction::MoveUp { entry: 0, wrapped: true }
            &&& i + 1 < count ==> moving.0.after_successes(i).next(NormalizeEvent::Succeeded).1
                == (NormalizeAction::MoveUp { entry: (i + 1) as usize, wrapped: true })
            &&& moving.0.after_successes((count - 1) as nat).next(NormalizeEvent::Succeeded).1
                == NormalizeAction::RemoveStaging
        }),
{
    let listing = normalizer.next(NormalizeEvent::Listed { count: 1, single_directory: true }).0;
    let moving = listing.next(NormalizeEvent::Listed { count, single_directory: false });
    lemma_moves_in_order(moving.0, i);
    lemma_moves_in_order(moving.0, (count - 1) as nat);
}

/// A moved entry lands in the product directory itself: its source lies in the staging
/// directory, below the wrapping directory if there is one, and its target is its bare
/// name, so no wrapping directory is part of the final layout.
pub proof fn law_moved_entry_has_no_wrapper(wrapper: Option<Seq<char>>, name: Seq<char>)
    ensures
        staged_path_spec(wrapper, name).first() == staging_dir_spec(),
        staged_path_spec(wrapper, name).last() == name,
        wrapper matches Some(w) ==> staged_path_spec(wrapper, name) == seq![
            staging_dir_spec(),
            w,
            name,
        ],
{
}

} // verus!
