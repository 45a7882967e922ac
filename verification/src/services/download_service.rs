//! The download orchestrator: one call that downloads a product and, where asked,
//! normalizes what was downloaded, with one rule for what is left behind on failure.

use crate::services::archive::ArchiveStrategy;
use vstd::prelude::*;

verus! {

/// The three ways in which a product is delivered.
#[derive(Clone, Copy, Debug, PartialEq, Eq, Structural)]
pub enum DownloadMode {
    /// The content files are staged and left as they are.
    Plain,
    /// The content files are staged and normalized.
    WithDecompression,
    /// The media assets of a voice or video comic are staged, by way of a signed request
    /// descriptor and a manifest of named assets.
    VoiceComic,
}

/// The mode that the caller's wishes select: a voice comic where that is asked for, else
/// decompression unless it is declined.
pub open spec fn mode_of(decompress: Option<bool>, is_voice_comic: Option<bool>) -> DownloadMode {
    if is_voice_comic == Some(true) {
        DownloadMode::VoiceComic
    } else if decompress == Some(false) {
        DownloadMode::Plain
    } else {
        DownloadMode::WithDecompression
    }
}

/// Selects the mode of a download.
pub fn select_mode(decompress: Option<bool>, is_voice_comic: Option<bool>) -> (mode: DownloadMode)
    ensures
        mode == mode_of(decompress, is_voice_comic),
{
    let voice_comic = match is_voice_comic {
        Some(v) => v,
        None => false,
    };
    let decompress = match decompress {
        Some(d) => d,
        None => true,
    };
    if voice_comic {
        DownloadMode::VoiceComic
    } else if decompress {
        DownloadMode::WithDecompression
    } else {
        DownloadMode::Plain
    }
}

/// Where a download stands.
#[derive(Clone, Copy, Debug, PartialEq, Eq, Structural)]
pub enum DownloadPhase {
    /// Nothing was done yet.
    Idle,
    /// A valid session is being obtained.
    ObtainingSession,
    /// The file manifest is being fetched.
    FetchingManifest,
    /// The signed request descriptor of a voice comic is being fetched.
    FetchingRequestInfo,
    /// The manifest of named assets of a voice comic is being fetched.
    FetchingZipTree,
    /// The staging directory is being made, an older one removed first.
    Preparing,
    /// The files are being transferred.
    Transferring,
    /// The staged files are being normalized.
    Normalizing,
    /// The staging directory is being removed after a failure.
    CleaningUp,
    /// The product is on disk.
    Done,
    /// The download was given up.
    Failed,
}

/// What the steps of a download report back.
#[derive(Clone, Copy, Debug, PartialEq, Eq, Structural)]
pub enum DownloadEvent {
    /// The download may begin.
    Start,
    /// The step that was asked for is done.
    Succeeded,
    /// The step that was asked for failed.
    Failed,
}

/// Why a download was given up.
#[derive(Clone, Copy, Debug, PartialEq, Eq, Structural)]
pub enum DownloadError {
    /// No valid session could be had.
    Session,
    /// The manifest, the request descriptor or the manifest of assets could not be
    /// fetched or read.
    Manifest,
    /// The staging directory could not be made.
    Filesystem,
    /// A file could not be transferred.
    Transfer,
    /// The staged files could not be normalized. They are left as they were downloaded.
    Archive,
    /// An event arrived that the current phase does not expect.
    UnexpectedEvent,
}

/// What the caller has to do next.
#[derive(Clone, Copy, Debug, PartialEq, Eq, Structural)]
pub enum DownloadAction {
    /// Obtain a valid session for the account.
    ObtainSession,
    /// Fetch the file manifest of the product.
    FetchManifest,
    /// Fetch the signed request descriptor of the product.
    FetchRequestInfo,
    /// Fetch the manifest of named assets that the request descriptor points to.
    FetchZipTree,
    /// Remove the product's directory if there is one, and make it anew.
    PrepareStaging,
    /// Transfer every file into the staging directory.
    TransferFiles,
    /// Normalize the staged files.
    Normalize,
    /// Remove the staging directory; a failure to do so is not reported.
    RemoveStaging,
    /// The product is on disk; its directory is to be recorded as its location.
    Finish,
    /// Report `error`; nothing more is to be done.
    Abort { error: DownloadError },
}

/// The download of one product.
#[derive(Clone, Copy, Debug, PartialEq, Eq, Structural)]
pub struct DownloadService {
    pub mode: DownloadMode,
    pub phase: DownloadPhase,
    /// The error to report once the staging directory is removed.
    pub error: DownloadError,
}

impl DownloadService {
    /// The state that gives the download up at once: nothing is staged yet.
    pub open spec fn fail(self, error: DownloadError) -> (DownloadService, DownloadAction) {
        (
            DownloadService { phase: DownloadPhase::Failed, error, ..self },
            DownloadAction::Abort { error },
        )
    }

    /// The state that removes the staging directory before the download is given up.
    pub open spec fn clean_up(self, error: DownloadError) -> (DownloadService, DownloadAction) {
        (
            DownloadService { phase: DownloadPhase::CleaningUp, error, ..self },
            DownloadAction::RemoveStaging,
        )
    }

    /// The staging directory exists, or may exist in part.
    pub open spec fn staged(self) -> bool {
        self.phase == DownloadPhase::Preparing || self.phase == DownloadPhase::Transferring
    }

    /// The state after `event`, and what it asks of the caller.
    pub open spec fn next(self, event: DownloadEvent) -> (DownloadService, DownloadAction) {
        match (self.phase, event) {
            (DownloadPhase::Idle, DownloadEvent::Start) => (
                DownloadService { phase: DownloadPhase::ObtainingSession, ..self },
                DownloadAction::ObtainSession,
            ),
            (DownloadPhase::ObtainingSession, DownloadEvent::Succeeded) => match self.mode {
                DownloadMode::VoiceComic => (
                    DownloadService { phase: DownloadPhase::FetchingRequestInfo, ..self },
                    DownloadAction::FetchRequestInfo,
                ),
                _ => (
                    DownloadService { phase: DownloadPhase::FetchingManifest, ..self },
                    DownloadAction::FetchManifest,
                ),
            },
            (DownloadPhase::ObtainingSession, DownloadEvent::Failed) => self.fail(
                DownloadError::Session,
            ),
            (DownloadPhase::FetchingManifest, DownloadEvent::Succeeded) => (
                DownloadService { phase: DownloadPhase::Preparing, ..self },
                DownloadAction::PrepareStaging,
            ),
            (DownloadPhase::FetchingRequestInfo, DownloadEvent::Succeeded) => (
                DownloadService { phase: DownloadPhase::FetchingZipTree, ..self },
                DownloadAction::FetchZipTree,
            ),
            (DownloadPhase::FetchingZipTree, DownloadEvent::Succeeded) => (
                DownloadService { phase: DownloadPhase::Preparing, ..self },
                DownloadAction::PrepareStaging,
            ),
            (DownloadPhase::FetchingManifest, DownloadEvent::Failed) | (
                DownloadPhase::FetchingRequestInfo,
                DownloadEvent::Failed,
            ) | (DownloadPhase::FetchingZipTree, DownloadEvent::Failed) => self.fail(
                DownloadError::Manifest,
            ),
            (DownloadPhase::Preparing, DownloadEvent::Succeeded) => (
                DownloadService { phase: DownloadPhase::Transferring, ..self },
                DownloadAction::TransferFiles,
            ),
            (DownloadPhase::Preparing, DownloadEvent::Failed) => self.clean_up(
                DownloadError::Filesystem,
            ),
            (DownloadPhase::Transferring, DownloadEvent::Succeeded) => match self.mode {
                DownloadMode::WithDecompression => (
                    DownloadService { phase: DownloadPhase::Normalizing, ..self },
                    DownloadAction::Normalize,
                ),
                _ => (
                    DownloadService { phase: DownloadPhase::Done, ..self },
                    DownloadAction::Finish,
                ),
            },
            (DownloadPhase::Transferring, DownloadEvent::Failed) => self.clean_up(
                DownloadError::Transfer,
            ),
            (DownloadPhase::Normalizing, DownloadEvent::Succeeded) => (
                DownloadService { phase: DownloadPhase::Done, ..self },
                DownloadAction::Finish,
            ),
            (DownloadPhase::Normalizing, DownloadEvent::Failed) => self.fail(
                DownloadError::Archive,
            ),
            (DownloadPhase::CleaningUp, DownloadEvent::Succeeded) | (
                DownloadPhase::CleaningUp,
                DownloadEvent::Failed,
            ) => (
                DownloadService { phase: DownloadPhase::Failed, ..self },
                DownloadAction::Abort { error: self.error },
            ),
            _ => self.fail(DownloadError::UnexpectedEvent),
        }
    }

    /// The download in the mode `mode` of which nothing was done yet.
    pub open spec fn idle(mode: DownloadMode) -> DownloadService {
        DownloadService { mode, phase: DownloadPhase::Idle, error: DownloadError::UnexpectedEvent }
    }

    /// A download of which nothing was done yet. It leaves the staged files as they are.
    pub fn new() -> (service: Self)
        ensures
            service == Self::idle(DownloadMode::Plain),
    {
        DownloadService {
            mode: DownloadMode::Plain,
            phase: DownloadPhase::Idle,
            error: DownloadError::UnexpectedEvent,
        }
    }

    /// A download in the given mode, of which nothing was done yet.
    pub fn with_mode(mode: DownloadMode) -> (service: Self)
        ensures
            service == Self::idle(mode),
    {
        DownloadService { mode, phase: DownloadPhase::Idle, error: DownloadError::UnexpectedEvent }
    }

    /// A download that leaves the staged files as they are.
    pub fn download() -> (service: Self)
        ensures
            service == Self::idle(DownloadMode::Plain),
    {
        Self::with_mode(DownloadMode::Plain)
    }

    /// A download that normalizes the staged files.
    pub fn download_with_decompression() -> (service: Self)
        ensures
            service == Self::idle(DownloadMode::WithDecompression),
    {
        Self::with_mode(DownloadMode::WithDecompression)
    }

    /// A download of the media assets of a voice or video comic.
    pub fn download_voice_comic() -> (service: Self)
        ensures
            service == Self::idle(DownloadMode::VoiceComic),
    {
        Self::with_mode(DownloadMode::VoiceComic)
    }

    fn do_fail(&mut self, error: DownloadError) -> (action: DownloadAction)
        ensures
            (*final(self), action) == old(self).fail(error),
    {
        self.phase = DownloadPhase::Failed;
        self.error = error;
        DownloadAction::Abort { error }
    }

    fn do_clean_up(&mut self, error: DownloadError) -> (action: DownloadAction)
        ensures
            (*final(self), action) == old(self).clean_up(error),
    {
        self.phase = DownloadPhase::CleaningUp;
        self.error = error;
        DownloadAction::RemoveStaging
    }

    /// Takes one event and says what to do next.
    pub fn step(&mut self, event: DownloadEvent) -> (action: DownloadAction)
        ensures
            (*final(self), action) == old(self).next(event),
    {
        match (self.phase, event) {
            (DownloadPhase::Idle, DownloadEvent::Start) => {
                self.phase = DownloadPhase::ObtainingSession;
                DownloadAction::ObtainSession
            },
            (DownloadPhase::ObtainingSession, DownloadEvent::Succeeded) => match self.mode {
                DownloadMode::VoiceComic => {
                    self.phase = DownloadPhase::FetchingRequestInfo;
                    DownloadAction::FetchRequestInfo
                },
                _ => {
                    self.phase = DownloadPhase::FetchingManifest;
                    DownloadAction::FetchManifest
                },
            },
            (DownloadPhase::ObtainingSession, DownloadEvent::Failed) => self.do_fail(
                DownloadError::Session,
            ),
            (DownloadPhase::FetchingManifest, DownloadEvent::Succeeded) => {
                self.phase = DownloadPhase::Preparing;
                DownloadAction::PrepareStaging
            },
            (DownloadPhase::FetchingRequestInfo, DownloadEvent::Succeeded) => {
                self.phase = DownloadPhase::FetchingZipTree;
                DownloadAction::FetchZipTree
            },
            (DownloadPhase::FetchingZipTree, DownloadEvent::Succeeded) => {
                self.phase = DownloadPhase::Preparing;
                DownloadAction::PrepareStaging
            },
            (DownloadPhase::FetchingManifest, DownloadEvent::Failed) | (
                DownloadPhase::FetchingRequestInfo,
                DownloadEvent::Failed,
            ) | (DownloadPhase::FetchingZipTree, DownloadEvent::Failed) => self.do_fail(
                DownloadError::Manifest,
            ),
            (DownloadPhase::Preparing, DownloadEvent::Succeeded) => {
                self.phase = DownloadPhase::Transferring;
                DownloadAction::TransferFiles
            },
            (DownloadPhase::Preparing, DownloadEvent::Failed) => self.do_clean_up(
                DownloadError::Filesystem,
            ),
            (DownloadPhase::Transferring, DownloadEvent::Succeeded) => match self.mode {
                DownloadMode::WithDecompression => {
                    self.phase = DownloadPhase::Normalizing;
                    DownloadAction::Normalize
                },
                _ => {
                    self.phase = DownloadPhase::Done;
                    DownloadAction::Finish
                },
            },
            (DownloadPhase::Transferring, DownloadEvent::Failed) => self.do_clean_up(
                DownloadError::Transfer,
            ),
            (DownloadPhase::Normalizing, DownloadEvent::Succeeded) => {
                self.phase = DownloadPhase::Done;
                DownloadAction::Finish
            },
            (DownloadPhase::Normalizing, DownloadEvent::Failed) => self.do_fail(
                DownloadError::Archive,
            ),
            (DownloadPhase::CleaningUp, DownloadEvent::Succeeded) | (
                DownloadPhase::CleaningUp,
                DownloadEvent::Failed,
            ) => {
                self.phase = DownloadPhase::Failed;
                DownloadAction::Abort { error: self.error }
            },
            _ => self.do_fail(DownloadError::UnexpectedEvent),
        }
    }
}

/// Why the download service could not do what was asked of it.
#[derive(Clone, Copy, Debug, PartialEq, Eq, Structural)]
pub enum DownloadServiceError {
    /// The download-location store failed.
    DBError,
    /// The file system failed.
    IOError,
    /// A zip archive could not be extracted.
    ZipExtractError,
    /// A multi-volume archive could not be extracted.
    UnrarError,
    /// Anything else: the network, or an answer in an unexpected form.
    AnyError,
    /// No valid session could be had.
    DLsiteServiceError,
}

/// The error of the service that stands for the failure `error` of a download whose
/// files call for the strategy `strategy`.
pub open spec fn service_error_of(error: DownloadError, strategy: ArchiveStrategy) -> DownloadServiceError {
    match error {
        DownloadError::Session => DownloadServiceError::DLsiteServiceError,
        DownloadError::Filesystem => DownloadServiceError::IOError,
        DownloadError::Archive => if strategy == ArchiveStrategy::Zip {
            DownloadServiceError::ZipExtractError
        } else {
            DownloadServiceError::UnrarError
        },
        _ => DownloadServiceError::AnyError,
    }
}

/// Names the failure of a download as an error of the service.
pub fn service_error(error: DownloadError, strategy: ArchiveStrategy) -> (service_error:
    DownloadServiceError)
    ensures
        service_error == service_error_of(error, strategy),
{
    match error {
        DownloadError::Session => DownloadServiceError::DLsiteServiceError,
        DownloadError::Filesystem => DownloadServiceError::IOError,
        DownloadError::Archive => {
            if strategy == ArchiveStrategy::Zip {
                DownloadServiceError::ZipExtractError
            } else {
                DownloadServiceError::UnrarError
            }
        },
        _ => DownloadServiceError::AnyError,
    }
}

/// Whatever the mode, a failure while the staging directory is made or filled removes
/// the staging directory before it is reported, and the report names that failure
/// whether or not the removal succeeds.
pub proof fn law_failed_download_removes_staging(service: DownloadService, removal: DownloadEvent)
    requires
        service.staged(),
        removal == DownloadEvent::Succeeded || removal == DownloadEvent::Failed,
    ensures
        service.next(DownloadEvent::Failed).1 == DownloadAction::RemoveStaging,
        service.next(DownloadEvent::Failed).0.next(removal).1 matches DownloadAction::Abort {
            error,
        } && error == service.next(DownloadEvent::Failed).0.error && (error
            == DownloadError::Filesystem || error == DownloadError::Transfer),
        service.next(DownloadEvent::Failed).0.next(removal).0.phase == DownloadPhase::Failed,
{
}

/// A failed normalization is reported without the removal of anything that was
/// downloaded, and the product's directory is handed out as its location only after
/// every step asked for has succeeded.
pub proof fn law_location_only_after_success(service: DownloadService, event: DownloadEvent)
    ensures
        service.phase == DownloadPhase::Normalizing ==> service.next(DownloadEvent::Failed).1 == (
        DownloadAction::Abort { error: DownloadError::Archive }),
        service.next(event).1 is Finish ==> event == DownloadEvent::Succeeded && (service.phase
            == DownloadPhase::Normalizing || (service.phase == DownloadPhase::Transferring
            && service.mode != DownloadMode::WithDecompression)),
        service.next(event).1 is RemoveStaging ==> service.staged() && event
            == DownloadEvent::Failed,
{
}

} // verus!
