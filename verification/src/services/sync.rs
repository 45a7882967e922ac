//! The catalog sync engine: which accounts have new purchases, which pages of their
//! listings are fetched, and how the stored product count of an account advances page
//! by page.

use vstd::prelude::*;

verus! {

/// The number of purchases on one page of a listing.
pub const PAGE_LIMIT: u32 = 50;

/// The two kinds of synchronization.
#[derive(Clone, Copy, Debug, PartialEq, Eq, Structural)]
pub enum SyncMode {
    /// Fetch only what lies beyond the product count recorded for each account.
    Incremental,
    /// Discard all owned catalog entries and fetch every account from its first page.
    FullRefresh,
}

/// An account as the account store knows it before a sync.
#[derive(Clone, Copy, Debug, PartialEq, Eq, Structural)]
pub struct AccountCheckpoint {
    pub account_id: i64,
    /// The product count recorded for the account.
    pub product_count: u32,
}

/// An account whose listing is walked in this sync.
#[derive(Clone, Copy, Debug, PartialEq, Eq, Structural)]
pub struct SyncAccount {
    pub account_id: i64,
    /// The product count from which the walk starts.
    pub start: u32,
    /// The product count that the remote service reported.
    pub new_product_count: u32,
    /// The product count stored for the account after the latest committed page.
    pub checkpoint: u32,
    /// The catalog entries ingested for the account in this sync.
    pub ingested: u32,
}

/// Where a sync stands.
#[derive(Clone, Copy, Debug, PartialEq, Eq, Structural)]
pub enum SyncPhase {
    /// Nothing was done yet.
    Idle,
    /// The owned catalog entries are being discarded.
    Clearing,
    /// The product count of an account is being fetched.
    Probing,
    /// The total of new items is being reported.
    Announcing,
    /// A page of a listing is being fetched.
    Fetching,
    /// A batch is being stored, and the account's product count with it.
    Committing,
    /// Progress is being reported.
    Reporting,
    /// The sync is complete.
    Done,
    /// The sync was given up.
    Failed,
}

/// What the remote service or the stores report back to a sync.
#[derive(Clone, Copy, Debug, PartialEq, Eq, Structural)]
pub enum SyncEvent {
    /// The sync may begin.
    Start,
    /// The step that was asked for is done.
    Succeeded,
    /// The step that was asked for failed: a transport or format error of the remote
    /// service, or a failure of a store.
    Failed,
    /// The account's session turned out not to be authenticated.
    NotAuthenticated,
    /// The remote service rejected the credentials of the account.
    WrongCredentials,
    /// The remote service counts `count` purchases for the account.
    Counted { count: u32 },
    /// The page that was asked for holds `count` entries.
    PageFetched { count: u32 },
}

/// Why a sync was given up.
#[derive(Clone, Copy, Debug, PartialEq, Eq, Structural)]
pub enum SyncError {
    /// A call to the remote service failed for another reason than authentication.
    Remote,
    /// The remote service rejected the credentials of an account. Nothing is tried
    /// again; the user has to enter them anew.
    InvalidCredentials,
    /// The catalog store could not discard the owned entries.
    Storage,
    /// A count does not fit in 32 bits.
    CountOverflow,
    /// An event arrived that the current phase does not expect.
    UnexpectedEvent,
}

/// What the caller has to do next.
#[derive(Clone, Copy, Debug, PartialEq, Eq, Structural)]
pub enum SyncAction {
    /// Discard all owned catalog entries.
    ClearOwned,
    /// Obtain a session for the account and fetch its product count.
    Probe { account_id: i64 },
    /// Report `progress` of `total` new items.
    Report { progress: u32, total: u32 },
    /// Fetch page `page` of the account's listing.
    FetchPage { account_id: i64, page: u32 },
    /// Upsert the entries of the latest page but its first `skip`, then store
    /// `checkpoint` as the account's product count.
    Commit { account_id: i64, skip: u32, checkpoint: u32 },
    /// The sync is complete.
    Finish,
    /// Report `error`; nothing more is to be done.
    Abort { error: SyncError },
}

/// The state of a sync, as contracts speak of it.
pub struct SyncState {
    pub mode: SyncMode,
    pub phase: SyncPhase,
    /// The accounts to look at, in the store's order.
    pub accounts: Seq<AccountCheckpoint>,
    /// The accounts whose listings are walked, in the order in which they were probed.
    pub plan: Seq<SyncAccount>,
    /// The account being probed, or the planned account being walked.
    pub cursor: int,
    /// The new items ingested so far, over all accounts.
    pub progress: u32,
    /// The new items that the probes promise, over all accounts.
    pub total_progress: u32,
    /// How many entries at the head of the next page are ingested already.
    pub pending_skip: u32,
    /// How many entries the batch being committed holds.
    pub pending_count: u32,
}

/// The page, counted from 1, on which the item after the first `checkpoint` items lies.
pub open spec fn page_of(checkpoint: u32) -> int {
    checkpoint as int / PAGE_LIMIT as int + 1
}

/// How many items at the head of that page are among the first `checkpoint` items.
pub open spec fn ingested_on_page(checkpoint: u32) -> int {
    checkpoint as int % PAGE_LIMIT as int
}

/// The product count from which an account is walked: the recorded one, or zero where
/// everything is fetched anew.
pub open spec fn baseline(mode: SyncMode, account: AccountCheckpoint) -> u32 {
    match mode {
        SyncMode::Incremental => account.product_count,
        SyncMode::FullRefresh => 0,
    }
}

/// How many entries of a page of `count` entries are passed over.
pub open spec fn batch_skip(pending_skip: u32, count: u32) -> u32 {
    if pending_skip < count {
        pending_skip
    } else {
        count
    }
}

/// How many entries of a page of `count` entries are ingested.
pub open spec fn batch_size(pending_skip: u32, count: u32) -> u32 {
    (count - batch_skip(pending_skip, count)) as u32
}

/// The planned account after a committed batch of `count` entries.
pub open spec fn committed(account: SyncAccount, count: u32) -> SyncAccount {
    SyncAccount {
        checkpoint: (account.checkpoint + count) as u32,
        ingested: (account.ingested + count) as u32,
        ..account
    }
}

impl SyncState {
    /// What holds of every state that a sync passes through: a planned account has
    /// more purchases than it started with, its product count is where it started plus
    /// what was ingested, and the cursor names the account at work.
    pub open spec fn wf(self) -> bool {
        &&& 0 <= self.cursor
        &&& forall|k: int|
            0 <= k < self.plan.len() ==> {
                &&& (#[trigger] self.plan[k]).start < self.plan[k].new_product_count
                &&& self.plan[k].checkpoint == self.plan[k].start + self.plan[k].ingested
            }
        &&& (self.phase == SyncPhase::Probing ==> self.cursor < self.accounts.len())
        &&& (self.phase == SyncPhase::Fetching || self.phase == SyncPhase::Committing || self.phase
            == SyncPhase::Reporting ==> self.cursor < self.plan.len())
        &&& (self.phase == SyncPhase::Fetching ==> self.plan[self.cursor].checkpoint
            < self.plan[self.cursor].new_product_count)
        &&& (self.phase == SyncPhase::Committing ==> self.pending_count > 0
            && self.plan[self.cursor].checkpoint + self.pending_count <= u32::MAX)
        &&& forall|k: int|
            0 <= k < self.plan.len() && !(self.walking() && k <= self.cursor)
                ==> (#[trigger] self.plan[k]).ingested == 0
    }

    /// A listing is being walked: the cursor counts planned accounts.
    pub open spec fn walking(self) -> bool {
        self.phase == SyncPhase::Fetching || self.phase == SyncPhase::Committing || self.phase
            == SyncPhase::Reporting || self.phase == SyncPhase::Done || self.phase
            == SyncPhase::Failed
    }

    /// The state after a run of events, one after the other.
    pub open spec fn run(self, events: Seq<SyncEvent>) -> SyncState
        decreases events.len(),
    {
        if events.len() == 0 {
            self
        } else {
            self.next(events[0]).0.run(events.drop_first())
        }
    }

    /// No event of the run asks for a page of a listing or for a commit.
    pub open spec fn fetches_nothing(self, events: Seq<SyncEvent>) -> bool
        decreases events.len(),
    {
        if events.len() == 0 {
            true
        } else {
            let (after, action) = self.next(events[0]);
            !(action is FetchPage) && !(action is Commit) && after.fetches_nothing(
                events.drop_first(),
            )
        }
    }

    /// The state of a sync of which nothing was done yet.
    pub open spec fn initial(mode: SyncMode, accounts: Seq<AccountCheckpoint>) -> SyncState {
        SyncState {
            mode,
            phase: SyncPhase::Idle,
            accounts,
            plan: Seq::<SyncAccount>::empty(),
            cursor: 0,
            progress: 0,
            total_progress: 0,
            pending_skip: 0,
            pending_count: 0,
        }
    }

    /// The state that gives the sync up.
    pub open spec fn fail(self, error: SyncError) -> (SyncState, SyncAction) {
        (SyncState { phase: SyncPhase::Failed, ..self }, SyncAction::Abort { error })
    }

    /// With `cursor` accounts probed: the probe of the next one, or, once all are
    /// probed, the end where nothing is new and else the report of the total.
    pub open spec fn probe_or_announce(self) -> (SyncState, SyncAction) {
        if self.cursor < self.accounts.len() {
            (
                SyncState { phase: SyncPhase::Probing, ..self },
                SyncAction::Probe { account_id: self.accounts[self.cursor].account_id },
            )
        } else if self.total_progress == 0 {
            (SyncState { phase: SyncPhase::Done, ..self }, SyncAction::Finish)
        } else {
            (
                SyncState { phase: SyncPhase::Announcing, ..self },
                SyncAction::Report { progress: self.progress, total: self.total_progress },
            )
        }
    }

    /// The fetch of the page on which the account at the cursor goes on.
    pub open spec fn fetch(self) -> (SyncState, SyncAction) {
        let account = self.plan[self.cursor];
        (
            SyncState { phase: SyncPhase::Fetching, ..self },
            SyncAction::FetchPage {
                account_id: account.account_id,
                page: page_of(account.checkpoint) as u32,
            },
        )
    }

    /// With `cursor` planned accounts walked: the first page of the next one, or the end.
    /// What the first page holds of items counted before the walk is passed over.
    pub open spec fn walk_or_finish(self) -> (SyncState, SyncAction) {
        if 0 <= self.cursor < self.plan.len() && self.plan[self.cursor].checkpoint
            < self.plan[self.cursor].new_product_count {
            (SyncState {
                pending_skip: ingested_on_page(self.plan[self.cursor].checkpoint) as u32,
                ..self
            }).fetch()
        } else if 0 <= self.cursor < self.plan.len() {
            self.fail(SyncError::UnexpectedEvent)
        } else {
            (SyncState { phase: SyncPhase::Done, ..self }, SyncAction::Finish)
        }
    }

    /// The state after `event`, and what it asks of the caller.
    pub open spec fn next(self, event: SyncEvent) -> (SyncState, SyncAction) {
        match (self.phase, event) {
            (SyncPhase::Idle, SyncEvent::Start) => match self.mode {
                SyncMode::FullRefresh => (
                    SyncState { phase: SyncPhase::Clearing, ..self },
                    SyncAction::ClearOwned,
                ),
                SyncMode::Incremental => (SyncState { cursor: 0, ..self }).probe_or_announce(),
            },
            (SyncPhase::Clearing, SyncEvent::Succeeded) => (SyncState { cursor: 0, ..self })
                .probe_or_announce(),
            (SyncPhase::Clearing, SyncEvent::Failed) => self.fail(SyncError::Storage),
            (SyncPhase::Probing, SyncEvent::Counted { count }) => if 0 <= self.cursor
                < self.accounts.len() {
                let account = self.accounts[self.cursor];
                let start = baseline(self.mode, account);
                if count <= start {
                    (SyncState { cursor: self.cursor + 1, ..self }).probe_or_announce()
                } else if self.total_progress + (count - start) > u32::MAX {
                    self.fail(SyncError::CountOverflow)
                } else {
                    (SyncState {
                        plan: self.plan.push(
                            SyncAccount {
                                account_id: account.account_id,
                                start,
                                new_product_count: count,
                                checkpoint: start,
                                ingested: 0,
                            },
                        ),
                        total_progress: (self.total_progress + (count - start)) as u32,
                        cursor: self.cursor + 1,
                        ..self
                    }).probe_or_announce()
                }
            } else {
                self.fail(SyncError::UnexpectedEvent)
            },
            (SyncPhase::Probing, SyncEvent::NotAuthenticated) => if 0 <= self.cursor
                < self.accounts.len() {
                (SyncState { cursor: self.cursor + 1, ..self }).probe_or_announce()
            } else {
                self.fail(SyncError::UnexpectedEvent)
            },
            (SyncPhase::Probing, SyncEvent::Failed) => self.fail(SyncError::Remote),
            (SyncPhase::Probing, SyncEvent::WrongCredentials) => self.fail(
                SyncError::InvalidCredentials,
            ),
            (SyncPhase::Announcing, SyncEvent::Succeeded) => (SyncState { cursor: 0, ..self })
                .walk_or_finish(),
            (SyncPhase::Fetching, SyncEvent::PageFetched { count }) => if 0 <= self.cursor
                < self.plan.len() {
                let account = self.plan[self.cursor];
                let skip = batch_skip(self.pending_skip, count);
                let size = batch_size(self.pending_skip, count);
                if size == 0 {
                    (SyncState { cursor: self.cursor + 1, ..self }).walk_or_finish()
                } else if account.checkpoint + size > u32::MAX || account.ingested + size
                    > u32::MAX {
                    self.fail(SyncError::CountOverflow)
                } else {
                    (
                        SyncState {
                            phase: SyncPhase::Committing,
                            pending_skip: skip,
                            pending_count: size,
                            ..self
                        },
                        SyncAction::Commit {
                            account_id: account.account_id,
                            skip,
                            checkpoint: (account.checkpoint + size) as u32,
                        },
                    )
                }
            } else {
                self.fail(SyncError::UnexpectedEvent)
            },
            (SyncPhase::Fetching, SyncEvent::NotAuthenticated) => if 0 <= self.cursor
                < self.plan.len() {
                (SyncState { cursor: self.cursor + 1, ..self }).walk_or_finish()
            } else {
                self.fail(SyncError::UnexpectedEvent)
            },
            (SyncPhase::Fetching, SyncEvent::Failed) => self.fail(SyncError::Remote),
            (SyncPhase::Committing, SyncEvent::Succeeded) => if 0 <= self.cursor < self.plan.len()
                && self.plan[self.cursor].checkpoint + self.pending_count <= u32::MAX
                && self.plan[self.cursor].ingested + self.pending_count <= u32::MAX {
                if self.progress + self.pending_count > u32::MAX {
                    self.fail(SyncError::CountOverflow)
                } else {
                    (
                        SyncState {
                            phase: SyncPhase::Reporting,
                            plan: self.plan.update(
                                self.cursor,
                                committed(self.plan[self.cursor], self.pending_count),
                            ),
                            progress: (self.progress + self.pending_count) as u32,
                            pending_skip: 0,
                            pending_count: 0,
                            ..self
                        },
                        SyncAction::Report {
                            progress: (self.progress + self.pending_count) as u32,
                            total: self.total_progress,
                        },
                    )
                }
            } else {
                self.fail(SyncError::UnexpectedEvent)
            },
            (SyncPhase::Committing, SyncEvent::Failed) => if 0 <= self.cursor < self.plan.len() {
                (SyncState { cursor: self.cursor + 1, pending_count: 0, ..self }).walk_or_finish()
            } else {
                self.fail(SyncError::UnexpectedEvent)
            },
            (SyncPhase::Reporting, SyncEvent::Succeeded) => if 0 <= self.cursor < self.plan.len() {
                if self.plan[self.cursor].checkpoint < self.plan[self.cursor].new_product_count {
                    self.fetch()
                } else {
                    (SyncState { cursor: self.cursor + 1, ..self }).walk_or_finish()
                }
            } else {
                self.fail(SyncError::UnexpectedEvent)
            },
            _ => self.fail(SyncError::UnexpectedEvent),
        }
    }
}

/// A sync over the accounts of the account store.
#[derive(Clone, Debug)]
pub struct SyncEngine {
    pub mode: SyncMode,
    pub phase: SyncPhase,
    pub accounts: Vec<AccountCheckpoint>,
    pub plan: Vec<SyncAccount>,
    pub cursor: usize,
    pub progress: u32,
    pub total_progress: u32,
    pub pending_skip: u32,
    pub pending_count: u32,
}

impl View for SyncEngine {
    type V = SyncState;

    open spec fn view(&self) -> SyncState {
        SyncState {
            mode: self.mode,
            phase: self.phase,
            accounts: self.accounts@,
            plan: self.plan@,
            cursor: self.cursor as int,
            progress: self.progress,
            total_progress: self.total_progress,
            pending_skip: self.pending_skip,
            pending_count: self.pending_count,
        }
    }
}

impl SyncEngine {
    /// A sync of the given kind over `accounts`, of which nothing was done yet.
    pub fn new(mode: SyncMode, accounts: Vec<AccountCheckpoint>) -> (engine: Self)
        ensures
            engine@ == SyncState::initial(mode, accounts@),
            engine@.wf(),
    {
        SyncEngine {
            mode,
            phase: SyncPhase::Idle,
            accounts,
            plan: Vec::new(),
            cursor: 0,
            progress: 0,
            total_progress: 0,
            pending_skip: 0,
            pending_count: 0,
        }
    }

    fn do_fail(&mut self, error: SyncError) -> (action: SyncAction)
        ensures
            (final(self)@, action) == old(self)@.fail(error),
    {
        self.phase = SyncPhase::Failed;
        SyncAction::Abort { error }
    }

    fn do_probe_or_announce(&mut self) -> (action: SyncAction)
        ensures
            (final(self)@, action) == old(self)@.probe_or_announce(),
    {
        if self.cursor < self.accounts.len() {
            self.phase = SyncPhase::Probing;
            SyncAction::Probe { account_id: self.accounts[self.cursor].account_id }
        } else if self.total_progress == 0 {
            self.phase = SyncPhase::Done;
            SyncAction::Finish
        } else {
            self.phase = SyncPhase::Announcing;
            SyncAction::Report { progress: self.progress, total: self.total_progress }
        }
    }

    fn do_fetch(&mut self) -> (action: SyncAction)
        requires
            old(self).cursor < old(self).plan@.len(),
        ensures
            (final(self)@, action) == old(self)@.fetch(),
    {
        let account = self.plan[self.cursor];
        self.phase = SyncPhase::Fetching;
        SyncAction::FetchPage {
            account_id: account.account_id,
            page: account.checkpoint / PAGE_LIMIT + 1,
        }
    }

    fn do_walk_or_finish(&mut self) -> (action: SyncAction)
        ensures
            (final(self)@, action) == old(self)@.walk_or_finish(),
    {
        if self.cursor < self.plan.len() {
            let account = self.plan[self.cursor];
            if account.checkpoint < account.new_product_count {
                self.pending_skip = account.checkpoint % PAGE_LIMIT;
                self.do_fetch()
            } else {
                self.do_fail(SyncError::UnexpectedEvent)
            }
        } else {
            self.phase = SyncPhase::Done;
            SyncAction::Finish
        }
    }

    /// Takes one event and says what to do next.
    pub fn step(&mut self, event: SyncEvent) -> (action: SyncAction)
        ensures
            (final(self)@, action) == old(self)@.next(event),
    {
        match (self.phase, event) {
            (SyncPhase::Idle, SyncEvent::Start) => match self.mode {
                SyncMode::FullRefresh => {
                    self.phase = SyncPhase::Clearing;
                    SyncAction::ClearOwned
                },
                SyncMode::Incremental => {
                    self.cursor = 0;
                    self.do_probe_or_announce()
                },
            },
            (SyncPhase::Clearing, SyncEvent::Succeeded) => {
                self.cursor = 0;
                self.do_probe_or_announce()
            },
            (SyncPhase::Clearing, SyncEvent::Failed) => self.do_fail(SyncError::Storage),
            (SyncPhase::Probing, SyncEvent::Counted { count }) => {
                if self.cursor < self.accounts.len() {
                    let account = self.accounts[self.cursor];
                    let start = match self.mode {
                        SyncMode::Incremental => account.product_count,
                        SyncMode::FullRefresh => 0,
                    };
                    if count <= start {
                        self.cursor = self.cursor + 1;
                        self.do_probe_or_announce()
                    } else if count - start > u32::MAX - self.total_progress {
                        self.do_fail(SyncError::CountOverflow)
                    } else {
                        self.plan.push(
                            SyncAccount {
                                account_id: account.account_id,
                                start,
                                new_product_count: count,
                                checkpoint: start,
                                ingested: 0,
                            },
                        );
                        self.total_progress = self.total_progress + (count - start);
                        self.cursor = self.cursor + 1;
                        self.do_probe_or_announce()
                    }
                } else {
                    self.do_fail(SyncError::UnexpectedEvent)
                }
            },
            (SyncPhase::Probing, SyncEvent::NotAuthenticated) => {
                if self.cursor < self.accounts.len() {
                    self.cursor = self.cursor + 1;
                    self.do_probe_or_announce()
                } else {
                    self.do_fail(SyncError::UnexpectedEvent)
                }
            },
            (SyncPhase::Probing, SyncEvent::Failed) => self.do_fail(SyncError::Remote),
            (SyncPhase::Probing, SyncEvent::WrongCredentials) => self.do_fail(
                SyncError::InvalidCredentials,
            ),
            (SyncPhase::Announcing, SyncEvent::Succeeded) => {
                self.cursor = 0;
                self.do_walk_or_finish()
            },
            (SyncPhase::Fetching, SyncEvent::PageFetched { count }) => {
                if self.cursor < self.plan.len() {
                    let account = self.plan[self.cursor];
                    let skip = if self.pending_skip < count {
                        self.pending_skip
                    } else {
                        count
                    };
                    let size = count - skip;
                    if size == 0 {
                        self.cursor = self.cursor + 1;
                        self.do_walk_or_finish()
                    } else if size > u32::MAX - account.checkpoint || size > u32::MAX
                        - account.ingested {
                        self.do_fail(SyncError::CountOverflow)
                    } else {
                        self.phase = SyncPhase::Committing;
                        self.pending_skip = skip;
                        self.pending_count = size;
                        SyncAction::Commit {
                            account_id: account.account_id,
                            skip,
                            checkpoint: account.checkpoint + size,
                        }
                    }
                } else {
                    self.do_fail(SyncError::UnexpectedEvent)
                }
            },
            (SyncPhase::Fetching, SyncEvent::NotAuthenticated) => {
                if self.cursor < self.plan.len() {
                    self.cursor = self.cursor + 1;
                    self.do_walk_or_finish()
                } else {
                    self.do_fail(SyncError::UnexpectedEvent)
                }
            },
            (SyncPhase::Fetching, SyncEvent::Failed) => self.do_fail(SyncError::Remote),
            (SyncPhase::Committing, SyncEvent::Succeeded) => {
                if self.cursor < self.plan.len() && self.pending_count <= u32::MAX
                    - self.plan[self.cursor].checkpoint && self.pending_count <= u32::MAX
                    - self.plan[self.cursor].ingested {
                    if self.pending_count > u32::MAX - self.progress {
                        self.do_fail(SyncError::CountOverflow)
                    } else {
                        let account = self.plan[self.cursor];
                        self.plan.set(
                            self.cursor,
                            SyncAccount {
                                account_id: account.account_id,
                                start: account.start,
                                new_product_count: account.new_product_count,
                                checkpoint: account.checkpoint + self.pending_count,
                                ingested: account.ingested + self.pending_count,
                            },
                        );
                        self.progress = self.progress + self.pending_count;
                        self.phase = SyncPhase::Reporting;
                        self.pending_skip = 0;
                        self.pending_count = 0;
                        SyncAction::Report { progress: self.progress, total: self.total_progress }
                    }
                } else {
                    self.do_fail(SyncError::UnexpectedEvent)
                }
            },
            (SyncPhase::Committing, SyncEvent::Failed) => {
                if self.cursor < self.plan.len() {
                    self.cursor = self.cursor + 1;
                    self.pending_count = 0;
                    self.do_walk_or_finish()
                } else {
                    self.do_fail(SyncError::UnexpectedEvent)
                }
            },
            (SyncPhase::Reporting, SyncEvent::Succeeded) => {
                if self.cursor < self.plan.len() {
                    if self.plan[self.cursor].checkpoint
                        < self.plan[self.cursor].new_product_count {
                        self.do_fetch()
                    } else {
                        self.cursor = self.cursor + 1;
                        self.do_walk_or_finish()
                    }
                } else {
                    self.do_fail(SyncError::UnexpectedEvent)
                }
            },
            _ => self.do_fail(SyncError::UnexpectedEvent),
        }
    }
}

/// Every step keeps the invariant of a sync.
pub proof fn law_step_keeps_invariant(state: SyncState, event: SyncEvent)
    requires
        state.wf(),
    ensures
        state.next(event).0.wf(),
{
    let after = state.next(event).0;
    match (state.phase, event) {
        (SyncPhase::Probing, SyncEvent::Counted { count }) => {
            assert forall|k: int| 0 <= k < after.plan.len() implies (#[trigger] after.plan[k]).start
                < after.plan[k].new_product_count && after.plan[k].checkpoint == after.plan[k].start
                + after.plan[k].ingested && after.plan[k].ingested == 0 by {
                if k < state.plan.len() {
                    assert(after.plan[k] == state.plan[k]);
                }
            }
        },
        (SyncPhase::Committing, SyncEvent::Succeeded) => {
            assert forall|k: int| 0 <= k < after.plan.len() implies (#[trigger] after.plan[k]).start
                < after.plan[k].new_product_count && after.plan[k].checkpoint == after.plan[k].start
                + after.plan[k].ingested by {
                if k != state.cursor {
                    assert(after.plan[k] == state.plan[k]);
                }
            }
        },
        _ => {},
    }
}

/// An account whose fresh product count is not above the recorded one is not planned:
/// an incremental sync goes on to the next account and never asks for a page of its
/// listing.
pub proof fn law_unchanged_account_is_not_planned(state: SyncState, count: u32)
    requires
        state.wf(),
        state.mode == SyncMode::Incremental,
        state.phase == SyncPhase::Probing,
        count <= state.accounts[state.cursor].product_count,
    ensures
        state.next(SyncEvent::Counted { count }).0.plan == state.plan,
        state.next(SyncEvent::Counted { count }).0.total_progress == state.total_progress,
        !(state.next(SyncEvent::Counted { count }).1 is Commit),
        state.next(SyncEvent::Counted { count }).1 matches SyncAction::FetchPage { account_id, page }
            ==> false,
{
}

/// A page is only ever asked for on behalf of a planned account, one that the remote
/// service counted above the product count it started from, and it is the page on which
/// the first item beyond the account's checkpoint lies.
pub proof fn law_pages_only_for_planned_accounts(state: SyncState, event: SyncEvent)
    requires
        state.wf(),
    ensures
        state.next(event).1 matches SyncAction::FetchPage { account_id, page } ==> {
            let after = state.next(event).0;
            &&& 0 <= after.cursor < after.plan.len()
            &&& after.plan[after.cursor].account_id == account_id
            &&& after.plan[after.cursor].start <= after.plan[after.cursor].checkpoint
                < after.plan[after.cursor].new_product_count
            &&& page == page_of(after.plan[after.cursor].checkpoint)
        },
        state.plan.len() <= state.next(event).0.plan.len(),
        forall|k: int|
            0 <= k < state.plan.len() ==> {
                &&& (#[trigger] state.next(event).0.plan[k]).account_id == state.plan[k].account_id
                &&& state.next(event).0.plan[k].start == state.plan[k].start
                &&& state.next(event).0.plan[k].new_product_count
                    == state.plan[k].new_product_count
            },
        state.plan.len() < state.next(event).0.plan.len() ==> {
            &&& state.phase == SyncPhase::Probing
            &&& event matches SyncEvent::Counted { count }
            &&& count > baseline(state.mode, state.accounts[state.cursor])
            &&& state.next(event).0.plan == state.plan.push(
                SyncAccount {
                    account_id: state.accounts[state.cursor].account_id,
                    start: baseline(state.mode, state.accounts[state.cursor]),
                    new_product_count: count,
                    checkpoint: baseline(state.mode, state.accounts[state.cursor]),
                    ingested: 0,
                },
            )
        },
{
    law_step_keeps_invariant(state, event);
}

/// The product count stored for an account is the count it started from plus the
/// entries ingested for it, after every step; a commit stores the checkpoint before it
/// plus the entries of the batch; and no step ever lowers a checkpoint.
pub proof fn law_checkpoint_counts_ingested(state: SyncState, event: SyncEvent)
    requires
        state.wf(),
    ensures
        forall|k: int|
            0 <= k < state.next(event).0.plan.len() ==> (#[trigger] state.next(
                event,
            ).0.plan[k]).checkpoint == state.next(event).0.plan[k].start + state.next(
                event,
            ).0.plan[k].ingested,
        forall|k: int|
            0 <= k < state.plan.len() ==> (#[trigger] state.next(event).0.plan[k]).checkpoint
                >= state.plan[k].checkpoint,
        state.next(event).1 matches SyncAction::Commit { account_id, skip, checkpoint } ==> {
            &&& event matches SyncEvent::PageFetched { count }
            &&& skip == batch_skip(state.pending_skip, count)
            &&& checkpoint == state.plan[state.cursor].checkpoint + (count - skip)
            &&& checkpoint > state.plan[state.cursor].checkpoint
            &&& account_id == state.plan[state.cursor].account_id
        },
        state.phase == SyncPhase::Committing && event == SyncEvent::Succeeded ==> state.next(
            event,
        ).0.plan[state.cursor] == committed(state.plan[state.cursor], state.pending_count)
            || state.next(event).0.phase == SyncPhase::Failed,
        state.phase == SyncPhase::Committing && event == SyncEvent::Failed ==> state.next(
            event,
        ).0.plan == state.plan,
{
    law_step_keeps_invariant(state, event);
    let after = state.next(event).0;
    assert forall|k: int| 0 <= k < state.plan.len() implies (#[trigger] after.plan[k]).checkpoint
        >= state.plan[k].checkpoint by {
        if state.phase == SyncPhase::Committing && event == SyncEvent::Succeeded && k
            == state.cursor {
        } else {
            assert(after.plan[k] == state.plan[k]);
        }
    }
}

/// The events of a probe of every account from `from` on, where the remote service
/// counts `counts[i]` purchases for account `i`.
pub open spec fn counted(counts: Seq<u32>, from: int) -> Seq<SyncEvent> {
    Seq::new((counts.len() - from) as nat, |i: int| SyncEvent::Counted { count: counts[from + i] })
}

/// No count is above the product count recorded for its account.
pub open spec fn nothing_new(accounts: Seq<AccountCheckpoint>, counts: Seq<u32>) -> bool {
    &&& counts.len() == accounts.len()
    &&& forall|i: int| 0 <= i < accounts.len() ==> counts[i] <= (#[trigger] accounts[i]).product_count
}

/// An incremental sync in which no account has grown ends after the probes: it plans
/// no account, fetches no page, commits nothing and ingests nothing.
pub proof fn law_no_growth_ingests_nothing(accounts: Seq<AccountCheckpoint>, counts: Seq<u32>)
    requires
        nothing_new(accounts, counts),
    ensures
        ({
            let begun = SyncState::initial(SyncMode::Incremental, accounts).next(SyncEvent::Start);
            let ended = begun.0.run(counted(counts, 0));
            &&& !(begun.1 is FetchPage) && !(begun.1 is Commit)
            &&& begun.0.fetches_nothing(counted(counts, 0))
            &&& ended.phase == SyncPhase::Done
            &&& ended.plan.len() == 0
            &&& ended.progress == 0
        }),
{
    let begun = SyncState::initial(SyncMode::Incremental, accounts).next(SyncEvent::Start);
    if accounts.len() > 0 {
        lemma_probes_without_growth(begun.0, counts);
    } else {
        assert(counted(counts, 0).len() == 0);
    }
}

/// From any account on, probes that find no growth plan nothing and end the sync.
pub proof fn lemma_probes_without_growth(state: SyncState, counts: Seq<u32>)
    requires
        state.mode == SyncMode::Incremental,
        state.phase == SyncPhase::Probing,
        0 <= state.cursor < state.accounts.len(),
        state.plan.len() == 0,
        state.total_progress == 0,
        state.progress == 0,
        nothing_new(state.accounts, counts),
    ensures
        state.fetches_nothing(counted(counts, state.cursor)),
        state.run(counted(counts, state.cursor)).phase == SyncPhase::Done,
        state.run(counted(counts, state.cursor)).plan.len() == 0,
        state.run(counted(counts, state.cursor)).progress == 0,
    decreases state.accounts.len() - state.cursor,
{
    let events = counted(counts, state.cursor);
    let rest = events.drop_first();
    assert(events.len() > 0);
    assert(events[0] == SyncEvent::Counted { count: counts[state.cursor] });
    assert(counts[state.cursor] <= state.accounts[state.cursor].product_count);
    let (after, action) = state.next(events[0]);
    assert(rest =~= counted(counts, state.cursor + 1));
    assert(state.run(events) == after.run(rest));
    assert(state.fetches_nothing(events) == (!(action is FetchPage) && !(action is Commit)
        && after.fetches_nothing(rest)));
    if state.cursor + 1 < state.accounts.len() {
        lemma_probes_without_growth(after, counts);
    } else {
        assert(rest.len() == 0);
        assert(after.run(rest) == after);
        assert(after.fetches_nothing(rest));
    }
}

/// How many entries page `page` of a listing of `total` entries holds.
pub open spec fn listing_page_len(total: u32, page: int) -> u32 {
    let before = (page - 1) * PAGE_LIMIT;
    if total <= before {
        0
    } else if total - before >= PAGE_LIMIT {
        PAGE_LIMIT
    } else {
        (total - before) as u32
    }
}

/// The planned account after its listing was walked to the end against a remote service
/// that lists exactly the purchases it counted, every commit succeeding: page after
/// page, the first `skip` entries of the first page passed over.
pub open spec fn walked(account: SyncAccount, skip: u32) -> SyncAccount
    decreases
        (if account.checkpoint < account.new_product_count {
            account.new_product_count - account.checkpoint
        } else {
            0
        }),
{
    if account.checkpoint >= account.new_product_count {
        account
    } else {
        let count = listing_page_len(account.new_product_count, page_of(account.checkpoint));
        let size = batch_size(skip, count);
        if size == 0 || account.checkpoint + size > u32::MAX || account.ingested + size
            > u32::MAX {
            account
        } else {
            walked(committed(account, size), 0)
        }
    }
}

/// A walk against a remote service that lists what it counted ends with the account's
/// product count equal to the remote count, having ingested exactly what was missing.
/// The sync that follows finds the counts unchanged.
pub proof fn law_walk_reaches_remote_count(account: SyncAccount, skip: u32)
    requires
        account.checkpoint == account.start + account.ingested,
        account.checkpoint <= account.new_product_count,
        account.checkpoint < account.new_product_count ==> skip == ingested_on_page(
            account.checkpoint,
        ),
    ensures
        walked(account, skip).checkpoint == account.new_product_count,
        walked(account, skip).ingested == account.new_product_count - account.start,
        walked(account, skip).start == account.start,
    decreases account.new_product_count - account.checkpoint,
{
    if account.checkpoint < account.new_product_count {
        let count = listing_page_len(account.new_product_count, page_of(account.checkpoint));
        let size = batch_size(skip, count);
        let c = account.checkpoint as int;
        let n = account.new_product_count as int;
        assert(size > 0 && c + size <= n && (c + size < n ==> (c + size) % 50 == 0)) by {
            assert(c == 50 * (c / 50) + c % 50);
            assert(0 <= c % 50 < 50);
        }
        law_walk_reaches_remote_count(committed(account, size), 0);
    }
}

/// The product count recorded for an account after a full refresh against a remote
/// service that counts `count` purchases for it and lists exactly those: the count that
/// the walk from zero reaches, or, where the remote service counts nothing, the count
/// recorded before, which the refresh leaves alone.
pub open spec fn refreshed(account: AccountCheckpoint, count: u32) -> AccountCheckpoint {
    if count > 0 {
        AccountCheckpoint {
            account_id: account.account_id,
            product_count: walked(
                SyncAccount {
                    account_id: account.account_id,
                    start: 0,
                    new_product_count: count,
                    checkpoint: 0,
                    ingested: 0,
                },
                0,
            ).checkpoint,
        }
    } else {
        account
    }
}

/// Round trip: after a full refresh, an incremental sync against the same remote counts
/// plans no account, fetches no page and ingests no entry.
pub proof fn law_refresh_then_update_ingests_nothing(
    accounts: Seq<AccountCheckpoint>,
    counts: Seq<u32>,
)
    requires
        counts.len() == accounts.len(),
    ensures
        ({
            let stored = Seq::new(accounts.len(), |k: int| refreshed(accounts[k], counts[k]));
            let begun = SyncState::initial(SyncMode::Incremental, stored).next(SyncEvent::Start);
            let ended = begun.0.run(counted(counts, 0));
            &&& !(begun.1 is FetchPage) && !(begun.1 is Commit)
            &&& begun.0.fetches_nothing(counted(counts, 0))
            &&& ended.phase == SyncPhase::Done
            &&& ended.plan.len() == 0
            &&& ended.progress == 0
        }),
{
    let stored = Seq::new(accounts.len(), |k: int| refreshed(accounts[k], counts[k]));
    assert forall|i: int| 0 <= i < stored.len() implies counts[i] <= (#[trigger] stored[i]).product_count by {
        if counts[i] > 0 {
            law_walk_reaches_remote_count(
                SyncAccount {
                    account_id: accounts[i].account_id,
                    start: 0,
                    new_product_count: counts[i],
                    checkpoint: 0,
                    ingested: 0,
                },
                0,
            );
        }
    }
    law_no_growth_ingests_nothing(stored, counts);
}

/// One page of a walk: a fetched page of `count` entries whose commit and report succeed
/// leaves the account as the commit of the batch leaves it, and the sync then asks for
/// the page after the new checkpoint, or leaves the account when its count is reached.
pub proof fn law_page_cycle(state: SyncState, count: u32)
    requires
        state.wf(),
        state.phase == SyncPhase::Fetching,
        batch_size(state.pending_skip, count) > 0,
        state.plan[state.cursor].checkpoint + batch_size(state.pending_skip, count) <= u32::MAX,
        state.progress + batch_size(state.pending_skip, count) <= u32::MAX,
    ensures
        ({
            let size = batch_size(state.pending_skip, count);
            let fetched = state.next(SyncEvent::PageFetched { count });
            let stored = fetched.0.next(SyncEvent::Succeeded);
            let reported = stored.0.next(SyncEvent::Succeeded);
            let account = committed(state.plan[state.cursor], size);
            &&& fetched.1 == (SyncAction::Commit {
                account_id: account.account_id,
                skip: batch_skip(state.pending_skip, count),
                checkpoint: account.checkpoint,
            })
            &&& stored.1 == (SyncAction::Report {
                progress: (state.progress + size) as u32,
                total: state.total_progress,
            })
            &&& stored.0.plan == state.plan.update(state.cursor, account)
            &&& account.checkpoint < account.new_product_count ==> reported.1 == (
            SyncAction::FetchPage {
                account_id: account.account_id,
                page: page_of(account.checkpoint) as u32,
            }) && reported.0.pending_skip == 0 && reported.0.cursor == state.cursor
            &&& account.checkpoint >= account.new_product_count ==> reported.0.cursor
                == state.cursor + 1 || reported.0.phase == SyncPhase::Done
        }),
{
    let size = batch_size(state.pending_skip, count);
    let fetched = state.next(SyncEvent::PageFetched { count });
    law_step_keeps_invariant(state, SyncEvent::PageFetched { count });
    let stored = fetched.0.next(SyncEvent::Succeeded);
    law_step_keeps_invariant(fetched.0, SyncEvent::Succeeded);
}

} // verus!
