//! The credential and session manager: how the answers of the remote service are read
//! as signals of authentication, and the order of the steps that lead to a valid
//! session for an account.

use crate::text::{contains, str_contains};
use vstd::prelude::*;

verus! {

/// The sentence with which the login page answers wrong credentials. The remote service
/// answers every login with status 200, so this sentence is the only sign of failure.
pub open spec fn login_failure_phrase() -> Seq<char> {
    "ログインIDかパスワードが間違っています。"@
}

/// Why a login did not yield a session, wrong credentials apart.
#[derive(Clone, Copy, Debug, PartialEq, Eq, Structural)]
pub enum LoginFailure {
    /// A request failed on the network or was answered with an error.
    Transport,
    /// The warm-up requests left no anti-forgery cookie behind.
    AntiForgeryCookieMissing,
}

/// Why a login did not yield a session.
#[derive(Clone, Copy, Debug, PartialEq, Eq, Structural)]
pub enum LoginError {
    /// The remote service rejected the username or the password. Trying again with the
    /// same credentials is pointless.
    WrongCredentials,
    /// Anything else.
    Other(LoginFailure),
}

/// Reads the body of the answer to a login: wrong credentials if and only if the body
/// holds the failure phrase.
pub fn login(body: &str) -> (outcome: Result<(), LoginError>)
    ensures
        outcome == if contains(body@, login_failure_phrase()) {
            Err::<(), LoginError>(LoginError::WrongCredentials)
        } else {
            Ok::<(), LoginError>(())
        },
{
    if str_contains(body, "ログインIDかパスワードが間違っています。") {
        Err(LoginError::WrongCredentials)
    } else {
        Ok(())
    }
}

/// The body of the answer to the session probe shows a live session: it mentions neither
/// `status` nor `401`.
pub open spec fn probe_shows_live_session(body: Seq<char>) -> bool {
    !contains(body, "status"@) && !contains(body, "401"@)
}

/// Reads the body of the answer to the session probe.
pub fn test_cookie_store(body: &str) -> (live: bool)
    ensures
        live == probe_shows_live_session(body@),
{
    !str_contains(body, "status") && !str_contains(body, "401")
}

/// What the answer to the product count call held.
#[derive(Clone, Copy, Debug, PartialEq, Eq, Structural)]
pub enum ProductCountResponse {
    /// The body was no map of counts.
    Unreadable,
    /// The body was a map of counts; `user` is the count under the key `user`, if the
    /// map has that key.
    Counts { user: Option<u32> },
}

/// Why the product count call gave no count.
#[derive(Clone, Copy, Debug, PartialEq, Eq, Structural)]
pub enum ProductCountError {
    /// The session is not authenticated: a fresh login is called for.
    NotAuthenticated,
    /// The map of counts has no count for the user.
    UserCountMissing,
}

/// Reads the answer to the product count call. A body that is no map of counts means
/// that the session is not authenticated, which is another thing than wrong
/// credentials.
pub fn get_product_count(response: ProductCountResponse) -> (outcome: Result<
    u32,
    ProductCountError,
>)
    ensures
        outcome == match response {
            ProductCountResponse::Unreadable => Err::<u32, ProductCountError>(
                ProductCountError::NotAuthenticated,
            ),
            ProductCountResponse::Counts { user: None } => Err::<u32, ProductCountError>(
                ProductCountError::UserCountMissing,
            ),
            ProductCountResponse::Counts { user: Some(count) } => Ok::<u32, ProductCountError>(
                count,
            ),
        },
{
    match response {
        ProductCountResponse::Unreadable => Err(ProductCountError::NotAuthenticated),
        ProductCountResponse::Counts { user: None } => Err(ProductCountError::UserCountMissing),
        ProductCountResponse::Counts { user: Some(count) } => Ok(count),
    }
}

/// What a test of fresh credentials finds: the number of purchases where the answer to
/// the product count call is a map of counts, nothing being counted where the map has
/// no count for the user; `None` where the answer is no such map, which shows that the
/// login has failed.
pub fn test_account(response: ProductCountResponse) -> (count: Option<u32>)
    ensures
        count == match response {
            ProductCountResponse::Unreadable => None::<u32>,
            ProductCountResponse::Counts { user: None } => Some(0u32),
            ProductCountResponse::Counts { user: Some(count) } => Some(count),
        },
{
    match response {
        ProductCountResponse::Unreadable => None,
        ProductCountResponse::Counts { user: None } => Some(0),
        ProductCountResponse::Counts { user: Some(count) } => Some(count),
    }
}

/// What follows the product count call of a sync.
#[derive(Clone, Copy, Debug, PartialEq, Eq, Structural)]
pub enum CountOutcome {
    /// The account has `count` purchases.
    Counted { count: u32 },
    /// The stored session has gone stale: log in anew and ask again.
    Renew,
    /// Even a fresh login is not authenticated: the account is passed over.
    NotAuthenticated,
    /// The answer has an unexpected form.
    Failed,
}

/// Decides what follows a product count call. `fresh` says that the session comes from
/// a login made for this call. An answer that shows the session not authenticated calls
/// for one fresh login, and for no second one.
pub fn after_product_count(outcome: Result<u32, ProductCountError>, fresh: bool) -> (next:
    CountOutcome)
    ensures
        next == match outcome {
            Ok(count) => CountOutcome::Counted { count },
            Err(ProductCountError::NotAuthenticated) => if fresh {
                CountOutcome::NotAuthenticated
            } else {
                CountOutcome::Renew
            },
            Err(ProductCountError::UserCountMissing) => CountOutcome::Failed,
        },
{
    match outcome {
        Ok(count) => CountOutcome::Counted { count },
        Err(ProductCountError::NotAuthenticated) => {
            if fresh {
                CountOutcome::NotAuthenticated
            } else {
                CountOutcome::Renew
            }
        },
        Err(ProductCountError::UserCountMissing) => CountOutcome::Failed,
    }
}

/// Where the search for a valid session stands.
#[derive(Clone, Copy, Debug, PartialEq, Eq, Structural)]
pub enum SessionPhase {
    /// Nothing was done yet.
    Idle,
    /// The account is being read from the account store.
    Loading,
    /// The stored session blob is being turned back into a cookie jar.
    Restoring,
    /// The restored session is being probed with an authenticated call.
    Probing,
    /// The warm-up requests that seed the anti-forgery cookie are out.
    WarmingUp,
    /// The anti-forgery token is being read from the cookie jar.
    ReadingToken,
    /// The credentials were submitted.
    Authenticating,
    /// The new session is being written back to the account.
    Persisting,
    /// A valid session is at hand.
    Ready,
    /// No session could be had.
    Failed,
}

/// What the account store or the remote service reports back.
#[derive(Clone, Copy, Debug, PartialEq, Eq, Structural)]
pub enum SessionEvent {
    /// The search may begin.
    Start,
    /// The step that was asked for is done.
    Succeeded,
    /// The step that was asked for failed: the store, or the network.
    Failed,
    /// The account store has no account of that id.
    AccountMissing,
    /// The stored blob is no cookie jar.
    BlobRejected,
    /// The probe was answered; `live` says whether the answer shows a live session.
    Probed { live: bool },
    /// The cookie jar holds no anti-forgery token.
    TokenMissing,
    /// The login was answered; `wrong_credentials` says whether the answer holds the
    /// failure phrase.
    LoginAnswered { wrong_credentials: bool },
}

/// Why no session could be had.
#[derive(Clone, Copy, Debug, PartialEq, Eq, Structural)]
pub enum SessionError {
    /// The account store has no account of that id.
    InvalidAccountId,
    /// The remote service rejected the credentials of the account.
    InvalidCredentials,
    /// The account store failed.
    Storage,
    /// A request failed on the network.
    Transport,
    /// The warm-up requests left no anti-forgery cookie behind.
    AntiForgeryCookieMissing,
    /// An event arrived that the current phase does not expect.
    UnexpectedEvent,
}

/// What the caller has to do next.
#[derive(Clone, Copy, Debug, PartialEq, Eq, Structural)]
pub enum SessionAction {
    /// Read the account from the account store.
    LoadAccount,
    /// Turn the stored session blob back into a cookie jar.
    RestoreBlob,
    /// Call the product count endpoint with the restored session and read the answer with
    /// `test_cookie_store`.
    ProbeSession,
    /// Start from an empty cookie jar and send the two warm-up requests.
    WarmUp,
    /// Read the anti-forgery token from the cookie jar.
    ReadToken,
    /// Submit username, password and token, and read the answer with
    /// `login`.
    SubmitCredentials,
    /// Serialize the session and write it back to the account.
    PersistSession,
    /// The session is valid. `fresh` says that it comes from a login, not from the store.
    UseSession { fresh: bool },
    /// Report `error`; nothing more is to be done.
    Abort { error: SessionError },
}

/// The search for a valid session of one account.
#[derive(Clone, Copy, Debug, PartialEq, Eq, Structural)]
pub struct SessionManager {
    pub phase: SessionPhase,
    /// The stored session is known to be stale: it is not tried, a login is made at
    /// once.
    pub renewing: bool,
}

impl SessionManager {
    /// The state that gives the search up.
    pub open spec fn fail(self, error: SessionError) -> (SessionManager, SessionAction) {
        (SessionManager { phase: SessionPhase::Failed, ..self }, SessionAction::Abort { error })
    }

    /// The state that begins a login from an empty cookie jar.
    pub open spec fn begin_login(self) -> (SessionManager, SessionAction) {
        (SessionManager { phase: SessionPhase::WarmingUp, ..self }, SessionAction::WarmUp)
    }

    /// The state after `event`, and what it asks of the caller.
    pub open spec fn next(self, event: SessionEvent) -> (SessionManager, SessionAction) {
        match (self.phase, event) {
            (SessionPhase::Idle, SessionEvent::Start) => (
                SessionManager { phase: SessionPhase::Loading, ..self },
                SessionAction::LoadAccount,
            ),
            (SessionPhase::Loading, SessionEvent::Succeeded) => if self.renewing {
                self.begin_login()
            } else {
                (
                    SessionManager { phase: SessionPhase::Restoring, ..self },
                    SessionAction::RestoreBlob,
                )
            },
            (SessionPhase::Loading, SessionEvent::AccountMissing) => self.fail(
                SessionError::InvalidAccountId,
            ),
            (SessionPhase::Loading, SessionEvent::Failed) => self.fail(SessionError::Storage),
            (SessionPhase::Restoring, SessionEvent::Succeeded) => (
                SessionManager { phase: SessionPhase::Probing, ..self },
                SessionAction::ProbeSession,
            ),
            (SessionPhase::Restoring, SessionEvent::BlobRejected) => self.begin_login(),
            (SessionPhase::Probing, SessionEvent::Probed { live }) => if live {
                (
                    SessionManager { phase: SessionPhase::Ready, ..self },
                    SessionAction::UseSession { fresh: false },
                )
            } else {
                self.begin_login()
            },
            (SessionPhase::Probing, SessionEvent::Failed) => self.fail(SessionError::Transport),
            (SessionPhase::WarmingUp, SessionEvent::Succeeded) => (
                SessionManager { phase: SessionPhase::ReadingToken, ..self },
                SessionAction::ReadToken,
            ),
            (SessionPhase::WarmingUp, SessionEvent::Failed) => self.fail(SessionError::Transport),
            (SessionPhase::ReadingToken, SessionEvent::Succeeded) => (
                SessionManager { phase: SessionPhase::Authenticating, ..self },
                SessionAction::SubmitCredentials,
            ),
            (SessionPhase::ReadingToken, SessionEvent::TokenMissing) => self.fail(
                SessionError::AntiForgeryCookieMissing,
            ),
            (SessionPhase::Authenticating, SessionEvent::LoginAnswered { wrong_credentials }) =>
                if wrong_credentials {
                self.fail(SessionError::InvalidCredentials)
            } else {
                (
                    SessionManager { phase: SessionPhase::Persisting, ..self },
                    SessionAction::PersistSession,
                )
            },
            (SessionPhase::Authenticating, SessionEvent::Failed) => self.fail(
                SessionError::Transport,
            ),
            (SessionPhase::Persisting, SessionEvent::Succeeded) | (
                SessionPhase::Persisting,
                SessionEvent::Failed,
            ) => (
                SessionManager { phase: SessionPhase::Ready, ..self },
                SessionAction::UseSession { fresh: true },
            ),
            _ => self.fail(SessionError::UnexpectedEvent),
        }
    }

    /// The state after a run of events, one after the other.
    pub open spec fn run(self, events: Seq<SessionEvent>) -> SessionManager
        decreases events.len(),
    {
        if events.len() == 0 {
            self
        } else {
            self.next(events[0]).0.run(events.drop_first())
        }
    }

    /// No event of the run asks for a session to be persisted or used.
    pub open spec fn yields_no_session(self, events: Seq<SessionEvent>) -> bool
        decreases events.len(),
    {
        if events.len() == 0 {
            true
        } else {
            let (after, action) = self.next(events[0]);
            !(action is PersistSession) && !(action is UseSession) && after.yields_no_session(
                events.drop_first(),
            )
        }
    }

    /// A search of which nothing was done yet.
    pub fn new() -> (manager: Self)
        ensures
            manager == (SessionManager { phase: SessionPhase::Idle, renewing: false }),
    {
        SessionManager { phase: SessionPhase::Idle, renewing: false }
    }

    /// A search that passes over the stored session, which an authenticated call has
    /// shown to be stale, and logs in anew.
    pub fn renew() -> (manager: Self)
        ensures
            manager == (SessionManager { phase: SessionPhase::Idle, renewing: true }),
    {
        SessionManager { phase: SessionPhase::Idle, renewing: true }
    }

    fn do_fail(&mut self, error: SessionError) -> (action: SessionAction)
        ensures
            (*final(self), action) == old(self).fail(error),
    {
        self.phase = SessionPhase::Failed;
        SessionAction::Abort { error }
    }

    fn do_login(&mut self) -> (action: SessionAction)
        ensures
            (*final(self), action) == old(self).begin_login(),
    {
        self.phase = SessionPhase::WarmingUp;
        SessionAction::WarmUp
    }

    /// Takes one event and says what to do next.
    pub fn step(&mut self, event: SessionEvent) -> (action: SessionAction)
        ensures
            (*final(self), action) == old(self).next(event),
    {
        match (self.phase, event) {
            (SessionPhase::Idle, SessionEvent::Start) => {
                self.phase = SessionPhase::Loading;
                SessionAction::LoadAccount
            },
            (SessionPhase::Loading, SessionEvent::Succeeded) => {
                if self.renewing {
                    self.do_login()
                } else {
                    self.phase = SessionPhase::Restoring;
                    SessionAction::RestoreBlob
                }
            },
            (SessionPhase::Loading, SessionEvent::AccountMissing) => self.do_fail(
                SessionError::InvalidAccountId,
            ),
            (SessionPhase::Loading, SessionEvent::Failed) => self.do_fail(SessionError::Storage),
            (SessionPhase::Restoring, SessionEvent::Succeeded) => {
                self.phase = SessionPhase::Probing;
                SessionAction::ProbeSession
            },
            (SessionPhase::Restoring, SessionEvent::BlobRejected) => self.do_login(),
            (SessionPhase::Probing, SessionEvent::Probed { live }) => {
                if live {
                    self.phase = SessionPhase::Ready;
                    SessionAction::UseSession { fresh: false }
                } else {
                    self.do_login()
                }
            },
            (SessionPhase::Probing, SessionEvent::Failed) => self.do_fail(SessionError::Transport),
            (SessionPhase::WarmingUp, SessionEvent::Succeeded) => {
                self.phase = SessionPhase::ReadingToken;
                SessionAction::ReadToken
            },
            (SessionPhase::WarmingUp, SessionEvent::Failed) => self.do_fail(
                SessionError::Transport,
            ),
            (SessionPhase::ReadingToken, SessionEvent::Succeeded) => {
                self.phase = SessionPhase::Authenticating;
                SessionAction::SubmitCredentials
            },
            (SessionPhase::ReadingToken, SessionEvent::TokenMissing) => self.do_fail(
                SessionError::AntiForgeryCookieMissing,
            ),
            (SessionPhase::Authenticating, SessionEvent::LoginAnswered { wrong_credentials }) => {
                if wrong_credentials {
                    self.do_fail(SessionError::InvalidCredentials)
                } else {
                    self.phase = SessionPhase::Persisting;
                    SessionAction::PersistSession
                }
            },
            (SessionPhase::Authenticating, SessionEvent::Failed) => self.do_fail(
                SessionError::Transport,
            ),
            (SessionPhase::Persisting, SessionEvent::Succeeded) | (
                SessionPhase::Persisting,
                SessionEvent::Failed,
            ) => {
                self.phase = SessionPhase::Ready;
                SessionAction::UseSession { fresh: true }
            },
            _ => self.do_fail(SessionError::UnexpectedEvent),
        }
    }
}

/// A session is persisted only after a login whose answer does not hold the failure
/// phrase, and it is handed out only after a probe that showed it live or after such a
/// login: a partially authenticated session is never stored or used.
pub proof fn law_only_confirmed_sessions(manager: SessionManager, event: SessionEvent)
    ensures
        manager.next(event).1 is PersistSession ==> manager.phase == SessionPhase::Authenticating
            && event == (SessionEvent::LoginAnswered { wrong_credentials: false }),
        manager.next(event).1 matches SessionAction::UseSession { fresh } ==> if fresh {
            manager.phase == SessionPhase::Persisting
        } else {
            manager.phase == SessionPhase::Probing && event == (SessionEvent::Probed { live: true })
        },
{
}

/// Wrong credentials end the search at once, with `InvalidCredentials`, and whatever
/// events follow, no session is persisted or handed out.
pub proof fn law_wrong_credentials_persist_nothing(
    manager: SessionManager,
    later: Seq<SessionEvent>,
)
    requires
        manager.phase == SessionPhase::Authenticating,
    ensures
        manager.next(SessionEvent::LoginAnswered { wrong_credentials: true }) == manager.fail(
            SessionError::InvalidCredentials,
        ),
        manager.next(SessionEvent::LoginAnswered { wrong_credentials: true }).0.yields_no_session(
            later,
        ),
        manager.next(SessionEvent::LoginAnswered { wrong_credentials: true }).0.run(later).phase
            == SessionPhase::Failed,
{
    lemma_failed_yields_no_session(
        manager.next(SessionEvent::LoginAnswered { wrong_credentials: true }).0,
        later,
    );
}

/// A search that has failed stays failed and yields no session.
pub proof fn lemma_failed_yields_no_session(manager: SessionManager, events: Seq<SessionEvent>)
    requires
        manager.phase == SessionPhase::Failed,
    ensures
        manager.yields_no_session(events),
        manager.run(events).phase == SessionPhase::Failed,
    decreases events.len(),
{
    if events.len() > 0 {
        lemma_failed_yields_no_session(manager.next(events[0]).0, events.drop_first());
    }
}

} // verus!
