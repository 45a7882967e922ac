//! The service that keeps the catalog in step with the accounts of the storefront.

use crate::database::models::v2::CreatingProduct;
use crate::dlsite::dto::DLsiteProduct;
use crate::dlsite::session::{
    get_product_count, ProductCountError, ProductCountResponse, SessionError,
    SessionManager, SessionPhase,
};
use crate::services::sync::{AccountCheckpoint, SyncEngine, SyncMode, SyncState};
use crate::text::{push_signed_decimal, signed_decimal};
use vstd::prelude::*;
use vstd::string::StringExecFns;

verus! {

/// Why the service could not do what was asked of it.
#[derive(Debug, Clone)]
pub enum DLsiteServiceError {
    /// No account has the id `id`.
    InvalidAccountId { id: i64 },
    /// The remote service rejected these credentials.
    InvalidCredentials { username: String, password: String },
    /// The account store or the catalog store failed.
    DBError,
    /// Anything else: the network, or an answer in an unexpected form.
    AnyError,
}

impl DLsiteServiceError {
    /// The sentence that describes the error to the user.
    pub open spec fn message_spec(self) -> Seq<char> {
        match self {
            DLsiteServiceError::InvalidAccountId { id } => "the given account id `"@
                + signed_decimal(id as int) + "` is not valid"@,
            DLsiteServiceError::InvalidCredentials { username, password } =>
                "the given username `"@ + username@ + "` or password `"@ + password@
                    + "` is invalid"@,
            DLsiteServiceError::DBError => "database error"@,
            DLsiteServiceError::AnyError => "unexpected error"@,
        }
    }

    /// The sentence that describes the error to the user.
    pub fn message(&self) -> (message: String)
        ensures
            message@ == self.message_spec(),
    {
        match self {
            DLsiteServiceError::InvalidAccountId { id } => {
                let mut message = String::from_str("the given account id `");
                push_signed_decimal(&mut message, *id);
                message.append("` is not valid");
                message
            },
            DLsiteServiceError::InvalidCredentials { username, password } => {
                let mut message = String::from_str("the given username `");
                message.append(username.as_str());
                message.append("` or password `");
                message.append(password.as_str());
                message.append("` is invalid");
                message
            },
            DLsiteServiceError::DBError => String::from_str("database error"),
            DLsiteServiceError::AnyError => String::from_str("unexpected error"),
        }
    }

    /// `self` is the error of the service that stands for the failed search `error` of
    /// a session for the account `account_id` with the given credentials.
    pub open spec fn stands_for(
        self,
        error: SessionError,
        account_id: i64,
        username: Seq<char>,
        password: Seq<char>,
    ) -> bool {
        match error {
            SessionError::InvalidAccountId => self matches DLsiteServiceError::InvalidAccountId {
                id,
            } && id == account_id,
            SessionError::InvalidCredentials => self matches DLsiteServiceError::InvalidCredentials {
                username: u,
                password: p,
            } && u@ == username && p@ == password,
            SessionError::Storage => self is DBError,
            _ => self is AnyError,
        }
    }

    /// The error of the service for a failed search of a session.
    pub fn from_session_error(
        error: SessionError,
        account_id: i64,
        username: &str,
        password: &str,
    ) -> (service_error: Self)
        ensures
            service_error.stands_for(error, account_id, username@, password@),
    {
        match error {
            SessionError::InvalidAccountId => DLsiteServiceError::InvalidAccountId {
                id: account_id,
            },
            SessionError::InvalidCredentials => DLsiteServiceError::InvalidCredentials {
                username: String::from_str(username),
                password: String::from_str(password),
            },
            SessionError::Storage => DLsiteServiceError::DBError,
            _ => DLsiteServiceError::AnyError,
        }
    }
}

/// `creating` is the catalog entry `product`, owned by the account `account_id`, as it
/// is handed to the catalog store.
pub open spec fn is_owned_entry(
    creating: CreatingProduct,
    account_id: i64,
    product: DLsiteProduct,
) -> bool {
    &&& creating.id@ == product.id@
    &&& creating.account_id == Some(account_id)
    &&& creating.ty == product.ty
    &&& creating.age == product.age
    &&& creating.title@ == product.title@
    &&& creating.thumbnail@ == product.thumbnail@
    &&& creating.group_id@ == product.group_id@
    &&& creating.group_name@ == product.group_name@
    &&& creating.registered_at == Some(product.registered_at)
}

/// The catalog entry `product` as it is handed to the catalog store, owned by the
/// account `account_id`.
pub fn make_creating_product<'a>(account_id: i64, product: &'a DLsiteProduct) -> (creating:
    CreatingProduct<'a>)
    ensures
        is_owned_entry(creating, account_id, *product),
{
    CreatingProduct {
        id: product.id.as_str(),
        account_id: Some(account_id),
        ty: product.ty.duplicate(),
        age: product.age.duplicate(),
        title: product.title.as_str(),
        thumbnail: product.thumbnail.as_str(),
        group_id: product.group_id.as_str(),
        group_name: product.group_name.as_str(),
        registered_at: Some(product.registered_at),
    }
}

/// The product count of the account store, a signed number, as the count from which a
/// sync starts: a negative one counts as nothing.
pub open spec fn recorded_count(product_count: i32) -> u32 {
    if product_count < 0 {
        0
    } else {
        product_count as u32
    }
}

/// The account `account_id` with its recorded product count, as a sync takes it.
pub fn checkpoint_of(account_id: i64, product_count: i32) -> (checkpoint: AccountCheckpoint)
    ensures
        checkpoint == (AccountCheckpoint {
            account_id,
            product_count: recorded_count(product_count),
        }),
{
    AccountCheckpoint {
        account_id,
        product_count: if product_count < 0 {
            0
        } else {
            product_count as u32
        },
    }
}

/// The service that keeps the catalog in step with the accounts of the storefront.
pub struct DLsiteService;

impl DLsiteService {
    /// The service. It keeps no state of its own: what it knows lies in the stores and in
    /// the engines that it begins.
    pub fn new() -> (service: Self)
        ensures
            service == DLsiteService,
    {
        DLsiteService
    }

    /// Begins the search for a valid session of an account: first the stored session is
    /// tried, then a login.
    pub fn get_cookie_store(&self) -> (manager: SessionManager)
        ensures
            manager == (SessionManager { phase: SessionPhase::Idle, renewing: false }),
    {
        SessionManager::new()
    }

    /// Reads the answer to the product count call.
    pub fn get_product_count(&self, response: ProductCountResponse) -> (outcome: Result<
        u32,
        ProductCountError,
    >)
        ensures
            outcome == match response {
                ProductCountResponse::Unreadable => Err::<u32, ProductCountError>(
                    ProductCountError::NotAuthenticated,
                ),
                ProductCountResponse::Counts { user: None } => Err::<u32, ProductCountError>(
                    ProductCountError::UserCountMissing,
                ),
                ProductCountResponse::Counts { user: Some(count) } => Ok::<u32, ProductCountError>(
                    count,
                ),
            },
    {
        get_product_count(response)
    }

    /// Begins an incremental sync over `accounts`: only what lies beyond the product
    /// count recorded for an account is fetched.
    pub fn fetch_new_products(&self, accounts: Vec<AccountCheckpoint>) -> (engine: SyncEngine)
        ensures
            engine@ == SyncState::initial(SyncMode::Incremental, accounts@),
            engine@.wf(),
    {
        SyncEngine::new(SyncMode::Incremental, accounts)
    }

    /// Begins a full refresh over `accounts`: the owned catalog entries are discarded and
    /// every account is fetched from its first page.
    pub fn refresh_products_all(&self, accounts: Vec<AccountCheckpoint>) -> (engine: SyncEngine)
        ensures
            engine@ == SyncState::initial(SyncMode::FullRefresh, accounts@),
            engine@.wf(),
    {
        SyncEngine::new(SyncMode::FullRefresh, accounts)
    }
}

} // verus!
