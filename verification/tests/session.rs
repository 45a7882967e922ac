use dlsite_manager::dlsite::session::{
    after_product_count, CountOutcome, login, get_product_count, test_cookie_store, test_account, LoginError,
    ProductCountError, ProductCountResponse, SessionAction, SessionError, SessionEvent,
    SessionManager, SessionPhase,
};
use dlsite_manager::services::dlsite_service::{DLsiteService, DLsiteServiceError};

#[test]
fn login_failure_phrase_means_wrong_credentials() {
    let body = "<html><p class=\"error\">ログインIDかパスワードが間違っています。</p></html>";
    assert_eq!(login(body), Err(LoginError::WrongCredentials));
    assert_eq!(
        login("ログインIDかパスワードが間違っています。"),
        Err(LoginError::WrongCredentials)
    );
}

#[test]
fn login_without_failure_phrase_succeeds() {
    assert_eq!(login("<html>ようこそ</html>"), Ok(()));
    assert_eq!(login(""), Ok(()));
    assert_eq!(login("ログインIDかパスワードが間違っています"), Ok(()));
}

#[test]
fn wrong_credentials_persist_no_session() {
    let mut manager = SessionManager::new();
    assert_eq!(manager.step(SessionEvent::Start), SessionAction::LoadAccount);
    assert_eq!(manager.step(SessionEvent::Succeeded), SessionAction::RestoreBlob);
    assert_eq!(manager.step(SessionEvent::BlobRejected), SessionAction::WarmUp);
    assert_eq!(manager.step(SessionEvent::Succeeded), SessionAction::ReadToken);
    assert_eq!(manager.step(SessionEvent::Succeeded), SessionAction::SubmitCredentials);
    let wrong = login("x ログインIDかパスワードが間違っています。 y").is_err();
    assert_eq!(
        manager.step(SessionEvent::LoginAnswered { wrong_credentials: wrong }),
        SessionAction::Abort { error: SessionError::InvalidCredentials }
    );
    assert_eq!(manager.phase, SessionPhase::Failed);
    for event in [
        SessionEvent::Succeeded,
        SessionEvent::Start,
        SessionEvent::LoginAnswered { wrong_credentials: false },
        SessionEvent::Probed { live: true },
    ] {
        let action = manager.step(event);
        assert_eq!(action, SessionAction::Abort { error: SessionError::UnexpectedEvent });
    }
}

#[test]
fn probe_body_decides_liveness() {
    assert!(test_cookie_store("{\"user\":12,\"production\":0}"));
    assert!(test_cookie_store(""));
    assert!(!test_cookie_store("{\"status\":\"error\"}"));
    assert!(!test_cookie_store("401 Unauthorized"));
    assert!(!test_cookie_store("{\"user\":401}"));
}

#[test]
fn product_count_answers() {
    assert_eq!(
        get_product_count(ProductCountResponse::Unreadable),
        Err(ProductCountError::NotAuthenticated)
    );
    assert_eq!(
        get_product_count(ProductCountResponse::Counts { user: None }),
        Err(ProductCountError::UserCountMissing)
    );
    assert_eq!(
        get_product_count(ProductCountResponse::Counts { user: Some(120) }),
        Ok(120)
    );
    assert_eq!(
        DLsiteService::new().get_product_count(ProductCountResponse::Counts { user: Some(0) }),
        Ok(0)
    );
    assert_eq!(test_account(ProductCountResponse::Unreadable), None);
    assert_eq!(test_account(ProductCountResponse::Counts { user: None }), Some(0));
    assert_eq!(test_account(ProductCountResponse::Counts { user: Some(3) }), Some(3));
}

#[test]
fn live_stored_session_is_used_without_login() {
    let mut manager = DLsiteService::new().get_cookie_store();
    assert_eq!(manager.step(SessionEvent::Start), SessionAction::LoadAccount);
    assert_eq!(manager.step(SessionEvent::Succeeded), SessionAction::RestoreBlob);
    assert_eq!(manager.step(SessionEvent::Succeeded), SessionAction::ProbeSession);
    assert_eq!(
        manager.step(SessionEvent::Probed { live: true }),
        SessionAction::UseSession { fresh: false }
    );
    assert_eq!(manager.phase, SessionPhase::Ready);
}

#[test]
fn stale_session_leads_to_login_and_persist() {
    let mut manager = SessionManager::new();
    manager.step(SessionEvent::Start);
    manager.step(SessionEvent::Succeeded);
    manager.step(SessionEvent::Succeeded);
    assert_eq!(manager.step(SessionEvent::Probed { live: false }), SessionAction::WarmUp);
    assert_eq!(manager.step(SessionEvent::Succeeded), SessionAction::ReadToken);
    assert_eq!(manager.step(SessionEvent::Succeeded), SessionAction::SubmitCredentials);
    assert_eq!(
        manager.step(SessionEvent::LoginAnswered { wrong_credentials: false }),
        SessionAction::PersistSession
    );
    assert_eq!(
        manager.step(SessionEvent::Failed),
        SessionAction::UseSession { fresh: true }
    );
}

#[test]
fn session_failures_are_told_apart() {
    let run = |events: &[SessionEvent]| {
        let mut manager = SessionManager::new();
        let mut last = SessionAction::LoadAccount;
        for event in events {
            last = manager.step(*event);
        }
        last
    };
    assert_eq!(
        run(&[SessionEvent::Start, SessionEvent::AccountMissing]),
        SessionAction::Abort { error: SessionError::InvalidAccountId }
    );
    assert_eq!(run(&[SessionEvent::Start, SessionEvent::Failed]), SessionAction::Abort { error: SessionError::Storage });
    assert_eq!(
        run(&[SessionEvent::Start, SessionEvent::Succeeded, SessionEvent::Succeeded, SessionEvent::Failed]),
        SessionAction::Abort { error: SessionError::Transport }
    );
    assert_eq!(
        run(&[SessionEvent::Start, SessionEvent::Succeeded, SessionEvent::BlobRejected, SessionEvent::Failed]),
        SessionAction::Abort { error: SessionError::Transport }
    );
    assert_eq!(
        run(&[SessionEvent::Start, SessionEvent::Succeeded, SessionEvent::BlobRejected, SessionEvent::Succeeded, SessionEvent::TokenMissing]),
        SessionAction::Abort { error: SessionError::AntiForgeryCookieMissing }
    );
    assert_eq!(
        run(&[SessionEvent::Start, SessionEvent::Succeeded, SessionEvent::BlobRejected, SessionEvent::Succeeded, SessionEvent::Succeeded, SessionEvent::Failed]),
        SessionAction::Abort { error: SessionError::Transport }
    );
    assert_eq!(
        run(&[SessionEvent::Succeeded]),
        SessionAction::Abort { error: SessionError::UnexpectedEvent }
    );
}

#[test]
fn service_errors_carry_what_failed() {
    let error = DLsiteServiceError::from_session_error(SessionError::InvalidAccountId, -3, "u", "p");
    assert!(matches!(error, DLsiteServiceError::InvalidAccountId { id: -3 }));
    assert_eq!(error.message(), "the given account id `-3` is not valid");
    let error =
        DLsiteServiceError::from_session_error(SessionError::InvalidCredentials, 1, "neko", "pw");
    assert_eq!(error.message(), "the given username `neko` or password `pw` is invalid");
    assert!(matches!(
        DLsiteServiceError::from_session_error(SessionError::Storage, 1, "u", "p"),
        DLsiteServiceError::DBError
    ));
    assert!(matches!(
        DLsiteServiceError::from_session_error(SessionError::Transport, 1, "u", "p"),
        DLsiteServiceError::AnyError
    ));
    assert!(matches!(
        DLsiteServiceError::from_session_error(SessionError::AntiForgeryCookieMissing, 1, "u", "p"),
        DLsiteServiceError::AnyError
    ));
    assert_eq!(DLsiteServiceError::DBError.message(), "database error");
    assert_eq!(DLsiteServiceError::AnyError.message(), "unexpected error");
}

#[test]
fn stale_session_is_renewed_once() {
    assert_eq!(after_product_count(Ok(7), false), CountOutcome::Counted { count: 7 });
    assert_eq!(after_product_count(Ok(7), true), CountOutcome::Counted { count: 7 });
    assert_eq!(
        after_product_count(Err(ProductCountError::NotAuthenticated), false),
        CountOutcome::Renew
    );
    assert_eq!(
        after_product_count(Err(ProductCountError::NotAuthenticated), true),
        CountOutcome::NotAuthenticated
    );
    assert_eq!(
        after_product_count(Err(ProductCountError::UserCountMissing), false),
        CountOutcome::Failed
    );
    let mut manager = SessionManager::renew();
    assert_eq!(manager.step(SessionEvent::Start), SessionAction::LoadAccount);
    assert_eq!(manager.step(SessionEvent::Succeeded), SessionAction::WarmUp);
    assert_eq!(manager.step(SessionEvent::Succeeded), SessionAction::ReadToken);
    assert_eq!(manager.step(SessionEvent::Succeeded), SessionAction::SubmitCredentials);
    assert_eq!(
        manager.step(SessionEvent::LoginAnswered { wrong_credentials: false }),
        SessionAction::PersistSession
    );
    assert_eq!(manager.step(SessionEvent::Succeeded), SessionAction::UseSession { fresh: true });
}
