use coin_core::auth::{
    access_token, expiration_datetime, is_expired, is_expired_at, keyring_service, AccessStage,
    CredentialsManager, InitStage, ManagerAction, ManagerEvent,
};
use coin_core::device_flow::Credentials;
use coin_core::error::CoinError;

fn creds(token: &str, timestamp: u64, expires_in: u64) -> Credentials {
    Credentials {
        access_token: token.to_string(),
        refresh_token: format!("{}-refresh", token),
        expires_in,
        timestamp,
    }
}

const FAR: u64 = 8_000_000_000_000;

#[test]
fn keyring_entry() {
    assert_eq!(keyring_service(), "coin-dev");
}

#[test]
fn credentials_expiration_is_issue_time_plus_lifetime() {
    assert_eq!(expiration_datetime(&creds("t", 1_000, 500)).unwrap().timestamp(), 1_500);
    assert_eq!(
        expiration_datetime(&creds("t", 8_210_266_876_799, 1)),
        Err(CoinError::InvalidTimestamp)
    );
    // each part is read as a signed number
    assert_eq!(expiration_datetime(&creds("t", u64::MAX, 10)).unwrap().timestamp(), 9);
}

#[test]
fn expiry_margin() {
    assert!(!is_expired_at(&creds("t", 1_000, 100), 980));
    assert!(is_expired_at(&creds("t", 1_000, 100), 981));
    assert_eq!(is_expired(&creds("t", 0, 0)), Some(true));
    assert_eq!(is_expired(&creds("t", 0, FAR)), Some(false));
}

#[test]
fn token_with_expiration() {
    let (token, expiration) = access_token(&creds("tok", 100, 50)).unwrap();
    assert_eq!(token, "tok");
    assert_eq!(expiration.timestamp(), 150);
}

#[test]
fn manager_creation() {
    let (stage, action) = CredentialsManager::init_start();
    assert_eq!(action, ManagerAction::ReadKeyring);
    let (stage, action) =
        CredentialsManager::try_init_with_github(stage, ManagerEvent::KeyringRead(Ok(creds("old", 1, 1))));
    assert_eq!(action, ManagerAction::AuthorizeGithub { refresh_token: Some("old-refresh".to_string()) });
    let (stage, action) = CredentialsManager::try_init_with_github(
        stage.unwrap(),
        ManagerEvent::GithubAuthorized(Ok(creds("new", 2, 2))),
    );
    assert_eq!(action, ManagerAction::StoreCredentials { credentials: creds("new", 2, 2) });
    let (stage, action) =
        CredentialsManager::try_init_with_github(stage.unwrap(), ManagerEvent::CredentialsStored(Ok(())));
    assert_eq!(stage, None);
    assert_eq!(action, ManagerAction::Finish(Ok(CredentialsManager { credentials: creds("new", 2, 2) })));
}

#[test]
fn manager_creation_without_entry_and_failure() {
    let (stage, action) = CredentialsManager::try_init_with_github(
        InitStage::ReadingKeyring,
        ManagerEvent::KeyringRead(Err(CoinError::KeyringNoEntry)),
    );
    assert_eq!(stage, Some(InitStage::AuthorizingGithub));
    assert_eq!(action, ManagerAction::AuthorizeGithub { refresh_token: None });
    let (stage, action) = CredentialsManager::try_init_with_github(
        InitStage::ReadingKeyring,
        ManagerEvent::KeyringRead(Err(CoinError::InvalidTimestamp)),
    );
    assert_eq!(stage, None);
    assert_eq!(action, ManagerAction::Finish(Err(CoinError::InvalidTimestamp)));
}

#[test]
fn current_token_handed_out() {
    let m = CredentialsManager { credentials: creds("tok", 0, FAR) };
    let (stage, action) = m.access_token_or_refresh().unwrap();
    assert_eq!(stage, None);
    match action {
        ManagerAction::Finish(Ok((token, expiration))) => {
            assert_eq!(token, "tok");
            assert_eq!(expiration.timestamp(), FAR as i64);
        }
        other => panic!("unexpected {:?}", other),
    }
}

#[test]
fn expired_token_refreshed() {
    let mut m = CredentialsManager { credentials: creds("tok", 0, 0) };
    let (stage, action) = m.access_token_or_refresh().unwrap();
    assert_eq!(stage, Some(AccessStage::AuthorizingGithub));
    assert_eq!(action, ManagerAction::AuthorizeGithub { refresh_token: None });
    let (stage, action) =
        m.access_next(stage.unwrap(), ManagerEvent::GithubAuthorized(Ok(creds("tok2", 10, 20))));
    assert_eq!(action, ManagerAction::StoreCredentials { credentials: creds("tok2", 10, 20) });
    assert_eq!(m.credentials, creds("tok2", 10, 20));
    let (stage, action) = m.access_next(stage.unwrap(), ManagerEvent::CredentialsStored(Ok(())));
    assert_eq!(stage, None);
    match action {
        ManagerAction::Finish(Ok((token, expiration))) => {
            assert_eq!(token, "tok2");
            assert_eq!(expiration.timestamp(), 30);
        }
        other => panic!("unexpected {:?}", other),
    }
    assert!(AccessStage::AuthorizingGithub.awaits(&ManagerEvent::GithubAuthorized(Ok(creds("x", 0, 0)))));
    assert!(!AccessStage::AuthorizingGithub.awaits(&ManagerEvent::CredentialsStored(Ok(()))));
}
