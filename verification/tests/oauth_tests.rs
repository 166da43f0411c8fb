use coin_core::device_flow::Credentials;
use coin_core::error::CoinError;
use coin_core::oauth::google::GoogleCredentials;
use coin_core::oauth::{
    github_keyring_service, google_keyring_service, keyring_password, InitStage,
    KeyringFailure, OAuthManager, RefreshStage, SignInAction, SignInEvent,
};

fn github(token: &str, timestamp: u64, expires_in: u64) -> Credentials {
    Credentials {
        access_token: token.to_string(),
        refresh_token: format!("{}-refresh", token),
        expires_in,
        timestamp,
    }
}

fn google(id: &str, timestamp: u64, expires_in: u64) -> GoogleCredentials {
    GoogleCredentials {
        local_id: "local".to_string(),
        federated_id: "fed".to_string(),
        oauth_access_token: "oauth".to_string(),
        id_token: id.to_string(),
        refresh_token: "r".to_string(),
        expires_in,
        timestamp,
    }
}

const FAR: u64 = 8_000_000_000_000;

#[test]
fn keyring_entries() {
    assert_eq!(github_keyring_service(), "coinv_github");
    assert_eq!(google_keyring_service(), "coinv_google");
    assert_ne!(github_keyring_service(), google_keyring_service());
}

#[test]
fn keyring_answers() {
    assert_eq!(keyring_password(Ok("pw".to_string())), Ok("pw".to_string()));
    assert_eq!(keyring_password(Err(KeyringFailure::NoEntry)), Err(CoinError::KeyringNoEntry));
    assert_eq!(
        keyring_password(Err(KeyringFailure::Other("locked".to_string()))),
        Err(CoinError::Keyring("locked".to_string()))
    );
}

#[test]
fn first_sign_in_with_stored_credentials() {
    let (stage, action) = OAuthManager::init_start();
    assert_eq!(action, SignInAction::ReadKeyring);
    let read = SignInEvent::KeyringRead(Ok((github("old", 1, 1), google("old", 1, 1))));
    assert!(stage.awaits(&read));
    let (stage, action) = OAuthManager::try_init_github_google(stage, read);
    assert_eq!(action, SignInAction::AuthorizeGithub { refresh_token: Some("old-refresh".to_string()) });
    let stage = stage.unwrap();
    let (stage, action) =
        OAuthManager::try_init_github_google(stage, SignInEvent::GithubAuthorized(Ok(github("new", 10, 100))));
    assert_eq!(action, SignInAction::SignInGoogle { access_token: "new".to_string() });
    let (stage, action) = OAuthManager::try_init_github_google(
        stage.unwrap(),
        SignInEvent::GoogleSignedIn(Ok(google("g-new", 10, 100))),
    );
    assert_eq!(
        action,
        SignInAction::StoreCredentials { github: github("new", 10, 100), google: google("g-new", 10, 100) }
    );
    let (stage, action) =
        OAuthManager::try_init_github_google(stage.unwrap(), SignInEvent::CredentialsStored(Ok(())));
    assert_eq!(stage, None);
    assert_eq!(
        action,
        SignInAction::Finish(Ok(OAuthManager {
            idp_credentials: github("new", 10, 100),
            google_credentials: google("g-new", 10, 100),
        }))
    );
}

#[test]
fn first_sign_in_without_keyring_entry() {
    let (stage, action) = OAuthManager::try_init_github_google(
        InitStage::ReadingKeyring,
        SignInEvent::KeyringRead(Err(CoinError::KeyringNoEntry)),
    );
    assert_eq!(stage, Some(InitStage::AuthorizingGithub));
    assert_eq!(action, SignInAction::AuthorizeGithub { refresh_token: None });
}

#[test]
fn first_sign_in_failures_end_it() {
    let (stage, action) = OAuthManager::try_init_github_google(
        InitStage::ReadingKeyring,
        SignInEvent::KeyringRead(Err(CoinError::Keyring("locked".to_string()))),
    );
    assert_eq!(stage, None);
    assert_eq!(action, SignInAction::Finish(Err(CoinError::Keyring("locked".to_string()))));
    let (stage, action) = OAuthManager::try_init_github_google(
        InitStage::SigningInGoogle { github: github("a", 1, 1) },
        SignInEvent::GoogleSignedIn(Err(CoinError::RequestError("down".to_string()))),
    );
    assert_eq!(stage, None);
    assert_eq!(action, SignInAction::Finish(Err(CoinError::RequestError("down".to_string()))));
    let stage = InitStage::AuthorizingGithub;
    assert!(!stage.awaits(&SignInEvent::CredentialsStored(Ok(()))));
}

#[test]
fn current_session_is_handed_out() {
    let m = OAuthManager { idp_credentials: github("gh", 0, FAR), google_credentials: google("g", 0, FAR) };
    let (stage, action) = m.credentials_or_refresh().unwrap();
    assert_eq!(stage, None);
    assert_eq!(action, SignInAction::Finish(Ok((github("gh", 0, FAR), google("g", 0, FAR)))));
}

#[test]
fn expired_google_credentials_start_refresh() {
    let m = OAuthManager { idp_credentials: github("gh", 0, FAR), google_credentials: google("g", 0, 0) };
    assert_eq!(m.is_expired(), Some(true));
    let (stage, action) = m.credentials_or_refresh().unwrap();
    assert_eq!(stage, Some(RefreshStage::AuthorizingGithub));
    assert_eq!(action, SignInAction::AuthorizeGithub { refresh_token: None });
}

#[test]
fn expired_github_credentials_start_refresh() {
    let m = OAuthManager { idp_credentials: github("gh", 0, 0), google_credentials: google("g", 0, FAR) };
    assert_eq!(m.is_expired(), Some(true));
    assert_eq!(m.refresh_start(false).0, None);
}

#[test]
fn refresh_keeps_earlier_google_credentials() {
    let mut m = OAuthManager { idp_credentials: github("gh", 0, 0), google_credentials: google("g", 0, 0) };
    let (stage, _) = m.refresh_start(true);
    let (stage, action) =
        m.refresh_next(stage.unwrap(), SignInEvent::GithubAuthorized(Ok(github("gh2", 5, FAR))));
    assert_eq!(action, SignInAction::SignInGoogle { access_token: "gh2".to_string() });
    assert_eq!(m.idp_credentials, github("gh2", 5, FAR));
    let (stage, action) =
        m.refresh_next(stage.unwrap(), SignInEvent::GoogleSignedIn(Ok(google("g2", 5, FAR))));
    assert_eq!(
        action,
        SignInAction::StoreCredentials { github: github("gh2", 5, FAR), google: google("g2", 5, FAR) }
    );
    let (stage, action) = m.refresh_next(stage.unwrap(), SignInEvent::CredentialsStored(Ok(())));
    assert_eq!(stage, None);
    assert_eq!(action, SignInAction::Finish(Ok((github("gh2", 5, FAR), google("g", 0, 0)))));
    assert_eq!(m.google_credentials, google("g", 0, 0));
}

#[test]
fn refused_refresh_leaves_session() {
    let mut m = OAuthManager { idp_credentials: github("gh", 0, 0), google_credentials: google("g", 0, 0) };
    let before = m.duplicate();
    let (stage, action) = m.refresh_next(
        RefreshStage::AuthorizingGithub,
        SignInEvent::GithubAuthorized(Err(CoinError::RequestError("refused".to_string()))),
    );
    assert_eq!(stage, None);
    assert_eq!(action, SignInAction::Finish(Err(CoinError::RequestError("refused".to_string()))));
    assert_eq!(m, before);
}

#[test]
fn session_expiry_at_given_readings() {
    let m = OAuthManager { idp_credentials: github("gh", 1_000, 100), google_credentials: google("g", 2_000, 100) };
    assert!(!m.is_expired_at(980, 980));
    assert!(m.is_expired_at(980, 981));
    assert!(m.is_expired_at(1_981, 0));
    assert!(!m.is_expired_at(1_980, 980));
}
