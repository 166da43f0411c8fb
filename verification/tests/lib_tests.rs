use coin_core::currency::Currency;
use coin_core::db::retrieve_db_token;
use coin_core::error::CoinError;
use coin_core::oauth::google::GoogleCredentials;
use coin_core::{expense_collection_path, expense_document_id};

#[test]
fn collection_path_names_the_user() {
    assert_eq!(expense_collection_path("user-1"), "user-1/EXPENSE_COLLECTION_NAME");
    assert_eq!(expense_collection_path(""), "/EXPENSE_COLLECTION_NAME");
}

#[test]
fn document_id_is_decimal_id() {
    assert_eq!(expense_document_id(1), "1");
    assert_eq!(expense_document_id(0), "0");
    assert_eq!(expense_document_id(-42), "-42");
    assert_eq!(expense_document_id(i32::MAX), "2147483647");
}

#[test]
fn currencies_compare() {
    let a = Currency::USD;
    let b = a;
    assert_eq!(a, b);
    assert_ne!(Currency::EUR, Currency::USD);
}

#[test]
fn db_token_is_bearer_id_token() {
    let google = |timestamp: u64| GoogleCredentials {
        local_id: "l".to_string(),
        federated_id: "f".to_string(),
        oauth_access_token: "o".to_string(),
        id_token: "id-token".to_string(),
        refresh_token: "r".to_string(),
        expires_in: 3_600,
        timestamp,
    };
    let token = retrieve_db_token(google(1_700_000_000)).unwrap();
    assert_eq!(token.token_type, "Bearer");
    assert_eq!(token.token, "id-token");
    assert_eq!(token.expiry.timestamp(), 1_700_003_600);
    assert_eq!(retrieve_db_token(google(8_210_266_876_000)), Err(CoinError::InvalidTimestamp));
}
