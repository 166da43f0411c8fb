//! Coin: an expense tracker whose data lives in Firestore, signed in through GitHub and
//! Google. This crate is its logic: the sign-in state machines, the requests and replies of
//! the identity services, the expiry of credentials, and the paths under which expenses are
//! stored.
pub mod auth;
pub mod currency;
pub mod db;
pub mod decimal;
pub mod device_flow;
pub mod error;
pub mod oauth;
pub mod utils;

use vstd::prelude::*;
use crate::decimal::{i32_to_decimal, signed_decimal};

verus! {

/// The Firestore collection path under which the expenses of the user `user_id` are added.
/// (The path holds the words `EXPENSE_COLLECTION_NAME` as they are.)
pub fn expense_collection_path(user_id: &str) -> (p: String)
    ensures
        p@ == user_id@ + "/EXPENSE_COLLECTION_NAME"@,
{
    String::from_str(user_id).concat("/EXPENSE_COLLECTION_NAME")
}

/// The Firestore document id of the expense `id`: its decimal notation.
pub fn expense_document_id(id: i32) -> (d: String)
    ensures
        d@ == signed_decimal(id as int),
{
    i32_to_decimal(id)
}

} // verus!
