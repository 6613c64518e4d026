//! PUBG accounts as stored.

use vstd::prelude::*;

verus! {

#[derive(Debug, Clone)]
pub struct AccountDto {
    pub id: i64,
    pub account_name: String,
    pub self_player_name: String,
    pub self_platform: String,
    pub pubg_api_key: String,
    pub is_active: bool,
    pub created_at: String,
    pub updated_at: String,
}

#[derive(Debug, Clone)]
pub struct CreateAccountInput {
    pub account_name: String,
    pub self_player_name: String,
    pub self_platform: String,
    pub pubg_api_key: String,
    pub set_active: bool,
}

#[derive(Debug, Clone)]
pub struct UpdateAccountInput {
    pub account_name: String,
    pub self_player_name: String,
    pub self_platform: String,
    pub pubg_api_key: String,
}

} // verus!
