//! Requests about the PUBG accounts of the application.

use vstd::prelude::*;
use crate::repository::accounts::{CreateAccountInput, UpdateAccountInput};

verus! {

#[derive(Debug, Clone)]
pub struct CreateAccountRequest {
    pub account_name: String,
    pub self_player_name: String,
    pub self_platform: String,
    pub pubg_api_key: String,
    pub set_active: Option<bool>,
}

#[derive(Debug, Clone)]
pub struct UpdateAccountRequest {
    pub account_name: String,
    pub self_player_name: String,
    pub self_platform: String,
    pub pubg_api_key: String,
}

/// The account to create for a request; a new account becomes the active one unless the
/// request says otherwise.
pub fn create_account_input(input: CreateAccountRequest) -> (res: CreateAccountInput)
    ensures
        res.account_name == input.account_name,
        res.self_player_name == input.self_player_name,
        res.self_platform == input.self_platform,
        res.pubg_api_key == input.pubg_api_key,
        res.set_active == match input.set_active {
            Some(b) => b,
            None => true,
        },
{
    CreateAccountInput {
        account_name: input.account_name,
        self_player_name: input.self_player_name,
        self_platform: input.self_platform,
        pubg_api_key: input.pubg_api_key,
        set_active: match input.set_active {
            Some(b) => b,
            None => true,
        },
    }
}

/// The update of the active account for a request.
pub fn update_account_input(input: UpdateAccountRequest) -> (res: UpdateAccountInput)
    ensures
        res.account_name == input.account_name,
        res.self_player_name == input.self_player_name,
        res.self_platform == input.self_platform,
        res.pubg_api_key == input.pubg_api_key,
{
    UpdateAccountInput {
        account_name: input.account_name,
        self_player_name: input.self_player_name,
        self_platform: input.self_platform,
        pubg_api_key: input.pubg_api_key,
    }
}

} // verus!
