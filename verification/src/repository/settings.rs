//! Application settings as stored.

use vstd::prelude::*;

verus! {

#[derive(Debug, Clone)]
pub struct AppSettingDto {
    pub key: String,
    pub value: String,
    pub updated_at: String,
}

} // verus!
