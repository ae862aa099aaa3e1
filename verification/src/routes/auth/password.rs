//! Changing the password.

use vstd::prelude::*;

verus! {

/// What a change of password brings.
#[derive(Debug)]
pub struct ChangePasswordRequest {
    pub old_password: String,
    pub new_password: String,
    pub token: Option<String>,
}

} // verus!
