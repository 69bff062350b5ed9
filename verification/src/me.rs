//! The signed-in user record.

use vstd::prelude::*;

verus! {

/// Graph API user object for the current user.
#[derive(Debug, Clone, Default)]
pub struct Me {
    pub odata_context: Option<String>,
    pub business_phones: Option<Vec<String>>,
    pub display_name: Option<String>,
    pub given_name: Option<String>,
    pub job_title: Option<String>,
    pub mail: Option<String>,
    pub mobile_phone: Option<String>,
    pub office_location: Option<String>,
    pub preferred_language: Option<String>,
    pub surname: Option<String>,
    pub user_principal_name: Option<String>,
    pub id: String,
}

} // verus!
