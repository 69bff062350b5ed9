//! Drive entities.

use vstd::prelude::*;

verus! {

/// Graph API drive object.
#[derive(Debug, Clone, Default)]
pub struct Drive {
    pub created_date_time: Option<String>,
    pub description: Option<String>,
    pub id: String,
    pub last_modified_date_time: Option<String>,
    pub name: Option<String>,
    pub web_url: Option<String>,
    pub drive_type: Option<String>,
    pub created_by: Option<DriveUser>,
    pub last_modified_by: Option<DriveUser>,
    pub owner: Option<DriveUser>,
    pub quota: Option<DriveQuota>,
}

impl crate::lookup::NamedEntity for Drive {
    open spec fn match_name(&self, name: Seq<char>) -> bool {
        match self.name {
            Some(n) => n@ == name,
            None => false,
        }
    }

    fn name_matches(&self, name: &String) -> (r: bool) {
        match &self.name {
            Some(n) => *n == *name,
            None => false,
        }
    }
}

#[derive(Debug, Clone, Default)]
pub struct DriveUser {
    pub user: Option<DriveUserUser>,
}

#[derive(Debug, Clone, Default)]
pub struct DriveUserUser {
    pub email: Option<String>,
    pub id: Option<String>,
    pub display_name: Option<String>,
}

#[derive(Debug, Clone, Default)]
pub struct DriveQuota {
    pub deleted: Option<i64>,
    pub remaining: Option<i64>,
    pub state: Option<String>,
    pub total: Option<i64>,
    pub used: Option<i64>,
}

#[derive(Debug, Clone, Default)]
pub struct DriveCollection {
    pub odata_context: Option<String>,
    pub value: Vec<Drive>,
}

} // verus!
