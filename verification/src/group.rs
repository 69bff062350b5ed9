//! Directory group entities.

use vstd::prelude::*;

verus! {

/// Graph API group object.
#[derive(Debug, Clone, Default)]
pub struct Group {
    pub id: String,
    pub deleted_date_time: Option<String>,
    pub classification: Option<String>,
    pub created_date_time: Option<String>,
    pub created_by_app_id: Option<String>,
    pub organization_id: Option<String>,
    pub description: Option<String>,
    pub display_name: Option<String>,
    pub expiration_date_time: Option<String>,
    pub group_types: Option<Vec<String>>,
    pub info_catalogs: Option<Vec<String>>,
    pub is_assignable_to_role: Option<bool>,
    pub is_management_restricted: Option<bool>,
    pub mail: Option<String>,
    pub mail_enabled: Option<bool>,
    pub mail_nickname: Option<String>,
    pub membership_rule: Option<String>,
    pub membership_rule_processing_state: Option<String>,
    pub on_premises_domain_name: Option<String>,
    pub on_premises_last_sync_date_time: Option<String>,
    pub on_premises_net_bios_name: Option<String>,
    pub on_premises_sam_account_name: Option<String>,
    pub on_premises_security_identifier: Option<String>,
    pub on_premises_sync_enabled: Option<bool>,
    pub preferred_data_location: Option<String>,
    pub preferred_language: Option<String>,
    pub proxy_addresses: Option<Vec<String>>,
    pub renewed_date_time: Option<String>,
    pub resource_behavior_options: Option<Vec<String>>,
    pub resource_provisioning_options: Option<Vec<String>>,
    pub security_enabled: Option<bool>,
    pub security_identifier: Option<String>,
    pub theme: Option<String>,
    pub visibility: Option<String>,
    pub on_premises_provisioning_errors: Option<Vec<String>>,
    pub writeback_configuration: Option<WritebackConfiguration>,
}

impl crate::lookup::NamedEntity for Group {
    open spec fn match_name(&self, name: Seq<char>) -> bool {
        match self.display_name {
            Some(n) => n@ == name,
            None => false,
        }
    }

    fn name_matches(&self, name: &String) -> (r: bool) {
        match &self.display_name {
            Some(n) => *n == *name,
            None => false,
        }
    }
}

/// Graph API group writeback object.
#[derive(Debug, Clone, Default)]
pub struct WritebackConfiguration {
    pub is_enabled: Option<bool>,
    pub on_premises_group_type: Option<String>,
}

/// Graph API group collection object.
#[derive(Debug, Clone, Default)]
pub struct GroupCollection {
    pub odata_context: String,
    pub value: Vec<Group>,
}

} // verus!
