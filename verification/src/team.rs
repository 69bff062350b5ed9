//! Team entities, team settings groups, and channel tab records.

use vstd::prelude::*;
use vstd::string::StringExecFns;

verus! {

/// Graph API team object.
#[derive(Debug, Clone, Default)]
pub struct Team {
    pub odata_context: Option<String>,
    pub id: String,
    pub created_date_time: Option<String>,
    pub display_name: Option<String>,
    pub description: Option<String>,
    pub internal_id: Option<String>,
    pub classification: Option<String>,
    pub specialization: Option<String>,
    pub visibility: Option<String>,
    pub web_url: Option<String>,
    pub is_archived: Option<bool>,
    pub is_membership_limited_to_owners: Option<bool>,
    pub discovery_settings: Option<DiscoverySettings>,
    pub member_settings: Option<MemberSettings>,
    pub guest_settings: Option<GuestSettings>,
    pub messaging_settings: Option<MessagingSettings>,
    pub fun_settings: Option<FunSettings>,
    pub summary: Option<Summary>,
}

#[derive(Debug, Clone, Default)]
pub struct DiscoverySettings {
    pub show_in_teams_search_and_suggestions: Option<bool>,
}

#[derive(Debug, Clone, Default)]
pub struct MemberSettings {
    pub allow_create_update_channels: Option<bool>,
    pub allow_create_private_channels: Option<bool>,
    pub allow_delete_channels: Option<bool>,
    pub allow_add_remove_apps: Option<bool>,
    pub allow_create_update_remove_tabs: Option<bool>,
    pub allow_create_update_remove_connectors: Option<bool>,
}

#[derive(Debug, Clone, Default)]
pub struct GuestSettings {
    pub allow_create_update_channels: Option<bool>,
    pub allow_delete_channels: Option<bool>,
}

#[derive(Debug, Clone, Default)]
pub struct MessagingSettings {
    pub allow_user_edit_messages: Option<bool>,
    pub allow_user_delete_messages: Option<bool>,
    pub allow_owner_delete_messages: Option<bool>,
    pub allow_team_mentions: Option<bool>,
    pub allow_channel_mentions: Option<bool>,
}

#[derive(Debug, Clone, Default)]
pub struct FunSettings {
    pub allow_giphy: Option<bool>,
    pub giphy_content_rating: Option<String>,
    pub allow_stickers_and_memes: Option<bool>,
    pub allow_custom_memes: Option<bool>,
}

#[derive(Debug, Clone, Default)]
pub struct Summary {
    pub owners_count: Option<i32>,
    pub members_count: Option<i32>,
    pub guests_count: Option<i32>,
}

/// A tab installed on a channel. The same shape is sent as the body of the
/// tab-creation request.
#[derive(Debug, Clone, Default)]
pub struct TeamsTab {
    pub display_name: Option<String>,
    pub teams_app_data_bind: Option<String>,
    pub configuration: Option<TeamsTabConfiguration>,
}

#[verifier::ext_equal]
pub ghost struct TeamsTabV {
    pub display_name: Option<Seq<char>>,
    pub teams_app_data_bind: Option<Seq<char>>,
    pub configuration: Option<TeamsTabConfigurationV>,
}

impl View for TeamsTab {
    type V = TeamsTabV;

    open spec fn view(&self) -> TeamsTabV {
        TeamsTabV {
            display_name: match self.display_name {
                Some(s) => Some(s@),
                None => None,
            },
            teams_app_data_bind: match self.teams_app_data_bind {
                Some(s) => Some(s@),
                None => None,
            },
            configuration: match self.configuration {
                Some(c) => Some(c@),
                None => None,
            },
        }
    }
}

/// The four interpolated URLs and the entity id of a planner tab.
#[derive(Debug, Clone, Default)]
pub struct TeamsTabConfiguration {
    pub entity_id: Option<String>,
    pub content_url: Option<String>,
    pub website_url: Option<String>,
    pub remove_url: Option<String>,
}

#[verifier::ext_equal]
pub ghost struct TeamsTabConfigurationV {
    pub entity_id: Option<Seq<char>>,
    pub content_url: Option<Seq<char>>,
    pub website_url: Option<Seq<char>>,
    pub remove_url: Option<Seq<char>>,
}

impl View for TeamsTabConfiguration {
    type V = TeamsTabConfigurationV;

    open spec fn view(&self) -> TeamsTabConfigurationV {
        TeamsTabConfigurationV {
            entity_id: match self.entity_id {
                Some(s) => Some(s@),
                None => None,
            },
            content_url: match self.content_url {
                Some(s) => Some(s@),
                None => None,
            },
            website_url: match self.website_url {
                Some(s) => Some(s@),
                None => None,
            },
            remove_url: match self.remove_url {
                Some(s) => Some(s@),
                None => None,
            },
        }
    }
}

/// The title of the planner tab attached to a channel.
pub open spec fn tab_title_spec(channel_name: Seq<char>) -> Seq<char> {
    channel_name + " Tasks"@
}

/// Build the title of the planner tab attached to a channel.
pub fn tab_title(channel_name: &str) -> (r: String)
    ensures
        r@ == tab_title_spec(channel_name@),
{
    let mut s = channel_name.to_owned();
    s.append(" Tasks");
    s
}

/// The tab-creation payload wiring a channel to a plan: the planner app,
/// and the four interpolated configuration values.
pub open spec fn planner_tab_v(
    tab_name: Seq<char>,
    channel_id: Seq<char>,
    plan_id: Seq<char>,
) -> TeamsTabV {
    TeamsTabV {
        display_name: Some(tab_name),
        teams_app_data_bind: Some(crate::urls::planner_app_bind_spec()),
        configuration: Some(
            TeamsTabConfigurationV {
                entity_id: Some(crate::urls::tab_entity_id_spec(channel_id, plan_id)),
                content_url: Some(crate::urls::tab_content_url_spec(plan_id)),
                website_url: Some(crate::urls::tab_web_url_spec(plan_id)),
                remove_url: Some(crate::urls::tab_remove_url_spec(plan_id)),
            },
        ),
    }
}

/// Build the tab-creation payload.
pub fn planner_tab(tab_name: &str, channel_id: &str, plan_id: &str) -> (r: TeamsTab)
    ensures
        r@ == planner_tab_v(tab_name@, channel_id@, plan_id@),
{
    TeamsTab {
        display_name: Some(tab_name.to_owned()),
        teams_app_data_bind: Some(crate::urls::planner_app_bind()),
        configuration: Some(
            TeamsTabConfiguration {
                entity_id: Some(crate::urls::tab_entity_id(channel_id, plan_id)),
                content_url: Some(crate::urls::tab_content_url(plan_id)),
                website_url: Some(crate::urls::tab_web_url(plan_id)),
                remove_url: Some(crate::urls::tab_remove_url(plan_id)),
            },
        ),
    }
}

} // verus!
