//! Channel entities: the Graph channel object, channel membership payloads,
//! and the input/output records of the create-shared-channel workflow.

use vstd::prelude::*;
use crate::plan::CreatePlanForm;
use crate::plan::CreatePlanFormV;
use crate::team::Team;

verus! {

/// Graph API channel object.
#[derive(Debug, Clone, Default)]
pub struct Channel {
    pub id: Option<String>,
    pub email: Option<String>,
    pub description: Option<String>,
    pub created_date_time: Option<String>,
    pub display_name: Option<String>,
    pub is_favorite_by_default: Option<bool>,
    pub tenant_id: Option<String>,
    pub web_url: Option<String>,
    pub membership_type: Option<String>,
}

impl crate::lookup::NamedEntity for Channel {
    open spec fn match_name(&self, name: Seq<char>) -> bool {
        match self.display_name {
            Some(n) => n@ == name,
            None => false,
        }
    }

    fn name_matches(&self, name: &String) -> (r: bool) {
        match &self.display_name {
            Some(n) => *n == *name,
            None => false,
        }
    }
}

/// Graph API channel member object: a role list, the member kind
/// discriminator, and a user-binding URL.
#[derive(Debug, Clone)]
pub struct ChannelMember {
    pub roles: Vec<String>,
    pub odata_type: String,
    pub user_odata_bind: String,
}

#[verifier::ext_equal]
pub ghost struct ChannelMemberV {
    pub roles: Seq<Seq<char>>,
    pub odata_type: Seq<char>,
    pub user_odata_bind: Seq<char>,
}

impl View for ChannelMember {
    type V = ChannelMemberV;

    open spec fn view(&self) -> ChannelMemberV {
        ChannelMemberV {
            roles: self.roles@.map_values(|s: String| s@),
            odata_type: self.odata_type@,
            user_odata_bind: self.user_odata_bind@,
        }
    }
}

/// The body for creating a channel, serialized by the shell before sending.
#[derive(Debug, Clone)]
pub struct CreateChannelBody {
    pub display_name: String,
    pub description: String,
    pub membership_type: String,
    pub members: Vec<ChannelMember>,
}

#[verifier::ext_equal]
pub ghost struct CreateChannelBodyV {
    pub display_name: Seq<char>,
    pub description: Seq<char>,
    pub membership_type: Seq<char>,
    pub members: Seq<ChannelMemberV>,
}

impl View for CreateChannelBody {
    type V = CreateChannelBodyV;

    open spec fn view(&self) -> CreateChannelBodyV {
        CreateChannelBodyV {
            display_name: self.display_name@,
            description: self.description@,
            membership_type: self.membership_type@,
            members: self.members@.map_values(|m: ChannelMember| m@),
        }
    }
}

/// Channel collection wrapper, mirroring the list response.
#[derive(Debug, Clone, Default)]
pub struct ChannelCollection {
    pub odata_context: String,
    pub odata_count: Option<i32>,
    pub value: Vec<Channel>,
}

/// The input of the create-shared-channel workflow.
#[derive(Debug, Clone)]
pub struct CreateSharedChannelForm {
    pub team_name: String,
    pub channel_display_name: String,
    pub channel_description: String,
    pub owner_id: String,
    pub member_id: String,
    pub plan: Option<CreatePlanForm>,
}

#[verifier::ext_equal]
pub ghost struct CreateSharedChannelFormV {
    pub team_name: Seq<char>,
    pub channel_display_name: Seq<char>,
    pub channel_description: Seq<char>,
    pub owner_id: Seq<char>,
    pub member_id: Seq<char>,
    pub plan: Option<CreatePlanFormV>,
}

impl View for CreateSharedChannelForm {
    type V = CreateSharedChannelFormV;

    open spec fn view(&self) -> CreateSharedChannelFormV {
        CreateSharedChannelFormV {
            team_name: self.team_name@,
            channel_display_name: self.channel_display_name@,
            channel_description: self.channel_description@,
            owner_id: self.owner_id@,
            member_id: self.member_id@,
            plan: match self.plan {
                Some(p) => Some(p@),
                None => None,
            },
        }
    }
}

/// The membership payload that makes `user_id` an owner.
pub open spec fn owner_member_v(user_id: Seq<char>) -> ChannelMemberV {
    ChannelMemberV {
        roles: seq!["owner"@],
        odata_type: "#microsoft.graph.aadUserConversationMember"@,
        user_odata_bind: crate::urls::user_bind_url_spec(user_id),
    }
}

/// Build the membership payload that makes `user_id` an owner.
pub fn owner_member(user_id: &str) -> (r: ChannelMember)
    ensures
        r@ == owner_member_v(user_id@),
{
    let mut roles: Vec<String> = Vec::new();
    roles.push("owner".to_owned());
    let m = ChannelMember {
        roles,
        odata_type: "#microsoft.graph.aadUserConversationMember".to_owned(),
        user_odata_bind: crate::urls::user_bind_url(user_id),
    };
    proof {
        assert(m@.roles =~= seq!["owner"@]);
        assert(m@ =~= owner_member_v(user_id@));
    }
    m
}

/// The channel-creation payload for a form: the requested name and
/// description, shared membership, and the owner as initial member.
pub open spec fn create_channel_body_v(form: CreateSharedChannelFormV) -> CreateChannelBodyV {
    CreateChannelBodyV {
        display_name: form.channel_display_name,
        description: form.channel_description,
        membership_type: "shared"@,
        members: seq![owner_member_v(form.owner_id)],
    }
}

/// Build the channel-creation payload for a form.
pub fn create_channel_body(form: &CreateSharedChannelForm) -> (r: CreateChannelBody)
    ensures
        r@ == create_channel_body_v(form@),
{
    let mut members: Vec<ChannelMember> = Vec::new();
    members.push(owner_member(form.owner_id.as_str()));
    let b = CreateChannelBody {
        display_name: form.channel_display_name.clone(),
        description: form.channel_description.clone(),
        membership_type: "shared".to_owned(),
        members,
    };
    proof {
        assert(b@.members =~= seq![owner_member_v(form@.owner_id)]);
        assert(b@ =~= create_channel_body_v(form@));
    }
    b
}

/// The outward result record of the create-shared-channel workflow.
#[derive(Debug, Clone, Default)]
pub struct CreateSharedChannelResponse {
    pub channel: Option<Channel>,
    pub team: Option<Team>,
    pub general_channel: Option<Channel>,
    pub error: Option<String>,
    pub status: String,
}

} // verus!
