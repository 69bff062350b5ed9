//! The create-shared-channel orchestration.
//!
//! The workflow chains a fixed sequence of REST calls: resolve the team by
//! name, create the shared channel, re-resolve the team and the new channel,
//! resolve the "General" channel, add the extra owner, and — when a plan was
//! requested — create the plan, add the template's buckets one by one, and
//! install a planner tab on the channel. Every step that can fail aborts the
//! whole operation at once; nothing rolls back what was already created.
//!
//! The chain is an explicit state machine. [`step`] takes the current state
//! and the response to the pending request, and decides the next request or
//! the final outcome. The shell that owns the HTTP transport runs the loop:
//! it performs each [`Action`] and hands the response back as an [`Event`].

use vstd::prelude::*;
use vstd::string::StringExecFns;
use crate::channel::Channel;
use crate::channel::ChannelCollection;
use crate::channel::ChannelMember;
use crate::channel::ChannelMemberV;
use crate::channel::CreateChannelBody;
use crate::channel::CreateChannelBodyV;
use crate::channel::CreateSharedChannelForm;
use crate::channel::CreateSharedChannelFormV;
use crate::channel::create_channel_body;
use crate::channel::create_channel_body_v;
use crate::channel::owner_member;
use crate::channel::owner_member_v;
use crate::group::GroupCollection;
use crate::lookup::find_index_by_name;
use crate::lookup::first_match;
use crate::plan::Bucket;
use crate::plan::CreateBucketBody;
use crate::plan::CreateBucketBodyV;
use crate::plan::CreatePlanBody;
use crate::plan::CreatePlanBodyV;
use crate::plan::Plan;
use crate::plan::PlanCollection;
use crate::plan::PlanTemplateType;
use crate::plan::create_bucket_body;
use crate::plan::create_bucket_body_v;
use crate::plan::create_plan_body;
use crate::plan::create_plan_body_v;
use crate::plan::template_buckets;
use crate::plan::template_of;
use crate::team::Team;
use crate::team::TeamsTab;
use crate::team::TeamsTabV;
use crate::team::planner_tab;
use crate::team::planner_tab_v;
use crate::team::tab_title;
use crate::team::tab_title_spec;

verus! {

/// The HTTP verb of an [`Action`].
#[derive(Debug, Clone, Copy, PartialEq, Eq, Structural)]
pub enum HttpMethod {
    Get,
    Post,
}

/// The step of the workflow an error is attributed to.
#[derive(Debug, Clone, Copy, PartialEq, Eq, Structural)]
pub enum Step {
    TeamLookup,
    ChannelCreate,
    TeamRefetch,
    ChannelFetch,
    GeneralFetch,
    OwnerAdd,
    PlanCreate,
    BucketAdd,
    TabInstall,
}

/// What went wrong: a transport failure, a response that did not match the
/// expected schema, a lookup that matched nothing, a required field that was
/// absent, or a response of the wrong kind for the pending request.
#[derive(Debug, Clone)]
pub enum Fault {
    Transport(String),
    Deserialize(String),
    NotFound(String),
    MissingField(String),
    UnexpectedResponse,
}

#[verifier::ext_equal]
pub ghost enum FaultV {
    Transport(Seq<char>),
    Deserialize(Seq<char>),
    NotFound(Seq<char>),
    MissingField(Seq<char>),
    UnexpectedResponse,
}

impl View for Fault {
    type V = FaultV;

    open spec fn view(&self) -> FaultV {
        match self {
            Fault::Transport(m) => FaultV::Transport(m@),
            Fault::Deserialize(m) => FaultV::Deserialize(m@),
            Fault::NotFound(n) => FaultV::NotFound(n@),
            Fault::MissingField(f) => FaultV::MissingField(f@),
            Fault::UnexpectedResponse => FaultV::UnexpectedResponse,
        }
    }
}

/// An error of the workflow: the step it happened at, and the fault.
#[derive(Debug, Clone)]
pub struct FlowError {
    pub step: Step,
    pub fault: Fault,
}

#[verifier::ext_equal]
pub ghost struct FlowErrorV {
    pub step: Step,
    pub fault: FaultV,
}

impl View for FlowError {
    type V = FlowErrorV;

    open spec fn view(&self) -> FlowErrorV {
        FlowErrorV { step: self.step, fault: self.fault@ }
    }
}

/// A request the shell must perform next.
#[derive(Debug, Clone)]
pub enum Action {
    /// List the groups that carry a team.
    GetGroupsWithTeams,
    /// Fetch the team behind a group.
    GetTeam { group_id: String },
    /// Create the shared channel under a team.
    PostCreateChannel { team_id: String, body: CreateChannelBody },
    /// List a team's channels.
    GetChannels { team_id: String },
    /// Add an owner to a channel.
    PostAddOwner { team_id: String, channel_id: String, body: ChannelMember },
    /// Create a plan.
    PostCreatePlan { body: CreatePlanBody },
    /// List a group's plans.
    GetPlans { group_id: String },
    /// Add a bucket to a plan.
    PostCreateBucket { body: CreateBucketBody },
    /// Install the planner app into a team.
    PostInstallPlannerApp { team_id: String },
    /// Create a planner tab on a channel.
    PostCreateTab { team_id: String, channel_id: String, body: TeamsTab },
}

#[verifier::ext_equal]
pub ghost enum ActionV {
    GetGroupsWithTeams,
    GetTeam { group_id: Seq<char> },
    PostCreateChannel { team_id: Seq<char>, body: CreateChannelBodyV },
    GetChannels { team_id: Seq<char> },
    PostAddOwner { team_id: Seq<char>, channel_id: Seq<char>, body: ChannelMemberV },
    PostCreatePlan { body: CreatePlanBodyV },
    GetPlans { group_id: Seq<char> },
    PostCreateBucket { body: CreateBucketBodyV },
    PostInstallPlannerApp { team_id: Seq<char> },
    PostCreateTab { team_id: Seq<char>, channel_id: Seq<char>, body: TeamsTabV },
}

impl View for Action {
    type V = ActionV;

    open spec fn view(&self) -> ActionV {
        match self {
            Action::GetGroupsWithTeams => ActionV::GetGroupsWithTeams,
            Action::GetTeam { group_id } => ActionV::GetTeam { group_id: group_id@ },
            Action::PostCreateChannel { team_id, body } => ActionV::PostCreateChannel {
                team_id: team_id@,
                body: body@,
            },
            Action::GetChannels { team_id } => ActionV::GetChannels { team_id: team_id@ },
            Action::PostAddOwner { team_id, channel_id, body } => ActionV::PostAddOwner {
                team_id: team_id@,
                channel_id: channel_id@,
                body: body@,
            },
            Action::PostCreatePlan { body } => ActionV::PostCreatePlan { body: body@ },
            Action::GetPlans { group_id } => ActionV::GetPlans { group_id: group_id@ },
            Action::PostCreateBucket { body } => ActionV::PostCreateBucket { body: body@ },
            Action::PostInstallPlannerApp { team_id } => ActionV::PostInstallPlannerApp {
                team_id: team_id@,
            },
            Action::PostCreateTab { team_id, channel_id, body } => ActionV::PostCreateTab {
                team_id: team_id@,
                channel_id: channel_id@,
                body: body@,
            },
        }
    }
}

/// The URL an action is sent to.
pub open spec fn action_url_spec(a: ActionV) -> Seq<char> {
    match a {
        ActionV::GetGroupsWithTeams => crate::urls::groups_with_teams_url_spec(),
        ActionV::GetTeam { group_id } => crate::urls::team_by_group_url_spec(group_id),
        ActionV::PostCreateChannel { team_id, .. } => crate::urls::channels_url_spec(team_id),
        ActionV::GetChannels { team_id } => crate::urls::channels_url_spec(team_id),
        ActionV::PostAddOwner { team_id, channel_id, .. } => crate::urls::channel_members_url_spec(
            team_id,
            channel_id,
        ),
        ActionV::PostCreatePlan { .. } => crate::urls::create_plan_url_spec(),
        ActionV::GetPlans { group_id } => crate::urls::plans_url_spec(group_id),
        ActionV::PostCreateBucket { .. } => crate::urls::create_bucket_url_spec(),
        ActionV::PostInstallPlannerApp { team_id } => crate::urls::installed_apps_url_spec(team_id),
        ActionV::PostCreateTab { team_id, channel_id, .. } => crate::urls::tabs_url_spec(
            team_id,
            channel_id,
        ),
    }
}

/// The HTTP verb of an action.
pub open spec fn action_method_spec(a: ActionV) -> HttpMethod {
    match a {
        ActionV::GetGroupsWithTeams => HttpMethod::Get,
        ActionV::GetTeam { .. } => HttpMethod::Get,
        ActionV::PostCreateChannel { .. } => HttpMethod::Post,
        ActionV::GetChannels { .. } => HttpMethod::Get,
        ActionV::PostAddOwner { .. } => HttpMethod::Post,
        ActionV::PostCreatePlan { .. } => HttpMethod::Post,
        ActionV::GetPlans { .. } => HttpMethod::Get,
        ActionV::PostCreateBucket { .. } => HttpMethod::Post,
        ActionV::PostInstallPlannerApp { .. } => HttpMethod::Post,
        ActionV::PostCreateTab { .. } => HttpMethod::Post,
    }
}

impl Action {
    /// The URL this action is sent to.
    pub fn url(&self) -> (r: String)
        ensures
            r@ == action_url_spec(self@),
    {
        match self {
            Action::GetGroupsWithTeams => crate::urls::groups_with_teams_url(),
            Action::GetTeam { group_id } => crate::urls::team_by_group_url(group_id.as_str()),
            Action::PostCreateChannel { team_id, .. } => crate::urls::channels_url(
                team_id.as_str(),
            ),
            Action::GetChannels { team_id } => crate::urls::channels_url(team_id.as_str()),
            Action::PostAddOwner { team_id, channel_id, .. } => crate::urls::channel_members_url(
                team_id.as_str(),
                channel_id.as_str(),
            ),
            Action::PostCreatePlan { .. } => crate::urls::create_plan_url(),
            Action::GetPlans { group_id } => crate::urls::plans_url(group_id.as_str()),
            Action::PostCreateBucket { .. } => crate::urls::create_bucket_url(),
            Action::PostInstallPlannerApp { team_id } => crate::urls::installed_apps_url(
                team_id.as_str(),
            ),
            Action::PostCreateTab { team_id, channel_id, .. } => crate::urls::tabs_url(
                team_id.as_str(),
                channel_id.as_str(),
            ),
        }
    }

    /// The HTTP verb of this action.
    pub fn method(&self) -> (m: HttpMethod)
        ensures
            m == action_method_spec(self@),
    {
        match self {
            Action::GetGroupsWithTeams => HttpMethod::Get,
            Action::GetTeam { .. } => HttpMethod::Get,
            Action::PostCreateChannel { .. } => HttpMethod::Post,
            Action::GetChannels { .. } => HttpMethod::Get,
            Action::PostAddOwner { .. } => HttpMethod::Post,
            Action::PostCreatePlan { .. } => HttpMethod::Post,
            Action::GetPlans { .. } => HttpMethod::Get,
            Action::PostCreateBucket { .. } => HttpMethod::Post,
            Action::PostInstallPlannerApp { .. } => HttpMethod::Post,
            Action::PostCreateTab { .. } => HttpMethod::Post,
        }
    }
}

/// The response to the pending request, as the shell hands it back.
#[derive(Debug, Clone)]
pub enum Event {
    /// A deserialized group listing.
    Groups(GroupCollection),
    /// A deserialized team.
    Team(Team),
    /// A deserialized channel listing.
    Channels(ChannelCollection),
    /// A deserialized created plan.
    Plan(Plan),
    /// A deserialized plan listing.
    Plans(PlanCollection),
    /// A deserialized created bucket.
    Bucket(Bucket),
    /// A deserialized created tab.
    Tab(TeamsTab),
    /// A response whose body the workflow does not read.
    Accepted,
    /// A transport or deserialization failure.
    Failed(Fault),
}

#[verifier::ext_equal]
pub ghost enum EventV {
    Groups(GroupCollection),
    Team(Team),
    Channels(ChannelCollection),
    Plan(Plan),
    Plans(PlanCollection),
    Bucket(Bucket),
    Tab(TeamsTab),
    Accepted,
    Failed(FaultV),
}

impl View for Event {
    type V = EventV;

    open spec fn view(&self) -> EventV {
        match self {
            Event::Groups(gc) => EventV::Groups(*gc),
            Event::Team(t) => EventV::Team(*t),
            Event::Channels(cc) => EventV::Channels(*cc),
            Event::Plan(p) => EventV::Plan(*p),
            Event::Plans(pc) => EventV::Plans(*pc),
            Event::Bucket(b) => EventV::Bucket(*b),
            Event::Tab(t) => EventV::Tab(*t),
            Event::Accepted => EventV::Accepted,
            Event::Failed(f) => EventV::Failed(f@),
        }
    }
}

/// The entities gathered before the plan is created.
#[derive(Debug, Clone)]
pub struct PlanSetup {
    pub team: Team,
    pub channel: Channel,
    pub general: Channel,
    pub team_display: String,
    pub plan_name: String,
    pub template: PlanTemplateType,
}

#[verifier::ext_equal]
pub ghost struct PlanSetupV {
    pub team: Team,
    pub channel: Channel,
    pub general: Channel,
    pub team_display: Seq<char>,
    pub plan_name: Seq<char>,
    pub template: PlanTemplateType,
}

impl View for PlanSetup {
    type V = PlanSetupV;

    open spec fn view(&self) -> PlanSetupV {
        PlanSetupV {
            team: self.team,
            channel: self.channel,
            general: self.general,
            team_display: self.team_display@,
            plan_name: self.plan_name@,
            template: self.template,
        }
    }
}

/// The entities carried through the bucket-creation loop.
#[derive(Debug, Clone)]
pub struct BucketRun {
    pub team: Team,
    pub channel: Channel,
    pub general: Channel,
    pub team_display: String,
    pub plan: Plan,
    pub bucket_title: String,
    pub buckets: Vec<String>,
    pub next: usize,
}

#[verifier::ext_equal]
pub ghost struct BucketRunV {
    pub team: Team,
    pub channel: Channel,
    pub general: Channel,
    pub team_display: Seq<char>,
    pub plan: Plan,
    pub bucket_title: Seq<char>,
    pub buckets: Seq<Seq<char>>,
    pub next: int,
}

impl View for BucketRun {
    type V = BucketRunV;

    open spec fn view(&self) -> BucketRunV {
        BucketRunV {
            team: self.team,
            channel: self.channel,
            general: self.general,
            team_display: self.team_display@,
            plan: self.plan,
            bucket_title: self.bucket_title@,
            buckets: self.buckets@.map_values(|s: String| s@),
            next: self.next as int,
        }
    }
}

/// The entities carried through the tab installation.
#[derive(Debug, Clone)]
pub struct TabStage {
    pub team: Team,
    pub channel: Channel,
    pub general: Channel,
    pub plan_id: String,
    pub tab_name: String,
}

#[verifier::ext_equal]
pub ghost struct TabStageV {
    pub team: Team,
    pub channel: Channel,
    pub general: Channel,
    pub plan_id: Seq<char>,
    pub tab_name: Seq<char>,
}

impl View for TabStage {
    type V = TabStageV;

    open spec fn view(&self) -> TabStageV {
        TabStageV {
            team: self.team,
            channel: self.channel,
            general: self.general,
            plan_id: self.plan_id@,
            tab_name: self.tab_name@,
        }
    }
}

/// Where the workflow stands: which response it is waiting for, and what it
/// has gathered so far.
#[derive(Debug, Clone)]
pub enum FlowState {
    /// Waiting for the group listing of the first team lookup.
    TeamGroups,
    /// Waiting for the team of the first team lookup.
    TeamGet,
    /// Waiting for the channel-creation acknowledgement.
    ChannelPost,
    /// Waiting for the group listing of the defensive team re-fetch.
    RefetchGroups,
    /// Waiting for the team of the defensive team re-fetch.
    RefetchTeam,
    /// Waiting for the channel listing that should hold the new channel.
    ChannelList { team: Team },
    /// Waiting for the channel listing that should hold "General".
    GeneralList { team: Team, channel: Channel },
    /// Waiting for the owner-add acknowledgement.
    OwnerPost { team: Team, channel: Channel, general: Channel },
    /// Waiting for the group listing of the plan-creation team lookup.
    PlanGroups { ctx: PlanSetup },
    /// Waiting for the team of the plan-creation team lookup.
    PlanTeam { ctx: PlanSetup },
    /// Waiting for the created plan.
    PlanPost { ctx: PlanSetup },
    /// Waiting for the group listing of a bucket's team lookup.
    BucketGroups { ctx: BucketRun },
    /// Waiting for the team of a bucket's team lookup.
    BucketTeam { ctx: BucketRun },
    /// Waiting for the plan listing a bucket's plan is resolved from.
    BucketPlans { ctx: BucketRun },
    /// Waiting for the created bucket.
    BucketPost { ctx: BucketRun },
    /// Waiting for the app-installation acknowledgement.
    TabAppPost { ctx: TabStage },
    /// Waiting for the created tab.
    TabPost { team: Team, channel: Channel, general: Channel },
}

#[verifier::ext_equal]
pub ghost enum FlowStateV {
    TeamGroups,
    TeamGet,
    ChannelPost,
    RefetchGroups,
    RefetchTeam,
    ChannelList { team: Team },
    GeneralList { team: Team, channel: Channel },
    OwnerPost { team: Team, channel: Channel, general: Channel },
    PlanGroups { ctx: PlanSetupV },
    PlanTeam { ctx: PlanSetupV },
    PlanPost { ctx: PlanSetupV },
    BucketGroups { ctx: BucketRunV },
    BucketTeam { ctx: BucketRunV },
    BucketPlans { ctx: BucketRunV },
    BucketPost { ctx: BucketRunV },
    TabAppPost { ctx: TabStageV },
    TabPost { team: Team, channel: Channel, general: Channel },
}

impl View for FlowState {
    type V = FlowStateV;

    open spec fn view(&self) -> FlowStateV {
        match self {
            FlowState::TeamGroups => FlowStateV::TeamGroups,
            FlowState::TeamGet => FlowStateV::TeamGet,
            FlowState::ChannelPost => FlowStateV::ChannelPost,
            FlowState::RefetchGroups => FlowStateV::RefetchGroups,
            FlowState::RefetchTeam => FlowStateV::RefetchTeam,
            FlowState::ChannelList { team } => FlowStateV::ChannelList { team: *team },
            FlowState::GeneralList { team, channel } => FlowStateV::GeneralList {
                team: *team,
                channel: *channel,
            },
            FlowState::OwnerPost { team, channel, general } => FlowStateV::OwnerPost {
                team: *team,
                channel: *channel,
                general: *general,
            },
            FlowState::PlanGroups { ctx } => FlowStateV::PlanGroups { ctx: ctx@ },
            FlowState::PlanTeam { ctx } => FlowStateV::PlanTeam { ctx: ctx@ },
            FlowState::PlanPost { ctx } => FlowStateV::PlanPost { ctx: ctx@ },
            FlowState::BucketGroups { ctx } => FlowStateV::BucketGroups { ctx: ctx@ },
            FlowState::BucketTeam { ctx } => FlowStateV::BucketTeam { ctx: ctx@ },
            FlowState::BucketPlans { ctx } => FlowStateV::BucketPlans { ctx: ctx@ },
            FlowState::BucketPost { ctx } => FlowStateV::BucketPost { ctx: ctx@ },
            FlowState::TabAppPost { ctx } => FlowStateV::TabAppPost { ctx: ctx@ },
            FlowState::TabPost { team, channel, general } => FlowStateV::TabPost {
                team: *team,
                channel: *channel,
                general: *general,
            },
        }
    }
}

/// The result the workflow returns on success: the re-fetched team, the new
/// channel, and the "General" channel.
#[derive(Debug, Clone)]
pub struct FlowSuccess {
    pub team: Team,
    pub channel: Channel,
    pub general: Channel,
}

/// What the workflow decides after a response: either the next request with
/// the next state, or the final outcome.
#[derive(Debug)]
pub enum Transition {
    Next(Action, FlowState),
    Done(Result<FlowSuccess, FlowError>),
}

#[verifier::ext_equal]
pub ghost enum TransitionV {
    Next(ActionV, FlowStateV),
    Done(Result<FlowSuccess, FlowErrorV>),
}

impl View for Transition {
    type V = TransitionV;

    open spec fn view(&self) -> TransitionV {
        match self {
            Transition::Next(a, s) => TransitionV::Next(a@, s@),
            Transition::Done(r) => TransitionV::Done(
                match r {
                    Ok(s) => Ok(*s),
                    Err(e) => Err(e@),
                },
            ),
        }
    }
}


/// Abort the workflow with an error at `step`.
pub open spec fn fail_v(step: Step, fault: FaultV) -> TransitionV {
    TransitionV::Done(Err(FlowErrorV { step: step, fault: fault }))
}

/// First team lookup, group listing received.
pub open spec fn on_team_groups(form: CreateSharedChannelFormV, ev: EventV) -> TransitionV {
    match ev {
        EventV::Groups(gc) => match first_match(gc.value@, form.team_name) {
            Some(g) => TransitionV::Next(
                ActionV::GetTeam { group_id: g.id@ },
                FlowStateV::TeamGet,
            ),
            None => fail_v(Step::TeamLookup, FaultV::NotFound(form.team_name)),
        },
        EventV::Failed(f) => fail_v(Step::TeamLookup, f),
        _ => fail_v(Step::TeamLookup, FaultV::UnexpectedResponse),
    }
}

/// First team lookup, team received: request the channel creation.
pub open spec fn on_team_get(form: CreateSharedChannelFormV, ev: EventV) -> TransitionV {
    match ev {
        EventV::Team(t) => TransitionV::Next(
            ActionV::PostCreateChannel { team_id: t.id@, body: create_channel_body_v(form) },
            FlowStateV::ChannelPost,
        ),
        EventV::Failed(f) => fail_v(Step::TeamLookup, f),
        _ => fail_v(Step::TeamLookup, FaultV::UnexpectedResponse),
    }
}

/// Channel creation acknowledged: re-resolve the team defensively.
pub open spec fn on_channel_post(ev: EventV) -> TransitionV {
    match ev {
        EventV::Accepted => TransitionV::Next(
            ActionV::GetGroupsWithTeams,
            FlowStateV::RefetchGroups,
        ),
        EventV::Failed(f) => fail_v(Step::ChannelCreate, f),
        _ => fail_v(Step::ChannelCreate, FaultV::UnexpectedResponse),
    }
}

/// Team re-fetch, group listing received.
pub open spec fn on_refetch_groups(form: CreateSharedChannelFormV, ev: EventV) -> TransitionV {
    match ev {
        EventV::Groups(gc) => match first_match(gc.value@, form.team_name) {
            Some(g) => TransitionV::Next(
                ActionV::GetTeam { group_id: g.id@ },
                FlowStateV::RefetchTeam,
            ),
            None => fail_v(Step::TeamRefetch, FaultV::NotFound(form.team_name)),
        },
        EventV::Failed(f) => fail_v(Step::TeamRefetch, f),
        _ => fail_v(Step::TeamRefetch, FaultV::UnexpectedResponse),
    }
}

/// Team re-fetch, team received: list its channels.
pub open spec fn on_refetch_team(ev: EventV) -> TransitionV {
    match ev {
        EventV::Team(t) => TransitionV::Next(
            ActionV::GetChannels { team_id: t.id@ },
            FlowStateV::ChannelList { team: t },
        ),
        EventV::Failed(f) => fail_v(Step::TeamRefetch, f),
        _ => fail_v(Step::TeamRefetch, FaultV::UnexpectedResponse),
    }
}

/// Channel listing received: resolve the new channel, then list again for
/// "General".
pub open spec fn on_channel_list(
    form: CreateSharedChannelFormV,
    team: Team,
    ev: EventV,
) -> TransitionV {
    match ev {
        EventV::Channels(cc) => match first_match(cc.value@, form.channel_display_name) {
            Some(c) => TransitionV::Next(
                ActionV::GetChannels { team_id: team.id@ },
                FlowStateV::GeneralList { team: team, channel: c },
            ),
            None => fail_v(Step::ChannelFetch, FaultV::NotFound(form.channel_display_name)),
        },
        EventV::Failed(f) => fail_v(Step::ChannelFetch, f),
        _ => fail_v(Step::ChannelFetch, FaultV::UnexpectedResponse),
    }
}

/// Channel listing received: resolve "General", then request the owner add.
pub open spec fn on_general_list(
    form: CreateSharedChannelFormV,
    team: Team,
    channel: Channel,
    ev: EventV,
) -> TransitionV {
    match ev {
        EventV::Channels(cc) => match first_match(cc.value@, "General"@) {
            Some(g) => match channel.id {
                Some(cid) => TransitionV::Next(
                    ActionV::PostAddOwner {
                        team_id: team.id@,
                        channel_id: cid@,
                        body: owner_member_v(form.member_id),
                    },
                    FlowStateV::OwnerPost { team: team, channel: channel, general: g },
                ),
                None => fail_v(Step::OwnerAdd, FaultV::MissingField("Channel ID"@)),
            },
            None => fail_v(Step::GeneralFetch, FaultV::NotFound("General"@)),
        },
        EventV::Failed(f) => fail_v(Step::GeneralFetch, f),
        _ => fail_v(Step::GeneralFetch, FaultV::UnexpectedResponse),
    }
}

/// Owner add acknowledged: finish, or start the plan stage.
pub open spec fn on_owner_post(
    form: CreateSharedChannelFormV,
    team: Team,
    channel: Channel,
    general: Channel,
    ev: EventV,
) -> TransitionV {
    match ev {
        EventV::Accepted => match form.plan {
            None => TransitionV::Done(
                Ok(FlowSuccess { team: team, channel: channel, general: general }),
            ),
            Some(pf) => match team.display_name {
                Some(d) => TransitionV::Next(
                    ActionV::GetGroupsWithTeams,
                    FlowStateV::PlanGroups {
                        ctx: PlanSetupV {
                            team: team,
                            channel: channel,
                            general: general,
                            team_display: d@,
                            plan_name: pf.plan_name,
                            template: template_of(pf.plan_template),
                        },
                    },
                ),
                None => fail_v(Step::PlanCreate, FaultV::MissingField("Team display name"@)),
            },
        },
        EventV::Failed(f) => fail_v(Step::OwnerAdd, f),
        _ => fail_v(Step::OwnerAdd, FaultV::UnexpectedResponse),
    }
}

/// Plan-stage team lookup, group listing received.
pub open spec fn on_plan_groups(ctx: PlanSetupV, ev: EventV) -> TransitionV {
    match ev {
        EventV::Groups(gc) => match first_match(gc.value@, ctx.team_display) {
            Some(g) => TransitionV::Next(
                ActionV::GetTeam { group_id: g.id@ },
                FlowStateV::PlanTeam { ctx: ctx },
            ),
            None => fail_v(Step::PlanCreate, FaultV::NotFound(ctx.team_display)),
        },
        EventV::Failed(f) => fail_v(Step::PlanCreate, f),
        _ => fail_v(Step::PlanCreate, FaultV::UnexpectedResponse),
    }
}

/// Plan-stage team lookup, team received: request the plan creation.
pub open spec fn on_plan_team(ctx: PlanSetupV, ev: EventV) -> TransitionV {
    match ev {
        EventV::Team(t) => TransitionV::Next(
            ActionV::PostCreatePlan { body: create_plan_body_v(t.id@, ctx.plan_name) },
            FlowStateV::PlanPost { ctx: ctx },
        ),
        EventV::Failed(f) => fail_v(Step::PlanCreate, f),
        _ => fail_v(Step::PlanCreate, FaultV::UnexpectedResponse),
    }
}

/// Move on to the tab installation, which first needs the channel's display
/// name for the tab title.
pub open spec fn enter_tab_v(
    team: Team,
    channel: Channel,
    general: Channel,
    plan_id: Seq<char>,
) -> TransitionV {
    match channel.display_name {
        Some(d) => TransitionV::Next(
            ActionV::PostInstallPlannerApp { team_id: team.id@ },
            FlowStateV::TabAppPost {
                ctx: TabStageV {
                    team: team,
                    channel: channel,
                    general: general,
                    plan_id: plan_id,
                    tab_name: tab_title_spec(d@),
                },
            },
        ),
        None => fail_v(Step::TabInstall, FaultV::MissingField("Channel display name"@)),
    }
}

/// Created plan received: enter the bucket loop, or go straight to the tab.
pub open spec fn on_plan_post(ctx: PlanSetupV, ev: EventV) -> TransitionV {
    match ev {
        EventV::Plan(p) => {
            let title = match p.title {
                Some(t) => t@,
                None => ctx.plan_name,
            };
            let buckets = template_buckets(ctx.template);
            if buckets.len() == 0 {
                enter_tab_v(ctx.team, ctx.channel, ctx.general, p.id@)
            } else {
                TransitionV::Next(
                    ActionV::GetGroupsWithTeams,
                    FlowStateV::BucketGroups {
                        ctx: BucketRunV {
                            team: ctx.team,
                            channel: ctx.channel,
                            general: ctx.general,
                            team_display: ctx.team_display,
                            plan: p,
                            bucket_title: title,
                            buckets: buckets,
                            next: 0,
                        },
                    },
                )
            }
        },
        EventV::Failed(f) => fail_v(Step::PlanCreate, f),
        _ => fail_v(Step::PlanCreate, FaultV::UnexpectedResponse),
    }
}

/// Bucket-stage team lookup, group listing received.
pub open spec fn on_bucket_groups(ctx: BucketRunV, ev: EventV) -> TransitionV {
    match ev {
        EventV::Groups(gc) => match first_match(gc.value@, ctx.team_display) {
            Some(g) => TransitionV::Next(
                ActionV::GetTeam { group_id: g.id@ },
                FlowStateV::BucketTeam { ctx: ctx },
            ),
            None => fail_v(Step::BucketAdd, FaultV::NotFound(ctx.team_display)),
        },
        EventV::Failed(f) => fail_v(Step::BucketAdd, f),
        _ => fail_v(Step::BucketAdd, FaultV::UnexpectedResponse),
    }
}

/// Bucket-stage team lookup, team received: list the group's plans.
pub open spec fn on_bucket_team(ctx: BucketRunV, ev: EventV) -> TransitionV {
    match ev {
        EventV::Team(t) => TransitionV::Next(
            ActionV::GetPlans { group_id: t.id@ },
            FlowStateV::BucketPlans { ctx: ctx },
        ),
        EventV::Failed(f) => fail_v(Step::BucketAdd, f),
        _ => fail_v(Step::BucketAdd, FaultV::UnexpectedResponse),
    }
}

/// Plan listing received: resolve the plan by title, then request the bucket
/// creation.
pub open spec fn on_bucket_plans(ctx: BucketRunV, ev: EventV) -> TransitionV {
    match ev {
        EventV::Plans(pc) => match pc.value {
            Some(ps) => match first_match(ps@, ctx.bucket_title) {
                Some(found) => TransitionV::Next(
                    ActionV::PostCreateBucket {
                        body: create_bucket_body_v(ctx.buckets[ctx.next], found.id@),
                    },
                    FlowStateV::BucketPost { ctx: ctx },
                ),
                None => fail_v(Step::BucketAdd, FaultV::NotFound(ctx.bucket_title)),
            },
            None => fail_v(Step::BucketAdd, FaultV::MissingField("plan list"@)),
        },
        EventV::Failed(f) => fail_v(Step::BucketAdd, f),
        _ => fail_v(Step::BucketAdd, FaultV::UnexpectedResponse),
    }
}

/// Created bucket received: next bucket, or move on to the tab.
pub open spec fn on_bucket_post(ctx: BucketRunV, ev: EventV) -> TransitionV {
    match ev {
        EventV::Bucket(b) => {
            if ctx.next + 1 < ctx.buckets.len() {
                TransitionV::Next(
                    ActionV::GetGroupsWithTeams,
                    FlowStateV::BucketGroups {
                        ctx: BucketRunV {
                            team: ctx.team,
                            channel: ctx.channel,
                            general: ctx.general,
                            team_display: ctx.team_display,
                            plan: ctx.plan,
                            bucket_title: ctx.bucket_title,
                            buckets: ctx.buckets,
                            next: ctx.next + 1,
                        },
                    },
                )
            } else {
                enter_tab_v(ctx.team, ctx.channel, ctx.general, ctx.plan.id@)
            }
        },
        EventV::Failed(f) => fail_v(Step::BucketAdd, f),
        _ => fail_v(Step::BucketAdd, FaultV::UnexpectedResponse),
    }
}

/// App installation acknowledged: request the tab creation.
pub open spec fn on_tab_app_post(ctx: TabStageV, ev: EventV) -> TransitionV {
    match ev {
        EventV::Accepted => match ctx.channel.id {
            Some(cid) => TransitionV::Next(
                ActionV::PostCreateTab {
                    team_id: ctx.team.id@,
                    channel_id: cid@,
                    body: planner_tab_v(ctx.tab_name, cid@, ctx.plan_id),
                },
                FlowStateV::TabPost {
                    team: ctx.team,
                    channel: ctx.channel,
                    general: ctx.general,
                },
            ),
            None => fail_v(Step::TabInstall, FaultV::MissingField("Channel ID"@)),
        },
        EventV::Failed(f) => fail_v(Step::TabInstall, f),
        _ => fail_v(Step::TabInstall, FaultV::UnexpectedResponse),
    }
}

/// Created tab received: the workflow is complete.
pub open spec fn on_tab_post(team: Team, channel: Channel, general: Channel, ev: EventV) -> TransitionV {
    match ev {
        EventV::Tab(t) => TransitionV::Done(
            Ok(FlowSuccess { team: team, channel: channel, general: general }),
        ),
        EventV::Failed(f) => fail_v(Step::TabInstall, f),
        _ => fail_v(Step::TabInstall, FaultV::UnexpectedResponse),
    }
}

/// The transition relation of the workflow: what the next request or the
/// final outcome is, for a state and the response received in it.
pub open spec fn step_model(
    form: CreateSharedChannelFormV,
    state: FlowStateV,
    ev: EventV,
) -> TransitionV {
    match state {
        FlowStateV::TeamGroups => on_team_groups(form, ev),
        FlowStateV::TeamGet => on_team_get(form, ev),
        FlowStateV::ChannelPost => on_channel_post(ev),
        FlowStateV::RefetchGroups => on_refetch_groups(form, ev),
        FlowStateV::RefetchTeam => on_refetch_team(ev),
        FlowStateV::ChannelList { team } => on_channel_list(form, team, ev),
        FlowStateV::GeneralList { team, channel } => on_general_list(form, team, channel, ev),
        FlowStateV::OwnerPost { team, channel, general } => on_owner_post(
            form,
            team,
            channel,
            general,
            ev,
        ),
        FlowStateV::PlanGroups { ctx } => on_plan_groups(ctx, ev),
        FlowStateV::PlanTeam { ctx } => on_plan_team(ctx, ev),
        FlowStateV::PlanPost { ctx } => on_plan_post(ctx, ev),
        FlowStateV::BucketGroups { ctx } => on_bucket_groups(ctx, ev),
        FlowStateV::BucketTeam { ctx } => on_bucket_team(ctx, ev),
        FlowStateV::BucketPlans { ctx } => on_bucket_plans(ctx, ev),
        FlowStateV::BucketPost { ctx } => on_bucket_post(ctx, ev),
        FlowStateV::TabAppPost { ctx } => on_tab_app_post(ctx, ev),
        FlowStateV::TabPost { team, channel, general } => on_tab_post(team, channel, general, ev),
    }
}

/// The bucket index yet to be created lies inside the bucket list.
pub open spec fn bucket_ctx_wf(ctx: BucketRunV) -> bool {
    0 <= ctx.next < ctx.buckets.len()
}

/// The internal consistency every reachable state satisfies.
pub open spec fn state_wf(state: FlowStateV) -> bool {
    match state {
        FlowStateV::BucketGroups { ctx } => bucket_ctx_wf(ctx),
        FlowStateV::BucketTeam { ctx } => bucket_ctx_wf(ctx),
        FlowStateV::BucketPlans { ctx } => bucket_ctx_wf(ctx),
        FlowStateV::BucketPost { ctx } => bucket_ctx_wf(ctx),
        _ => true,
    }
}

/// Every transition out of a consistent state leads to a consistent state.
pub proof fn lemma_step_model_wf(form: CreateSharedChannelFormV, state: FlowStateV, ev: EventV)
    requires
        state_wf(state),
    ensures
        (match step_model(form, state, ev) {
            TransitionV::Next(a, s2) => state_wf(s2),
            TransitionV::Done(r) => true,
        }),
{
}


/// Build the failure transition for `step`.
fn fail(step: Step, fault: Fault) -> (r: Transition)
    ensures
        r@ == fail_v(step, fault@),
{
    Transition::Done(Err(FlowError { step, fault }))
}

/// Executable form of [`enter_tab_v`].
fn enter_tab(team: Team, channel: Channel, general: Channel, plan_id: String) -> (r: Transition)
    ensures
        r@ == enter_tab_v(team, channel, general, plan_id@),
{
    match &channel.display_name {
        Some(d) => {
            let name = tab_title(d.as_str());
            let team_id = team.id.clone();
            Transition::Next(
                Action::PostInstallPlannerApp { team_id },
                FlowState::TabAppPost {
                    ctx: TabStage { team, channel, general, plan_id, tab_name: name },
                },
            )
        },
        None => fail(Step::TabInstall, Fault::MissingField("Channel display name".to_owned())),
    }
}

/// The first request of the workflow and the state awaiting its response.
pub fn start() -> (r: (Action, FlowState))
    ensures
        r.0@ == ActionV::GetGroupsWithTeams,
        r.1@ == FlowStateV::TeamGroups,
{
    (Action::GetGroupsWithTeams, FlowState::TeamGroups)
}

fn step_team_groups(form: &CreateSharedChannelForm, event: Event) -> (r: Transition)
    ensures
        r@ == on_team_groups(form@, event@),
{
    match event {
        Event::Groups(mut gc) => match find_index_by_name(&gc.value, &form.team_name) {
            Some(i) => {
                let g = gc.value.remove(i);
                Transition::Next(Action::GetTeam { group_id: g.id }, FlowState::TeamGet)
            },
            None => fail(Step::TeamLookup, Fault::NotFound(form.team_name.clone())),
        },
        Event::Failed(f) => fail(Step::TeamLookup, f),
        _ => fail(Step::TeamLookup, Fault::UnexpectedResponse),
    }
}

fn step_team_get(form: &CreateSharedChannelForm, event: Event) -> (r: Transition)
    ensures
        r@ == on_team_get(form@, event@),
{
    match event {
        Event::Team(t) => Transition::Next(
            Action::PostCreateChannel { team_id: t.id, body: create_channel_body(form) },
            FlowState::ChannelPost,
        ),
        Event::Failed(f) => fail(Step::TeamLookup, f),
        _ => fail(Step::TeamLookup, Fault::UnexpectedResponse),
    }
}

fn step_channel_post(event: Event) -> (r: Transition)
    ensures
        r@ == on_channel_post(event@),
{
    match event {
        Event::Accepted => Transition::Next(Action::GetGroupsWithTeams, FlowState::RefetchGroups),
        Event::Failed(f) => fail(Step::ChannelCreate, f),
        _ => fail(Step::ChannelCreate, Fault::UnexpectedResponse),
    }
}

fn step_refetch_groups(form: &CreateSharedChannelForm, event: Event) -> (r: Transition)
    ensures
        r@ == on_refetch_groups(form@, event@),
{
    match event {
        Event::Groups(mut gc) => match find_index_by_name(&gc.value, &form.team_name) {
            Some(i) => {
                let g = gc.value.remove(i);
                Transition::Next(Action::GetTeam { group_id: g.id }, FlowState::RefetchTeam)
            },
            None => fail(Step::TeamRefetch, Fault::NotFound(form.team_name.clone())),
        },
        Event::Failed(f) => fail(Step::TeamRefetch, f),
        _ => fail(Step::TeamRefetch, Fault::UnexpectedResponse),
    }
}

fn step_refetch_team(event: Event) -> (r: Transition)
    ensures
        r@ == on_refetch_team(event@),
{
    match event {
        Event::Team(t) => {
            let team_id = t.id.clone();
            Transition::Next(Action::GetChannels { team_id }, FlowState::ChannelList { team: t })
        },
        Event::Failed(f) => fail(Step::TeamRefetch, f),
        _ => fail(Step::TeamRefetch, Fault::UnexpectedResponse),
    }
}

fn step_channel_list(form: &CreateSharedChannelForm, team: Team, event: Event) -> (r: Transition)
    ensures
        r@ == on_channel_list(form@, team, event@),
{
    match event {
        Event::Channels(mut cc) => match find_index_by_name(&cc.value, &form.channel_display_name) {
            Some(i) => {
                let c = cc.value.remove(i);
                let team_id = team.id.clone();
                Transition::Next(
                    Action::GetChannels { team_id },
                    FlowState::GeneralList { team, channel: c },
                )
            },
            None => fail(Step::ChannelFetch, Fault::NotFound(form.channel_display_name.clone())),
        },
        Event::Failed(f) => fail(Step::ChannelFetch, f),
        _ => fail(Step::ChannelFetch, Fault::UnexpectedResponse),
    }
}

fn step_general_list(
    form: &CreateSharedChannelForm,
    team: Team,
    channel: Channel,
    event: Event,
) -> (r: Transition)
    ensures
        r@ == on_general_list(form@, team, channel, event@),
{
    match event {
        Event::Channels(mut cc) => {
            let general_name = "General".to_owned();
            match find_index_by_name(&cc.value, &general_name) {
                Some(i) => {
                    let g = cc.value.remove(i);
                    match &channel.id {
                        Some(cid) => {
                            let channel_id = cid.clone();
                            Transition::Next(
                                Action::PostAddOwner {
                                    team_id: team.id.clone(),
                                    channel_id,
                                    body: owner_member(form.member_id.as_str()),
                                },
                                FlowState::OwnerPost { team, channel, general: g },
                            )
                        },
                        None => fail(Step::OwnerAdd, Fault::MissingField("Channel ID".to_owned())),
                    }
                },
                None => fail(Step::GeneralFetch, Fault::NotFound("General".to_owned())),
            }
        },
        Event::Failed(f) => fail(Step::GeneralFetch, f),
        _ => fail(Step::GeneralFetch, Fault::UnexpectedResponse),
    }
}

fn step_owner_post(
    form: &CreateSharedChannelForm,
    team: Team,
    channel: Channel,
    general: Channel,
    event: Event,
) -> (r: Transition)
    ensures
        r@ == on_owner_post(form@, team, channel, general, event@),
{
    match event {
        Event::Accepted => match &form.plan {
            None => Transition::Done(Ok(FlowSuccess { team, channel, general })),
            Some(pf) => {
                let cp = pf.to_create_plan();
                match &team.display_name {
                    Some(d) => {
                        let team_display = d.clone();
                        Transition::Next(
                            Action::GetGroupsWithTeams,
                            FlowState::PlanGroups {
                                ctx: PlanSetup {
                                    team,
                                    channel,
                                    general,
                                    team_display,
                                    plan_name: cp.plan_name,
                                    template: cp.plan_template,
                                },
                            },
                        )
                    },
                    None => fail(
                        Step::PlanCreate,
                        Fault::MissingField("Team display name".to_owned()),
                    ),
                }
            },
        },
        Event::Failed(f) => fail(Step::OwnerAdd, f),
        _ => fail(Step::OwnerAdd, Fault::UnexpectedResponse),
    }
}

fn step_plan_groups(ctx: PlanSetup, event: Event) -> (r: Transition)
    ensures
        r@ == on_plan_groups(ctx@, event@),
{
    match event {
        Event::Groups(mut gc) => match find_index_by_name(&gc.value, &ctx.team_display) {
            Some(i) => {
                let g = gc.value.remove(i);
                Transition::Next(Action::GetTeam { group_id: g.id }, FlowState::PlanTeam { ctx })
            },
            None => fail(Step::PlanCreate, Fault::NotFound(ctx.team_display.clone())),
        },
        Event::Failed(f) => fail(Step::PlanCreate, f),
        _ => fail(Step::PlanCreate, Fault::UnexpectedResponse),
    }
}

fn step_plan_team(ctx: PlanSetup, event: Event) -> (r: Transition)
    ensures
        r@ == on_plan_team(ctx@, event@),
{
    match event {
        Event::Team(t) => {
            let body = create_plan_body(t.id.as_str(), ctx.plan_name.as_str());
            Transition::Next(Action::PostCreatePlan { body }, FlowState::PlanPost { ctx })
        },
        Event::Failed(f) => fail(Step::PlanCreate, f),
        _ => fail(Step::PlanCreate, Fault::UnexpectedResponse),
    }
}

fn step_plan_post(ctx: PlanSetup, event: Event) -> (r: Transition)
    ensures
        r@ == on_plan_post(ctx@, event@),
{
    match event {
        Event::Plan(p) => {
            let title = match &p.title {
                Some(t) => t.clone(),
                None => ctx.plan_name.clone(),
            };
            let buckets = ctx.template.to_spec().buckets;
            if buckets.len() == 0 {
                proof {
                    assert(template_buckets(ctx@.template).len() == 0);
                }
                enter_tab(ctx.team, ctx.channel, ctx.general, p.id)
            } else {
                Transition::Next(
                    Action::GetGroupsWithTeams,
                    FlowState::BucketGroups {
                        ctx: BucketRun {
                            team: ctx.team,
                            channel: ctx.channel,
                            general: ctx.general,
                            team_display: ctx.team_display,
                            plan: p,
                            bucket_title: title,
                            buckets,
                            next: 0,
                        },
                    },
                )
            }
        },
        Event::Failed(f) => fail(Step::PlanCreate, f),
        _ => fail(Step::PlanCreate, Fault::UnexpectedResponse),
    }
}

fn step_bucket_groups(ctx: BucketRun, event: Event) -> (r: Transition)
    ensures
        r@ == on_bucket_groups(ctx@, event@),
{
    match event {
        Event::Groups(mut gc) => match find_index_by_name(&gc.value, &ctx.team_display) {
            Some(i) => {
                let g = gc.value.remove(i);
                Transition::Next(Action::GetTeam { group_id: g.id }, FlowState::BucketTeam { ctx })
            },
            None => fail(Step::BucketAdd, Fault::NotFound(ctx.team_display.clone())),
        },
        Event::Failed(f) => fail(Step::BucketAdd, f),
        _ => fail(Step::BucketAdd, Fault::UnexpectedResponse),
    }
}

fn step_bucket_team(ctx: BucketRun, event: Event) -> (r: Transition)
    ensures
        r@ == on_bucket_team(ctx@, event@),
{
    match event {
        Event::Team(t) => Transition::Next(
            Action::GetPlans { group_id: t.id },
            FlowState::BucketPlans { ctx },
        ),
        Event::Failed(f) => fail(Step::BucketAdd, f),
        _ => fail(Step::BucketAdd, Fault::UnexpectedResponse),
    }
}

fn step_bucket_plans(ctx: BucketRun, event: Event) -> (r: Transition)
    requires
        bucket_ctx_wf(ctx@),
    ensures
        r@ == on_bucket_plans(ctx@, event@),
{
    match event {
        Event::Plans(pc) => match pc.value {
            Some(mut ps) => match find_index_by_name(&ps, &ctx.bucket_title) {
                Some(i) => {
                    let found = ps.remove(i);
                    proof {
                        assert(ctx@.buckets.len() == ctx.buckets@.len());
                    }
                    let body = create_bucket_body(ctx.buckets[ctx.next].as_str(), found.id.as_str());
                    Transition::Next(Action::PostCreateBucket { body }, FlowState::BucketPost { ctx })
                },
                None => fail(Step::BucketAdd, Fault::NotFound(ctx.bucket_title.clone())),
            },
            None => fail(Step::BucketAdd, Fault::MissingField("plan list".to_owned())),
        },
        Event::Failed(f) => fail(Step::BucketAdd, f),
        _ => fail(Step::BucketAdd, Fault::UnexpectedResponse),
    }
}

fn step_bucket_post(ctx: BucketRun, event: Event) -> (r: Transition)
    requires
        bucket_ctx_wf(ctx@),
    ensures
        r@ == on_bucket_post(ctx@, event@),
{
    match event {
        Event::Bucket(_b) => {
            let n = ctx.buckets.len();
            proof {
                assert(ctx@.buckets.len() == ctx.buckets@.len());
                assert(ctx.next < n);
            }
            if ctx.next + 1 < n {
                Transition::Next(
                    Action::GetGroupsWithTeams,
                    FlowState::BucketGroups {
                        ctx: BucketRun {
                            team: ctx.team,
                            channel: ctx.channel,
                            general: ctx.general,
                            team_display: ctx.team_display,
                            plan: ctx.plan,
                            bucket_title: ctx.bucket_title,
                            buckets: ctx.buckets,
                            next: ctx.next + 1,
                        },
                    },
                )
            } else {
                enter_tab(ctx.team, ctx.channel, ctx.general, ctx.plan.id)
            }
        },
        Event::Failed(f) => fail(Step::BucketAdd, f),
        _ => fail(Step::BucketAdd, Fault::UnexpectedResponse),
    }
}

fn step_tab_app_post(ctx: TabStage, event: Event) -> (r: Transition)
    ensures
        r@ == on_tab_app_post(ctx@, event@),
{
    match event {
        Event::Accepted => match &ctx.channel.id {
            Some(cid) => {
                let channel_id = cid.clone();
                let body = planner_tab(
                    ctx.tab_name.as_str(),
                    channel_id.as_str(),
                    ctx.plan_id.as_str(),
                );
                Transition::Next(
                    Action::PostCreateTab { team_id: ctx.team.id.clone(), channel_id, body },
                    FlowState::TabPost {
                        team: ctx.team,
                        channel: ctx.channel,
                        general: ctx.general,
                    },
                )
            },
            None => fail(Step::TabInstall, Fault::MissingField("Channel ID".to_owned())),
        },
        Event::Failed(f) => fail(Step::TabInstall, f),
        _ => fail(Step::TabInstall, Fault::UnexpectedResponse),
    }
}

fn step_tab_post(team: Team, channel: Channel, general: Channel, event: Event) -> (r: Transition)
    ensures
        r@ == on_tab_post(team, channel, general, event@),
{
    match event {
        Event::Tab(_t) => Transition::Done(Ok(FlowSuccess { team, channel, general })),
        Event::Failed(f) => fail(Step::TabInstall, f),
        _ => fail(Step::TabInstall, Fault::UnexpectedResponse),
    }
}

/// One decision of the workflow: given the form, the state awaiting a
/// response, and that response, produce the next request or the final
/// outcome, exactly as the transition relation [`step_model`] prescribes.
pub fn step(form: &CreateSharedChannelForm, state: FlowState, event: Event) -> (r: Transition)
    requires
        state_wf(state@),
    ensures
        r@ == step_model(form@, state@, event@),
{
    match state {
        FlowState::TeamGroups => step_team_groups(form, event),
        FlowState::TeamGet => step_team_get(form, event),
        FlowState::ChannelPost => step_channel_post(event),
        FlowState::RefetchGroups => step_refetch_groups(form, event),
        FlowState::RefetchTeam => step_refetch_team(event),
        FlowState::ChannelList { team } => step_channel_list(form, team, event),
        FlowState::GeneralList { team, channel } => step_general_list(form, team, channel, event),
        FlowState::OwnerPost { team, channel, general } => step_owner_post(
            form,
            team,
            channel,
            general,
            event,
        ),
        FlowState::PlanGroups { ctx } => step_plan_groups(ctx, event),
        FlowState::PlanTeam { ctx } => step_plan_team(ctx, event),
        FlowState::PlanPost { ctx } => step_plan_post(ctx, event),
        FlowState::BucketGroups { ctx } => step_bucket_groups(ctx, event),
        FlowState::BucketTeam { ctx } => step_bucket_team(ctx, event),
        FlowState::BucketPlans { ctx } => step_bucket_plans(ctx, event),
        FlowState::BucketPost { ctx } => step_bucket_post(ctx, event),
        FlowState::TabAppPost { ctx } => step_tab_app_post(ctx, event),
        FlowState::TabPost { team, channel, general } => step_tab_post(team, channel, general, event),
    }
}


/// The trace of a run: the requests issued, and the outcome once one is
/// reached. A run whose responses are exhausted before an outcome has
/// `outcome` `None`.
#[verifier::ext_equal]
pub ghost struct RunResultV {
    pub actions: Seq<ActionV>,
    pub outcome: Option<Result<FlowSuccess, FlowErrorV>>,
}

/// The run of the workflow from `state` over the responses `events`: the
/// requests it issues and the outcome it reaches. Responses after an outcome
/// are ignored.
pub open spec fn run_from(
    form: CreateSharedChannelFormV,
    state: FlowStateV,
    events: Seq<EventV>,
) -> RunResultV
    decreases events.len(),
{
    if events.len() == 0 {
        RunResultV { actions: Seq::empty(), outcome: None }
    } else {
        match step_model(form, state, events[0]) {
            TransitionV::Next(a, s2) => {
                let rest = run_from(form, s2, events.skip(1));
                RunResultV { actions: seq![a] + rest.actions, outcome: rest.outcome }
            },
            TransitionV::Done(res) => RunResultV { actions: Seq::empty(), outcome: Some(res) },
        }
    }
}

/// A whole run: the initial group-listing request, then the responses.
pub open spec fn run(form: CreateSharedChannelFormV, events: Seq<EventV>) -> RunResultV {
    let rest = run_from(form, FlowStateV::TeamGroups, events);
    RunResultV {
        actions: seq![ActionV::GetGroupsWithTeams] + rest.actions,
        outcome: rest.outcome,
    }
}

/// How many channel-creation requests a trace holds.
pub open spec fn count_channel_creates(actions: Seq<ActionV>) -> int
    decreases actions.len(),
{
    if actions.len() == 0 {
        0
    } else {
        (if actions[0] is PostCreateChannel {
            1int
        } else {
            0int
        }) + count_channel_creates(actions.skip(1))
    }
}

proof fn lemma_count_cons(a: ActionV, rest: Seq<ActionV>)
    ensures
        count_channel_creates(seq![a] + rest) == (if a is PostCreateChannel {
            1int
        } else {
            0int
        }) + count_channel_creates(rest),
{
    assert((seq![a] + rest).skip(1) =~= rest);
    assert((seq![a] + rest)[0] == a);
}

proof fn lemma_count_concat(a: Seq<ActionV>, b: Seq<ActionV>)
    ensures
        count_channel_creates(a + b) == count_channel_creates(a) + count_channel_creates(b),
    decreases a.len(),
{
    if a.len() == 0 {
        assert(a + b =~= b);
    } else {
        lemma_count_concat(a.skip(1), b);
        assert((a + b).skip(1) =~= a.skip(1) + b);
        assert((a + b)[0] == a[0]);
    }
}

/// A state the workflow only reaches once the first team lookup succeeded.
pub open spec fn past_team_lookup(state: FlowStateV) -> bool {
    !(state is TeamGroups) && !(state is TeamGet)
}

/// From any state past the first team lookup, a run never issues another
/// channel-creation request, and never fails with the team-lookup step.
proof fn lemma_past_lookup_no_create(
    form: CreateSharedChannelFormV,
    state: FlowStateV,
    events: Seq<EventV>,
)
    requires
        past_team_lookup(state),
    ensures
        ({
            let r = run_from(form, state, events);
            count_channel_creates(r.actions) == 0 && (match r.outcome {
                Some(Err(e)) => e.step != Step::TeamLookup,
                _ => true,
            })
        }),
    decreases events.len(),
{
    if events.len() > 0 {
        match step_model(form, state, events[0]) {
            TransitionV::Next(a, s2) => {
                assert(!(a is PostCreateChannel));
                assert(past_team_lookup(s2));
                lemma_past_lookup_no_create(form, s2, events.skip(1));
                lemma_count_cons(a, run_from(form, s2, events.skip(1)).actions);
            },
            TransitionV::Done(res) => {},
        }
    }
}

/// Failing fast: when the workflow ends with a team-lookup error, its trace
/// holds no channel-creation request at all.
pub proof fn lemma_fail_fast(form: CreateSharedChannelFormV, events: Seq<EventV>)
    ensures
        ({
            let r = run(form, events);
            (match r.outcome {
                Some(Err(e)) => e.step == Step::TeamLookup,
                _ => false,
            }) ==> count_channel_creates(r.actions) == 0
        }),
{
    let r0 = run_from(form, FlowStateV::TeamGroups, events);
    lemma_count_cons(ActionV::GetGroupsWithTeams, r0.actions);
    if events.len() > 0 {
        match step_model(form, FlowStateV::TeamGroups, events[0]) {
            TransitionV::Next(a1, s1) => {
                assert(s1 is TeamGet);
                assert(!(a1 is PostCreateChannel));
                let r1 = run_from(form, s1, events.skip(1));
                lemma_count_cons(a1, r1.actions);
                if events.skip(1).len() > 0 {
                    match step_model(form, s1, events.skip(1)[0]) {
                        TransitionV::Next(a2, s2) => {
                            assert(s2 is ChannelPost);
                            let r2 = run_from(form, s2, events.skip(1).skip(1));
                            lemma_count_cons(a2, r2.actions);
                            lemma_past_lookup_no_create(form, s2, events.skip(1).skip(1));
                        },
                        TransitionV::Done(res) => {},
                    }
                }
            },
            TransitionV::Done(res) => {},
        }
    }
}

/// A run that succeeds issued the channel-creation request exactly once.
pub proof fn lemma_single_create(form: CreateSharedChannelFormV, events: Seq<EventV>)
    ensures
        ({
            let r = run(form, events);
            (r.outcome matches Some(Ok(s))) ==> count_channel_creates(r.actions) == 1
        }),
{
    let r0 = run_from(form, FlowStateV::TeamGroups, events);
    lemma_count_cons(ActionV::GetGroupsWithTeams, r0.actions);
    if events.len() > 0 {
        match step_model(form, FlowStateV::TeamGroups, events[0]) {
            TransitionV::Next(a1, s1) => {
                assert(s1 is TeamGet);
                let r1 = run_from(form, s1, events.skip(1));
                lemma_count_cons(a1, r1.actions);
                if events.skip(1).len() > 0 {
                    match step_model(form, s1, events.skip(1)[0]) {
                        TransitionV::Next(a2, s2) => {
                            assert(a2 is PostCreateChannel);
                            assert(s2 is ChannelPost);
                            let r2 = run_from(form, s2, events.skip(1).skip(1));
                            lemma_count_cons(a2, r2.actions);
                            lemma_past_lookup_no_create(form, s2, events.skip(1).skip(1));
                        },
                        TransitionV::Done(res) => {},
                    }
                }
            },
            TransitionV::Done(res) => {},
        }
    }
}

/// The workflow is not idempotent: it creates a channel unconditionally once
/// the team resolves, so two identical successful invocations issue two
/// channel-creation requests — nothing deduplicates the second.
pub proof fn lemma_not_idempotent(form: CreateSharedChannelFormV, events: Seq<EventV>)
    requires
        run(form, events).outcome matches Some(Ok(s)),
    ensures
        count_channel_creates(run(form, events).actions + run(form, events).actions) == 2,
{
    lemma_single_create(form, events);
    lemma_count_concat(run(form, events).actions, run(form, events).actions);
}

/// The outcome of an executable run, at the view level.
pub open spec fn outcome_v(o: Option<Result<FlowSuccess, FlowError>>) -> Option<
    Result<FlowSuccess, FlowErrorV>,
> {
    match o {
        None => None,
        Some(res) => Some(
            match res {
                Ok(s) => Ok(s),
                Err(e) => Err(e@),
            },
        ),
    }
}

fn run_flow_from(
    form: &CreateSharedChannelForm,
    state: FlowState,
    events: Vec<Event>,
    Ghost(evs): Ghost<Seq<EventV>>,
) -> (r: (Vec<Action>, Option<Result<FlowSuccess, FlowError>>))
    requires
        state_wf(state@),
        events@.map_values(|e: Event| e@) == evs,
    ensures
        ({
            let m = run_from(form@, state@, evs);
            r.0@.map_values(|a: Action| a@) == m.actions && outcome_v(r.1) == m.outcome
        }),
    decreases events@.len(),
{
    let ghost m = run_from(form@, state@, evs);
    if events.len() == 0 {
        proof {
            assert(evs.len() == 0);
        }
        (Vec::new(), None)
    } else {
        let mut events = events;
        let e = events.remove(0);
        proof {
            assert(e@ == evs[0]);
            assert(events@.map_values(|ev: Event| ev@) =~= evs.skip(1));
        }
        match step(form, state, e) {
            Transition::Next(a, s2) => {
                proof {
                    lemma_step_model_wf(form@, state@, e@);
                }
                let (mut acts, out) = run_flow_from(form, s2, events, Ghost(evs.skip(1)));
                let ghost rest = run_from(form@, s2@, evs.skip(1));
                acts.insert(0, a);
                proof {
                    assert(acts@.map_values(|x: Action| x@) =~= seq![a@] + rest.actions);
                }
                (acts, out)
            },
            Transition::Done(res) => (Vec::new(), Some(res)),
        }
    }
}

/// Drive the workflow over a pre-collected sequence of responses, starting
/// from the initial request: the requests it issues in order, and the
/// outcome, `None` when the responses ran out first.
pub fn run_flow(form: &CreateSharedChannelForm, events: Vec<Event>) -> (r: (
    Vec<Action>,
    Option<Result<FlowSuccess, FlowError>>,
))
    ensures
        ({
            let m = run(form@, events@.map_values(|e: Event| e@));
            r.0@.map_values(|a: Action| a@) == m.actions && outcome_v(r.1) == m.outcome
        }),
{
    let ghost evs = events@.map_values(|e: Event| e@);
    let (a0, s0) = start();
    let (mut acts, out) = run_flow_from(form, s0, events, Ghost(evs));
    let ghost rest = run_from(form@, FlowStateV::TeamGroups, evs);
    acts.insert(0, a0);
    proof {
        assert(acts@.map_values(|x: Action| x@) =~= seq![ActionV::GetGroupsWithTeams]
            + rest.actions);
    }
    (acts, out)
}

/// The step context prepended to an error message.
pub open spec fn step_prefix(s: Step) -> Seq<char> {
    match s {
        Step::TeamLookup => "Error getting team: "@,
        Step::ChannelCreate => "Error creating channel: "@,
        Step::TeamRefetch => "Error re-fetching team: "@,
        Step::ChannelFetch => "Error getting newly created channel: "@,
        Step::GeneralFetch => "Error getting general channel: "@,
        Step::OwnerAdd => "Error adding owner to channel: "@,
        Step::PlanCreate => "Error creating plan: "@,
        Step::BucketAdd => "Error adding bucket to plan: "@,
        Step::TabInstall => "Error adding plan tab to channel: "@,
    }
}

/// The text of a fault, without its step context.
pub open spec fn fault_text(f: FaultV) -> Seq<char> {
    match f {
        FaultV::Transport(m) => m,
        FaultV::Deserialize(m) => m,
        FaultV::NotFound(n) => "no match found for "@ + n,
        FaultV::MissingField(name) => name + " not found"@,
        FaultV::UnexpectedResponse => "unexpected response"@,
    }
}

/// The descriptive text of an error: its step context, then the fault.
pub open spec fn error_message(e: FlowErrorV) -> Seq<char> {
    step_prefix(e.step) + fault_text(e.fault)
}

impl Step {
    /// The step context prepended to an error message.
    pub fn prefix(&self) -> (r: String)
        ensures
            r@ == step_prefix(*self),
    {
        match self {
            Step::TeamLookup => "Error getting team: ".to_owned(),
            Step::ChannelCreate => "Error creating channel: ".to_owned(),
            Step::TeamRefetch => "Error re-fetching team: ".to_owned(),
            Step::ChannelFetch => "Error getting newly created channel: ".to_owned(),
            Step::GeneralFetch => "Error getting general channel: ".to_owned(),
            Step::OwnerAdd => "Error adding owner to channel: ".to_owned(),
            Step::PlanCreate => "Error creating plan: ".to_owned(),
            Step::BucketAdd => "Error adding bucket to plan: ".to_owned(),
            Step::TabInstall => "Error adding plan tab to channel: ".to_owned(),
        }
    }
}

impl Fault {
    /// The text of this fault, without its step context.
    pub fn text(&self) -> (r: String)
        ensures
            r@ == fault_text(self@),
    {
        match self {
            Fault::Transport(m) => m.clone(),
            Fault::Deserialize(m) => m.clone(),
            Fault::NotFound(n) => {
                let mut s = "no match found for ".to_owned();
                s.append(n.as_str());
                s
            },
            Fault::MissingField(name) => {
                let mut s = name.clone();
                s.append(" not found");
                s
            },
            Fault::UnexpectedResponse => "unexpected response".to_owned(),
        }
    }
}

impl FlowError {
    /// The descriptive text of this error: its step context, then the fault.
    pub fn message(&self) -> (r: String)
        ensures
            r@ == error_message(self@),
    {
        let mut s = self.step.prefix();
        let t = self.fault.text();
        s.append(t.as_str());
        s
    }
}

} // verus!
