//! The create-shared-channel workflow, driven over scripted responses.

use msgraph::automation::Action;
use msgraph::automation::BucketRun;
use msgraph::automation::Event;
use msgraph::automation::Fault;
use msgraph::automation::FlowError;
use msgraph::automation::FlowState;
use msgraph::automation::Step;
use msgraph::automation::Transition;
use msgraph::automation::run_flow;
use msgraph::automation::step;
use msgraph::channel::Channel;
use msgraph::channel::ChannelCollection;
use msgraph::channel::CreateSharedChannelForm;
use msgraph::group::Group;
use msgraph::group::GroupCollection;
use msgraph::plan::Bucket;
use msgraph::plan::CreatePlanForm;
use msgraph::plan::Plan;
use msgraph::plan::PlanCollection;
use msgraph::team::Team;
use msgraph::team::TeamsTab;

fn form(plan: Option<CreatePlanForm>) -> CreateSharedChannelForm {
    CreateSharedChannelForm {
        team_name: "T".to_string(),
        channel_display_name: "Proj X".to_string(),
        channel_description: "a project channel".to_string(),
        owner_id: "U1".to_string(),
        member_id: "U2".to_string(),
        plan,
    }
}

fn group_t() -> Group {
    let mut g = Group::default();
    g.id = "g1".to_string();
    g.display_name = Some("T".to_string());
    g
}

fn groups_event() -> Event {
    let mut gc = GroupCollection::default();
    gc.value = vec![group_t()];
    Event::Groups(gc)
}

fn team_t(with_display: bool) -> Team {
    let mut t = Team::default();
    t.id = "team1".to_string();
    if with_display {
        t.display_name = Some("T".to_string());
    }
    t
}

fn chan(name: &str, id: Option<&str>) -> Channel {
    let mut c = Channel::default();
    c.display_name = Some(name.to_string());
    c.id = id.map(|s| s.to_string());
    c
}

fn channels_event(new_channel_id: Option<&str>) -> Event {
    let mut cc = ChannelCollection::default();
    cc.value = vec![chan("General", Some("cg")), chan("Proj X", new_channel_id)];
    Event::Channels(cc)
}

/// The eight responses of the happy path up to and including the owner add.
fn happy_prefix(with_display: bool) -> Vec<Event> {
    vec![
        groups_event(),
        Event::Team(team_t(with_display)),
        Event::Accepted,
        groups_event(),
        Event::Team(team_t(with_display)),
        channels_event(Some("cp")),
        channels_event(Some("cp")),
        Event::Accepted,
    ]
}

fn created_plan() -> Plan {
    let mut p = Plan::default();
    p.id = "plan1".to_string();
    p.title = Some("My Plan".to_string());
    p
}

fn plans_event() -> Event {
    let mut pc = PlanCollection::default();
    pc.value = Some(vec![created_plan()]);
    Event::Plans(pc)
}

fn bucket_round() -> Vec<Event> {
    vec![
        groups_event(),
        Event::Team(team_t(true)),
        plans_event(),
        Event::Bucket(Bucket::default()),
    ]
}

fn count_creates(actions: &[Action]) -> usize {
    actions.iter().filter(|a| matches!(a, Action::PostCreateChannel { .. })).count()
}

#[test]
fn happy_path_without_plan() {
    let f = form(None);
    let (actions, outcome) = run_flow(&f, happy_prefix(false));

    let s = outcome.expect("outcome").expect("success");
    assert_eq!(s.team.id, "team1");
    assert_eq!(s.channel.display_name.as_deref(), Some("Proj X"));
    assert_eq!(s.channel.id.as_deref(), Some("cp"));
    assert_eq!(s.general.display_name.as_deref(), Some("General"));
    assert_eq!(s.general.id.as_deref(), Some("cg"));

    let owner_adds: Vec<&Action> =
        actions.iter().filter(|a| matches!(a, Action::PostAddOwner { .. })).collect();
    assert_eq!(owner_adds.len(), 1);
    match owner_adds[0] {
        Action::PostAddOwner { team_id, channel_id, body } => {
            assert_eq!(team_id, "team1");
            assert_eq!(channel_id, "cp");
            assert_eq!(body.roles, vec!["owner"]);
            assert_eq!(body.user_odata_bind, "https://graph.microsoft.com/v1.0/users('U2')");
        },
        _ => unreachable!(),
    }

    assert_eq!(count_creates(&actions), 1);
    match &actions[2] {
        Action::PostCreateChannel { team_id, body } => {
            assert_eq!(team_id, "team1");
            assert_eq!(body.display_name, "Proj X");
            assert_eq!(body.description, "a project channel");
            assert_eq!(body.membership_type, "shared");
            assert_eq!(body.members.len(), 1);
            assert_eq!(
                body.members[0].user_odata_bind,
                "https://graph.microsoft.com/v1.0/users('U1')"
            );
            assert_eq!(body.members[0].odata_type, "#microsoft.graph.aadUserConversationMember");
        },
        other => panic!("expected channel creation, got {:?}", other),
    }

    assert!(actions.iter().all(|a| !matches!(a, Action::PostCreateBucket { .. })));
    assert!(actions.iter().all(|a| !matches!(a, Action::PostInstallPlannerApp { .. })));
    assert!(actions.iter().all(|a| !matches!(a, Action::PostCreateTab { .. })));
    assert_eq!(actions.len(), 8);
}

#[test]
fn happy_path_with_project_plan() {
    let f = form(Some(CreatePlanForm {
        plan_name: "My Plan".to_string(),
        plan_template: "project".to_string(),
    }));

    let mut events = happy_prefix(true);
    events.push(groups_event());
    events.push(Event::Team(team_t(true)));
    events.push(Event::Plan(created_plan()));
    events.extend(bucket_round());
    events.extend(bucket_round());
    events.extend(bucket_round());
    events.push(Event::Accepted);
    events.push(Event::Tab(TeamsTab::default()));

    let (actions, outcome) = run_flow(&f, events);
    let s = outcome.expect("outcome").expect("success");
    assert_eq!(s.team.id, "team1");
    assert_eq!(s.channel.id.as_deref(), Some("cp"));

    let buckets: Vec<&Action> =
        actions.iter().filter(|a| matches!(a, Action::PostCreateBucket { .. })).collect();
    assert_eq!(buckets.len(), 3);
    let expected = ["Tech Work", "Design Work", "Install Work"];
    for (i, b) in buckets.iter().enumerate() {
        match b {
            Action::PostCreateBucket { body } => {
                assert_eq!(body.name, expected[i]);
                assert_eq!(body.plan_id, "plan1");
                assert_eq!(body.order_hint, " !");
            },
            _ => unreachable!(),
        }
    }

    let installs: Vec<&Action> =
        actions.iter().filter(|a| matches!(a, Action::PostInstallPlannerApp { .. })).collect();
    assert_eq!(installs.len(), 1);

    let tabs: Vec<&Action> =
        actions.iter().filter(|a| matches!(a, Action::PostCreateTab { .. })).collect();
    assert_eq!(tabs.len(), 1);
    match tabs[0] {
        Action::PostCreateTab { team_id, channel_id, body } => {
            assert_eq!(team_id, "team1");
            assert_eq!(channel_id, "cp");
            assert_eq!(body.display_name.as_deref(), Some("Proj X Tasks"));
            let cfg = body.configuration.as_ref().expect("configuration");
            assert_eq!(cfg.entity_id.as_deref(), Some("tt.c_cp_p_plan1"));
            assert!(cfg.content_url.as_deref().unwrap().contains("planId=plan1"));
            assert!(cfg.remove_url.as_deref().unwrap().contains("planId=plan1"));
            assert!(cfg.website_url.as_deref().unwrap().contains("@plan1"));
        },
        _ => unreachable!(),
    }

    let plan_creates: Vec<&Action> =
        actions.iter().filter(|a| matches!(a, Action::PostCreatePlan { .. })).collect();
    assert_eq!(plan_creates.len(), 1);
    match plan_creates[0] {
        Action::PostCreatePlan { body } => {
            assert_eq!(body.title, "My Plan");
            assert_eq!(body.container_url, "https://graph.microsoft.com/beta/groups/team1");
        },
        _ => unreachable!(),
    }

    assert_eq!(count_creates(&actions), 1);
    assert_eq!(
        actions.iter().filter(|a| matches!(a, Action::PostAddOwner { .. })).count(),
        1
    );
}

#[test]
fn default_template_skips_buckets() {
    let f = form(Some(CreatePlanForm {
        plan_name: "My Plan".to_string(),
        plan_template: "unknown".to_string(),
    }));

    let mut events = happy_prefix(true);
    events.push(groups_event());
    events.push(Event::Team(team_t(true)));
    events.push(Event::Plan(created_plan()));
    events.push(Event::Accepted);
    events.push(Event::Tab(TeamsTab::default()));

    let (actions, outcome) = run_flow(&f, events);
    assert!(outcome.expect("outcome").is_ok());
    assert!(actions.iter().all(|a| !matches!(a, Action::PostCreateBucket { .. })));
    assert_eq!(
        actions.iter().filter(|a| matches!(a, Action::PostInstallPlannerApp { .. })).count(),
        1
    );
    assert_eq!(
        actions.iter().filter(|a| matches!(a, Action::PostCreateTab { .. })).count(),
        1
    );
}

#[test]
fn fail_fast_on_transport_failure() {
    let f = form(None);
    let (actions, outcome) =
        run_flow(&f, vec![Event::Failed(Fault::Transport("connection refused".to_string()))]);
    let e = outcome.expect("outcome").expect_err("failure");
    assert_eq!(e.step, Step::TeamLookup);
    assert!(matches!(e.fault, Fault::Transport(_)));
    assert_eq!(e.message(), "Error getting team: connection refused");
    assert_eq!(count_creates(&actions), 0);
    assert_eq!(actions.len(), 1);
    assert!(matches!(actions[0], Action::GetGroupsWithTeams));
}

#[test]
fn fail_fast_on_unknown_team() {
    let f = form(None);
    let (actions, outcome) = run_flow(&f, vec![Event::Groups(GroupCollection::default())]);
    let e = outcome.expect("outcome").expect_err("failure");
    assert_eq!(e.step, Step::TeamLookup);
    assert!(matches!(&e.fault, Fault::NotFound(n) if n == "T"));
    assert_eq!(e.message(), "Error getting team: no match found for T");
    assert_eq!(count_creates(&actions), 0);
}

#[test]
fn second_run_creates_a_second_channel() {
    let f = form(None);
    let (first_actions, first_outcome) = run_flow(&f, happy_prefix(false));
    let (second_actions, second_outcome) = run_flow(&f, happy_prefix(false));

    assert!(first_outcome.expect("outcome").is_ok());
    assert!(second_outcome.expect("outcome").is_ok());
    assert_eq!(count_creates(&first_actions), 1);
    assert_eq!(count_creates(&second_actions), 1);
    assert_eq!(count_creates(&first_actions) + count_creates(&second_actions), 2);
}

#[test]
fn out_of_responses_leaves_no_outcome() {
    let f = form(None);
    let (actions, outcome) = run_flow(&f, Vec::new());
    assert!(outcome.is_none());
    assert_eq!(actions.len(), 1);
    assert!(matches!(actions[0], Action::GetGroupsWithTeams));
}

#[test]
fn owner_add_needs_channel_id() {
    let f = form(None);
    let mut events = happy_prefix(false);
    events[5] = channels_event(None);
    events[6] = channels_event(None);
    let (_actions, outcome) = run_flow(&f, events);
    let e = outcome.expect("outcome").expect_err("failure");
    assert_eq!(e.step, Step::OwnerAdd);
    assert!(matches!(&e.fault, Fault::MissingField(n) if n == "Channel ID"));
    assert_eq!(e.message(), "Error adding owner to channel: Channel ID not found");
}

#[test]
fn missing_general_channel_fails() {
    let f = form(None);
    let mut events = happy_prefix(false);
    let mut cc = ChannelCollection::default();
    cc.value = vec![chan("Proj X", Some("cp"))];
    events[6] = Event::Channels(cc);
    let (_actions, outcome) = run_flow(&f, events);
    let e = outcome.expect("outcome").expect_err("failure");
    assert_eq!(e.step, Step::GeneralFetch);
    assert!(matches!(&e.fault, Fault::NotFound(n) if n == "General"));
}

#[test]
fn plan_needs_team_display_name() {
    let f = form(Some(CreatePlanForm {
        plan_name: "My Plan".to_string(),
        plan_template: "project".to_string(),
    }));
    let (_actions, outcome) = run_flow(&f, happy_prefix(false));
    let e = outcome.expect("outcome").expect_err("failure");
    assert_eq!(e.step, Step::PlanCreate);
    assert!(matches!(&e.fault, Fault::MissingField(n) if n == "Team display name"));
    assert_eq!(e.message(), "Error creating plan: Team display name not found");
}

fn bucket_ctx(channel_display: Option<&str>) -> BucketRun {
    let mut channel = chan("Proj X", Some("cp"));
    channel.display_name = channel_display.map(|s| s.to_string());
    BucketRun {
        team: team_t(true),
        channel,
        general: chan("General", Some("cg")),
        team_display: "T".to_string(),
        plan: created_plan(),
        bucket_title: "My Plan".to_string(),
        buckets: vec!["Tech Work".to_string()],
        next: 0,
    }
}

#[test]
fn absent_plan_list_fails_bucket_add() {
    let f = form(None);
    let t = step(
        &f,
        FlowState::BucketPlans { ctx: bucket_ctx(Some("Proj X")) },
        Event::Plans(PlanCollection::default()),
    );
    match t {
        Transition::Done(Err(e)) => {
            assert_eq!(e.step, Step::BucketAdd);
            assert!(matches!(&e.fault, Fault::MissingField(n) if n == "plan list"));
            assert_eq!(e.message(), "Error adding bucket to plan: plan list not found");
        },
        other => panic!("expected failure, got {:?}", other),
    }
}

#[test]
fn unmatched_plan_title_fails_bucket_add() {
    let f = form(None);
    let mut pc = PlanCollection::default();
    pc.value = Some(Vec::new());
    let t = step(&f, FlowState::BucketPlans { ctx: bucket_ctx(Some("Proj X")) }, Event::Plans(pc));
    match t {
        Transition::Done(Err(e)) => {
            assert_eq!(e.step, Step::BucketAdd);
            assert!(matches!(&e.fault, Fault::NotFound(n) if n == "My Plan"));
        },
        other => panic!("expected failure, got {:?}", other),
    }
}

#[test]
fn tab_needs_channel_display_name() {
    let f = form(None);
    let t = step(
        &f,
        FlowState::BucketPost { ctx: bucket_ctx(None) },
        Event::Bucket(Bucket::default()),
    );
    match t {
        Transition::Done(Err(e)) => {
            assert_eq!(e.step, Step::TabInstall);
            assert!(matches!(&e.fault, Fault::MissingField(n) if n == "Channel display name"));
        },
        other => panic!("expected failure, got {:?}", other),
    }
}

#[test]
fn unexpected_response_fails_the_step() {
    let f = form(None);
    let t = step(&f, FlowState::TeamGroups, Event::Accepted);
    match t {
        Transition::Done(Err(e)) => {
            assert_eq!(e.step, Step::TeamLookup);
            assert!(matches!(e.fault, Fault::UnexpectedResponse));
            assert_eq!(e.message(), "Error getting team: unexpected response");
        },
        other => panic!("expected failure, got {:?}", other),
    }
}

#[test]
fn deserialize_failure_carries_its_text() {
    let f = form(None);
    let mut events = happy_prefix(false);
    events[2] = Event::Failed(Fault::Deserialize("bad json".to_string()));
    let (_actions, outcome) = run_flow(&f, events);
    let e = outcome.expect("outcome").expect_err("failure");
    assert_eq!(e.step, Step::ChannelCreate);
    assert_eq!(e.message(), "Error creating channel: bad json");
}

#[test]
fn responses_after_the_outcome_are_ignored() {
    let f = form(None);
    let mut events = happy_prefix(false);
    events.push(Event::Failed(Fault::Transport("late".to_string())));
    events.push(Event::Accepted);
    let (actions, outcome) = run_flow(&f, events);
    assert!(outcome.expect("outcome").is_ok());
    assert_eq!(actions.len(), 8);
}

#[test]
fn step_prefixes_name_their_step() {
    assert_eq!(Step::TeamLookup.prefix(), "Error getting team: ");
    assert_eq!(Step::ChannelCreate.prefix(), "Error creating channel: ");
    assert_eq!(Step::TeamRefetch.prefix(), "Error re-fetching team: ");
    assert_eq!(Step::ChannelFetch.prefix(), "Error getting newly created channel: ");
    assert_eq!(Step::GeneralFetch.prefix(), "Error getting general channel: ");
    assert_eq!(Step::OwnerAdd.prefix(), "Error adding owner to channel: ");
    assert_eq!(Step::PlanCreate.prefix(), "Error creating plan: ");
    assert_eq!(Step::BucketAdd.prefix(), "Error adding bucket to plan: ");
    assert_eq!(Step::TabInstall.prefix(), "Error adding plan tab to channel: ");
}

#[test]
fn error_message_joins_step_and_fault() {
    let e = FlowError { step: Step::BucketAdd, fault: Fault::NotFound("My Plan".to_string()) };
    assert_eq!(e.message(), "Error adding bucket to plan: no match found for My Plan");
    let e = FlowError {
        step: Step::TabInstall,
        fault: Fault::Transport("timed out".to_string()),
    };
    assert_eq!(e.message(), "Error adding plan tab to channel: timed out");
}
