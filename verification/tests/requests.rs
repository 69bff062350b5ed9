//! Request construction: URLs, payloads, and the per-action routing.

use msgraph::automation::Action;
use msgraph::automation::HttpMethod;
use msgraph::channel::CreateSharedChannelForm;
use msgraph::channel::create_channel_body;
use msgraph::channel::owner_member;
use msgraph::plan::create_bucket_body;
use msgraph::plan::create_plan_body;
use msgraph::team::planner_tab;
use msgraph::team::tab_title;
use msgraph::urls;

#[test]
fn graph_urls_interpolate_ids() {
    assert_eq!(
        urls::groups_with_teams_url(),
        "https://graph.microsoft.com/beta/groups?$filter=resourceProvisioningOptions/Any(x:x+eq+'Team')"
    );
    assert_eq!(
        urls::team_by_group_url("g1"),
        "https://graph.microsoft.com/v1.0/groups/g1/team"
    );
    assert_eq!(
        urls::channels_url("team1"),
        "https://graph.microsoft.com/v1.0/teams/team1/channels"
    );
    assert_eq!(
        urls::channel_members_url("team1", "cp"),
        "https://graph.microsoft.com/v1.0/teams/team1/channels/cp/members"
    );
    assert_eq!(
        urls::plans_url("g1"),
        "https://graph.microsoft.com/beta/groups/g1/planner/plans"
    );
    assert_eq!(urls::create_plan_url(), "https://graph.microsoft.com/beta/planner/plans");
    assert_eq!(urls::create_bucket_url(), "https://graph.microsoft.com/beta/planner/buckets");
    assert_eq!(
        urls::installed_apps_url("team1"),
        "https://graph.microsoft.com/beta/teams/team1/installedApps"
    );
    assert_eq!(
        urls::tabs_url("team1", "cp"),
        "https://graph.microsoft.com/v1.0/teams/team1/channels/cp/tabs"
    );
    assert_eq!(
        urls::group_container_url("g1"),
        "https://graph.microsoft.com/beta/groups/g1"
    );
    assert_eq!(urls::me_url(), "https://graph.microsoft.com/v1.0/me");
    assert_eq!(urls::me_photo_url(), "https://graph.microsoft.com/v1.0/me/photo/$value");
    assert_eq!(urls::sites_url(), "https://graph.microsoft.com/beta/sites");
    assert_eq!(
        urls::site_pages_url("s1"),
        "https://graph.microsoft.com/beta/sites/s1/pages"
    );
    assert_eq!(
        urls::site_drives_url("s1"),
        "https://graph.microsoft.com/beta/sites/s1/drives"
    );
    assert_eq!(
        urls::drive_item_upload_url("d1", "s1", "report.pdf"),
        "https://graph.microsoft.com/beta/drives/d1/items/s1:/report.pdf:/content"
    );
    assert_eq!(
        urls::token_url("tenant1"),
        "https://login.microsoftonline.com/tenant1/oauth2/v2.0/token"
    );
}

#[test]
fn user_bind_url_wraps_the_id() {
    assert_eq!(
        urls::user_bind_url("U1"),
        "https://graph.microsoft.com/v1.0/users('U1')"
    );
}

#[test]
fn tab_urls_carry_the_plan_id() {
    assert_eq!(urls::tab_entity_id("cp", "plan1"), "tt.c_cp_p_plan1");
    let content = urls::tab_content_url("plan1");
    assert!(content.starts_with(
        "https://tasks.teams.microsoft.com/teamsui/{tid}/Home/PlannerFrame?page=7"
    ));
    assert!(content.contains("&planId=plan1&channelId={channelId}"));
    assert!(content.ends_with("&tabVersion=20200228.1_s"));
    let remove = urls::tab_remove_url("plan1");
    assert!(remove.starts_with(
        "https://tasks.teams.microsoft.com/teamsui/{tid}/Home/PlannerFrame?page=13"
    ));
    assert!(remove.contains("&planId=plan1&channelId={channelId}"));
    assert_eq!(
        urls::tab_web_url("plan1"),
        "https://tasks.office.com/{tid}/Home/PlanViews/@plan1?Type=PlanLink&Channel=TeamsTab"
    );
}

#[test]
fn owner_member_payload() {
    let m = owner_member("U2");
    assert_eq!(m.roles, vec!["owner"]);
    assert_eq!(m.odata_type, "#microsoft.graph.aadUserConversationMember");
    assert_eq!(m.user_odata_bind, "https://graph.microsoft.com/v1.0/users('U2')");
}

#[test]
fn channel_body_is_shared_with_initial_owner() {
    let f = CreateSharedChannelForm {
        team_name: "T".to_string(),
        channel_display_name: "Proj X".to_string(),
        channel_description: "desc".to_string(),
        owner_id: "U1".to_string(),
        member_id: "U2".to_string(),
        plan: None,
    };
    let b = create_channel_body(&f);
    assert_eq!(b.display_name, "Proj X");
    assert_eq!(b.description, "desc");
    assert_eq!(b.membership_type, "shared");
    assert_eq!(b.members.len(), 1);
    assert_eq!(b.members[0].user_odata_bind, "https://graph.microsoft.com/v1.0/users('U1')");
}

#[test]
fn plan_body_files_under_the_group() {
    let b = create_plan_body("team1", "My Plan");
    assert_eq!(b.container_url, "https://graph.microsoft.com/beta/groups/team1");
    assert_eq!(b.title, "My Plan");
}

#[test]
fn bucket_body_uses_placeholder_order_hint() {
    let b = create_bucket_body("Tech Work", "plan1");
    assert_eq!(b.name, "Tech Work");
    assert_eq!(b.plan_id, "plan1");
    assert_eq!(b.order_hint, " !");
}

#[test]
fn planner_tab_payload() {
    let t = planner_tab("Proj X Tasks", "cp", "plan1");
    assert_eq!(t.display_name.as_deref(), Some("Proj X Tasks"));
    assert_eq!(
        t.teams_app_data_bind.as_deref(),
        Some("https://graph.microsoft.com/v1.0/appCatalogs/teamsApps/com.microsoft.teamspace.tab.planner")
    );
    let cfg = t.configuration.expect("configuration");
    assert_eq!(cfg.entity_id.as_deref(), Some("tt.c_cp_p_plan1"));
    assert_eq!(cfg.content_url.as_deref(), Some(urls::tab_content_url("plan1").as_str()));
    assert_eq!(cfg.remove_url.as_deref(), Some(urls::tab_remove_url("plan1").as_str()));
    assert_eq!(cfg.website_url.as_deref(), Some(urls::tab_web_url("plan1").as_str()));
}

#[test]
fn tab_title_appends_tasks() {
    assert_eq!(tab_title("Proj X"), "Proj X Tasks");
    assert_eq!(tab_title(""), " Tasks");
}

#[test]
fn actions_route_to_their_urls() {
    let a = Action::GetGroupsWithTeams;
    assert_eq!(a.url(), urls::groups_with_teams_url());
    assert!(matches!(a.method(), HttpMethod::Get));

    let a = Action::GetTeam { group_id: "g1".to_string() };
    assert_eq!(a.url(), "https://graph.microsoft.com/v1.0/groups/g1/team");
    assert!(matches!(a.method(), HttpMethod::Get));

    let a = Action::GetChannels { team_id: "team1".to_string() };
    assert_eq!(a.url(), "https://graph.microsoft.com/v1.0/teams/team1/channels");
    assert!(matches!(a.method(), HttpMethod::Get));

    let a = Action::GetPlans { group_id: "team1".to_string() };
    assert_eq!(a.url(), "https://graph.microsoft.com/beta/groups/team1/planner/plans");
    assert!(matches!(a.method(), HttpMethod::Get));

    let f = CreateSharedChannelForm {
        team_name: "T".to_string(),
        channel_display_name: "Proj X".to_string(),
        channel_description: String::new(),
        owner_id: "U1".to_string(),
        member_id: "U2".to_string(),
        plan: None,
    };
    let a = Action::PostCreateChannel {
        team_id: "team1".to_string(),
        body: create_channel_body(&f),
    };
    assert_eq!(a.url(), "https://graph.microsoft.com/v1.0/teams/team1/channels");
    assert!(matches!(a.method(), HttpMethod::Post));

    let a = Action::PostAddOwner {
        team_id: "team1".to_string(),
        channel_id: "cp".to_string(),
        body: owner_member("U2"),
    };
    assert_eq!(a.url(), "https://graph.microsoft.com/v1.0/teams/team1/channels/cp/members");
    assert!(matches!(a.method(), HttpMethod::Post));

    let a = Action::PostCreatePlan { body: create_plan_body("team1", "My Plan") };
    assert_eq!(a.url(), "https://graph.microsoft.com/beta/planner/plans");
    assert!(matches!(a.method(), HttpMethod::Post));

    let a = Action::PostCreateBucket { body: create_bucket_body("Tech Work", "plan1") };
    assert_eq!(a.url(), "https://graph.microsoft.com/beta/planner/buckets");
    assert!(matches!(a.method(), HttpMethod::Post));

    let a = Action::PostInstallPlannerApp { team_id: "team1".to_string() };
    assert_eq!(a.url(), "https://graph.microsoft.com/beta/teams/team1/installedApps");
    assert!(matches!(a.method(), HttpMethod::Post));

    let a = Action::PostCreateTab {
        team_id: "team1".to_string(),
        channel_id: "cp".to_string(),
        body: planner_tab("Proj X Tasks", "cp", "plan1"),
    };
    assert_eq!(a.url(), "https://graph.microsoft.com/v1.0/teams/team1/channels/cp/tabs");
    assert!(matches!(a.method(), HttpMethod::Post));
}
