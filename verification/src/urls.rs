//! The REST surface: every URL the client sends a request to, built by
//! interpolating resource ids into fixed templates, with the resulting
//! character sequence pinned down exactly.

use vstd::prelude::*;
use vstd::string::StrSliceExecFns;
use vstd::string::StringExecFns;

verus! {

fn cat2(a: &str, b: &str) -> (r: String)
    ensures
        r@ == a@ + b@,
{
    let mut s = a.to_owned();
    s.append(b);
    s
}

fn cat3(a: &str, b: &str, c: &str) -> (r: String)
    ensures
        r@ == a@ + b@ + c@,
{
    let mut s = a.to_owned();
    s.append(b);
    s.append(c);
    s
}

fn cat5(a: &str, b: &str, c: &str, d: &str, e: &str) -> (r: String)
    ensures
        r@ == a@ + b@ + c@ + d@ + e@,
{
    let mut s = a.to_owned();
    s.append(b);
    s.append(c);
    s.append(d);
    s.append(e);
    s
}

/// The groups listing, filtered server-side to groups that carry a team.
pub open spec fn groups_with_teams_url_spec() -> Seq<char> {
    "https://graph.microsoft.com/beta/groups?$filter=resourceProvisioningOptions/Any(x:x+eq+'Team')"@
}

pub fn groups_with_teams_url() -> (r: String)
    ensures
        r@ == groups_with_teams_url_spec(),
{
    "https://graph.microsoft.com/beta/groups?$filter=resourceProvisioningOptions/Any(x:x+eq+'Team')".to_owned()
}

/// The team behind a group.
pub open spec fn team_by_group_url_spec(group_id: Seq<char>) -> Seq<char> {
    "https://graph.microsoft.com/v1.0/groups/"@ + group_id + "/team"@
}

pub fn team_by_group_url(group_id: &str) -> (r: String)
    ensures
        r@ == team_by_group_url_spec(group_id@),
{
    cat3("https://graph.microsoft.com/v1.0/groups/", group_id, "/team")
}

/// A team's channel collection, both for listing and for creation.
pub open spec fn channels_url_spec(team_id: Seq<char>) -> Seq<char> {
    "https://graph.microsoft.com/v1.0/teams/"@ + team_id + "/channels"@
}

pub fn channels_url(team_id: &str) -> (r: String)
    ensures
        r@ == channels_url_spec(team_id@),
{
    cat3("https://graph.microsoft.com/v1.0/teams/", team_id, "/channels")
}

/// A channel's member collection.
pub open spec fn channel_members_url_spec(team_id: Seq<char>, channel_id: Seq<char>) -> Seq<char> {
    "https://graph.microsoft.com/v1.0/teams/"@ + team_id + "/channels/"@ + channel_id + "/members"@
}

pub fn channel_members_url(team_id: &str, channel_id: &str) -> (r: String)
    ensures
        r@ == channel_members_url_spec(team_id@, channel_id@),
{
    cat5("https://graph.microsoft.com/v1.0/teams/", team_id, "/channels/", channel_id, "/members")
}

/// The user-binding URL carried inside a channel membership payload.
pub open spec fn user_bind_url_spec(user_id: Seq<char>) -> Seq<char> {
    "https://graph.microsoft.com/v1.0/users('"@ + user_id + "')"@
}

pub fn user_bind_url(user_id: &str) -> (r: String)
    ensures
        r@ == user_bind_url_spec(user_id@),
{
    cat3("https://graph.microsoft.com/v1.0/users('", user_id, "')")
}

/// A group's planner plan collection.
pub open spec fn plans_url_spec(group_id: Seq<char>) -> Seq<char> {
    "https://graph.microsoft.com/beta/groups/"@ + group_id + "/planner/plans"@
}

pub fn plans_url(group_id: &str) -> (r: String)
    ensures
        r@ == plans_url_spec(group_id@),
{
    cat3("https://graph.microsoft.com/beta/groups/", group_id, "/planner/plans")
}

/// The plan-creation endpoint.
pub open spec fn create_plan_url_spec() -> Seq<char> {
    "https://graph.microsoft.com/beta/planner/plans"@
}

pub fn create_plan_url() -> (r: String)
    ensures
        r@ == create_plan_url_spec(),
{
    "https://graph.microsoft.com/beta/planner/plans".to_owned()
}

/// The bucket-creation endpoint.
pub open spec fn create_bucket_url_spec() -> Seq<char> {
    "https://graph.microsoft.com/beta/planner/buckets"@
}

pub fn create_bucket_url() -> (r: String)
    ensures
        r@ == create_bucket_url_spec(),
{
    "https://graph.microsoft.com/beta/planner/buckets".to_owned()
}

/// The container a created plan is filed under: its owning group.
pub open spec fn group_container_url_spec(group_id: Seq<char>) -> Seq<char> {
    "https://graph.microsoft.com/beta/groups/"@ + group_id
}

pub fn group_container_url(group_id: &str) -> (r: String)
    ensures
        r@ == group_container_url_spec(group_id@),
{
    cat2("https://graph.microsoft.com/beta/groups/", group_id)
}

/// A team's installed-apps collection.
pub open spec fn installed_apps_url_spec(team_id: Seq<char>) -> Seq<char> {
    "https://graph.microsoft.com/beta/teams/"@ + team_id + "/installedApps"@
}

pub fn installed_apps_url(team_id: &str) -> (r: String)
    ensures
        r@ == installed_apps_url_spec(team_id@),
{
    cat3("https://graph.microsoft.com/beta/teams/", team_id, "/installedApps")
}

/// A channel's tab collection.
pub open spec fn tabs_url_spec(team_id: Seq<char>, channel_id: Seq<char>) -> Seq<char> {
    "https://graph.microsoft.com/v1.0/teams/"@ + team_id + "/channels/"@ + channel_id + "/tabs"@
}

pub fn tabs_url(team_id: &str, channel_id: &str) -> (r: String)
    ensures
        r@ == tabs_url_spec(team_id@, channel_id@),
{
    cat5("https://graph.microsoft.com/v1.0/teams/", team_id, "/channels/", channel_id, "/tabs")
}

/// The catalog entry of the planner app, bound both when installing the app
/// and when creating a tab.
pub open spec fn planner_app_bind_spec() -> Seq<char> {
    "https://graph.microsoft.com/v1.0/appCatalogs/teamsApps/com.microsoft.teamspace.tab.planner"@
}

pub fn planner_app_bind() -> (r: String)
    ensures
        r@ == planner_app_bind_spec(),
{
    "https://graph.microsoft.com/v1.0/appCatalogs/teamsApps/com.microsoft.teamspace.tab.planner".to_owned()
}

/// The signed-in user.
pub open spec fn me_url_spec() -> Seq<char> {
    "https://graph.microsoft.com/v1.0/me"@
}

pub fn me_url() -> (r: String)
    ensures
        r@ == me_url_spec(),
{
    "https://graph.microsoft.com/v1.0/me".to_owned()
}

/// The signed-in user's photo.
pub open spec fn me_photo_url_spec() -> Seq<char> {
    "https://graph.microsoft.com/v1.0/me/photo/$value"@
}

pub fn me_photo_url() -> (r: String)
    ensures
        r@ == me_photo_url_spec(),
{
    "https://graph.microsoft.com/v1.0/me/photo/$value".to_owned()
}

/// The sites listing.
pub open spec fn sites_url_spec() -> Seq<char> {
    "https://graph.microsoft.com/beta/sites"@
}

pub fn sites_url() -> (r: String)
    ensures
        r@ == sites_url_spec(),
{
    "https://graph.microsoft.com/beta/sites".to_owned()
}

/// A site's page collection.
pub open spec fn site_pages_url_spec(site_id: Seq<char>) -> Seq<char> {
    "https://graph.microsoft.com/beta/sites/"@ + site_id + "/pages"@
}

pub fn site_pages_url(site_id: &str) -> (r: String)
    ensures
        r@ == site_pages_url_spec(site_id@),
{
    cat3("https://graph.microsoft.com/beta/sites/", site_id, "/pages")
}

/// A site's drive collection.
pub open spec fn site_drives_url_spec(site_id: Seq<char>) -> Seq<char> {
    "https://graph.microsoft.com/beta/sites/"@ + site_id + "/drives"@
}

pub fn site_drives_url(site_id: &str) -> (r: String)
    ensures
        r@ == site_drives_url_spec(site_id@),
{
    cat3("https://graph.microsoft.com/beta/sites/", site_id, "/drives")
}

/// The content upload endpoint of a drive item.
pub open spec fn drive_item_upload_url_spec(
    drive_id: Seq<char>,
    site_id: Seq<char>,
    file_name: Seq<char>,
) -> Seq<char> {
    "https://graph.microsoft.com/beta/drives/"@ + drive_id + "/items/"@ + site_id + ":/"@
        + file_name + ":/content"@
}

pub fn drive_item_upload_url(drive_id: &str, site_id: &str, file_name: &str) -> (r: String)
    ensures
        r@ == drive_item_upload_url_spec(drive_id@, site_id@, file_name@),
{
    let mut s = cat5("https://graph.microsoft.com/beta/drives/", drive_id, "/items/", site_id, ":/");
    s.append(file_name);
    s.append(":/content");
    s
}

/// The token endpoint of a directory tenant.
pub open spec fn token_url_spec(tenant_id: Seq<char>) -> Seq<char> {
    "https://login.microsoftonline.com/"@ + tenant_id + "/oauth2/v2.0/token"@
}

pub fn token_url(tenant_id: &str) -> (r: String)
    ensures
        r@ == token_url_spec(tenant_id@),
{
    cat3("https://login.microsoftonline.com/", tenant_id, "/oauth2/v2.0/token")
}

/// The entity id of a planner tab, tying a channel to a plan.
pub open spec fn tab_entity_id_spec(channel_id: Seq<char>, plan_id: Seq<char>) -> Seq<char> {
    "tt.c_"@ + channel_id + "_p_"@ + plan_id
}

pub fn tab_entity_id(channel_id: &str, plan_id: &str) -> (r: String)
    ensures
        r@ == tab_entity_id_spec(channel_id@, plan_id@),
{
    let mut s = cat3("tt.c_", channel_id, "_p_");
    s.append(plan_id);
    s
}

/// The content URL of a planner tab. The brace-delimited tokens are
/// placeholders that the remote platform substitutes at render time; only
/// the plan id is filled in here.
pub open spec fn tab_content_url_spec(plan_id: Seq<char>) -> Seq<char> {
    "https://tasks.teams.microsoft.com/teamsui/{tid}/Home/PlannerFrame?page=7&auth_pvr=OrgId&auth_upn={userPrincipalName}&groupId={groupId}&planId="@
        + plan_id
        + "&channelId={channelId}&entityId={entityId}&tid={tid}&userObjectId={userObjectId}&subEntityId={subEntityId}&sessionId={sessionId}&theme={theme}&mkt={locale}&ringId={ringId}&PlannerRouteHint={tid}&tabVersion=20200228.1_s"@
}

pub fn tab_content_url(plan_id: &str) -> (r: String)
    ensures
        r@ == tab_content_url_spec(plan_id@),
{
    cat3(
        "https://tasks.teams.microsoft.com/teamsui/{tid}/Home/PlannerFrame?page=7&auth_pvr=OrgId&auth_upn={userPrincipalName}&groupId={groupId}&planId=",
        plan_id,
        "&channelId={channelId}&entityId={entityId}&tid={tid}&userObjectId={userObjectId}&subEntityId={subEntityId}&sessionId={sessionId}&theme={theme}&mkt={locale}&ringId={ringId}&PlannerRouteHint={tid}&tabVersion=20200228.1_s",
    )
}

/// The removal URL of a planner tab, the same template on another page.
pub open spec fn tab_remove_url_spec(plan_id: Seq<char>) -> Seq<char> {
    "https://tasks.teams.microsoft.com/teamsui/{tid}/Home/PlannerFrame?page=13&auth_pvr=OrgId&auth_upn={userPrincipalName}&groupId={groupId}&planId="@
        + plan_id
        + "&channelId={channelId}&entityId={entityId}&tid={tid}&userObjectId={userObjectId}&subEntityId={subEntityId}&sessionId={sessionId}&theme={theme}&mkt={locale}&ringId={ringId}&PlannerRouteHint={tid}&tabVersion=20200228.1_s"@
}

pub fn tab_remove_url(plan_id: &str) -> (r: String)
    ensures
        r@ == tab_remove_url_spec(plan_id@),
{
    cat3(
        "https://tasks.teams.microsoft.com/teamsui/{tid}/Home/PlannerFrame?page=13&auth_pvr=OrgId&auth_upn={userPrincipalName}&groupId={groupId}&planId=",
        plan_id,
        "&channelId={channelId}&entityId={entityId}&tid={tid}&userObjectId={userObjectId}&subEntityId={subEntityId}&sessionId={sessionId}&theme={theme}&mkt={locale}&ringId={ringId}&PlannerRouteHint={tid}&tabVersion=20200228.1_s",
    )
}

/// The website URL of a planner tab.
pub open spec fn tab_web_url_spec(plan_id: Seq<char>) -> Seq<char> {
    "https://tasks.office.com/{tid}/Home/PlanViews/@"@ + plan_id
        + "?Type=PlanLink&Channel=TeamsTab"@
}

pub fn tab_web_url(plan_id: &str) -> (r: String)
    ensures
        r@ == tab_web_url_spec(plan_id@),
{
    cat3(
        "https://tasks.office.com/{tid}/Home/PlanViews/@",
        plan_id,
        "?Type=PlanLink&Channel=TeamsTab",
    )
}

} // verus!
