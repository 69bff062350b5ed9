//! Lookup-by-name over fetched collections: exact, case-sensitive, first
//! match wins, not-found reported as `None`.

use msgraph::channel::Channel;
use msgraph::drive::Drive;
use msgraph::group::Group;
use msgraph::lookup::find_index_by_name;
use msgraph::plan::Plan;
use msgraph::site::Site;

fn chan(name: &str) -> Channel {
    let mut c = Channel::default();
    c.display_name = Some(name.to_string());
    c
}

#[test]
fn lookup_finds_named_element() {
    let items = vec![chan("Alpha"), chan("Beta")];
    let idx = find_index_by_name(&items, &"Beta".to_string());
    assert_eq!(idx, Some(1));
    assert_eq!(items[1].display_name.as_deref(), Some("Beta"));
}

#[test]
fn lookup_missing_name_is_none() {
    let items = vec![chan("Alpha"), chan("Beta")];
    assert_eq!(find_index_by_name(&items, &"Gamma".to_string()), None);
}

#[test]
fn lookup_is_case_sensitive() {
    let items = vec![chan("Alpha"), chan("Beta")];
    assert_eq!(find_index_by_name(&items, &"beta".to_string()), None);
}

#[test]
fn lookup_takes_first_of_equal_names() {
    let mut first = chan("Twin");
    first.id = Some("one".to_string());
    let mut second = chan("Twin");
    second.id = Some("two".to_string());
    let items = vec![chan("Other"), first, second];
    let idx = find_index_by_name(&items, &"Twin".to_string());
    assert_eq!(idx, Some(1));
    assert_eq!(items[1].id.as_deref(), Some("one"));
}

#[test]
fn lookup_skips_unnamed_elements() {
    let items = vec![Channel::default(), chan("Named")];
    assert_eq!(find_index_by_name(&items, &"Named".to_string()), Some(1));
}

#[test]
fn lookup_empty_collection_is_none() {
    let items: Vec<Channel> = Vec::new();
    assert_eq!(find_index_by_name(&items, &"Anything".to_string()), None);
}

#[test]
fn group_lookup_matches_display_name() {
    let mut g = Group::default();
    g.id = "g-1".to_string();
    g.display_name = Some("Ops".to_string());
    let items = vec![Group::default(), g];
    assert_eq!(find_index_by_name(&items, &"Ops".to_string()), Some(1));
    assert_eq!(find_index_by_name(&items, &"ops".to_string()), None);
}

#[test]
fn site_lookup_matches_display_name() {
    let mut s = Site::default();
    s.display_name = Some("Main".to_string());
    s.name = Some("other".to_string());
    let items = vec![s];
    assert_eq!(find_index_by_name(&items, &"Main".to_string()), Some(0));
    assert_eq!(find_index_by_name(&items, &"other".to_string()), None);
}

#[test]
fn drive_lookup_matches_name() {
    let mut d = Drive::default();
    d.name = Some("Documents".to_string());
    let items = vec![Drive::default(), d];
    assert_eq!(find_index_by_name(&items, &"Documents".to_string()), Some(1));
}

#[test]
fn plan_lookup_matches_title() {
    let mut p = Plan::default();
    p.id = "p-1".to_string();
    p.title = Some("Roadmap".to_string());
    let items = vec![p];
    assert_eq!(find_index_by_name(&items, &"Roadmap".to_string()), Some(0));
    assert_eq!(find_index_by_name(&items, &"roadmap".to_string()), None);
}
