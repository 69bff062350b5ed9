//! Planner entities, plan-creation requests, and plan-template resolution.

use vstd::prelude::*;

verus! {

/// Graph API planner plan object.
#[derive(Debug, Clone, Default)]
pub struct Plan {
    pub odata_context: Option<String>,
    pub odata_etag: Option<String>,
    pub created_date_time: Option<String>,
    pub owner: Option<String>,
    pub title: Option<String>,
    pub id: String,
    pub created_by: Option<CreatedBy>,
    pub container: Option<Container>,
}

impl crate::lookup::NamedEntity for Plan {
    open spec fn match_name(&self, name: Seq<char>) -> bool {
        match self.title {
            Some(n) => n@ == name,
            None => false,
        }
    }

    fn name_matches(&self, name: &String) -> (r: bool) {
        match &self.title {
            Some(n) => *n == *name,
            None => false,
        }
    }
}

#[derive(Debug, Clone, Default)]
pub struct CreatedBy {
    pub user: Option<User>,
    pub application: Option<Application>,
}

#[derive(Debug, Clone, Default)]
pub struct User {
    pub display_name: Option<String>,
    pub id: String,
}

#[derive(Debug, Clone, Default)]
pub struct Application {
    pub display_name: Option<String>,
    pub id: String,
}

#[derive(Debug, Clone, Default)]
pub struct Container {
    pub container_id: String,
    pub type_: Option<String>,
    pub url: Option<String>,
}

/// Plan collection wrapper, mirroring the list response. A missing `value`
/// field means the response carried no plan list at all.
#[derive(Debug, Clone, Default)]
pub struct PlanCollection {
    pub odata_context: Option<String>,
    pub odata_next_link: Option<String>,
    pub odata_count: Option<i64>,
    pub value: Option<Vec<Plan>>,
}

/// Graph API planner bucket object.
#[derive(Debug, Clone, Default)]
pub struct Bucket {
    pub creation_source: Option<CreationSource>,
    pub id: Option<String>,
    pub name: Option<String>,
    pub order_hint: Option<String>,
    pub plan_id: Option<String>,
}

#[derive(Debug, Clone, Default)]
pub struct CreationSource {
    pub odata_type: Option<String>,
}

/// The free-text plan request as it arrives from the caller.
#[derive(Debug, Clone)]
pub struct CreatePlanForm {
    pub plan_name: String,
    pub plan_template: String,
}

#[verifier::ext_equal]
pub ghost struct CreatePlanFormV {
    pub plan_name: Seq<char>,
    pub plan_template: Seq<char>,
}

impl View for CreatePlanForm {
    type V = CreatePlanFormV;

    open spec fn view(&self) -> CreatePlanFormV {
        CreatePlanFormV { plan_name: self.plan_name@, plan_template: self.plan_template@ }
    }
}

impl CreatePlanForm {
    /// Resolve the free-text template name, keeping the plan name. Template
    /// resolution never fails: unrecognized text maps to the default
    /// template.
    pub fn to_create_plan(&self) -> (r: CreatePlan)
        ensures
            r.plan_name@ == self.plan_name@,
            r.plan_template == template_of(self.plan_template@),
    {
        CreatePlan {
            plan_name: self.plan_name.clone(),
            plan_template: PlanTemplateType::from_name(self.plan_template.as_str()),
        }
    }
}

/// A plan request with its template resolved.
#[derive(Debug, Clone)]
pub struct CreatePlan {
    pub plan_name: String,
    pub plan_template: PlanTemplateType,
}

/// The template behind a plan-creation request: either the default template,
/// which carries no buckets, or the project template with its three fixed
/// bucket names.
#[derive(Debug, Clone, Copy, PartialEq, Eq, Structural)]
pub enum PlanTemplateType {
    Default,
    Project,
}

/// The lower-case code point of `c` under ASCII case folding.
pub open spec fn lower_code(c: char) -> int {
    if 65 <= c as u32 && c as u32 <= 90 {
        c as u32 + 32
    } else {
        c as u32 as int
    }
}

/// ASCII-case-insensitive equality of two character sequences.
pub open spec fn eq_ignore_ascii_case(s: Seq<char>, t: Seq<char>) -> bool {
    s.len() == t.len() && forall|i: int| 0 <= i < s.len() ==> lower_code(s[i]) == lower_code(t[i])
}

/// Which template a free-text template name denotes: `"project"` compared
/// without regard to ASCII case selects the project template, anything else
/// the default one. Resolution never fails.
pub open spec fn template_of(s: Seq<char>) -> PlanTemplateType {
    if eq_ignore_ascii_case(s, "project"@) {
        PlanTemplateType::Project
    } else {
        PlanTemplateType::Default
    }
}

/// The bucket names that a template prescribes, in creation order.
pub open spec fn template_buckets(t: PlanTemplateType) -> Seq<Seq<char>> {
    match t {
        PlanTemplateType::Default => Seq::empty(),
        PlanTemplateType::Project => seq!["Tech Work"@, "Design Work"@, "Install Work"@],
    }
}

impl PlanTemplateType {
    /// Resolve a free-text template name to a template.
    pub fn from_name(name: &str) -> (t: PlanTemplateType)
        ensures
            t == template_of(name@),
    {
        let target = "project";
        proof {
            reveal_strlit("project");
        }
        let n = name.unicode_len();
        if n != 7 {
            return PlanTemplateType::Default;
        }
        let mut i: usize = 0;
        while i < 7
            invariant
                0 <= i <= 7,
                name@.len() == 7,
                target@ == "project"@,
                target@.len() == 7,
                forall|j: int| 0 <= j < i ==> lower_code(name@[j]) == lower_code(target@[j]),
            decreases 7 - i,
        {
            let c = name.get_char(i);
            let p = target.get_char(i);
            let cu = c as u32;
            let pu = p as u32;
            let cl: u32 = if 65 <= cu && cu <= 90 { cu + 32 } else { cu };
            let pl: u32 = if 65 <= pu && pu <= 90 { pu + 32 } else { pu };
            if cl != pl {
                return PlanTemplateType::Default;
            }
            i += 1;
        }
        PlanTemplateType::Project
    }

    /// The bucket set that this template prescribes, in creation order.
    pub fn to_spec(&self) -> (r: PlanTemplateSpec)
        ensures
            r.buckets@.map_values(|s: String| s@) == template_buckets(*self),
    {
        match self {
            PlanTemplateType::Default => {
                let v: Vec<String> = Vec::new();
                proof {
                    assert(v@.map_values(|s: String| s@) =~= template_buckets(*self));
                }
                PlanTemplateSpec { buckets: v }
            },
            PlanTemplateType::Project => {
                let mut v: Vec<String> = Vec::new();
                v.push("Tech Work".to_owned());
                v.push("Design Work".to_owned());
                v.push("Install Work".to_owned());
                proof {
                    assert(v@.map_values(|s: String| s@) =~= template_buckets(*self));
                }
                PlanTemplateSpec { buckets: v }
            },
        }
    }
}

/// The ordered set of bucket names a template resolves to.
#[derive(Debug, Clone)]
pub struct PlanTemplateSpec {
    pub buckets: Vec<String>,
}

/// The body of a plan-creation request: the owning group as container, and
/// the plan title.
#[derive(Debug, Clone)]
pub struct CreatePlanBody {
    pub container_url: String,
    pub title: String,
}

#[verifier::ext_equal]
pub ghost struct CreatePlanBodyV {
    pub container_url: Seq<char>,
    pub title: Seq<char>,
}

impl View for CreatePlanBody {
    type V = CreatePlanBodyV;

    open spec fn view(&self) -> CreatePlanBodyV {
        CreatePlanBodyV { container_url: self.container_url@, title: self.title@ }
    }
}

/// The plan-creation payload that files a plan named `title` under the group
/// `group_id`.
pub open spec fn create_plan_body_v(group_id: Seq<char>, title: Seq<char>) -> CreatePlanBodyV {
    CreatePlanBodyV { container_url: crate::urls::group_container_url_spec(group_id), title: title }
}

/// Build the plan-creation payload.
pub fn create_plan_body(group_id: &str, title: &str) -> (r: CreatePlanBody)
    ensures
        r@ == create_plan_body_v(group_id@, title@),
{
    CreatePlanBody {
        container_url: crate::urls::group_container_url(group_id),
        title: title.to_owned(),
    }
}

/// The body of a bucket-creation request. The order hint is a constant
/// placeholder that the remote planner resolves into an actual position.
#[derive(Debug, Clone)]
pub struct CreateBucketBody {
    pub name: String,
    pub plan_id: String,
    pub order_hint: String,
}

#[verifier::ext_equal]
pub ghost struct CreateBucketBodyV {
    pub name: Seq<char>,
    pub plan_id: Seq<char>,
    pub order_hint: Seq<char>,
}

impl View for CreateBucketBody {
    type V = CreateBucketBodyV;

    open spec fn view(&self) -> CreateBucketBodyV {
        CreateBucketBodyV {
            name: self.name@,
            plan_id: self.plan_id@,
            order_hint: self.order_hint@,
        }
    }
}

/// The bucket-creation payload that adds a bucket named `name` to the plan
/// `plan_id`, with the constant placeholder order hint.
pub open spec fn create_bucket_body_v(name: Seq<char>, plan_id: Seq<char>) -> CreateBucketBodyV {
    CreateBucketBodyV { name: name, plan_id: plan_id, order_hint: " !"@ }
}

/// Build the bucket-creation payload.
pub fn create_bucket_body(name: &str, plan_id: &str) -> (r: CreateBucketBody)
    ensures
        r@ == create_bucket_body_v(name@, plan_id@),
{
    CreateBucketBody {
        name: name.to_owned(),
        plan_id: plan_id.to_owned(),
        order_hint: " !".to_owned(),
    }
}

} // verus!
