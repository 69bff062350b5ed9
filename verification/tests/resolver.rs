//! Plan-template resolution.

use msgraph::plan::CreatePlanForm;
use msgraph::plan::PlanTemplateType;

#[test]
fn resolve_project_lowercase() {
    assert_eq!(PlanTemplateType::from_name("project"), PlanTemplateType::Project);
}

#[test]
fn resolve_project_uppercase() {
    assert_eq!(PlanTemplateType::from_name("PROJECT"), PlanTemplateType::Project);
}

#[test]
fn resolve_project_mixed_case() {
    assert_eq!(PlanTemplateType::from_name("Project"), PlanTemplateType::Project);
}

#[test]
fn resolve_unknown_is_default() {
    assert_eq!(PlanTemplateType::from_name("anything-else"), PlanTemplateType::Default);
}

#[test]
fn resolve_empty_is_default() {
    assert_eq!(PlanTemplateType::from_name(""), PlanTemplateType::Default);
}

#[test]
fn resolve_near_miss_is_default() {
    assert_eq!(PlanTemplateType::from_name("projects"), PlanTemplateType::Default);
    assert_eq!(PlanTemplateType::from_name("projec"), PlanTemplateType::Default);
    assert_eq!(PlanTemplateType::from_name("protect"), PlanTemplateType::Default);
}

#[test]
fn project_template_has_three_buckets() {
    let spec = PlanTemplateType::Project.to_spec();
    assert_eq!(spec.buckets, vec!["Tech Work", "Design Work", "Install Work"]);
}

#[test]
fn default_template_has_no_buckets() {
    let spec = PlanTemplateType::Default.to_spec();
    assert!(spec.buckets.is_empty());
}

#[test]
fn to_create_plan_resolves_template() {
    let form = CreatePlanForm {
        plan_name: "My Plan".to_string(),
        plan_template: "PROJECT".to_string(),
    };
    let cp = form.to_create_plan();
    assert_eq!(cp.plan_name, "My Plan");
    assert_eq!(cp.plan_template, PlanTemplateType::Project);

    let form = CreatePlanForm {
        plan_name: "Other".to_string(),
        plan_template: "kanban".to_string(),
    };
    let cp = form.to_create_plan();
    assert_eq!(cp.plan_template, PlanTemplateType::Default);
}
