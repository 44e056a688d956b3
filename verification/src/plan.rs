//! The canonical scaffold plan: the ordered materialization steps that the
//! `integrate` verb executes in the current directory, and that the `new`
//! verb executes inside the freshly created project.

use vstd::prelude::*;
use crate::templates::{TemplateName, spec_template, spec_placeholder_key, spec_destination};
use crate::templates::{template_payload, template_destination, placeholder_key};
use crate::text::{replace_all, substitute, chars_of};

verus! {

/// One materialization step of a scaffold plan, at the specification level.
pub enum StepView {
    /// Ensure that the named directory exists.
    Dir(Seq<char>),
    /// Ensure that the named file exists; if it does not, write the given
    /// contents.
    File(Seq<char>, Seq<char>),
}

/// One materialization step of a scaffold plan. A step never overwrites an
/// existing path: presence alone, not content, gates the action.
pub enum PlanStep {
    /// Ensure that the named directory exists.
    Dir(Vec<char>),
    /// Ensure that the named file exists; if it does not, write the given
    /// contents.
    File(Vec<char>, Vec<char>),
}

impl View for PlanStep {
    type V = StepView;

    open spec fn view(&self) -> StepView {
        match self {
            PlanStep::Dir(p) => StepView::Dir(p@),
            PlanStep::File(p, c) => StepView::File(p@, c@),
        }
    }
}

/// The path a step ensures.
pub open spec fn step_path(step: StepView) -> Seq<char> {
    match step {
        StepView::Dir(p) => p,
        StepView::File(p, c) => p,
    }
}

/// The views of a sequence of steps.
pub open spec fn plan_view(steps: Seq<PlanStep>) -> Seq<StepView> {
    steps.map_values(|s: PlanStep| s@)
}

/// The canonical scaffold plan for a project whose directory basename is
/// `name`, in its fixed order: the `Assets` directory, the build driver,
/// the `html` directory, the host page with `$PROJECT_NAME` resolved to
/// `name`, the `.cargo` directory, and the toolchain configuration.
pub open spec fn spec_plan(name: Seq<char>) -> Seq<StepView> {
    seq![
        StepView::Dir("Assets"@),
        StepView::File(
            spec_destination(TemplateName::BuildDriver),
            spec_template(TemplateName::BuildDriver),
        ),
        StepView::Dir("html"@),
        StepView::File(
            spec_destination(TemplateName::WebHostPage),
            replace_all(spec_template(TemplateName::WebHostPage), spec_placeholder_key(), name),
        ),
        StepView::Dir(".cargo"@),
        StepView::File(
            spec_destination(TemplateName::ToolchainConfig),
            spec_template(TemplateName::ToolchainConfig),
        ),
    ]
}

/// Build the canonical scaffold plan that the `integrate` verb executes:
/// the deterministic, ordered list of directory and file steps, with the
/// host page's placeholder resolved to the given project name.
pub fn integrate(project_name: &Vec<char>) -> (plan: Vec<PlanStep>)
    ensures
        plan_view(plan@) == spec_plan(project_name@),
{
    let mut plan: Vec<PlanStep> = Vec::new();
    plan.push(PlanStep::Dir(chars_of("Assets")));
    plan.push(PlanStep::File(
        template_destination(TemplateName::BuildDriver),
        template_payload(TemplateName::BuildDriver),
    ));
    plan.push(PlanStep::Dir(chars_of("html")));
    let page = template_payload(TemplateName::WebHostPage);
    let key = placeholder_key();
    plan.push(PlanStep::File(
        template_destination(TemplateName::WebHostPage),
        substitute(&page, &key, project_name),
    ));
    plan.push(PlanStep::Dir(chars_of(".cargo")));
    plan.push(PlanStep::File(
        template_destination(TemplateName::ToolchainConfig),
        template_payload(TemplateName::ToolchainConfig),
    ));
    proof {
        assert(plan_view(plan@) =~= spec_plan(project_name@));
    }
    plan
}

} // verus!
