//! The steps of a job as the user sees them, and the reports that carry them.

use vstd::prelude::*;

use crate::text;

verus! {

/// Where an update or a plugin job stands.
#[derive(Clone, Copy, Debug, PartialEq, Eq, Structural)]
pub enum UpdatePhase {
    Idle,
    Checking,
    Available,
    Downloading,
    Verifying,
    Staging,
    Switching,
    RollingBack,
    PluginInstalling,
    PluginRemoving,
    PluginToggling,
    Failed,
}

/// Where one step of a job stands.
#[derive(Clone, Copy, Debug, PartialEq, Eq, Structural)]
pub enum StepStatus {
    Pending,
    Active,
    Done,
    Failed,
    Skipped,
}

/// One step of a job.
#[derive(Debug, PartialEq, Eq)]
pub struct UpdateStep {
    pub label: String,
    pub status: StepStatus,
    pub detail: String,
}

/// What an `UpdateStep` says.
pub struct StepView {
    pub label: Seq<char>,
    pub status: StepStatus,
    pub detail: Seq<char>,
}

impl View for UpdateStep {
    type V = StepView;

    open spec fn view(&self) -> StepView {
        StepView { label: self.label@, status: self.status, detail: self.detail@ }
    }
}

impl Clone for UpdateStep {
    fn clone(&self) -> (r: Self)
        ensures
            r@ == self@,
    {
        UpdateStep {
            label: self.label.clone(),
            status: self.status,
            detail: self.detail.clone(),
        }
    }
}

/// What a list of steps says.
pub open spec fn steps_view(steps: Seq<UpdateStep>) -> Seq<StepView> {
    steps.map_values(|step: UpdateStep| step@)
}

/// A step that has not begun.
pub open spec fn pending_step(label: Seq<char>) -> StepView {
    StepView { label, status: StepStatus::Pending, detail: Seq::empty() }
}

/// The steps with these labels, none of them begun.
pub open spec fn pending_steps(labels: Seq<Seq<char>>) -> Seq<StepView> {
    labels.map_values(|label: Seq<char>| pending_step(label))
}

/// `steps` with a new status and detail at `index`; the same steps where
/// there is no such index.
pub open spec fn with_step(
    steps: Seq<StepView>,
    index: int,
    status: StepStatus,
    detail: Seq<char>,
) -> Seq<StepView> {
    if 0 <= index < steps.len() {
        steps.update(index, StepView { label: steps[index].label, status, detail })
    } else {
        steps
    }
}

/// A step of a job that failed: one that waited is skipped, one that ran has
/// failed.
pub open spec fn settled(step: StepView) -> StepView {
    StepView {
        label: step.label,
        status: match step.status {
            StepStatus::Pending => StepStatus::Skipped,
            StepStatus::Active => StepStatus::Failed,
            other => other,
        },
        detail: step.detail,
    }
}

pub open spec fn all_settled(steps: Seq<StepView>) -> Seq<StepView> {
    steps.map_values(|step: StepView| settled(step))
}

/// The characters of each label.
pub open spec fn label_texts(labels: Seq<&str>) -> Seq<Seq<char>> {
    labels.map_values(|label: &str| label@)
}

/// Steps with the given labels, all of them waiting.
pub fn flow_from(labels: &[&str]) -> (r: Vec<UpdateStep>)
    ensures
        steps_view(r@) == pending_steps(label_texts(labels@)),
{
    let mut out: Vec<UpdateStep> = Vec::new();
    let mut i: usize = 0;
    while i < labels.len()
        invariant
            i <= labels@.len(),
            out@.len() == i,
            forall|j: int| 0 <= j < i ==> (#[trigger] out@[j])@ == pending_step(labels@[j]@),
        decreases labels@.len() - i,
    {
        out.push(
            UpdateStep {
                label: labels[i].to_owned(),
                status: StepStatus::Pending,
                detail: String::new(),
            },
        );
        i += 1;
    }
    assert(steps_view(out@) =~= pending_steps(label_texts(labels@)));
    out
}

/// Gives the step at `index` a status and a detail; does nothing where there
/// is no such step.
pub fn set_step(steps: &mut Vec<UpdateStep>, index: usize, status: StepStatus, detail: String)
    ensures
        steps_view(final(steps)@) == with_step(
            steps_view(old(steps)@),
            index as int,
            status,
            detail@,
        ),
{
    if index < steps.len() {
        let label = steps[index].label.clone();
        let step = UpdateStep { label, status, detail };
        steps.set(index, step);
    }
    assert(steps_view(steps@) =~= with_step(
        steps_view(old(steps)@),
        index as int,
        status,
        detail@,
    ));
}

/// Settles what is left of a job that failed.
pub fn fail_remaining(steps: &mut Vec<UpdateStep>)
    ensures
        steps_view(final(steps)@) == all_settled(steps_view(old(steps)@)),
{
    let ghost before = steps_view(steps@);
    let mut i: usize = 0;
    while i < steps.len()
        invariant
            i <= steps@.len(),
            before.len() == steps@.len(),
            forall|j: int| 0 <= j < i ==> (#[trigger] steps@[j])@ == settled(before[j]),
            forall|j: int| i <= j < steps@.len() ==> (#[trigger] steps@[j])@ == before[j],
        decreases steps@.len() - i,
    {
        let status = match steps[i].status {
            StepStatus::Pending => StepStatus::Skipped,
            StepStatus::Active => StepStatus::Failed,
            other => other,
        };
        let label = steps[i].label.clone();
        let detail = steps[i].detail.clone();
        assert(steps@[i as int]@ == before[i as int]);
        steps.set(i, UpdateStep { label, status, detail });
        i += 1;
    }
    assert(steps_view(steps@) =~= all_settled(before));
}

/// A copy of a list of steps.
pub fn copy_steps(steps: &Vec<UpdateStep>) -> (r: Vec<UpdateStep>)
    ensures
        steps_view(r@) == steps_view(steps@),
{
    let mut out: Vec<UpdateStep> = Vec::new();
    let mut i: usize = 0;
    while i < steps.len()
        invariant
            i <= steps@.len(),
            out@.len() == i,
            forall|j: int| 0 <= j < i ==> (#[trigger] out@[j])@ == steps@[j]@,
        decreases steps@.len() - i,
    {
        out.push(steps[i].clone());
        i += 1;
    }
    assert(steps_view(out@) =~= steps_view(steps@));
    out
}

/// What a job tells the user: the phase, a message, the version on offer and
/// the steps.
#[derive(Debug, PartialEq, Eq)]
pub struct UpdateReport {
    pub phase: UpdatePhase,
    pub message: String,
    pub available_version: Option<String>,
    pub steps: Vec<UpdateStep>,
}

/// What an `UpdateReport` says.
#[verifier::ext_equal]
pub struct ReportView {
    pub phase: UpdatePhase,
    pub message: Seq<char>,
    pub available_version: Option<Seq<char>>,
    pub steps: Seq<StepView>,
}

impl View for UpdateReport {
    type V = ReportView;

    open spec fn view(&self) -> ReportView {
        ReportView {
            phase: self.phase,
            message: self.message@,
            available_version: text::text_opt(self.available_version),
            steps: steps_view(self.steps@),
        }
    }
}

/// A report on `steps` as they stand.
pub fn report(
    phase: UpdatePhase,
    message: String,
    available_version: &Option<String>,
    steps: &Vec<UpdateStep>,
) -> (r: UpdateReport)
    ensures
        r@ == (ReportView {
            phase,
            message: message@,
            available_version: text::text_opt(*available_version),
            steps: steps_view(steps@),
        }),
{
    UpdateReport {
        phase,
        message,
        available_version: text::copy_opt(available_version),
        steps: copy_steps(steps),
    }
}

/// After a failure no step waits or runs any more, and every step that had
/// already ended keeps what it says.
pub proof fn failure_leaves_nothing_open(steps: Seq<StepView>)
    ensures
        all_settled(steps).len() == steps.len(),
        forall|i: int|
            0 <= i < steps.len() ==> {
                &&& (#[trigger] all_settled(steps)[i]).status != StepStatus::Pending
                &&& all_settled(steps)[i].status != StepStatus::Active
                &&& (steps[i].status != StepStatus::Pending && steps[i].status
                    != StepStatus::Active ==> all_settled(steps)[i] == steps[i])
            },
        all_settled(all_settled(steps)) == all_settled(steps),
{
    assert(all_settled(all_settled(steps)) =~= all_settled(steps));
}

/// Setting a step changes that step alone, and neither its label nor the
/// number of steps.
pub proof fn setting_a_step_is_local(
    steps: Seq<StepView>,
    index: int,
    status: StepStatus,
    detail: Seq<char>,
)
    ensures
        with_step(steps, index, status, detail).len() == steps.len(),
        forall|i: int|
            0 <= i < steps.len() ==> (#[trigger] with_step(steps, index, status, detail)[i]).label
                == steps[i].label,
        forall|i: int|
            0 <= i < steps.len() && i != index ==> #[trigger] with_step(
                steps,
                index,
                status,
                detail,
            )[i] == steps[i],
        0 <= index < steps.len() ==> with_step(steps, index, status, detail)[index].status
            == status && with_step(steps, index, status, detail)[index].detail == detail,
{
}

/// A failure skips what waited, fails what ran, and keeps every label and
/// detail and every step that had ended.
pub proof fn a_failure_settles_each_step(steps: Seq<StepView>, i: int)
    requires
        0 <= i < steps.len(),
    ensures
        all_settled(steps).len() == steps.len(),
        all_settled(steps)[i].label == steps[i].label,
        all_settled(steps)[i].detail == steps[i].detail,
        steps[i].status == StepStatus::Pending ==> all_settled(steps)[i].status
            == StepStatus::Skipped,
        steps[i].status == StepStatus::Active ==> all_settled(steps)[i].status
            == StepStatus::Failed,
        steps[i].status == StepStatus::Done ==> all_settled(steps)[i].status == StepStatus::Done,
        steps[i].status == StepStatus::Failed ==> all_settled(steps)[i].status
            == StepStatus::Failed,
        steps[i].status == StepStatus::Skipped ==> all_settled(steps)[i].status
            == StepStatus::Skipped,
{
}

/// A flow begins with one waiting step for each label, in the order of the
/// labels and without details.
pub proof fn a_flow_begins_with_waiting_steps(labels: Seq<Seq<char>>, i: int)
    requires
        0 <= i < labels.len(),
    ensures
        pending_steps(labels).len() == labels.len(),
        pending_steps(labels)[i].label == labels[i],
        pending_steps(labels)[i].status == StepStatus::Pending,
        pending_steps(labels)[i].detail.len() == 0,
{
}

/// A list of steps says what each of them says, in their order.
pub proof fn lists_say_what_their_steps_say(list: Seq<UpdateStep>, i: int)
    requires
        0 <= i < list.len(),
    ensures
        steps_view(list).len() == list.len(),
        steps_view(list)[i].label == list[i].label@,
        steps_view(list)[i].status == list[i].status,
        steps_view(list)[i].detail == list[i].detail@,
{
}

/// A new status and detail of one step changes that step alone and keeps its
/// label; where there is no such step nothing changes.
pub proof fn one_step_changes(
    steps: Seq<StepView>,
    index: int,
    status: StepStatus,
    detail: Seq<char>,
    i: int,
)
    requires
        0 <= i < steps.len(),
    ensures
        with_step(steps, index, status, detail).len() == steps.len(),
        i != index ==> with_step(steps, index, status, detail)[i] == steps[i],
        i == index ==> with_step(steps, index, status, detail)[i] == (StepView {
            label: steps[i].label,
            status,
            detail,
        }),
{
}

/// Labels say what their texts say, in their order.
pub proof fn labels_say_what_their_texts_say(labels: Seq<&str>, i: int)
    requires
        0 <= i < labels.len(),
    ensures
        label_texts(labels).len() == labels.len(),
        label_texts(labels)[i] == labels[i]@,
{
}

/// A report says what it was made of.
pub proof fn a_report_says_what_it_was_made_of(
    phase: UpdatePhase,
    message: String,
    available_version: &Option<String>,
    steps: &Vec<UpdateStep>,
    r: UpdateReport,
)
    requires
        call_ensures(report, (phase, message, available_version, steps), r),
    ensures
        r.phase == phase,
        r.message@ == message@,
        text::text_opt(r.available_version) == text::text_opt(*available_version),
        steps_view(r.steps@) == steps_view(steps@),
{
}

} // verus!
