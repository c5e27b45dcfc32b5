//! The return to the bundled runtime.

use vstd::prelude::*;
use vstd::string::*;

use crate::install::Question;
use crate::runtime;
use crate::steps;
use crate::steps::ReportView;
use crate::steps::StepStatus;
use crate::steps::StepView;
use crate::steps::UpdatePhase;
use crate::steps::UpdateReport;
use crate::steps::UpdateStep;
use crate::text;

verus! {

/// What the user is asked before the bundled runtime is restored.
pub fn restore_question() -> (r: Question)
    ensures
        r.title@ == "恢复随包 DSH"@,
        r.message@ == "将恢复安装包内置的 DSH "@ + runtime::BUNDLED_DSH_VERSION@
            + " 并重启运行时。进行中的会话会中断。"@,
{
    Question {
        title: "恢复随包 DSH".to_string(),
        message: text::join3(
            "将恢复安装包内置的 DSH ",
            runtime::BUNDLED_DSH_VERSION,
            " 并重启运行时。进行中的会话会中断。",
        ),
    }
}

/// What the return waits for.
#[derive(Clone, Copy, Debug, PartialEq, Eq, Structural)]
pub enum RestoreStage {
    /// The new state, written.
    Restoring,
    /// Whether the restart could be asked for.
    Restarting,
    /// Nothing: the return has ended.
    Ended,
}

/// What is to be done.
#[derive(Debug, PartialEq, Eq)]
pub enum RestoreAction {
    /// Show this.
    Report(UpdateReport),
    /// End the job.
    Finish,
    /// Restart the runtime.
    Restart,
}

/// What a `RestoreAction` says.
#[verifier::ext_equal]
pub enum RestoreActionView {
    Report(ReportView),
    Finish,
    Restart,
}

impl View for RestoreAction {
    type V = RestoreActionView;

    open spec fn view(&self) -> RestoreActionView {
        match self {
            RestoreAction::Report(report) => RestoreActionView::Report(report@),
            RestoreAction::Finish => RestoreActionView::Finish,
            RestoreAction::Restart => RestoreActionView::Restart,
        }
    }
}

/// What a list of actions says.
pub open spec fn actions_view(actions: Seq<RestoreAction>) -> Seq<RestoreActionView> {
    actions.map_values(|action: RestoreAction| action@)
}

/// A return on its way.
#[derive(Debug)]
pub struct RestoreFlow {
    steps: Vec<UpdateStep>,
    stage: RestoreStage,
}

/// What a `RestoreFlow` knows.
#[verifier::ext_equal]
pub struct RestoreView {
    pub steps: Seq<StepView>,
    pub stage: RestoreStage,
}

impl View for RestoreFlow {
    type V = RestoreView;

    closed spec fn view(&self) -> RestoreView {
        RestoreView { steps: steps::steps_view(self.steps@), stage: self.stage }
    }
}

/// The bundled version, as the steps name it.
pub open spec fn bundled_name() -> Seq<char> {
    "DSH "@ + runtime::BUNDLED_DSH_VERSION@
}

/// What is said on the way.
pub open spec fn switching(steps: Seq<StepView>) -> ReportView {
    ReportView {
        phase: UpdatePhase::Switching,
        message: "正在恢复随包 DSH "@ + runtime::BUNDLED_DSH_VERSION@ + "。"@,
        available_version: None,
        steps,
    }
}

/// What is said of a failure.
pub open spec fn failure(steps: Seq<StepView>, error: Seq<char>) -> ReportView {
    ReportView { phase: UpdatePhase::Failed, message: error, available_version: None, steps }
}

/// A return that has just begun.
pub open spec fn begun() -> RestoreView {
    RestoreView {
        steps: steps::with_step(
            steps::pending_steps(seq!["恢复随包"@, "切换"@]),
            0,
            StepStatus::Active,
            bundled_name(),
        ),
        stage: RestoreStage::Restoring,
    }
}

/// Where a return stands after an answer, and what is to be done.
#[verifier::ext_equal]
pub struct RestoreOutcome {
    pub flow: RestoreView,
    pub actions: Seq<RestoreActionView>,
}

/// What follows from the answer to what was asked for last.
pub open spec fn next(flow: RestoreView, done: Result<(), String>) -> RestoreOutcome {
    match (flow.stage, done) {
        (RestoreStage::Restoring, Ok(_)) => {
            let steps = steps::with_step(
                steps::with_step(flow.steps, 0, StepStatus::Done, bundled_name()),
                1,
                StepStatus::Active,
                "正在重启运行时"@,
            );
            RestoreOutcome {
                flow: RestoreView { steps, stage: RestoreStage::Restarting },
                actions: seq![
                    RestoreActionView::Report(switching(steps)),
                    RestoreActionView::Finish,
                    RestoreActionView::Restart,
                ],
            }
        },
        (RestoreStage::Restoring, Err(error)) => {
            let steps = steps::with_step(
                steps::with_step(flow.steps, 0, StepStatus::Failed, error@),
                1,
                StepStatus::Skipped,
                Seq::empty(),
            );
            RestoreOutcome {
                flow: RestoreView { steps, stage: RestoreStage::Ended },
                actions: seq![
                    RestoreActionView::Report(failure(steps, error@)),
                    RestoreActionView::Finish,
                ],
            }
        },
        (RestoreStage::Restarting, Ok(_)) => RestoreOutcome {
            flow: RestoreView { stage: RestoreStage::Ended, ..flow },
            actions: Seq::empty(),
        },
        (RestoreStage::Restarting, Err(error)) => {
            let steps = steps::with_step(flow.steps, 1, StepStatus::Failed, error@);
            RestoreOutcome {
                flow: RestoreView { steps, stage: RestoreStage::Ended },
                actions: seq![RestoreActionView::Report(failure(steps, error@))],
            }
        },
        (RestoreStage::Ended, _) => RestoreOutcome { flow, actions: Seq::empty() },
    }
}

impl RestoreFlow {
    /// Begins the return. What is said first comes with it.
    pub fn begin() -> (r: (RestoreFlow, UpdateReport))
        ensures
            r.0@ == begun(),
            r.1@ == switching(begun().steps),
    {
        let mut steps = steps::flow_from(&["恢复随包", "切换"]);
        assert(steps::label_texts(["恢复随包", "切换"]@) =~= seq!["恢复随包"@, "切换"@]);
        steps::set_step(
            &mut steps,
            0,
            StepStatus::Active,
            text::join2("DSH ", runtime::BUNDLED_DSH_VERSION),
        );
        let flow = RestoreFlow { steps, stage: RestoreStage::Restoring };
        let report = flow.report();
        (flow, report)
    }

    /// What the return waits for.
    pub fn stage(&self) -> (r: RestoreStage)
        ensures
            r == self@.stage,
    {
        self.stage
    }

    fn report(&self) -> (r: UpdateReport)
        ensures
            r@ == switching(self@.steps),
    {
        steps::report(
            UpdatePhase::Switching,
            text::join3("正在恢复随包 DSH ", runtime::BUNDLED_DSH_VERSION, "。"),
            &None,
            &self.steps,
        )
    }

    /// Takes the answer to what was asked for last, and gives back what is to
    /// be done.
    pub fn step(&mut self, done: Result<(), String>) -> (r: Vec<RestoreAction>)
        ensures
            (RestoreOutcome { flow: final(self)@, actions: actions_view(r@) }) == next(
                old(self)@,
                done,
            ),
    {
        let mut actions: Vec<RestoreAction> = Vec::new();
        match (self.stage, done) {
            (RestoreStage::Restoring, Ok(_)) => {
                steps::set_step(
                    &mut self.steps,
                    0,
                    StepStatus::Done,
                    text::join2("DSH ", runtime::BUNDLED_DSH_VERSION),
                );
                steps::set_step(
                    &mut self.steps,
                    1,
                    StepStatus::Active,
                    "正在重启运行时".to_string(),
                );
                self.stage = RestoreStage::Restarting;
                actions.push(RestoreAction::Report(self.report()));
                actions.push(RestoreAction::Finish);
                actions.push(RestoreAction::Restart);
            },
            (RestoreStage::Restoring, Err(error)) => {
                steps::set_step(&mut self.steps, 0, StepStatus::Failed, error.clone());
                steps::set_step(&mut self.steps, 1, StepStatus::Skipped, String::new());
                self.stage = RestoreStage::Ended;
                actions.push(
                    RestoreAction::Report(
                        steps::report(UpdatePhase::Failed, error, &None, &self.steps),
                    ),
                );
                actions.push(RestoreAction::Finish);
            },
            (RestoreStage::Restarting, Ok(_)) => {
                self.stage = RestoreStage::Ended;
            },
            (RestoreStage::Restarting, Err(error)) => {
                steps::set_step(&mut self.steps, 1, StepStatus::Failed, error.clone());
                self.stage = RestoreStage::Ended;
                actions.push(
                    RestoreAction::Report(
                        steps::report(UpdatePhase::Failed, error, &None, &self.steps),
                    ),
                );
            },
            (RestoreStage::Ended, _) => {},
        }
        assert(actions_view(actions@) =~= next(old(self)@, done).actions);
        actions
    }
}

/// The runtime is restarted only once the bundled one has been restored; where
/// that fails nothing is restarted, and no step is left open.
pub proof fn restart_follows_the_restored_state(done: Result<(), String>)
    ensures
        next(begun(), done).actions.contains(RestoreActionView::Finish),
        next(begun(), done).actions.contains(RestoreActionView::Restart) <==> done is Ok,
        done is Err ==> forall|i: int|
            0 <= i < 2 ==> (#[trigger] next(begun(), done).flow.steps[i]).status
                != StepStatus::Pending && next(begun(), done).flow.steps[i].status
                != StepStatus::Active,
{
    let actions = next(begun(), done).actions;
    assert(actions[1] == RestoreActionView::Finish);
    if done is Ok {
        assert(actions[2] == RestoreActionView::Restart);
    }
}

/// A return begins with its two steps, of which the first runs.
pub proof fn a_return_begins_with_its_first_step()
    ensures
        begun().stage == RestoreStage::Restoring,
        begun().steps.len() == 2,
        begun().steps[0].label == "恢复随包"@,
        begun().steps[1].label == "切换"@,
        begun().steps[0].status == StepStatus::Active,
        begun().steps[0].detail == "DSH "@ + "0.1.0-rc.6"@,
        begun().steps[1].status == StepStatus::Pending,
        begun().steps[1].detail.len() == 0,
{
}

/// What is said of a return on its way and of one that failed.
pub proof fn a_return_says_what_it_does(steps: Seq<StepView>, error: Seq<char>)
    ensures
        switching(steps).phase == UpdatePhase::Switching,
        switching(steps).message == "正在恢复随包 DSH "@ + "0.1.0-rc.6"@ + "。"@,
        switching(steps).available_version is None,
        switching(steps).steps == steps,
        failure(steps, error).phase == UpdatePhase::Failed,
        failure(steps, error).message == error,
        failure(steps, error).available_version is None,
        failure(steps, error).steps == steps,
{
}

/// A return, answer by answer. Once the bundled runtime has been restored, the job
/// is given free and the runtime is restarted; where it could not be, the reason
/// is shown at the first step and nothing is restarted. A restart that could not
/// be asked for is shown at the second step.
pub proof fn a_return_takes_its_course(flow: RestoreView, error: String)
    requires
        flow.steps.len() == 2,
    ensures
        flow.stage == RestoreStage::Restoring ==> ({
            let good = next(flow, Ok(()));
            let bad = next(flow, Err(error));
            &&& good.flow.stage == RestoreStage::Restarting
            &&& good.actions.len() == 3
            &&& good.actions[1] == RestoreActionView::Finish
            &&& good.actions[2] == RestoreActionView::Restart
            &&& good.actions[0] matches RestoreActionView::Report(report)
            &&& report.phase == UpdatePhase::Switching
            &&& report.steps == good.flow.steps
            &&& report.steps[0].status == StepStatus::Done
            &&& report.steps[0].detail == "DSH "@ + "0.1.0-rc.6"@
            &&& report.steps[1].status == StepStatus::Active
            &&& report.steps[1].detail == "正在重启运行时"@
            &&& bad.flow.stage == RestoreStage::Ended
            &&& bad.actions.len() == 2
            &&& bad.actions[1] == RestoreActionView::Finish
            &&& bad.actions[0] matches RestoreActionView::Report(lost)
            &&& lost.phase == UpdatePhase::Failed
            &&& lost.message == error@
            &&& lost.steps == bad.flow.steps
            &&& lost.steps[0].status == StepStatus::Failed
            &&& lost.steps[0].detail == error@
            &&& lost.steps[1].status == StepStatus::Skipped
            &&& lost.steps[1].detail.len() == 0
        }),
        flow.stage == RestoreStage::Restarting ==> ({
            let good = next(flow, Ok(()));
            let bad = next(flow, Err(error));
            &&& good.flow == (RestoreView { stage: RestoreStage::Ended, ..flow })
            &&& good.actions.len() == 0
            &&& bad.flow.stage == RestoreStage::Ended
            &&& bad.actions.len() == 1
            &&& bad.actions[0] matches RestoreActionView::Report(lost)
            &&& lost.phase == UpdatePhase::Failed
            &&& lost.message == error@
            &&& lost.steps == bad.flow.steps
            &&& lost.steps[0] == flow.steps[0]
            &&& lost.steps[1].status == StepStatus::Failed
            &&& lost.steps[1].detail == error@
        }),
        flow.stage == RestoreStage::Ended ==> next(flow, Ok(())).actions.len() == 0 && next(
            flow,
            Err(error),
        ).actions.len() == 0 && next(flow, Ok(())).flow == flow && next(flow, Err(error)).flow
            == flow,
{
}

/// The user is asked before the bundled version is restored.
pub proof fn the_user_is_asked_for_the_return(r: Question)
    requires
        call_ensures(restore_question, (), r),
    ensures
        r.title@ == "恢复随包 DSH"@,
        r.message@ == "将恢复安装包内置的 DSH "@ + "0.1.0-rc.6"@
            + " 并重启运行时。进行中的会话会中断。"@,
{
}

/// A return begins with a word on what it does.
pub proof fn a_return_says_so_first(r: (RestoreFlow, UpdateReport))
    requires
        call_ensures(RestoreFlow::begin, (), r),
    ensures
        r.0@.stage == RestoreStage::Restoring,
        r.1.phase == UpdatePhase::Switching,
        r.1.message@ == "正在恢复随包 DSH "@ + "0.1.0-rc.6"@ + "。"@,
        r.1.available_version is None,
        r.1@.steps == r.0@.steps,
{
}

} // verus!
