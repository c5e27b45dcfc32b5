//! The installation of a release: npm puts it into a staging directory, it is
//! verified there, takes its place, becomes the active one, and the runtime is
//! restarted.
//!
//! `InstallFlow::step` takes what has happened and gives back what is to be
//! done. Whatever fails before the activation leaves the active version as it
//! is.

use vstd::prelude::*;
use vstd::string::*;

use crate::controller::ReleaseView;
use crate::controller::SelectedRelease;
use crate::npm;
use crate::steps;
use crate::steps::ReportView;
use crate::steps::StepStatus;
use crate::steps::StepView;
use crate::steps::UpdatePhase;
use crate::steps::UpdateReport;
use crate::steps::UpdateStep;
use crate::text;
use crate::versions;

verus! {

/// What the user is asked before something happens.
#[derive(Debug, PartialEq, Eq)]
pub struct Question {
    pub title: String,
    pub message: String,
}

/// What the user is asked before a release is installed.
pub fn install_question(selected: &SelectedRelease) -> (r: Question)
    ensures
        r.title@ == "安装 DSH 更新"@,
        r.message@ == "将从 npm 安装 "@ + npm::release_spec(selected@.version)
            + " 并重启运行时。进行中的会话会中断。"@,
{
    Question {
        title: "安装 DSH 更新".to_string(),
        message: text::join3(
            "将从 npm 安装 ",
            npm::install_spec(selected.version.as_str()).as_str(),
            " 并重启运行时。进行中的会话会中断。",
        ),
    }
}

/// What the installation waits for.
#[derive(Clone, Copy, Debug, PartialEq, Eq, Structural)]
pub enum InstallStage {
    /// The place of the data.
    Locating,
    /// An empty staging directory.
    Preparing,
    /// The end of npm.
    Installing,
    /// Whether the installed package is what it should be.
    Verifying,
    /// The package at its place.
    Placing,
    /// The new state, written.
    Activating,
    /// Whether the restart could be asked for.
    Restarting,
    /// Nothing: the installation has ended.
    Ended,
}

/// What has happened.
#[derive(Debug)]
pub enum InstallEvent {
    /// npm has said this.
    Progress(String),
    /// What was asked for has been done, or why it has not.
    Done(Result<(), String>),
}

/// What is to be done.
#[derive(Debug, PartialEq, Eq)]
pub enum InstallAction {
    /// Show this.
    Report(UpdateReport),
    /// Make an empty staging directory.
    Prepare,
    /// Have npm install the release there.
    Install,
    /// Verify what npm has installed.
    Verify,
    /// Move it to its place.
    Place,
    /// Make it the active runtime, and remove what is no longer needed.
    Activate,
    /// End the job.
    Finish,
    /// Restart the runtime.
    Restart,
}

/// What an `InstallAction` says.
#[verifier::ext_equal]
pub enum InstallActionView {
    Report(ReportView),
    Prepare,
    Install,
    Verify,
    Place,
    Activate,
    Finish,
    Restart,
}

impl View for InstallAction {
    type V = InstallActionView;

    open spec fn view(&self) -> InstallActionView {
        match self {
            InstallAction::Report(report) => InstallActionView::Report(report@),
            InstallAction::Prepare => InstallActionView::Prepare,
            InstallAction::Install => InstallActionView::Install,
            InstallAction::Verify => InstallActionView::Verify,
            InstallAction::Place => InstallActionView::Place,
            InstallAction::Activate => InstallActionView::Activate,
            InstallAction::Finish => InstallActionView::Finish,
            InstallAction::Restart => InstallActionView::Restart,
        }
    }
}

/// What a list of actions says.
pub open spec fn actions_view(actions: Seq<InstallAction>) -> Seq<InstallActionView> {
    actions.map_values(|action: InstallAction| action@)
}

/// An installation on its way.
#[derive(Debug)]
pub struct InstallFlow {
    selected: SelectedRelease,
    steps: Vec<UpdateStep>,
    stage: InstallStage,
}

/// What an `InstallFlow` knows.
#[verifier::ext_equal]
pub struct InstallView {
    pub selected: ReleaseView,
    pub steps: Seq<StepView>,
    pub stage: InstallStage,
}

impl View for InstallFlow {
    type V = InstallView;

    closed spec fn view(&self) -> InstallView {
        InstallView {
            selected: self.selected@,
            steps: steps::steps_view(self.steps@),
            stage: self.stage,
        }
    }
}

// ---------------------------------------------------------------------------
// The model
// ---------------------------------------------------------------------------
/// What is said on the way: the release stays on offer.
pub open spec fn saying(
    flow: InstallView,
    phase: UpdatePhase,
    message: Seq<char>,
) -> InstallActionView {
    InstallActionView::Report(
        ReportView {
            phase,
            message,
            available_version: Some(flow.selected.version),
            steps: flow.steps,
        },
    )
}

/// What is said while npm works.
pub open spec fn downloading(flow: InstallView) -> InstallActionView {
    saying(
        flow,
        UpdatePhase::Downloading,
        "正在从 npm 安装 DSH "@ + flow.selected.version + "。"@,
    )
}

/// An installation that has just begun.
pub open spec fn begun(selected: ReleaseView) -> InstallView {
    InstallView {
        selected,
        steps: steps::with_step(
            steps::pending_steps(seq!["安装"@, "校验"@, "写入"@, "切换"@]),
            0,
            StepStatus::Active,
            npm::release_spec(selected.version),
        ),
        stage: InstallStage::Locating,
    }
}

/// Where an installation stands after an event, and what is to be done.
#[verifier::ext_equal]
pub struct InstallOutcome {
    pub flow: InstallView,
    pub actions: Seq<InstallActionView>,
}

/// An installation with a new status and detail of one step.
pub open spec fn marked(
    flow: InstallView,
    index: int,
    status: StepStatus,
    detail: Seq<char>,
) -> InstallView {
    InstallView { steps: steps::with_step(flow.steps, index, status, detail), ..flow }
}

/// The steps after a failure.
pub open spec fn failed_steps(steps: Seq<StepView>, error: Seq<char>) -> Seq<StepView> {
    steps::all_settled(steps::with_step(steps, 3, StepStatus::Failed, error))
}

/// The installation fails; the release stays on offer.
pub open spec fn broken_off(flow: InstallView, error: Seq<char>) -> InstallOutcome {
    let after = InstallView {
        steps: failed_steps(flow.steps, error),
        stage: InstallStage::Ended,
        ..flow
    };
    InstallOutcome {
        flow: after,
        actions: seq![saying(after, UpdatePhase::Failed, error), InstallActionView::Finish],
    }
}

/// What follows once something has been done; `valid` says whether the version
/// of the release is one.
pub open spec fn advanced(flow: InstallView, valid: bool) -> InstallOutcome {
    let version = flow.selected.version;
    match flow.stage {
        InstallStage::Locating => if !valid {
            broken_off(flow, "DSH 版本号无效"@)
        } else {
            InstallOutcome {
                flow: InstallView { stage: InstallStage::Preparing, ..flow },
                actions: seq![InstallActionView::Prepare],
            }
        },
        InstallStage::Preparing => InstallOutcome {
            flow: InstallView { stage: InstallStage::Installing, ..flow },
            actions: seq![InstallActionView::Install],
        },
        InstallStage::Installing => {
            let after = InstallView {
                stage: InstallStage::Verifying,
                ..marked(
                    marked(flow, 0, StepStatus::Done, "npm install 完成"@),
                    1,
                    StepStatus::Active,
                    "正在校验官方入口"@,
                )
            };
            InstallOutcome {
                flow: after,
                actions: seq![
                    saying(after, UpdatePhase::Verifying, "正在校验 DSH 入口。"@),
                    InstallActionView::Verify,
                ],
            }
        },
        InstallStage::Verifying => {
            let after = InstallView {
                stage: InstallStage::Placing,
                ..marked(
                    marked(flow, 1, StepStatus::Done, "入口校验通过"@),
                    2,
                    StepStatus::Active,
                    "正在写入 DSH "@ + version,
                )
            };
            InstallOutcome {
                flow: after,
                actions: seq![
                    saying(after, UpdatePhase::Staging, "正在安装 DSH "@ + version + "。"@),
                    InstallActionView::Place,
                ],
            }
        },
        InstallStage::Placing => InstallOutcome {
            flow: InstallView { stage: InstallStage::Activating, ..flow },
            actions: seq![InstallActionView::Activate],
        },
        InstallStage::Activating => {
            let after = InstallView {
                stage: InstallStage::Restarting,
                ..marked(
                    marked(flow, 2, StepStatus::Done, "已写入 sidecar"@),
                    3,
                    StepStatus::Active,
                    "正在切换到 DSH "@ + version,
                )
            };
            InstallOutcome {
                flow: after,
                actions: seq![
                    saying(after, UpdatePhase::Switching, "正在切换到 DSH "@ + version + "。"@),
                    InstallActionView::Finish,
                    InstallActionView::Restart,
                ],
            }
        },
        InstallStage::Restarting => InstallOutcome {
            flow: InstallView { stage: InstallStage::Ended, ..flow },
            actions: Seq::empty(),
        },
        InstallStage::Ended => InstallOutcome { flow, actions: Seq::empty() },
    }
}

/// What follows once something could not be done.
pub open spec fn failed(flow: InstallView, error: Seq<char>) -> InstallOutcome {
    match flow.stage {
        InstallStage::Restarting => {
            let after = InstallView {
                steps: failed_steps(flow.steps, error),
                stage: InstallStage::Ended,
                ..flow
            };
            InstallOutcome {
                flow: after,
                actions: seq![
                    InstallActionView::Report(
                        ReportView {
                            phase: UpdatePhase::Failed,
                            message: error,
                            available_version: None,
                            steps: after.steps,
                        },
                    ),
                ],
            }
        },
        InstallStage::Ended => InstallOutcome { flow, actions: Seq::empty() },
        _ => broken_off(flow, error),
    }
}

/// What follows from an event.
pub open spec fn next(flow: InstallView, event: InstallEvent, valid: bool) -> InstallOutcome {
    match event {
        InstallEvent::Progress(line) => if flow.stage == InstallStage::Installing {
            let after = marked(flow, 0, StepStatus::Active, line@);
            InstallOutcome { flow: after, actions: seq![downloading(after)] }
        } else {
            InstallOutcome { flow, actions: Seq::empty() }
        },
        InstallEvent::Done(Ok(_)) => advanced(flow, valid),
        InstallEvent::Done(Err(error)) => failed(flow, error@),
    }
}

// ---------------------------------------------------------------------------
// The functions
// ---------------------------------------------------------------------------
impl InstallFlow {
    /// Begins an installation. What is said first comes with it.
    pub fn begin(selected: SelectedRelease) -> (r: (InstallFlow, UpdateReport))
        ensures
            r.0@ == begun(selected@),
            InstallActionView::Report(r.1@) == downloading(r.0@),
    {
        let mut steps = steps::flow_from(&["安装", "校验", "写入", "切换"]);
        assert(steps::label_texts(["安装", "校验", "写入", "切换"]@) =~= seq![
            "安装"@,
            "校验"@,
            "写入"@,
            "切换"@,
        ]);
        steps::set_step(
            &mut steps,
            0,
            StepStatus::Active,
            npm::install_spec(selected.version.as_str()),
        );
        let flow = InstallFlow { selected, steps, stage: InstallStage::Locating };
        let report = flow.report(
            UpdatePhase::Downloading,
            text::join3("正在从 npm 安装 DSH ", flow.selected.version.as_str(), "。"),
        );
        (flow, report)
    }

    /// What the installation waits for.
    pub fn stage(&self) -> (r: InstallStage)
        ensures
            r == self@.stage,
    {
        self.stage
    }

    fn report(&self, phase: UpdatePhase, message: String) -> (r: UpdateReport)
        ensures
            InstallActionView::Report(r@) == saying(self@, phase, message@),
    {
        let version = Some(self.selected.version.clone());
        steps::report(phase, message, &version, &self.steps)
    }

    fn mark(&mut self, index: usize, status: StepStatus, detail: String)
        ensures
            final(self)@ == marked(old(self)@, index as int, status, detail@),
    {
        steps::set_step(&mut self.steps, index, status, detail);
    }

    fn fail(&mut self, error: String) -> (r: Vec<InstallAction>)
        ensures
            (InstallOutcome { flow: final(self)@, actions: actions_view(r@) }) == failed(
                old(self)@,
                error@,
            ),
    {
        let mut actions: Vec<InstallAction> = Vec::new();
        if self.stage != InstallStage::Ended {
            steps::set_step(&mut self.steps, 3, StepStatus::Failed, error.clone());
            steps::fail_remaining(&mut self.steps);
            if self.stage == InstallStage::Restarting {
                actions.push(
                    InstallAction::Report(
                        steps::report(UpdatePhase::Failed, error, &None, &self.steps),
                    ),
                );
            } else {
                actions.push(InstallAction::Report(self.report(UpdatePhase::Failed, error)));
                actions.push(InstallAction::Finish);
            }
            self.stage = InstallStage::Ended;
        }
        assert(actions_view(actions@) =~= failed(old(self)@, error@).actions);
        actions
    }

    fn advance(&mut self, valid: bool) -> (r: Vec<InstallAction>)
        ensures
            (InstallOutcome { flow: final(self)@, actions: actions_view(r@) }) == advanced(
                old(self)@,
                valid,
            ),
    {
        let mut actions: Vec<InstallAction> = Vec::new();
        let version = self.selected.version.clone();
        match self.stage {
            InstallStage::Locating => {
                if !valid {
                    return self.fail("DSH 版本号无效".to_string());
                }
                self.stage = InstallStage::Preparing;
                actions.push(InstallAction::Prepare);
            },
            InstallStage::Preparing => {
                self.stage = InstallStage::Installing;
                actions.push(InstallAction::Install);
            },
            InstallStage::Installing => {
                self.mark(0, StepStatus::Done, "npm install 完成".to_string());
                self.mark(1, StepStatus::Active, "正在校验官方入口".to_string());
                self.stage = InstallStage::Verifying;
                actions.push(
                    InstallAction::Report(
                        self.report(UpdatePhase::Verifying, "正在校验 DSH 入口。".to_string()),
                    ),
                );
                actions.push(InstallAction::Verify);
            },
            InstallStage::Verifying => {
                self.mark(1, StepStatus::Done, "入口校验通过".to_string());
                self.mark(
                    2,
                    StepStatus::Active,
                    text::join2("正在写入 DSH ", version.as_str()),
                );
                self.stage = InstallStage::Placing;
                actions.push(
                    InstallAction::Report(
                        self.report(
                            UpdatePhase::Staging,
                            text::join3("正在安装 DSH ", version.as_str(), "。"),
                        ),
                    ),
                );
                actions.push(InstallAction::Place);
            },
            InstallStage::Placing => {
                self.stage = InstallStage::Activating;
                actions.push(InstallAction::Activate);
            },
            InstallStage::Activating => {
                self.mark(2, StepStatus::Done, "已写入 sidecar".to_string());
                self.mark(
                    3,
                    StepStatus::Active,
                    text::join2("正在切换到 DSH ", version.as_str()),
                );
                self.stage = InstallStage::Restarting;
                actions.push(
                    InstallAction::Report(
                        self.report(
                            UpdatePhase::Switching,
                            text::join3("正在切换到 DSH ", version.as_str(), "。"),
                        ),
                    ),
                );
                actions.push(InstallAction::Finish);
                actions.push(InstallAction::Restart);
            },
            InstallStage::Restarting => {
                self.stage = InstallStage::Ended;
            },
            InstallStage::Ended => {},
        }
        assert(actions_view(actions@) =~= advanced(old(self)@, valid).actions);
        actions
    }

    /// Takes what has happened and whether the version of the release is one,
    /// and gives back what is to be done.
    pub fn step_with(&mut self, event: InstallEvent, valid: bool) -> (r: Vec<InstallAction>)
        ensures
            (InstallOutcome { flow: final(self)@, actions: actions_view(r@) }) == next(
                old(self)@,
                event,
                valid,
            ),
    {
        match event {
            InstallEvent::Progress(line) => {
                let mut actions: Vec<InstallAction> = Vec::new();
                if self.stage == InstallStage::Installing {
                    self.mark(0, StepStatus::Active, line);
                    actions.push(
                        InstallAction::Report(
                            self.report(
                                UpdatePhase::Downloading,
                                text::join3(
                                    "正在从 npm 安装 DSH ",
                                    self.selected.version.as_str(),
                                    "。",
                                ),
                            ),
                        ),
                    );
                }
                assert(actions_view(actions@) =~= next(old(self)@, event, valid).actions);
                actions
            },
            InstallEvent::Done(Ok(_)) => self.advance(valid),
            InstallEvent::Done(Err(error)) => self.fail(error),
        }
    }

    /// Takes what has happened, and gives back what is to be done.
    pub fn step(&mut self, event: InstallEvent) -> (r: Vec<InstallAction>)
        ensures
            (InstallOutcome { flow: final(self)@, actions: actions_view(r@) }) == next(
                old(self)@,
                event,
                versions::semver_valid(old(self)@.selected.version),
            ),
    {
        let valid = versions::is_version(self.selected.version.as_str());
        self.step_with(event, valid)
    }
}

// ---------------------------------------------------------------------------
// Laws
// ---------------------------------------------------------------------------
/// How far an installation has come.
pub open spec fn progress(stage: InstallStage) -> int {
    match stage {
        InstallStage::Locating => 0,
        InstallStage::Preparing => 1,
        InstallStage::Installing => 2,
        InstallStage::Verifying => 3,
        InstallStage::Placing => 4,
        InstallStage::Activating => 5,
        InstallStage::Restarting => 6,
        InstallStage::Ended => 7,
    }
}

/// An installation goes through its stages one by one: nothing is placed that
/// has not been verified, nothing is activated that has not been placed, and
/// nothing is restarted before the activation.
pub proof fn stages_come_in_order(flow: InstallView, event: InstallEvent, valid: bool)
    ensures
        ({
            let outcome = next(flow, event, valid);
            let done = event matches InstallEvent::Done(Ok(_));
            &&& outcome.flow.stage == InstallStage::Ended || outcome.flow.stage == flow.stage
                || progress(outcome.flow.stage) == progress(flow.stage) + 1
            &&& outcome.actions.contains(InstallActionView::Install) ==> done && flow.stage
                == InstallStage::Preparing
            &&& outcome.actions.contains(InstallActionView::Place) ==> done && flow.stage
                == InstallStage::Verifying
            &&& outcome.actions.contains(InstallActionView::Activate) ==> done && flow.stage
                == InstallStage::Placing
            &&& outcome.actions.contains(InstallActionView::Restart) ==> done && flow.stage
                == InstallStage::Activating
        }),
{
}

/// A release whose version is none gets no further than the first stage.
pub proof fn no_installation_of_an_invalid_version(flow: InstallView, event: InstallEvent)
    requires
        flow.stage == InstallStage::Locating,
    ensures
        next(flow, event, false).flow.stage == InstallStage::Locating || next(
            flow,
            event,
            false,
        ).flow.stage == InstallStage::Ended,
{
}

/// Every installation comes to an end: each answer takes it on, and the job
/// is given free exactly when it fails before the restart or asks for it.
pub proof fn every_answer_advances_the_installation(
    flow: InstallView,
    event: InstallEvent,
    valid: bool,
)
    requires
        event is Done,
        flow.stage != InstallStage::Ended,
    ensures
        ({
            let outcome = next(flow, event, valid);
            &&& progress(outcome.flow.stage) > progress(flow.stage)
            &&& outcome.actions.contains(InstallActionView::Finish) <==> flow.stage
                != InstallStage::Restarting && progress(outcome.flow.stage) >= progress(
                InstallStage::Restarting,
            )
        }),
{
    let actions = next(flow, event, valid).actions;
    if flow.stage != InstallStage::Restarting && progress(next(flow, event, valid).flow.stage)
        >= progress(InstallStage::Restarting) {
        assert(actions[1] == InstallActionView::Finish);
    }
}

/// An installation has its four steps.
pub open spec fn well_formed(flow: InstallView) -> bool {
    flow.steps.len() == 4
}

/// An installation begins with its four steps, and every event keeps them.
pub proof fn installations_stay_well_formed(
    selected: ReleaseView,
    flow: InstallView,
    event: InstallEvent,
    valid: bool,
)
    ensures
        well_formed(begun(selected)),
        well_formed(flow) ==> well_formed(next(flow, event, valid).flow),
{
}

/// After a failure no step is left open, the last of the four steps has failed
/// with the reason, and before the restart the release stays on offer.
pub proof fn failure_is_reported(flow: InstallView, error: Seq<char>)
    requires
        well_formed(flow),
        flow.stage != InstallStage::Ended,
    ensures
        failed(flow, error).flow.stage == InstallStage::Ended,
        failed(flow, error).actions.len() > 0,
        failed(flow, error).actions[0] matches InstallActionView::Report(report) && {
            &&& report.phase == UpdatePhase::Failed
            &&& report.message == error
            &&& report.available_version == (if flow.stage == InstallStage::Restarting {
                None
            } else {
                Some(flow.selected.version)
            })
            &&& forall|i: int|
                0 <= i < report.steps.len() ==> (#[trigger] report.steps[i]).status
                    != StepStatus::Pending && report.steps[i].status != StepStatus::Active
            &&& report.steps.len() == 4
            &&& report.steps[3].status == StepStatus::Failed
            &&& report.steps[3].detail == error
        },
{
}

/// An installation, from its first answer to the restart, where all goes well:
/// the release is prepared for, installed, verified, put in its place, activated,
/// and the runtime is restarted.
pub proof fn an_installation_takes_its_course(selected: ReleaseView)
    ensures
        ({
            let done = InstallEvent::Done(Ok(()));
            let first = next(begun(selected), done, true);
            let second = next(first.flow, done, true);
            let third = next(second.flow, done, true);
            let fourth = next(third.flow, done, true);
            let fifth = next(fourth.flow, done, true);
            let sixth = next(fifth.flow, done, true);
            let last = next(sixth.flow, done, true);
            &&& first.actions == seq![InstallActionView::Prepare]
            &&& second.actions == seq![InstallActionView::Install]
            &&& third.actions.len() == 2 && third.actions[1] == InstallActionView::Verify
            &&& fourth.actions.len() == 2 && fourth.actions[1] == InstallActionView::Place
            &&& fifth.actions == seq![InstallActionView::Activate]
            &&& sixth.actions.len() == 3 && sixth.actions[1] == InstallActionView::Finish
                && sixth.actions[2] == InstallActionView::Restart
            &&& last.actions.len() == 0 && last.flow.stage == InstallStage::Ended
            &&& last.flow.selected == selected
        }),
{
}

/// An installation begins with its four steps, of which the first runs and names
/// the package.
pub proof fn an_installation_begins_with_its_first_step(selected: ReleaseView)
    ensures
        ({
            let flow = begun(selected);
            &&& flow.selected == selected
            &&& flow.stage == InstallStage::Locating
            &&& flow.steps.len() == 4
            &&& flow.steps[0].label == "安装"@
            &&& flow.steps[1].label == "校验"@
            &&& flow.steps[2].label == "写入"@
            &&& flow.steps[3].label == "切换"@
            &&& flow.steps[0].status == StepStatus::Active
            &&& flow.steps[0].detail == "@deepseek-ai/dsh@"@ + selected.version
            &&& forall|i: int|
                1 <= i < 4 ==> (#[trigger] flow.steps[i]).status == StepStatus::Pending
                    && flow.steps[i].detail.len() == 0
            &&& downloading(flow) matches InstallActionView::Report(report)
            &&& report.phase == UpdatePhase::Downloading
            &&& report.message == "正在从 npm 安装 DSH "@ + selected.version + "。"@
            &&& report.available_version == Some(selected.version)
            &&& report.steps == flow.steps
        }),
{
    npm::the_official_package_is_installed(selected.version);
}

/// What is said once npm has ended: the first step is done, and what was installed
/// is being verified.
pub proof fn a_verification_is_said(flow: InstallView, valid: bool)
    requires
        flow.stage == InstallStage::Installing,
        flow.steps.len() == 4,
    ensures
        ({
            let outcome = next(flow, InstallEvent::Done(Ok(())), valid);
            &&& outcome.actions.len() == 2
            &&& outcome.actions[1] == InstallActionView::Verify
            &&& outcome.actions[0] matches InstallActionView::Report(report)
            &&& report.phase == UpdatePhase::Verifying
            &&& report.message == "正在校验 DSH 入口。"@
            &&& report.available_version == Some(flow.selected.version)
            &&& report.steps == outcome.flow.steps
            &&& report.steps.len() == 4
            &&& report.steps[0].status == StepStatus::Done
            &&& report.steps[0].detail == "npm install 完成"@
            &&& report.steps[1].status == StepStatus::Active
            &&& report.steps[1].detail == "正在校验官方入口"@
            &&& report.steps[2] == flow.steps[2]
            &&& report.steps[3] == flow.steps[3]
        }),
{
}

/// What is said once an installation has been verified: the second step is done,
/// and the release is being put in its place.
pub proof fn a_placing_is_said(flow: InstallView, valid: bool)
    requires
        flow.stage == InstallStage::Verifying,
        flow.steps.len() == 4,
    ensures
        ({
            let outcome = next(flow, InstallEvent::Done(Ok(())), valid);
            &&& outcome.actions.len() == 2
            &&& outcome.actions[1] == InstallActionView::Place
            &&& outcome.actions[0] matches InstallActionView::Report(report)
            &&& report.phase == UpdatePhase::Staging
            &&& report.message == "正在安装 DSH "@ + flow.selected.version + "。"@
            &&& report.available_version == Some(flow.selected.version)
            &&& report.steps == outcome.flow.steps
            &&& report.steps.len() == 4
            &&& report.steps[0] == flow.steps[0]
            &&& report.steps[1].status == StepStatus::Done
            &&& report.steps[1].detail == "入口校验通过"@
            &&& report.steps[2].status == StepStatus::Active
            &&& report.steps[2].detail == "正在写入 DSH "@ + flow.selected.version
            &&& report.steps[3] == flow.steps[3]
        }),
{
}

/// What is said once a release has been activated: the third step is done, and the
/// runtime is being switched to the release.
pub proof fn a_switch_is_said(flow: InstallView, valid: bool)
    requires
        flow.stage == InstallStage::Activating,
        flow.steps.len() == 4,
    ensures
        ({
            let outcome = next(flow, InstallEvent::Done(Ok(())), valid);
            &&& outcome.actions.len() == 3
            &&& outcome.actions[1] == InstallActionView::Finish
            &&& outcome.actions[2] == InstallActionView::Restart
            &&& outcome.actions[0] matches InstallActionView::Report(report)
            &&& report.phase == UpdatePhase::Switching
            &&& report.message == "正在切换到 DSH "@ + flow.selected.version + "。"@
            &&& report.available_version == Some(flow.selected.version)
            &&& report.steps == outcome.flow.steps
            &&& report.steps.len() == 4
            &&& report.steps[0] == flow.steps[0]
            &&& report.steps[1] == flow.steps[1]
            &&& report.steps[2].status == StepStatus::Done
            &&& report.steps[2].detail == "已写入 sidecar"@
            &&& report.steps[3].status == StepStatus::Active
            &&& report.steps[3].detail == "正在切换到 DSH "@ + flow.selected.version
        }),
{
}

/// What npm says while it works is shown at the first step, as it is, and changes
/// nothing else; at any other stage it changes nothing at all.
pub proof fn what_npm_says_is_shown(flow: InstallView, line: String, valid: bool)
    ensures
        flow.stage != InstallStage::Installing ==> next(flow, InstallEvent::Progress(line), valid)
            == (InstallOutcome { flow, actions: Seq::empty() }),
        flow.stage == InstallStage::Installing && flow.steps.len() == 4 ==> ({
            let outcome = next(flow, InstallEvent::Progress(line), valid);
            &&& outcome.flow.stage == InstallStage::Installing
            &&& outcome.flow.selected == flow.selected
            &&& outcome.actions.len() == 1
            &&& outcome.actions[0] matches InstallActionView::Report(report)
            &&& report.phase == UpdatePhase::Downloading
            &&& report.message == "正在从 npm 安装 DSH "@ + flow.selected.version + "。"@
            &&& report.available_version == Some(flow.selected.version)
            &&& report.steps == outcome.flow.steps
            &&& report.steps[0].status == StepStatus::Active
            &&& report.steps[0].label == flow.steps[0].label
            &&& report.steps[0].detail == line@
            &&& forall|i: int| 1 <= i < 4 ==> #[trigger] report.steps[i] == flow.steps[i]
        }),
{
}

/// An installation fails with its reason, at whatever stage. Before the restart
/// the release stays on offer and the next job can begin. A version that is none
/// is such a failure.
pub proof fn a_failed_installation_says_why(flow: InstallView, error: String, valid: bool)
    requires
        flow.stage != InstallStage::Ended,
        flow.steps.len() == 4,
    ensures
        ({
            let outcome = next(flow, InstallEvent::Done(Err(error)), valid);
            let early = flow.stage != InstallStage::Restarting;
            &&& outcome.flow.stage == InstallStage::Ended
            &&& outcome.flow.selected == flow.selected
            &&& outcome.actions.len() == (if early {
                2int
            } else {
                1int
            })
            &&& early ==> outcome.actions[1] == InstallActionView::Finish
            &&& outcome.actions[0] matches InstallActionView::Report(report)
            &&& report.phase == UpdatePhase::Failed
            &&& report.message == error@
            &&& report.available_version == (if early {
                Some(flow.selected.version)
            } else {
                None
            })
            &&& report.steps[3].detail == error@
            &&& report.steps[3].status == StepStatus::Failed
            &&& forall|i: int|
                0 <= i < 3 ==> (#[trigger] report.steps[i]).label == flow.steps[i].label
                    && report.steps[i].detail == flow.steps[i].detail && (flow.steps[i].status
                    == StepStatus::Done ==> report.steps[i].status == StepStatus::Done) && (
                flow.steps[i].status == StepStatus::Active ==> report.steps[i].status
                    == StepStatus::Failed) && (flow.steps[i].status == StepStatus::Pending
                    ==> report.steps[i].status == StepStatus::Skipped)
        }),
        flow.stage == InstallStage::Locating ==> ({
            let outcome = next(flow, InstallEvent::Done(Ok(())), false);
            &&& outcome.flow.stage == InstallStage::Ended
            &&& outcome.actions.len() == 2
            &&& outcome.actions[1] == InstallActionView::Finish
            &&& outcome.actions[0] matches InstallActionView::Report(report)
            &&& report.phase == UpdatePhase::Failed
            &&& report.message == "DSH 版本号无效"@
        }),
{
}

/// An installation that has ended does nothing more.
pub proof fn an_ended_installation_is_over(flow: InstallView, event: InstallEvent, valid: bool)
    requires
        flow.stage == InstallStage::Ended,
    ensures
        next(flow, event, valid) == (InstallOutcome { flow, actions: Seq::empty() }),
{
}

/// The user is asked before the release that is on offer is installed.
pub proof fn the_user_is_asked_for_the_release(selected: &SelectedRelease, r: Question)
    requires
        call_ensures(install_question, (selected,), r),
    ensures
        r.title@ == "安装 DSH 更新"@,
        r.message@ == "将从 npm 安装 "@ + ("@deepseek-ai/dsh@"@ + selected.version@)
            + " 并重启运行时。进行中的会话会中断。"@,
{
    npm::the_official_package_is_installed(selected.version@);
}

/// An installation begins with a word on what it does.
pub proof fn an_installation_says_what_it_does(
    selected: SelectedRelease,
    r: (InstallFlow, UpdateReport),
)
    requires
        call_ensures(InstallFlow::begin, (selected,), r),
    ensures
        r.0@.selected.version == selected.version@,
        r.0@.selected.registry == selected.registry@,
        r.0@.stage == InstallStage::Locating,
        r.1.phase == UpdatePhase::Downloading,
        r.1.message@ == "正在从 npm 安装 DSH "@ + selected.version@ + "。"@,
        text::text_opt(r.1.available_version) == Some(selected.version@),
        r.1@.steps == r.0@.steps,
{
}

/// However an installation is stepped: a release whose version is none is refused
/// at once, and one that is valid is prepared for.
pub proof fn a_step_prepares_valid_versions_alone()
    ensures
        forall|flow: &mut InstallFlow, r: Vec<InstallAction>|
            #[trigger] call_ensures(InstallFlow::step, (flow, InstallEvent::Done(Ok(()))), r)
                && (*flow)@.stage == InstallStage::Locating ==> {
                &&& versions::semver_valid((*flow)@.selected.version) ==> r@.len() == 1 && r@[0]
                    is Prepare
                &&& !versions::semver_valid((*flow)@.selected.version) ==> final(flow)@.stage
                    == InstallStage::Ended && forall|i: int|
                    0 <= i < r@.len() ==> !((#[trigger] r@[i]) is Prepare)
            },
{
    assert forall|flow: &mut InstallFlow, r: Vec<InstallAction>|
        #[trigger] call_ensures(InstallFlow::step, (flow, InstallEvent::Done(Ok(()))), r)
            && (*flow)@.stage == InstallStage::Locating implies {
            &&& versions::semver_valid((*flow)@.selected.version) ==> r@.len() == 1 && r@[0]
                is Prepare
            &&& !versions::semver_valid((*flow)@.selected.version) ==> final(flow)@.stage
                == InstallStage::Ended && forall|i: int|
                0 <= i < r@.len() ==> !((#[trigger] r@[i]) is Prepare)
        } by {
        let valid = versions::semver_valid((*flow)@.selected.version);
        let actions = next((*flow)@, InstallEvent::Done(Ok(())), valid).actions;
        assert(actions == actions_view(r@));
        assert(actions.len() == r@.len());
        assert forall|i: int| 0 <= i < r@.len() implies actions[i] == (#[trigger] r@[i])@ by {}
        if valid {
            assert(actions[0] == r@[0]@);
        }
    }
}

} // verus!
