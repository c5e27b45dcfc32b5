//! The check for a new version: one registry after the other is asked for the
//! latest one, until one of them names it.
//!
//! `CheckFlow::step` takes what has happened and gives back what is to be
//! done. Where another answer is needed, the last thing to be done is the
//! question.

use vstd::prelude::*;
use vstd::string::*;

use crate::controller;
use crate::controller::ReleaseView;
use crate::controller::SelectedRelease;
use crate::npm;
use crate::npm::CheckResult;
use crate::npm::LatestView;
use crate::npm::NpmLatest;
use crate::npm::NpmVersionDocument;
use crate::npm::UpdateCheck;
use crate::runtime;
use crate::runtime::SnapshotView;
use crate::shell;
use crate::steps;
use crate::steps::ReportView;
use crate::steps::StepStatus;
use crate::steps::StepView;
use crate::steps::UpdatePhase;
use crate::steps::UpdateReport;
use crate::steps::UpdateStep;
use crate::text;
use crate::versions;

verus! {

/// What the check waits for.
#[derive(Clone, Copy, Debug, PartialEq, Eq, Structural)]
pub enum CheckStage {
    /// The version in use.
    Locating,
    /// The answer of a registry.
    Fetching,
    /// Nothing: the check has ended.
    Ended,
}

/// What came of asking a registry.
#[derive(Debug)]
pub enum SourceReply {
    /// No answer, with the reason.
    Failed(String),
    /// An answer that makes no sense.
    Unreadable,
    /// An answer.
    Document(NpmVersionDocument),
}

/// What has happened.
#[derive(Debug)]
pub enum CheckEvent {
    /// The version in use is known, or why it is not.
    Located(Result<String, String>),
    /// The registry that was asked has answered.
    Fetched(SourceReply),
}

/// What is to be done.
#[derive(Debug, PartialEq, Eq)]
pub enum CheckAction {
    /// Show this.
    Report(UpdateReport),
    /// Ask the registry at this address.
    Fetch(String),
    /// Put this release on offer, or take the offer back.
    Offer(Option<SelectedRelease>),
    /// End the job.
    Finish,
}

/// What a `CheckAction` says.
#[verifier::ext_equal]
pub enum CheckActionView {
    Report(ReportView),
    Fetch(Seq<char>),
    Offer(Option<ReleaseView>),
    Finish,
}

impl View for CheckAction {
    type V = CheckActionView;

    open spec fn view(&self) -> CheckActionView {
        match self {
            CheckAction::Report(report) => CheckActionView::Report(report@),
            CheckAction::Fetch(url) => CheckActionView::Fetch(url@),
            CheckAction::Offer(release) => CheckActionView::Offer(
                controller::release_opt(*release),
            ),
            CheckAction::Finish => CheckActionView::Finish,
        }
    }
}

/// What a list of actions says.
pub open spec fn actions_view(actions: Seq<CheckAction>) -> Seq<CheckActionView> {
    actions.map_values(|action: CheckAction| action@)
}

/// A check on its way.
#[derive(Debug)]
pub struct CheckFlow {
    steps: Vec<UpdateStep>,
    urls: Vec<String>,
    asked: usize,
    current: String,
    stage: CheckStage,
}

/// What a `CheckFlow` knows.
#[verifier::ext_equal]
pub struct CheckView {
    pub steps: Seq<StepView>,
    /// The addresses that are asked.
    pub urls: Seq<Seq<char>>,
    /// Which of them is asked now.
    pub asked: int,
    /// The version in use.
    pub current: Seq<char>,
    pub stage: CheckStage,
}

impl View for CheckFlow {
    type V = CheckView;

    closed spec fn view(&self) -> CheckView {
        CheckView {
            steps: steps::steps_view(self.steps@),
            urls: text::texts(self.urls@),
            asked: self.asked as int,
            current: self.current@,
            stage: self.stage,
        }
    }
}

/// The version in use: the one that runs, or the one that is active where
/// none runs.
pub fn version_in_use(running: String, active: String) -> (r: String)
    ensures
        r@ == (if running@.len() == 0 {
            active@
        } else {
            running@
        }),
{
    if running.as_str().is_empty() {
        active
    } else {
        running
    }
}

// ---------------------------------------------------------------------------
// The model
// ---------------------------------------------------------------------------
/// What is said while the registries are asked.
pub open spec fn checking(steps: Seq<StepView>) -> ReportView {
    ReportView {
        phase: UpdatePhase::Checking,
        message: "正在检查 npm latest。"@,
        available_version: None,
        steps,
    }
}

/// The steps of a check that has just begun.
pub open spec fn first_steps() -> Seq<StepView> {
    steps::with_step(
        steps::pending_steps(seq!["连接 npm"@, "读取 latest"@, "对比"@, "结果"@]),
        0,
        StepStatus::Active,
        "正在连接 npm registry"@,
    )
}

/// A check that has just begun.
pub open spec fn begun(urls: Seq<Seq<char>>) -> CheckView {
    CheckView {
        steps: first_steps(),
        urls,
        asked: 0,
        current: Seq::empty(),
        stage: CheckStage::Locating,
    }
}

/// Where a check stands after an event, and what is to be done.
#[verifier::ext_equal]
pub struct CheckOutcome {
    pub flow: CheckView,
    pub actions: Seq<CheckActionView>,
}

/// The check ends without an answer.
pub open spec fn broken_off(flow: CheckView, error: Seq<char>) -> CheckOutcome {
    let steps = steps::all_settled(steps::with_step(flow.steps, 3, StepStatus::Failed, error));
    CheckOutcome {
        flow: CheckView { steps, stage: CheckStage::Ended, ..flow },
        actions: seq![
            CheckActionView::Report(
                ReportView {
                    phase: UpdatePhase::Failed,
                    message: error,
                    available_version: None,
                    steps,
                },
            ),
            CheckActionView::Finish,
        ],
    }
}

/// The next registry is asked; where none is left, the check ends with the
/// last error.
pub open spec fn asking(flow: CheckView, last_error: Seq<char>) -> CheckOutcome {
    if flow.asked < flow.urls.len() {
        let url = flow.urls[flow.asked];
        let steps = steps::with_step(
            flow.steps,
            0,
            StepStatus::Active,
            "正在连接 "@ + npm::label_of(url),
        );
        CheckOutcome {
            flow: CheckView { steps, stage: CheckStage::Fetching, ..flow },
            actions: seq![CheckActionView::Report(checking(steps)), CheckActionView::Fetch(url)],
        }
    } else {
        broken_off(flow, last_error)
    }
}

/// The registry that was asked is of no help.
pub open spec fn source_failed(flow: CheckView, error: Seq<char>) -> CheckOutcome {
    let steps = steps::with_step(flow.steps, 0, StepStatus::Active, error);
    let rest = asking(CheckView { steps, asked: flow.asked + 1, ..flow }, error);
    CheckOutcome {
        flow: rest.flow,
        actions: seq![CheckActionView::Report(checking(steps))] + rest.actions,
    }
}

/// How a check ends: what is on offer, and what is said.
#[verifier::ext_equal]
pub struct EndingView {
    pub offer: Option<ReleaseView>,
    pub report: ReportView,
}

pub open spec fn ending(steps: Seq<StepView>, check: CheckResult, latest: LatestView) -> EndingView {
    match check {
        CheckResult::Latest => {
            let message = "当前已是 npm latest（DSH "@ + latest.version + "）。"@;
            EndingView {
                offer: None,
                report: ReportView {
                    phase: UpdatePhase::Idle,
                    message,
                    available_version: None,
                    steps: steps::with_step(steps, 3, StepStatus::Done, message),
                },
            }
        },
        CheckResult::Available(release) => EndingView {
            offer: Some(release),
            report: ReportView {
                phase: UpdatePhase::Available,
                message: "发现 npm latest DSH "@ + release.version + "（来自 "@ + latest.source
                    + "）。可在菜单中安装并重启，进行中的会话会中断。"@,
                available_version: Some(release.version),
                steps: steps::with_step(
                    steps,
                    3,
                    StepStatus::Done,
                    "可安装 "@ + release.version,
                ),
            },
        },
        CheckResult::NeedsDesktop(message) => EndingView {
            offer: None,
            report: ReportView {
                phase: UpdatePhase::Idle,
                message,
                available_version: None,
                steps: steps::with_step(steps, 3, StepStatus::Failed, message),
            },
        },
    }
}

/// The latest version, as the registry that was asked names it.
pub open spec fn latest_from(
    url: Seq<char>,
    version: Seq<char>,
    node: Option<Seq<char>>,
) -> LatestView {
    LatestView { version, registry: npm::origin_of(url), node, source: npm::label_of(url) }
}

/// The steps once the latest version is known and before it is compared.
pub open spec fn named(steps: Seq<StepView>, latest: LatestView, current: Seq<char>) -> Seq<
    StepView,
> {
    steps::with_step(
        steps::with_step(
            steps::with_step(steps, 0, StepStatus::Done, "已连接 "@ + latest.source),
            1,
            StepStatus::Done,
            "latest "@ + latest.version,
        ),
        2,
        StepStatus::Active,
        "当前 DSH "@ + current,
    )
}

/// The registry has named the latest version.
pub open spec fn found(flow: CheckView, latest: LatestView, check: CheckResult) -> CheckOutcome {
    let noted = steps::with_step(
        flow.steps,
        0,
        StepStatus::Active,
        latest.source + " 已获取 "@ + latest.version,
    );
    let compared = named(noted, latest, flow.current);
    let ready = steps::with_step(compared, 2, StepStatus::Done, "当前 DSH "@ + flow.current);
    let end = ending(ready, check, latest);
    CheckOutcome {
        flow: CheckView { steps: end.report.steps, stage: CheckStage::Ended, ..flow },
        actions: seq![
            CheckActionView::Report(checking(noted)),
            CheckActionView::Report(
                ReportView {
                    phase: UpdatePhase::Checking,
                    message: "npm latest 为 DSH "@ + latest.version + "。"@,
                    available_version: None,
                    steps: compared,
                },
            ),
            CheckActionView::Offer(end.offer),
            CheckActionView::Report(end.report),
            CheckActionView::Finish,
        ],
    }
}

/// What follows from the answer of the registry that was asked.
pub open spec fn answered(flow: CheckView, reply: SourceReply) -> CheckOutcome {
    let url = flow.urls[flow.asked];
    let name = npm::label_of(url);
    match reply {
        SourceReply::Failed(error) => source_failed(
            flow,
            name + " "@ + npm::fetch_failure(error@),
        ),
        SourceReply::Unreadable => source_failed(flow, name + " 内容无法解析"@),
        SourceReply::Document(document) => if document.version@.len() == 0 {
            source_failed(flow, name + " 未返回版本号"@)
        } else {
            let latest = latest_from(
                url,
                document.version@,
                text::text_opt(document.engines.node),
            );
            found(
                flow,
                latest,
                npm::selected(latest, flow.current, runtime::BUNDLED_NODE_VERSION@),
            )
        },
    }
}

/// What follows from an event.
pub open spec fn next(flow: CheckView, event: CheckEvent) -> CheckOutcome {
    match (flow.stage, event) {
        (CheckStage::Locating, CheckEvent::Located(Ok(current))) => asking(
            CheckView { current: current@, ..flow },
            "无法获取 npm latest。"@,
        ),
        (CheckStage::Locating, CheckEvent::Located(Err(error))) => broken_off(flow, error@),
        (CheckStage::Fetching, CheckEvent::Fetched(reply)) => if 0 <= flow.asked
            < flow.urls.len() {
            answered(flow, reply)
        } else {
            CheckOutcome { flow, actions: Seq::empty() }
        },
        _ => CheckOutcome { flow, actions: Seq::empty() },
    }
}

// ---------------------------------------------------------------------------
// The functions
// ---------------------------------------------------------------------------
/// How a check ends: what is on offer, and what is said.
#[derive(Debug, PartialEq, Eq)]
pub struct CheckEnding {
    pub offer: Option<SelectedRelease>,
    pub report: UpdateReport,
}

impl View for CheckEnding {
    type V = EndingView;

    open spec fn view(&self) -> EndingView {
        EndingView { offer: controller::release_opt(self.offer), report: self.report@ }
    }
}

/// How a check ends that came to this.
pub fn conclude(steps: &mut Vec<UpdateStep>, check: UpdateCheck, latest: &NpmLatest) -> (r:
    CheckEnding)
    ensures
        r@ == ending(steps::steps_view(old(steps)@), check@, latest@),
        steps::steps_view(final(steps)@) == r@.report.steps,
{
    match check {
        UpdateCheck::Latest => {
            let message = text::join3(
                "当前已是 npm latest（DSH ",
                latest.version.as_str(),
                "）。",
            );
            steps::set_step(steps, 3, StepStatus::Done, message.clone());
            CheckEnding {
                offer: None,
                report: steps::report(UpdatePhase::Idle, message, &None, steps),
            }
        },
        UpdateCheck::Available(selected) => {
            let mut message = text::join3(
                "发现 npm latest DSH ",
                selected.version.as_str(),
                "（来自 ",
            );
            message.append(latest.source.as_str());
            message.append("）。可在菜单中安装并重启，进行中的会话会中断。");
            let version = Some(selected.version.clone());
            steps::set_step(
                steps,
                3,
                StepStatus::Done,
                text::join2("可安装 ", selected.version.as_str()),
            );
            CheckEnding {
                offer: Some(selected),
                report: steps::report(UpdatePhase::Available, message, &version, steps),
            }
        },
        UpdateCheck::NeedsDesktop(message) => {
            steps::set_step(steps, 3, StepStatus::Failed, message.clone());
            CheckEnding {
                offer: None,
                report: steps::report(UpdatePhase::Idle, message, &None, steps),
            }
        },
    }
}

impl CheckFlow {
    /// Begins a check; `registry` is the one registry that was asked for,
    /// where one was. What is said first comes with it.
    pub fn begin(registry: Option<&str>) -> (r: (CheckFlow, UpdateReport))
        ensures
            r.0@ == begun(npm::latest_urls(text::str_opt(registry))),
            r.1@ == checking(first_steps()),
    {
        let mut steps = steps::flow_from(&["连接 npm", "读取 latest", "对比", "结果"]);
        assert(steps::label_texts(["连接 npm", "读取 latest", "对比", "结果"]@) =~= seq![
            "连接 npm"@,
            "读取 latest"@,
            "对比"@,
            "结果"@,
        ]);
        steps::set_step(
            &mut steps,
            0,
            StepStatus::Active,
            "正在连接 npm registry".to_string(),
        );
        let report = steps::report(
            UpdatePhase::Checking,
            "正在检查 npm latest。".to_string(),
            &None,
            &steps,
        );
        let flow = CheckFlow {
            steps,
            urls: npm::npm_latest_urls(registry),
            asked: 0,
            current: String::new(),
            stage: CheckStage::Locating,
        };
        (flow, report)
    }

    /// What the check waits for.
    pub fn stage(&self) -> (r: CheckStage)
        ensures
            r == self@.stage,
    {
        self.stage
    }

    fn note(&mut self, note: String) -> (r: CheckAction)
        ensures
            final(self)@ == (CheckView {
                steps: steps::with_step(old(self)@.steps, 0, StepStatus::Active, note@),
                ..old(self)@
            }),
            r@ == CheckActionView::Report(checking(final(self)@.steps)),
    {
        steps::set_step(&mut self.steps, 0, StepStatus::Active, note);
        CheckAction::Report(
            steps::report(
                UpdatePhase::Checking,
                "正在检查 npm latest。".to_string(),
                &None,
                &self.steps,
            ),
        )
    }

    fn break_off(&mut self, error: String) -> (r: Vec<CheckAction>)
        ensures
            (CheckOutcome { flow: final(self)@, actions: actions_view(r@) }) == broken_off(
                old(self)@,
                error@,
            ),
    {
        steps::set_step(&mut self.steps, 3, StepStatus::Failed, error.clone());
        steps::fail_remaining(&mut self.steps);
        self.stage = CheckStage::Ended;
        let mut actions: Vec<CheckAction> = Vec::new();
        actions.push(
            CheckAction::Report(steps::report(UpdatePhase::Failed, error, &None, &self.steps)),
        );
        actions.push(CheckAction::Finish);
        assert(actions_view(actions@) =~= broken_off(old(self)@, error@).actions);
        actions
    }

    fn ask(&mut self, last_error: String) -> (r: Vec<CheckAction>)
        ensures
            (CheckOutcome { flow: final(self)@, actions: actions_view(r@) }) == asking(
                old(self)@,
                last_error@,
            ),
    {
        if self.asked >= self.urls.len() {
            return self.break_off(last_error);
        }
        let url = self.urls[self.asked].clone();
        assert(url@ == self@.urls[self@.asked]);
        let report = self.note(text::join2("正在连接 ", npm::source_label(url.as_str())));
        self.stage = CheckStage::Fetching;
        let mut actions: Vec<CheckAction> = Vec::new();
        actions.push(report);
        actions.push(CheckAction::Fetch(url));
        assert(actions_view(actions@) =~= asking(old(self)@, last_error@).actions);
        actions
    }

    fn give_up_source(&mut self, error: String) -> (r: Vec<CheckAction>)
        requires
            old(self)@.asked < old(self)@.urls.len(),
        ensures
            (CheckOutcome { flow: final(self)@, actions: actions_view(r@) }) == source_failed(
                old(self)@,
                error@,
            ),
    {
        let report = self.note(error.clone());
        let count = self.urls.len();
        assert(self.asked < count);
        self.asked += 1;
        let mut rest = self.ask(error);
        let mut actions: Vec<CheckAction> = Vec::new();
        actions.push(report);
        let ghost tail = actions_view(rest@);
        actions.append(&mut rest);
        assert(actions_view(actions@) =~= seq![report@] + tail);
        actions
    }

    fn settle(&mut self, latest: NpmLatest, check: UpdateCheck) -> (r: Vec<CheckAction>)
        ensures
            (CheckOutcome { flow: final(self)@, actions: actions_view(r@) }) == found(
                old(self)@,
                latest@,
                check@,
            ),
    {
        let noted = self.note(
            text::join3(latest.source.as_str(), " 已获取 ", latest.version.as_str()),
        );
        steps::set_step(
            &mut self.steps,
            0,
            StepStatus::Done,
            text::join2("已连接 ", latest.source.as_str()),
        );
        steps::set_step(
            &mut self.steps,
            1,
            StepStatus::Done,
            text::join2("latest ", latest.version.as_str()),
        );
        let comparison = text::join2("当前 DSH ", self.current.as_str());
        steps::set_step(&mut self.steps, 2, StepStatus::Active, comparison.clone());
        let compared = steps::report(
            UpdatePhase::Checking,
            text::join3("npm latest 为 DSH ", latest.version.as_str(), "。"),
            &None,
            &self.steps,
        );
        steps::set_step(&mut self.steps, 2, StepStatus::Done, comparison);
        let end = conclude(&mut self.steps, check, &latest);
        self.stage = CheckStage::Ended;
        let mut actions: Vec<CheckAction> = Vec::new();
        actions.push(noted);
        actions.push(CheckAction::Report(compared));
        actions.push(CheckAction::Offer(end.offer));
        actions.push(CheckAction::Report(end.report));
        actions.push(CheckAction::Finish);
        assert(actions_view(actions@) =~= found(old(self)@, latest@, check@).actions);
        actions
    }

    /// Takes what has happened, and gives back what is to be done.
    pub fn step(&mut self, event: CheckEvent) -> (r: Vec<CheckAction>)
        ensures
            (CheckOutcome { flow: final(self)@, actions: actions_view(r@) }) == next(
                old(self)@,
                event,
            ),
    {
        let idle: Vec<CheckAction> = Vec::new();
        assert(actions_view(idle@) =~= Seq::<CheckActionView>::empty());
        match (self.stage, event) {
            (CheckStage::Locating, CheckEvent::Located(Ok(current))) => {
                self.current = current;
                self.ask("无法获取 npm latest。".to_string())
            },
            (CheckStage::Locating, CheckEvent::Located(Err(error))) => self.break_off(error),
            (CheckStage::Fetching, CheckEvent::Fetched(reply)) => {
                if self.asked >= self.urls.len() {
                    return idle;
                }
                let url = self.urls[self.asked].clone();
                assert(url@ == self@.urls[self@.asked]);
                let name = npm::source_label(url.as_str());
                match reply {
                    SourceReply::Failed(error) => {
                        let words = npm::classify_fetch_error(error.as_str());
                        self.give_up_source(text::join3(name, " ", words.as_str()))
                    },
                    SourceReply::Unreadable => self.give_up_source(
                        text::join2(name, " 内容无法解析"),
                    ),
                    SourceReply::Document(document) => {
                        if document.version.as_str().is_empty() {
                            return self.give_up_source(text::join2(name, " 未返回版本号"));
                        }
                        let latest = NpmLatest {
                            version: document.version,
                            registry: npm::registry_origin(url.as_str()),
                            node: document.engines.node,
                            source: name.to_string(),
                        };
                        let check = npm::select_npm_update(
                            &latest,
                            self.current.as_str(),
                            runtime::BUNDLED_NODE_VERSION,
                        );
                        self.settle(latest, check)
                    },
                }
            },
            _ => idle,
        }
    }
}

// ---------------------------------------------------------------------------
// Laws
// ---------------------------------------------------------------------------
/// A check has its four steps; while a registry is asked, there is one.
pub open spec fn well_formed(flow: CheckView) -> bool {
    &&& flow.steps.len() == 4
    &&& 0 <= flow.asked
    &&& (flow.stage == CheckStage::Fetching ==> flow.asked < flow.urls.len())
}

/// How many answers a check can still take.
pub open spec fn answers_left(flow: CheckView) -> int {
    match flow.stage {
        CheckStage::Locating => flow.urls.len() - flow.asked + 1,
        CheckStage::Fetching => flow.urls.len() - flow.asked,
        CheckStage::Ended => 0,
    }
}

/// The event is an answer to what the check asks.
pub open spec fn expected(flow: CheckView, event: CheckEvent) -> bool {
    match flow.stage {
        CheckStage::Locating => event is Located,
        CheckStage::Fetching => event is Fetched,
        CheckStage::Ended => false,
    }
}

/// A check begins well formed, and every event keeps it so.
pub proof fn checks_stay_well_formed(urls: Seq<Seq<char>>, flow: CheckView, event: CheckEvent)
    ensures
        well_formed(begun(urls)),
        well_formed(flow) ==> well_formed(next(flow, event).flow),
{
}

/// Every check comes to an end: each answer takes it nearer to it, and until
/// it is there the last thing to be done is the next question. The job is
/// given free at the end, and only there.
pub proof fn every_answer_advances_the_check(flow: CheckView, event: CheckEvent)
    requires
        well_formed(flow),
        expected(flow, event),
    ensures
        ({
            let outcome = next(flow, event);
            &&& outcome.actions.len() > 0
            &&& answers_left(outcome.flow) < answers_left(flow) || outcome.flow.stage
                == CheckStage::Ended
            &&& outcome.flow.stage == CheckStage::Ended ==> outcome.actions.last()
                == CheckActionView::Finish
            &&& outcome.flow.stage == CheckStage::Fetching ==> outcome.actions.last()
                == CheckActionView::Fetch(outcome.flow.urls[outcome.flow.asked])
            &&& forall|i: int|
                0 <= i < outcome.actions.len() - 1 ==> #[trigger] outcome.actions[i]
                    != CheckActionView::Finish
        }),
{
}

/// What has not been asked for changes nothing.
pub proof fn a_check_ignores_what_it_did_not_ask(flow: CheckView, event: CheckEvent)
    requires
        !expected(flow, event),
    ensures
        next(flow, event) == (CheckOutcome { flow, actions: Seq::empty() }),
{
}

/// The report that a check ends with leaves no step open and is shown to the
/// user.
pub proof fn the_end_of_a_check_is_shown(
    flow: CheckView,
    event: CheckEvent,
    snapshot: SnapshotView,
)
    requires
        well_formed(flow),
        expected(flow, event),
        next(flow, event).flow.stage == CheckStage::Ended,
    ensures
        ({
            let actions = next(flow, event).actions;
            &&& actions.len() >= 2
            &&& actions[actions.len() - 2] matches CheckActionView::Report(report)
            &&& report.steps.len() == 4
            &&& forall|i: int|
                0 <= i < 4 ==> (#[trigger] report.steps[i]).status != StepStatus::Pending
                    && report.steps[i].status != StepStatus::Active
            &&& shell::shows_toast(runtime::with_report(snapshot, report))
        }),
{
    reveal_strlit("当前已是 npm latest（DSH ");
    reveal_strlit("npm latest DSH ");
}

/// A release is put on offer only where the registry that was asked has named
/// it, it is newer than the version in use, and the bundled Node will do; and
/// only an answer that names a version touches the offer.
pub proof fn only_newer_releases_are_put_on_offer(flow: CheckView, event: CheckEvent, i: int)
    requires
        0 <= i < next(flow, event).actions.len(),
    ensures
        next(flow, event).actions[i] matches CheckActionView::Offer(offer) ==> {
            &&& event matches CheckEvent::Fetched(SourceReply::Document(document))
            &&& offer matches Some(release) ==> {
                &&& release.version == document.version@
                &&& release.registry == npm::origin_of(flow.urls[flow.asked])
                &&& versions::newer(release.version, flow.current)
                &&& versions::meets(
                    runtime::BUNDLED_NODE_VERSION@,
                    text::text_opt(document.engines.node),
                )
            }
        },
{
}

/// A release that fits is always put on offer, whichever registry has named it:
/// one that is newer than the version in use and whose Node the bundled one
/// meets. The offer names that release and the registry that was asked, and the
/// user is told.
pub proof fn every_fitting_release_is_put_on_offer(flow: CheckView, document: NpmVersionDocument)
    requires
        flow.stage == CheckStage::Fetching,
        0 <= flow.asked < flow.urls.len(),
        document.version@.len() > 0,
        versions::newer(document.version@, flow.current),
        versions::meets("22.23.2"@, text::text_opt(document.engines.node)),
    ensures
        ({
            let outcome = next(flow, CheckEvent::Fetched(SourceReply::Document(document)));
            let url = flow.urls[flow.asked];
            let release = ReleaseView {
                version: document.version@,
                registry: npm::origin_of(url),
            };
            let last = outcome.actions.len() - 1;
            &&& outcome.flow.stage == CheckStage::Ended
            &&& outcome.actions.contains(CheckActionView::Offer(Some(release)))
            &&& !outcome.actions.contains(CheckActionView::Offer(None))
            &&& outcome.actions[last] == CheckActionView::Finish
            &&& outcome.actions[last - 1] matches CheckActionView::Report(report)
            &&& report.phase == UpdatePhase::Available
            &&& report.available_version == Some(document.version@)
            &&& report.message == "发现 npm latest DSH "@ + document.version@ + "（来自 "@
                + npm::label_of(url) + "）。可在菜单中安装并重启，进行中的会话会中断。"@
            &&& report.steps.len() == 4 ==> report.steps[3].detail == "可安装 "@
                + document.version@
        }),
{
    let outcome = next(flow, CheckEvent::Fetched(SourceReply::Document(document)));
    let release = ReleaseView {
        version: document.version@,
        registry: npm::origin_of(flow.urls[flow.asked]),
    };
    assert(outcome.actions[2] == CheckActionView::Offer(Some(release)));
}

/// A release that is no newer than the version in use takes an older offer back,
/// whichever registry has named it, and the user is told that there is none.
pub proof fn a_known_release_is_not_put_on_offer(flow: CheckView, document: NpmVersionDocument)
    requires
        flow.stage == CheckStage::Fetching,
        0 <= flow.asked < flow.urls.len(),
        document.version@.len() > 0,
        !versions::newer(document.version@, flow.current),
    ensures
        ({
            let outcome = next(flow, CheckEvent::Fetched(SourceReply::Document(document)));
            let last = outcome.actions.len() - 1;
            &&& outcome.flow.stage == CheckStage::Ended
            &&& outcome.actions.contains(CheckActionView::Offer(None))
            &&& outcome.actions[last] == CheckActionView::Finish
            &&& outcome.actions[last - 1] matches CheckActionView::Report(report)
            &&& report.phase == UpdatePhase::Idle
            &&& report.available_version is None
            &&& report.message == "当前已是 npm latest（DSH "@ + document.version@ + "）。"@
            &&& flow.steps.len() == 4 ==> report.steps[3].status == StepStatus::Done
                && report.steps[3].detail == report.message
        }),
{
    let outcome = next(flow, CheckEvent::Fetched(SourceReply::Document(document)));
    assert(outcome.actions[2] == CheckActionView::Offer(None));
}

/// A newer release that wants another Node takes an older offer back, and the
/// user is told which Node it wants.
pub proof fn a_release_for_another_node_is_not_put_on_offer(
    flow: CheckView,
    document: NpmVersionDocument,
)
    requires
        flow.stage == CheckStage::Fetching,
        0 <= flow.asked < flow.urls.len(),
        document.version@.len() > 0,
        versions::newer(document.version@, flow.current),
        !versions::meets("22.23.2"@, text::text_opt(document.engines.node)),
    ensures
        ({
            let outcome = next(flow, CheckEvent::Fetched(SourceReply::Document(document)));
            let last = outcome.actions.len() - 1;
            &&& outcome.flow.stage == CheckStage::Ended
            &&& outcome.actions.contains(CheckActionView::Offer(None))
            &&& outcome.actions[last] == CheckActionView::Finish
            &&& outcome.actions[last - 1] matches CheckActionView::Report(report)
            &&& report.phase == UpdatePhase::Idle
            &&& report.available_version is None
            &&& document.engines.node matches Some(wanted) && report.message == "npm latest DSH "@
                + document.version@ + " 需要 Node "@ + wanted@ + "，当前随包 Node 为 "@
                + "22.23.2"@
            &&& flow.steps.len() == 4 ==> report.steps[3].status == StepStatus::Failed
                && report.steps[3].detail == report.message
        }),
{
    let outcome = next(flow, CheckEvent::Fetched(SourceReply::Document(document)));
    assert(outcome.actions[2] == CheckActionView::Offer(None));
}

/// An answer that names a version closes the first three steps, each with what
/// has been found, and says so on the way.
pub proof fn an_answer_is_followed_step_by_step(flow: CheckView, document: NpmVersionDocument)
    requires
        flow.stage == CheckStage::Fetching,
        0 <= flow.asked < flow.urls.len(),
        flow.steps.len() == 4,
        document.version@.len() > 0,
    ensures
        ({
            let outcome = next(flow, CheckEvent::Fetched(SourceReply::Document(document)));
            let name = npm::label_of(flow.urls[flow.asked]);
            &&& outcome.actions.len() == 5
            &&& outcome.actions[0] matches CheckActionView::Report(first)
            &&& outcome.actions[1] matches CheckActionView::Report(second)
            &&& outcome.actions[3] matches CheckActionView::Report(third)
            &&& first.phase == UpdatePhase::Checking
            &&& first.message == "正在检查 npm latest。"@
            &&& first.steps[0].status == StepStatus::Active
            &&& first.steps[0].detail == name + " 已获取 "@ + document.version@
            &&& second.phase == UpdatePhase::Checking
            &&& second.message == "npm latest 为 DSH "@ + document.version@ + "。"@
            &&& second.steps[2].status == StepStatus::Active
            &&& second.steps[2].detail == "当前 DSH "@ + flow.current
            &&& third.steps.len() == 4
            &&& forall|i: int| 0 <= i < 3 ==> (#[trigger] third.steps[i]).status == StepStatus::Done
            &&& forall|i: int| 0 <= i < 4 ==> (#[trigger] third.steps[i]).label
                == flow.steps[i].label
            &&& third.steps[0].detail == "已连接 "@ + name
            &&& third.steps[1].detail == "latest "@ + document.version@
            &&& third.steps[2].detail == "当前 DSH "@ + flow.current
            &&& outcome.flow.steps == third.steps
        }),
{
}

/// A registry that does not name a version gives way to the next one; after the
/// last one the check fails with what the last one did. The offer stays as it
/// was.
pub proof fn a_useless_registry_gives_way(flow: CheckView, reply: SourceReply)
    requires
        flow.stage == CheckStage::Fetching,
        0 <= flow.asked < flow.urls.len(),
        reply matches SourceReply::Document(document) ==> document.version@.len() == 0,
    ensures
        ({
            let outcome = next(flow, CheckEvent::Fetched(reply));
            let name = npm::label_of(flow.urls[flow.asked]);
            let error = match reply {
                SourceReply::Failed(error) => name + " "@ + npm::fetch_failure(error@),
                SourceReply::Unreadable => name + " 内容无法解析"@,
                SourceReply::Document(_) => name + " 未返回版本号"@,
            };
            &&& forall|i: int|
                0 <= i < outcome.actions.len() ==> !((#[trigger] outcome.actions[i]) is Offer)
            &&& outcome.actions.len() == 3
            &&& outcome.actions[0] matches CheckActionView::Report(noted)
            &&& noted.phase == UpdatePhase::Checking
            &&& noted.steps == steps::with_step(flow.steps, 0, StepStatus::Active, error)
            &&& outcome.flow.urls == flow.urls
            &&& outcome.flow.current == flow.current
            &&& flow.asked + 1 < flow.urls.len() ==> {
                &&& outcome.flow.stage == CheckStage::Fetching
                &&& outcome.flow.asked == flow.asked + 1
                &&& outcome.actions[2] == CheckActionView::Fetch(flow.urls[flow.asked + 1])
                &&& outcome.actions[1] matches CheckActionView::Report(going)
                &&& going.phase == UpdatePhase::Checking
                &&& going.message == "正在检查 npm latest。"@
                &&& flow.steps.len() == 4 ==> going.steps[0].detail == "正在连接 "@
                    + npm::label_of(flow.urls[flow.asked + 1])
            }
            &&& flow.asked + 1 == flow.urls.len() ==> {
                &&& outcome.flow.stage == CheckStage::Ended
                &&& outcome.actions[2] == CheckActionView::Finish
                &&& outcome.actions[1] matches CheckActionView::Report(gone)
                &&& gone.phase == UpdatePhase::Failed
                &&& gone.message == error
                &&& gone.available_version is None
                &&& flow.steps.len() == 4 ==> gone.steps[3].status == StepStatus::Failed
                    && gone.steps[3].detail == error
            }
        }),
{
}

/// A check begins with four waiting steps, of which the first runs, and asks the
/// first registry once the version in use is known. Without a version or a
/// registry it fails.
pub proof fn a_check_begins_with_the_first_registry(
    urls: Seq<Seq<char>>,
    current: String,
    error: String,
)
    ensures
        ({
            let flow = begun(urls);
            let good = next(flow, CheckEvent::Located(Ok(current)));
            let bad = next(flow, CheckEvent::Located(Err(error)));
            &&& flow.urls == urls
            &&& flow.steps.len() == 4
            &&& flow.steps[0].label == "连接 npm"@
            &&& flow.steps[1].label == "读取 latest"@
            &&& flow.steps[2].label == "对比"@
            &&& flow.steps[3].label == "结果"@
            &&& flow.steps[0].status == StepStatus::Active
            &&& flow.steps[0].detail == "正在连接 npm registry"@
            &&& forall|i: int|
                1 <= i < 4 ==> (#[trigger] flow.steps[i]).status == StepStatus::Pending
                    && flow.steps[i].detail.len() == 0
            &&& urls.len() > 0 ==> {
                &&& good.flow.stage == CheckStage::Fetching
                &&& good.flow.asked == 0
                &&& good.flow.urls == urls
                &&& good.flow.current == current@
                &&& good.actions.len() == 2
                &&& good.actions[1] == CheckActionView::Fetch(urls[0])
                &&& good.actions[0] matches CheckActionView::Report(report)
                &&& report.phase == UpdatePhase::Checking
                &&& report.message == "正在检查 npm latest。"@
                &&& report.steps[0].detail == "正在连接 "@ + npm::label_of(urls[0])
            }
            &&& urls.len() == 0 ==> {
                &&& good.flow.stage == CheckStage::Ended
                &&& good.actions.len() == 2
                &&& good.actions[1] == CheckActionView::Finish
                &&& good.actions[0] matches CheckActionView::Report(report)
                &&& report.phase == UpdatePhase::Failed
                &&& report.message == "无法获取 npm latest。"@
            }
            &&& bad.flow.stage == CheckStage::Ended
            &&& bad.actions.len() == 2
            &&& bad.actions[1] == CheckActionView::Finish
            &&& bad.actions[0] matches CheckActionView::Report(report)
            &&& report.phase == UpdatePhase::Failed
            &&& report.message == error@
            &&& report.steps[3].detail == error@
        }),
{
}

/// The version in use is the one that runs, and the active one where none runs.
pub proof fn the_running_version_is_in_use(running: String, active: String, r: String)
    requires
        call_ensures(version_in_use, (running, active), r),
    ensures
        running@.len() > 0 ==> r@ == running@,
        running@.len() == 0 ==> r@ == active@,
{
}

/// However a check is stepped: a fitting release is offered by the very answer
/// that names it, whichever registry was asked.
pub proof fn a_step_offers_every_fitting_release()
    ensures
        forall|flow: &mut CheckFlow, document: NpmVersionDocument, r: Vec<CheckAction>|
            {
                &&& #[trigger] call_ensures(
                    CheckFlow::step,
                    (flow, CheckEvent::Fetched(SourceReply::Document(document))),
                    r,
                )
                &&& (*flow)@.stage == CheckStage::Fetching
                &&& 0 <= (*flow)@.asked < (*flow)@.urls.len()
                &&& document.version@.len() > 0
                &&& versions::newer(document.version@, (*flow)@.current)
                &&& versions::meets("22.23.2"@, text::text_opt(document.engines.node))
            } ==> exists|i: int|
                {
                    &&& 0 <= i < r@.len()
                    &&& (#[trigger] r@[i]) matches CheckAction::Offer(Some(release))
                    &&& release.version@ == document.version@
                    &&& release.registry@ == npm::origin_of((*flow)@.urls[(*flow)@.asked])
                },
{
    assert forall|flow: &mut CheckFlow, document: NpmVersionDocument, r: Vec<CheckAction>|
        {
            &&& #[trigger] call_ensures(
                CheckFlow::step,
                (flow, CheckEvent::Fetched(SourceReply::Document(document))),
                r,
            )
            &&& (*flow)@.stage == CheckStage::Fetching
            &&& 0 <= (*flow)@.asked < (*flow)@.urls.len()
            &&& document.version@.len() > 0
            &&& versions::newer(document.version@, (*flow)@.current)
            &&& versions::meets("22.23.2"@, text::text_opt(document.engines.node))
        } implies exists|i: int|
            {
                &&& 0 <= i < r@.len()
                &&& (#[trigger] r@[i]) matches CheckAction::Offer(Some(release))
                &&& release.version@ == document.version@
                &&& release.registry@ == npm::origin_of((*flow)@.urls[(*flow)@.asked])
            } by {
        every_fitting_release_is_put_on_offer((*flow)@, document);
        let event = CheckEvent::Fetched(SourceReply::Document(document));
        let actions = next((*flow)@, event).actions;
        assert(actions == actions_view(r@));
        let offer = CheckActionView::Offer(
            Some(
                ReleaseView {
                    version: document.version@,
                    registry: npm::origin_of((*flow)@.urls[(*flow)@.asked]),
                },
            ),
        );
        let i = choose|i: int| 0 <= i < actions.len() && actions[i] == offer;
        assert(r@[i]@ == offer);
    }
}

/// A check begins with the registries to be asked and with a word on what it does.
pub proof fn a_check_says_what_it_does(registry: Option<&str>, r: (CheckFlow, UpdateReport))
    requires
        call_ensures(CheckFlow::begin, (registry,), r),
    ensures
        r.0@.stage == CheckStage::Locating,
        r.0@.asked == 0,
        registry is None ==> r.0@.urls == seq![
            "https://registry.npmjs.org/@deepseek-ai/dsh/latest"@,
            "https://registry.npmmirror.com/@deepseek-ai/dsh/latest"@,
        ],
        registry matches Some(own) ==> r.0@.urls == seq![
            text::without_trailing(own@, '/') + "/@deepseek-ai/dsh/latest"@,
        ],
        r.1.phase == UpdatePhase::Checking,
        r.1.message@ == "正在检查 npm latest。"@,
        r.1.available_version is None,
        r.1@.steps == r.0@.steps,
{
    npm::registries_are_asked_in_order(
        match registry {
            Some(own) => own@,
            None => Seq::empty(),
        },
    );
}

/// A list of actions says what each of them says, in their order.
pub proof fn lists_say_what_their_actions_say(actions: Seq<CheckAction>, i: int)
    requires
        0 <= i < actions.len(),
    ensures
        actions_view(actions).len() == actions.len(),
        match actions[i] {
            CheckAction::Report(report) => actions_view(actions)[i] == CheckActionView::Report(
                report@,
            ),
            CheckAction::Fetch(url) => actions_view(actions)[i] == CheckActionView::Fetch(url@),
            CheckAction::Offer(Some(release)) => actions_view(actions)[i]
                == CheckActionView::Offer(
                Some(ReleaseView { version: release.version@, registry: release.registry@ }),
            ),
            CheckAction::Offer(None) => actions_view(actions)[i] == CheckActionView::Offer(None),
            CheckAction::Finish => actions_view(actions)[i] == CheckActionView::Finish,
        },
{
}

} // verus!
