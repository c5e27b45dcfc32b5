//! A job on the plugins: one is added, removed, enabled or disabled, and the
//! runtime is restarted.
//!
//! `PluginJob::step` takes what has happened and gives back what is to be
//! done. A job that fails after it has paused the runtime lets it run again.

use vstd::prelude::*;
use vstd::string::*;

use crate::plugin_spec;
use crate::plugins;
use crate::plugins::UserPlugin;
use crate::runtime;
use crate::runtime::SnapshotView;
use crate::shell;
use crate::steps;
use crate::steps::ReportView;
use crate::steps::StepStatus;
use crate::steps::StepView;
use crate::steps::UpdatePhase;
use crate::steps::UpdateReport;
use crate::steps::UpdateStep;
use crate::text;

verus! {

/// What is to be done to which plugin.
#[derive(Debug, PartialEq, Eq)]
pub enum PluginTask {
    /// Add the package with this spec.
    Add(String),
    /// Remove the plugin of this name.
    Remove(String),
    /// Enable the plugin of this name.
    Enable(String),
    /// Disable the plugin of this name.
    Disable(String),
}

/// What a `PluginTask` says.
#[verifier::ext_equal]
pub enum TaskView {
    Add(Seq<char>),
    Remove(Seq<char>),
    Enable(Seq<char>),
    Disable(Seq<char>),
}

impl View for PluginTask {
    type V = TaskView;

    open spec fn view(&self) -> TaskView {
        match self {
            PluginTask::Add(spec) => TaskView::Add(spec@),
            PluginTask::Remove(name) => TaskView::Remove(name@),
            PluginTask::Enable(name) => TaskView::Enable(name@),
            PluginTask::Disable(name) => TaskView::Disable(name@),
        }
    }
}

/// What a job waits for.
#[derive(Clone, Copy, Debug, PartialEq, Eq, Structural)]
pub enum JobStage {
    /// The directories that it works in.
    Preparing,
    /// A pnpm.
    FindingPnpm,
    /// The end of the runtime.
    Pausing,
    /// The end of the command.
    Running,
    /// The new list of disabled plugins, written.
    Noting,
    /// Whether the plugin has entries.
    ReadingEntries,
    /// The patch, written.
    Syncing,
    /// Whether the restart could be asked for.
    Restarting,
    /// Nothing: the job has ended.
    Ended,
}

/// What has happened.
#[derive(Debug)]
pub enum JobEvent {
    /// This is said on the way to a pnpm.
    Note(String),
    /// What was asked for has been done, or why it has not.
    Done(Result<(), String>),
    /// Whether the plugin has entries.
    Entries(bool),
}

/// What is to be done.
#[derive(Debug, PartialEq, Eq)]
pub enum JobAction {
    /// Show this.
    Report(UpdateReport),
    /// Find a pnpm.
    FindPnpm,
    /// Pause the runtime.
    Pause,
    /// Call the program with these arguments.
    Run(Vec<String>),
    /// Take this plugin out of the disabled ones.
    ClearDisabled(String),
    /// Put this plugin among the disabled ones.
    Disable(String),
    /// Read the entries of the plugin.
    ReadEntries,
    /// Write the patch that disables plugins.
    SyncPatch,
    /// End the job.
    Finish,
    /// Restart the runtime.
    Restart,
    /// Let the runtime run again, whatever comes of it.
    Resume,
}

/// What a `JobAction` says.
#[verifier::ext_equal]
pub enum JobActionView {
    Report(ReportView),
    FindPnpm,
    Pause,
    Run(Seq<Seq<char>>),
    ClearDisabled(Seq<char>),
    Disable(Seq<char>),
    ReadEntries,
    SyncPatch,
    Finish,
    Restart,
    Resume,
}

impl View for JobAction {
    type V = JobActionView;

    open spec fn view(&self) -> JobActionView {
        match self {
            JobAction::Report(report) => JobActionView::Report(report@),
            JobAction::FindPnpm => JobActionView::FindPnpm,
            JobAction::Pause => JobActionView::Pause,
            JobAction::Run(arguments) => JobActionView::Run(text::texts(arguments@)),
            JobAction::ClearDisabled(name) => JobActionView::ClearDisabled(name@),
            JobAction::Disable(name) => JobActionView::Disable(name@),
            JobAction::ReadEntries => JobActionView::ReadEntries,
            JobAction::SyncPatch => JobActionView::SyncPatch,
            JobAction::Finish => JobActionView::Finish,
            JobAction::Restart => JobActionView::Restart,
            JobAction::Resume => JobActionView::Resume,
        }
    }
}

/// What a list of actions says.
pub open spec fn actions_view(actions: Seq<JobAction>) -> Seq<JobActionView> {
    actions.map_values(|action: JobAction| action@)
}

/// A job on its way.
#[derive(Debug)]
pub struct PluginJob {
    task: PluginTask,
    steps: Vec<UpdateStep>,
    stage: JobStage,
}

/// What a `PluginJob` knows.
#[verifier::ext_equal]
pub struct JobView {
    pub task: TaskView,
    pub steps: Seq<StepView>,
    pub stage: JobStage,
}

impl View for PluginJob {
    type V = JobView;

    closed spec fn view(&self) -> JobView {
        JobView { task: self.task@, steps: steps::steps_view(self.steps@), stage: self.stage }
    }
}

// ---------------------------------------------------------------------------
// Words
// ---------------------------------------------------------------------------
/// The package or the plugin that a task is about.
pub open spec fn subject(task: TaskView) -> Seq<char> {
    match task {
        TaskView::Add(spec) => spec,
        TaskView::Remove(name) => name,
        TaskView::Enable(name) => name,
        TaskView::Disable(name) => name,
    }
}

/// The phase that a task is shown under.
pub open spec fn phase_of(task: TaskView) -> UpdatePhase {
    match task {
        TaskView::Add(_) => UpdatePhase::PluginInstalling,
        TaskView::Remove(_) => UpdatePhase::PluginRemoving,
        TaskView::Enable(_) => UpdatePhase::PluginToggling,
        TaskView::Disable(_) => UpdatePhase::PluginToggling,
    }
}

/// The labels of the steps of a task.
pub open spec fn labels_of(task: TaskView) -> Seq<Seq<char>> {
    match task {
        TaskView::Add(_) => seq!["准备 pnpm"@, "安装插件"@, "重启"@],
        TaskView::Remove(_) => seq!["准备 pnpm"@, "卸载插件"@, "重启"@],
        TaskView::Enable(_) => seq!["启用插件"@, "重启"@],
        TaskView::Disable(_) => seq!["停用插件"@, "重启"@],
    }
}

/// What is said first.
pub open spec fn start_message(task: TaskView) -> Seq<char> {
    match task {
        TaskView::Add(spec) => "正在添加插件 "@ + spec + "。"@,
        TaskView::Remove(name) => "正在删除插件 "@ + name + "。"@,
        TaskView::Enable(name) => "正在启用插件 "@ + name + "。"@,
        TaskView::Disable(name) => "正在停用插件 "@ + name + "。"@,
    }
}

/// What the working step says while it runs.
pub open spec fn work_detail(task: TaskView) -> Seq<char> {
    match task {
        TaskView::Add(spec) => "dsh plugin add "@ + spec,
        TaskView::Remove(name) => "dsh plugin remove "@ + name,
        TaskView::Enable(name) => "正在启用 "@ + name,
        TaskView::Disable(name) => "正在停用 "@ + name,
    }
}

/// What is said while the working step runs.
pub open spec fn work_message(task: TaskView) -> Seq<char> {
    match task {
        TaskView::Add(spec) => "正在安装 "@ + spec + "。"@,
        TaskView::Remove(name) => "正在卸载 "@ + name + "。"@,
        TaskView::Enable(name) => "正在启用插件 "@ + name + "。"@,
        TaskView::Disable(name) => "正在停用插件 "@ + name + "。"@,
    }
}

/// What the working step says once it is done.
pub open spec fn done_detail(task: TaskView) -> Seq<char> {
    match task {
        TaskView::Add(spec) => "已安装 "@ + spec,
        TaskView::Remove(name) => "已卸载 "@ + name,
        TaskView::Enable(name) => "已启用 "@ + name,
        TaskView::Disable(name) => "已停用 "@ + name,
    }
}

/// What is said once the working step is done.
pub open spec fn done_message(task: TaskView) -> Seq<char> {
    match task {
        TaskView::Add(spec) => "已添加 "@ + spec + "，正在重启。"@,
        TaskView::Remove(name) => "已删除 "@ + name + "，正在重启。"@,
        TaskView::Enable(name) => "已启用 "@ + name + "，正在重启。"@,
        TaskView::Disable(name) => "已停用 "@ + name + "，正在重启。"@,
    }
}

/// The task is one for the package manager.
pub open spec fn needs_pnpm(task: TaskView) -> bool {
    task is Add || task is Remove
}

/// The place of the working step.
pub open spec fn work_index(task: TaskView) -> int {
    if needs_pnpm(task) {
        1
    } else {
        0
    }
}

// ---------------------------------------------------------------------------
// The model
// ---------------------------------------------------------------------------
/// What is said on the way.
pub open spec fn saying(job: JobView, phase: UpdatePhase, message: Seq<char>) -> JobActionView {
    JobActionView::Report(
        ReportView { phase, message, available_version: None, steps: job.steps },
    )
}

/// A job with a new status and detail of one step.
pub open spec fn marked(
    job: JobView,
    index: int,
    status: StepStatus,
    detail: Seq<char>,
) -> JobView {
    JobView { steps: steps::with_step(job.steps, index, status, detail), ..job }
}

/// A job that has just begun.
pub open spec fn begun(task: TaskView) -> JobView {
    marked(
        JobView {
            task,
            steps: steps::pending_steps(labels_of(task)),
            stage: JobStage::Preparing,
        },
        0,
        StepStatus::Active,
        start_message(task),
    )
}

/// Where a job stands after an event, and what is to be done.
#[verifier::ext_equal]
pub struct JobOutcome {
    pub job: JobView,
    pub actions: Seq<JobActionView>,
}

/// The place of the last step.
pub open spec fn restart_index(job: JobView) -> int {
    if job.steps.len() == 0 {
        0
    } else {
        job.steps.len() - 1
    }
}

/// The job fails: every step is shown as skipped, and a runtime that has been
/// stopped runs again.
pub open spec fn broken_off(job: JobView, error: Seq<char>, stopping: bool) -> JobOutcome {
    let after = JobView {
        steps: steps::all_settled(steps::pending_steps(labels_of(job.task))),
        stage: JobStage::Ended,
        ..job
    };
    let said = seq![saying(after, UpdatePhase::Failed, error), JobActionView::Finish];
    JobOutcome {
        job: after,
        actions: if stopping {
            said.push(JobActionView::Resume)
        } else {
            said
        },
    }
}

/// What the job set out to do has been done.
pub open spec fn succeeded(job: JobView) -> JobOutcome {
    let done = marked(job, work_index(job.task), StepStatus::Done, done_detail(job.task));
    let after = JobView {
        stage: JobStage::Restarting,
        ..marked(done, restart_index(done), StepStatus::Active, "正在重启以加载插件"@)
    };
    JobOutcome {
        job: after,
        actions: seq![
            saying(after, phase_of(job.task), done_message(job.task)),
            JobActionView::Finish,
            JobActionView::Restart,
        ],
    }
}

/// The search for a pnpm, with this note.
pub open spec fn pnpm_noted(job: JobView, note: Seq<char>) -> JobOutcome {
    let after = JobView {
        stage: JobStage::FindingPnpm,
        ..marked(job, 0, StepStatus::Active, note)
    };
    JobOutcome {
        job: after,
        actions: seq![
            saying(after, phase_of(job.task), "正在处理插件 "@ + subject(job.task) + "。"@),
        ],
    }
}

/// The working step begins.
pub open spec fn at_work(job: JobView, stage: JobStage, question: JobActionView) -> JobOutcome {
    let after = JobView {
        stage,
        ..marked(job, work_index(job.task), StepStatus::Active, work_detail(job.task))
    };
    JobOutcome {
        job: after,
        actions: seq![saying(after, phase_of(job.task), work_message(job.task)), question],
    }
}

/// The job goes on with this.
pub open spec fn going_on(job: JobView, stage: JobStage, question: JobActionView) -> JobOutcome {
    JobOutcome { job: JobView { stage, ..job }, actions: seq![question] }
}

/// What the package manager is called with.
pub open spec fn command_of(task: TaskView) -> Seq<Seq<char>> {
    match task {
        TaskView::Add(spec) => plugin_spec::plugin_command("add"@, spec),
        _ => plugin_spec::plugin_command("remove"@, subject(task)),
    }
}

/// The name of the plugin that the package manager has added or removed.
pub open spec fn handled_name(task: TaskView) -> Result<Seq<char>, Seq<char>> {
    match task {
        TaskView::Add(spec) => match plugin_spec::name_and_version(spec) {
            Ok(halves) => Ok(halves.0),
            Err(message) => Err(message),
        },
        _ => Ok(subject(task)),
    }
}

/// What follows once something has been done.
pub open spec fn advanced(job: JobView, stopping: bool) -> JobOutcome {
    let idle = JobOutcome { job, actions: Seq::empty() };
    match job.stage {
        JobStage::Preparing => match job.task {
            TaskView::Enable(name) => at_work(
                job,
                JobStage::Noting,
                JobActionView::ClearDisabled(name),
            ),
            TaskView::Disable(name) => at_work(job, JobStage::Noting, JobActionView::Disable(name)),
            _ => {
                let noted = pnpm_noted(job, "正在准备 pnpm"@);
                JobOutcome {
                    job: noted.job,
                    actions: noted.actions.push(JobActionView::FindPnpm),
                }
            },
        },
        JobStage::FindingPnpm => at_work(
            marked(job, 0, StepStatus::Done, "pnpm 已就绪"@),
            JobStage::Pausing,
            JobActionView::Pause,
        ),
        JobStage::Pausing => going_on(
            job,
            JobStage::Running,
            JobActionView::Run(command_of(job.task)),
        ),
        JobStage::Running => match handled_name(job.task) {
            Ok(name) => going_on(job, JobStage::Noting, JobActionView::ClearDisabled(name)),
            Err(message) => broken_off(job, message, stopping),
        },
        JobStage::Noting => if needs_pnpm(job.task) {
            succeeded(job)
        } else {
            going_on(job, JobStage::ReadingEntries, JobActionView::ReadEntries)
        },
        JobStage::ReadingEntries => idle,
        JobStage::Syncing => succeeded(job),
        JobStage::Restarting => JobOutcome {
            job: JobView { stage: JobStage::Ended, ..job },
            actions: Seq::empty(),
        },
        JobStage::Ended => idle,
    }
}

/// What follows once something could not be done.
pub open spec fn failed(job: JobView, error: Seq<char>, stopping: bool) -> JobOutcome {
    match job.stage {
        JobStage::Restarting => {
            let after = JobView {
                stage: JobStage::Ended,
                ..marked(job, restart_index(job), StepStatus::Failed, error)
            };
            JobOutcome { job: after, actions: seq![saying(after, UpdatePhase::Failed, error)] }
        },
        JobStage::ReadingEntries => JobOutcome { job, actions: Seq::empty() },
        JobStage::Ended => JobOutcome { job, actions: Seq::empty() },
        _ => broken_off(job, error, stopping),
    }
}

/// What follows from an event; `stopping` says whether the runtime has been
/// stopped.
pub open spec fn next(job: JobView, event: JobEvent, stopping: bool) -> JobOutcome {
    match event {
        JobEvent::Note(note) => if job.stage == JobStage::FindingPnpm {
            pnpm_noted(job, note@)
        } else {
            JobOutcome { job, actions: Seq::empty() }
        },
        JobEvent::Entries(any) => if job.stage != JobStage::ReadingEntries {
            JobOutcome { job, actions: Seq::empty() }
        } else if job.task is Disable && !any {
            broken_off(job, "无法读取该插件的条目，停用没有生效点。"@, stopping)
        } else {
            going_on(job, JobStage::Syncing, JobActionView::SyncPatch)
        },
        JobEvent::Done(Ok(_)) => advanced(job, stopping),
        JobEvent::Done(Err(error)) => failed(job, error@, stopping),
    }
}

// ---------------------------------------------------------------------------
// The functions
// ---------------------------------------------------------------------------
impl PluginTask {
    fn subject(&self) -> (r: String)
        ensures
            r@ == subject(self@),
    {
        match self {
            PluginTask::Add(spec) => spec.clone(),
            PluginTask::Remove(name) => name.clone(),
            PluginTask::Enable(name) => name.clone(),
            PluginTask::Disable(name) => name.clone(),
        }
    }

    /// The phase that it is shown under.
    pub fn phase(&self) -> (r: UpdatePhase)
        ensures
            r == phase_of(self@),
    {
        match self {
            PluginTask::Add(_) => UpdatePhase::PluginInstalling,
            PluginTask::Remove(_) => UpdatePhase::PluginRemoving,
            PluginTask::Enable(_) => UpdatePhase::PluginToggling,
            PluginTask::Disable(_) => UpdatePhase::PluginToggling,
        }
    }

    fn pending(&self) -> (r: Vec<UpdateStep>)
        ensures
            steps::steps_view(r@) == steps::pending_steps(labels_of(self@)),
    {
        let r = match self {
            PluginTask::Add(_) => steps::flow_from(&["准备 pnpm", "安装插件", "重启"]),
            PluginTask::Remove(_) => steps::flow_from(&["准备 pnpm", "卸载插件", "重启"]),
            PluginTask::Enable(_) => steps::flow_from(&["启用插件", "重启"]),
            PluginTask::Disable(_) => steps::flow_from(&["停用插件", "重启"]),
        };
        assert(steps::label_texts(["准备 pnpm", "安装插件", "重启"]@) =~= seq![
            "准备 pnpm"@,
            "安装插件"@,
            "重启"@,
        ]);
        assert(steps::label_texts(["准备 pnpm", "卸载插件", "重启"]@) =~= seq![
            "准备 pnpm"@,
            "卸载插件"@,
            "重启"@,
        ]);
        assert(steps::label_texts(["启用插件", "重启"]@) =~= seq!["启用插件"@, "重启"@]);
        assert(steps::label_texts(["停用插件", "重启"]@) =~= seq!["停用插件"@, "重启"@]);
        r
    }

    fn start_message(&self) -> (r: String)
        ensures
            r@ == start_message(self@),
    {
        match self {
            PluginTask::Add(spec) => text::join3("正在添加插件 ", spec.as_str(), "。"),
            PluginTask::Remove(name) => text::join3("正在删除插件 ", name.as_str(), "。"),
            PluginTask::Enable(name) => text::join3("正在启用插件 ", name.as_str(), "。"),
            PluginTask::Disable(name) => text::join3("正在停用插件 ", name.as_str(), "。"),
        }
    }

    fn work_detail(&self) -> (r: String)
        ensures
            r@ == work_detail(self@),
    {
        match self {
            PluginTask::Add(spec) => text::join2("dsh plugin add ", spec.as_str()),
            PluginTask::Remove(name) => text::join2("dsh plugin remove ", name.as_str()),
            PluginTask::Enable(name) => text::join2("正在启用 ", name.as_str()),
            PluginTask::Disable(name) => text::join2("正在停用 ", name.as_str()),
        }
    }

    fn work_message(&self) -> (r: String)
        ensures
            r@ == work_message(self@),
    {
        match self {
            PluginTask::Add(spec) => text::join3("正在安装 ", spec.as_str(), "。"),
            PluginTask::Remove(name) => text::join3("正在卸载 ", name.as_str(), "。"),
            PluginTask::Enable(name) => text::join3("正在启用插件 ", name.as_str(), "。"),
            PluginTask::Disable(name) => text::join3("正在停用插件 ", name.as_str(), "。"),
        }
    }

    fn done_detail(&self) -> (r: String)
        ensures
            r@ == done_detail(self@),
    {
        match self {
            PluginTask::Add(spec) => text::join2("已安装 ", spec.as_str()),
            PluginTask::Remove(name) => text::join2("已卸载 ", name.as_str()),
            PluginTask::Enable(name) => text::join2("已启用 ", name.as_str()),
            PluginTask::Disable(name) => text::join2("已停用 ", name.as_str()),
        }
    }

    fn done_message(&self) -> (r: String)
        ensures
            r@ == done_message(self@),
    {
        match self {
            PluginTask::Add(spec) => text::join3("已添加 ", spec.as_str(), "，正在重启。"),
            PluginTask::Remove(name) => text::join3("已删除 ", name.as_str(), "，正在重启。"),
            PluginTask::Enable(name) => text::join3("已启用 ", name.as_str(), "，正在重启。"),
            PluginTask::Disable(name) => text::join3("已停用 ", name.as_str(), "，正在重启。"),
        }
    }

    fn is_for_pnpm(&self) -> (r: bool)
        ensures
            r == needs_pnpm(self@),
    {
        match self {
            PluginTask::Add(_) => true,
            PluginTask::Remove(_) => true,
            PluginTask::Enable(_) => false,
            PluginTask::Disable(_) => false,
        }
    }

    fn command(&self) -> (r: Vec<String>)
        ensures
            text::texts(r@) == command_of(self@),
    {
        match self {
            PluginTask::Add(spec) => plugin_spec::plugin_add_args(spec.as_str()),
            _ => plugin_spec::plugin_remove_args(self.subject().as_str()),
        }
    }

    fn handled_name(&self) -> (r: Result<String, String>)
        ensures
            text::result_view(r) == handled_name(self@),
    {
        match self {
            PluginTask::Add(spec) => match plugin_spec::split_name_and_version(spec.as_str()) {
                Ok(halves) => Ok(halves.0),
                Err(message) => Err(message),
            },
            _ => Ok(self.subject()),
        }
    }
}

/// What a task or the refusal of one says.
pub open spec fn task_opt(r: Result<PluginTask, String>) -> Result<TaskView, Seq<char>> {
    match r {
        Ok(task) => Ok(task@),
        Err(message) => Err(message@),
    }
}

/// The task to add the package that a text names, or why there is none.
pub fn submit_add(spec: &str) -> (r: Result<PluginTask, String>)
    ensures
        task_opt(r) == match plugin_spec::parsed(spec@) {
            Ok(package) => Ok(TaskView::Add(package)),
            Err(message) => Err(message),
        },
{
    match plugin_spec::parse_registry_spec(spec) {
        Ok(package) => Ok(PluginTask::Add(package)),
        Err(message) => Err(message),
    }
}

/// The task to remove the plugin that a text names, or why there is none.
pub fn submit_remove(spec: &str) -> (r: Result<PluginTask, String>)
    ensures
        task_opt(r) == match plugin_spec::name_of(spec@) {
            Ok(name) => Ok(TaskView::Remove(name)),
            Err(message) => Err(message),
        },
{
    match plugin_spec::registry_name(spec) {
        Ok(name) => Ok(PluginTask::Remove(name)),
        Err(message) => Err(message),
    }
}

/// The task to enable or disable the plugin that a text names, or why there
/// is none.
pub fn submit_set_enabled(spec: &str, enabled: bool) -> (r: Result<PluginTask, String>)
    ensures
        task_opt(r) == match plugin_spec::name_of(spec@) {
            Ok(name) => if enabled {
                Ok(TaskView::Enable(name))
            } else {
                Ok(TaskView::Disable(name))
            },
            Err(message) => Err(message),
        },
{
    match plugin_spec::registry_name(spec) {
        Ok(name) => if enabled {
            Ok(PluginTask::Enable(name))
        } else {
            Ok(PluginTask::Disable(name))
        },
        Err(message) => Err(message),
    }
}

/// Whether a task can be begun: whatever is not to be added must be there.
pub fn can_begin(task: &PluginTask, installed: &Vec<UserPlugin>) -> (r: bool)
    ensures
        r == (task@ is Add || plugins::has_plugin(
            plugins::plugins_view(installed@),
            subject(task@),
        )),
{
    match task {
        PluginTask::Add(_) => true,
        _ => plugins::is_user_plugin(installed, task.subject().as_str()),
    }
}

impl PluginJob {
    /// Begins a job. What is said first comes with it.
    pub fn begin(task: PluginTask) -> (r: (PluginJob, UpdateReport))
        ensures
            r.0@ == begun(task@),
            JobActionView::Report(r.1@) == saying(
                begun(task@),
                phase_of(task@),
                start_message(task@),
            ),
    {
        let mut steps = task.pending();
        steps::set_step(&mut steps, 0, StepStatus::Active, task.start_message());
        let job = PluginJob { task, steps, stage: JobStage::Preparing };
        let report = job.report(job.task.phase(), job.task.start_message());
        (job, report)
    }

    /// What the job waits for.
    pub fn stage(&self) -> (r: JobStage)
        ensures
            r == self@.stage,
    {
        self.stage
    }

    fn report(&self, phase: UpdatePhase, message: String) -> (r: UpdateReport)
        ensures
            JobActionView::Report(r@) == saying(self@, phase, message@),
    {
        steps::report(phase, message, &None, &self.steps)
    }

    fn mark(&mut self, index: usize, status: StepStatus, detail: String)
        ensures
            final(self)@ == marked(old(self)@, index as int, status, detail@),
    {
        steps::set_step(&mut self.steps, index, status, detail);
    }

    fn mark_last(&mut self, status: StepStatus, detail: String)
        ensures
            final(self)@ == marked(old(self)@, restart_index(old(self)@), status, detail@),
    {
        let count = self.steps.len();
        let index: usize = if count == 0 {
            0
        } else {
            count - 1
        };
        assert(self@.steps.len() == count);
        self.mark(index, status, detail);
    }

    fn mark_work(&mut self, status: StepStatus, detail: String)
        ensures
            final(self)@ == marked(old(self)@, work_index(old(self)@.task), status, detail@),
    {
        let index: usize = if self.task.is_for_pnpm() {
            1
        } else {
            0
        };
        self.mark(index, status, detail);
    }

    fn break_off(&mut self, error: String, stopping: bool) -> (r: Vec<JobAction>)
        ensures
            (JobOutcome { job: final(self)@, actions: actions_view(r@) }) == broken_off(
                old(self)@,
                error@,
                stopping,
            ),
    {
        self.steps = self.task.pending();
        steps::fail_remaining(&mut self.steps);
        self.stage = JobStage::Ended;
        let mut actions: Vec<JobAction> = Vec::new();
        actions.push(JobAction::Report(self.report(UpdatePhase::Failed, error)));
        actions.push(JobAction::Finish);
        if stopping {
            actions.push(JobAction::Resume);
        }
        assert(actions_view(actions@) =~= broken_off(old(self)@, error@, stopping).actions);
        actions
    }

    fn succeed(&mut self) -> (r: Vec<JobAction>)
        ensures
            (JobOutcome { job: final(self)@, actions: actions_view(r@) }) == succeeded(old(self)@),
    {
        let detail = self.task.done_detail();
        self.mark_work(StepStatus::Done, detail);
        self.mark_last(StepStatus::Active, "正在重启以加载插件".to_string());
        self.stage = JobStage::Restarting;
        let mut actions: Vec<JobAction> = Vec::new();
        actions.push(
            JobAction::Report(self.report(self.task.phase(), self.task.done_message())),
        );
        actions.push(JobAction::Finish);
        actions.push(JobAction::Restart);
        assert(actions_view(actions@) =~= succeeded(old(self)@).actions);
        actions
    }

    fn note_pnpm(&mut self, note: String) -> (r: Vec<JobAction>)
        ensures
            (JobOutcome { job: final(self)@, actions: actions_view(r@) }) == pnpm_noted(
                old(self)@,
                note@,
            ),
    {
        self.mark(0, StepStatus::Active, note);
        self.stage = JobStage::FindingPnpm;
        let message = text::join3("正在处理插件 ", self.task.subject().as_str(), "。");
        let mut actions: Vec<JobAction> = Vec::new();
        actions.push(JobAction::Report(self.report(self.task.phase(), message)));
        assert(actions_view(actions@) =~= pnpm_noted(old(self)@, note@).actions);
        actions
    }

    fn set_to_work(&mut self, stage: JobStage, question: JobAction) -> (r: Vec<JobAction>)
        ensures
            (JobOutcome { job: final(self)@, actions: actions_view(r@) }) == at_work(
                old(self)@,
                stage,
                question@,
            ),
    {
        let detail = self.task.work_detail();
        self.mark_work(StepStatus::Active, detail);
        self.stage = stage;
        let mut actions: Vec<JobAction> = Vec::new();
        actions.push(
            JobAction::Report(self.report(self.task.phase(), self.task.work_message())),
        );
        actions.push(question);
        assert(actions_view(actions@) =~= at_work(old(self)@, stage, question@).actions);
        actions
    }

    fn go_on(&mut self, stage: JobStage, question: JobAction) -> (r: Vec<JobAction>)
        ensures
            (JobOutcome { job: final(self)@, actions: actions_view(r@) }) == going_on(
                old(self)@,
                stage,
                question@,
            ),
    {
        self.stage = stage;
        let mut actions: Vec<JobAction> = Vec::new();
        actions.push(question);
        assert(actions_view(actions@) =~= going_on(old(self)@, stage, question@).actions);
        actions
    }

    fn advance(&mut self, stopping: bool) -> (r: Vec<JobAction>)
        ensures
            (JobOutcome { job: final(self)@, actions: actions_view(r@) }) == advanced(
                old(self)@,
                stopping,
            ),
    {
        let idle: Vec<JobAction> = Vec::new();
        assert(actions_view(idle@) =~= Seq::<JobActionView>::empty());
        match self.stage {
            JobStage::Preparing => {
                let name = self.task.subject();
                match &self.task {
                    PluginTask::Enable(_) => self.set_to_work(
                        JobStage::Noting,
                        JobAction::ClearDisabled(name),
                    ),
                    PluginTask::Disable(_) => self.set_to_work(
                        JobStage::Noting,
                        JobAction::Disable(name),
                    ),
                    _ => {
                        let mut actions = self.note_pnpm("正在准备 pnpm".to_string());
                        let ghost before = actions_view(actions@);
                        actions.push(JobAction::FindPnpm);
                        assert(actions_view(actions@) =~= before.push(JobActionView::FindPnpm));
                        actions
                    },
                }
            },
            JobStage::FindingPnpm => {
                self.mark(0, StepStatus::Done, "pnpm 已就绪".to_string());
                self.set_to_work(JobStage::Pausing, JobAction::Pause)
            },
            JobStage::Pausing => {
                let arguments = self.task.command();
                self.go_on(JobStage::Running, JobAction::Run(arguments))
            },
            JobStage::Running => match self.task.handled_name() {
                Ok(name) => self.go_on(JobStage::Noting, JobAction::ClearDisabled(name)),
                Err(message) => self.break_off(message, stopping),
            },
            JobStage::Noting => if self.task.is_for_pnpm() {
                self.succeed()
            } else {
                self.go_on(JobStage::ReadingEntries, JobAction::ReadEntries)
            },
            JobStage::ReadingEntries => idle,
            JobStage::Syncing => self.succeed(),
            JobStage::Restarting => {
                self.stage = JobStage::Ended;
                idle
            },
            JobStage::Ended => idle,
        }
    }

    fn fail(&mut self, error: String, stopping: bool) -> (r: Vec<JobAction>)
        ensures
            (JobOutcome { job: final(self)@, actions: actions_view(r@) }) == failed(
                old(self)@,
                error@,
                stopping,
            ),
    {
        let mut actions: Vec<JobAction> = Vec::new();
        match self.stage {
            JobStage::Restarting => {
                self.mark_last(StepStatus::Failed, error.clone());
                self.stage = JobStage::Ended;
                actions.push(JobAction::Report(self.report(UpdatePhase::Failed, error)));
            },
            JobStage::ReadingEntries => {},
            JobStage::Ended => {},
            _ => {
                return self.break_off(error, stopping);
            },
        }
        assert(actions_view(actions@) =~= failed(old(self)@, error@, stopping).actions);
        actions
    }

    /// Takes what has happened and whether the runtime has been stopped, and
    /// gives back what is to be done.
    pub fn step(&mut self, event: JobEvent, stopping: bool) -> (r: Vec<JobAction>)
        ensures
            (JobOutcome { job: final(self)@, actions: actions_view(r@) }) == next(
                old(self)@,
                event,
                stopping,
            ),
    {
        let idle: Vec<JobAction> = Vec::new();
        assert(actions_view(idle@) =~= Seq::<JobActionView>::empty());
        match event {
            JobEvent::Note(note) => if self.stage == JobStage::FindingPnpm {
                self.note_pnpm(note)
            } else {
                idle
            },
            JobEvent::Entries(any) => {
                if self.stage != JobStage::ReadingEntries {
                    return idle;
                }
                let disabling = match &self.task {
                    PluginTask::Disable(_) => true,
                    _ => false,
                };
                if disabling && !any {
                    self.break_off(
                        "无法读取该插件的条目，停用没有生效点。".to_string(),
                        stopping,
                    )
                } else {
                    self.go_on(JobStage::Syncing, JobAction::SyncPatch)
                }
            },
            JobEvent::Done(Ok(_)) => self.advance(stopping),
            JobEvent::Done(Err(error)) => self.fail(error, stopping),
        }
    }
}

// ---------------------------------------------------------------------------
// Laws
// ---------------------------------------------------------------------------
/// How far a job has come.
pub open spec fn progress(stage: JobStage) -> int {
    match stage {
        JobStage::Preparing => 0,
        JobStage::FindingPnpm => 1,
        JobStage::Pausing => 2,
        JobStage::Running => 3,
        JobStage::Noting => 4,
        JobStage::ReadingEntries => 5,
        JobStage::Syncing => 6,
        JobStage::Restarting => 7,
        JobStage::Ended => 8,
    }
}

/// The event is an answer to what the job asks.
pub open spec fn expected(job: JobView, event: JobEvent) -> bool {
    match job.stage {
        JobStage::Ended => false,
        JobStage::ReadingEntries => event is Entries,
        _ => event is Done,
    }
}

/// Every job comes to an end: each answer takes it on, and until then there is
/// something to be done. The next job can begin exactly when this one fails
/// before the restart or asks for it.
pub proof fn every_answer_advances_the_job(job: JobView, event: JobEvent, stopping: bool)
    requires
        expected(job, event),
    ensures
        progress(next(job, event, stopping).job.stage) > progress(job.stage),
        next(job, event, stopping).job.stage != JobStage::Ended ==> next(
            job,
            event,
            stopping,
        ).actions.len() > 0,
        next(job, event, stopping).actions.contains(JobActionView::Finish) <==> progress(job.stage)
            < progress(JobStage::Restarting) && progress(next(job, event, stopping).job.stage)
            >= progress(JobStage::Restarting),
{
    let outcome = next(job, event, stopping);
    if progress(job.stage) < progress(JobStage::Restarting) && progress(outcome.job.stage)
        >= progress(JobStage::Restarting) {
        assert(outcome.actions[1] == JobActionView::Finish);
    }
}

/// The package manager is called only while the runtime is paused, and the
/// runtime is restarted only where the job has done what it set out to do.
pub proof fn packages_change_while_the_runtime_is_paused(
    job: JobView,
    event: JobEvent,
    stopping: bool,
    arguments: Seq<Seq<char>>,
)
    ensures
        next(job, event, stopping).actions.contains(JobActionView::Run(arguments)) ==> job.stage
            == JobStage::Pausing && (event matches JobEvent::Done(Ok(_))) && arguments
            == command_of(job.task),
        next(job, event, stopping).actions.contains(JobActionView::Restart) ==> (job.stage
            == JobStage::Noting || job.stage == JobStage::Syncing) && (event matches JobEvent::Done(
            Ok(_),
        )),
{
}

/// A job that fails before the restart says why, gives way to the next job,
/// shows no open step, and lets a stopped runtime run again.
pub proof fn failure_lets_the_runtime_run_again(job: JobView, error: Seq<char>, stopping: bool)
    requires
        progress(job.stage) < progress(JobStage::Restarting),
        job.stage != JobStage::ReadingEntries,
    ensures
        ({
            let outcome = failed(job, error, stopping);
            &&& outcome.job.stage == JobStage::Ended
            &&& outcome.actions.contains(JobActionView::Finish)
            &&& outcome.actions.contains(JobActionView::Resume) <==> stopping
            &&& outcome.actions[0] == saying(outcome.job, UpdatePhase::Failed, error)
            &&& forall|i: int|
                0 <= i < outcome.job.steps.len() ==> (#[trigger] outcome.job.steps[i]).status
                    == StepStatus::Skipped
        }),
{
    let actions = failed(job, error, stopping).actions;
    assert(actions[1] == JobActionView::Finish);
    if stopping {
        assert(actions[2] == JobActionView::Resume);
    }
}

/// The patch is written for a plugin that is to be disabled only where that has
/// an effect: one without entries makes the job fail. Its name stays among the
/// disabled ones, where the stage before has put it.
pub proof fn disabling_needs_entries(job: JobView, stopping: bool)
    requires
        job.stage == JobStage::ReadingEntries,
    ensures
        next(job, JobEvent::Entries(false), stopping).actions.contains(JobActionView::SyncPatch)
            <==> !(job.task is Disable),
        next(job, JobEvent::Entries(true), stopping).actions.contains(JobActionView::SyncPatch),
{
    let quiet = next(job, JobEvent::Entries(true), stopping).actions;
    assert(quiet[0] == JobActionView::SyncPatch);
    let silent = next(job, JobEvent::Entries(false), stopping).actions;
    if !(job.task is Disable) {
        assert(silent[0] == JobActionView::SyncPatch);
    }
}

/// Whatever a job says is shown to the user, from its first words on.
pub proof fn all_that_a_job_says_is_shown(
    task: TaskView,
    job: JobView,
    event: JobEvent,
    stopping: bool,
    snapshot: SnapshotView,
)
    ensures
        saying(begun(task), phase_of(task), start_message(task)) matches JobActionView::Report(first)
            && shell::shows_toast(runtime::with_report(snapshot, first)),
        forall|i: int|
            0 <= i < next(job, event, stopping).actions.len() ==> ((#[trigger] next(
                job,
                event,
                stopping,
            ).actions[i]) matches JobActionView::Report(report) ==> shell::shows_toast(
                runtime::with_report(snapshot, report),
            )),
{
}

/// What the package manager is called with, word for word: a removal removes the
/// plugin by its name and an addition adds the package by its spec, once the
/// runtime is paused.
pub proof fn a_task_runs_its_own_command(job: JobView, stopping: bool)
    requires
        job.stage == JobStage::Pausing,
    ensures
        ({
            let outcome = next(job, JobEvent::Done(Ok(())), stopping);
            &&& job.task matches TaskView::Add(spec) ==> outcome.actions == seq![
                JobActionView::Run(seq!["plugin"@, "--profile"@, "web"@, "add"@, spec]),
            ]
            &&& job.task matches TaskView::Remove(name) ==> outcome.actions == seq![
                JobActionView::Run(seq!["plugin"@, "--profile"@, "web"@, "remove"@, name]),
            ]
            &&& outcome.job == (JobView { stage: JobStage::Running, ..job })
        }),
{
    match job.task {
        TaskView::Add(spec) => {
            assert(plugin_spec::plugin_command("add"@, spec) =~= seq![
                "plugin"@,
                "--profile"@,
                "web"@,
                "add"@,
                spec,
            ]);
        },
        TaskView::Remove(name) => {
            assert(plugin_spec::plugin_command("remove"@, name) =~= seq![
                "plugin"@,
                "--profile"@,
                "web"@,
                "remove"@,
                name,
            ]);
        },
        _ => {},
    }
}

/// A removal, from its first answer to the restart: a pnpm is found, the runtime
/// is paused, the command is run, the name is no longer kept as disabled, and
/// the runtime is restarted.
pub proof fn a_removal_takes_its_course(name: Seq<char>, stopping: bool)
    ensures
        ({
            let done = JobEvent::Done(Ok(()));
            let first = next(begun(TaskView::Remove(name)), done, stopping);
            let second = next(first.job, done, stopping);
            let third = next(second.job, done, stopping);
            let fourth = next(third.job, done, stopping);
            let fifth = next(fourth.job, done, stopping);
            &&& first.actions.last() == JobActionView::FindPnpm
            &&& second.actions.last() == JobActionView::Pause
            &&& third.actions == seq![
                JobActionView::Run(seq!["plugin"@, "--profile"@, "web"@, "remove"@, name]),
            ]
            &&& fourth.actions == seq![JobActionView::ClearDisabled(name)]
            &&& fifth.actions.last() == JobActionView::Restart
            &&& fifth.job.task == TaskView::Remove(name)
            &&& fifth.job.stage == JobStage::Restarting
        }),
{
    let done = JobEvent::Done(Ok(()));
    let first = next(begun(TaskView::Remove(name)), done, stopping);
    let second = next(first.job, done, stopping);
    a_task_runs_its_own_command(second.job, stopping);
}

/// An addition, from its first answer to the restart.
pub proof fn an_addition_takes_its_course(
    spec: Seq<char>,
    name: Seq<char>,
    version: Option<Seq<char>>,
    stopping: bool,
)
    requires
        plugin_spec::name_and_version(spec) == Ok::<(Seq<char>, Option<Seq<char>>), Seq<char>>(
            (name, version),
        ),
    ensures
        ({
            let done = JobEvent::Done(Ok(()));
            let first = next(begun(TaskView::Add(spec)), done, stopping);
            let second = next(first.job, done, stopping);
            let third = next(second.job, done, stopping);
            let fourth = next(third.job, done, stopping);
            let fifth = next(fourth.job, done, stopping);
            &&& first.actions.last() == JobActionView::FindPnpm
            &&& second.actions.last() == JobActionView::Pause
            &&& third.actions == seq![
                JobActionView::Run(seq!["plugin"@, "--profile"@, "web"@, "add"@, spec]),
            ]
            &&& fourth.actions == seq![JobActionView::ClearDisabled(name)]
            &&& fifth.actions.last() == JobActionView::Restart
            &&& fifth.job.task == TaskView::Add(spec)
            &&& fifth.job.stage == JobStage::Restarting
        }),
{
    let done = JobEvent::Done(Ok(()));
    let first = next(begun(TaskView::Add(spec)), done, stopping);
    let second = next(first.job, done, stopping);
    a_task_runs_its_own_command(second.job, stopping);
}

/// A plugin is enabled by taking its name out of the disabled ones and disabled by
/// putting it there; then its entries are read, the patch is written, and the
/// runtime is restarted. No package manager and no pause is needed.
pub proof fn a_toggle_takes_its_course(name: Seq<char>, enable: bool, any: bool, stopping: bool)
    requires
        enable || any,
    ensures
        ({
            let done = JobEvent::Done(Ok(()));
            let task = if enable {
                TaskView::Enable(name)
            } else {
                TaskView::Disable(name)
            };
            let first = next(begun(task), done, stopping);
            let second = next(first.job, done, stopping);
            let third = next(second.job, JobEvent::Entries(any), stopping);
            let fourth = next(third.job, done, stopping);
            &&& first.actions.len() == 2
            &&& first.actions[0] is Report
            &&& first.actions[1] == (if enable {
                JobActionView::ClearDisabled(name)
            } else {
                JobActionView::Disable(name)
            })
            &&& second.actions == seq![JobActionView::ReadEntries]
            &&& third.actions == seq![JobActionView::SyncPatch]
            &&& fourth.actions.len() == 3
            &&& fourth.actions[0] is Report
            &&& fourth.actions[1] == JobActionView::Finish
            &&& fourth.actions[2] == JobActionView::Restart
            &&& fourth.job.stage == JobStage::Restarting
        }),
{
}

/// A plugin without entries cannot be disabled, and the user is told so.
pub proof fn a_plugin_without_entries_cannot_be_disabled(
    job: JobView,
    name: Seq<char>,
    stopping: bool,
)
    requires
        job.stage == JobStage::ReadingEntries,
        job.task == TaskView::Disable(name),
    ensures
        ({
            let outcome = next(job, JobEvent::Entries(false), stopping);
            &&& outcome.job.stage == JobStage::Ended
            &&& outcome.actions[0] matches JobActionView::Report(report)
            &&& report.phase == UpdatePhase::Failed
            &&& report.message == "无法读取该插件的条目，停用没有生效点。"@
            &&& outcome.actions[1] == JobActionView::Finish
            &&& outcome.actions.len() == (if stopping {
                3int
            } else {
                2int
            })
            &&& stopping ==> outcome.actions[2] == JobActionView::Resume
        }),
{
}

/// The words and the phase of each task at its start, and the labels of its
/// steps.
pub proof fn a_task_begins_in_its_own_words(name: Seq<char>)
    ensures
        phase_of(TaskView::Add(name)) == UpdatePhase::PluginInstalling,
        phase_of(TaskView::Remove(name)) == UpdatePhase::PluginRemoving,
        phase_of(TaskView::Enable(name)) == UpdatePhase::PluginToggling,
        phase_of(TaskView::Disable(name)) == UpdatePhase::PluginToggling,
        start_message(TaskView::Add(name)) == "正在添加插件 "@ + name + "。"@,
        start_message(TaskView::Remove(name)) == "正在删除插件 "@ + name + "。"@,
        start_message(TaskView::Enable(name)) == "正在启用插件 "@ + name + "。"@,
        start_message(TaskView::Disable(name)) == "正在停用插件 "@ + name + "。"@,
        labels_of(TaskView::Add(name)) == seq!["准备 pnpm"@, "安装插件"@, "重启"@],
        labels_of(TaskView::Remove(name)) == seq!["准备 pnpm"@, "卸载插件"@, "重启"@],
        labels_of(TaskView::Enable(name)) == seq!["启用插件"@, "重启"@],
        labels_of(TaskView::Disable(name)) == seq!["停用插件"@, "重启"@],
{
}

/// A job begins with one step for each label of its task, of which the first
/// runs and says what the job is about.
pub proof fn a_job_begins_with_its_first_step(task: TaskView, i: int)
    requires
        0 <= i < labels_of(task).len(),
    ensures
        begun(task).task == task,
        begun(task).stage == JobStage::Preparing,
        begun(task).steps.len() == labels_of(task).len(),
        begun(task).steps[i].label == labels_of(task)[i],
        i == 0 ==> begun(task).steps[i].status == StepStatus::Active && begun(task).steps[i].detail
            == start_message(task),
        i > 0 ==> begun(task).steps[i].status == StepStatus::Pending
            && begun(task).steps[i].detail.len() == 0,
{
}

/// What is said when the working step of a task begins: its own phase, its own
/// words, and the step that runs.
pub proof fn a_working_task_says_what_it_does(job: JobView, name: Seq<char>, stopping: bool)
    requires
        job.stage == JobStage::FindingPnpm && (job.task == TaskView::Add(name) || job.task
            == TaskView::Remove(name)) && job.steps.len() == 3 || job.stage == JobStage::Preparing
            && (job.task == TaskView::Enable(name) || job.task == TaskView::Disable(name))
            && job.steps.len() == 2,
    ensures
        ({
            let outcome = next(job, JobEvent::Done(Ok(())), stopping);
            let place = if job.steps.len() == 3 {
                1int
            } else {
                0int
            };
            &&& outcome.actions.len() == 2
            &&& outcome.actions[0] matches JobActionView::Report(report)
            &&& report.steps == outcome.job.steps
            &&& report.available_version is None
            &&& report.steps.len() == job.steps.len()
            &&& report.steps[place].status == StepStatus::Active
            &&& report.steps[place].label == job.steps[place].label
            &&& report.steps.last() == job.steps.last()
            &&& place == 1 ==> report.steps[0].status == StepStatus::Done && report.steps[0].detail
                == "pnpm 已就绪"@ && outcome.actions[1] == JobActionView::Pause
            &&& job.task is Add ==> {
                &&& report.phase == UpdatePhase::PluginInstalling
                &&& report.message == "正在安装 "@ + name + "。"@
                &&& report.steps[1].detail == "dsh plugin add "@ + name
            }
            &&& job.task is Remove ==> {
                &&& report.phase == UpdatePhase::PluginRemoving
                &&& report.message == "正在卸载 "@ + name + "。"@
                &&& report.steps[1].detail == "dsh plugin remove "@ + name
            }
            &&& job.task is Enable ==> {
                &&& report.phase == UpdatePhase::PluginToggling
                &&& report.message == "正在启用插件 "@ + name + "。"@
                &&& report.steps[0].detail == "正在启用 "@ + name
            }
            &&& job.task is Disable ==> {
                &&& report.phase == UpdatePhase::PluginToggling
                &&& report.message == "正在停用插件 "@ + name + "。"@
                &&& report.steps[0].detail == "正在停用 "@ + name
            }
        }),
{
}

/// What is said when a task has been done: its own phase and words, the step that
/// is done, and the restart that runs.
pub proof fn a_finished_task_says_what_it_did(job: JobView, name: Seq<char>, stopping: bool)
    requires
        job.stage == JobStage::Noting && (job.task == TaskView::Add(name) || job.task
            == TaskView::Remove(name)) && job.steps.len() == 3 || job.stage == JobStage::Syncing && (
        job.task == TaskView::Enable(name) || job.task == TaskView::Disable(name))
            && job.steps.len() == 2,
    ensures
        ({
            let outcome = next(job, JobEvent::Done(Ok(())), stopping);
            let place = job.steps.len() - 2;
            &&& outcome.actions.len() == 3
            &&& outcome.actions[1] == JobActionView::Finish
            &&& outcome.actions[2] == JobActionView::Restart
            &&& outcome.actions[0] matches JobActionView::Report(report)
            &&& report.steps == outcome.job.steps
            &&& report.available_version is None
            &&& report.steps.len() == job.steps.len()
            &&& report.steps[place].status == StepStatus::Done
            &&& report.steps[place + 1].status == StepStatus::Active
            &&& report.steps[place + 1].detail == "正在重启以加载插件"@
            &&& job.task is Add ==> {
                &&& report.phase == UpdatePhase::PluginInstalling
                &&& report.message == "已添加 "@ + name + "，正在重启。"@
                &&& report.steps[place].detail == "已安装 "@ + name
            }
            &&& job.task is Remove ==> {
                &&& report.phase == UpdatePhase::PluginRemoving
                &&& report.message == "已删除 "@ + name + "，正在重启。"@
                &&& report.steps[place].detail == "已卸载 "@ + name
            }
            &&& job.task is Enable ==> {
                &&& report.phase == UpdatePhase::PluginToggling
                &&& report.message == "已启用 "@ + name + "，正在重启。"@
                &&& report.steps[place].detail == "已启用 "@ + name
            }
            &&& job.task is Disable ==> {
                &&& report.phase == UpdatePhase::PluginToggling
                &&& report.message == "已停用 "@ + name + "，正在重启。"@
                &&& report.steps[place].detail == "已停用 "@ + name
            }
        }),
{
}

/// On the way to a pnpm every note is shown as it is, at the first step.
pub proof fn notes_are_shown_as_they_are(
    job: JobView,
    name: Seq<char>,
    note: String,
    stopping: bool,
)
    requires
        job.stage == JobStage::FindingPnpm,
        job.task == TaskView::Add(name) || job.task == TaskView::Remove(name),
        job.steps.len() == 3,
    ensures
        ({
            let outcome = next(job, JobEvent::Note(note), stopping);
            &&& outcome.job.stage == JobStage::FindingPnpm
            &&& outcome.job.task == job.task
            &&& outcome.actions.len() == 1
            &&& outcome.actions[0] matches JobActionView::Report(report)
            &&& report.message == "正在处理插件 "@ + name + "。"@
            &&& report.phase == (if job.task is Add {
                UpdatePhase::PluginInstalling
            } else {
                UpdatePhase::PluginRemoving
            })
            &&& report.steps == outcome.job.steps
            &&& report.steps[0].status == StepStatus::Active
            &&& report.steps[0].detail == note@
            &&& report.steps[1] == job.steps[1]
            &&& report.steps[2] == job.steps[2]
        }),
{
}

/// Where no pnpm has been found yet, the search for one is said first.
pub proof fn the_search_for_a_pnpm_is_said(job: JobView, name: Seq<char>, stopping: bool)
    requires
        job.stage == JobStage::Preparing,
        job.task == TaskView::Add(name) || job.task == TaskView::Remove(name),
        job.steps.len() == 3,
    ensures
        ({
            let outcome = next(job, JobEvent::Done(Ok(())), stopping);
            &&& outcome.job.stage == JobStage::FindingPnpm
            &&& outcome.actions.len() == 2
            &&& outcome.actions[1] == JobActionView::FindPnpm
            &&& outcome.actions[0] matches JobActionView::Report(report)
            &&& report.message == "正在处理插件 "@ + name + "。"@
            &&& report.steps[0].status == StepStatus::Active
            &&& report.steps[0].detail == "正在准备 pnpm"@
        }),
{
}

/// A failure, at whatever stage: before the restart the job ends with the reason,
/// gives way, and lets a stopped runtime run again; at the restart the last step
/// shows the reason.
pub proof fn a_failed_job_says_why(job: JobView, error: String, stopping: bool)
    requires
        job.stage != JobStage::Ended,
        job.stage != JobStage::ReadingEntries,
    ensures
        ({
            let outcome = next(job, JobEvent::Done(Err(error)), stopping);
            &&& outcome.job.stage == JobStage::Ended
            &&& outcome.actions[0] matches JobActionView::Report(report)
            &&& report.phase == UpdatePhase::Failed
            &&& report.message == error@
            &&& report.available_version is None
            &&& job.stage == JobStage::Restarting ==> {
                &&& outcome.actions.len() == 1
                &&& job.steps.len() > 0 ==> report.steps.last().status == StepStatus::Failed
                    && report.steps.last().detail == error@
            }
            &&& job.stage != JobStage::Restarting ==> {
                &&& outcome.actions[1] == JobActionView::Finish
                &&& stopping ==> outcome.actions == seq![
                    outcome.actions[0],
                    JobActionView::Finish,
                    JobActionView::Resume,
                ]
                &&& !stopping ==> outcome.actions.len() == 2
                &&& report.steps.len() == labels_of(job.task).len()
                &&& forall|i: int|
                    0 <= i < report.steps.len() ==> (#[trigger] report.steps[i]).status
                        == StepStatus::Skipped && report.steps[i].label == labels_of(job.task)[i]
            }
        }),
{
}

/// What has not been asked for changes nothing; and a restart that could be asked
/// for ends the job in silence.
pub proof fn a_job_ignores_what_it_did_not_ask(job: JobView, event: JobEvent, stopping: bool)
    ensures
        job.stage == JobStage::Ended || job.stage == JobStage::ReadingEntries && event is Done
            || job.stage != JobStage::ReadingEntries && event is Entries || job.stage
            != JobStage::FindingPnpm && event is Note ==> next(job, event, stopping) == (
        JobOutcome { job, actions: Seq::empty() }),
        job.stage == JobStage::Restarting && event == JobEvent::Done(Ok(())) ==> next(
            job,
            event,
            stopping,
        ) == (JobOutcome {
            job: JobView { stage: JobStage::Ended, ..job },
            actions: Seq::empty(),
        }),
{
}

/// However a job is stepped: a paused runtime lets the very command of the task
/// run, a removal for a removal and an addition for an addition.
pub proof fn a_step_runs_the_command_of_its_task()
    ensures
        forall|job: &mut PluginJob, stopping: bool, r: Vec<JobAction>|
            #[trigger] call_ensures(
                PluginJob::step,
                (job, JobEvent::Done(Ok(())), stopping),
                r,
            ) && (*job)@.stage == JobStage::Pausing && ((*job)@.task is Add || (*job)@.task
                is Remove) ==> {
                &&& r@.len() == 1
                &&& r@[0] matches JobAction::Run(arguments)
                &&& (*job)@.task matches TaskView::Add(spec) ==> text::texts(arguments@) == seq![
                    "plugin"@,
                    "--profile"@,
                    "web"@,
                    "add"@,
                    spec,
                ]
                &&& (*job)@.task matches TaskView::Remove(name) ==> text::texts(arguments@)
                    == seq!["plugin"@, "--profile"@, "web"@, "remove"@, name]
            },
{
    assert forall|job: &mut PluginJob, stopping: bool, r: Vec<JobAction>|
        #[trigger] call_ensures(PluginJob::step, (job, JobEvent::Done(Ok(())), stopping), r)
            && (*job)@.stage == JobStage::Pausing && ((*job)@.task is Add || (*job)@.task
            is Remove) implies {
            &&& r@.len() == 1
            &&& r@[0] matches JobAction::Run(arguments)
            &&& (*job)@.task matches TaskView::Add(spec) ==> text::texts(arguments@) == seq![
                "plugin"@,
                "--profile"@,
                "web"@,
                "add"@,
                spec,
            ]
            &&& (*job)@.task matches TaskView::Remove(name) ==> text::texts(arguments@) == seq![
                "plugin"@,
                "--profile"@,
                "web"@,
                "remove"@,
                name,
            ]
        } by {
        a_task_runs_its_own_command((*job)@, stopping);
        let actions = next((*job)@, JobEvent::Done(Ok(())), stopping).actions;
        assert(actions == actions_view(r@));
        assert(actions.len() == r@.len());
        assert(actions[0] == r@[0]@);
    }
}

/// A text is submitted for the task that was asked for: an addition takes the whole
/// spec, every other task its name; a text that is no spec is refused with its
/// error.
pub proof fn a_text_is_submitted_for_its_task(
    spec: &str,
    enabled: bool,
    added: Result<PluginTask, String>,
    removed: Result<PluginTask, String>,
    toggled: Result<PluginTask, String>,
)
    requires
        call_ensures(submit_add, (spec,), added),
        call_ensures(submit_remove, (spec,), removed),
        call_ensures(submit_set_enabled, (spec, enabled), toggled),
    ensures
        plugin_spec::parsed(spec@) matches Ok(package) ==> {
            &&& added matches Ok(PluginTask::Add(own)) && own@ == package
            &&& plugin_spec::name_of(spec@) matches Ok(name)
            &&& removed matches Ok(PluginTask::Remove(first)) && first@ == name
            &&& enabled ==> (toggled matches Ok(PluginTask::Enable(second)) && second@ == name)
            &&& !enabled ==> (toggled matches Ok(PluginTask::Disable(third)) && third@ == name)
        },
        plugin_spec::parsed(spec@) matches Err(message) ==> {
            &&& added matches Err(first) && first@ == message
            &&& removed matches Err(second) && second@ == message
            &&& toggled matches Err(third) && third@ == message
        },
{
}

/// An addition can always begin; any other task needs a plugin of that name.
pub proof fn a_task_needs_its_plugin(task: &PluginTask, installed: &Vec<UserPlugin>, r: bool)
    requires
        call_ensures(can_begin, (task, installed), r),
    ensures
        *task is Add ==> r,
        !(*task is Add) ==> (r <==> exists|i: int|
            0 <= i < installed@.len() && (#[trigger] installed@[i]).name@ == subject(task@)),
{
    let shown = plugins::plugins_view(installed@);
    if plugins::has_plugin(shown, subject(task@)) {
        let i = choose|i: int|
            0 <= i < shown.len() && (#[trigger] shown[i]).name == subject(task@);
        assert(installed@[i].name@ == subject(task@));
    }
    if exists|i: int|
        0 <= i < installed@.len() && (#[trigger] installed@[i]).name@ == subject(task@) {
        let i = choose|i: int|
            0 <= i < installed@.len() && (#[trigger] installed@[i]).name@ == subject(task@);
        assert(shown[i].name == subject(task@));
    }
}

/// What a task is about is what it was made of.
pub proof fn a_task_is_about_its_name(name: Seq<char>)
    ensures
        subject(TaskView::Add(name)) == name,
        subject(TaskView::Remove(name)) == name,
        subject(TaskView::Enable(name)) == name,
        subject(TaskView::Disable(name)) == name,
{
}

/// A job begins with a word on what it does, in the phase of its task.
pub proof fn a_job_says_what_it_does(task: PluginTask, r: (PluginJob, UpdateReport))
    requires
        call_ensures(PluginJob::begin, (task,), r),
    ensures
        r.0@.task == task@,
        r.0@.stage == JobStage::Preparing,
        r.1.available_version is None,
        r.1@.steps == r.0@.steps,
        task matches PluginTask::Add(spec) ==> r.1.phase == UpdatePhase::PluginInstalling
            && r.1.message@ == "正在添加插件 "@ + spec@ + "。"@,
        task matches PluginTask::Remove(name) ==> r.1.phase == UpdatePhase::PluginRemoving
            && r.1.message@ == "正在删除插件 "@ + name@ + "。"@,
        task matches PluginTask::Enable(name) ==> r.1.phase == UpdatePhase::PluginToggling
            && r.1.message@ == "正在启用插件 "@ + name@ + "。"@,
        task matches PluginTask::Disable(name) ==> r.1.phase == UpdatePhase::PluginToggling
            && r.1.message@ == "正在停用插件 "@ + name@ + "。"@,
{
}

} // verus!
