//! What the runtime shows of itself: its phase, its address and its log.

use vstd::prelude::*;
use vstd::string::*;

use crate::steps;
use crate::steps::ReportView;
use crate::steps::StepView;
use crate::steps::UpdatePhase;
use crate::steps::UpdateReport;
use crate::steps::UpdateStep;
use crate::text;

verus! {

/// The DSH version that is installed with the desktop.
pub const BUNDLED_DSH_VERSION: &'static str = "0.1.0-rc.6";

/// The Node version that is installed with the desktop.
pub const BUNDLED_NODE_VERSION: &'static str = "22.23.2";

/// The package that is started where nothing else is asked for.
pub const OFFICIAL_DSH_PACKAGE: &'static str = "@deepseek-ai/dsh@0.1.0-rc.6";

/// How many seconds a start may take where nothing else is asked for.
pub const DEFAULT_STARTUP_TIMEOUT_SECS: u64 = 300;

/// How many lines of the log are kept.
pub const MAX_LOG_LINES: usize = 180;

/// Where the runtime stands.
#[derive(Clone, Copy, Debug, PartialEq, Eq, Structural)]
pub enum RuntimePhase {
    Starting,
    Ready,
    Failed,
    Stopping,
    Stopped,
}

/// The state of the runtime and of the job that works on it, as the user
/// sees it.
#[derive(Debug)]
pub struct RuntimeSnapshot {
    pub phase: RuntimePhase,
    pub message: String,
    pub package_spec: String,
    pub dsh_version: String,
    pub runtime_source: String,
    pub url: Option<String>,
    pub pid: Option<u32>,
    pub recent_logs: Vec<String>,
    pub update_phase: UpdatePhase,
    pub update_message: String,
    pub available_version: Option<String>,
    pub update_bytes_read: u64,
    pub update_bytes_total: u64,
    pub update_steps: Vec<UpdateStep>,
}

/// What a `RuntimeSnapshot` says.
#[verifier::ext_equal]
pub struct SnapshotView {
    pub phase: RuntimePhase,
    pub message: Seq<char>,
    pub package_spec: Seq<char>,
    pub dsh_version: Seq<char>,
    pub runtime_source: Seq<char>,
    pub url: Option<Seq<char>>,
    pub pid: Option<u32>,
    pub recent_logs: Seq<Seq<char>>,
    pub update_phase: UpdatePhase,
    pub update_message: Seq<char>,
    pub available_version: Option<Seq<char>>,
    pub update_bytes_read: u64,
    pub update_bytes_total: u64,
    pub update_steps: Seq<StepView>,
}

impl View for RuntimeSnapshot {
    type V = SnapshotView;

    open spec fn view(&self) -> SnapshotView {
        SnapshotView {
            phase: self.phase,
            message: self.message@,
            package_spec: self.package_spec@,
            dsh_version: self.dsh_version@,
            runtime_source: self.runtime_source@,
            url: text::text_opt(self.url),
            pid: self.pid,
            recent_logs: text::texts(self.recent_logs@),
            update_phase: self.update_phase,
            update_message: self.update_message@,
            available_version: text::text_opt(self.available_version),
            update_bytes_read: self.update_bytes_read,
            update_bytes_total: self.update_bytes_total,
            update_steps: steps::steps_view(self.update_steps@),
        }
    }
}

impl Clone for RuntimeSnapshot {
    fn clone(&self) -> (r: Self)
        ensures
            r@ == self@,
    {
        RuntimeSnapshot {
            phase: self.phase,
            message: self.message.clone(),
            package_spec: self.package_spec.clone(),
            dsh_version: self.dsh_version.clone(),
            runtime_source: self.runtime_source.clone(),
            url: text::copy_opt(&self.url),
            pid: self.pid,
            recent_logs: text::copy_list(&self.recent_logs),
            update_phase: self.update_phase,
            update_message: self.update_message.clone(),
            available_version: text::copy_opt(&self.available_version),
            update_bytes_read: self.update_bytes_read,
            update_bytes_total: self.update_bytes_total,
            update_steps: steps::copy_steps(&self.update_steps),
        }
    }
}

/// A snapshot before the runtime has been started.
pub open spec fn initial_snapshot(package_spec: Seq<char>) -> SnapshotView {
    SnapshotView {
        phase: RuntimePhase::Starting,
        message: "正在准备官方 DSH 运行时。"@,
        package_spec,
        dsh_version: Seq::empty(),
        runtime_source: Seq::empty(),
        url: None,
        pid: None,
        recent_logs: Seq::empty(),
        update_phase: UpdatePhase::Idle,
        update_message: Seq::empty(),
        available_version: None,
        update_bytes_read: 0,
        update_bytes_total: 0,
        update_steps: Seq::empty(),
    }
}

/// A log with one more line, cut to the lines that are kept.
pub open spec fn logged(logs: Seq<Seq<char>>, line: Seq<char>) -> Seq<Seq<char>> {
    let all = logs.push(line);
    if all.len() > MAX_LOG_LINES {
        all.skip(all.len() - MAX_LOG_LINES)
    } else {
        all
    }
}

/// A snapshot with one more line in its log.
pub open spec fn with_log(snapshot: SnapshotView, line: Seq<char>) -> SnapshotView {
    SnapshotView { recent_logs: logged(snapshot.recent_logs, line), ..snapshot }
}

/// A snapshot of a runtime that failed.
pub open spec fn failed(snapshot: SnapshotView, message: Seq<char>) -> SnapshotView {
    SnapshotView {
        phase: RuntimePhase::Failed,
        message,
        url: None,
        pid: None,
        ..with_log(snapshot, "[desktop] "@ + message)
    }
}

/// A snapshot with what a job reports.
pub open spec fn with_report(snapshot: SnapshotView, report: ReportView) -> SnapshotView {
    SnapshotView {
        update_phase: report.phase,
        update_message: report.message,
        available_version: report.available_version,
        update_steps: report.steps,
        ..snapshot
    }
}

impl RuntimeSnapshot {
    /// The snapshot before the runtime has been started.
    pub fn initial(package_spec: String) -> (r: Self)
        ensures
            r@ == initial_snapshot(package_spec@),
    {
        let r = RuntimeSnapshot {
            phase: RuntimePhase::Starting,
            message: "正在准备官方 DSH 运行时。".to_string(),
            package_spec,
            dsh_version: String::new(),
            runtime_source: String::new(),
            url: None,
            pid: None,
            recent_logs: Vec::new(),
            update_phase: UpdatePhase::Idle,
            update_message: String::new(),
            available_version: None,
            update_bytes_read: 0,
            update_bytes_total: 0,
            update_steps: Vec::new(),
        };
        assert(r@ =~= initial_snapshot(package_spec@));
        r
    }

    /// Adds a line to the log and drops the oldest lines beyond the limit.
    pub fn push_log(&mut self, line: String)
        ensures
            final(self)@ == with_log(old(self)@, line@),
    {
        let ghost before = text::texts(self.recent_logs@);
        let ghost all = before.push(line@);
        self.recent_logs.push(line);
        assert(text::texts(self.recent_logs@) =~= all.skip(0));
        let ghost mut gone: int = 0;
        while self.recent_logs.len() > MAX_LOG_LINES
            invariant
                0 <= gone <= all.len(),
                self.recent_logs@.len() == all.len() - gone,
                text::texts(self.recent_logs@) == all.skip(gone),
                gone > 0 ==> all.len() - gone >= MAX_LOG_LINES,
                self@ == (SnapshotView { recent_logs: all.skip(gone), ..old(self)@ }),
            decreases self.recent_logs@.len(),
        {
            let ghost was = self.recent_logs@;
            self.recent_logs.remove(0);
            proof {
                assert forall|k: int| 0 <= k < self.recent_logs@.len() implies (
                #[trigger] self.recent_logs@[k])@ == all.skip(gone)[k + 1] by {
                    assert(text::texts(was)[k + 1] == was[k + 1]@);
                }
                gone = gone + 1;
            }
            assert(text::texts(self.recent_logs@) =~= all.skip(gone));
        }
        assert(text::texts(self.recent_logs@).len() == self.recent_logs@.len());
        assert(all.skip(gone) =~= logged(before, line@));
    }

    /// Records a failure of the runtime: in the log, in the phase and in the
    /// message.
    pub fn fail(&mut self, message: String)
        ensures
            final(self)@ == failed(old(self)@, message@),
    {
        let mut line = "[desktop] ".to_string();
        line.append(message.as_str());
        self.push_log(line);
        self.phase = RuntimePhase::Failed;
        self.message = message;
        self.url = None;
        self.pid = None;
    }

    /// Shows what a job reports.
    pub fn set_update_flow(&mut self, report: UpdateReport)
        ensures
            final(self)@ == with_report(old(self)@, report@),
    {
        self.update_phase = report.phase;
        self.update_message = report.message;
        self.available_version = report.available_version;
        self.update_steps = report.steps;
    }
}

/// A log never grows beyond its limit, its last line is the newest, and a log
/// below the limit loses nothing.
pub proof fn log_is_bounded(logs: Seq<Seq<char>>, line: Seq<char>)
    ensures
        logged(logs, line).len() <= MAX_LOG_LINES,
        logged(logs, line).last() == line,
        logs.len() < MAX_LOG_LINES ==> logged(logs, line) == logs.push(line),
        forall|k: int|
            0 <= k < logged(logs, line).len() ==> (#[trigger] logged(logs, line)[k]) == logs.push(
                line,
            )[logs.len() + 1 - logged(logs, line).len() + k],
{
}

/// A log grows by the new line and keeps the newest hundred and eighty lines,
/// in their order.
pub proof fn log_keeps_the_newest_lines(logs: Seq<Seq<char>>, line: Seq<char>)
    ensures
        logs.len() < 180 ==> logged(logs, line) == logs.push(line),
        logs.len() >= 180 ==> logged(logs, line).len() == 180 && logged(logs, line) == logs.skip(
            logs.len() - 179,
        ).push(line),
{
    if logs.len() >= 180 {
        assert(logged(logs, line) =~= logs.skip(logs.len() - 179).push(line));
    }
}

/// A line of the log changes the log alone.
pub proof fn a_line_changes_the_log_alone(snapshot: SnapshotView, line: Seq<char>)
    ensures
        with_log(snapshot, line) == (SnapshotView {
            recent_logs: with_log(snapshot, line).recent_logs,
            ..snapshot
        }),
        snapshot.recent_logs.len() < 180 ==> with_log(snapshot, line).recent_logs
            == snapshot.recent_logs.push(line),
        with_log(snapshot, line).recent_logs.len() > 0,
        with_log(snapshot, line).recent_logs.last() == line,
{
}

/// A failure is shown in the phase, the message and the log, takes the address
/// and the process away, and leaves what a job has reported as it is.
pub proof fn a_failure_is_shown(snapshot: SnapshotView, message: Seq<char>)
    ensures
        ({
            let r = failed(snapshot, message);
            &&& r.phase == RuntimePhase::Failed
            &&& r.message == message
            &&& r.url is None
            &&& r.pid is None
            &&& r.recent_logs.len() > 0
            &&& r.recent_logs.last() == "[desktop] "@ + message
            &&& snapshot.recent_logs.len() < 180 ==> r.recent_logs == snapshot.recent_logs.push(
                "[desktop] "@ + message,
            )
            &&& r.package_spec == snapshot.package_spec
            &&& r.dsh_version == snapshot.dsh_version
            &&& r.runtime_source == snapshot.runtime_source
            &&& r.update_phase == snapshot.update_phase
            &&& r.update_message == snapshot.update_message
            &&& r.available_version == snapshot.available_version
            &&& r.update_steps == snapshot.update_steps
            &&& r.update_bytes_read == snapshot.update_bytes_read
            &&& r.update_bytes_total == snapshot.update_bytes_total
        }),
{
}

/// A report of a job is shown as it is, and changes nothing that is shown of
/// the runtime.
pub proof fn a_report_is_shown(snapshot: SnapshotView, report: ReportView)
    ensures
        ({
            let r = with_report(snapshot, report);
            &&& r.update_phase == report.phase
            &&& r.update_message == report.message
            &&& r.available_version == report.available_version
            &&& r.update_steps == report.steps
            &&& r.phase == snapshot.phase
            &&& r.message == snapshot.message
            &&& r.package_spec == snapshot.package_spec
            &&& r.dsh_version == snapshot.dsh_version
            &&& r.runtime_source == snapshot.runtime_source
            &&& r.url == snapshot.url
            &&& r.pid == snapshot.pid
            &&& r.recent_logs == snapshot.recent_logs
            &&& r.update_bytes_read == snapshot.update_bytes_read
            &&& r.update_bytes_total == snapshot.update_bytes_total
        }),
{
}

/// Before its start a runtime shows that it is being prepared, and nothing
/// else but the package that it will be started from.
pub proof fn nothing_is_shown_before_the_start(package_spec: Seq<char>)
    ensures
        ({
            let r = initial_snapshot(package_spec);
            &&& r.phase == RuntimePhase::Starting
            &&& r.message == "正在准备官方 DSH 运行时。"@
            &&& r.package_spec == package_spec
            &&& r.url is None
            &&& r.pid is None
            &&& r.recent_logs.len() == 0
            &&& r.dsh_version.len() == 0
            &&& r.runtime_source.len() == 0
            &&& r.update_phase == UpdatePhase::Idle
            &&& r.update_message.len() == 0
            &&& r.available_version is None
            &&& r.update_steps.len() == 0
            &&& r.update_bytes_read == 0
            &&& r.update_bytes_total == 0
        }),
{
}

} // verus!
