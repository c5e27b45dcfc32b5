//! The supervisor of the runtime process.
//!
//! The supervisor decides; its caller acts. Every call of [`Supervisor::step`]
//! takes what has happened and gives back what is to be done, ending with the
//! one question whose answer is the next event.

use vstd::prelude::*;
use vstd::string::*;

use crate::runtime;
use crate::runtime::RuntimePhase;
use crate::runtime::RuntimeSnapshot;
use crate::runtime::SnapshotView;
use crate::steps::ReportView;
use crate::text;

verus! {

/// What the supervisor waits for.
#[derive(Clone, Copy, Debug, PartialEq, Eq, Structural)]
pub enum Stage {
    /// A command, or the end of the pause in which none came.
    Command,
    /// The end of the process that makes way for a new one.
    Restarting,
    /// The end of the process that makes way for a job.
    Pausing,
    /// The end of the process before the supervisor itself ends.
    ShuttingDown,
    /// The end of the process after nobody is left to send a command.
    Leaving,
    /// A free port.
    Port,
    /// The new process.
    Spawn,
    /// Whether the process still runs.
    Poll,
    /// Whether the server answers.
    Probe,
    /// The end of a process that took too long to start.
    TimingOut,
    /// Nothing: the supervisor has ended.
    Ended,
}

/// What has happened.
#[derive(Debug)]
pub enum Event {
    /// A restart is asked for.
    Restart,
    /// A pause is asked for.
    Pause,
    /// The end is asked for.
    Shutdown,
    /// Nobody is left to send a command.
    Disconnected,
    /// No command came.
    Quiet,
    /// The process has been ended.
    Terminated,
    /// A free port has been found, or why none was.
    PortChosen(Result<u16, String>),
    /// The process has been started, with its number, or why it was not.
    Spawned(Result<u32, String>),
    /// The process has ended by itself, with this status.
    Exited(String),
    /// The process runs.
    Alive,
    /// The process could not be asked, with the reason.
    Unreadable(String),
    /// Whether the server answered, whether the process has announced itself,
    /// and the whole seconds since its start.
    Probed { http_ready: bool, announced: bool, elapsed_secs: u64 },
}

/// What is to be done.
#[derive(Clone, Copy, Debug, PartialEq, Eq, Structural)]
pub enum Action {
    /// Wait for a command.
    AwaitCommand,
    /// End the process.
    Terminate,
    /// Forget that the process has announced itself.
    ClearAnnouncement,
    /// Show the landing page.
    ShowLanding,
    /// Show the page of the runtime.
    ShowRuntime,
    /// Tell the sender of the last command that it has been carried out.
    Acknowledge,
    /// Find a free port.
    ChoosePort,
    /// Start the process on this port.
    Spawn(u16),
    /// Ask whether the process still runs.
    PollProcess,
    /// Ask whether the server answers on this port.
    ProbeServer(u16),
    /// End the supervisor.
    Stop,
}

/// The supervisor of one runtime.
#[derive(Debug)]
pub struct Supervisor {
    description: String,
    program: String,
    startup_timeout_secs: u64,
    stage: Stage,
    running: bool,
    port: u16,
    ready: bool,
    http_ready_streak: u8,
    launch_requested: bool,
}

/// What a `Supervisor` knows.
#[verifier::ext_equal]
pub struct SupervisorView {
    /// How the runtime is started, in words.
    pub description: Seq<char>,
    /// The program that is started.
    pub program: Seq<char>,
    pub startup_timeout_secs: u64,
    pub stage: Stage,
    /// There is a process.
    pub running: bool,
    pub port: u16,
    /// The present process has been found ready.
    pub ready: bool,
    /// How many probes in a row the server has answered.
    pub http_ready_streak: u8,
    /// A process is to be started.
    pub launch_requested: bool,
}

impl View for Supervisor {
    type V = SupervisorView;

    closed spec fn view(&self) -> SupervisorView {
        SupervisorView {
            description: self.description@,
            program: self.program@,
            startup_timeout_secs: self.startup_timeout_secs,
            stage: self.stage,
            running: self.running,
            port: self.port,
            ready: self.ready,
            http_ready_streak: self.http_ready_streak,
            launch_requested: self.launch_requested,
        }
    }
}

// ---------------------------------------------------------------------------
// The model
// ---------------------------------------------------------------------------
/// Whether a server is taken to be up: three good probes in a row after the
/// process announced itself, or five after three seconds.
pub open spec fn gate_opens(http_ready_streak: u8, announced: bool, elapsed_secs: u64) -> bool {
    ||| announced && http_ready_streak >= 3
    ||| elapsed_secs >= 3 && http_ready_streak >= 5
}

/// The address of the runtime on a port.
pub open spec fn address(port: u16) -> Seq<char> {
    "http://127.0.0.1:"@ + text::decimal(port as nat)
}

/// The number of good probes in a row after one more probe.
pub open spec fn streak_after(streak: u8, http_ready: bool) -> u8 {
    if !http_ready {
        0
    } else if streak == u8::MAX {
        streak
    } else {
        (streak + 1) as u8
    }
}

/// A supervisor before its first event.
pub open spec fn fresh(
    description: Seq<char>,
    program: Seq<char>,
    startup_timeout_secs: u64,
) -> SupervisorView {
    SupervisorView {
        description,
        program,
        startup_timeout_secs,
        stage: Stage::Command,
        running: false,
        port: 0,
        ready: false,
        http_ready_streak: 0,
        launch_requested: true,
    }
}

/// Whether an event answers the question that the supervisor asked last.
pub open spec fn expected(stage: Stage, event: Event) -> bool {
    match event {
        Event::Restart | Event::Pause | Event::Shutdown | Event::Disconnected | Event::Quiet =>
        stage == Stage::Command,
        Event::Terminated => {
            ||| stage == Stage::Restarting
            ||| stage == Stage::Pausing
            ||| stage == Stage::ShuttingDown
            ||| stage == Stage::Leaving
            ||| stage == Stage::TimingOut
        },
        Event::PortChosen(_) => stage == Stage::Port,
        Event::Spawned(_) => stage == Stage::Spawn,
        Event::Exited(_) | Event::Alive | Event::Unreadable(_) => stage == Stage::Poll,
        Event::Probed { .. } => stage == Stage::Probe,
    }
}

/// The supervisor, the snapshot and the actions after an event.
#[verifier::ext_equal]
pub struct Outcome {
    pub supervisor: SupervisorView,
    pub snapshot: SnapshotView,
    pub actions: Seq<Action>,
}

/// What follows when a command has been dealt with: a start where one is due,
/// a look at the process where there is one, else the next command.
pub open spec fn proceeded(
    supervisor: SupervisorView,
    snapshot: SnapshotView,
    actions: Seq<Action>,
) -> Outcome {
    if supervisor.launch_requested {
        Outcome {
            supervisor: SupervisorView {
                stage: Stage::Port,
                ready: false,
                http_ready_streak: 0,
                launch_requested: false,
                ..supervisor
            },
            snapshot,
            actions: actions + seq![Action::ClearAnnouncement, Action::ChoosePort],
        }
    } else if supervisor.running {
        Outcome {
            supervisor: SupervisorView { stage: Stage::Poll, ..supervisor },
            snapshot,
            actions: actions + seq![Action::PollProcess],
        }
    } else {
        Outcome {
            supervisor: SupervisorView { stage: Stage::Command, ..supervisor },
            snapshot,
            actions: actions + seq![Action::AwaitCommand],
        }
    }
}

/// The process is being ended, for the reason that the stage gives.
pub open spec fn terminating(
    supervisor: SupervisorView,
    stage: Stage,
    snapshot: SnapshotView,
) -> Outcome {
    Outcome {
        supervisor: SupervisorView { stage, running: false, ..supervisor },
        snapshot,
        actions: seq![Action::Terminate],
    }
}

/// The old process is gone and a new one is due.
pub open spec fn restarted(supervisor: SupervisorView, snapshot: SnapshotView) -> Outcome {
    proceeded(
        SupervisorView {
            running: false,
            ready: false,
            http_ready_streak: 0,
            launch_requested: true,
            ..supervisor
        },
        snapshot,
        seq![Action::ClearAnnouncement, Action::ShowLanding],
    )
}

/// The process is gone and none is due until a restart.
pub open spec fn paused(supervisor: SupervisorView, snapshot: SnapshotView) -> Outcome {
    Outcome {
        supervisor: SupervisorView {
            stage: Stage::Command,
            running: false,
            launch_requested: false,
            ..supervisor
        },
        snapshot: SnapshotView { url: None, pid: None, ..snapshot },
        actions: seq![Action::Acknowledge, Action::AwaitCommand],
    }
}

/// The process is gone and so is the supervisor.
pub open spec fn stopped(supervisor: SupervisorView, snapshot: SnapshotView) -> Outcome {
    Outcome {
        supervisor: SupervisorView { stage: Stage::Ended, running: false, ..supervisor },
        snapshot: SnapshotView {
            phase: RuntimePhase::Stopped,
            message: "DSH 已关闭。"@,
            pid: None,
            ..snapshot
        },
        actions: seq![Action::Acknowledge, Action::Stop],
    }
}

/// Nobody is left to serve.
pub open spec fn left(supervisor: SupervisorView, snapshot: SnapshotView) -> Outcome {
    Outcome {
        supervisor: SupervisorView { stage: Stage::Ended, running: false, ..supervisor },
        snapshot,
        actions: seq![Action::Stop],
    }
}

/// There is no process, and the user is told why.
pub open spec fn gave_up(
    supervisor: SupervisorView,
    snapshot: SnapshotView,
    message: Seq<char>,
) -> Outcome {
    Outcome {
        supervisor: SupervisorView { stage: Stage::Command, running: false, ..supervisor },
        snapshot: runtime::failed(snapshot, message),
        actions: seq![Action::ShowLanding, Action::AwaitCommand],
    }
}

/// What a free port, or the lack of one, leads to.
pub open spec fn port_chosen(
    supervisor: SupervisorView,
    snapshot: SnapshotView,
    chosen: Result<u16, String>,
) -> Outcome {
    match chosen {
        Ok(port) => Outcome {
            supervisor: SupervisorView { stage: Stage::Spawn, port, ..supervisor },
            snapshot: SnapshotView {
                phase: RuntimePhase::Starting,
                message: "正在通过"@ + supervisor.description + "启动。"@,
                url: None,
                pid: None,
                recent_logs: Seq::empty(),
                ..snapshot
            },
            actions: seq![Action::Spawn(port)],
        },
        Err(error) => gave_up(supervisor, snapshot, "无法选择本地端口："@ + error@),
    }
}

/// What a started process, or a start that failed, leads to.
pub open spec fn spawned(
    supervisor: SupervisorView,
    snapshot: SnapshotView,
    started: Result<u32, String>,
) -> Outcome {
    match started {
        Ok(pid) => Outcome {
            supervisor: SupervisorView { stage: Stage::Poll, running: true, ..supervisor },
            snapshot: SnapshotView { pid: Some(pid), ..snapshot },
            actions: seq![Action::PollProcess],
        },
        Err(error) => gave_up(
            supervisor,
            snapshot,
            "无法执行 "@ + supervisor.program + "："@ + error@,
        ),
    }
}

/// What a probe leads to: the runtime is ready, or it has had its time, or
/// the next command is awaited.
pub open spec fn probed(
    supervisor: SupervisorView,
    snapshot: SnapshotView,
    http_ready: bool,
    announced: bool,
    elapsed_secs: u64,
) -> Outcome {
    let streak = streak_after(supervisor.http_ready_streak, http_ready);
    let counted = SupervisorView { http_ready_streak: streak, ..supervisor };
    if gate_opens(streak, announced, elapsed_secs) {
        Outcome {
            supervisor: SupervisorView { stage: Stage::Command, ready: true, ..counted },
            snapshot: SnapshotView {
                phase: RuntimePhase::Ready,
                message: "官方 DSH Web UI 已就绪。"@,
                url: Some(address(supervisor.port)),
                ..snapshot
            },
            actions: seq![Action::ShowRuntime, Action::AwaitCommand],
        }
    } else if elapsed_secs >= supervisor.startup_timeout_secs {
        terminating(counted, Stage::TimingOut, snapshot)
    } else {
        Outcome {
            supervisor: SupervisorView { stage: Stage::Command, ..counted },
            snapshot,
            actions: seq![Action::AwaitCommand],
        }
    }
}

/// What an event leads to. An event that nobody asked for changes nothing.
pub open spec fn next(
    supervisor: SupervisorView,
    snapshot: SnapshotView,
    event: Event,
) -> Outcome {
    if !expected(supervisor.stage, event) {
        Outcome { supervisor, snapshot, actions: Seq::empty() }
    } else {
        match event {
            Event::Quiet => proceeded(supervisor, snapshot, Seq::empty()),
            Event::Restart => if supervisor.running {
                terminating(supervisor, Stage::Restarting, snapshot)
            } else {
                restarted(supervisor, snapshot)
            },
            Event::Pause => {
                let pausing = SnapshotView { phase: RuntimePhase::Stopping, ..snapshot };
                if supervisor.running {
                    terminating(supervisor, Stage::Pausing, pausing)
                } else {
                    paused(supervisor, pausing)
                }
            },
            Event::Shutdown => {
                let stopping = SnapshotView {
                    phase: RuntimePhase::Stopping,
                    message: "正在关闭 DSH。"@,
                    ..snapshot
                };
                if supervisor.running {
                    terminating(supervisor, Stage::ShuttingDown, stopping)
                } else {
                    stopped(supervisor, stopping)
                }
            },
            Event::Disconnected => if supervisor.running {
                terminating(supervisor, Stage::Leaving, snapshot)
            } else {
                left(supervisor, snapshot)
            },
            Event::Terminated => match supervisor.stage {
                Stage::Restarting => restarted(supervisor, snapshot),
                Stage::Pausing => paused(supervisor, snapshot),
                Stage::ShuttingDown => stopped(supervisor, snapshot),
                Stage::Leaving => left(supervisor, snapshot),
                _ => gave_up(
                    supervisor,
                    snapshot,
                    "DSH 在 "@ + text::decimal(supervisor.startup_timeout_secs as nat)
                        + " 秒内没有完成启动。"@,
                ),
            },
            Event::PortChosen(chosen) => port_chosen(supervisor, snapshot, chosen),
            Event::Spawned(started) => spawned(supervisor, snapshot, started),
            Event::Exited(status) => gave_up(
                supervisor,
                snapshot,
                if supervisor.ready {
                    "DSH 运行时意外退出："@ + status@
                } else {
                    "DSH 未完成启动："@ + status@
                },
            ),
            Event::Unreadable(error) => gave_up(
                supervisor,
                snapshot,
                "无法读取 DSH 进程状态："@ + error@,
            ),
            Event::Alive => if supervisor.ready {
                Outcome {
                    supervisor: SupervisorView { stage: Stage::Command, ..supervisor },
                    snapshot,
                    actions: seq![Action::AwaitCommand],
                }
            } else {
                Outcome {
                    supervisor: SupervisorView { stage: Stage::Probe, ..supervisor },
                    snapshot,
                    actions: seq![Action::ProbeServer(supervisor.port)],
                }
            },
            Event::Probed { http_ready, announced, elapsed_secs } => probed(
                supervisor,
                snapshot,
                http_ready,
                announced,
                elapsed_secs,
            ),
        }
    }
}

// ---------------------------------------------------------------------------
// The machine
// ---------------------------------------------------------------------------
/// Whether a server is taken to be up.
pub fn readiness_gate(http_ready_streak: u8, announced: bool, elapsed_secs: u64) -> (r: bool)
    ensures
        r == gate_opens(http_ready_streak, announced, elapsed_secs),
{
    (announced && http_ready_streak >= 3) || (elapsed_secs >= 3 && http_ready_streak >= 5)
}

/// The address of the runtime on a port.
pub fn runtime_url(port: u16) -> (r: String)
    ensures
        r@ == address(port),
{
    let mut url = "http://127.0.0.1:".to_string();
    url.append(text::decimal_text(port as u64).as_str());
    url
}

impl Supervisor {
    /// A supervisor that starts the runtime at the first opportunity.
    pub fn new(description: String, program: String, startup_timeout_secs: u64) -> (r: Self)
        ensures
            r@ == fresh(description@, program@, startup_timeout_secs),
    {
        Supervisor {
            description,
            program,
            startup_timeout_secs,
            stage: Stage::Command,
            running: false,
            port: 0,
            ready: false,
            http_ready_streak: 0,
            launch_requested: true,
        }
    }

    /// What the supervisor waits for.
    pub fn stage(&self) -> (r: Stage)
        ensures
            r == self@.stage,
    {
        self.stage
    }

    fn expects(&self, event: &Event) -> (r: bool)
        ensures
            r == expected(self@.stage, *event),
    {
        match event {
            Event::Restart | Event::Pause | Event::Shutdown | Event::Disconnected
            | Event::Quiet => self.stage == Stage::Command,
            Event::Terminated => self.stage == Stage::Restarting || self.stage == Stage::Pausing
                || self.stage == Stage::ShuttingDown || self.stage == Stage::Leaving || self.stage
                == Stage::TimingOut,
            Event::PortChosen(_) => self.stage == Stage::Port,
            Event::Spawned(_) => self.stage == Stage::Spawn,
            Event::Exited(_) | Event::Alive | Event::Unreadable(_) => self.stage == Stage::Poll,
            Event::Probed { .. } => self.stage == Stage::Probe,
        }
    }

    fn proceed(&mut self, actions: &mut Vec<Action>)
        ensures
            forall|snapshot: SnapshotView|
                (Outcome { supervisor: final(self)@, snapshot, actions: final(actions)@ })
                    == #[trigger] proceeded(old(self)@, snapshot, old(actions)@),
    {
        let ghost before = actions@;
        if self.launch_requested {
            self.stage = Stage::Port;
            self.ready = false;
            self.http_ready_streak = 0;
            self.launch_requested = false;
            actions.push(Action::ClearAnnouncement);
            actions.push(Action::ChoosePort);
            assert(actions@ =~= before + seq![Action::ClearAnnouncement, Action::ChoosePort]);
        } else if self.running {
            self.stage = Stage::Poll;
            actions.push(Action::PollProcess);
            assert(actions@ =~= before + seq![Action::PollProcess]);
        } else {
            self.stage = Stage::Command;
            actions.push(Action::AwaitCommand);
            assert(actions@ =~= before + seq![Action::AwaitCommand]);
        }
    }

    fn terminate(&mut self, stage: Stage) -> (r: Vec<Action>)
        ensures
            forall|snapshot: SnapshotView|
                (Outcome { supervisor: final(self)@, snapshot, actions: r@ })
                    == #[trigger] terminating(old(self)@, stage, snapshot),
    {
        self.stage = stage;
        self.running = false;
        let r = vec![Action::Terminate];
        assert(r@ =~= seq![Action::Terminate]);
        r
    }

    fn restart(&mut self) -> (r: Vec<Action>)
        ensures
            forall|snapshot: SnapshotView|
                (Outcome { supervisor: final(self)@, snapshot, actions: r@ })
                    == #[trigger] restarted(old(self)@, snapshot),
    {
        self.running = false;
        self.ready = false;
        self.http_ready_streak = 0;
        self.launch_requested = true;
        let mut actions = vec![Action::ClearAnnouncement, Action::ShowLanding];
        assert(actions@ =~= seq![Action::ClearAnnouncement, Action::ShowLanding]);
        self.proceed(&mut actions);
        actions
    }

    fn pause(&mut self, snapshot: &mut RuntimeSnapshot) -> (r: Vec<Action>)
        ensures
            (Outcome { supervisor: final(self)@, snapshot: final(snapshot)@, actions: r@ })
                == paused(old(self)@, old(snapshot)@),
    {
        self.stage = Stage::Command;
        self.running = false;
        self.launch_requested = false;
        snapshot.url = None;
        snapshot.pid = None;
        let r = vec![Action::Acknowledge, Action::AwaitCommand];
        assert(r@ =~= seq![Action::Acknowledge, Action::AwaitCommand]);
        r
    }

    fn stop(&mut self, snapshot: &mut RuntimeSnapshot) -> (r: Vec<Action>)
        ensures
            (Outcome { supervisor: final(self)@, snapshot: final(snapshot)@, actions: r@ })
                == stopped(old(self)@, old(snapshot)@),
    {
        self.stage = Stage::Ended;
        self.running = false;
        snapshot.phase = RuntimePhase::Stopped;
        snapshot.message = "DSH 已关闭。".to_string();
        snapshot.pid = None;
        let r = vec![Action::Acknowledge, Action::Stop];
        assert(r@ =~= seq![Action::Acknowledge, Action::Stop]);
        r
    }

    fn leave(&mut self) -> (r: Vec<Action>)
        ensures
            forall|snapshot: SnapshotView|
                (Outcome { supervisor: final(self)@, snapshot, actions: r@ })
                    == #[trigger] left(old(self)@, snapshot),
    {
        self.stage = Stage::Ended;
        self.running = false;
        let r = vec![Action::Stop];
        assert(r@ =~= seq![Action::Stop]);
        r
    }

    fn give_up(&mut self, snapshot: &mut RuntimeSnapshot, message: String) -> (r: Vec<Action>)
        ensures
            (Outcome { supervisor: final(self)@, snapshot: final(snapshot)@, actions: r@ })
                == gave_up(old(self)@, old(snapshot)@, message@),
    {
        self.stage = Stage::Command;
        self.running = false;
        snapshot.fail(message);
        let r = vec![Action::ShowLanding, Action::AwaitCommand];
        assert(r@ =~= seq![Action::ShowLanding, Action::AwaitCommand]);
        r
    }

    fn on_port(
        &mut self,
        snapshot: &mut RuntimeSnapshot,
        chosen: Result<u16, String>,
    ) -> (r: Vec<Action>)
        ensures
            (Outcome { supervisor: final(self)@, snapshot: final(snapshot)@, actions: r@ })
                == port_chosen(old(self)@, old(snapshot)@, chosen),
    {
        match chosen {
            Ok(port) => {
                self.stage = Stage::Spawn;
                self.port = port;
                let mut message = "正在通过".to_string();
                message.append(self.description.as_str());
                message.append("启动。");
                snapshot.phase = RuntimePhase::Starting;
                snapshot.message = message;
                snapshot.url = None;
                snapshot.pid = None;
                snapshot.recent_logs = Vec::new();
                let r = vec![Action::Spawn(port)];
                assert(r@ =~= seq![Action::Spawn(port)]);
                assert(snapshot@ =~= port_chosen(old(self)@, old(snapshot)@, chosen).snapshot);
                r
            },
            Err(error) => {
                let mut message = "无法选择本地端口：".to_string();
                message.append(error.as_str());
                self.give_up(snapshot, message)
            },
        }
    }

    fn on_spawn(
        &mut self,
        snapshot: &mut RuntimeSnapshot,
        started: Result<u32, String>,
    ) -> (r: Vec<Action>)
        ensures
            (Outcome { supervisor: final(self)@, snapshot: final(snapshot)@, actions: r@ })
                == spawned(old(self)@, old(snapshot)@, started),
    {
        match started {
            Ok(pid) => {
                self.stage = Stage::Poll;
                self.running = true;
                snapshot.pid = Some(pid);
                let r = vec![Action::PollProcess];
                assert(r@ =~= seq![Action::PollProcess]);
                r
            },
            Err(error) => {
                let mut message = "无法执行 ".to_string();
                message.append(self.program.as_str());
                message.append("：");
                message.append(error.as_str());
                self.give_up(snapshot, message)
            },
        }
    }

    fn on_probe(
        &mut self,
        snapshot: &mut RuntimeSnapshot,
        http_ready: bool,
        announced: bool,
        elapsed_secs: u64,
    ) -> (r: Vec<Action>)
        ensures
            (Outcome { supervisor: final(self)@, snapshot: final(snapshot)@, actions: r@ })
                == probed(old(self)@, old(snapshot)@, http_ready, announced, elapsed_secs),
    {
        self.http_ready_streak = if http_ready {
            self.http_ready_streak.saturating_add(1)
        } else {
            0
        };
        if readiness_gate(self.http_ready_streak, announced, elapsed_secs) {
            self.stage = Stage::Command;
            self.ready = true;
            snapshot.phase = RuntimePhase::Ready;
            snapshot.message = "官方 DSH Web UI 已就绪。".to_string();
            snapshot.url = Some(runtime_url(self.port));
            let r = vec![Action::ShowRuntime, Action::AwaitCommand];
            assert(r@ =~= seq![Action::ShowRuntime, Action::AwaitCommand]);
            r
        } else if elapsed_secs >= self.startup_timeout_secs {
            self.terminate(Stage::TimingOut)
        } else {
            self.stage = Stage::Command;
            let r = vec![Action::AwaitCommand];
            assert(r@ =~= seq![Action::AwaitCommand]);
            r
        }
    }

    fn on_terminated(&mut self, snapshot: &mut RuntimeSnapshot) -> (r: Vec<Action>)
        requires
            expected(old(self)@.stage, Event::Terminated),
        ensures
            (Outcome { supervisor: final(self)@, snapshot: final(snapshot)@, actions: r@ }) == next(
                old(self)@,
                old(snapshot)@,
                Event::Terminated,
            ),
    {
        match self.stage {
            Stage::Restarting => self.restart(),
            Stage::Pausing => self.pause(snapshot),
            Stage::ShuttingDown => self.stop(snapshot),
            Stage::Leaving => self.leave(),
            _ => {
                let mut message = "DSH 在 ".to_string();
                message.append(text::decimal_text(self.startup_timeout_secs).as_str());
                message.append(" 秒内没有完成启动。");
                self.give_up(snapshot, message)
            },
        }
    }

    /// Takes what has happened, records it, and gives back what is to be done.
    pub fn step(&mut self, snapshot: &mut RuntimeSnapshot, event: Event) -> (r: Vec<Action>)
        ensures
            (Outcome { supervisor: final(self)@, snapshot: final(snapshot)@, actions: r@ }) == next(
                old(self)@,
                old(snapshot)@,
                event,
            ),
    {
        if !self.expects(&event) {
            return Vec::new();
        }
        match event {
            Event::Quiet => {
                let mut actions: Vec<Action> = Vec::new();
                self.proceed(&mut actions);
                actions
            },
            Event::Restart => if self.running {
                self.terminate(Stage::Restarting)
            } else {
                self.restart()
            },
            Event::Pause => {
                snapshot.phase = RuntimePhase::Stopping;
                if self.running {
                    self.terminate(Stage::Pausing)
                } else {
                    self.pause(snapshot)
                }
            },
            Event::Shutdown => {
                snapshot.phase = RuntimePhase::Stopping;
                snapshot.message = "正在关闭 DSH。".to_string();
                if self.running {
                    self.terminate(Stage::ShuttingDown)
                } else {
                    self.stop(snapshot)
                }
            },
            Event::Disconnected => if self.running {
                self.terminate(Stage::Leaving)
            } else {
                self.leave()
            },
            Event::Terminated => self.on_terminated(snapshot),
            Event::PortChosen(chosen) => self.on_port(snapshot, chosen),
            Event::Spawned(started) => self.on_spawn(snapshot, started),
            Event::Exited(status) => {
                let mut message = if self.ready {
                    "DSH 运行时意外退出：".to_string()
                } else {
                    "DSH 未完成启动：".to_string()
                };
                message.append(status.as_str());
                self.give_up(snapshot, message)
            },
            Event::Unreadable(error) => {
                let mut message = "无法读取 DSH 进程状态：".to_string();
                message.append(error.as_str());
                self.give_up(snapshot, message)
            },
            Event::Alive => if self.ready {
                self.stage = Stage::Command;
                let r = vec![Action::AwaitCommand];
                assert(r@ =~= seq![Action::AwaitCommand]);
                r
            } else {
                self.stage = Stage::Probe;
                let r = vec![Action::ProbeServer(self.port)];
                assert(r@ =~= seq![Action::ProbeServer(self.port)]);
                r
            },
            Event::Probed { http_ready, announced, elapsed_secs } => self.on_probe(
                snapshot,
                http_ready,
                announced,
                elapsed_secs,
            ),
        }
    }
}

// ---------------------------------------------------------------------------
// Laws
// ---------------------------------------------------------------------------
/// What holds of a supervisor and its snapshot between any two events.
pub open spec fn coherent(supervisor: SupervisorView, snapshot: SnapshotView) -> bool {
    &&& supervisor.running ==> {
        ||| supervisor.stage == Stage::Command
        ||| supervisor.stage == Stage::Poll
        ||| supervisor.stage == Stage::Probe
    }
    &&& supervisor.stage == Stage::Poll || supervisor.stage == Stage::Probe ==> supervisor.running
    &&& supervisor.stage == Stage::Probe ==> !supervisor.ready
    &&& supervisor.launch_requested ==> !supervisor.running && (supervisor.stage == Stage::Command
        || supervisor.stage == Stage::Ended)
    &&& supervisor.running ==> snapshot.pid is Some
    &&& supervisor.stage == Stage::Pausing ==> snapshot.phase == RuntimePhase::Stopping
    &&& snapshot.phase == RuntimePhase::Ready ==> snapshot.url == Some(address(supervisor.port))
}

/// The question whose answer the supervisor waits for.
pub open spec fn question(supervisor: SupervisorView) -> Action {
    match supervisor.stage {
        Stage::Command => Action::AwaitCommand,
        Stage::Port => Action::ChoosePort,
        Stage::Spawn => Action::Spawn(supervisor.port),
        Stage::Poll => Action::PollProcess,
        Stage::Probe => Action::ProbeServer(supervisor.port),
        Stage::Ended => Action::Stop,
        _ => Action::Terminate,
    }
}

/// A new supervisor and a new snapshot are coherent.
pub proof fn fresh_is_coherent(
    description: Seq<char>,
    program: Seq<char>,
    startup_timeout_secs: u64,
    package_spec: Seq<char>,
)
    ensures
        coherent(
            fresh(description, program, startup_timeout_secs),
            runtime::initial_snapshot(package_spec),
        ),
{
}

/// Every event keeps a supervisor and its snapshot coherent.
pub proof fn every_event_keeps_coherence(
    supervisor: SupervisorView,
    snapshot: SnapshotView,
    event: Event,
)
    requires
        coherent(supervisor, snapshot),
    ensures
        coherent(
            next(supervisor, snapshot, event).supervisor,
            next(supervisor, snapshot, event).snapshot,
        ),
{
}

/// Neither a line for the log nor the report of a job disturbs coherence.
pub proof fn logs_and_reports_keep_coherence(
    supervisor: SupervisorView,
    snapshot: SnapshotView,
    line: Seq<char>,
    report: ReportView,
)
    requires
        coherent(supervisor, snapshot),
    ensures
        coherent(supervisor, runtime::with_log(snapshot, line)),
        coherent(supervisor, runtime::with_report(snapshot, report)),
{
}

/// Every answer leads to exactly one new question, which comes last.
pub proof fn every_answer_leads_to_a_question(
    supervisor: SupervisorView,
    snapshot: SnapshotView,
    event: Event,
)
    requires
        expected(supervisor.stage, event),
    ensures
        next(supervisor, snapshot, event).actions.len() > 0,
        next(supervisor, snapshot, event).actions.last() == question(
            next(supervisor, snapshot, event).supervisor,
        ),
{
}

/// A process is started only where there is none.
pub proof fn one_process_at_a_time(
    supervisor: SupervisorView,
    snapshot: SnapshotView,
    event: Event,
    port: u16,
)
    requires
        coherent(supervisor, snapshot),
        next(supervisor, snapshot, event).actions.contains(Action::Spawn(port)),
    ensures
        !supervisor.running,
        !next(supervisor, snapshot, event).supervisor.running,
        next(supervisor, snapshot, event).supervisor.port == port,
{
}

/// The runtime is shown as ready only for a running process whose server
/// passed the readiness gate with a good probe.
pub proof fn ready_only_through_the_gate(
    supervisor: SupervisorView,
    snapshot: SnapshotView,
    event: Event,
)
    requires
        coherent(supervisor, snapshot),
        snapshot.phase != RuntimePhase::Ready,
        next(supervisor, snapshot, event).snapshot.phase == RuntimePhase::Ready,
    ensures
        supervisor.running,
        match event {
            Event::Probed { http_ready, announced, elapsed_secs } => {
                &&& http_ready
                &&& gate_opens(
                    next(supervisor, snapshot, event).supervisor.http_ready_streak,
                    announced,
                    elapsed_secs,
                )
            },
            _ => false,
        },
        next(supervisor, snapshot, event).snapshot.url == Some(address(supervisor.port)),
{
}

/// How many probes, counted from the last event back to the last bad probe,
/// were good.
pub open spec fn good_probes(events: Seq<(SnapshotView, Event)>) -> nat
    decreases events.len(),
{
    if events.len() == 0 {
        0
    } else {
        match events.last().1 {
            Event::Probed { http_ready, .. } => if http_ready {
                good_probes(events.drop_last()) + 1
            } else {
                0
            },
            _ => good_probes(events.drop_last()),
        }
    }
}

/// The supervisor after a run of events, each with the snapshot of its time.
pub open spec fn after(
    supervisor: SupervisorView,
    events: Seq<(SnapshotView, Event)>,
) -> SupervisorView
    decreases events.len(),
{
    if events.len() == 0 {
        supervisor
    } else {
        next(
            after(supervisor, events.drop_last()),
            events.last().0,
            events.last().1,
        ).supervisor
    }
}

/// Every event of a run answers the question before it.
pub open spec fn answers(
    supervisor: SupervisorView,
    events: Seq<(SnapshotView, Event)>,
) -> bool
    decreases events.len(),
{
    events.len() > 0 ==> {
        &&& answers(supervisor, events.drop_last())
        &&& expected(after(supervisor, events.drop_last()).stage, events.last().1)
    }
}

/// The supervisor never counts more good probes in a row than there were.
pub proof fn streak_is_earned(supervisor: SupervisorView, events: Seq<(SnapshotView, Event)>)
    requires
        supervisor.http_ready_streak == 0,
        answers(supervisor, events),
    ensures
        after(supervisor, events).http_ready_streak <= good_probes(events),
    decreases events.len(),
{
    if events.len() > 0 {
        streak_is_earned(supervisor, events.drop_last());
    }
}

/// However a new supervisor got there, the event that makes the runtime ready
/// is at least the third good probe in a row.
pub proof fn ready_needs_a_stable_server(
    supervisor: SupervisorView,
    events: Seq<(SnapshotView, Event)>,
)
    requires
        supervisor.http_ready_streak == 0,
        events.len() > 0,
        answers(supervisor, events),
        coherent(after(supervisor, events.drop_last()), events.last().0),
        events.last().0.phase != RuntimePhase::Ready,
        next(
            after(supervisor, events.drop_last()),
            events.last().0,
            events.last().1,
        ).snapshot.phase == RuntimePhase::Ready,
    ensures
        good_probes(events) >= 3,
{
    streak_is_earned(supervisor, events);
    ready_only_through_the_gate(
        after(supervisor, events.drop_last()),
        events.last().0,
        events.last().1,
    );
}

/// A shutdown ends the supervisor, at once or as soon as the process has
/// ended; the snapshot then shows a stopped runtime without a process, and
/// the sender is told.
pub proof fn shutdown_ends_the_supervisor(supervisor: SupervisorView, snapshot: SnapshotView)
    requires
        supervisor.stage == Stage::Command,
    ensures
        ({
            let first = next(supervisor, snapshot, Event::Shutdown);
            let last = if supervisor.running {
                next(first.supervisor, first.snapshot, Event::Terminated)
            } else {
                first
            };
            &&& supervisor.running ==> first.actions == seq![Action::Terminate]
            &&& first.snapshot.phase == (if supervisor.running {
                RuntimePhase::Stopping
            } else {
                RuntimePhase::Stopped
            })
            &&& last.supervisor.stage == Stage::Ended
            &&& !last.supervisor.running
            &&& last.snapshot.phase == RuntimePhase::Stopped
            &&& last.snapshot.pid is None
            &&& last.actions == seq![Action::Acknowledge, Action::Stop]
        }),
{
}

/// A supervisor that has ended does nothing more.
pub proof fn ended_is_final(supervisor: SupervisorView, snapshot: SnapshotView, event: Event)
    requires
        supervisor.stage == Stage::Ended,
    ensures
        next(supervisor, snapshot, event) == (Outcome {
            supervisor,
            snapshot,
            actions: Seq::empty(),
        }),
{
}

/// A restart ends the old process first, shows the landing page, and then
/// asks for a new port with nothing left of the old readiness.
pub proof fn restart_begins_anew(supervisor: SupervisorView, snapshot: SnapshotView)
    requires
        supervisor.stage == Stage::Command,
    ensures
        ({
            let first = next(supervisor, snapshot, Event::Restart);
            let last = if supervisor.running {
                next(first.supervisor, first.snapshot, Event::Terminated)
            } else {
                first
            };
            &&& supervisor.running ==> first.actions == seq![Action::Terminate]
            &&& last.supervisor.stage == Stage::Port
            &&& !last.supervisor.running
            &&& !last.supervisor.ready
            &&& last.supervisor.http_ready_streak == 0
            &&& last.snapshot == snapshot
            &&& last.actions == seq![
                Action::ClearAnnouncement,
                Action::ShowLanding,
                Action::ClearAnnouncement,
                Action::ChoosePort,
            ]
        }),
{
    assert(seq![Action::ClearAnnouncement, Action::ShowLanding] + seq![
        Action::ClearAnnouncement,
        Action::ChoosePort,
    ] =~= seq![
        Action::ClearAnnouncement,
        Action::ShowLanding,
        Action::ClearAnnouncement,
        Action::ChoosePort,
    ]);
}

/// A paused runtime has no process, shows no address, and starts none until a
/// restart is asked for.
pub proof fn pause_holds_until_restart(supervisor: SupervisorView, snapshot: SnapshotView)
    requires
        supervisor.stage == Stage::Command,
    ensures
        ({
            let first = next(supervisor, snapshot, Event::Pause);
            let last = if supervisor.running {
                next(first.supervisor, first.snapshot, Event::Terminated)
            } else {
                first
            };
            &&& !last.supervisor.running
            &&& last.snapshot.phase == RuntimePhase::Stopping
            &&& last.snapshot.pid is None
            &&& last.snapshot.url is None
            &&& next(last.supervisor, last.snapshot, Event::Quiet) == (Outcome {
                supervisor: last.supervisor,
                snapshot: last.snapshot,
                actions: seq![Action::AwaitCommand],
            })
        }),
{
    assert(Seq::<Action>::empty() + seq![Action::AwaitCommand] =~= seq![Action::AwaitCommand]);
}

/// A process that has had its time without becoming ready is ended, and the
/// runtime is shown as failed.
pub proof fn slow_start_is_ended(
    supervisor: SupervisorView,
    snapshot: SnapshotView,
    http_ready: bool,
    announced: bool,
    elapsed_secs: u64,
)
    requires
        supervisor.stage == Stage::Probe,
        elapsed_secs >= supervisor.startup_timeout_secs,
        !gate_opens(
            streak_after(supervisor.http_ready_streak, http_ready),
            announced,
            elapsed_secs,
        ),
    ensures
        ({
            let first = next(
                supervisor,
                snapshot,
                Event::Probed { http_ready, announced, elapsed_secs },
            );
            let last = next(first.supervisor, first.snapshot, Event::Terminated);
            &&& first.actions == seq![Action::Terminate]
            &&& !last.supervisor.running
            &&& last.snapshot.phase == RuntimePhase::Failed
            &&& last.snapshot.pid is None
            &&& last.snapshot.url is None
            &&& last.actions == seq![Action::ShowLanding, Action::AwaitCommand]
        }),
{
}

/// A starting process is not ended before its time: below the limit no probe,
/// good or bad, leads to its end.
pub proof fn a_starting_process_keeps_its_time(
    supervisor: SupervisorView,
    snapshot: SnapshotView,
    http_ready: bool,
    announced: bool,
    elapsed_secs: u64,
)
    requires
        supervisor.stage == Stage::Probe,
        elapsed_secs < supervisor.startup_timeout_secs,
    ensures
        ({
            let outcome = next(
                supervisor,
                snapshot,
                Event::Probed { http_ready, announced, elapsed_secs },
            );
            &&& !outcome.actions.contains(Action::Terminate)
            &&& outcome.supervisor.running == supervisor.running
            &&& outcome.supervisor.stage == Stage::Command
            &&& outcome.actions.last() == Action::AwaitCommand
            &&& outcome.snapshot.pid == snapshot.pid
            &&& outcome.snapshot.phase == snapshot.phase || outcome.snapshot.phase
                == RuntimePhase::Ready
        }),
{
}

/// What a probe leads to, in numbers. Bad probes start the count again. A server
/// is up at the third good probe in a row of a process that has announced
/// itself, and at the fifth from the third second on; a process that is not up
/// is ended from its limit on, and waited for until then.
pub proof fn a_probe_is_weighed(
    supervisor: SupervisorView,
    snapshot: SnapshotView,
    http_ready: bool,
    announced: bool,
    elapsed_secs: u64,
)
    requires
        supervisor.stage == Stage::Probe,
    ensures
        ({
            let outcome = next(
                supervisor,
                snapshot,
                Event::Probed { http_ready, announced, elapsed_secs },
            );
            let before = supervisor.http_ready_streak;
            let up = http_ready && (announced && before >= 2 || elapsed_secs >= 3 && before >= 4);
            &&& !http_ready ==> outcome.supervisor.http_ready_streak == 0
            &&& http_ready && before < 255 ==> outcome.supervisor.http_ready_streak == before + 1
            &&& http_ready && before == 255 ==> outcome.supervisor.http_ready_streak == 255
            &&& outcome.supervisor.port == supervisor.port
            &&& outcome.supervisor.launch_requested == supervisor.launch_requested
            &&& up ==> {
                &&& outcome.actions == seq![Action::ShowRuntime, Action::AwaitCommand]
                &&& outcome.supervisor.stage == Stage::Command
                &&& outcome.supervisor.ready
                &&& outcome.supervisor.running == supervisor.running
                &&& outcome.snapshot == (SnapshotView {
                    phase: RuntimePhase::Ready,
                    message: "官方 DSH Web UI 已就绪。"@,
                    url: Some("http://127.0.0.1:"@ + text::decimal(supervisor.port as nat)),
                    ..snapshot
                })
            }
            &&& !up && elapsed_secs < supervisor.startup_timeout_secs ==> {
                &&& outcome.actions == seq![Action::AwaitCommand]
                &&& outcome.supervisor.stage == Stage::Command
                &&& outcome.supervisor.ready == supervisor.ready
                &&& outcome.supervisor.running == supervisor.running
                &&& outcome.snapshot == snapshot
            }
            &&& !up && elapsed_secs >= supervisor.startup_timeout_secs ==> {
                &&& outcome.actions == seq![Action::Terminate]
                &&& outcome.supervisor.stage == Stage::TimingOut
                &&& outcome.supervisor.ready == supervisor.ready
                &&& !outcome.supervisor.running
                &&& outcome.snapshot == snapshot
            }
        }),
{
}

/// A process is ended for a reason: a command that calls for it, or a start that
/// took as long as it may. Every such reason ends it.
pub proof fn processes_end_for_a_reason(
    supervisor: SupervisorView,
    snapshot: SnapshotView,
    event: Event,
)
    ensures
        next(supervisor, snapshot, event).actions.contains(Action::Terminate) ==> {
            &&& supervisor.stage == Stage::Command ==> supervisor.running && (event is Restart
                || event is Pause || event is Shutdown || event is Disconnected)
            &&& supervisor.stage != Stage::Command ==> supervisor.stage == Stage::Probe && event
                is Probed && event->elapsed_secs >= supervisor.startup_timeout_secs
        },
        supervisor.stage == Stage::Command && supervisor.running && (event is Restart || event
            is Pause || event is Shutdown || event is Disconnected) ==> next(
            supervisor,
            snapshot,
            event,
        ).actions == seq![Action::Terminate] && !next(
            supervisor,
            snapshot,
            event,
        ).supervisor.running,
{
    let actions = next(supervisor, snapshot, event).actions;
    if actions.contains(Action::Terminate) {
        let i = choose|i: int| 0 <= i < actions.len() && actions[i] == Action::Terminate;
        assert(actions[i] == Action::Terminate);
    }
}

/// Where no command comes: a start that is due is made, a running process is
/// looked at, and else nothing is done but to wait on.
pub proof fn silence_lets_the_runtime_go_on(supervisor: SupervisorView, snapshot: SnapshotView)
    requires
        supervisor.stage == Stage::Command,
    ensures
        ({
            let outcome = next(supervisor, snapshot, Event::Quiet);
            &&& outcome.snapshot == snapshot
            &&& outcome.supervisor.running == supervisor.running
            &&& outcome.supervisor.port == supervisor.port
            &&& !outcome.supervisor.launch_requested
            &&& supervisor.launch_requested ==> {
                &&& outcome.actions == seq![Action::ClearAnnouncement, Action::ChoosePort]
                &&& outcome.supervisor.stage == Stage::Port
                &&& !outcome.supervisor.ready
                &&& outcome.supervisor.http_ready_streak == 0
            }
            &&& !supervisor.launch_requested && supervisor.running ==> {
                &&& outcome.actions == seq![Action::PollProcess]
                &&& outcome.supervisor == (SupervisorView { stage: Stage::Poll, ..supervisor })
            }
            &&& !supervisor.launch_requested && !supervisor.running ==> {
                &&& outcome.actions == seq![Action::AwaitCommand]
                &&& outcome.supervisor == supervisor
            }
        }),
{
}

/// A start: the port that was found is the one that the process is started on
/// and the server is looked for on, and what is shown follows.
pub proof fn a_start_goes_by_its_port(
    supervisor: SupervisorView,
    snapshot: SnapshotView,
    port: u16,
    pid: u32,
)
    requires
        supervisor.stage == Stage::Port,
        !supervisor.ready,
    ensures
        ({
            let first = next(supervisor, snapshot, Event::PortChosen(Ok(port)));
            let second = next(first.supervisor, first.snapshot, Event::Spawned(Ok(pid)));
            let third = next(second.supervisor, second.snapshot, Event::Alive);
            &&& first.actions == seq![Action::Spawn(port)]
            &&& first.snapshot == (SnapshotView {
                phase: RuntimePhase::Starting,
                message: "正在通过"@ + supervisor.description + "启动。"@,
                url: None,
                pid: None,
                recent_logs: Seq::empty(),
                ..snapshot
            })
            &&& first.supervisor == (SupervisorView { stage: Stage::Spawn, port, ..supervisor })
            &&& second.actions == seq![Action::PollProcess]
            &&& second.snapshot == (SnapshotView { pid: Some(pid), ..first.snapshot })
            &&& second.supervisor == (SupervisorView {
                stage: Stage::Poll,
                running: true,
                port,
                ..supervisor
            })
            &&& third.actions == seq![Action::ProbeServer(port)]
            &&& third.snapshot == second.snapshot
            &&& third.supervisor == (SupervisorView {
                stage: Stage::Probe,
                running: true,
                port,
                ..supervisor
            })
        }),
{
}

/// A process that runs and has been found ready is left alone.
pub proof fn a_ready_process_is_left_alone(supervisor: SupervisorView, snapshot: SnapshotView)
    requires
        supervisor.stage == Stage::Poll,
        supervisor.ready,
    ensures
        next(supervisor, snapshot, Event::Alive) == (Outcome {
            supervisor: SupervisorView { stage: Stage::Command, ..supervisor },
            snapshot,
            actions: seq![Action::AwaitCommand],
        }),
{
}

/// Whatever ends a runtime against the will of the user, the user is told what
/// it was, the landing page is shown, and no process is left.
pub proof fn a_lost_runtime_is_reported(
    supervisor: SupervisorView,
    snapshot: SnapshotView,
    event: Event,
)
    requires
        match event {
            Event::PortChosen(chosen) => supervisor.stage == Stage::Port && chosen is Err,
            Event::Spawned(started) => supervisor.stage == Stage::Spawn && started is Err,
            Event::Exited(_) => supervisor.stage == Stage::Poll,
            Event::Unreadable(_) => supervisor.stage == Stage::Poll,
            Event::Terminated => supervisor.stage == Stage::TimingOut,
            _ => false,
        },
    ensures
        ({
            let outcome = next(supervisor, snapshot, event);
            &&& outcome.actions == seq![Action::ShowLanding, Action::AwaitCommand]
            &&& outcome.supervisor == (SupervisorView {
                stage: Stage::Command,
                running: false,
                ..supervisor
            })
            &&& outcome.snapshot.phase == RuntimePhase::Failed
            &&& outcome.snapshot.url is None
            &&& outcome.snapshot.pid is None
            &&& outcome.snapshot.recent_logs.len() > 0
            &&& outcome.snapshot.recent_logs.last() == "[desktop] "@ + outcome.snapshot.message
            &&& outcome.snapshot.message == (match event {
                Event::PortChosen(chosen) => "无法选择本地端口："@ + chosen->Err_0@,
                Event::Spawned(started) => "无法执行 "@ + supervisor.program + "："@
                    + started->Err_0@,
                Event::Exited(status) => if supervisor.ready {
                    "DSH 运行时意外退出："@ + status@
                } else {
                    "DSH 未完成启动："@ + status@
                },
                Event::Unreadable(error) => "无法读取 DSH 进程状态："@ + error@,
                _ => "DSH 在 "@ + text::decimal(supervisor.startup_timeout_secs as nat)
                    + " 秒内没有完成启动。"@,
            })
        }),
{
}

/// A command on a running process ends it first and is carried out then; on no
/// process it is carried out at once. Both come to the same.
pub proof fn commands_wait_for_the_old_process(
    supervisor: SupervisorView,
    snapshot: SnapshotView,
    event: Event,
)
    requires
        supervisor.stage == Stage::Command,
        supervisor.running,
        event is Restart || event is Pause || event is Shutdown || event is Disconnected,
    ensures
        ({
            let first = next(supervisor, snapshot, event);
            let last = next(first.supervisor, first.snapshot, Event::Terminated);
            let at_once = next(SupervisorView { running: false, ..supervisor }, snapshot, event);
            &&& first.actions == seq![Action::Terminate]
            &&& last == at_once
        }),
{
}

/// What the commands do where there is no process.
pub proof fn commands_case_by_case(supervisor: SupervisorView, snapshot: SnapshotView)
    requires
        supervisor.stage == Stage::Command,
        !supervisor.running,
    ensures
        next(supervisor, snapshot, Event::Pause) == (Outcome {
            supervisor: SupervisorView { launch_requested: false, ..supervisor },
            snapshot: SnapshotView {
                phase: RuntimePhase::Stopping,
                url: None,
                pid: None,
                ..snapshot
            },
            actions: seq![Action::Acknowledge, Action::AwaitCommand],
        }),
        next(supervisor, snapshot, Event::Shutdown) == (Outcome {
            supervisor: SupervisorView { stage: Stage::Ended, ..supervisor },
            snapshot: SnapshotView {
                phase: RuntimePhase::Stopped,
                message: "DSH 已关闭。"@,
                pid: None,
                ..snapshot
            },
            actions: seq![Action::Acknowledge, Action::Stop],
        }),
        next(supervisor, snapshot, Event::Disconnected) == (Outcome {
            supervisor: SupervisorView { stage: Stage::Ended, ..supervisor },
            snapshot,
            actions: seq![Action::Stop],
        }),
        next(supervisor, snapshot, Event::Restart).supervisor == (SupervisorView {
            stage: Stage::Port,
            ready: false,
            http_ready_streak: 0,
            launch_requested: false,
            ..supervisor
        }),
{
}

/// While the old process of a command is being ended, the snapshot shows that
/// the runtime stops, in the words of the command.
pub proof fn stopping_is_shown(supervisor: SupervisorView, snapshot: SnapshotView)
    requires
        supervisor.stage == Stage::Command,
        supervisor.running,
    ensures
        next(supervisor, snapshot, Event::Restart).snapshot == snapshot,
        next(supervisor, snapshot, Event::Disconnected).snapshot == snapshot,
        next(supervisor, snapshot, Event::Pause).snapshot == (SnapshotView {
            phase: RuntimePhase::Stopping,
            ..snapshot
        }),
        next(supervisor, snapshot, Event::Shutdown).snapshot == (SnapshotView {
            phase: RuntimePhase::Stopping,
            message: "正在关闭 DSH。"@,
            ..snapshot
        }),
{
}

/// An event that is no answer to what was asked changes nothing.
pub proof fn events_out_of_turn_change_nothing(
    supervisor: SupervisorView,
    snapshot: SnapshotView,
    event: Event,
)
    requires
        match supervisor.stage {
            Stage::Command => !(event is Restart || event is Pause || event is Shutdown || event
                is Disconnected || event is Quiet),
            Stage::Port => !(event is PortChosen),
            Stage::Spawn => !(event is Spawned),
            Stage::Poll => !(event is Exited || event is Alive || event is Unreadable),
            Stage::Probe => !(event is Probed),
            Stage::Ended => true,
            _ => !(event is Terminated),
        },
    ensures
        next(supervisor, snapshot, event) == (Outcome {
            supervisor,
            snapshot,
            actions: Seq::empty(),
        }),
{
}

/// How a runtime is started and how long it may take never changes, and no
/// event touches what the jobs have reported.
pub proof fn a_supervisor_keeps_its_settings(
    supervisor: SupervisorView,
    snapshot: SnapshotView,
    event: Event,
)
    ensures
        ({
            let outcome = next(supervisor, snapshot, event);
            &&& outcome.supervisor.description == supervisor.description
            &&& outcome.supervisor.program == supervisor.program
            &&& outcome.supervisor.startup_timeout_secs == supervisor.startup_timeout_secs
            &&& outcome.snapshot.package_spec == snapshot.package_spec
            &&& outcome.snapshot.dsh_version == snapshot.dsh_version
            &&& outcome.snapshot.runtime_source == snapshot.runtime_source
            &&& outcome.snapshot.update_phase == snapshot.update_phase
            &&& outcome.snapshot.update_message == snapshot.update_message
            &&& outcome.snapshot.available_version == snapshot.available_version
            &&& outcome.snapshot.update_bytes_read == snapshot.update_bytes_read
            &&& outcome.snapshot.update_bytes_total == snapshot.update_bytes_total
            &&& outcome.snapshot.update_steps == snapshot.update_steps
        }),
{
}

/// A new supervisor, left alone, starts a process.
pub proof fn a_new_supervisor_starts_a_process(
    description: Seq<char>,
    program: Seq<char>,
    startup_timeout_secs: u64,
    snapshot: SnapshotView,
)
    ensures
        ({
            let new = fresh(description, program, startup_timeout_secs);
            let outcome = next(new, snapshot, Event::Quiet);
            &&& new.description == description
            &&& new.program == program
            &&& new.startup_timeout_secs == startup_timeout_secs
            &&& !new.running
            &&& !new.ready
            &&& new.http_ready_streak == 0
            &&& outcome.supervisor.stage == Stage::Port
            &&& outcome.actions == seq![Action::ClearAnnouncement, Action::ChoosePort]
        }),
{
    assert(Seq::<Action>::empty() + seq![Action::ClearAnnouncement, Action::ChoosePort] =~= seq![
        Action::ClearAnnouncement,
        Action::ChoosePort,
    ]);
}

/// Readiness in numbers: two good probes are never enough, five are from the third
/// second on, and three are with an announcement.
pub proof fn readiness_in_numbers(streak: u8, announced: bool, elapsed_secs: u64)
    ensures
        streak < 3 ==> !gate_opens(streak, announced, elapsed_secs),
        streak >= 3 && announced ==> gate_opens(streak, announced, elapsed_secs),
        !announced && (streak < 5 || elapsed_secs < 3) ==> !gate_opens(
            streak,
            announced,
            elapsed_secs,
        ),
        streak >= 5 && elapsed_secs >= 3 ==> gate_opens(streak, announced, elapsed_secs),
{
}

/// However a supervisor is stepped: a probe below the limit leaves the process
/// running.
pub proof fn a_step_keeps_a_starting_process()
    ensures
        forall|
            supervisor: &mut Supervisor,
            snapshot: &mut RuntimeSnapshot,
            event: Event,
            r: Vec<Action>,
        |
            #[trigger] call_ensures(Supervisor::step, (supervisor, snapshot, event), r)
                && (*supervisor)@.stage == Stage::Probe && (event matches Event::Probed {
                elapsed_secs,
                ..
            } && elapsed_secs < (*supervisor)@.startup_timeout_secs) ==> !r@.contains(
                Action::Terminate,
            ) && final(supervisor)@.running == (*supervisor)@.running,
{
    assert forall|
        supervisor: &mut Supervisor,
        snapshot: &mut RuntimeSnapshot,
        event: Event,
        r: Vec<Action>,
    |
        #[trigger] call_ensures(Supervisor::step, (supervisor, snapshot, event), r)
            && (*supervisor)@.stage == Stage::Probe && (event matches Event::Probed {
            elapsed_secs,
            ..
        } && elapsed_secs < (*supervisor)@.startup_timeout_secs) implies !r@.contains(
        Action::Terminate,
    ) && final(supervisor)@.running == (*supervisor)@.running by {
        match event {
            Event::Probed { http_ready, announced, elapsed_secs } => {
                a_starting_process_keeps_its_time(
                    (*supervisor)@,
                    (*snapshot)@,
                    http_ready,
                    announced,
                    elapsed_secs,
                );
            },
            _ => {},
        }
    }
}

} // verus!
