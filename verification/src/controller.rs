//! The two things that everybody who acts on the runtime shares: its
//! controller, and the coordinator that lets one job run at a time.

use vstd::prelude::*;
use vstd::string::*;

use crate::runtime;
use crate::runtime::RuntimePhase;
use crate::runtime::RuntimeSnapshot;
use crate::runtime::SnapshotView;
use crate::steps::UpdateReport;
use crate::text;

verus! {

/// The side of the runtime that its users see.
#[derive(Debug)]
pub struct RuntimeController {
    snapshot: RuntimeSnapshot,
    shutdown_started: bool,
}

/// What a `RuntimeController` knows.
#[verifier::ext_equal]
pub struct ControllerView {
    pub snapshot: SnapshotView,
    pub shutdown_started: bool,
}

impl View for RuntimeController {
    type V = ControllerView;

    closed spec fn view(&self) -> ControllerView {
        ControllerView { snapshot: self.snapshot@, shutdown_started: self.shutdown_started }
    }
}

/// What the sender of a command is told.
pub open spec fn delivery_result(delivered: bool, r: Result<(), String>) -> bool {
    match r {
        Ok(_) => delivered,
        Err(message) => !delivered && message@ == "DSH 监督器已经停止"@,
    }
}

impl RuntimeController {
    /// The controller of a runtime that has not been started.
    pub fn new(package_spec: String) -> (r: Self)
        ensures
            r@ == (ControllerView {
                snapshot: runtime::initial_snapshot(package_spec@),
                shutdown_started: false,
            }),
    {
        RuntimeController {
            snapshot: RuntimeSnapshot::initial(package_spec),
            shutdown_started: false,
        }
    }

    /// The state of the runtime.
    pub fn status(&self) -> (r: RuntimeSnapshot)
        ensures
            r@ == self@.snapshot,
    {
        self.snapshot.clone()
    }

    /// The state of the runtime, to be changed in place.
    pub fn snapshot_mut(&mut self) -> (r: &mut RuntimeSnapshot)
        ensures
            r@ == old(self)@.snapshot,
            final(self)@ == (ControllerView { snapshot: final(r)@, ..old(self)@ }),
    {
        &mut self.snapshot
    }

    /// Shows what a job reports.
    pub fn set_update_flow(&mut self, report: UpdateReport)
        ensures
            final(self)@ == (ControllerView {
                snapshot: runtime::with_report(old(self)@.snapshot, report@),
                ..old(self)@
            }),
    {
        self.snapshot.set_update_flow(report);
    }

    /// What is said to whoever asked for a restart, given whether the
    /// supervisor took the command.
    pub fn restart(&self, delivered: bool) -> (r: Result<(), String>)
        ensures
            delivery_result(delivered, r),
    {
        if delivered {
            Ok(())
        } else {
            Err("DSH 监督器已经停止".to_string())
        }
    }

    /// What is said to whoever asked for a pause, given whether the
    /// supervisor carried the command out.
    pub fn pause(&self, delivered: bool) -> (r: Result<(), String>)
        ensures
            delivery_result(delivered, r),
    {
        self.restart(delivered)
    }

    /// Whether a shutdown is to be asked of the supervisor: the first time,
    /// and never again.
    pub fn shutdown(&mut self) -> (r: bool)
        ensures
            r == !old(self)@.shutdown_started,
            final(self)@ == (ControllerView { shutdown_started: true, ..old(self)@ }),
    {
        let first = !self.shutdown_started;
        self.shutdown_started = true;
        first
    }

    /// Whether a page at this origin is the page of the runtime that is ready.
    pub fn owns_ready_url(&self, origin: &str) -> (r: bool)
        ensures
            r == (self@.snapshot.phase == RuntimePhase::Ready && self@.snapshot.url == Some(
                origin@,
            )),
    {
        if self.snapshot.phase == RuntimePhase::Ready {
            match &self.snapshot.url {
                Some(url) => text::same(url.as_str(), origin),
                None => false,
            }
        } else {
            false
        }
    }
}

/// A release that can be installed.
#[derive(Debug, PartialEq, Eq)]
pub struct SelectedRelease {
    pub version: String,
    pub registry: String,
}

/// What a `SelectedRelease` names.
#[verifier::ext_equal]
pub struct ReleaseView {
    pub version: Seq<char>,
    pub registry: Seq<char>,
}

impl View for SelectedRelease {
    type V = ReleaseView;

    open spec fn view(&self) -> ReleaseView {
        ReleaseView { version: self.version@, registry: self.registry@ }
    }
}

impl Clone for SelectedRelease {
    fn clone(&self) -> (r: Self)
        ensures
            r@ == self@,
    {
        SelectedRelease { version: self.version.clone(), registry: self.registry.clone() }
    }
}

/// What an optional release names.
pub open spec fn release_opt(release: Option<SelectedRelease>) -> Option<ReleaseView> {
    match release {
        Some(selected) => Some(selected@),
        None => None,
    }
}

/// Lets one job run at a time, and keeps the release on offer.
#[derive(Debug)]
pub struct UpdateCoordinator {
    pending: Option<SelectedRelease>,
    busy: bool,
}

/// What an `UpdateCoordinator` knows.
#[verifier::ext_equal]
pub struct CoordinatorView {
    pub pending: Option<ReleaseView>,
    pub busy: bool,
}

impl View for UpdateCoordinator {
    type V = CoordinatorView;

    closed spec fn view(&self) -> CoordinatorView {
        CoordinatorView { pending: release_opt(self.pending), busy: self.busy }
    }
}

impl UpdateCoordinator {
    /// No job runs and nothing is on offer.
    pub fn new() -> (r: Self)
        ensures
            r@ == (CoordinatorView { pending: None, busy: false }),
    {
        UpdateCoordinator { pending: None, busy: false }
    }

    /// Begins a job, unless one runs.
    pub fn try_begin(&mut self) -> (r: bool)
        ensures
            r == !old(self)@.busy,
            final(self)@ == (CoordinatorView { busy: true, ..old(self)@ }),
    {
        let free = !self.busy;
        self.busy = true;
        free
    }

    /// Ends the job.
    pub fn finish(&mut self)
        ensures
            final(self)@ == (CoordinatorView { busy: false, ..old(self)@ }),
    {
        self.busy = false;
    }

    /// Whether a job runs.
    pub fn is_busy(&self) -> (r: bool)
        ensures
            r == self@.busy,
    {
        self.busy
    }

    /// The release on offer.
    pub fn pending(&self) -> (r: Option<SelectedRelease>)
        ensures
            release_opt(r) == self@.pending,
    {
        match &self.pending {
            Some(selected) => Some(selected.clone()),
            None => None,
        }
    }

    /// Puts a release on offer, or takes the offer back.
    pub fn set_pending(&mut self, pending: Option<SelectedRelease>)
        ensures
            final(self)@ == (CoordinatorView { pending: release_opt(pending), ..old(self)@ }),
    {
        self.pending = pending;
    }
}

/// A command that was delivered succeeds, and one that was not is answered with
/// the reason.
pub proof fn a_command_is_answered_by_its_delivery(delivered: bool, r: Result<(), String>)
    requires
        delivery_result(delivered, r),
    ensures
        r is Ok <==> delivered,
        r matches Err(message) ==> message@ == "DSH 监督器已经停止"@,
{
}

/// One job runs at a time: a job can begin exactly where none runs, and keeps
/// others out until it has ended. Neither touches the release on offer.
pub proof fn one_job_runs_at_a_time()
    ensures
        forall|coordinator: &mut UpdateCoordinator, begun: bool| #[trigger]
            call_ensures(UpdateCoordinator::try_begin, (coordinator,), begun) ==> {
                &&& begun <==> !(*coordinator)@.busy
                &&& final(coordinator)@.busy
                &&& final(coordinator)@.pending == (*coordinator)@.pending
            },
        forall|coordinator: &mut UpdateCoordinator| #[trigger]
            call_ensures(UpdateCoordinator::finish, (coordinator,), ()) ==> {
                &&& !final(coordinator)@.busy
                &&& final(coordinator)@.pending == (*coordinator)@.pending
            },
        forall|coordinator: &UpdateCoordinator, busy: bool| #[trigger]
            call_ensures(UpdateCoordinator::is_busy, (coordinator,), busy) ==> busy
                == coordinator@.busy,
        forall|coordinator: UpdateCoordinator| #[trigger]
            call_ensures(UpdateCoordinator::new, (), coordinator) ==> !coordinator@.busy
                && coordinator@.pending is None,
{
}

/// The release that was put on offer last is the one on offer, and no job is begun
/// or ended by it.
pub proof fn the_last_offer_stands()
    ensures
        forall|coordinator: &mut UpdateCoordinator, offer: Option<SelectedRelease>| #[trigger]
            call_ensures(UpdateCoordinator::set_pending, (coordinator, offer), ()) ==> {
                &&& offer matches Some(release) ==> final(coordinator)@.pending == Some(
                    ReleaseView { version: release.version@, registry: release.registry@ },
                )
                &&& offer is None ==> final(coordinator)@.pending is None
                &&& final(coordinator)@.busy == (*coordinator)@.busy
            },
        forall|coordinator: &UpdateCoordinator, offer: Option<SelectedRelease>| #[trigger]
            call_ensures(UpdateCoordinator::pending, (coordinator,), offer) ==> {
                &&& offer is Some <==> coordinator@.pending is Some
                &&& offer matches Some(release) ==> release.version@ == coordinator@.pending->0.version
                    && release.registry@ == coordinator@.pending->0.registry
            },
{
}

/// A runtime is shut down once: the first call says that it is to be, and every
/// later one that it has been. What is shown stays as it is.
pub proof fn a_runtime_is_shut_down_once()
    ensures
        forall|controller: &mut RuntimeController, first: bool| #[trigger]
            call_ensures(RuntimeController::shutdown, (controller,), first) ==> {
                &&& first <==> !(*controller)@.shutdown_started
                &&& final(controller)@.shutdown_started
                &&& final(controller)@.snapshot == (*controller)@.snapshot
            },
        forall|package_spec: String, controller: RuntimeController| #[trigger]
            call_ensures(RuntimeController::new, (package_spec,), controller)
                ==> !controller@.shutdown_started && controller@.snapshot.package_spec
                == package_spec@,
{
}

/// The status is what is shown, and a report of a job is shown as it is.
pub proof fn the_status_is_what_is_shown()
    ensures
        forall|controller: &RuntimeController, snapshot: RuntimeSnapshot| #[trigger]
            call_ensures(RuntimeController::status, (controller,), snapshot) ==> snapshot@
                == controller@.snapshot,
        forall|controller: &mut RuntimeController, report: UpdateReport| #[trigger]
            call_ensures(RuntimeController::set_update_flow, (controller, report), ()) ==> {
                &&& final(controller)@.snapshot.update_phase == report@.phase
                &&& final(controller)@.snapshot.update_message == report@.message
                &&& final(controller)@.snapshot.available_version == report@.available_version
                &&& final(controller)@.snapshot.update_steps == report@.steps
                &&& final(controller)@.snapshot.phase == (*controller)@.snapshot.phase
                &&& final(controller)@.snapshot.url == (*controller)@.snapshot.url
                &&& final(controller)@.shutdown_started == (*controller)@.shutdown_started
            },
{
}

/// A page belongs to the runtime exactly where the runtime is ready and has shown
/// this address.
pub proof fn a_page_is_known_by_its_address(
    controller: &RuntimeController,
    origin: &str,
    owned: bool,
)
    requires
        call_ensures(RuntimeController::owns_ready_url, (controller, origin), owned),
    ensures
        owned ==> controller@.snapshot.phase == RuntimePhase::Ready,
        owned ==> controller@.snapshot.url == Some(origin@),
        controller@.snapshot.phase == RuntimePhase::Ready && controller@.snapshot.url == Some(
            origin@,
        ) ==> owned,
{
}

/// A restart and a pause succeed exactly where they could be delivered.
pub proof fn restart_and_pause_need_a_supervisor(
    controller: &RuntimeController,
    delivered: bool,
    restarted: Result<(), String>,
    paused: Result<(), String>,
)
    requires
        call_ensures(RuntimeController::restart, (controller, delivered), restarted),
        call_ensures(RuntimeController::pause, (controller, delivered), paused),
    ensures
        restarted is Ok <==> delivered,
        paused is Ok <==> delivered,
        restarted matches Err(message) ==> message@ == "DSH 监督器已经停止"@,
        paused matches Err(message) ==> message@ == "DSH 监督器已经停止"@,
{
}

} // verus!
