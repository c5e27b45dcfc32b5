//! The decisions of the shell around the runtime: menu, windows and pages.

use vstd::prelude::*;
use vstd::string::*;

use crate::runtime;
use crate::runtime::RuntimeSnapshot;
use crate::runtime::SnapshotView;
use crate::state::RuntimeSource;
use crate::steps::UpdatePhase;
use crate::text;

verus! {

// ---------------------------------------------------------------------------
// Menu
// ---------------------------------------------------------------------------
/// One entry of the menu.
#[derive(Debug, PartialEq, Eq)]
pub struct MenuEntry {
    pub id: String,
    pub text: String,
    pub enabled: bool,
}

/// What a `MenuEntry` says.
pub struct MenuEntryView {
    pub id: Seq<char>,
    pub text: Seq<char>,
    pub enabled: bool,
}

impl View for MenuEntry {
    type V = MenuEntryView;

    open spec fn view(&self) -> MenuEntryView {
        MenuEntryView { id: self.id@, text: self.text@, enabled: self.enabled }
    }
}

/// What the entries of a menu say.
pub open spec fn entries_view(entries: Seq<MenuEntry>) -> Seq<MenuEntryView> {
    entries.map_values(|entry: MenuEntry| entry@)
}

/// The line of the menu that names the present version.
pub open spec fn current_line(version: Seq<char>) -> Seq<char> {
    "当前 DSH "@ + version
}

fn current_text(version: &str) -> (r: String)
    ensures
        r@ == current_line(version@),
{
    let mut line = "当前 DSH ".to_string();
    line.append(version);
    line
}

/// The entries of the DSH menu before anything is known of the runtime.
pub fn build_menu() -> (r: Vec<MenuEntry>)
    ensures
        entries_view(r@) == seq![
            MenuEntryView {
                id: "dsh-current"@,
                text: current_line(runtime::BUNDLED_DSH_VERSION@),
                enabled: false,
            },
            MenuEntryView { id: "dsh-check"@, text: "检查 DSH 更新"@, enabled: true },
            MenuEntryView { id: "dsh-install"@, text: "安装并重启 DSH 更新"@, enabled: false },
            MenuEntryView { id: "dsh-restore"@, text: "恢复随包版本"@, enabled: false },
        ],
{
    let mut menu: Vec<MenuEntry> = Vec::new();
    menu.push(
        MenuEntry {
            id: "dsh-current".to_string(),
            text: current_text(runtime::BUNDLED_DSH_VERSION),
            enabled: false,
        },
    );
    menu.push(
        MenuEntry {
            id: "dsh-check".to_string(),
            text: "检查 DSH 更新".to_string(),
            enabled: true,
        },
    );
    menu.push(
        MenuEntry {
            id: "dsh-install".to_string(),
            text: "安装并重启 DSH 更新".to_string(),
            enabled: false,
        },
    );
    menu.push(
        MenuEntry {
            id: "dsh-restore".to_string(),
            text: "恢复随包版本".to_string(),
            enabled: false,
        },
    );
    menu
}

/// What an entry of the menu asks for.
#[derive(Clone, Copy, Debug, PartialEq, Eq, Structural)]
pub enum MenuAction {
    Check,
    Install,
    Restore,
}

/// What the entry with this name asks for.
pub open spec fn menu_action(id: Seq<char>) -> Option<MenuAction> {
    if id == "dsh-check"@ {
        Some(MenuAction::Check)
    } else if id == "dsh-install"@ {
        Some(MenuAction::Install)
    } else if id == "dsh-restore"@ {
        Some(MenuAction::Restore)
    } else {
        None
    }
}

/// What the entry with this name asks for; nothing where there is no such
/// entry.
pub fn handle_menu_event(id: &str) -> (r: Option<MenuAction>)
    ensures
        r == menu_action(id@),
{
    if text::same(id, "dsh-check") {
        Some(MenuAction::Check)
    } else if text::same(id, "dsh-install") {
        Some(MenuAction::Install)
    } else if text::same(id, "dsh-restore") {
        Some(MenuAction::Restore)
    } else {
        None
    }
}

/// What the menu shows and offers at a moment.
#[derive(Debug, PartialEq, Eq)]
pub struct MenuState {
    pub current_text: String,
    pub check_enabled: bool,
    pub install_enabled: bool,
    pub restore_enabled: bool,
}

/// What the menu shows and offers: no job can be begun while one runs, an
/// install needs a version on offer, and only a sidecar can be left for the
/// bundled runtime.
pub fn refresh_menu(busy: bool, snapshot: &RuntimeSnapshot, source: RuntimeSource) -> (r: MenuState)
    ensures
        r.current_text@ == current_line(snapshot@.dsh_version),
        r.check_enabled == !busy,
        r.install_enabled == (!busy && snapshot@.available_version is Some && (
        snapshot@.update_phase == UpdatePhase::Available || snapshot@.update_phase
            == UpdatePhase::Failed)),
        r.restore_enabled == (!busy && source == RuntimeSource::Sidecar),
{
    MenuState {
        current_text: current_text(snapshot.dsh_version.as_str()),
        check_enabled: !busy,
        install_enabled: !busy && snapshot.available_version.is_some() && (snapshot.update_phase
            == UpdatePhase::Available || snapshot.update_phase == UpdatePhase::Failed),
        restore_enabled: !busy && source == RuntimeSource::Sidecar,
    }
}

// ---------------------------------------------------------------------------
// Toast
// ---------------------------------------------------------------------------
/// A job is under way, on the runtime or on its plugins.
pub open spec fn working(phase: UpdatePhase) -> bool {
    ||| phase == UpdatePhase::Checking
    ||| phase == UpdatePhase::Downloading
    ||| phase == UpdatePhase::Verifying
    ||| phase == UpdatePhase::Staging
    ||| phase == UpdatePhase::Switching
    ||| phase == UpdatePhase::RollingBack
    ||| phase == UpdatePhase::PluginInstalling
    ||| phase == UpdatePhase::PluginRemoving
    ||| phase == UpdatePhase::PluginToggling
}

/// There is something to show: a job under way, its result, or a message that
/// it left.
pub open spec fn shows_toast(snapshot: SnapshotView) -> bool {
    ||| working(snapshot.update_phase)
    ||| snapshot.update_phase == UpdatePhase::Available
    ||| snapshot.update_phase == UpdatePhase::Failed
    ||| snapshot.update_phase == UpdatePhase::Idle && snapshot.update_message.len() > 0
}

/// Whether the toast shows a job under way.
pub fn toast_is_busy(snapshot: &RuntimeSnapshot) -> (r: bool)
    ensures
        r == working(snapshot@.update_phase),
{
    let phase = snapshot.update_phase;
    phase == UpdatePhase::Checking || phase == UpdatePhase::Downloading || phase
        == UpdatePhase::Verifying || phase == UpdatePhase::Staging || phase
        == UpdatePhase::Switching || phase == UpdatePhase::RollingBack || phase
        == UpdatePhase::PluginInstalling || phase == UpdatePhase::PluginRemoving || phase
        == UpdatePhase::PluginToggling
}

/// Whether the toast is shown.
pub fn toast_should_show(snapshot: &RuntimeSnapshot) -> (r: bool)
    ensures
        r == shows_toast(snapshot@),
{
    toast_is_busy(snapshot) || snapshot.update_phase == UpdatePhase::Available
        || snapshot.update_phase == UpdatePhase::Failed || (snapshot.update_phase
        == UpdatePhase::Idle && !snapshot.update_message.as_str().is_empty())
}

/// Whether a request from the window `label` hides the toast: only the toast
/// itself may ask, and not while it shows a job under way.
pub fn dismiss_update_toast(label: &str, snapshot: &RuntimeSnapshot) -> (r: bool)
    ensures
        r == (label@ == "update-toast"@ && !working(snapshot@.update_phase)),
{
    text::same(label, "update-toast") && !toast_is_busy(snapshot)
}

/// While a job is under way the toast is shown and cannot be dismissed; a
/// quiet runtime without a message shows none.
pub proof fn toast_stays_while_working(snapshot: SnapshotView)
    ensures
        working(snapshot.update_phase) ==> shows_toast(snapshot),
        snapshot.update_phase == UpdatePhase::Idle ==> (shows_toast(snapshot) <==>
            snapshot.update_message.len() > 0),
{
}

// ---------------------------------------------------------------------------
// Pages and windows
// ---------------------------------------------------------------------------
/// The pages that a window may go to: those of the application, and those of
/// the local server.
pub open spec fn page_allowed(scheme: Seq<char>, host: Option<Seq<char>>) -> bool {
    ||| scheme == "tauri"@
    ||| scheme == "asset"@
    ||| (scheme == "http"@ || scheme == "https"@) && (host == Some("tauri.localhost"@) || host
        == Some("127.0.0.1"@))
}

/// Whether a window may go to a page.
pub fn navigation_allowed(scheme: &str, host: Option<&str>) -> (r: bool)
    ensures
        r == page_allowed(
            scheme@,
            match host {
                Some(name) => Some(name@),
                None => None,
            },
        ),
{
    if text::same(scheme, "tauri") || text::same(scheme, "asset") {
        true
    } else if text::same(scheme, "http") || text::same(scheme, "https") {
        match host {
            Some(name) => text::same(name, "tauri.localhost") || text::same(name, "127.0.0.1"),
            None => false,
        }
    } else {
        false
    }
}

/// Whether a loaded page brings its window to the front: the page of the
/// runtime, loaded in the main window.
pub fn reveals_window(label: &str, finished: bool, owned: bool) -> (r: bool)
    ensures
        r == (label@ == "main"@ && finished && owned),
{
    text::same(label, "main") && finished && owned
}

/// A page of the runtime itself may not restart the runtime.
pub fn restart_runtime(on_official_page: bool) -> (r: Result<(), String>)
    ensures
        match r {
            Ok(_) => !on_official_page,
            Err(message) => on_official_page && message@ == "官方 DSH 页面不能重启运行时"@,
        },
{
    if on_official_page {
        Err("官方 DSH 页面不能重启运行时".to_string())
    } else {
        Ok(())
    }
}

/// Whether a window is the plugin manager.
pub fn is_manager_window(label: &str) -> (r: bool)
    ensures
        r == (label@ == "plugin-manager"@),
{
    text::same(label, "plugin-manager")
}

/// A quotient rounded towards zero.
pub open spec fn quotient(value: int, by: int) -> int {
    if value >= 0 {
        value / by
    } else {
        -((-value) / by)
    }
}

fn divide(value: i64, by: i64) -> (r: i64)
    requires
        by > 0,
        value > i64::MIN,
    ensures
        r == quotient(value as int, by as int),
{
    if value >= 0 {
        value / by
    } else {
        -((-value) / by)
    }
}

/// Where the plugin manager stands over the main window: in the middle, one
/// third down. All lengths are in physical pixels.
pub fn position_manager(
    origin: (i32, i32),
    inner: (u32, u32),
    size: (u32, u32),
) -> (r: (i64, i64))
    ensures
        r.0 == origin.0 + quotient(inner.0 - size.0, 2),
        r.1 == origin.1 + quotient(inner.1 - size.1, 3),
{
    let x = origin.0 as i64 + divide(inner.0 as i64 - size.0 as i64, 2);
    let y = origin.1 as i64 + divide(inner.1 as i64 - size.1 as i64, 3);
    (x, y)
}

/// The greater of two numbers.
pub open spec fn greater(left: int, right: int) -> int {
    if left >= right {
        left
    } else {
        right
    }
}

/// Where the toast stands over the main window: in the lower right corner, a
/// margin away from it, and never nearer than a margin to the upper left one.
/// All lengths are in physical pixels.
pub fn position_update_toast(
    origin: (i32, i32),
    inner: (u32, u32),
    size: (u32, u32),
    margin: i32,
) -> (r: (i64, i64))
    ensures
        r.0 == greater(origin.0 + inner.0 - size.0 - margin, origin.0 + margin),
        r.1 == greater(origin.1 + inner.1 - size.1 - margin, origin.1 + margin),
{
    let x = origin.0 as i64 + inner.0 as i64 - size.0 as i64 - margin as i64;
    let y = origin.1 as i64 + inner.1 as i64 - size.1 as i64 - margin as i64;
    let least_x = origin.0 as i64 + margin as i64;
    let least_y = origin.1 as i64 + margin as i64;
    (
        if x >= least_x {
            x
        } else {
            least_x
        },
        if y >= least_y {
            y
        } else {
            least_y
        },
    )
}

/// A job is under way in every phase but those in which nothing happens, an
/// offer stands, or a job has failed; and a toast is shown in every case but
/// where nothing happens and nothing is said.
pub proof fn only_silence_hides_the_toast(snapshot: SnapshotView)
    ensures
        working(snapshot.update_phase) <==> snapshot.update_phase != UpdatePhase::Idle
            && snapshot.update_phase != UpdatePhase::Available && snapshot.update_phase
            != UpdatePhase::Failed,
        !shows_toast(snapshot) <==> snapshot.update_phase == UpdatePhase::Idle
            && snapshot.update_message.len() == 0,
{
}

/// The entries of the menu and what they ask for, one for one.
pub proof fn each_entry_asks_for_its_job(id: Seq<char>)
    ensures
        menu_action(id) == Some(MenuAction::Check) <==> id == "dsh-check"@,
        menu_action(id) == Some(MenuAction::Install) <==> id == "dsh-install"@,
        menu_action(id) == Some(MenuAction::Restore) <==> id == "dsh-restore"@,
        menu_action(id) is None <==> id != "dsh-check"@ && id != "dsh-install"@ && id
            != "dsh-restore"@,
{
    reveal_strlit("dsh-check");
    reveal_strlit("dsh-install");
    reveal_strlit("dsh-restore");
    assert("dsh-check"@[4] == 'c');
    assert("dsh-install"@[4] == 'i');
    assert("dsh-restore"@[4] == 'r');
}

/// A page outside the application is reached by a web address of this machine
/// alone.
pub proof fn only_local_pages_are_reached(scheme: Seq<char>, host: Option<Seq<char>>)
    ensures
        scheme == "tauri"@ || scheme == "asset"@ ==> page_allowed(scheme, host),
        scheme != "tauri"@ && scheme != "asset"@ ==> (page_allowed(scheme, host) <==> (scheme
            == "http"@ || scheme == "https"@) && host is Some && (host->0 == "tauri.localhost"@
            || host->0 == "127.0.0.1"@)),
{
}

/// A rounded quotient is the nearest one towards zero.
pub proof fn quotients_are_rounded_towards_zero(value: int, by: int)
    requires
        by > 0,
    ensures
        value >= 0 ==> by * quotient(value, by) <= value < by * quotient(value, by) + by,
        value <= 0 ==> by * quotient(value, by) - by < value <= by * quotient(value, by),
{
    vstd::arithmetic::div_mod::lemma_fundamental_div_mod(value, by);
    vstd::arithmetic::div_mod::lemma_fundamental_div_mod(-value, by);
    assert(by * (-((-value) / by)) == -(by * ((-value) / by))) by (nonlinear_arith);
    assert(0 <= value % by < by);
    assert(0 <= (-value) % by < by);
}

/// The greater of two numbers is one of them, and not below the other.
pub proof fn the_greater_is_not_exceeded(left: int, right: int)
    ensures
        greater(left, right) >= left,
        greater(left, right) >= right,
        greater(left, right) == left || greater(left, right) == right,
{
}

/// The line of the menu ends with the version.
pub proof fn the_menu_names_the_version(version: Seq<char>)
    ensures
        current_line(version) == "当前 DSH "@ + version,
{
}

/// While a job runs nothing in the menu can be chosen. Else a check always can, an
/// installation can where a release is known and on offer or its installation has
/// failed, and the bundled version can be restored where another one runs. The
/// first line names the version that runs.
pub proof fn the_menu_follows_the_state(
    busy: bool,
    snapshot: &RuntimeSnapshot,
    source: RuntimeSource,
    r: MenuState,
)
    requires
        call_ensures(refresh_menu, (busy, snapshot, source), r),
    ensures
        busy ==> !r.check_enabled && !r.install_enabled && !r.restore_enabled,
        !busy ==> r.check_enabled,
        !busy && source == RuntimeSource::Sidecar ==> r.restore_enabled,
        source == RuntimeSource::Bundled ==> !r.restore_enabled,
        snapshot.available_version is None ==> !r.install_enabled,
        !busy && snapshot.available_version is Some && snapshot.update_phase
            == UpdatePhase::Available ==> r.install_enabled,
        !busy && snapshot.available_version is Some && snapshot.update_phase == UpdatePhase::Failed
            ==> r.install_enabled,
        r.install_enabled ==> snapshot.update_phase == UpdatePhase::Available
            || snapshot.update_phase == UpdatePhase::Failed,
        r.current_text@ == "当前 DSH "@ + snapshot.dsh_version@,
{
}

/// The menu begins with the bundled version and offers a check alone.
pub proof fn the_menu_begins_with_a_check(entries: Vec<MenuEntry>)
    requires
        call_ensures(build_menu, (), entries),
    ensures
        entries@.len() == 4,
        entries@[0].id@ == "dsh-current"@ && entries@[0].text@ == "当前 DSH "@ + "0.1.0-rc.6"@
            && !entries@[0].enabled,
        entries@[1].id@ == "dsh-check"@ && entries@[1].text@ == "检查 DSH 更新"@
            && entries@[1].enabled,
        entries@[2].id@ == "dsh-install"@ && entries@[2].text@ == "安装并重启 DSH 更新"@
            && !entries@[2].enabled,
        entries@[3].id@ == "dsh-restore"@ && entries@[3].text@ == "恢复随包版本"@
            && !entries@[3].enabled,
{
    let shown = entries_view(entries@);
    assert(shown.len() == entries@.len());
    assert(shown[0] == entries@[0]@);
    assert(shown[1] == entries@[1]@);
    assert(shown[2] == entries@[2]@);
    assert(shown[3] == entries@[3]@);
}

/// A toast is dismissed from its own window alone, and never while a job runs.
pub proof fn a_toast_is_dismissed_when_nothing_runs(
    label: &str,
    snapshot: &RuntimeSnapshot,
    dismissed: bool,
)
    requires
        call_ensures(dismiss_update_toast, (label, snapshot), dismissed),
    ensures
        dismissed ==> label@ == "update-toast"@,
        dismissed ==> snapshot.update_phase == UpdatePhase::Idle || snapshot.update_phase
            == UpdatePhase::Available || snapshot.update_phase == UpdatePhase::Failed,
        label@ == "update-toast"@ && (snapshot.update_phase == UpdatePhase::Idle
            || snapshot.update_phase == UpdatePhase::Available || snapshot.update_phase
            == UpdatePhase::Failed) ==> dismissed,
{
}

/// The main window is revealed once the page of the runtime has been loaded in it.
pub proof fn the_window_waits_for_its_page(label: &str, finished: bool, owned: bool, shown: bool)
    requires
        call_ensures(reveals_window, (label, finished, owned), shown),
    ensures
        shown <==> label@ == "main"@ && finished && owned,
{
}

/// The page of the runtime itself cannot restart it; every other page can.
pub proof fn the_runtime_cannot_restart_itself(on_official_page: bool, r: Result<(), String>)
    requires
        call_ensures(restart_runtime, (on_official_page,), r),
    ensures
        r is Err <==> on_official_page,
        r matches Err(message) ==> message@ == "官方 DSH 页面不能重启运行时"@,
{
}

/// Plugins are managed from one window.
pub proof fn plugins_have_one_window(label: &str, r: bool)
    requires
        call_ensures(is_manager_window, (label,), r),
    ensures
        r <==> label@ == "plugin-manager"@,
{
}

/// The manager is put in the middle of the main window from side to side, to half
/// a point, and at a third of its height.
pub proof fn the_manager_is_put_over_the_window(
    origin: (i32, i32),
    inner: (u32, u32),
    size: (u32, u32),
    r: (i64, i64),
)
    requires
        call_ensures(position_manager, (origin, inner, size), r),
    ensures
        ({
            let left = r.0 - origin.0;
            let right = inner.0 - size.0 - left;
            let above = r.1 - origin.1;
            let below = inner.1 - size.1 - above;
            &&& -1 <= left - right <= 1
            &&& -2 <= below - 2 * above <= 2
        }),
{
    quotients_are_rounded_towards_zero(inner.0 - size.0, 2);
    quotients_are_rounded_towards_zero(inner.1 - size.1, 3);
}

/// The toast is put at the lower right corner of the main window, with the margin
/// to both sides, but never nearer to the upper left corner than the margin.
pub proof fn the_toast_is_put_at_the_corner(
    origin: (i32, i32),
    inner: (u32, u32),
    size: (u32, u32),
    margin: i32,
    r: (i64, i64),
)
    requires
        call_ensures(position_update_toast, (origin, inner, size, margin), r),
    ensures
        r.0 >= origin.0 + margin,
        r.1 >= origin.1 + margin,
        inner.0 >= size.0 + 2 * margin ==> r.0 + size.0 + margin == origin.0 + inner.0,
        inner.1 >= size.1 + 2 * margin ==> r.1 + size.1 + margin == origin.1 + inner.1,
        inner.0 <= size.0 + 2 * margin ==> r.0 == origin.0 + margin,
        inner.1 <= size.1 + 2 * margin ==> r.1 == origin.1 + margin,
{
}

} // verus!
