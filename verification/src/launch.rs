//! How the runtime is started: which program, with what, and in what
//! surroundings.

use vstd::prelude::*;
use vstd::string::*;

use crate::json;
use crate::location::Location;
use crate::runtime;
use crate::text;

verus! {

/// A part of a command: a text, a path that the caller has given, or a place
/// below the directory of the resources.
#[derive(Debug, PartialEq, Eq)]
pub enum Item<P> {
    Text(String),
    Given(P),
    Place(Location),
}

/// What an `Item` stands for.
pub enum ItemView<P> {
    Text(Seq<char>),
    Given(P),
    Place(Seq<Seq<char>>),
}

impl<P> View for Item<P> {
    type V = ItemView<P>;

    open spec fn view(&self) -> ItemView<P> {
        match self {
            Item::Text(content) => ItemView::Text(content@),
            Item::Given(path) => ItemView::Given(*path),
            Item::Place(place) => ItemView::Place(place@),
        }
    }
}

/// What a list of items stands for.
pub open spec fn items_view<P>(items: Seq<Item<P>>) -> Seq<ItemView<P>> {
    items.map_values(|item: Item<P>| item@)
}

/// How the runtime is started.
#[derive(Debug)]
pub struct Launcher<P> {
    pub program: Item<P>,
    pub prefix_args: Vec<Item<P>>,
    pub description: String,
    pub uses_npx: bool,
}

/// What a `Launcher` says.
#[verifier::ext_equal]
pub struct LauncherView<P> {
    pub program: ItemView<P>,
    pub prefix_args: Seq<ItemView<P>>,
    pub description: Seq<char>,
    pub uses_npx: bool,
}

impl<P> View for Launcher<P> {
    type V = LauncherView<P>;

    open spec fn view(&self) -> LauncherView<P> {
        LauncherView {
            program: self.program@,
            prefix_args: items_view(self.prefix_args@),
            description: self.description@,
            uses_npx: self.uses_npx,
        }
    }
}

// ---------------------------------------------------------------------------
// Places
// ---------------------------------------------------------------------------
/// Where the bundled Node is.
pub open spec fn node_place(resources: Seq<Seq<char>>, windows: bool) -> Seq<Seq<char>> {
    if windows {
        resources + seq!["resources"@, "dsh-runtime"@, "node"@, "node.exe"@]
    } else {
        resources + seq!["resources"@, "dsh-runtime"@, "node"@, "bin"@, "node"@]
    }
}

/// Where the bundled program is.
pub open spec fn entry_place(resources: Seq<Seq<char>>) -> Seq<Seq<char>> {
    resources + seq![
        "resources"@,
        "dsh-runtime"@,
        "app"@,
        "node_modules"@,
        "@deepseek-ai"@,
        "dsh"@,
        "lib"@,
        "bin.js"@,
    ]
}

/// Where the bundled Node is.
pub fn bundled_node(resources: &Location, windows: bool) -> (r: Location)
    ensures
        r@ == node_place(resources@, windows),
{
    let node = resources.join("resources").join("dsh-runtime").join("node");
    let r = if windows {
        node.join("node.exe")
    } else {
        node.join("bin").join("node")
    };
    assert(r@ =~= node_place(resources@, windows));
    r
}

/// Where the bundled program is.
pub fn bundled_entry(resources: &Location) -> (r: Location)
    ensures
        r@ == entry_place(resources@),
{
    let app = resources.join("resources").join("dsh-runtime").join("app");
    let package = app.join("node_modules").join("@deepseek-ai").join("dsh");
    let r = package.join("lib").join("bin.js");
    assert(r@ =~= entry_place(resources@));
    r
}

/// Where the plugin of the desktop is looked for, in this order.
pub fn desktop_plugin_places(resources: &Location) -> (r: Vec<Location>)
    ensures
        r@.len() == 2,
        r@[0]@ == resources@ + seq!["resources"@, "desktop-plugin"@, "index.mjs"@],
        r@[1]@ == resources@ + seq!["desktop-plugin"@, "index.mjs"@],
{
    let first = resources.join("resources").join("desktop-plugin").join("index.mjs");
    let second = resources.join("desktop-plugin").join("index.mjs");
    assert(first@ =~= resources@ + seq!["resources"@, "desktop-plugin"@, "index.mjs"@]);
    assert(second@ =~= resources@ + seq!["desktop-plugin"@, "index.mjs"@]);
    let mut out: Vec<Location> = Vec::new();
    out.push(first);
    out.push(second);
    out
}

/// Which of the places where the plugin of the desktop is looked for has it:
/// the first one.
pub fn resolve_desktop_plugin(present: &Vec<bool>) -> (r: Result<usize, String>)
    ensures
        match r {
            Ok(index) => index < present@.len() && present@[index as int] && forall|j: int|
                0 <= j < index ==> !(#[trigger] present@[j]),
            Err(message) => !present@.contains(true) && message@
                == "desktop DSH plugin resource is missing"@,
        },
{
    let mut i: usize = 0;
    while i < present.len()
        invariant
            i <= present@.len(),
            forall|j: int| 0 <= j < i ==> !(#[trigger] present@[j]),
        decreases present@.len() - i,
    {
        if present[i] {
            return Ok(i);
        }
        i += 1;
    }
    Err("desktop DSH plugin resource is missing".to_string())
}

// ---------------------------------------------------------------------------
// The launcher
// ---------------------------------------------------------------------------
/// How the runtime is started: with the bundled Node and program where both
/// are there, else with npx.
pub open spec fn launcher_for<P>(
    resources: Seq<Seq<char>>,
    windows: bool,
    bundled: bool,
    npx: Option<P>,
    package_spec: Seq<char>,
) -> LauncherView<P> {
    if bundled {
        LauncherView {
            program: ItemView::Place(node_place(resources, windows)),
            prefix_args: seq![ItemView::Place(entry_place(resources))],
            description: "随安装包交付的官方 DSH npm 运行时"@,
            uses_npx: false,
        }
    } else {
        LauncherView {
            program: match npx {
                Some(path) => ItemView::Given(path),
                None => ItemView::Text(
                    if windows {
                        "npx.cmd"@
                    } else {
                        "npx"@
                    },
                ),
            },
            prefix_args: seq![ItemView::Text("--yes"@), ItemView::Text(package_spec)],
            description: "系统 npx + 固定官方 DSH 版本"@,
            uses_npx: true,
        }
    }
}

/// How the runtime is started, given whether the bundled Node and the bundled
/// program are there, and the npx that was asked for, where one was.
pub fn resolve_launcher<P>(
    resources: &Location,
    windows: bool,
    node_present: bool,
    entry_present: bool,
    npx: Option<P>,
    package_spec: &str,
) -> (r: Launcher<P>)
    ensures
        r@ == launcher_for(
            resources@,
            windows,
            node_present && entry_present,
            npx,
            package_spec@,
        ),
{
    let ghost wanted = launcher_for(
        resources@,
        windows,
        node_present && entry_present,
        npx,
        package_spec@,
    );
    let mut prefix_args: Vec<Item<P>> = Vec::new();
    if node_present && entry_present {
        prefix_args.push(Item::Place(bundled_entry(resources)));
        assert(items_view(prefix_args@) =~= wanted.prefix_args);
        return Launcher {
            program: Item::Place(bundled_node(resources, windows)),
            prefix_args,
            description: "随安装包交付的官方 DSH npm 运行时".to_string(),
            uses_npx: false,
        };
    }
    let program = match npx {
        Some(path) => Item::Given(path),
        None => {
            let name = if windows {
                "npx.cmd"
            } else {
                "npx"
            };
            Item::Text(name.to_string())
        },
    };
    prefix_args.push(Item::Text("--yes".to_string()));
    prefix_args.push(Item::Text(package_spec.to_owned()));
    assert(items_view(prefix_args@) =~= wanted.prefix_args);
    Launcher {
        program,
        prefix_args,
        description: "系统 npx + 固定官方 DSH 版本".to_string(),
        uses_npx: true,
    }
}

// ---------------------------------------------------------------------------
// Arguments and settings
// ---------------------------------------------------------------------------
/// What the program is called with.
pub open spec fn web_arguments<P>(patch: Option<P>, port: u16) -> Seq<ItemView<P>> {
    let lead = match patch {
        Some(path) => seq![
            ItemView::Text("web"@),
            ItemView::Text("--patch"@),
            ItemView::Given(path),
        ],
        None => seq![ItemView::Text("web"@)],
    };
    lead + seq![
        ItemView::Text("--host"@),
        ItemView::Text("127.0.0.1"@),
        ItemView::Text("--port"@),
        ItemView::Text(text::decimal(port as nat)),
    ]
}

/// What the program is called with.
pub fn dsh_arguments<P>(patch: Option<P>, port: u16) -> (r: Vec<Item<P>>)
    ensures
        items_view(r@) == web_arguments(patch, port),
{
    let mut out: Vec<Item<P>> = Vec::new();
    out.push(Item::Text("web".to_string()));
    let ghost wanted = web_arguments(patch, port);
    match patch {
        Some(path) => {
            out.push(Item::Text("--patch".to_string()));
            out.push(Item::Given(path));
        },
        None => {},
    }
    out.push(Item::Text("--host".to_string()));
    out.push(Item::Text("127.0.0.1".to_string()));
    out.push(Item::Text("--port".to_string()));
    out.push(Item::Text(text::decimal_text(port as u64)));
    assert(items_view(out@) =~= wanted);
    out
}

/// What a launcher is called with, to call the program with `rest`.
pub open spec fn launch_items<P>(
    prefix: Seq<ItemView<P>>,
    uses_npx: bool,
    cache: P,
    rest: Seq<ItemView<P>>,
) -> Seq<ItemView<P>> {
    if uses_npx {
        seq![ItemView::Text("--cache"@), ItemView::Given(cache)] + prefix + rest
    } else {
        prefix + rest
    }
}

/// What a launcher is called with, to call the program with `rest`.
pub fn launch_arguments<P>(
    prefix_args: Vec<Item<P>>,
    uses_npx: bool,
    cache: P,
    rest: Vec<Item<P>>,
) -> (r: Vec<Item<P>>)
    ensures
        items_view(r@) == launch_items(
            items_view(prefix_args@),
            uses_npx,
            cache,
            items_view(rest@),
        ),
{
    let ghost wanted = launch_items(items_view(prefix_args@), uses_npx, cache, items_view(rest@));
    let mut prefix = prefix_args;
    let mut tail = rest;
    let mut out: Vec<Item<P>> = Vec::new();
    if uses_npx {
        out.push(Item::Text("--cache".to_string()));
        out.push(Item::Given(cache));
    }
    out.append(&mut prefix);
    out.append(&mut tail);
    assert(items_view(out@) =~= wanted);
    out
}

/// What a list of settings says.
pub open spec fn settings_view<P>(settings: Seq<(String, Item<P>)>) -> Seq<
    (Seq<char>, ItemView<P>),
> {
    settings.map_values(|setting: (String, Item<P>)| (setting.0@, setting.1@))
}

/// The settings that keep npm to its work.
pub open spec fn quiet_settings<P>() -> Seq<(Seq<char>, ItemView<P>)> {
    seq![
        ("NPM_CONFIG_AUDIT"@, ItemView::Text("false"@)),
        ("NPM_CONFIG_FUND"@, ItemView::Text("false"@)),
        ("NPM_CONFIG_UPDATE_NOTIFIER"@, ItemView::Text("false"@)),
        ("NO_UPDATE_NOTIFIER"@, ItemView::Text("1"@)),
    ]
}

fn add_quiet_settings<P>(settings: &mut Vec<(String, Item<P>)>)
    ensures
        settings_view(final(settings)@) == settings_view(old(settings)@) + quiet_settings::<P>(),
{
    let ghost before = settings_view(settings@);
    settings.push(("NPM_CONFIG_AUDIT".to_string(), Item::Text("false".to_string())));
    settings.push(("NPM_CONFIG_FUND".to_string(), Item::Text("false".to_string())));
    settings.push(("NPM_CONFIG_UPDATE_NOTIFIER".to_string(), Item::Text("false".to_string())));
    settings.push(("NO_UPDATE_NOTIFIER".to_string(), Item::Text("1".to_string())));
    assert(settings_view(settings@) =~= before + quiet_settings::<P>());
}

/// The settings that the runtime is started with.
pub fn runtime_settings<P>(home: P, cache: P) -> (r: Vec<(String, Item<P>)>)
    ensures
        settings_view(r@) == seq![
            ("DSH_HOME"@, ItemView::Given(home)),
            ("NPM_CONFIG_CACHE"@, ItemView::Given(cache)),
        ] + quiet_settings::<P>(),
{
    let mut out: Vec<(String, Item<P>)> = Vec::new();
    out.push(("DSH_HOME".to_string(), Item::Given(home)));
    out.push(("NPM_CONFIG_CACHE".to_string(), Item::Given(cache)));
    assert(settings_view(out@) =~= seq![
        ("DSH_HOME"@, ItemView::Given(home)),
        ("NPM_CONFIG_CACHE"@, ItemView::Given(cache)),
    ]);
    add_quiet_settings(&mut out);
    out
}

/// The settings that npm is started with, to install from this registry.
pub fn install_settings<P>(registry: &str, cache: P) -> (r: Vec<(String, Item<P>)>)
    ensures
        settings_view(r@) == seq![
            ("NPM_CONFIG_REGISTRY"@, ItemView::Text(registry@)),
            ("NPM_CONFIG_CACHE"@, ItemView::Given(cache)),
        ] + quiet_settings::<P>(),
{
    let mut out: Vec<(String, Item<P>)> = Vec::new();
    out.push(("NPM_CONFIG_REGISTRY".to_string(), Item::Text(registry.to_owned())));
    out.push(("NPM_CONFIG_CACHE".to_string(), Item::Given(cache)));
    assert(settings_view(out@) =~= seq![
        ("NPM_CONFIG_REGISTRY"@, ItemView::Text(registry@)),
        ("NPM_CONFIG_CACHE"@, ItemView::Given(cache)),
    ]);
    add_quiet_settings(&mut out);
    out
}

/// The directories of a search path, behind these ones.
pub open spec fn behind<P>(first: Seq<P>, current: Option<Vec<P>>) -> Seq<P> {
    match current {
        Some(rest) => first + rest@,
        None => first,
    }
}

/// The search path with these directories in front.
pub fn crate_path_with<P>(extra: Vec<P>, current: Option<Vec<P>>) -> (r: Vec<P>)
    ensures
        r@ == behind(extra@, current),
{
    let mut out = extra;
    match current {
        Some(rest) => {
            let mut tail = rest;
            out.append(&mut tail);
        },
        None => {},
    }
    out
}

/// The search path with the directory of the program in front, where the
/// program is in one.
pub fn bundled_path_env<P>(directory: Option<P>, current: Option<Vec<P>>) -> (r: Option<Vec<P>>)
    ensures
        match directory {
            Some(own) => r is Some && r->0@ == behind(seq![own], current),
            None => r is None,
        },
{
    match directory {
        Some(own) => {
            let mut first: Vec<P> = Vec::new();
            first.push(own);
            assert(first@ =~= seq![own]);
            Some(crate_path_with(first, current))
        },
        None => None,
    }
}

// ---------------------------------------------------------------------------
// What the user may set
// ---------------------------------------------------------------------------
/// How many seconds a start may take: what was asked for, where that is a
/// number above zero.
pub open spec fn timeout_for(value: Option<Seq<char>>) -> nat {
    match value {
        Some(content) => match text::unsigned_value(content) {
            Some(seconds) => if seconds > 0 {
                seconds
            } else {
                runtime::DEFAULT_STARTUP_TIMEOUT_SECS as nat
            },
            None => runtime::DEFAULT_STARTUP_TIMEOUT_SECS as nat,
        },
        None => runtime::DEFAULT_STARTUP_TIMEOUT_SECS as nat,
    }
}

/// How many seconds a start may take.
pub fn startup_timeout(value: Option<&str>) -> (r: u64)
    ensures
        r == timeout_for(text::str_opt(value)),
        r > 0,
{
    match value {
        Some(content) => match text::parse_unsigned(content) {
            Some(seconds) => if seconds > 0 {
                seconds
            } else {
                runtime::DEFAULT_STARTUP_TIMEOUT_SECS
            },
            None => runtime::DEFAULT_STARTUP_TIMEOUT_SECS,
        },
        None => runtime::DEFAULT_STARTUP_TIMEOUT_SECS,
    }
}

/// The package that is started: what was asked for, or the official one.
pub fn package_spec(asked: Option<String>) -> (r: String)
    ensures
        r@ == match asked {
            Some(own) => own@,
            None => runtime::OFFICIAL_DSH_PACKAGE@,
        },
{
    match asked {
        Some(own) => own,
        None => runtime::OFFICIAL_DSH_PACKAGE.to_string(),
    }
}

/// The directory that the runtime works in: the one that was asked for, or the
/// standard one.
pub fn workspace<P>(asked: Option<P>, standard: P) -> (r: P)
    ensures
        r == (match asked {
            Some(place) => place,
            None => standard,
        }),
{
    match asked {
        Some(place) => place,
        None => standard,
    }
}

/// Whether the patch that brings in the plugin of the desktop is used, given
/// whether the user has turned it off.
pub fn uses_generated_patch(disabled: bool) -> (r: bool)
    ensures
        r == !disabled,
{
    !disabled
}

// ---------------------------------------------------------------------------
// The patch and the log
// ---------------------------------------------------------------------------
/// Where the patch that brings in the plugin of the desktop is written.
pub fn generated_patch_path(dsh_home: &Location) -> (r: Location)
    ensures
        r@ == dsh_home@.push("desktop.generated.patch.yml"@),
{
    dsh_home.join("desktop.generated.patch.yml")
}

/// The patch that brings in the plugin of the desktop.
pub open spec fn patch_text(
    plugin_path: Seq<char>,
    desktop_version: Seq<char>,
    package_spec: Seq<char>,
) -> Seq<char> {
    "# Generated by DeepSeek Harness Desktop.\n- insert:\n    - id: desktop-runtime\n      name: "@
        + json::quoted(plugin_path) + "\n      config:\n        desktopVersion: "@ + json::quoted(
        desktop_version,
    ) + "\n        dshPackage: "@ + json::quoted(package_spec) + "\n"@
}

/// The patch that brings in the plugin of the desktop.
pub fn generated_patch(plugin_path: &str, desktop_version: &str, package_spec: &str) -> (r: Result<
    String,
    String,
>)
    ensures
        r is Ok,
        r->Ok_0@ == patch_text(plugin_path@, desktop_version@, package_spec@),
{
    let name = match json::json_string(plugin_path) {
        Ok(written) => written,
        Err(error) => {
            return Err(error);
        },
    };
    let version = match json::json_string(desktop_version) {
        Ok(written) => written,
        Err(error) => {
            return Err(error);
        },
    };
    let package = match json::json_string(package_spec) {
        Ok(written) => written,
        Err(error) => {
            return Err(error);
        },
    };
    let mut out =
        "# Generated by DeepSeek Harness Desktop.\n- insert:\n    - id: desktop-runtime\n      name: ".to_string();
    out.append(name.as_str());
    out.append("\n      config:\n        desktopVersion: ");
    out.append(version.as_str());
    out.append("\n        dshPackage: ");
    out.append(package.as_str());
    out.append("\n");
    Ok(out)
}

/// A line of the log.
pub fn log_line(stream: &str, line: &str) -> (r: String)
    ensures
        r@ == "["@ + stream@ + "] "@ + line@,
{
    let mut out = text::join3("[", stream, "] ");
    out.append(line);
    out
}

/// Whether a line announces that the server is up.
pub fn announces_server(line: &str) -> (r: bool)
    ensures
        r == text::holds(line@, "dsh web:"@),
{
    text::contains(line, "dsh web:")
}

// ---------------------------------------------------------------------------
// Laws
// ---------------------------------------------------------------------------
/// The flags of the launcher and of the program's own start stand before those
/// of its server, and the server is always bound to this machine alone.
pub proof fn server_flags_come_last<P>(
    prefix: Seq<ItemView<P>>,
    uses_npx: bool,
    cache: P,
    patch: Option<P>,
    port: u16,
)
    ensures
        ({
            let all = launch_items(prefix, uses_npx, cache, web_arguments(patch, port));
            &&& all.len() >= 5
            &&& all[all.len() - 4] == ItemView::<P>::Text("--host"@)
            &&& all[all.len() - 3] == ItemView::<P>::Text("127.0.0.1"@)
            &&& all[all.len() - 2] == ItemView::<P>::Text("--port"@)
            &&& all[all.len() - 1] == ItemView::<P>::Text(text::decimal(port as nat))
        }),
{
}

/// The runtime that was delivered is started by its own Node; without one the
/// package is started by npx, the one that was found or the one on the search
/// path, in exactly the version that the desktop is made for.
pub proof fn a_runtime_is_started_by_its_own_node<P>(
    resources: Seq<Seq<char>>,
    windows: bool,
    npx: Option<P>,
    package_spec: Seq<char>,
)
    ensures
        ({
            let own = launcher_for(resources, windows, true, npx, package_spec);
            let other = launcher_for(resources, windows, false, npx, package_spec);
            &&& own.program == ItemView::<P>::Place(
                if windows {
                    resources + seq!["resources"@, "dsh-runtime"@, "node"@, "node.exe"@]
                } else {
                    resources + seq!["resources"@, "dsh-runtime"@, "node"@, "bin"@, "node"@]
                },
            )
            &&& own.prefix_args.len() == 1
            &&& own.prefix_args[0] == ItemView::<P>::Place(
                resources + seq![
                    "resources"@,
                    "dsh-runtime"@,
                    "app"@,
                    "node_modules"@,
                    "@deepseek-ai"@,
                    "dsh"@,
                    "lib"@,
                    "bin.js"@,
                ],
            )
            &&& own.description == "随安装包交付的官方 DSH npm 运行时"@
            &&& !own.uses_npx
            &&& other.program == (match npx {
                Some(path) => ItemView::Given(path),
                None => ItemView::Text(
                    if windows {
                        "npx.cmd"@
                    } else {
                        "npx"@
                    },
                ),
            })
            &&& other.prefix_args.len() == 2
            &&& other.prefix_args[0] == ItemView::<P>::Text("--yes"@)
            &&& other.prefix_args[1] == ItemView::<P>::Text(package_spec)
            &&& other.description == "系统 npx + 固定官方 DSH 版本"@
            &&& other.uses_npx
        }),
{
}

/// The server is started with the patch where there is one, on this machine and on
/// the port that was found.
pub proof fn a_server_is_started_word_for_word<P>(patch: P, port: u16)
    ensures
        web_arguments::<P>(None, port) == seq![
            ItemView::<P>::Text("web"@),
            ItemView::Text("--host"@),
            ItemView::Text("127.0.0.1"@),
            ItemView::Text("--port"@),
            ItemView::Text(text::decimal(port as nat)),
        ],
        web_arguments(Some(patch), port) == seq![
            ItemView::Text("web"@),
            ItemView::Text("--patch"@),
            ItemView::Given(patch),
            ItemView::Text("--host"@),
            ItemView::Text("127.0.0.1"@),
            ItemView::Text("--port"@),
            ItemView::Text(text::decimal(port as nat)),
        ],
{
    assert(web_arguments::<P>(None, port) =~= seq![
        ItemView::<P>::Text("web"@),
        ItemView::Text("--host"@),
        ItemView::Text("127.0.0.1"@),
        ItemView::Text("--port"@),
        ItemView::Text(text::decimal(port as nat)),
    ]);
    assert(web_arguments(Some(patch), port) =~= seq![
        ItemView::Text("web"@),
        ItemView::Text("--patch"@),
        ItemView::Given(patch),
        ItemView::Text("--host"@),
        ItemView::Text("127.0.0.1"@),
        ItemView::Text("--port"@),
        ItemView::Text(text::decimal(port as nat)),
    ]);
}

/// The arguments of the launcher come before those of the program, and none of
/// either is lost; npx is given its cache before both.
pub proof fn no_argument_is_lost<P>(
    prefix: Seq<ItemView<P>>,
    cache: P,
    rest: Seq<ItemView<P>>,
)
    ensures
        launch_items(prefix, false, cache, rest) == prefix + rest,
        launch_items(prefix, true, cache, rest).len() == 2 + prefix.len() + rest.len(),
        launch_items(prefix, true, cache, rest)[0] == ItemView::<P>::Text("--cache"@),
        launch_items(prefix, true, cache, rest)[1] == ItemView::Given(cache),
        launch_items(prefix, true, cache, rest).skip(2) == prefix + rest,
{
    assert(launch_items(prefix, true, cache, rest).skip(2) =~= prefix + rest);
}

/// npm is told to be quiet, by its four settings.
pub proof fn npm_is_told_to_be_quiet<P>()
    ensures
        quiet_settings::<P>().len() == 4,
        quiet_settings::<P>()[0] == ("NPM_CONFIG_AUDIT"@, ItemView::<P>::Text("false"@)),
        quiet_settings::<P>()[1] == ("NPM_CONFIG_FUND"@, ItemView::<P>::Text("false"@)),
        quiet_settings::<P>()[2] == ("NPM_CONFIG_UPDATE_NOTIFIER"@, ItemView::<P>::Text("false"@)),
        quiet_settings::<P>()[3] == ("NO_UPDATE_NOTIFIER"@, ItemView::<P>::Text("1"@)),
{
}

/// A search path keeps its directories, in their order, behind the new ones.
pub proof fn a_search_path_keeps_its_directories<P>(first: Seq<P>, current: Vec<P>)
    ensures
        behind(first, None) == first,
        behind(first, Some(current)).len() == first.len() + current@.len(),
        behind(first, Some(current)).take(first.len() as int) == first,
        behind(first, Some(current)).skip(first.len() as int) == current@,
{
    assert(behind(first, Some(current)).take(first.len() as int) =~= first);
    assert(behind(first, Some(current)).skip(first.len() as int) =~= current@);
}

/// A start may take as many seconds as was asked for, where that is a number above
/// zero, and else three hundred.
pub proof fn a_start_may_take_what_was_asked_for(value: Seq<char>, seconds: nat)
    ensures
        timeout_for(None) == 300,
        text::unsigned_value(value) is None ==> timeout_for(Some(value)) == 300,
        text::unsigned_value(value) == Some(0nat) ==> timeout_for(Some(value)) == 300,
        text::unsigned_value(value) == Some(seconds) && seconds > 0 ==> timeout_for(Some(value))
            == seconds,
        timeout_for(Some(value)) > 0,
        0 < seconds <= u64::MAX ==> timeout_for(Some(text::decimal(seconds))) == seconds,
{
    text::decimals_are_read_back(seconds);
}

/// The patch of the desktop names the plugin, the version of the desktop and the
/// package, each written as JSON, each at its own place.
pub proof fn the_patch_names_what_it_is_for(
    plugin_path: Seq<char>,
    desktop_version: Seq<char>,
    package_spec: Seq<char>,
)
    ensures
        patch_text(plugin_path, desktop_version, package_spec)
            == "# Generated by DeepSeek Harness Desktop.\n- insert:\n    - id: desktop-runtime\n      name: "@
            + json::quoted(plugin_path) + "\n      config:\n        desktopVersion: "@
            + json::quoted(desktop_version) + "\n        dshPackage: "@ + json::quoted(package_spec)
            + "\n"@,
{
}

/// The plugin of the desktop is taken from the first place where it is; where it is
/// nowhere, that is an error.
pub proof fn the_first_place_of_the_plugin_counts(present: &Vec<bool>, r: Result<usize, String>)
    requires
        call_ensures(resolve_desktop_plugin, (present,), r),
    ensures
        r is Ok <==> exists|i: int| 0 <= i < present@.len() && #[trigger] present@[i],
        r matches Ok(index) ==> index < present@.len() && present@[index as int] && forall|j: int|
            0 <= j < index ==> !(#[trigger] present@[j]),
        r matches Err(message) ==> message@ == "desktop DSH plugin resource is missing"@,
{
    if exists|i: int| 0 <= i < present@.len() && #[trigger] present@[i] {
        let i = choose|i: int| 0 <= i < present@.len() && #[trigger] present@[i];
        assert(present@.contains(present@[i]));
    }
}

/// The plugin of the desktop is looked for among the resources and then beside
/// them.
pub proof fn the_plugin_has_two_places(resources: &Location, places: Vec<Location>)
    requires
        call_ensures(desktop_plugin_places, (resources,), places),
    ensures
        places@.len() == 2,
        places@[0]@ == resources@ + seq!["resources"@, "desktop-plugin"@, "index.mjs"@],
        places@[1]@ == resources@ + seq!["desktop-plugin"@, "index.mjs"@],
{
}

/// A runtime is taken from the delivery only where both its Node and its program
/// are there.
pub proof fn half_a_delivery_is_none<P>(
    resources: &Location,
    windows: bool,
    node_present: bool,
    entry_present: bool,
    npx: Option<P>,
    package_spec: &str,
    r: Launcher<P>,
)
    requires
        call_ensures(
            resolve_launcher::<P>,
            (resources, windows, node_present, entry_present, npx, package_spec),
            r,
        ),
    ensures
        r.uses_npx <==> !(node_present && entry_present),
{
}

/// A package, a workspace and a patch that were asked for are taken as they are.
pub proof fn what_was_asked_for_is_taken(
    asked: Option<String>,
    package: String,
    disabled: bool,
    generated: bool,
)
    requires
        call_ensures(package_spec, (asked,), package),
        call_ensures(uses_generated_patch, (disabled,), generated),
    ensures
        asked matches Some(own) ==> package@ == own@,
        asked is None ==> package@ == "@deepseek-ai/dsh@0.1.0-rc.6"@,
        generated <==> !disabled,
{
}

/// A workspace that was asked for is taken, and else the standard one.
pub proof fn a_workspace_is_taken<P>(asked: Option<P>, standard: P, r: P)
    requires
        call_ensures(workspace::<P>, (asked, standard), r),
    ensures
        asked matches Some(place) ==> r == place,
        asked is None ==> r == standard,
{
}

/// The runtime is started in its own home and with its own cache, and npm installs
/// from the registry that was asked for with the same cache; both are quiet.
pub proof fn programs_get_their_settings<P>(
    home: P,
    registry: &str,
    cache: P,
    started: Vec<(String, Item<P>)>,
    installing: Vec<(String, Item<P>)>,
)
    requires
        call_ensures(runtime_settings::<P>, (home, cache), started),
        call_ensures(install_settings::<P>, (registry, cache), installing),
    ensures
        settings_view(started@).len() == 6,
        settings_view(started@)[0] == ("DSH_HOME"@, ItemView::Given(home)),
        settings_view(started@)[1] == ("NPM_CONFIG_CACHE"@, ItemView::Given(cache)),
        settings_view(installing@).len() == 6,
        settings_view(installing@)[0] == ("NPM_CONFIG_REGISTRY"@, ItemView::<P>::Text(registry@)),
        settings_view(installing@)[1] == ("NPM_CONFIG_CACHE"@, ItemView::Given(cache)),
        settings_view(started@).skip(2) == quiet_settings::<P>(),
        settings_view(installing@).skip(2) == quiet_settings::<P>(),
{
    assert(settings_view(started@).skip(2) =~= quiet_settings::<P>());
    assert(settings_view(installing@).skip(2) =~= quiet_settings::<P>());
}

/// The directory of the bundled Node comes first on the search path, and nothing
/// that was on it is lost.
pub proof fn the_own_directory_comes_first<P>(
    directory: Option<P>,
    current: Option<Vec<P>>,
    r: Option<Vec<P>>,
)
    requires
        call_ensures(bundled_path_env::<P>, (directory, current), r),
    ensures
        r is Some <==> directory is Some,
        directory matches Some(own) ==> r->0@.len() > 0 && r->0@[0] == own,
        directory is Some && current is None ==> r->0@.len() == 1,
        directory is Some ==> (current matches Some(rest) ==> r->0@.skip(1) == rest@),
{
    if directory is Some {
        if let Some(rest) = current {
            assert(r->0@.skip(1) =~= rest@);
        }
    }
}

/// A line of the log says which stream it came from, and the server is announced by
/// a line that says so.
pub proof fn lines_are_kept_with_their_stream(
    stream: &str,
    line: &str,
    kept: String,
    announced: bool,
)
    requires
        call_ensures(log_line, (stream, line), kept),
        call_ensures(announces_server, (line,), announced),
    ensures
        kept@ == "["@ + stream@ + "] "@ + line@,
        announced <==> text::holds(line@, "dsh web:"@),
{
}

/// The patch of the desktop lies in the home of the runtime.
pub proof fn the_patch_lies_in_the_home(dsh_home: &Location, place: Location)
    requires
        call_ensures(generated_patch_path, (dsh_home,), place),
    ensures
        place@ == dsh_home@ + seq!["desktop.generated.patch.yml"@],
{
    assert(place@ =~= dsh_home@ + seq!["desktop.generated.patch.yml"@]);
}

} // verus!
