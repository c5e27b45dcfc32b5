//! The plugins of the user: which ones there are, and which of them are
//! disabled.

use vstd::prelude::*;
use vstd::string::*;

use crate::entries;
use crate::json;
use crate::json::JsonNode;
use crate::json::JsonView;
use crate::text;

verus! {

/// A plugin of the user.
#[derive(Debug, PartialEq, Eq)]
pub struct UserPlugin {
    pub name: String,
    pub version: String,
    pub enabled: bool,
}

/// What a `UserPlugin` says.
#[verifier::ext_equal]
pub struct PluginView {
    pub name: Seq<char>,
    pub version: Seq<char>,
    pub enabled: bool,
}

impl View for UserPlugin {
    type V = PluginView;

    open spec fn view(&self) -> PluginView {
        PluginView { name: self.name@, version: self.version@, enabled: self.enabled }
    }
}

/// What a list of plugins says.
pub open spec fn plugins_view(plugins: Seq<UserPlugin>) -> Seq<PluginView> {
    plugins.map_values(|plugin: UserPlugin| plugin@)
}

/// The names of the disabled plugins.
#[derive(Debug)]
pub struct UserPluginState {
    pub disabled: Vec<String>,
}

impl View for UserPluginState {
    type V = Seq<Seq<char>>;

    open spec fn view(&self) -> Seq<Seq<char>> {
        text::texts(self.disabled@)
    }
}

// ---------------------------------------------------------------------------
// The installed plugins
// ---------------------------------------------------------------------------
/// The bundles that every profile has.
pub open spec fn builtin(name: Seq<char>) -> bool {
    name == "@deepseek-ai/dsh-base"@ || name == "@deepseek-ai/dsh-web-app"@
}

fn is_builtin(name: &str) -> (r: bool)
    ensures
        r == builtin(name@),
{
    text::same(name, "@deepseek-ai/dsh-base") || text::same(name, "@deepseek-ai/dsh-web-app")
}

/// A version without the marks of a range in front.
pub open spec fn bare_version(stated: Option<Seq<char>>) -> Seq<char> {
    match stated {
        Some(range) => text::without_leading(range, "^~="@),
        None => Seq::empty(),
    }
}

/// What is shown of a bundle: nothing of one that every profile has.
pub open spec fn plugin_of(
    name: Seq<char>,
    stated: Option<Seq<char>>,
    disabled: Seq<Seq<char>>,
) -> Option<PluginView> {
    if builtin(name) {
        None
    } else {
        Some(
            PluginView {
                name,
                version: bare_version(stated),
                enabled: !disabled.contains(name),
            },
        )
    }
}

/// The version that the dependencies of a profile state for a package, without
/// the marks of a range in front.
pub fn dependency_version(stated: Option<&str>) -> (r: String)
    ensures
        r@ == bare_version(text::str_opt(stated)),
{
    match stated {
        Some(range) => text::trim_start_any(range, "^~="),
        None => String::new(),
    }
}

/// What an optional plugin says.
pub open spec fn plugin_opt(plugin: Option<UserPlugin>) -> Option<PluginView> {
    match plugin {
        Some(content) => Some(content@),
        None => None,
    }
}

/// What is shown of a bundle, given the version that the dependencies state.
pub fn user_plugin(name: String, stated: Option<&str>, disabled: &Vec<String>) -> (r: Option<
    UserPlugin,
>)
    ensures
        plugin_opt(r) == plugin_of(name@, text::str_opt(stated), text::texts(disabled@)),
{
    if is_builtin(name.as_str()) {
        return None;
    }
    let version = dependency_version(stated);
    let enabled = !text::listed(disabled, name.as_str());
    Some(UserPlugin { name, version, enabled })
}

/// The texts in a list of JSON texts; whatever is none is left out.
pub open spec fn text_items(items: Seq<Seq<char>>) -> Seq<Seq<char>>
    decreases items.len(),
{
    if items.len() == 0 {
        Seq::empty()
    } else {
        let before = text_items(items.drop_last());
        match json::text_of_node(json::json_node(items.last())) {
            Some(content) => before.push(content),
            None => before,
        }
    }
}

/// The bundles that the description of a profile names.
pub open spec fn bundles_in(manifest: Seq<char>) -> Seq<Seq<char>> {
    match json::node_at(manifest, seq!["dsh"@, "profile"@, "bundles"@]) {
        Some(JsonView::List(items)) => text_items(items),
        _ => Seq::empty(),
    }
}

/// The dependencies in the description of a profile.
pub open spec fn dependencies_in(manifest: Seq<char>) -> Option<JsonView> {
    match json::field_of(json::json_node(manifest), "dependencies"@) {
        Some(field) => Some(json::json_node(field)),
        None => None,
    }
}

/// The version that dependencies state for a package.
pub open spec fn stated_by(dependencies: Option<JsonView>, name: Seq<char>) -> Option<Seq<char>> {
    match dependencies {
        Some(node) => match json::field_of(node, name) {
            Some(field) => json::text_of_node(json::json_node(field)),
            None => None,
        },
        None => None,
    }
}

/// The version that the description of a profile states for a package.
pub open spec fn stated_in(manifest: Seq<char>, name: Seq<char>) -> Option<Seq<char>> {
    stated_by(dependencies_in(manifest), name)
}

/// The plugins among these bundles.
pub open spec fn plugins_among(
    manifest: Seq<char>,
    names: Seq<Seq<char>>,
    disabled: Seq<Seq<char>>,
) -> Seq<PluginView>
    decreases names.len(),
{
    if names.len() == 0 {
        Seq::empty()
    } else {
        let before = plugins_among(manifest, names.drop_last(), disabled);
        match plugin_of(names.last(), stated_in(manifest, names.last()), disabled) {
            Some(plugin) => before.push(plugin),
            None => before,
        }
    }
}

/// The plugins of the user.
pub open spec fn plugins_in(manifest: Option<Seq<char>>, disabled: Seq<Seq<char>>) -> Seq<
    PluginView,
> {
    match manifest {
        Some(source) => plugins_among(source, bundles_in(source), disabled),
        None => Seq::empty(),
    }
}

/// The texts in a list of JSON texts.
fn read_texts(items: &Vec<String>) -> (r: Vec<String>)
    ensures
        text::texts(r@) == text_items(text::texts(items@)),
{
    let ghost all = text::texts(items@);
    let mut out: Vec<String> = Vec::new();
    let mut i: usize = 0;
    assert(all.take(0) =~= Seq::<Seq<char>>::empty());
    assert(text::texts(out@) =~= Seq::<Seq<char>>::empty());
    while i < items.len()
        invariant
            i <= items@.len(),
            all == text::texts(items@),
            text::texts(out@) == text_items(all.take(i as int)),
        decreases items@.len() - i,
    {
        assert(all.take(i + 1).drop_last() =~= all.take(i as int));
        assert(all.take(i + 1).last() == items@[i as int]@);
        match json::read_json(items[i].as_str()).as_text() {
            Some(content) => {
                let ghost before = text::texts(out@);
                out.push(content);
                assert(text::texts(out@) =~= before.push(content@));
            },
            None => {},
        }
        i += 1;
    }
    assert(all.take(items@.len() as int) =~= all);
    out
}

/// The bundles that the description of a profile names.
pub fn read_bundles(manifest: &str) -> (r: Vec<String>)
    ensures
        text::texts(r@) == bundles_in(manifest@),
{
    match json::follow(manifest, "dsh", "profile", "bundles") {
        Some(JsonNode::List(items)) => read_texts(&items),
        _ => {
            let r: Vec<String> = Vec::new();
            assert(text::texts(r@) =~= Seq::<Seq<char>>::empty());
            r
        },
    }
}

/// The version that dependencies state for a package.
pub fn read_stated(dependencies: &Option<JsonNode>, name: &str) -> (r: Option<String>)
    ensures
        text::text_opt(r) == stated_by(json::node_opt(*dependencies), name@),
{
    match dependencies {
        Some(node) => match node.field(name) {
            Some(field) => json::read_json(field.as_str()).as_text(),
            None => None,
        },
        None => None,
    }
}

/// The plugins of the user, given the description of the profile, where there
/// is one, and the names of the disabled ones.
pub fn read_user_plugins(manifest: Option<&str>, disabled: &Vec<String>) -> (r: Vec<UserPlugin>)
    ensures
        plugins_view(r@) == plugins_in(text::str_opt(manifest), text::texts(disabled@)),
{
    let mut out: Vec<UserPlugin> = Vec::new();
    assert(plugins_view(out@) =~= Seq::<PluginView>::empty());
    let source = match manifest {
        Some(content) => content,
        None => {
            return out;
        },
    };
    let dependencies = match json::read_json(source).field("dependencies") {
        Some(field) => Some(json::read_json(field.as_str())),
        None => None,
    };
    let names = read_bundles(source);
    let ghost all = text::texts(names@);
    let mut i: usize = 0;
    assert(all.take(0) =~= Seq::<Seq<char>>::empty());
    while i < names.len()
        invariant
            i <= names@.len(),
            all == text::texts(names@),
            json::node_opt(dependencies) == dependencies_in(source@),
            plugins_view(out@) == plugins_among(
                source@,
                all.take(i as int),
                text::texts(disabled@),
            ),
        decreases names@.len() - i,
    {
        assert(all.take(i + 1).drop_last() =~= all.take(i as int));
        assert(all.take(i + 1).last() == names@[i as int]@);
        let name = names[i].clone();
        let stated = read_stated(&dependencies, name.as_str());
        let shown = match &stated {
            Some(range) => user_plugin(name, Some(range.as_str()), disabled),
            None => user_plugin(name, None, disabled),
        };
        match shown {
            Some(plugin) => {
                let ghost before = plugins_view(out@);
                out.push(plugin);
                assert(plugins_view(out@) =~= before.push(plugin@));
            },
            None => {},
        }
        i += 1;
    }
    assert(all.take(names@.len() as int) =~= all);
    out
}

/// A plugin of this name is among these.
pub open spec fn has_plugin(plugins: Seq<PluginView>, name: Seq<char>) -> bool {
    exists|i: int| 0 <= i < plugins.len() && (#[trigger] plugins[i]).name == name
}

/// Whether a plugin of this name is among these.
pub fn is_user_plugin(plugins: &Vec<UserPlugin>, name: &str) -> (r: bool)
    ensures
        r == has_plugin(plugins_view(plugins@), name@),
{
    let mut i: usize = 0;
    while i < plugins.len()
        invariant
            i <= plugins@.len(),
            forall|j: int| 0 <= j < i ==> (#[trigger] plugins@[j])@.name != name@,
        decreases plugins@.len() - i,
    {
        if text::same(plugins[i].name.as_str(), name) {
            assert(plugins_view(plugins@)[i as int].name == name@);
            return true;
        }
        i += 1;
    }
    assert forall|j: int| 0 <= j < plugins_view(plugins@).len() implies (
    #[trigger] plugins_view(plugins@)[j]).name != name@ by {
        assert(plugins@[j]@.name != name@);
    }
    false
}

// ---------------------------------------------------------------------------
// The disabled plugins
// ---------------------------------------------------------------------------
/// A list without a text.
pub open spec fn without_text(list: Seq<Seq<char>>, item: Seq<char>) -> Seq<Seq<char>> {
    list.filter(|other: Seq<char>| other != item)
}

/// Disables a plugin.
pub fn disable_plugin(state: &mut UserPluginState, name: &str)
    ensures
        final(state)@ == entries::with_text(old(state)@, name@),
{
    entries::add_text(&mut state.disabled, name);
}

/// Enables a plugin.
pub fn clear_disabled(state: &mut UserPluginState, name: &str)
    ensures
        final(state)@ == without_text(old(state)@, name@),
{
    let ghost all = text::texts(state.disabled@);
    let ghost others = |other: Seq<char>| other != name@;
    let mut out: Vec<String> = Vec::new();
    let mut i: usize = 0;
    assert(text::texts(out@) =~= Seq::<Seq<char>>::empty());
    assert(all.take(0).filter(others) =~= Seq::<Seq<char>>::empty()) by {
        reveal(Seq::filter);
    }
    while i < state.disabled.len()
        invariant
            i <= state.disabled@.len(),
            all == text::texts(state.disabled@),
            others == (|other: Seq<char>| other != name@),
            text::texts(out@) == all.take(i as int).filter(others),
        decreases state.disabled@.len() - i,
    {
        let item = state.disabled[i].as_str();
        proof {
            assert(all.take(i + 1).drop_last() =~= all.take(i as int));
            assert(all.take(i + 1).last() == item@);
            reveal(Seq::filter);
        }
        if !text::same(item, name) {
            let ghost before = text::texts(out@);
            out.push(item.to_owned());
            assert(text::texts(out@) =~= before.push(item@));
        }
        i += 1;
    }
    assert(all.take(state.disabled@.len() as int) =~= all);
    state.disabled = out;
}

/// Of these names, those of plugins that are installed.
pub open spec fn installed_among(names: Seq<Seq<char>>, plugins: Seq<PluginView>) -> Seq<
    Seq<char>,
> {
    names.filter(|name: Seq<char>| has_plugin(plugins, name))
}

/// Forgets the disabled plugins that are no longer installed.
pub fn retain_installed(state: &mut UserPluginState, installed: &Vec<UserPlugin>)
    ensures
        final(state)@ == installed_among(old(state)@, plugins_view(installed@)),
{
    let ghost all = text::texts(state.disabled@);
    let ghost there = |name: Seq<char>| has_plugin(plugins_view(installed@), name);
    let mut out: Vec<String> = Vec::new();
    let mut i: usize = 0;
    assert(text::texts(out@) =~= Seq::<Seq<char>>::empty());
    assert(all.take(0).filter(there) =~= Seq::<Seq<char>>::empty()) by {
        reveal(Seq::filter);
    }
    while i < state.disabled.len()
        invariant
            i <= state.disabled@.len(),
            all == text::texts(state.disabled@),
            there == (|name: Seq<char>| has_plugin(plugins_view(installed@), name)),
            text::texts(out@) == all.take(i as int).filter(there),
        decreases state.disabled@.len() - i,
    {
        let name = state.disabled[i].as_str();
        proof {
            assert(all.take(i + 1).drop_last() =~= all.take(i as int));
            assert(all.take(i + 1).last() == name@);
            reveal(Seq::filter);
        }
        if is_user_plugin(installed, name) {
            let ghost before = text::texts(out@);
            out.push(name.to_owned());
            assert(text::texts(out@) =~= before.push(name@));
        }
        i += 1;
    }
    assert(all.take(state.disabled@.len() as int) =~= all);
    state.disabled = out;
}

// ---------------------------------------------------------------------------
// The entries of a plugin
// ---------------------------------------------------------------------------
/// The patch that the description of a package names, by its path in the
/// package.
pub open spec fn patch_in(manifest: Seq<char>) -> Option<Seq<char>> {
    match json::node_at(manifest, seq!["dsh"@, "bundle"@, "patch"@]) {
        Some(node) => json::text_of_node(node),
        None => None,
    }
}

/// The patch that the description of a package names.
pub fn bundle_patch(manifest: &str) -> (r: Option<String>)
    ensures
        text::text_opt(r) == patch_in(manifest@),
{
    match json::follow(manifest, "dsh", "bundle", "patch") {
        Some(node) => node.as_text(),
        None => None,
    }
}

/// The entries of a plugin, given the description of its package, where there
/// is one; `read` gives what stands in a file of the package.
pub fn bundle_entry_ids<F: FnOnce(&str) -> Option<String>>(
    manifest: Option<&str>,
    read: F,
) -> (r: Vec<String>)
    requires
        forall|path: &str| call_requires(read, (path,)),
    ensures
        match manifest {
            None => text::texts(r@) == Seq::<Seq<char>>::empty(),
            Some(source) => match patch_in(source@) {
                None => text::texts(r@) == Seq::<Seq<char>>::empty(),
                Some(patch) => exists|path: &str, content: Option<String>|
                    path@ == patch && #[trigger] call_ensures(read, (path,), content)
                        && text::texts(r@) == match content {
                        Some(yaml) => entries::entry_ids(yaml@),
                        None => Seq::empty(),
                    },
            },
        },
{
    let none: Vec<String> = Vec::new();
    assert(text::texts(none@) =~= Seq::<Seq<char>>::empty());
    match manifest {
        None => none,
        Some(source) => match bundle_patch(source) {
            None => none,
            Some(patch) => match read(patch.as_str()) {
                Some(yaml) => entries::collect_entry_ids(yaml.as_str()),
                None => none,
            },
        },
    }
}

// ---------------------------------------------------------------------------
// The patch
// ---------------------------------------------------------------------------
/// The entries that `read` gives for the plugin of this name.
pub open spec fn entries_read<F: Fn(&str) -> Vec<String>>(
    read: F,
    name: Seq<char>,
    list: Vec<String>,
) -> bool {
    exists|asked: &str| asked@ == name && #[trigger] call_ensures(read, (asked,), list)
}

/// The entries that `read` gives for each of these plugins.
pub open spec fn all_entries_read<F: Fn(&str) -> Vec<String>>(
    read: F,
    names: Seq<Seq<char>>,
    lists: Seq<Vec<String>>,
) -> bool {
    lists.len() == names.len() && forall|i: int|
        0 <= i < names.len() ==> entries_read(read, names[i], #[trigger] lists[i])
}

/// Forgets the disabled plugins that are no longer installed, and gives the
/// patch that disables the entries of the others; `read` gives the entries of
/// a plugin.
pub fn sync_disable_patch<F: Fn(&str) -> Vec<String>>(
    state: &mut UserPluginState,
    installed: &Vec<UserPlugin>,
    read: F,
) -> (r: String)
    requires
        forall|name: &str| call_requires(read, (name,)),
    ensures
        final(state)@ == installed_among(old(state)@, plugins_view(installed@)),
        exists|lists: Seq<Vec<String>>| #[trigger]
            all_entries_read(read, final(state)@, lists) && r@ == entries::disable_patch(
                entries::merged_all(entries::lists_view(lists)),
            ),
{
    retain_installed(state, installed);
    let mut lists: Vec<Vec<String>> = Vec::new();
    let mut i: usize = 0;
    while i < state.disabled.len()
        invariant
            i <= state.disabled@.len(),
            lists@.len() == i,
            forall|name: &str| call_requires(read, (name,)),
            forall|j: int|
                0 <= j < i ==> entries_read(read, state.disabled@[j]@, #[trigger] lists@[j]),
        decreases state.disabled@.len() - i,
    {
        let name = state.disabled[i].as_str();
        let list = read(name);
        assert(entries_read(read, name@, list));
        lists.push(list);
        i += 1;
    }
    assert(all_entries_read(read, state@, lists@)) by {
        assert forall|j: int| 0 <= j < state@.len() implies entries_read(
            read,
            state@[j],
            #[trigger] lists@[j],
        ) by {
            assert(state@[j] == state.disabled@[j]@);
        }
    }
    entries::render_disable_patch(&entries::disabled_entries(&lists))
}

// ---------------------------------------------------------------------------
// Failures
// ---------------------------------------------------------------------------
/// A text cut to `max` characters, with an ellipsis where something was cut.
pub open spec fn clipped(content: Seq<char>, max: nat) -> Seq<char> {
    let whole = text::trimmed(content);
    if whole.len() <= max {
        whole
    } else {
        whole.take(
            if max == 0 {
                0
            } else {
                max - 1
            },
        ).push('…')
    }
}

/// A text cut to `max` characters, with an ellipsis where something was cut.
pub fn truncate(content: &str, max: usize) -> (r: String)
    ensures
        r@ == clipped(content@, max as nat),
{
    let whole = text::trim(content);
    let items = text::chars_of(whole);
    if items.len() <= max {
        return whole.to_owned();
    }
    let keep: usize = if max == 0 {
        0
    } else {
        max - 1
    };
    let mut out = text::text_of(&items, 0, keep);
    assert(out@ =~= whole@.take(keep as int));
    out.push('…');
    out
}

/// The last row that is not blank; all of the text where there is none.
pub open spec fn last_row(content: Seq<char>, rows: Seq<Seq<char>>) -> Seq<char>
    decreases rows.len(),
{
    if rows.len() == 0 {
        content
    } else if text::trimmed(rows.last()).len() > 0 {
        rows.last()
    } else {
        last_row(content, rows.drop_last())
    }
}

/// What is said of a command that failed: the last row of what it wrote to its
/// errors, or to its output where it wrote none.
pub open spec fn failure_detail(stderr: Seq<char>, stdout: Seq<char>) -> Seq<char> {
    let detail = if text::trimmed(stderr).len() > 0 {
        text::trimmed(stderr)
    } else if text::trimmed(stdout).len() > 0 {
        text::trimmed(stdout)
    } else {
        "pnpm 安装失败"@
    };
    clipped(last_row(detail, text::split(detail, "\n"@)), 240)
}

/// What is said of a command that failed.
pub fn cli_failure(stderr: &str, stdout: &str) -> (r: String)
    ensures
        r@ == failure_detail(stderr@, stdout@),
{
    let errors = text::trim(stderr);
    let output = text::trim(stdout);
    let detail = if !errors.is_empty() {
        errors
    } else if !output.is_empty() {
        output
    } else {
        "pnpm 安装失败"
    };
    proof {
        reveal_strlit("\n");
    }
    let rows = text::split_text(detail, "\n");
    let ghost all = text::texts(rows@);
    let mut i: usize = rows.len();
    assert(all.take(i as int) =~= all);
    while i > 0
        invariant
            i <= rows@.len(),
            all == text::texts(rows@),
            last_row(detail@, all) == last_row(detail@, all.take(i as int)),
            failure_detail(stderr@, stdout@) == clipped(last_row(detail@, all), 240),
        decreases i,
    {
        assert(all.take(i as int).drop_last() =~= all.take(i - 1));
        assert(all.take(i as int).last() == rows@[i - 1]@);
        if !text::trim(rows[i - 1].as_str()).is_empty() {
            return truncate(rows[i - 1].as_str(), 240);
        }
        i -= 1;
    }
    truncate(detail, 240)
}

// ---------------------------------------------------------------------------
// Laws
// ---------------------------------------------------------------------------
/// A disabled plugin is shown as disabled, and one that has been enabled again
/// as enabled; no other plugin changes.
pub proof fn toggling_is_shown(
    name: Seq<char>,
    other: Seq<char>,
    stated: Option<Seq<char>>,
    disabled: Seq<Seq<char>>,
)
    requires
        !builtin(name),
    ensures
        plugin_of(name, stated, entries::with_text(disabled, name))->0.enabled == false,
        plugin_of(name, stated, without_text(disabled, name))->0.enabled == true,
        other != name ==> plugin_of(other, stated, entries::with_text(disabled, name)) == plugin_of(
            other,
            stated,
            disabled,
        ),
        other != name ==> plugin_of(other, stated, without_text(disabled, name)) == plugin_of(
            other,
            stated,
            disabled,
        ),
{
    entries::added_text_is_there(disabled, name, name);
    entries::added_text_is_there(disabled, name, other);
    removed_text_is_gone(disabled, name, name);
    removed_text_is_gone(disabled, name, other);
}

proof fn removed_text_is_gone(list: Seq<Seq<char>>, item: Seq<char>, other: Seq<char>)
    ensures
        without_text(list, item).contains(other) <==> list.contains(other) && other != item,
    decreases list.len(),
{
    reveal(Seq::filter);
    if list.len() > 0 {
        let shorter = list.drop_last();
        removed_text_is_gone(shorter, item, other);
        assert(shorter.push(list.last()) =~= list);
        entries::pushed_text_is_there(shorter, list.last(), other);
        entries::pushed_text_is_there(without_text(shorter, item), list.last(), other);
    } else {
        assert(without_text(list, item) =~= list);
    }
}

/// Disabling twice is disabling once, and enabling what is enabled changes
/// nothing.
pub proof fn toggling_is_idempotent(disabled: Seq<Seq<char>>, name: Seq<char>)
    ensures
        entries::with_text(entries::with_text(disabled, name), name) == entries::with_text(disabled, name),
        !disabled.contains(name) ==> without_text(disabled, name) == disabled,
        !disabled.contains(name) ==> without_text(entries::with_text(disabled, name), name) == disabled,
        without_text(without_text(disabled, name), name) == without_text(disabled, name),
{
    entries::added_text_is_there(disabled, name, name);
    removed_text_is_gone(disabled, name, name);
    absent_text_is_not_missed(without_text(disabled, name), name);
    if !disabled.contains(name) {
        absent_text_is_not_missed(disabled, name);
        let longer = disabled.push(name);
        assert(longer.drop_last() =~= disabled);
        reveal(Seq::filter);
        assert(without_text(longer, name) == without_text(disabled, name));
    }
}

proof fn absent_text_is_not_missed(list: Seq<Seq<char>>, item: Seq<char>)
    requires
        !list.contains(item),
    ensures
        without_text(list, item) == list,
    decreases list.len(),
{
    reveal(Seq::filter);
    if list.len() > 0 {
        let shorter = list.drop_last();
        assert(!shorter.contains(item)) by {
            if shorter.contains(item) {
                let i = choose|i: int| 0 <= i < shorter.len() && shorter[i] == item;
                assert(list[i] == item);
            }
        }
        absent_text_is_not_missed(shorter, item);
        assert(list.last() != item);
        assert(shorter.push(list.last()) =~= list);
    } else {
        assert(without_text(list, item) =~= list);
    }
}

/// The bundles that every profile has are never shown, and so can be neither
/// disabled nor removed.
pub proof fn builtin_bundles_are_not_shown(
    manifest: Seq<char>,
    names: Seq<Seq<char>>,
    disabled: Seq<Seq<char>>,
    name: Seq<char>,
)
    requires
        builtin(name),
    ensures
        !has_plugin(plugins_among(manifest, names, disabled), name),
    decreases names.len(),
{
    if names.len() > 0 {
        let before = plugins_among(manifest, names.drop_last(), disabled);
        builtin_bundles_are_not_shown(manifest, names.drop_last(), disabled, name);
        let all = plugins_among(manifest, names, disabled);
        assert forall|i: int| 0 <= i < all.len() implies (#[trigger] all[i]).name != name by {
            if i < before.len() {
                assert(all[i] == before[i]);
            }
        }
    }
}

/// Which plugins there are does not depend on which of them are disabled.
pub proof fn disabling_changes_no_names(
    manifest: Option<Seq<char>>,
    disabled: Seq<Seq<char>>,
    other: Seq<Seq<char>>,
    name: Seq<char>,
)
    ensures
        has_plugin(plugins_in(manifest, disabled), name) == has_plugin(
            plugins_in(manifest, other),
            name,
        ),
{
    if let Some(source) = manifest {
        same_names_among(source, bundles_in(source), disabled, other);
        let left = plugins_in(manifest, disabled);
        let right = plugins_in(manifest, other);
        if has_plugin(left, name) {
            let i = choose|i: int| 0 <= i < left.len() && (#[trigger] left[i]).name == name;
            assert(right[i].name == name);
        }
        if has_plugin(right, name) {
            let i = choose|i: int| 0 <= i < right.len() && (#[trigger] right[i]).name == name;
            assert(left[i].name == name);
        }
    }
}

proof fn same_names_among(
    manifest: Seq<char>,
    names: Seq<Seq<char>>,
    disabled: Seq<Seq<char>>,
    other: Seq<Seq<char>>,
)
    ensures
        plugins_among(manifest, names, disabled).len() == plugins_among(
            manifest,
            names,
            other,
        ).len(),
        forall|i: int|
            #![trigger plugins_among(manifest, names, disabled)[i]]
            #![trigger plugins_among(manifest, names, other)[i]]
            0 <= i < plugins_among(manifest, names, disabled).len() ==> plugins_among(
                manifest,
                names,
                disabled,
            )[i].name == plugins_among(manifest, names, other)[i].name,
    decreases names.len(),
{
    if names.len() > 0 {
        same_names_among(manifest, names.drop_last(), disabled, other);
        let left = plugins_among(manifest, names, disabled);
        let right = plugins_among(manifest, names, other);
        let left_before = plugins_among(manifest, names.drop_last(), disabled);
        let right_before = plugins_among(manifest, names.drop_last(), other);
        assert forall|i: int| 0 <= i < left.len() implies left[i].name == right[i].name by {
            if i < left_before.len() {
                assert(left[i] == left_before[i]);
                assert(right[i] == right_before[i]);
            }
        }
    }
}

/// Forgetting what is no longer installed a second time, with plugins of the
/// same names installed, changes nothing.
pub proof fn forgetting_is_idempotent(
    names: Seq<Seq<char>>,
    plugins: Seq<PluginView>,
    again: Seq<PluginView>,
)
    requires
        forall|name: Seq<char>| has_plugin(plugins, name) == #[trigger] has_plugin(again, name),
    ensures
        installed_among(installed_among(names, plugins), again) == installed_among(names, plugins),
    decreases names.len(),
{
    reveal(Seq::filter);
    let kept = installed_among(names, plugins);
    if names.len() > 0 {
        let shorter = names.drop_last();
        forgetting_is_idempotent(shorter, plugins, again);
        if has_plugin(plugins, names.last()) {
            let before = installed_among(shorter, plugins);
            assert(kept == before.push(names.last()));
            assert(kept.drop_last() =~= before);
            assert(has_plugin(again, names.last()));
            assert(installed_among(kept, again) == installed_among(before, again).push(
                names.last(),
            ));
        }
    } else {
        assert(installed_among(kept, again) =~= kept);
    }
}

/// A second run of `sync_disable_patch` leaves the list and the patch as they
/// are, where the profile still has the same description and the same entries
/// are read for each plugin.
pub proof fn a_second_sync_changes_nothing<
    F: Fn(&str) -> Vec<String>,
    G: Fn(&str) -> Vec<String>,
>(
    manifest: Option<Seq<char>>,
    names: Seq<Seq<char>>,
    read: F,
    lists: Seq<Vec<String>>,
    read_again: G,
    lists_again: Seq<Vec<String>>,
)
    requires
        forall|name: Seq<char>, list: Vec<String>, other: Vec<String>| #[trigger]
            entries_read(read, name, list) && #[trigger] entries_read(read_again, name, other)
                ==> text::texts(list@) == text::texts(other@),
        all_entries_read(read, installed_among(names, plugins_in(manifest, names)), lists),
        ({
            let kept = installed_among(names, plugins_in(manifest, names));
            all_entries_read(
                read_again,
                installed_among(kept, plugins_in(manifest, kept)),
                lists_again,
            )
        }),
    ensures
        ({
            let kept = installed_among(names, plugins_in(manifest, names));
            &&& installed_among(kept, plugins_in(manifest, kept)) == kept
            &&& entries::disable_patch(entries::merged_all(entries::lists_view(lists_again)))
                == entries::disable_patch(entries::merged_all(entries::lists_view(lists)))
        }),
{
    let plugins = plugins_in(manifest, names);
    let kept = installed_among(names, plugins);
    let again = plugins_in(manifest, kept);
    assert forall|name: Seq<char>| has_plugin(plugins, name) == #[trigger] has_plugin(
        again,
        name,
    ) by {
        disabling_changes_no_names(manifest, names, kept, name);
    }
    forgetting_is_idempotent(names, plugins, again);
    assert forall|i: int| 0 <= i < lists.len() implies text::texts(lists[i]@) == text::texts(
        lists_again[i]@,
    ) by {
        assert(entries_read(read, kept[i], lists[i]));
        assert(entries_read(read_again, kept[i], lists_again[i]));
    }
    assert(entries::lists_view(lists) =~= entries::lists_view(lists_again));
}

/// What is said of a failure is never longer than its limit.
pub proof fn clipped_text_is_short(content: Seq<char>, max: nat)
    ensures
        max > 0 ==> clipped(content, max).len() <= max,
{
}

/// The names of plugins, in their order.
pub open spec fn names_of(plugins: Seq<PluginView>) -> Seq<Seq<char>> {
    plugins.map_values(|plugin: PluginView| plugin.name)
}

/// These names without those of the two bundles that every profile has.
pub open spec fn own_names(names: Seq<Seq<char>>) -> Seq<Seq<char>> {
    names.filter(
        |name: Seq<char>| name != "@deepseek-ai/dsh-base"@ && name != "@deepseek-ai/dsh-web-app"@,
    )
}

/// Every bundle of the profile is shown but those that every profile has, one for
/// one and in their order.
pub proof fn bundles_are_shown_in_their_order(
    manifest: Seq<char>,
    names: Seq<Seq<char>>,
    disabled: Seq<Seq<char>>,
)
    ensures
        names_of(plugins_among(manifest, names, disabled)) == own_names(names),
    decreases names.len(),
{
    reveal(Seq::filter);
    let shown = plugins_among(manifest, names, disabled);
    if names.len() > 0 {
        bundles_are_shown_in_their_order(manifest, names.drop_last(), disabled);
        let before = plugins_among(manifest, names.drop_last(), disabled);
        match plugin_of(names.last(), stated_in(manifest, names.last()), disabled) {
            Some(plugin) => {
                assert(names_of(shown) =~= names_of(before).push(names.last()));
            },
            None => {},
        }
    } else {
        assert(names_of(shown) =~= own_names(names));
    }
}

/// No bundle that is not built in is missing among the plugins.
pub proof fn every_bundle_is_shown(
    manifest: Seq<char>,
    names: Seq<Seq<char>>,
    disabled: Seq<Seq<char>>,
    name: Seq<char>,
)
    requires
        names.contains(name),
        name != "@deepseek-ai/dsh-base"@,
        name != "@deepseek-ai/dsh-web-app"@,
    ensures
        has_plugin(plugins_among(manifest, names, disabled), name),
        !builtin(name),
    decreases names.len(),
{
    let before = plugins_among(manifest, names.drop_last(), disabled);
    let shown = plugins_among(manifest, names, disabled);
    if names.last() == name {
        assert(shown[before.len() as int].name == name);
    } else {
        let i = choose|i: int| 0 <= i < names.len() && names[i] == name;
        assert(names.drop_last()[i] == name);
        every_bundle_is_shown(manifest, names.drop_last(), disabled, name);
        let k = choose|k: int| 0 <= k < before.len() && (#[trigger] before[k]).name == name;
        assert(shown[k].name == name);
    }
}

/// Every plugin that is shown is a bundle of the profile. It is shown as enabled
/// exactly where its name is not among the disabled ones, with the version that
/// the profile states for it.
pub proof fn plugins_are_shown_as_they_are(
    manifest: Seq<char>,
    names: Seq<Seq<char>>,
    disabled: Seq<Seq<char>>,
    i: int,
)
    requires
        0 <= i < plugins_among(manifest, names, disabled).len(),
    ensures
        ({
            let plugin = plugins_among(manifest, names, disabled)[i];
            &&& names.contains(plugin.name)
            &&& plugin.enabled <==> !disabled.contains(plugin.name)
            &&& plugin.version == bare_version(stated_in(manifest, plugin.name))
            &&& plugin.name != "@deepseek-ai/dsh-base"@
            &&& plugin.name != "@deepseek-ai/dsh-web-app"@
        }),
    decreases names.len(),
{
    let before = plugins_among(manifest, names.drop_last(), disabled);
    let shown = plugins_among(manifest, names, disabled);
    if i < before.len() {
        assert(shown[i] == before[i]);
        plugins_are_shown_as_they_are(manifest, names.drop_last(), disabled, i);
        let k = choose|k: int|
            0 <= k < names.drop_last().len() && names.drop_last()[k] == before[i].name;
        assert(names[k] == shown[i].name);
    } else {
        assert(names[names.len() - 1] == shown[i].name);
    }
}

/// The plugins of a profile are those of the bundles that its description names;
/// without a description there are none.
pub proof fn a_profile_names_its_plugins(manifest: Seq<char>, disabled: Seq<Seq<char>>)
    ensures
        plugins_in(None, disabled).len() == 0,
        names_of(plugins_in(Some(manifest), disabled)) == own_names(bundles_in(manifest)),
{
    bundles_are_shown_in_their_order(manifest, bundles_in(manifest), disabled);
}

/// A version is shown without the marks of a range in front, and else as it is
/// stated; one that is not stated is empty.
pub proof fn a_version_is_shown_without_marks(range: Seq<char>)
    ensures
        bare_version(None).len() == 0,
        ({
            let shown = bare_version(Some(range));
            let from = range.len() - shown.len();
            &&& shown.len() <= range.len()
            &&& shown == range.skip(from)
            &&& forall|i: int|
                0 <= i < from ==> #[trigger] range[i] == '^' || range[i] == '~' || range[i] == '='
            &&& shown.len() > 0 ==> shown[0] != '^' && shown[0] != '~' && shown[0] != '='
        }),
{
    reveal_strlit("^~=");
    let marks = "^~="@;
    text::leading_run_is_taken(range, marks);
    assert(marks[0] == '^' && marks[1] == '~' && marks[2] == '=');
    let shown = bare_version(Some(range));
    let from = range.len() - shown.len();
    assert forall|i: int| 0 <= i < from implies #[trigger] range[i] == '^' || range[i] == '~'
        || range[i] == '=' by {
        assert(marks.contains(range[i]));
    }
    if shown.len() > 0 {
        assert(marks.contains('^') && marks.contains('~') && marks.contains('='));
    }
}

/// The texts of a list are read one after the other, and what is no text is left
/// out.
pub proof fn texts_are_read_in_their_order(items: Seq<Seq<char>>, item: Seq<char>)
    ensures
        text_items(Seq::empty()) == Seq::<Seq<char>>::empty(),
        match json::json_node(item) {
            JsonView::Text(content) => text_items(items.push(item)) == text_items(items).push(
                content,
            ),
            _ => text_items(items.push(item)) == text_items(items),
        },
{
    assert(items.push(item).drop_last() =~= items);
}

/// The bundles stand in the description of a profile under `dsh`, `profile` and
/// `bundles`, and the patch in that of a package under `dsh`, `bundle` and
/// `patch`.
pub proof fn descriptions_are_read_by_their_names(
    manifest: Seq<char>,
    outer: Seq<char>,
    inner: Seq<char>,
    last: Seq<char>,
)
    ensures
        json::field_of(json::json_node(manifest), "dsh"@) == Some(outer) && json::field_of(
            json::json_node(outer),
            "profile"@,
        ) == Some(inner) && json::field_of(json::json_node(inner), "bundles"@) == Some(last) ==> (
        match json::json_node(last) {
            JsonView::List(items) => bundles_in(manifest) == text_items(items),
            _ => bundles_in(manifest).len() == 0,
        }),
        json::field_of(json::json_node(manifest), "dsh"@) == Some(outer) && json::field_of(
            json::json_node(outer),
            "bundle"@,
        ) == Some(inner) && json::field_of(json::json_node(inner), "patch"@) == Some(last) ==> (
        match json::json_node(last) {
            JsonView::Text(path) => patch_in(manifest) == Some(path),
            _ => patch_in(manifest) is None,
        }),
        json::field_of(json::json_node(manifest), "dsh"@) is None ==> bundles_in(manifest).len()
            == 0 && patch_in(manifest) is None,
{
    reveal_with_fuel(json::node_at, 4);
    let bundles = seq!["dsh"@, "profile"@, "bundles"@];
    assert(bundles.drop_first() =~= seq!["profile"@, "bundles"@]);
    assert(bundles.drop_first().drop_first() =~= seq!["bundles"@]);
    assert(bundles.drop_first().drop_first().drop_first() =~= Seq::<Seq<char>>::empty());
    let patch = seq!["dsh"@, "bundle"@, "patch"@];
    assert(patch.drop_first() =~= seq!["bundle"@, "patch"@]);
    assert(patch.drop_first().drop_first() =~= seq!["patch"@]);
    assert(patch.drop_first().drop_first().drop_first() =~= Seq::<Seq<char>>::empty());
}

/// The version of a package is the text that stands under its name among the
/// dependencies, and there is none in any other case.
pub proof fn versions_stand_among_the_dependencies(
    manifest: Seq<char>,
    name: Seq<char>,
    table: Seq<char>,
    field: Seq<char>,
)
    ensures
        json::field_of(json::json_node(manifest), "dependencies"@) is None ==> stated_in(
            manifest,
            name,
        ) is None,
        json::field_of(json::json_node(manifest), "dependencies"@) == Some(table)
            && json::field_of(json::json_node(table), name) is None ==> stated_in(
            manifest,
            name,
        ) is None,
        json::field_of(json::json_node(manifest), "dependencies"@) == Some(table)
            && json::field_of(json::json_node(table), name) == Some(field) ==> (
        match json::json_node(field) {
            JsonView::Text(range) => stated_in(manifest, name) == Some(range),
            _ => stated_in(manifest, name) is None,
        }),
{
}

/// Enabling takes exactly the name out of the disabled ones, and the others keep
/// their order.
pub proof fn enabling_takes_out_one_name(
    disabled: Seq<Seq<char>>,
    name: Seq<char>,
    other: Seq<char>,
)
    ensures
        without_text(disabled, name).contains(other) <==> disabled.contains(other) && other != name,
        other != name ==> without_text(disabled.push(other), name) == without_text(
            disabled,
            name,
        ).push(other),
        without_text(disabled.push(name), name) == without_text(disabled, name),
        without_text(Seq::empty(), name) == Seq::<Seq<char>>::empty(),
{
    removed_text_is_gone(disabled, name, other);
    reveal(Seq::filter);
    assert(disabled.push(other).drop_last() =~= disabled);
    assert(disabled.push(name).drop_last() =~= disabled);
    assert(without_text(Seq::empty(), name) =~= Seq::<Seq<char>>::empty());
}

/// Of the disabled names exactly those of installed plugins are kept, in their
/// order.
pub proof fn installed_names_are_kept(
    names: Seq<Seq<char>>,
    plugins: Seq<PluginView>,
    name: Seq<char>,
)
    ensures
        installed_among(names, plugins).contains(name) <==> names.contains(name) && has_plugin(
            plugins,
            name,
        ),
        has_plugin(plugins, name) ==> installed_among(names.push(name), plugins) == installed_among(
            names,
            plugins,
        ).push(name),
        !has_plugin(plugins, name) ==> installed_among(names.push(name), plugins)
            == installed_among(names, plugins),
        installed_among(Seq::empty(), plugins) == Seq::<Seq<char>>::empty(),
    decreases names.len(),
{
    reveal(Seq::filter);
    assert(names.push(name).drop_last() =~= names);
    assert(installed_among(Seq::empty(), plugins) =~= Seq::<Seq<char>>::empty());
    if names.len() > 0 {
        let shorter = names.drop_last();
        installed_names_are_kept(shorter, plugins, name);
        assert(shorter.push(names.last()) =~= names);
        entries::pushed_text_is_there(shorter, names.last(), name);
        entries::pushed_text_is_there(installed_among(shorter, plugins), names.last(), name);
    } else {
        assert(installed_among(names, plugins) =~= names);
    }
}

/// A plugin is there where one of this name is.
pub proof fn a_plugin_is_known_by_its_name(plugins: Seq<PluginView>, name: Seq<char>)
    ensures
        has_plugin(plugins, name) <==> names_of(plugins).contains(name),
{
    let names = names_of(plugins);
    if has_plugin(plugins, name) {
        let i = choose|i: int| 0 <= i < plugins.len() && (#[trigger] plugins[i]).name == name;
        assert(names[i] == name);
    }
    if names.contains(name) {
        let i = choose|i: int| 0 <= i < names.len() && names[i] == name;
        assert(plugins[i].name == name);
    }
}

/// A text that fits is only trimmed; one that does not is cut to the size that it
/// may have, its last character an ellipsis and all others its own.
pub proof fn a_long_text_is_cut(content: Seq<char>, max: nat)
    ensures
        ({
            let whole = text::trimmed(content);
            let r = clipped(content, max);
            &&& whole.len() <= max ==> r == whole
            &&& whole.len() > max && max > 0 ==> {
                &&& r.len() == max
                &&& r[max - 1] == '…'
                &&& forall|i: int| 0 <= i < max - 1 ==> r[i] == #[trigger] whole[i]
            }
            &&& whole.len() > 0 && max == 0 ==> r == seq!['…']
        }),
{
}

/// The last row is the last one that is not blank, and the whole text where all of
/// them are.
pub proof fn the_last_row_is_not_blank(content: Seq<char>, rows: Seq<Seq<char>>)
    ensures
        (forall|i: int| 0 <= i < rows.len() ==> text::trimmed(#[trigger] rows[i]).len() == 0)
            ==> last_row(content, rows) == content,
        forall|i: int|
            {
                &&& 0 <= i < rows.len()
                &&& text::trimmed(#[trigger] rows[i]).len() > 0
                &&& forall|j: int|
                    i < j < rows.len() ==> text::trimmed(#[trigger] rows[j]).len() == 0
            } ==> last_row(content, rows) == rows[i],
    decreases rows.len(),
{
    if rows.len() > 0 {
        let shorter = rows.drop_last();
        the_last_row_is_not_blank(content, shorter);
        if forall|i: int| 0 <= i < rows.len() ==> text::trimmed(#[trigger] rows[i]).len() == 0 {
            assert forall|i: int| 0 <= i < shorter.len() implies text::trimmed(
                #[trigger] shorter[i],
            ).len() == 0 by {
                assert(shorter[i] == rows[i]);
            }
            assert(text::trimmed(rows[rows.len() - 1]).len() == 0);
        }
        assert forall|i: int|
            {
                &&& 0 <= i < rows.len()
                &&& text::trimmed(#[trigger] rows[i]).len() > 0
                &&& forall|j: int|
                    i < j < rows.len() ==> text::trimmed(#[trigger] rows[j]).len() == 0
            } implies last_row(content, rows) == rows[i] by {
            if i < shorter.len() {
                assert(text::trimmed(rows[rows.len() - 1]).len() == 0);
                assert(shorter[i] == rows[i]);
                assert forall|j: int| i < j < shorter.len() implies text::trimmed(
                    #[trigger] shorter[j],
                ).len() == 0 by {
                    assert(shorter[j] == rows[j]);
                }
            }
        }
    }
}

/// What is said of a failed command comes from its errors where it wrote any, then
/// from its output, and else from the desktop itself; it is the last row of that,
/// and no longer than two hundred and forty characters.
pub proof fn a_failure_is_told_in_one_row(stderr: Seq<char>, stdout: Seq<char>)
    ensures
        ({
            let said = failure_detail(stderr, stdout);
            let errors = text::trimmed(stderr);
            let output = text::trimmed(stdout);
            &&& errors.len() > 0 ==> said == clipped(
                last_row(errors, text::split(errors, "\n"@)),
                240,
            )
            &&& errors.len() == 0 && output.len() > 0 ==> said == clipped(
                last_row(output, text::split(output, "\n"@)),
                240,
            )
            &&& errors.len() == 0 && output.len() == 0 ==> said == "pnpm 安装失败"@
            &&& said.len() <= 240
        }),
{
    if text::trimmed(stderr).len() == 0 && text::trimmed(stdout).len() == 0 {
        reveal_strlit("pnpm 安装失败");
        reveal_strlit("\n");
        let own = "pnpm 安装失败"@;
        let mark = "\n"@;
        text::find_from_is_first(own, mark, 0);
        if let Some(at) = text::find(own, mark) {
            assert(own.subrange(at, at + 1)[0] == own[at]);
            assert(mark[0] == '\n');
        }
        let rows = text::split(own, mark);
        assert(rows =~= seq![own]);
        assert(!text::is_white(own[0]));
        assert(!text::is_white(own[own.len() - 1]));
        assert(text::trimmed(own) == own);
        assert(last_row(own, rows) == own);
    }
}

/// A list of plugins says what each of them says, in their order.
pub proof fn lists_say_what_their_plugins_say(plugins: Seq<UserPlugin>, i: int)
    requires
        0 <= i < plugins.len(),
    ensures
        plugins_view(plugins).len() == plugins.len(),
        plugins_view(plugins)[i].name == plugins[i].name@,
        plugins_view(plugins)[i].version == plugins[i].version@,
        plugins_view(plugins)[i].enabled == plugins[i].enabled,
{
}

/// Of the bundles of a profile each that is not built in is among the plugins that
/// are read, enabled exactly where it is not disabled; and there is one plugin for
/// each of them.
pub proof fn every_bundle_is_read(
    manifest: &str,
    disabled: &Vec<String>,
    r: Vec<UserPlugin>,
    name: Seq<char>,
)
    requires
        call_ensures(read_user_plugins, (Some(manifest), disabled), r),
    ensures
        r@.len() == own_names(bundles_in(manifest@)).len(),
        forall|i: int|
            0 <= i < r@.len() ==> (#[trigger] r@[i]).name@ == own_names(bundles_in(manifest@))[i]
                && (r@[i].enabled <==> !text::texts(disabled@).contains(r@[i].name@)),
        bundles_in(manifest@).contains(name) && name != "@deepseek-ai/dsh-base"@ && name
            != "@deepseek-ai/dsh-web-app"@ ==> exists|i: int|
            0 <= i < r@.len() && (#[trigger] r@[i]).name@ == name,
{
    let names = bundles_in(manifest@);
    let off = text::texts(disabled@);
    let shown = plugins_among(manifest@, names, off);
    assert(plugins_view(r@) == shown);
    bundles_are_shown_in_their_order(manifest@, names, off);
    assert(names_of(shown).len() == shown.len());
    assert forall|i: int| 0 <= i < r@.len() implies (#[trigger] r@[i]).name@ == own_names(names)[i]
        && (r@[i].enabled <==> !off.contains(r@[i].name@)) by {
        assert(shown[i] == r@[i]@);
        assert(names_of(shown)[i] == shown[i].name);
        plugins_are_shown_as_they_are(manifest@, names, off, i);
    }
    if names.contains(name) && name != "@deepseek-ai/dsh-base"@ && name
        != "@deepseek-ai/dsh-web-app"@ {
        every_bundle_is_shown(manifest@, names, off, name);
        let i = choose|i: int| 0 <= i < shown.len() && (#[trigger] shown[i]).name == name;
        assert(r@[i].name@ == name);
    }
}

/// The entries that a patch disables are those of the lists, and no other.
pub open spec fn disables_exactly(
    patch: Seq<char>,
    ids: Seq<Seq<char>>,
    lists: Seq<Seq<Seq<char>>>,
) -> bool {
    &&& patch == entries::disable_patch(ids)
    &&& ids.no_duplicates()
    &&& forall|id: Seq<char>|
        ids.contains(id) <==> exists|i: int| 0 <= i < lists.len() && (#[trigger] lists[i]).contains(id)
}

/// After a sync the list holds exactly the names that it held and that are
/// installed, and the patch disables every entry of each of these plugins, once,
/// and no other.
pub proof fn a_sync_disables_what_is_disabled<F: Fn(&str) -> Vec<String>>(read: F)
    ensures
        forall|state: &mut UserPluginState, installed: &Vec<UserPlugin>, r: String|
            #[trigger] call_ensures(sync_disable_patch::<F>, (state, installed, read), r) ==> {
                &&& final(state)@ == installed_among((*state)@, plugins_view(installed@))
                &&& exists|lists: Seq<Vec<String>>, ids: Seq<Seq<char>>|
                    #![trigger all_entries_read(read, final(state)@, lists), entries::disable_patch(ids)]
                    all_entries_read(read, final(state)@, lists) && disables_exactly(
                        r@,
                        ids,
                        entries::lists_view(lists),
                    )
            },
{
    assert forall|state: &mut UserPluginState, installed: &Vec<UserPlugin>, r: String|
        #[trigger] call_ensures(sync_disable_patch::<F>, (state, installed, read), r) implies {
            &&& final(state)@ == installed_among((*state)@, plugins_view(installed@))
            &&& exists|lists: Seq<Vec<String>>, ids: Seq<Seq<char>>|
                #![trigger all_entries_read(read, final(state)@, lists), entries::disable_patch(ids)]
                all_entries_read(read, final(state)@, lists) && disables_exactly(
                    r@,
                    ids,
                    entries::lists_view(lists),
                )
        } by {
        let lists = choose|lists: Seq<Vec<String>>| #[trigger]
            all_entries_read(read, final(state)@, lists) && r@ == entries::disable_patch(
                entries::merged_all(entries::lists_view(lists)),
            );
        let all = entries::lists_view(lists);
        let ids = entries::merged_all(all);
        entries::entries_occur_once(Seq::empty(), all);
        assert forall|id: Seq<char>| ids.contains(id) <==> exists|i: int|
            0 <= i < all.len() && (#[trigger] all[i]).contains(id) by {
            entries::exactly_the_entries_are_disabled(all, id);
        }
        assert(disables_exactly(r@, ids, all));
        assert(r@ == entries::disable_patch(ids));
    }
}

/// The entries of a plugin are those in the very file that its description names;
/// without a description, a name or a file there are none.
pub proof fn entries_come_from_the_named_file<F: FnOnce(&str) -> Option<String>>(
    manifest: &str,
    read: F,
    r: Vec<String>,
    none: Vec<String>,
)
    requires
        call_ensures(bundle_entry_ids::<F>, (Some(manifest), read), r),
        call_ensures(bundle_entry_ids::<F>, (None, read), none),
    ensures
        none@.len() == 0,
        patch_in(manifest@) is None ==> r@.len() == 0,
        patch_in(manifest@) matches Some(patch) ==> exists|path: &str, content: Option<String>|
            {
                &&& #[trigger] call_ensures(read, (path,), content)
                &&& path@ == patch
                &&& content is None ==> r@.len() == 0
                &&& content matches Some(yaml) ==> text::texts(r@) == entries::entry_ids(yaml@)
            },
{
    assert(text::texts(none@).len() == none@.len());
    assert(text::texts(r@).len() == r@.len());
}

} // verus!
