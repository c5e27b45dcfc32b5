//! Places below a directory that the caller holds.

use vstd::prelude::*;
use vstd::string::*;

use crate::text;
use crate::versions;

verus! {

/// A place, given by the names that lead to it from a directory of the
/// caller's.
#[derive(Debug, PartialEq, Eq)]
pub struct Location {
    components: Vec<String>,
}

impl View for Location {
    type V = Seq<Seq<char>>;

    closed spec fn view(&self) -> Seq<Seq<char>> {
        text::texts(self.components@)
    }
}

impl Location {
    /// The directory of the caller's itself.
    pub fn root() -> (r: Self)
        ensures
            r@ == Seq::<Seq<char>>::empty(),
    {
        let r = Location { components: Vec::new() };
        assert(r@ =~= Seq::<Seq<char>>::empty());
        r
    }

    /// The place `name` in this place.
    pub fn join(&self, name: &str) -> (r: Self)
        ensures
            r@ == self@.push(name@),
    {
        let mut components = text::copy_list(&self.components);
        components.push(name.to_owned());
        let r = Location { components };
        assert(r@ =~= self@.push(name@));
        r
    }

    /// The names that lead to this place.
    pub fn components(&self) -> (r: &Vec<String>)
        ensures
            text::texts(r@) == self@,
    {
        &self.components
    }

    /// The last of the names that lead to this place.
    pub fn file_name(&self) -> (r: Option<String>)
        ensures
            text::text_opt(r) == (if self@.len() == 0 {
                None
            } else {
                Some(self@.last())
            }),
    {
        let count = self.components.len();
        if count == 0 {
            None
        } else {
            assert(self@.last() == self.components@[count - 1]@);
            Some(self.components[count - 1].clone())
        }
    }
}

/// Where the state of the runtime is kept.
pub fn runtime_state_path(app_data: &Location) -> (r: Location)
    ensures
        r@ == app_data@.push("runtime-state.json"@),
{
    app_data.join("runtime-state.json")
}

/// Where the state of the runtime is written before it takes its place.
pub fn runtime_state_draft(app_data: &Location) -> (r: Location)
    ensures
        r@ == app_data@.push("runtime-state.json.tmp"@),
{
    app_data.join("runtime-state.json.tmp")
}

/// Where the installed runtimes are kept.
pub fn sidecar_root(app_data: &Location) -> (r: Location)
    ensures
        r@ == app_data@ + seq!["runtimes"@, "dsh"@],
{
    let r = app_data.join("runtimes").join("dsh");
    assert(r@ =~= app_data@ + seq!["runtimes"@, "dsh"@]);
    r
}

/// Where a runtime is put together before it takes its place.
pub fn staging_root(app_data: &Location) -> (r: Location)
    ensures
        r@ == app_data@ + seq!["runtimes"@, ".staging"@],
{
    let r = app_data.join("runtimes").join(".staging");
    assert(r@ =~= app_data@ + seq!["runtimes"@, ".staging"@]);
    r
}

/// Where the runtime of a version is kept: in the place of all runtimes, under
/// the version itself, or under a name that no version has where it is none.
pub fn sidecar_app_root(app_data: &Location, version: &str) -> (r: Location)
    ensures
        r@ == app_data@ + seq!["runtimes"@, "dsh"@, versions::directory(version@)],
        r@.drop_last() == app_data@ + seq!["runtimes"@, "dsh"@],
        versions::semver_valid(version@) ==> r@.last() == version@,
        versions::semver_valid(version@) ==> r@.last() != "_invalid"@,
        !versions::semver_valid(version@) ==> r@.last() == "_invalid"@,
{
    let name = versions::sanitize_version(version);
    let r = sidecar_root(app_data).join(name.as_str());
    assert(r@ =~= app_data@ + seq!["runtimes"@, "dsh"@, versions::directory(version@)]);
    r
}

/// The names that lead from a runtime to the package that it runs.
pub open spec fn package_names() -> Seq<Seq<char>> {
    seq!["node_modules"@, "@deepseek-ai"@, "dsh"@]
}

/// Where the package of a runtime is.
pub fn sidecar_package(app_root: &Location) -> (r: Location)
    ensures
        r@ == app_root@ + package_names(),
{
    let r = app_root.join("node_modules").join("@deepseek-ai").join("dsh");
    assert(r@ =~= app_root@ + package_names());
    r
}

/// Where the description of the package of a runtime is.
pub fn sidecar_manifest(app_root: &Location) -> (r: Location)
    ensures
        r@ == app_root@ + package_names() + seq!["package.json"@],
{
    let r = sidecar_package(app_root).join("package.json");
    assert(r@ =~= app_root@ + package_names() + seq!["package.json"@]);
    r
}

/// The program of a runtime.
pub open spec fn entry_of(app_root: Seq<Seq<char>>) -> Seq<Seq<char>> {
    app_root + package_names() + seq!["lib"@, "bin.js"@]
}

/// Where the program of a runtime is.
pub fn sidecar_entry(app_root: &Location) -> (r: Location)
    ensures
        r@ == entry_of(app_root@),
{
    let r = sidecar_package(app_root).join("lib").join("bin.js");
    assert(r@ =~= entry_of(app_root@));
    r
}

/// Whether a runtime has its program; `is_file` says of a place whether there
/// is a file.
pub fn sidecar_is_complete<F: FnOnce(&Location) -> bool>(
    app_root: &Location,
    is_file: F,
) -> (r: bool)
    requires
        forall|place: &Location| call_requires(is_file, (place,)),
    ensures
        exists|entry: &Location|
            entry@ == entry_of(app_root@) && #[trigger] call_ensures(is_file, (entry,), r),
{
    let entry = sidecar_entry(app_root);
    is_file(&entry)
}

/// Where the state of the plugins is kept.
pub fn state_path(app_data: &Location) -> (r: Location)
    ensures
        r@ == app_data@.push("user-plugins.json"@),
{
    app_data.join("user-plugins.json")
}

/// Where the patch that disables plugins is written.
pub fn disable_patch_path(dsh_home: &Location) -> (r: Location)
    ensures
        r@ == dsh_home@.push("desktop.user-plugins.patch.yml"@),
{
    dsh_home.join("desktop.user-plugins.patch.yml")
}

/// Where the profile that the plugins belong to is described.
pub fn profile_manifest_path(app_data: &Location) -> (r: Location)
    ensures
        r@ == app_data@ + seq!["dsh"@, "profiles"@, "web"@, "package.json"@],
{
    let r = app_data.join("dsh").join("profiles").join("web").join("package.json");
    assert(r@ =~= app_data@ + seq!["dsh"@, "profiles"@, "web"@, "package.json"@]);
    r
}

/// The place of a runtime lies below the place of all runtimes: exactly one
/// plain name leads from one to the other, whatever stands for the version.
pub proof fn sidecar_stays_in_its_root(app_data: Seq<Seq<char>>, version: Seq<char>)
    ensures
        ({
            let root = app_data + seq!["runtimes"@, "dsh"@];
            let place = app_data + seq!["runtimes"@, "dsh"@, versions::directory(version)];
            &&& root.is_prefix_of(place)
            &&& place.len() == root.len() + 1
            &&& versions::plain_name(place.last())
        }),
{
    versions::directory_name_is_plain(version, versions::semver_valid(version));
    let root = app_data + seq!["runtimes"@, "dsh"@];
    let place = app_data + seq!["runtimes"@, "dsh"@, versions::directory(version)];
    assert(place.subrange(0, root.len() as int) =~= root);
}

/// The program of a runtime lies in the official package of its own modules.
pub proof fn the_program_lies_in_the_package(app_root: Seq<Seq<char>>)
    ensures
        entry_of(app_root) == app_root + seq![
            "node_modules"@,
            "@deepseek-ai"@,
            "dsh"@,
            "lib"@,
            "bin.js"@,
        ],
        package_names() == seq!["node_modules"@, "@deepseek-ai"@, "dsh"@],
{
    assert(entry_of(app_root) =~= app_root + seq![
        "node_modules"@,
        "@deepseek-ai"@,
        "dsh"@,
        "lib"@,
        "bin.js"@,
    ]);
}

/// Where the files of the desktop lie below the directory of its data.
pub proof fn files_lie_below_the_data(app_data: &Location, place: Location)
    ensures
        call_ensures(runtime_state_path, (app_data,), place) ==> place@ == app_data@ + seq![
            "runtime-state.json"@,
        ],
        call_ensures(runtime_state_draft, (app_data,), place) ==> place@ == app_data@ + seq![
            "runtime-state.json.tmp"@,
        ],
        call_ensures(sidecar_root, (app_data,), place) ==> place@ == app_data@ + seq![
            "runtimes"@,
            "dsh"@,
        ],
        call_ensures(staging_root, (app_data,), place) ==> place@ == app_data@ + seq![
            "runtimes"@,
            ".staging"@,
        ],
        call_ensures(state_path, (app_data,), place) ==> place@ == app_data@ + seq![
            "user-plugins.json"@,
        ],
        call_ensures(disable_patch_path, (app_data,), place) ==> place@ == app_data@ + seq![
            "desktop.user-plugins.patch.yml"@,
        ],
        call_ensures(profile_manifest_path, (app_data,), place) ==> place@ == app_data@ + seq![
            "dsh"@,
            "profiles"@,
            "web"@,
            "package.json"@,
        ],
        call_ensures(sidecar_package, (app_data,), place) ==> place@ == app_data@ + seq![
            "node_modules"@,
            "@deepseek-ai"@,
            "dsh"@,
        ],
        call_ensures(sidecar_manifest, (app_data,), place) ==> place@ == app_data@ + seq![
            "node_modules"@,
            "@deepseek-ai"@,
            "dsh"@,
            "package.json"@,
        ],
        call_ensures(sidecar_entry, (app_data,), place) ==> place@ == app_data@ + seq![
            "node_modules"@,
            "@deepseek-ai"@,
            "dsh"@,
            "lib"@,
            "bin.js"@,
        ],
{
    the_program_lies_in_the_package(app_data@);
    assert(app_data@.push("runtime-state.json"@) =~= app_data@ + seq!["runtime-state.json"@]);
    assert(app_data@.push("runtime-state.json.tmp"@) =~= app_data@ + seq![
        "runtime-state.json.tmp"@,
    ]);
    assert(app_data@.push("user-plugins.json"@) =~= app_data@ + seq!["user-plugins.json"@]);
    assert(app_data@.push("desktop.user-plugins.patch.yml"@) =~= app_data@ + seq![
        "desktop.user-plugins.patch.yml"@,
    ]);
    assert(app_data@ + package_names() + seq!["package.json"@] =~= app_data@ + seq![
        "node_modules"@,
        "@deepseek-ai"@,
        "dsh"@,
        "package.json"@,
    ]);
}

/// Two versions have two directories, and both lie below that of the sidecars.
pub proof fn versions_have_directories_of_their_own(
    app_data: &Location,
    left: &str,
    right: &str,
    first: Location,
    second: Location,
)
    requires
        call_ensures(sidecar_app_root, (app_data, left), first),
        call_ensures(sidecar_app_root, (app_data, right), second),
        versions::semver_valid(left@),
        versions::semver_valid(right@),
    ensures
        first@ == second@ <==> left@ == right@,
        first@ == app_data@ + seq!["runtimes"@, "dsh"@, left@],
{
    assert(first@[app_data@.len() as int + 2] == left@);
    assert(second@[app_data@.len() as int + 2] == right@);
    assert(first@ =~= app_data@ + seq!["runtimes"@, "dsh"@, left@]);
}

/// A place that is entered by a name has that name last.
pub proof fn a_place_is_named_by_its_last_name(
    place: &Location,
    name: &str,
    inner: Location,
    last: Option<String>,
)
    requires
        call_ensures(Location::join, (place, name), inner),
        call_ensures(Location::file_name, (&inner,), last),
    ensures
        inner@ == place@ + seq![name@],
        last matches Some(found) && found@ == name@,
{
    assert(inner@ =~= place@ + seq![name@]);
}

/// A sidecar is complete exactly where its program is a file.
pub proof fn a_sidecar_is_complete_with_its_program<F: FnOnce(&Location) -> bool>(
    app_root: &Location,
    is_file: F,
    r: bool,
)
    requires
        call_ensures(sidecar_is_complete::<F>, (app_root, is_file), r),
    ensures
        exists|entry: &Location|
            #[trigger] call_ensures(is_file, (entry,), r) && entry@ == app_root@ + seq![
                "node_modules"@,
                "@deepseek-ai"@,
                "dsh"@,
                "lib"@,
                "bin.js"@,
            ],
{
    the_program_lies_in_the_package(app_root@);
}

} // verus!
