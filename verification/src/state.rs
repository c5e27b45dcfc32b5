//! Which runtime is active, and how that changes: a new runtime is activated,
//! a runtime that does not work is rolled back, the bundled one is restored.

use vstd::prelude::*;
use vstd::string::*;

use crate::runtime;
use crate::text;
use crate::versions;

verus! {

/// Where the active runtime comes from.
#[derive(Clone, Copy, Debug, PartialEq, Eq, Structural)]
pub enum RuntimeSource {
    /// Installed with the desktop.
    Bundled,
    /// Installed later, beside it.
    Sidecar,
}

/// The runtime that is active and the one to go back to.
#[derive(Debug)]
pub struct RuntimeState {
    pub active_version: String,
    pub previous_version: Option<String>,
    pub source: RuntimeSource,
}

/// What a `RuntimeState` says.
#[verifier::ext_equal]
pub struct StateView {
    pub active_version: Seq<char>,
    pub previous_version: Option<Seq<char>>,
    pub source: RuntimeSource,
}

impl View for RuntimeState {
    type V = StateView;

    open spec fn view(&self) -> StateView {
        StateView {
            active_version: self.active_version@,
            previous_version: text::text_opt(self.previous_version),
            source: self.source,
        }
    }
}

impl Clone for RuntimeState {
    fn clone(&self) -> (r: Self)
        ensures
            r@ == self@,
    {
        RuntimeState {
            active_version: self.active_version.clone(),
            previous_version: text::copy_opt(&self.previous_version),
            source: self.source,
        }
    }
}

/// The source of a state that names none.
pub fn default_runtime_source() -> (r: RuntimeSource)
    ensures
        r == RuntimeSource::Bundled,
{
    RuntimeSource::Bundled
}

// ---------------------------------------------------------------------------
// The model
// ---------------------------------------------------------------------------
/// The state of a desktop on which nothing has been installed.
pub open spec fn bundled_state() -> StateView {
    StateView {
        active_version: runtime::BUNDLED_DSH_VERSION@,
        previous_version: None,
        source: RuntimeSource::Bundled,
    }
}

/// The state after a sidecar has been activated: the sidecar that it replaces
/// becomes the previous one.
pub open spec fn activated(current: StateView, version: Seq<char>) -> StateView {
    StateView {
        active_version: version,
        previous_version: if current.source == RuntimeSource::Sidecar && current.active_version
            != version {
            Some(current.active_version)
        } else {
            current.previous_version
        },
        source: RuntimeSource::Sidecar,
    }
}

/// The state after the bundled runtime has been restored: the sidecar that it
/// replaces becomes the previous one.
pub open spec fn restored(current: StateView) -> StateView {
    StateView {
        active_version: runtime::BUNDLED_DSH_VERSION@,
        previous_version: if current.source == RuntimeSource::Sidecar {
            Some(current.active_version)
        } else {
            current.previous_version
        },
        source: RuntimeSource::Bundled,
    }
}

/// The version that a rollback looks at: the previous one of a sidecar, where
/// it is another one.
pub open spec fn candidate(current: StateView) -> Option<Seq<char>> {
    match current.previous_version {
        Some(previous) => if current.source == RuntimeSource::Sidecar && previous
            != current.active_version {
            Some(previous)
        } else {
            None
        },
        None => None,
    }
}

/// The state that a rollback writes: none where no sidecar is active, the
/// previous sidecar where it is complete, else the bundled runtime.
pub open spec fn rollback_target(current: StateView, candidate_complete: bool) -> Option<
    StateView,
> {
    if current.source != RuntimeSource::Sidecar {
        None
    } else if candidate(current) is Some && candidate_complete {
        Some(
            StateView {
                active_version: candidate(current)->0,
                previous_version: None,
                source: RuntimeSource::Sidecar,
            },
        )
    } else {
        Some(restored(current))
    }
}

/// The state after a rollback, given whether its state could be written.
pub open spec fn rolled_back(
    current: StateView,
    candidate_complete: bool,
    saved: bool,
) -> StateView {
    match rollback_target(current, candidate_complete) {
        None => current,
        Some(target) => if target.source == RuntimeSource::Sidecar || saved {
            target
        } else {
            bundled_state()
        },
    }
}

// ---------------------------------------------------------------------------
// The functions
// ---------------------------------------------------------------------------
impl RuntimeState {
    /// The state of a desktop on which nothing has been installed.
    pub fn bundled() -> (r: Self)
        ensures
            r@ == bundled_state(),
    {
        RuntimeState {
            active_version: runtime::BUNDLED_DSH_VERSION.to_string(),
            previous_version: None,
            source: RuntimeSource::Bundled,
        }
    }
}

/// The present state: what was read, or the bundled runtime where nothing
/// could be read.
pub fn load_runtime_state(read: Option<RuntimeState>) -> (r: RuntimeState)
    ensures
        r@ == match read {
            Some(state) => state@,
            None => bundled_state(),
        },
{
    match read {
        Some(state) => state,
        None => RuntimeState::bundled(),
    }
}

/// The state after the sidecar of a version has been activated.
pub fn activate_sidecar(current: RuntimeState, version: &str) -> (r: RuntimeState)
    ensures
        r@ == activated(current@, version@),
{
    let previous = if current.source == RuntimeSource::Sidecar && !text::same(
        current.active_version.as_str(),
        version,
    ) {
        Some(current.active_version)
    } else {
        current.previous_version
    };
    RuntimeState {
        active_version: version.to_owned(),
        previous_version: previous,
        source: RuntimeSource::Sidecar,
    }
}

/// The state after the bundled runtime has been restored.
pub fn restore_bundled_state(current: RuntimeState) -> (r: RuntimeState)
    ensures
        r@ == restored(current@),
{
    let previous = match current.source {
        RuntimeSource::Sidecar => Some(current.active_version),
        RuntimeSource::Bundled => current.previous_version,
    };
    RuntimeState {
        active_version: runtime::BUNDLED_DSH_VERSION.to_string(),
        previous_version: previous,
        source: RuntimeSource::Bundled,
    }
}

/// The version whose sidecar a rollback looks at.
pub fn rollback_candidate(current: &RuntimeState) -> (r: Option<String>)
    ensures
        text::text_opt(r) == candidate(current@),
{
    if current.source == RuntimeSource::Sidecar {
        match &current.previous_version {
            Some(previous) => if !text::same(previous.as_str(), current.active_version.as_str()) {
                Some(previous.clone())
            } else {
                None
            },
            None => None,
        }
    } else {
        None
    }
}

/// What an optional state says.
pub open spec fn state_opt(state: Option<RuntimeState>) -> Option<StateView> {
    match state {
        Some(content) => Some(content@),
        None => None,
    }
}

/// The state that a rollback writes, given whether the sidecar that it looks
/// at is complete.
pub fn rollback_state(current: &RuntimeState, candidate_complete: bool) -> (r: Option<RuntimeState>)
    ensures
        state_opt(r) == rollback_target(current@, candidate_complete),
{
    if current.source != RuntimeSource::Sidecar {
        return None;
    }
    if candidate_complete {
        match rollback_candidate(current) {
            Some(previous) => {
                return Some(
                    RuntimeState {
                        active_version: previous,
                        previous_version: None,
                        source: RuntimeSource::Sidecar,
                    },
                );
            },
            None => {},
        }
    }
    Some(restore_bundled_state(current.clone()))
}

/// The state after a rollback, given whether the sidecar that it looks at is
/// complete and whether its state could be written.
pub fn rollback_runtime_state(
    current: RuntimeState,
    candidate_complete: bool,
    saved: bool,
) -> (r: RuntimeState)
    ensures
        r@ == rolled_back(current@, candidate_complete, saved),
{
    match rollback_state(&current, candidate_complete) {
        None => current,
        Some(target) => if target.source == RuntimeSource::Sidecar || saved {
            target
        } else {
            RuntimeState::bundled()
        },
    }
}

/// The directory names that are kept for a state.
pub open spec fn kept(state: StateView) -> Set<Seq<char>> {
    match state.previous_version {
        Some(previous) => set![
            versions::directory(state.active_version),
            versions::directory(previous),
        ],
        None => set![versions::directory(state.active_version)],
    }
}

/// The directory names that a state has no use for, in their order.
pub open spec fn unused(names: Seq<Seq<char>>, state: StateView) -> Seq<Seq<char>> {
    names.filter(|name: Seq<char>| !kept(state).contains(name))
}

/// Of the directories that hold runtimes, those that the state has no use for.
pub fn prune_sidecars(names: &Vec<String>, state: &RuntimeState) -> (r: Vec<String>)
    ensures
        text::texts(r@) == unused(text::texts(names@), state@),
{
    let active = versions::sanitize_version(state.active_version.as_str());
    let previous = match &state.previous_version {
        Some(version) => versions::sanitize_version(version.as_str()),
        None => active.clone(),
    };
    let ghost all = text::texts(names@);
    let ghost useless = |name: Seq<char>| !kept(state@).contains(name);
    let mut out: Vec<String> = Vec::new();
    let mut i: usize = 0;
    assert(all.take(0) =~= Seq::<Seq<char>>::empty());
    assert(all.take(0).filter(useless) =~= Seq::<Seq<char>>::empty()) by {
        reveal(Seq::filter);
    }
    assert(text::texts(out@) =~= Seq::<Seq<char>>::empty());
    while i < names.len()
        invariant
            i <= names@.len(),
            all == text::texts(names@),
            useless == (|name: Seq<char>| !kept(state@).contains(name)),
            forall|name: Seq<char>|
                kept(state@).contains(name) <==> name == active@ || name == previous@,
            text::texts(out@) == all.take(i as int).filter(useless),
        decreases names@.len() - i,
    {
        let name = names[i].as_str();
        proof {
            assert(all.take(i + 1).drop_last() =~= all.take(i as int));
            assert(all.take(i + 1).last() == name@);
            reveal(Seq::filter);
        }
        if !text::same(name, active.as_str()) && !text::same(name, previous.as_str()) {
            let ghost before = text::texts(out@);
            out.push(name.to_owned());
            assert(text::texts(out@) =~= before.push(name@));
        }
        i += 1;
    }
    assert(all.take(names@.len() as int) =~= all);
    out
}

// ---------------------------------------------------------------------------
// Laws
// ---------------------------------------------------------------------------
/// A rollback undoes the activation of another version: the sidecar that was
/// active before is active again.
pub proof fn rollback_undoes_activation(current: StateView, version: Seq<char>, saved: bool)
    requires
        current.source == RuntimeSource::Sidecar,
        current.active_version != version,
    ensures
        rolled_back(activated(current, version), true, saved) == (StateView {
            active_version: current.active_version,
            previous_version: None,
            source: RuntimeSource::Sidecar,
        }),
{
}

/// Activating the same version twice is activating it once.
pub proof fn activation_is_idempotent(current: StateView, version: Seq<char>)
    ensures
        activated(activated(current, version), version) == activated(current, version),
{
}

/// Restoring the bundled runtime twice is restoring it once, and always makes
/// the bundled version active.
pub proof fn restoring_is_idempotent(current: StateView)
    ensures
        restored(restored(current)) == restored(current),
        restored(current).active_version == runtime::BUNDLED_DSH_VERSION@,
        restored(current).source == RuntimeSource::Bundled,
{
}

/// A rollback never leaves the sidecar active that it was called for.
pub proof fn rollback_leaves_the_failed_sidecar(
    current: StateView,
    candidate_complete: bool,
    saved: bool,
)
    requires
        current.source == RuntimeSource::Sidecar,
    ensures
        ({
            let r = rolled_back(current, candidate_complete, saved);
            r.source == RuntimeSource::Bundled || r.active_version != current.active_version
        }),
{
}

/// Rollbacks come to an end: after two the bundled runtime is active, and a
/// third changes nothing.
pub proof fn rollbacks_end_at_the_bundled_runtime(
    current: StateView,
    first_complete: bool,
    first_saved: bool,
    second_complete: bool,
    second_saved: bool,
    third_complete: bool,
    third_saved: bool,
)
    ensures
        ({
            let once = rolled_back(current, first_complete, first_saved);
            let twice = rolled_back(once, second_complete, second_saved);
            &&& twice.source == RuntimeSource::Bundled
            &&& rolled_back(twice, third_complete, third_saved) == twice
        }),
{
}

/// Pruning never takes a directory that the state needs, and takes every
/// other one.
pub proof fn pruning_spares_what_is_needed(names: Seq<Seq<char>>, state: StateView)
    ensures
        !unused(names, state).contains(versions::directory(state.active_version)),
        state.previous_version is Some ==> !unused(names, state).contains(
            versions::directory(state.previous_version->0),
        ),
        forall|name: Seq<char>|
            names.contains(name) && !kept(state).contains(name) ==> #[trigger] unused(
                names,
                state,
            ).contains(name),
{
    let useless = |name: Seq<char>| !kept(state).contains(name);
    broadcast use vstd::seq_lib::group_filter_ensures;

    assert forall|k: int| 0 <= k < unused(names, state).len() implies !kept(state).contains(
        #[trigger] unused(names, state)[k],
    ) by {
        assert(useless(names.filter(useless)[k]));
    }
    assert forall|name: Seq<char>|
        names.contains(name) && !kept(state).contains(name) implies #[trigger] unused(
        names,
        state,
    ).contains(name) by {
        let i = choose|i: int| 0 <= i < names.len() && names[i] == name;
        assert(useless(names[i]));
    }
}

/// A desktop on which nothing has been installed runs the version that it was
/// delivered with.
pub proof fn nothing_installed_is_bundled()
    ensures
        bundled_state().source == RuntimeSource::Bundled,
        bundled_state().previous_version is None,
        bundled_state().active_version == "0.1.0-rc.6"@,
{
}

/// An activated version is active as a sidecar. The sidecar that it replaces
/// becomes the previous one; where it replaces none, the previous one stays.
pub proof fn activation_case_by_case(current: StateView, version: Seq<char>)
    ensures
        activated(current, version).active_version == version,
        activated(current, version).source == RuntimeSource::Sidecar,
        current.source == RuntimeSource::Sidecar && current.active_version != version
            ==> activated(current, version).previous_version == Some(current.active_version),
        current.source == RuntimeSource::Bundled || current.active_version == version ==> activated(
            current,
            version,
        ).previous_version == current.previous_version,
{
}

/// A restored desktop remembers the sidecar that was active; where none was, it
/// remembers the one that it remembered before.
pub proof fn restoring_remembers_the_sidecar(current: StateView)
    ensures
        restored(current).active_version == "0.1.0-rc.6"@,
        restored(current).source == RuntimeSource::Bundled,
        current.source == RuntimeSource::Sidecar ==> restored(current).previous_version == Some(
            current.active_version,
        ),
        current.source == RuntimeSource::Bundled ==> restored(current).previous_version
            == current.previous_version,
{
}

/// A rollback goes to the previous sidecar where that is another one and
/// complete, whether or not this can be written down; else to the bundled
/// runtime; and nowhere where no sidecar is active. What it writes is where it
/// goes, wherever the writing succeeds.
pub proof fn rollback_case_by_case(current: StateView, candidate_complete: bool, saved: bool)
    ensures
        ({
            let r = rolled_back(current, candidate_complete, saved);
            let target = rollback_target(current, candidate_complete);
            let usable = current.previous_version is Some && current.previous_version->0
                != current.active_version;
            &&& current.source == RuntimeSource::Bundled ==> r == current && target is None
                && candidate(current) is None
            &&& current.source == RuntimeSource::Sidecar ==> target is Some
            &&& current.source == RuntimeSource::Sidecar && usable ==> candidate(current)
                == current.previous_version
            &&& !usable ==> candidate(current) is None
            &&& current.source == RuntimeSource::Sidecar && usable && candidate_complete ==> {
                &&& r.active_version == current.previous_version->0
                &&& r.previous_version is None
                &&& r.source == RuntimeSource::Sidecar
            }
            &&& current.source == RuntimeSource::Sidecar && !(usable && candidate_complete) ==> {
                &&& r.active_version == "0.1.0-rc.6"@
                &&& r.source == RuntimeSource::Bundled
                &&& r.previous_version == (if saved {
                    Some(current.active_version)
                } else {
                    None
                })
            }
            &&& target is Some && saved ==> r == target->0
        }),
{
}

/// Of the directories, one after the other, each is removed where it is neither
/// that of the active nor that of the previous version.
pub proof fn pruning_takes_directory_by_directory(
    names: Seq<Seq<char>>,
    name: Seq<char>,
    state: StateView,
)
    ensures
        unused(Seq::empty(), state) == Seq::<Seq<char>>::empty(),
        name == versions::directory(state.active_version) ==> unused(names.push(name), state)
            == unused(names, state),
        state.previous_version is Some && name == versions::directory(state.previous_version->0)
            ==> unused(names.push(name), state) == unused(names, state),
        name != versions::directory(state.active_version) && (state.previous_version is None || name
            != versions::directory(state.previous_version->0)) ==> unused(names.push(name), state)
            == unused(names, state).push(name),
{
    reveal(Seq::filter);
    assert(names.push(name).drop_last() =~= names);
    assert(unused(Seq::empty(), state) =~= Seq::<Seq<char>>::empty());
}

/// A state that could be read is taken as it is, and else nothing is installed.
pub proof fn a_readable_state_is_taken(read: Option<RuntimeState>, r: RuntimeState)
    requires
        call_ensures(load_runtime_state, (read,), r),
    ensures
        read matches Some(state) ==> r@ == state@,
        read is None ==> r@.source == RuntimeSource::Bundled && r@.active_version == "0.1.0-rc.6"@
            && r@.previous_version is None,
{
}

/// A state that is there says what it says.
pub proof fn a_state_says_what_it_holds(state: RuntimeState)
    ensures
        state_opt(Some(state)) == Some(state@),
        state_opt(None) is None,
        state@.active_version == state.active_version@,
        state@.previous_version == text::text_opt(state.previous_version),
        state@.source == state.source,
{
}

} // verus!
