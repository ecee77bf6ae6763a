//! Scopes: chained maps from names to values. Every scope lives in one
//! store and is known by its number, so that many function values and
//! calls can share a scope.

use vstd::prelude::*;
use crate::object::{Object, ObjectModel};
use crate::utils::str_eq;

verus! {

/// How deep evaluation may nest unless the caller says otherwise.
pub const DEFAULT_MAX_DEPTH: usize = 300;

// ---------------------------------------------------------------------
// The model
// ---------------------------------------------------------------------

/// A scope: its own bindings and the number of the scope around it.
pub struct ScopeModel {
    pub bindings: Map<Seq<char>, ObjectModel>,
    pub outer: Option<nat>,
}

/// All scopes made so far, the number of the scope in use, and the limit
/// on the depth of evaluation.
pub struct EnvironmentModel {
    pub scopes: Seq<ScopeModel>,
    pub current: nat,
    pub max_depth: nat,
}

impl EnvironmentModel {
    /// The scope in use exists, and the scope around a scope was made
    /// before it, so no chain of scopes runs in a circle.
    pub open spec fn wf(self) -> bool {
        &&& self.current < self.scopes.len()
        &&& forall|i: int|
            0 <= i < self.scopes.len() ==> ((#[trigger] self.scopes[i]).outer matches Some(o)
                ==> o < i)
    }
}

/// One empty scope with nothing around it.
pub open spec fn spec_new_environment(max_depth: nat) -> EnvironmentModel {
    EnvironmentModel {
        scopes: seq![ScopeModel { bindings: Map::empty(), outer: None }],
        current: 0,
        max_depth,
    }
}

/// The value of `name` as seen from `scope`: its own binding if it has
/// one, and otherwise what the scope around it sees.
pub open spec fn spec_lookup(env: EnvironmentModel, scope: nat, name: Seq<char>) -> Option<
    ObjectModel,
>
    decreases scope,
{
    if scope >= env.scopes.len() {
        None
    } else if env.scopes[scope as int].bindings.contains_key(name) {
        Some(env.scopes[scope as int].bindings[name])
    } else {
        match env.scopes[scope as int].outer {
            Some(outer) => if outer < scope {
                spec_lookup(env, outer, name)
            } else {
                None
            },
            None => None,
        }
    }
}

/// The value of `name` as seen from the scope in use.
pub open spec fn spec_get(env: EnvironmentModel, name: Seq<char>) -> Option<ObjectModel> {
    spec_lookup(env, env.current, name)
}

/// Binds `name` in the scope in use, and in no other.
pub open spec fn spec_set(env: EnvironmentModel, name: Seq<char>, value: ObjectModel)
    -> EnvironmentModel {
    if env.current < env.scopes.len() {
        EnvironmentModel {
            scopes: env.scopes.update(
                env.current as int,
                ScopeModel {
                    bindings: env.scopes[env.current as int].bindings.insert(name, value),
                    outer: env.scopes[env.current as int].outer,
                },
            ),
            current: env.current,
            max_depth: env.max_depth,
        }
    } else {
        env
    }
}

/// Makes an empty scope inside the scope `outer`, if there is such a scope,
/// and gives its number. The scope in use stays the same.
pub open spec fn spec_new_enclosed(env: EnvironmentModel, outer: nat) -> (
    EnvironmentModel,
    Option<nat>,
) {
    if outer < env.scopes.len() {
        (
            EnvironmentModel {
                scopes: env.scopes.push(ScopeModel { bindings: Map::empty(), outer: Some(outer) }),
                current: env.current,
                max_depth: env.max_depth,
            },
            Some(env.scopes.len()),
        )
    } else {
        (env, None)
    }
}

/// Makes `scope` the scope in use, if there is such a scope.
pub open spec fn spec_enter(env: EnvironmentModel, scope: nat) -> EnvironmentModel {
    if scope < env.scopes.len() {
        EnvironmentModel { scopes: env.scopes, current: scope, max_depth: env.max_depth }
    } else {
        env
    }
}

// ---------------------------------------------------------------------
// Laws of the model
// ---------------------------------------------------------------------

/// Where two stores hold the same scopes up to `scope`, a lookup from
/// `scope` finds the same in both.
pub proof fn lemma_lookup_sees_only_below(
    a: EnvironmentModel,
    b: EnvironmentModel,
    scope: nat,
    name: Seq<char>,
)
    requires
        scope < a.scopes.len(),
        scope < b.scopes.len(),
        forall|i: int| 0 <= i <= scope ==> a.scopes[i] == b.scopes[i],
    ensures
        spec_lookup(a, scope, name) == spec_lookup(b, scope, name),
    decreases scope,
{
    if !a.scopes[scope as int].bindings.contains_key(name) {
        match a.scopes[scope as int].outer {
            Some(outer) => {
                if outer < scope {
                    lemma_lookup_sees_only_below(a, b, outer, name);
                }
            },
            None => {},
        }
    }
}

/// Binding a name changes the scope in use and nothing else: the same
/// scopes exist, the same scope is in use, and every other scope is as it
/// was.
pub proof fn lemma_set_is_local(env: EnvironmentModel, name: Seq<char>, value: ObjectModel)
    requires
        env.wf(),
    ensures
        spec_set(env, name, value).wf(),
        spec_set(env, name, value).scopes.len() == env.scopes.len(),
        spec_set(env, name, value).current == env.current,
        spec_set(env, name, value).max_depth == env.max_depth,
        forall|i: int|
            0 <= i < env.scopes.len() && i != env.current ==> spec_set(env, name, value).scopes[i]
                == env.scopes[i],
        spec_set(env, name, value).scopes[env.current as int].outer
            == env.scopes[env.current as int].outer,
        spec_set(env, name, value).scopes[env.current as int].bindings
            == env.scopes[env.current as int].bindings.insert(name, value),
{
}

/// A name that was just bound is found with its new value.
pub proof fn lemma_set_then_get(env: EnvironmentModel, name: Seq<char>, value: ObjectModel)
    requires
        env.wf(),
    ensures
        spec_get(spec_set(env, name, value), name) == Some(value),
{
}

/// Binding a name leaves what every other name is bound to as it was.
pub proof fn lemma_set_keeps_other_names(
    env: EnvironmentModel,
    name: Seq<char>,
    value: ObjectModel,
    other: Seq<char>,
)
    requires
        env.wf(),
        other != name,
    ensures
        spec_get(spec_set(env, name, value), other) == spec_get(env, other),
{
    let after = spec_set(env, name, value);
    if !env.scopes[env.current as int].bindings.contains_key(other) {
        match env.scopes[env.current as int].outer {
            Some(outer) => {
                lemma_lookup_sees_only_below(after, env, outer, other);
            },
            None => {},
        }
    }
}

/// Shadowing, not assignment: a binding made in a scope is invisible from
/// the scopes around it, which still see what they saw before.
pub proof fn lemma_set_is_invisible_from_outside(
    env: EnvironmentModel,
    name: Seq<char>,
    value: ObjectModel,
    scope: nat,
    any: Seq<char>,
)
    requires
        env.wf(),
        scope < env.current,
    ensures
        spec_lookup(spec_set(env, name, value), scope, any) == spec_lookup(env, scope, any),
{
    lemma_lookup_sees_only_below(spec_set(env, name, value), env, scope, any);
}

/// A new scope is empty and sees exactly what the scope around it sees;
/// the scopes that were there are untouched, and the store stays well
/// formed.
pub proof fn lemma_new_enclosed(env: EnvironmentModel, outer: nat, name: Seq<char>)
    requires
        env.wf(),
        outer < env.scopes.len(),
    ensures
        spec_new_enclosed(env, outer).0.wf(),
        spec_new_enclosed(env, outer).1 == Some(env.scopes.len()),
        spec_new_enclosed(env, outer).0.current == env.current,
        spec_new_enclosed(env, outer).0.scopes.len() == env.scopes.len() + 1,
        forall|i: int|
            0 <= i < env.scopes.len() ==> spec_new_enclosed(env, outer).0.scopes[i]
                == env.scopes[i],
        spec_lookup(spec_new_enclosed(env, outer).0, env.scopes.len(), name) == spec_lookup(
            env,
            outer,
            name,
        ),
{
    let after = spec_new_enclosed(env, outer).0;
    lemma_lookup_sees_only_below(after, env, outer, name);
}

/// Where there is no scope `outer`, nothing is made and nothing changes.
pub proof fn lemma_new_enclosed_refused(env: EnvironmentModel, outer: nat)
    requires
        outer >= env.scopes.len(),
    ensures
        spec_new_enclosed(env, outer) == (env, None::<nat>),
{
}

/// Entering a scope changes which scope is in use, and nothing else.
pub proof fn lemma_enter(env: EnvironmentModel, scope: nat)
    requires
        env.wf(),
    ensures
        spec_enter(env, scope).wf(),
        spec_enter(env, scope).scopes == env.scopes,
        spec_enter(env, scope).max_depth == env.max_depth,
        spec_enter(env, scope).current == if scope < env.scopes.len() {
            scope
        } else {
            env.current
        },
{
}

// ---------------------------------------------------------------------
// The store
// ---------------------------------------------------------------------

struct Binding<'a> {
    name: String,
    value: Object<'a>,
}

struct Scope<'a> {
    bindings: Vec<Binding<'a>>,
    outer: Option<usize>,
}

/// The scopes of one session.
pub struct Environment<'a> {
    scopes: Vec<Scope<'a>>,
    current: usize,
    max_depth: usize,
}

/// The map that a list of bindings stands for: a later binding of a name
/// replaces an earlier one.
spec fn bindings_map<'a>(bindings: Seq<Binding<'a>>) -> Map<Seq<char>, ObjectModel>
    decreases bindings.len(),
{
    if bindings.len() == 0 {
        Map::empty()
    } else {
        bindings_map(bindings.drop_last()).insert(bindings.last().name@, bindings.last().value@)
    }
}

spec fn scope_model<'a>(scope: Scope<'a>) -> ScopeModel {
    ScopeModel {
        bindings: bindings_map(scope.bindings@),
        outer: match scope.outer {
            Some(o) => Some(o as nat),
            None => None,
        },
    }
}

proof fn lemma_bindings_map_found<'a>(bindings: Seq<Binding<'a>>, name: Seq<char>, i: int)
    requires
        0 <= i < bindings.len(),
        bindings[i].name@ == name,
        forall|j: int| i < j < bindings.len() ==> bindings[j].name@ != name,
    ensures
        bindings_map(bindings).contains_key(name),
        bindings_map(bindings)[name] == bindings[i].value@,
    decreases bindings.len(),
{
    if i < bindings.len() - 1 {
        lemma_bindings_map_found(bindings.drop_last(), name, i);
    }
}

proof fn lemma_bindings_map_absent<'a>(bindings: Seq<Binding<'a>>, name: Seq<char>)
    requires
        forall|j: int| 0 <= j < bindings.len() ==> bindings[j].name@ != name,
    ensures
        !bindings_map(bindings).contains_key(name),
    decreases bindings.len(),
{
    if bindings.len() > 0 {
        lemma_bindings_map_absent(bindings.drop_last(), name);
    }
}

/// The value of an optional runtime value.
pub open spec fn object_option_model<'a>(r: Option<Object<'a>>) -> Option<ObjectModel> {
    match r {
        Some(object) => Some(object@),
        None => None,
    }
}

fn find_binding<'a>(bindings: &Vec<Binding<'a>>, name: &str) -> (r: Option<Object<'a>>)
    ensures
        object_option_model(r) == if bindings_map(bindings@).contains_key(name@) {
            Some(bindings_map(bindings@)[name@])
        } else {
            None
        },
{
    let mut i: usize = bindings.len();
    while i > 0
        invariant
            i <= bindings.len(),
            forall|j: int| i <= j < bindings.len() ==> bindings[j].name@ != name@,
        decreases i,
    {
        i = i - 1;
        if str_eq(bindings[i].name.as_str(), name) {
            proof {
                lemma_bindings_map_found(bindings@, name@, i as int);
            }
            return Some(bindings[i].value.duplicate());
        }
    }
    proof {
        lemma_bindings_map_absent(bindings@, name@);
    }
    None
}

impl<'a> View for Environment<'a> {
    type V = EnvironmentModel;

    closed spec fn view(&self) -> EnvironmentModel {
        EnvironmentModel {
            scopes: Seq::new(self.scopes.len() as nat, |i: int| scope_model(self.scopes[i])),
            current: self.current as nat,
            max_depth: self.max_depth as nat,
        }
    }
}

impl<'a> Environment<'a> {
    /// The scope in use exists, and no chain of scopes runs in a circle.
    /// Every store made and changed by the functions of this module is
    /// well formed.
    pub closed spec fn wf(&self) -> bool {
        &&& self.current < self.scopes.len()
        &&& forall|i: int|
            0 <= i < self.scopes.len() ==> ((#[trigger] self.scopes[i]).outer matches Some(o)
                ==> o < i)
    }

    /// A store with one empty scope, and the default limit on depth.
    pub fn new() -> (env: Environment<'a>)
        ensures
            env.wf(),
            env@ == spec_new_environment(DEFAULT_MAX_DEPTH as nat),
    {
        Environment::with_max_depth(DEFAULT_MAX_DEPTH)
    }

    /// A store with one empty scope, in which evaluation may nest
    /// `max_depth` levels deep.
    pub fn with_max_depth(max_depth: usize) -> (env: Environment<'a>)
        ensures
            env.wf(),
            env@ == spec_new_environment(max_depth as nat),
    {
        let mut scopes: Vec<Scope<'a>> = Vec::new();
        scopes.push(Scope { bindings: Vec::new(), outer: None });
        let env = Environment { scopes, current: 0, max_depth };
        proof {
            assert(env@.scopes =~= spec_new_environment(max_depth as nat).scopes);
        }
        env
    }

    /// The model of a well-formed store is well formed.
    pub proof fn lemma_wf(&self)
        requires
            self.wf(),
        ensures
            self@.wf(),
    {
    }

    /// The limit on the depth of evaluation.
    pub fn max_depth(&self) -> (depth: usize)
        ensures
            depth == self@.max_depth,
    {
        self.max_depth
    }

    /// The number of the scope in use.
    pub fn current(&self) -> (scope: usize)
        requires
            self.wf(),
        ensures
            scope == self@.current,
            scope < self@.scopes.len(),
    {
        self.current
    }

    /// Looks `name` up in the scope in use and, if it is not bound there,
    /// in the scopes around it, from the inside out.
    pub fn get(&self, name: &str) -> (r: Option<Object<'a>>)
        requires
            self.wf(),
        ensures
            object_option_model(r) == spec_get(self@, name@),
    {
        let mut scope: usize = self.current;
        loop
            invariant
                scope < self.scopes.len(),
                forall|i: int|
                    0 <= i < self.scopes.len() ==> ((#[trigger] self.scopes[i]).outer matches Some(
                        o,
                    ) ==> o < i),
                spec_lookup(self@, scope as nat, name@) == spec_get(self@, name@),
            decreases scope,
        {
            match find_binding(&self.scopes[scope].bindings, name) {
                Some(object) => {
                    return Some(object);
                },
                None => {},
            }
            match self.scopes[scope].outer {
                Some(outer) => {
                    scope = outer;
                },
                None => {
                    return None;
                },
            }
        }
    }

    /// Binds `name` to `value` in the scope in use. A binding of the same
    /// name in a scope around it is hidden, not changed.
    pub fn set(&mut self, name: &str, value: Object<'a>)
        requires
            old(self).wf(),
        ensures
            final(self).wf(),
            final(self)@ == spec_set(old(self)@, name@, value@),
    {
        let current: usize = self.current;
        let ghost before = self.scopes@[current as int].bindings@;
        let binding: Binding<'a> = Binding { name: String::from_str(name), value };
        self.scopes[current].bindings.push(binding);
        proof {
            assert(self.scopes@[current as int].bindings@.drop_last() =~= before);
            assert(bindings_map(self.scopes@[current as int].bindings@) == bindings_map(
                before,
            ).insert(name@, value@));
            assert(self@.scopes =~= spec_set(old(self)@, name@, value@).scopes);
        }
    }

    /// Makes an empty scope inside the scope `outer` and returns its
    /// number, or nothing if there is no scope `outer`.
    pub fn new_enclosed(&mut self, outer: usize) -> (r: Option<usize>)
        requires
            old(self).wf(),
        ensures
            final(self).wf(),
            final(self)@ == spec_new_enclosed(old(self)@, outer as nat).0,
            match r {
                Some(scope) => spec_new_enclosed(old(self)@, outer as nat).1 == Some(scope as nat),
                None => spec_new_enclosed(old(self)@, outer as nat).1 is None,
            },
    {
        if outer < self.scopes.len() {
            let scope: usize = self.scopes.len();
            self.scopes.push(Scope { bindings: Vec::new(), outer: Some(outer) });
            proof {
                assert(self@.scopes =~= spec_new_enclosed(old(self)@, outer as nat).0.scopes);
            }
            Some(scope)
        } else {
            None
        }
    }

    /// Makes `scope` the scope in use. Returns whether there is such a
    /// scope; if there is none, nothing changes.
    pub fn enter(&mut self, scope: usize) -> (entered: bool)
        requires
            old(self).wf(),
        ensures
            final(self).wf(),
            final(self)@ == spec_enter(old(self)@, scope as nat),
            entered == (scope < old(self)@.scopes.len()),
    {
        if scope < self.scopes.len() {
            self.current = scope;
            true
        } else {
            false
        }
    }
}

} // verus!
