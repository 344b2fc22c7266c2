//! Variables and their four scopes.
//!
//! A name starting with `g.` is global (kept across numbered saves),
//! `t.` is temporary (never saved), `s.` is a system variable, and any
//! other name is local. The prefix selects the scope; the rest of the name
//! is the key within it.
use crate::strmap::{StrMap, entries_insert, entries_remove, lookup, lemma_insert, lemma_remove, distinct_keys, starts_with};
use crate::text::{chars_of, concat, string_from, i64_text, parse_i64, parse_signed, int_text, to_owned_string};
use vstd::prelude::*;

verus! {

/// A variable's value. Numbers are whole numbers.
#[derive(Debug, Clone, PartialEq)]
pub enum Value {
    /// Integer value.
    Int(i64),
    /// String value.
    String(String),
    /// Boolean value.
    Bool(bool),
    /// No value.
    Null,
}

/// The mathematical content of a [`Value`].
pub enum ValueModel {
    Int(i64),
    Str(Seq<char>),
    Bool(bool),
    Null,
}

impl View for Value {
    type V = ValueModel;

    open spec fn view(&self) -> ValueModel {
        match self {
            Value::Int(n) => ValueModel::Int(*n),
            Value::String(s) => ValueModel::Str(s@),
            Value::Bool(b) => ValueModel::Bool(*b),
            Value::Null => ValueModel::Null,
        }
    }
}

/// The integer a value converts to (`Value::as_int`).
pub open spec fn value_int(v: ValueModel) -> Option<int> {
    match v {
        ValueModel::Int(n) => Some(n as int),
        ValueModel::Bool(b) => Some(
            if b {
                1
            } else {
                0
            },
        ),
        ValueModel::Str(s) => parse_signed(s, i64::MIN as int, i64::MAX as int),
        ValueModel::Null => Some(0),
    }
}

/// The truth of a value (`Value::as_bool`).
pub open spec fn value_bool(v: ValueModel) -> bool {
    match v {
        ValueModel::Int(n) => n != 0,
        ValueModel::Bool(b) => b,
        ValueModel::Str(s) => s.len() > 0,
        ValueModel::Null => false,
    }
}

/// The text of a value (`Value::as_string`).
pub open spec fn value_text(v: ValueModel) -> Seq<char> {
    match v {
        ValueModel::Int(n) => int_text(n as int),
        ValueModel::Bool(b) => if b {
            "1"@
        } else {
            "0"@
        },
        ValueModel::Str(s) => s,
        ValueModel::Null => Seq::empty(),
    }
}

impl Value {
    /// The value as an integer: integers as they are, `true`/`false` as
    /// 1/0, strings when they read as an `i64`, `Null` as 0.
    pub fn as_int(&self) -> (r: Option<i64>)
        ensures
            match value_int(self@) {
                Some(n) => r == Some(n as i64),
                None => r is None,
            },
    {
        match self {
            Value::Int(n) => Some(*n),
            Value::Bool(b) => Some(
                if *b {
                    1
                } else {
                    0
                },
            ),
            Value::String(s) => parse_i64(s.as_str()),
            Value::Null => Some(0),
        }
    }

    /// The value as a truth value: non-zero, `true`, non-empty.
    pub fn as_bool(&self) -> (r: bool)
        ensures
            r == value_bool(self@),
    {
        match self {
            Value::Int(n) => *n != 0,
            Value::Bool(b) => *b,
            Value::String(s) => !s.as_str().is_empty(),
            Value::Null => false,
        }
    }

    /// The value as text: decimal for integers, `1`/`0` for booleans,
    /// empty for `Null`.
    pub fn as_string(&self) -> (r: String)
        ensures
            r@ == value_text(self@),
    {
        match self {
            Value::Int(n) => i64_text(*n),
            Value::Bool(b) => if *b {
                to_owned_string("1")
            } else {
                to_owned_string("0")
            },
            Value::String(s) => s.clone(),
            Value::Null => String::new(),
        }
    }

    /// Whether the value is a number.
    pub fn is_numeric(&self) -> (r: bool)
        ensures
            r == (self@ is Int),
    {
        match self {
            Value::Int(_) => true,
            _ => false,
        }
    }

    /// A copy of this value.
    pub fn duplicate(&self) -> (r: Value)
        ensures
            r@ == self@,
    {
        match self {
            Value::Int(n) => Value::Int(*n),
            Value::String(s) => Value::String(s.clone()),
            Value::Bool(b) => Value::Bool(*b),
            Value::Null => Value::Null,
        }
    }
}

/// The four variable scopes.
#[derive(Clone, Copy, Debug, PartialEq, Eq, Structural)]
pub enum Scope {
    Local,
    Global,
    Temp,
    System,
}

/// The scope that a name's prefix selects.
pub open spec fn scope_of(name: Seq<char>) -> Scope {
    if starts_with(name, "g."@) {
        Scope::Global
    } else if starts_with(name, "t."@) {
        Scope::Temp
    } else if starts_with(name, "s."@) {
        Scope::System
    } else {
        Scope::Local
    }
}

/// The key of a name within its scope (the name without its prefix).
pub open spec fn scope_key(name: Seq<char>) -> Seq<char> {
    if scope_of(name) == Scope::Local {
        name
    } else {
        name.skip(2)
    }
}

/// The contents of a variable store.
pub struct StoreView {
    pub local: Seq<(Seq<char>, ValueModel)>,
    pub global: Seq<(Seq<char>, ValueModel)>,
    pub temp: Seq<(Seq<char>, ValueModel)>,
    pub system: Seq<(Seq<char>, ValueModel)>,
    pub platform: Seq<char>,
    pub host_os: Seq<char>,
}

/// The entries of one scope.
pub open spec fn scope_entries(v: StoreView, s: Scope) -> Seq<(Seq<char>, ValueModel)> {
    match s {
        Scope::Local => v.local,
        Scope::Global => v.global,
        Scope::Temp => v.temp,
        Scope::System => v.system,
    }
}

/// The store with the entries of scope `s` replaced by `e`.
pub open spec fn with_scope(v: StoreView, s: Scope, e: Seq<(Seq<char>, ValueModel)>) -> StoreView {
    match s {
        Scope::Local => StoreView { local: e, ..v },
        Scope::Global => StoreView { global: e, ..v },
        Scope::Temp => StoreView { temp: e, ..v },
        Scope::System => StoreView { system: e, ..v },
    }
}

/// The value of variable `name`.
pub open spec fn var_get(v: StoreView, name: Seq<char>) -> Option<ValueModel> {
    lookup(scope_entries(v, scope_of(name)), scope_key(name))
}

/// The store after `name` is set to `value`.
pub open spec fn var_set(v: StoreView, name: Seq<char>, value: ValueModel) -> StoreView {
    with_scope(
        v,
        scope_of(name),
        entries_insert(scope_entries(v, scope_of(name)), scope_key(name), value),
    )
}

/// The store after `name` is removed.
pub open spec fn var_remove(v: StoreView, name: Seq<char>) -> StoreView {
    with_scope(v, scope_of(name), entries_remove(scope_entries(v, scope_of(name)), scope_key(name)))
}

/// The store without the children of `name`: in the scope of `name`, the
/// keys that start with the key of `name` followed by `.`.
pub open spec fn children_removed(v: StoreView, name: Seq<char>) -> StoreView {
    let s = scope_of(name);
    let pre = scope_key(name) + "."@;
    with_scope(v, s, scope_entries(v, s).filter(|e: (Seq<char>, ValueModel)| !starts_with(e.0, pre)))
}

/// Every scope has distinct keys.
pub open spec fn store_wf(v: StoreView) -> bool {
    &&& distinct_keys(v.local)
    &&& distinct_keys(v.global)
    &&& distinct_keys(v.temp)
    &&& distinct_keys(v.system)
}

/// Two names address the same variable exactly when they select the same
/// scope and the same key.
pub open spec fn same_var(a: Seq<char>, b: Seq<char>) -> bool {
    scope_of(a) == scope_of(b) && scope_key(a) == scope_key(b)
}

/// Variable storage with local, global (`g.`), temporary (`t.`) and
/// system (`s.`) scopes, and the target platform name.
#[derive(Debug, Clone)]
pub struct VariableStore {
    local: StrMap<Value>,
    global: StrMap<Value>,
    temp: StrMap<Value>,
    system: StrMap<Value>,
    platform: String,
    host_os: String,
}

impl View for VariableStore {
    type V = StoreView;

    closed spec fn view(&self) -> StoreView {
        StoreView {
            local: self.local@,
            global: self.global@,
            temp: self.temp@,
            system: self.system@,
            platform: self.platform@,
            host_os: self.host_os@,
        }
    }
}

/// The scope of a name and the position where its key starts.
fn split_name(name: &str) -> (r: (Scope, String))
    ensures
        r.0 == scope_of(name@),
        r.1@ == scope_key(name@),
{
    let v = chars_of(name);
    proof {
        reveal_strlit("g.");
        reveal_strlit("t.");
        reveal_strlit("s.");
    }
    let scope = if v.len() >= 2 && v[1] == '.' && v[0] == 'g' {
        assert(v@.subrange(0, 2) =~= "g."@);
        Scope::Global
    } else if v.len() >= 2 && v[1] == '.' && v[0] == 't' {
        assert(v@.subrange(0, 2) =~= "t."@);
        assert(!starts_with(v@, "g."@)) by {
            assert(v@.subrange(0, 2)[0] != "g."@[0]);
        }
        Scope::Temp
    } else if v.len() >= 2 && v[1] == '.' && v[0] == 's' {
        assert(v@.subrange(0, 2) =~= "s."@);
        assert(!starts_with(v@, "g."@)) by {
            assert(v@.subrange(0, 2)[0] != "g."@[0]);
        }
        assert(!starts_with(v@, "t."@)) by {
            assert(v@.subrange(0, 2)[0] != "t."@[0]);
        }
        Scope::System
    } else {
        proof {
            if v@.len() >= 2 {
                let p = v@.subrange(0, 2);
                assert(p[0] == v@[0]);
                assert(p[1] == v@[1]);
                if v@[1] != '.' {
                    assert(p[1] != "g."@[1]);
                    assert(p[1] != "t."@[1]);
                    assert(p[1] != "s."@[1]);
                } else {
                    assert(p[0] != "g."@[0]);
                    assert(p[0] != "t."@[0]);
                    assert(p[0] != "s."@[0]);
                }
            }
        }
        Scope::Local
    };
    if scope == Scope::Local {
        (scope, string_from(v.as_slice(), 0, v.len()))
    } else {
        let k = string_from(v.as_slice(), 2, v.len());
        assert(v@.subrange(2, v@.len() as int) =~= v@.skip(2));
        (scope, k)
    }
}

impl VariableStore {
    /// An empty store with no platform set.
    pub fn new() -> (s: Self)
        ensures
            s@.local.len() == 0,
            s@.global.len() == 0,
            s@.temp.len() == 0,
            s@.system.len() == 0,
            s@.platform.len() == 0,
            s@.host_os.len() == 0,
    {
        VariableStore {
            local: StrMap::new(),
            global: StrMap::new(),
            temp: StrMap::new(),
            system: StrMap::new(),
            platform: String::new(),
            host_os: String::new(),
        }
    }

    /// Every scope has distinct keys.
    pub fn check_wf(&self) -> (ok: bool)
        ensures
            ok,
            store_wf(self@),
    {
        self.local.len();
        self.global.len();
        self.temp.len();
        self.system.len();
        true
    }

    /// Sets the target platform name (`windows`, `android`, ...).
    pub fn set_platform(&mut self, platform: String)
        ensures
            final(self)@ == (StoreView { platform: platform@, ..old(self)@ }),
    {
        self.platform = platform;
    }

    /// The target platform name; empty when none is set.
    pub fn platform(&self) -> (r: &str)
        ensures
            r@ == self@.platform,
    {
        self.platform.as_str()
    }

    /// Records the name of the operating system the host runs on, used when
    /// no platform is set.
    pub fn set_host_os(&mut self, host: String)
        ensures
            final(self)@ == (StoreView { host_os: host@, ..old(self)@ }),
    {
        self.host_os = host;
    }

    /// The host operating system name; empty when unknown.
    pub fn host_os(&self) -> (r: &str)
        ensures
            r@ == self@.host_os,
    {
        self.host_os.as_str()
    }

    fn scope_map(&self, s: Scope) -> (m: &StrMap<Value>)
        ensures
            m@ == scope_entries(self@, s),
    {
        match s {
            Scope::Local => &self.local,
            Scope::Global => &self.global,
            Scope::Temp => &self.temp,
            Scope::System => &self.system,
        }
    }

    /// The value of variable `name`.
    pub fn get(&self, name: &str) -> (r: Option<&Value>)
        ensures
            match var_get(self@, name@) {
                Some(v) => r matches Some(x) && x@ == v,
                None => r is None,
            },
    {
        let (scope, key) = split_name(name);
        self.scope_map(scope).get(key.as_str())
    }

    /// Sets variable `name` to `value`.
    pub fn set(&mut self, name: &str, value: Value)
        ensures
            final(self)@ == var_set(old(self)@, name@, value@),
    {
        let (scope, key) = split_name(name);
        match scope {
            Scope::Local => self.local.insert(key, value),
            Scope::Global => self.global.insert(key, value),
            Scope::Temp => self.temp.insert(key, value),
            Scope::System => self.system.insert(key, value),
        }
        assert(self@ =~= var_set(old(self)@, name@, value@));
    }

    /// Removes variable `name`, returning its value when it existed.
    pub fn remove(&mut self, name: &str) -> (r: Option<Value>)
        ensures
            final(self)@ == var_remove(old(self)@, name@),
            match var_get(old(self)@, name@) {
                Some(v) => r matches Some(x) && x@ == v,
                None => r is None,
            },
    {
        let (scope, key) = split_name(name);
        let r = match scope {
            Scope::Local => self.local.remove(key.as_str()),
            Scope::Global => self.global.remove(key.as_str()),
            Scope::Temp => self.temp.remove(key.as_str()),
            Scope::System => self.system.remove(key.as_str()),
        };
        assert(self@ =~= var_remove(old(self)@, name@));
        r
    }

    /// Whether variable `name` exists.
    pub fn contains(&self, name: &str) -> (r: bool)
        ensures
            r == (var_get(self@, name@) is Some),
    {
        self.get(name).is_some()
    }

    /// Removes all temporary variables.
    pub fn clear_temp(&mut self)
        ensures
            final(self)@ == (StoreView { temp: Seq::empty(), ..old(self)@ }),
    {
        self.temp.clear();
    }

    /// Removes the variables of every scope.
    pub fn clear_all(&mut self)
        ensures
            final(self)@ == (StoreView {
                local: Seq::empty(),
                global: Seq::empty(),
                temp: Seq::empty(),
                system: Seq::empty(),
                ..old(self)@
            }),
    {
        self.local.clear();
        self.global.clear();
        self.temp.clear();
        self.system.clear();
    }

    /// Removes the local and temporary variables (the `reset` of a new game).
    pub fn reset(&mut self)
        ensures
            final(self)@ == (StoreView { local: Seq::empty(), temp: Seq::empty(), ..old(self)@ }),
    {
        self.local.clear();
        self.temp.clear();
    }

    /// Removes, in every scope, the keys that start with `prefix`.
    pub fn remove_prefixed(&mut self, prefix: &str)
        ensures
            final(self)@ == (StoreView {
                local: old(self)@.local.filter(|e: (Seq<char>, ValueModel)| !starts_with(e.0, prefix@)),
                global: old(self)@.global.filter(|e: (Seq<char>, ValueModel)| !starts_with(e.0, prefix@)),
                temp: old(self)@.temp.filter(|e: (Seq<char>, ValueModel)| !starts_with(e.0, prefix@)),
                system: old(self)@.system.filter(|e: (Seq<char>, ValueModel)| !starts_with(e.0, prefix@)),
                ..old(self)@
            }),
    {
        self.local.remove_prefixed(prefix);
        self.global.remove_prefixed(prefix);
        self.temp.remove_prefixed(prefix);
        self.system.remove_prefixed(prefix);
    }

    /// Removes the children of `name`: in its scope, every key that starts
    /// with its key followed by `.` (`g.a.b` is a child of `g.a`).
    pub fn remove_children(&mut self, name: &str)
        ensures
            final(self)@ == children_removed(old(self)@, name@),
    {
        let (scope, key) = split_name(name);
        let prefix = concat(key.as_str(), ".");
        match scope {
            Scope::Local => self.local.remove_prefixed(prefix.as_str()),
            Scope::Global => self.global.remove_prefixed(prefix.as_str()),
            Scope::Temp => self.temp.remove_prefixed(prefix.as_str()),
            Scope::System => self.system.remove_prefixed(prefix.as_str()),
        }
        assert(self@ =~= children_removed(old(self)@, name@));
    }

    fn entries_of(m: &StrMap<Value>) -> (r: Vec<(String, Value)>)
        ensures
            r@.len() == m@.len(),
            forall|i: int|
                0 <= i < r@.len() ==> (#[trigger] r@[i]).0@ == m@[i].0 && r@[i].1@ == m@[i].1,
    {
        let mut r: Vec<(String, Value)> = Vec::new();
        let mut i: usize = 0;
        while i < m.len()
            invariant
                i <= m@.len(),
                r@.len() == i,
                forall|j: int|
                    0 <= j < i ==> (#[trigger] r@[j]).0@ == m@[j].0 && r@[j].1@ == m@[j].1,
            decreases m@.len() - i,
        {
            let k = m.key_at(i).clone();
            let v = m.value_at(i).duplicate();
            r.push((k, v));
            i += 1;
        }
        r
    }

    /// The local variables (key and value), in order.
    pub fn iter_local(&self) -> (r: Vec<(String, Value)>)
        ensures
            r@.len() == self@.local.len(),
            forall|i: int|
                0 <= i < r@.len() ==> (#[trigger] r@[i]).0@ == self@.local[i].0 && r@[i].1@
                    == self@.local[i].1,
    {
        Self::entries_of(&self.local)
    }

    /// The global variables (key without `g.`, and value), in order.
    pub fn iter_global(&self) -> (r: Vec<(String, Value)>)
        ensures
            r@.len() == self@.global.len(),
            forall|i: int|
                0 <= i < r@.len() ==> (#[trigger] r@[i]).0@ == self@.global[i].0 && r@[i].1@
                    == self@.global[i].1,
    {
        Self::entries_of(&self.global)
    }

    /// The temporary variables (key without `t.`, and value), in order.
    pub fn iter_temp(&self) -> (r: Vec<(String, Value)>)
        ensures
            r@.len() == self@.temp.len(),
            forall|i: int|
                0 <= i < r@.len() ==> (#[trigger] r@[i]).0@ == self@.temp[i].0 && r@[i].1@
                    == self@.temp[i].1,
    {
        Self::entries_of(&self.temp)
    }

    /// The system variables (key without `s.`, and value), in order.
    pub fn iter_system(&self) -> (r: Vec<(String, Value)>)
        ensures
            r@.len() == self@.system.len(),
            forall|i: int|
                0 <= i < r@.len() ==> (#[trigger] r@[i]).0@ == self@.system[i].0 && r@[i].1@
                    == self@.system[i].1,
    {
        Self::entries_of(&self.system)
    }
}

/// Reading a variable right after setting it gives the value set.
pub proof fn law_get_after_set(v: StoreView, name: Seq<char>, value: ValueModel)
    requires
        store_wf(v),
    ensures
        var_get(var_set(v, name, value), name) == Some(value),
        store_wf(var_set(v, name, value)),
{
    lemma_insert(scope_entries(v, scope_of(name)), scope_key(name), value);
}

/// Setting a variable leaves every other variable as it was.
pub proof fn law_set_keeps_others(v: StoreView, name: Seq<char>, value: ValueModel, other: Seq<char>)
    requires
        store_wf(v),
        !same_var(name, other),
    ensures
        var_get(var_set(v, name, value), other) == var_get(v, other),
{
    lemma_insert(scope_entries(v, scope_of(name)), scope_key(name), value);
}

/// A removed variable reads as absent, and nothing else changes.
pub proof fn law_remove(v: StoreView, name: Seq<char>, other: Seq<char>)
    requires
        store_wf(v),
    ensures
        var_get(var_remove(v, name), name) is None,
        !same_var(name, other) ==> var_get(var_remove(v, name), other) == var_get(v, other),
        store_wf(var_remove(v, name)),
{
    lemma_remove(scope_entries(v, scope_of(name)), scope_key(name));
}

/// What a save keeps: every scope but the temporary variables; the
/// platform and host names are not saved either.
pub open spec fn saved_view(v: StoreView) -> StoreView {
    StoreView { temp: Seq::empty(), platform: Seq::empty(), host_os: Seq::empty(), ..v }
}

impl VariableStore {
    /// The part of the store that a save keeps.
    pub fn saved_part(&self) -> (r: VariableStore)
        ensures
            r@ == saved_view(self@),
    {
        let r = VariableStore {
            local: self.local.duplicate(),
            global: self.global.duplicate(),
            temp: StrMap::new(),
            system: self.system.duplicate(),
            platform: String::new(),
            host_os: String::new(),
        };
        r
    }

    /// A store made of saved scopes, with no temporary variables and no
    /// platform set.
    pub fn from_parts(local: StrMap<Value>, global: StrMap<Value>, system: StrMap<Value>) -> (r: VariableStore)
        ensures
            r@ == (StoreView {
                local: local@,
                global: global@,
                temp: Seq::empty(),
                system: system@,
                platform: Seq::empty(),
                host_os: Seq::empty(),
            }),
    {
        VariableStore { local, global, temp: StrMap::new(), system, platform: String::new(), host_os: String::new() }
    }
}

/// A save keeps the local, global and system variables and drops the
/// temporary ones: loading what a save kept reads every non-temporary
/// variable as it was, and no temporary one.
pub proof fn law_save_keeps_all_but_temp(v: StoreView, name: Seq<char>)
    ensures
        scope_of(name) != Scope::Temp ==> var_get(saved_view(v), name) == var_get(v, name),
        scope_of(name) == Scope::Temp ==> var_get(saved_view(v), name) is None,
{
}

} // verus!
