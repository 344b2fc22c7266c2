//! The decisions behind the engine object that Lua functions receive: how
//! `e:var` reads a variable, where `e:tag` and `e:enqueueTag` send a tag,
//! how event handlers are merged, the random number step, and the default
//! answers of a host that provides nothing.
use crate::error::Error;
use crate::strmap::{StrMap, entries_insert, entries_remove, lookup};
use crate::tags::var_handler::{apply_var_tag, var_tag_effect};
use crate::text::{i64_text, int_text, parse_i64, parse_signed, str_eq, to_owned_string};
use crate::variable::{Value, ValueModel, VariableStore, StoreView, var_get};
use vstd::prelude::*;
use vstd::wrapping::u64_specs;

verus! {

// ---------------------------------------------------------------------
// e:var
// ---------------------------------------------------------------------

/// What `e:var` hands back to Lua.
#[derive(Debug, Clone, PartialEq, Eq)]
pub enum VarReading {
    /// A Lua integer.
    Integer(i64),
    /// A Lua string.
    Text(String),
}

/// What `e:var` gives for a variable: integers as they are, booleans as
/// 1 or 0, strings as they are (an empty string stays empty), and `"0"`
/// for a missing variable or one that holds no value.
pub open spec fn var_reading(v: Option<ValueModel>) -> (bool, i64, Seq<char>) {
    match v {
        Some(ValueModel::Int(n)) => (true, n, Seq::empty()),
        Some(ValueModel::Bool(b)) => (true, if b {
            1
        } else {
            0
        }, Seq::empty()),
        Some(ValueModel::Str(s)) => (false, 0, s),
        _ => (false, 0, "0"@),
    }
}

/// The reading of a `VarReading`, in the form of [`var_reading`].
pub open spec fn reading_view(r: VarReading) -> (bool, i64, Seq<char>) {
    match r {
        VarReading::Integer(n) => (true, n, Seq::empty()),
        VarReading::Text(s) => (false, 0, s@),
    }
}

/// Reads variable `name` for `e:var`.
pub fn read_var(store: &VariableStore, name: &str) -> (r: VarReading)
    ensures
        reading_view(r) == var_reading(var_get(store@, name@)),
{
    match store.get(name) {
        Some(Value::Int(n)) => VarReading::Integer(*n),
        Some(Value::Bool(b)) => VarReading::Integer(
            if *b {
                1
            } else {
                0
            },
        ),
        Some(Value::String(s)) => VarReading::Text(s.clone()),
        _ => VarReading::Text(to_owned_string("0")),
    }
}

// ---------------------------------------------------------------------
// e:tag and e:enqueueTag
// ---------------------------------------------------------------------

/// Where a tag from Lua goes.
#[derive(Debug)]
pub enum Routed {
    /// Applied at once (a `[var]`).
    Applied,
    /// Put at the end of the tag queue, with its parameters.
    Queued { tag: String, params: StrMap<String> },
    /// Called at once (a `[calllua]` from `e:enqueueTag`).
    CallNow { function: String, params: StrMap<String> },
}

/// `e:tag{name, ...}`: the tag name's own entry `1` is dropped; a `[var]`
/// is applied at once, so that Lua reads the value back in the same
/// function; any other tag is queued.
pub fn route_tag(tag: String, params: StrMap<String>, store: &mut VariableStore) -> (r: Result<Routed, Error>)
    ensures
        tag@ == "var"@ ==> match r {
            Ok(x) => x is Applied && var_tag_effect(entries_remove(params@, "1"@), old(store)@, final(store)@, Ok(())),
            Err(e) => var_tag_effect(entries_remove(params@, "1"@), old(store)@, final(store)@, Err(e)),
        },
        tag@ != "var"@ ==> final(store)@ == old(store)@ && (r matches Ok(Routed::Queued { tag: t, params: q })
            && t@ == tag@ && q@ == entries_remove(params@, "1"@)),
{
    let mut params = params;
    params.remove("1");
    if str_eq(tag.as_str(), "var") {
        match apply_var_tag(&params, store) {
            Ok(()) => Ok(Routed::Applied),
            Err(e) => Err(e),
        }
    } else {
        Ok(Routed::Queued { tag, params })
    }
}

/// `e:enqueueTag{name, ...}`: the entry `1` is dropped; a `[calllua]` with
/// a `function` is called at once, any other tag is queued.
pub fn route_enqueued(tag: String, params: StrMap<String>) -> (r: Routed)
    ensures
        ({
            let p = entries_remove(params@, "1"@);
            if tag@ == "calllua"@ && lookup(p, "function"@) is Some {
                r matches Routed::CallNow { function, params: q } && Some(function@) == lookup(p, "function"@) && q@ == p
            } else {
                r matches Routed::Queued { tag: t, params: q } && t@ == tag@ && q@ == p
            }
        }),
{
    let mut params = params;
    params.remove("1");
    if str_eq(tag.as_str(), "calllua") {
        let function = match params.get("function") {
            Some(f) => Some(f.clone()),
            None => None,
        };
        match function {
            Some(f) => return Routed::CallNow { function: f, params },
            None => {},
        }
    }
    Routed::Queued { tag, params }
}

// ---------------------------------------------------------------------
// e:setEventHandler
// ---------------------------------------------------------------------

/// `handlers` merged into `into`, entry by entry, later entries replacing
/// earlier ones of the same name.
pub open spec fn merged(into: Seq<(Seq<char>, Seq<char>)>, handlers: Seq<(Seq<char>, Seq<char>)>) -> Seq<(Seq<char>, Seq<char>)>
    decreases handlers.len(),
{
    if handlers.len() == 0 {
        into
    } else {
        entries_insert(merged(into, handlers.drop_last()), handlers.last().0, handlers.last().1)
    }
}

/// Merges the handlers of an `e:setEventHandler` call into the registered
/// ones.
pub fn merge_handlers(into: &mut StrMap<String>, handlers: &StrMap<String>)
    ensures
        final(into)@ == merged(old(into)@, handlers@),
{
    let mut i: usize = 0;
    let n = handlers.len();
    assert(handlers@.take(0) =~= Seq::<(Seq<char>, Seq<char>)>::empty());
    while i < n
        invariant
            i <= n == handlers@.len(),
            into@ == merged(old(into)@, handlers@.take(i as int)),
        decreases n - i,
    {
        assert(handlers@.take(i + 1).drop_last() =~= handlers@.take(i as int));
        into.insert(handlers.key_at(i).clone(), handlers.value_at(i).clone());
        i = i + 1;
    }
    assert(handlers@.take(n as int) =~= handlers@);
}

// ---------------------------------------------------------------------
// e:random
// ---------------------------------------------------------------------

/// One step of `e:random`: the state (seeded with `now` when it is still
/// 0) advances by a linear congruential step, and the number is its bits
/// 33 to 63, a non-negative 31-bit integer.
pub open spec fn random_step(state: u64, now: u64) -> (u64, i64) {
    let seed = if state == 0 {
        now
    } else {
        state
    };
    let x = u64_specs::wrapping_add(u64_specs::wrapping_mul(seed, 6364136223846793005), 1442695040888963407);
    (x, ((x >> 33u64) & 0x7fff_ffffu64) as i64)
}

/// `random_step`, computed.
pub fn next_random(state: u64, now: u64) -> (r: (u64, i64))
    ensures
        r == random_step(state, now),
        0 <= r.1 < 0x8000_0000,
{
    let seed = if state == 0 {
        now
    } else {
        state
    };
    let x = seed.wrapping_mul(6364136223846793005).wrapping_add(1442695040888963407);
    let bits: u64 = (x >> 33u64) & 0x7fff_ffffu64;
    assert(bits <= 0x7fff_ffff) by (bit_vector)
        requires
            bits == (x >> 33u64) & 0x7fff_ffffu64,
    ;
    (x, bits as i64)
}

// ---------------------------------------------------------------------
// Table keys
// ---------------------------------------------------------------------

/// A key that is the canonical decimal form of an `i64` (no sign `+`, no
/// leading zeros, no `-0`) reads as that integer.
pub open spec fn canonical_integer_key(key: Seq<char>) -> Option<i64> {
    match parse_signed(key, i64::MIN as int, i64::MAX as int) {
        Some(v) => if int_text(v) == key {
            Some(v as i64)
        } else {
            None
        },
        None => None,
    }
}

/// The integer a JSON object key stands for, when it is the canonical
/// decimal form of one.
pub fn parse_canonical_integer_key(key: &str) -> (r: Option<i64>)
    ensures
        r == canonical_integer_key(key@),
{
    match parse_i64(key) {
        Some(v) => {
            let text = i64_text(v);
            if str_eq(text.as_str(), key) {
                Some(v)
            } else {
                None
            }
        },
        None => None,
    }
}

// ---------------------------------------------------------------------
// A host that provides nothing
// ---------------------------------------------------------------------

/// The engine answers of a host that provides nothing: no key is down, the
/// mouse is at the origin, no file exists, and so on.
pub struct DefaultEngineCallbacks;

impl DefaultEngineCallbacks {
    /// The script status: 0, running.
    pub fn get_script_status(&self) -> (r: u8)
        ensures
            r == 0,
    {
        0
    }

    /// Whether a key is down: never.
    pub fn is_key_down(&self, _key_id: u32) -> (r: bool)
        ensures
            !r,
    {
        false
    }

    /// Whether a key went down: never.
    pub fn is_key_down_edge(&self, _key_id: u32) -> (r: bool)
        ensures
            !r,
    {
        false
    }

    /// Whether a key went up: never.
    pub fn is_key_up_edge(&self, _key_id: u32) -> (r: bool)
        ensures
            !r,
    {
        false
    }

    /// Whether the decide key is pressed: never.
    pub fn is_decide(&self) -> (r: bool)
        ensures
            !r,
    {
        false
    }

    /// The mouse position: the origin.
    pub fn get_mouse_point(&self) -> (r: (i32, i32))
        ensures
            r == (0i32, 0i32),
    {
        (0, 0)
    }

    /// The number of touch points: none.
    pub fn get_touch_count(&self) -> (r: u32)
        ensures
            r == 0,
    {
        0
    }

    /// A touch point: the origin.
    pub fn get_touch_point(&self, _index: u32) -> (r: (i32, i32))
        ensures
            r == (0i32, 0i32),
    {
        (0, 0)
    }

    /// Whether a file exists: never.
    pub fn is_file_exists(&self, _path: &str) -> (r: bool)
        ensures
            !r,
    {
        false
    }

    /// The script block: empty.
    pub fn get_script_block(&self) -> (r: StrMap<String>)
        ensures
            r@.len() == 0,
    {
        StrMap::new()
    }

    /// The script stack: empty.
    pub fn get_script_stack(&self) -> (r: Vec<StrMap<String>>)
        ensures
            r@.len() == 0,
    {
        Vec::new()
    }

    /// Why the script waits: 0.
    pub fn get_script_wait_reason(&self) -> (r: u8)
        ensures
            r == 0,
    {
        0
    }

    /// Layer information: none.
    pub fn get_layer_info(&self, _id: &str) -> (r: Option<StrMap<String>>)
        ensures
            r is None,
    {
        None
    }

    /// Text in another encoding: the text as it is.
    pub fn convert_encoding(&self, _from: &str, _to: &str, source: &str) -> (r: String)
        ensures
            r@ == source@,
    {
        to_owned_string(source)
    }

    /// PNG comments: none.
    pub fn load_png_comments(&self, _path: &str) -> (r: Option<StrMap<String>>)
        ensures
            r is None,
    {
        None
    }

    /// Whether surfaces are still loading: no.
    pub fn is_loading_surface(&self) -> (r: bool)
        ensures
            !r,
    {
        false
    }
}

} // verus!
