//! `[var]`: setting a variable, and the `system=` variants that compute a
//! value (lengths, searches, substrings, splitting, dates, URL coding, ...)
//! into the variable named by `name`.
use crate::error::Error;
use crate::expression::{ExpressionEvaluator, resolve_spec};
use crate::strings::{
    byte_len, byte_length, byte_offset, byte_slice, char_slice, ends_with_exe, find_chars, first_match,
    has_prefix, is_exe_name, slice_bytes, slice_chars, split_pieces, split_text, string_views, strip_check,
    url_decode, url_decoded, url_encode, url_encoded, without_check,
};
use crate::text::chars_of;
use crate::strmap::{StrMap, entries_insert, lookup, starts_with};
use crate::text::{concat, decimal, str_eq, to_owned_string, usize_text};
use crate::variable::{StoreView, Value, ValueModel, VariableStore, children_removed, value_int, value_text, var_get, var_remove, var_set};
use vstd::prelude::*;
use vstd::wrapping::u64_specs;

verus! {

// ---------------------------------------------------------------------
// Reading the parameters
// ---------------------------------------------------------------------

/// Parameter `key`, or `d`.
pub open spec fn text_or(p: Seq<(Seq<char>, Seq<char>)>, key: Seq<char>, d: Seq<char>) -> Seq<char> {
    match lookup(p, key) {
        Some(v) => v,
        None => d,
    }
}

/// Resolved value `key` as text (empty when absent).
pub open spec fn resolved_text(res: Seq<(Seq<char>, ValueModel)>, key: Seq<char>) -> Seq<char> {
    match lookup(res, key) {
        Some(v) => value_text(v),
        None => Seq::empty(),
    }
}

/// Resolved value `key` as an integer, or `d`.
pub open spec fn resolved_int_or(res: Seq<(Seq<char>, ValueModel)>, key: Seq<char>, d: int) -> int {
    match lookup(res, key) {
        Some(v) => match value_int(v) {
            Some(n) => n,
            None => d,
        },
        None => d,
    }
}

fn param_or<'a>(params: &'a StrMap<String>, key: &str, d: &'a str) -> (r: &'a str)
    ensures
        r@ == text_or(params@, key@, d@),
{
    match params.get(key) {
        Some(v) => v.as_str(),
        None => d,
    }
}

fn resolved_string(resolved: &StrMap<Value>, key: &str) -> (r: String)
    ensures
        r@ == resolved_text(resolved@, key@),
{
    match resolved.get(key) {
        Some(v) => v.as_string(),
        None => String::new(),
    }
}

fn resolved_int(resolved: &StrMap<Value>, key: &str, d: i64) -> (r: i64)
    ensures
        r == resolved_int_or(resolved@, key@, d as int),
{
    match resolved.get(key) {
        Some(v) => match v.as_int() {
            Some(n) => n,
            None => d,
        },
        None => d,
    }
}

// ---------------------------------------------------------------------
// What each variant does to the variables
// ---------------------------------------------------------------------

/// The variable name that the variants write: `name`, or the empty name.
pub open spec fn target_name(p: Seq<(Seq<char>, Seq<char>)>) -> Seq<char> {
    text_or(p, "name"@, Seq::empty())
}

/// `var_exist`: whether `target` exists (with `local=1`, only as a local
/// variable), as a boolean.
pub open spec fn var_exist_result(p: Seq<(Seq<char>, Seq<char>)>, v: StoreView) -> StoreView {
    let target = text_or(p, "target"@, Seq::empty());
    let local = lookup(p, "local"@) == Some("1"@);
    let exists = if local {
        var_get(v, target) is Some && !starts_with(target, "g."@) && !starts_with(target, "t."@)
            && !starts_with(target, "s."@)
    } else {
        var_get(v, target) is Some
    };
    var_set(v, target_name(p), ValueModel::Bool(exists))
}

/// The store with every scope emptied.
pub open spec fn cleared(v: StoreView) -> StoreView {
    StoreView { local: Seq::empty(), global: Seq::empty(), temp: Seq::empty(), system: Seq::empty(), ..v }
}

/// Removing variable `n`, then its children: in the scope of `n`, every
/// key that starts with the key of `n` followed by `.`.
pub open spec fn delete_tree_result(v: StoreView, n: Seq<char>) -> StoreView {
    children_removed(var_remove(v, n), n)
}

/// `delete`: with a non-empty `name`, that variable and its tree; else
/// every variable.
pub open spec fn delete_result(p: Seq<(Seq<char>, Seq<char>)>, v: StoreView) -> StoreView {
    match lookup(p, "name"@) {
        Some(n) => if n.len() == 0 {
            cleared(v)
        } else {
            delete_tree_result(v, n)
        },
        None => cleared(v),
    }
}

/// The pseudo-random value that `seed` gives in `min..=max` (a linear
/// congruential step, reduced modulo the size of the range); `min` when the
/// range is empty.
#[verifier::opaque]
pub open spec fn random_value(seed: u64, min: i64, max: i64) -> int {
    if max > min {
        let y = u64_specs::wrapping_add(u64_specs::wrapping_mul(seed, 6364136223846793005), 1);
        min + (y as int) % (max - min + 1)
    } else {
        min as int
    }
}

/// A random value lies in its range.
pub proof fn law_random_in_range(seed: u64, min: i64, max: i64)
    ensures
        max > min ==> min <= random_value(seed, min, max) <= max,
        max <= min ==> random_value(seed, min, max) == min,
{
    reveal(random_value);
}

/// `random_value`, computed.
pub fn random_pick(seed: u64, min: i64, max: i64) -> (r: i64)
    ensures
        r == random_value(seed, min, max),
{
    reveal(random_value);
    if max > min {
        let y = seed.wrapping_mul(6364136223846793005).wrapping_add(1);
        let range: u128 = (max as i128 - min as i128 + 1) as u128;
        let off: u128 = (y as u128) % range;
        (min as i128 + off as i128) as i64
    } else {
        min
    }
}

/// The bounds of `random`: `min` (0 when absent) and `max` (`i64::MAX`
/// when absent).
pub open spec fn random_bounds(res: Seq<(Seq<char>, ValueModel)>) -> (i64, i64) {
    (resolved_int_or(res, "min"@, 0) as i64, resolved_int_or(res, "max"@, i64::MAX as int) as i64)
}

/// `length`: the length of `source` in characters (`mode=1`) or in UTF-8
/// bytes.
pub open spec fn length_result(p: Seq<(Seq<char>, Seq<char>)>, res: Seq<(Seq<char>, ValueModel)>, v: StoreView) -> StoreView {
    let source = resolved_text(res, "source"@);
    let n = if text_or(p, "mode"@, "0"@) == "1"@ {
        source.len() as int
    } else {
        byte_len(source) as int
    };
    var_set(v, target_name(p), ValueModel::Int(n as i64))
}

/// `find`: the byte offset of the first `string` in `source`, or -1.
pub open spec fn find_result(p: Seq<(Seq<char>, Seq<char>)>, res: Seq<(Seq<char>, ValueModel)>, v: StoreView) -> StoreView {
    let source = resolved_text(res, "source"@);
    let pos = match first_match(source, resolved_text(res, "string"@)) {
        Some(k) => byte_len(source.take(k)) as int,
        None => -1,
    };
    var_set(v, target_name(p), ValueModel::Int(pos as i64))
}

/// `substr`: `length` characters (`mode=1`) or the bytes `position ..
/// position + length` of `source` (empty when that is no character range);
/// `length` defaults to the byte length of `source`.
pub open spec fn substr_result(p: Seq<(Seq<char>, Seq<char>)>, res: Seq<(Seq<char>, ValueModel)>, v: StoreView) -> StoreView {
    let source = resolved_text(res, "source"@);
    let position = (resolved_int_or(res, "position"@, 0) as i64) as usize;
    let length = (resolved_int_or(res, "length"@, byte_len(source) as i64 as int) as i64) as usize;
    let result = if text_or(p, "mode"@, "0"@) == "1"@ {
        char_slice(source, position as int, length as int)
    } else if position + length > usize::MAX {
        Seq::empty()
    } else {
        match byte_slice(source, position as int, position + length) {
            Some(t) => t,
            None => Seq::empty(),
        }
    };
    var_set(v, target_name(p), ValueModel::Str(result))
}

/// The store after `name.0`, `name.1`, ... are set to the pieces, in order.
pub open spec fn set_pieces(v: StoreView, name: Seq<char>, parts: Seq<Seq<char>>) -> StoreView
    decreases parts.len(),
{
    if parts.len() == 0 {
        v
    } else {
        var_set(
            set_pieces(v, name, parts.drop_last()),
            name + "."@ + decimal((parts.len() - 1) as nat),
            ValueModel::Str(parts.last()),
        )
    }
}

/// `explode`: `source` split at `delimiter` (`,` when absent) into
/// `name.0`, `name.1`, ..., and the count into `name.size`.
pub open spec fn explode_result(p: Seq<(Seq<char>, Seq<char>)>, res: Seq<(Seq<char>, ValueModel)>, v: StoreView) -> StoreView {
    let name = target_name(p);
    let parts = split_pieces(resolved_text(res, "source"@), text_or(p, "delimiter"@, ","@));
    var_set(set_pieces(v, name, parts), name + ".size"@, ValueModel::Int(parts.len() as i64))
}

/// `date`: the fixed date 2024-01-01 00:00:00 into `name.year` ...
/// `name.second`.
pub open spec fn date_result(p: Seq<(Seq<char>, Seq<char>)>, v: StoreView) -> StoreView {
    let name = target_name(p);
    let v1 = var_set(v, name + ".year"@, ValueModel::Int(2024));
    let v2 = var_set(v1, name + ".month"@, ValueModel::Int(1));
    let v3 = var_set(v2, name + ".day"@, ValueModel::Int(1));
    let v4 = var_set(v3, name + ".hour"@, ValueModel::Int(0));
    let v5 = var_set(v4, name + ".minute"@, ValueModel::Int(0));
    var_set(v5, name + ".second"@, ValueModel::Int(0))
}

/// `os`: the target platform, or the host system when none is set.
pub open spec fn os_result(p: Seq<(Seq<char>, Seq<char>)>, v: StoreView) -> StoreView {
    let os = if v.platform.len() > 0 {
        v.platform
    } else {
        v.host_os
    };
    var_set(v, target_name(p), ValueModel::Str(os))
}

/// An integer system variable, when it is a positive integer.
pub open spec fn positive_int_var(v: StoreView, name: Seq<char>, d: int) -> int {
    match var_get(v, name) {
        Some(ValueModel::Int(n)) => if n > 0 {
            n as int
        } else {
            d
        },
        _ => d,
    }
}

/// An integer system variable, when it is an integer.
pub open spec fn int_var(v: StoreView, name: Seq<char>, d: int) -> int {
    match var_get(v, name) {
        Some(ValueModel::Int(n)) => n as int,
        _ => d,
    }
}

/// `get_layer_info`: a layer at the origin the size of the screen
/// (`s.screen_width` by `s.screen_height`, 1280 by 720 when unset) into
/// `name.left`, `name.top`, `name.width`, `name.height`.
pub open spec fn layer_info_result(p: Seq<(Seq<char>, Seq<char>)>, v: StoreView) -> StoreView {
    let name = target_name(p);
    let sw = int_var(v, "s.screen_width"@, 1280);
    let sh = int_var(v, "s.screen_height"@, 720);
    let v1 = var_set(v, name + ".left"@, ValueModel::Int(0));
    let v2 = var_set(v1, name + ".top"@, ValueModel::Int(0));
    let v3 = var_set(v2, name + ".width"@, ValueModel::Int(sw as i64));
    var_set(v3, name + ".height"@, ValueModel::Int(sh as i64))
}

/// `file_crc`: for an `.exe` file, the value of the variable named like
/// `name` without `.check`, as text; else the empty text.
pub open spec fn file_crc_result(p: Seq<(Seq<char>, Seq<char>)>, res: Seq<(Seq<char>, ValueModel)>, v: StoreView) -> StoreView {
    let name = target_name(p);
    let value = if ends_with_exe(resolved_text(res, "file"@)) {
        match var_get(v, without_check(name)) {
            Some(x) => value_text(x),
            None => Seq::empty(),
        }
    } else {
        Seq::empty()
    };
    var_set(v, name, ValueModel::Str(value))
}

/// The variants that always give the empty text.
pub open spec fn gives_empty_text(system: Seq<char>) -> bool {
    system == "file_update_time"@ || system == "hmac_sha1_base64"@ || system == "convert_encoding"@
        || system == "character_reference_to_utf8"@ || system == "implode"@
}

/// The variants answered with 0 (`get_layer_info` aside).
pub open spec fn gives_zero(system: Seq<char>) -> bool {
    system == "get_sound_info"@ || system == "get_backlog_size"@ || system == "get_backlog_tags"@
        || system == "get_message_layer_width"@ || system == "get_message_layer_height"@
        || system == "get_message_layer_line_width"@ || system == "get_message_tags"@ || system == "get_font"@
        || system == "get_exe_parameter"@ || system == "fullscreen"@ || system == "minimize"@
}

/// What `[var system=...]` does to the variables `v`, giving `w`. The
/// variants that read the clock or the disk say what holds of every
/// reading.
pub open spec fn var_system_effect(
    system: Seq<char>,
    p: Seq<(Seq<char>, Seq<char>)>,
    res: Seq<(Seq<char>, ValueModel)>,
    v: StoreView,
    w: StoreView,
) -> bool {
    let name = target_name(p);
    if system == "var_exist"@ {
        w == var_exist_result(p, v)
    } else if system == "delete"@ {
        w == delete_result(p, v)
    } else if system == "random"@ {
        exists|seed: u64|
            w == var_set(
                v,
                name,
                ValueModel::Int(random_value(seed, random_bounds(res).0, random_bounds(res).1) as i64),
            )
    } else if system == "length"@ {
        w == length_result(p, res, v)
    } else if system == "find"@ {
        w == find_result(p, res, v)
    } else if system == "substr"@ {
        w == substr_result(p, res, v)
    } else if system == "explode"@ {
        w == explode_result(p, res, v)
    } else if system == "date"@ {
        w == date_result(p, v)
    } else if system == "unixtime"@ {
        exists|t: i64| w == var_set(v, name, ValueModel::Int(t))
    } else if system == "os"@ {
        w == os_result(p, v)
    } else if system == "file_exist"@ || system == "file_exists"@ {
        exists|b: bool|
            w == var_set(v, name, ValueModel::Bool(b)) && (ends_with_exe(resolved_text(res, "file"@)) ==> b)
    } else if system == "base64_encode"@ {
        w == var_set(v, name, ValueModel::Str("[base64: "@ + resolved_text(res, "source"@) + "]"@))
    } else if system == "url_encode"@ {
        w == var_set(v, name, ValueModel::Str(url_encoded(resolved_text(res, "source"@))))
    } else if system == "url_decode"@ {
        w == var_set(v, name, ValueModel::Str(url_decoded(resolved_text(res, "source"@))))
    } else if system == "screen_width"@ {
        w == var_set(v, name, ValueModel::Int(positive_int_var(v, "s.screen_width"@, 640) as i64))
    } else if system == "screen_height"@ {
        w == var_set(v, name, ValueModel::Int(positive_int_var(v, "s.screen_height"@, 480) as i64))
    } else if system == "get_layer_info"@ {
        w == layer_info_result(p, v)
    } else if gives_zero(system) {
        w == var_set(v, name, ValueModel::Int(0))
    } else if system == "file_crc"@ {
        w == file_crc_result(p, res, v)
    } else if gives_empty_text(system) {
        w == var_set(v, name, ValueModel::Str(Seq::empty()))
    } else {
        w == v
    }
}

// ---------------------------------------------------------------------
// Reading the clock and the disk
// ---------------------------------------------------------------------

/// The type of a clock reading, `std::time::SystemTime`, carried through
/// unopened.
#[verifier::external_type_specification]
#[verifier::external_body]
pub struct ExSystemTime(std::time::SystemTime);

/// Calls `SystemTime::now`. Nothing is promised of the reading.
#[verifier::external_body]
fn clock_now() -> std::time::SystemTime {
    std::time::SystemTime::now()
}

/// Calls `SystemTime::duration_since(UNIX_EPOCH)` on `t`; `None` for the
/// error it gives when `t` is before the epoch. Nothing is promised of the
/// duration.
#[verifier::external_body]
fn since_epoch(t: &std::time::SystemTime) -> Option<std::time::Duration> {
    match t.duration_since(std::time::UNIX_EPOCH) {
        Ok(d) => Some(d),
        Err(_) => None,
    }
}

/// Calls `Duration::as_nanos`. Nothing is promised of the count.
#[verifier::external_body]
fn duration_nanos(d: &std::time::Duration) -> u128 {
    d.as_nanos()
}

/// Calls `Duration::as_secs`. Nothing is promised of the count.
#[verifier::external_body]
fn duration_secs(d: &std::time::Duration) -> u64 {
    d.as_secs()
}

/// The clock in nanoseconds since the Unix epoch, truncated to 64 bits; 0
/// when the clock is before the epoch.
fn clock_nanos() -> u64 {
    let now = clock_now();
    match since_epoch(&now) {
        Some(d) => duration_nanos(&d) as u64,
        None => 0,
    }
}

/// The clock in whole seconds since the Unix epoch, as an `i64`; 0 when the
/// clock is before the epoch.
fn clock_secs() -> i64 {
    let now = clock_now();
    match since_epoch(&now) {
        Some(d) => duration_secs(&d) as i64,
        None => 0,
    }
}

/// Whether a file exists at `path` (`Path::exists`). Nothing is promised:
/// the answer depends on the disk.
#[verifier::external_body]
fn path_exists(path: &str) -> bool {
    std::path::Path::new(path).exists()
}

// ---------------------------------------------------------------------
// The variants
// ---------------------------------------------------------------------

fn var_exist(params: &StrMap<String>, variables: &mut VariableStore)
    ensures
        final(variables)@ == var_exist_result(params@, old(variables)@),
{
    proof {
        reveal_strlit("");
        reveal_strlit("1");
    }
    let target = param_or(params, "target", "");
    let name = param_or(params, "name", "");
    let local = match params.get("local") {
        Some(l) => str_eq(l.as_str(), "1"),
        None => false,
    };
    let exists = if local {
        variables.contains(target) && !has_prefix(target, "g.") && !has_prefix(target, "t.") && !has_prefix(
            target,
            "s.",
        )
    } else {
        variables.contains(target)
    };
    assert(name@ == target_name(params@));
    assert(target@ == text_or(params@, "target"@, Seq::empty()));
    assert(local == (lookup(params@, "local"@) == Some("1"@)));
    variables.set(name, Value::Bool(exists));
}

/// Deletes variable `name` and its children.
fn delete_tree(variables: &mut VariableStore, name: &str)
    ensures
        final(variables)@ == delete_tree_result(old(variables)@, name@),
{
    variables.remove(name);
    variables.remove_children(name);
}

fn delete(params: &StrMap<String>, variables: &mut VariableStore)
    ensures
        final(variables)@ == delete_result(params@, old(variables)@),
{
    match params.get("name") {
        Some(n) => {
            if n.as_str().is_empty() {
                variables.clear_all();
            } else {
                delete_tree(variables, n.as_str());
            }
        },
        None => variables.clear_all(),
    }
}

fn length(params: &StrMap<String>, resolved: &StrMap<Value>, variables: &mut VariableStore)
    ensures
        final(variables)@ == length_result(params@, resolved@, old(variables)@),
{
    proof {
        reveal_strlit("");
        reveal_strlit("0");
        reveal_strlit("1");
    }
    let name = param_or(params, "name", "");
    let source = resolved_string(resolved, "source");
    let mode = param_or(params, "mode", "0");
    let n = if str_eq(mode, "1") {
        let count = chars_of(source.as_str()).len();
        count as i64
    } else {
        let count = byte_length(source.as_str());
        count as i64
    };
    assert(name@ == target_name(params@));
    variables.set(name, Value::Int(n));
}

fn find(params: &StrMap<String>, resolved: &StrMap<Value>, variables: &mut VariableStore)
    ensures
        final(variables)@ == find_result(params@, resolved@, old(variables)@),
{
    proof {
        reveal_strlit("");
    }
    let name = param_or(params, "name", "");
    let source = resolved_string(resolved, "source");
    let string = resolved_string(resolved, "string");
    let hv = chars_of(source.as_str());
    let nv = chars_of(string.as_str());
    let total = byte_length(source.as_str());
    let pos: i64 = match find_chars(hv.as_slice(), nv.as_slice()) {
        Some(k) => byte_offset(hv.as_slice(), k, total) as i64,
        None => -1,
    };
    assert(name@ == target_name(params@));
    variables.set(name, Value::Int(pos));
}

fn substr(params: &StrMap<String>, resolved: &StrMap<Value>, variables: &mut VariableStore)
    ensures
        final(variables)@ == substr_result(params@, resolved@, old(variables)@),
{
    proof {
        reveal_strlit("");
        reveal_strlit("0");
        reveal_strlit("1");
    }
    let name = param_or(params, "name", "");
    let source = resolved_string(resolved, "source");
    let position = resolved_int(resolved, "position", 0) as usize;
    let total = byte_length(source.as_str());
    let length = resolved_int(resolved, "length", total as i64) as usize;
    let mode = param_or(params, "mode", "0");
    let result = if str_eq(mode, "1") {
        slice_chars(source.as_str(), position, length)
    } else {
        match position.checked_add(length) {
            None => String::new(),
            Some(end) => match slice_bytes(source.as_str(), position, end) {
                Some(t) => t,
                None => String::new(),
            },
        }
    };
    assert(name@ == target_name(params@));
    variables.set(name, Value::String(result));
}

/// `name.i` for a piece index `i`.
fn piece_name(name: &str, i: usize) -> (r: String)
    ensures
        r@ == name@ + "."@ + decimal(i as nat),
{
    let with_dot = concat(name, ".");
    let digits = usize_text(i);
    concat(with_dot.as_str(), digits.as_str())
}

fn explode(params: &StrMap<String>, resolved: &StrMap<Value>, variables: &mut VariableStore)
    ensures
        final(variables)@ == explode_result(params@, resolved@, old(variables)@),
{
    proof {
        reveal_strlit("");
        reveal_strlit(",");
    }
    let name = param_or(params, "name", "");
    let source = resolved_string(resolved, "source");
    let delimiter = param_or(params, "delimiter", ",");
    let parts = split_text(source.as_str(), delimiter);
    assert(name@ == target_name(params@));
    let ghost pv = string_views(parts@);
    let ghost start = variables@;
    let mut i: usize = 0;
    assert(pv.take(0) =~= Seq::<Seq<char>>::empty());
    while i < parts.len()
        invariant
            i <= parts@.len(),
            pv == string_views(parts@),
            variables@ == set_pieces(start, name@, pv.take(i as int)),
        decreases parts.len() - i,
    {
        let key = piece_name(name, i);
        assert(pv.take(i + 1).drop_last() =~= pv.take(i as int));
        assert(pv.take(i + 1).last() == parts@[i as int]@);
        variables.set(key.as_str(), Value::String(parts[i].clone()));
        i = i + 1;
    }
    assert(pv.take(pv.len() as int) =~= pv);
    let size_key = concat(name, ".size");
    variables.set(size_key.as_str(), Value::Int(parts.len() as i64));
}

fn date(params: &StrMap<String>, variables: &mut VariableStore)
    ensures
        final(variables)@ == date_result(params@, old(variables)@),
{
    proof {
        reveal_strlit("");
    }
    let name = param_or(params, "name", "");
    assert(name@ == target_name(params@));
    variables.set(concat(name, ".year").as_str(), Value::Int(2024));
    variables.set(concat(name, ".month").as_str(), Value::Int(1));
    variables.set(concat(name, ".day").as_str(), Value::Int(1));
    variables.set(concat(name, ".hour").as_str(), Value::Int(0));
    variables.set(concat(name, ".minute").as_str(), Value::Int(0));
    variables.set(concat(name, ".second").as_str(), Value::Int(0));
}

fn os(params: &StrMap<String>, variables: &mut VariableStore)
    ensures
        final(variables)@ == os_result(params@, old(variables)@),
{
    proof {
        reveal_strlit("");
    }
    let name = param_or(params, "name", "");
    let os = if !variables.platform().is_empty() {
        to_owned_string(variables.platform())
    } else {
        to_owned_string(variables.host_os())
    };
    assert(name@ == target_name(params@));
    variables.set(name, Value::String(os));
}

fn screen_size(variables: &VariableStore, key: &str, d: i64) -> (r: i64)
    requires
        d > 0,
    ensures
        r == positive_int_var(variables@, key@, d as int),
{
    match variables.get(key) {
        Some(Value::Int(n)) => if *n > 0 {
            *n
        } else {
            d
        },
        _ => d,
    }
}

fn int_or(variables: &VariableStore, key: &str, d: i64) -> (r: i64)
    ensures
        r == int_var(variables@, key@, d as int),
{
    match variables.get(key) {
        Some(Value::Int(n)) => *n,
        _ => d,
    }
}

fn layer_info(params: &StrMap<String>, variables: &mut VariableStore)
    ensures
        final(variables)@ == layer_info_result(params@, old(variables)@),
{
    proof {
        reveal_strlit("");
    }
    let name = param_or(params, "name", "");
    assert(name@ == target_name(params@));
    let sw = int_or(variables, "s.screen_width", 1280);
    let sh = int_or(variables, "s.screen_height", 720);
    variables.set(concat(name, ".left").as_str(), Value::Int(0));
    variables.set(concat(name, ".top").as_str(), Value::Int(0));
    variables.set(concat(name, ".width").as_str(), Value::Int(sw));
    variables.set(concat(name, ".height").as_str(), Value::Int(sh));
}

fn file_crc(params: &StrMap<String>, resolved: &StrMap<Value>, variables: &mut VariableStore)
    ensures
        final(variables)@ == file_crc_result(params@, resolved@, old(variables)@),
{
    proof {
        reveal_strlit("");
    }
    let name = param_or(params, "name", "");
    assert(name@ == target_name(params@));
    let file = resolved_string(resolved, "file");
    let value = if is_exe_name(file.as_str()) {
        let expected = strip_check(name);
        match variables.get(expected.as_str()) {
            Some(v) => v.as_string(),
            None => String::new(),
        }
    } else {
        String::new()
    };
    variables.set(name, Value::String(value));
}

fn random(params: &StrMap<String>, resolved: &StrMap<Value>, variables: &mut VariableStore)
    ensures
        exists|seed: u64|
            final(variables)@ == var_set(
                old(variables)@,
                target_name(params@),
                ValueModel::Int(random_value(seed, random_bounds(resolved@).0, random_bounds(resolved@).1) as i64),
            ),
{
    proof {
        reveal_strlit("");
    }
    let name = param_or(params, "name", "");
    assert(name@ == target_name(params@));
    let min = resolved_int(resolved, "min", 0);
    let max = resolved_int(resolved, "max", i64::MAX);
    let seed: u64 = clock_nanos();
    let value = random_pick(seed, min, max);
    let ghost before = variables@;
    variables.set(name, Value::Int(value));
    assert(variables@ == var_set(
        before,
        target_name(params@),
        ValueModel::Int(random_value(seed, random_bounds(resolved@).0, random_bounds(resolved@).1) as i64),
    ));
}

fn unixtime(params: &StrMap<String>, variables: &mut VariableStore)
    ensures
        exists|t: i64| final(variables)@ == var_set(old(variables)@, target_name(params@), ValueModel::Int(t)),
{
    proof {
        reveal_strlit("");
    }
    let name = param_or(params, "name", "");
    assert(name@ == target_name(params@));
    let t: i64 = clock_secs();
    variables.set(name, Value::Int(t));
}

fn file_exist(params: &StrMap<String>, resolved: &StrMap<Value>, variables: &mut VariableStore)
    ensures
        exists|b: bool|
            final(variables)@ == var_set(old(variables)@, target_name(params@), ValueModel::Bool(b)) && (ends_with_exe(
                resolved_text(resolved@, "file"@),
            ) ==> b),
{
    proof {
        reveal_strlit("");
    }
    let name = param_or(params, "name", "");
    assert(name@ == target_name(params@));
    let file = resolved_string(resolved, "file");
    let exists = if is_exe_name(file.as_str()) {
        true
    } else {
        path_exists(file.as_str())
    };
    variables.set(name, Value::Bool(exists));
}

/// Sets the variable named by `name` to `value`.
fn set_named(params: &StrMap<String>, value: Value, variables: &mut VariableStore)
    ensures
        final(variables)@ == var_set(old(variables)@, target_name(params@), value@),
{
    proof {
        reveal_strlit("");
    }
    let name = param_or(params, "name", "");
    assert(name@ == target_name(params@));
    variables.set(name, value);
}

/// Runs the `system=` variant `system` of a `[var]` tag: `params` are the
/// tag's parameters, `resolved` the values of its expression parameters.
/// An unknown variant changes nothing.
#[verifier::rlimit(40)]
pub fn execute_var_system(
    system: &str,
    params: &StrMap<String>,
    resolved: &StrMap<Value>,
    variables: &mut VariableStore,
) -> (r: Result<(), Error>)
    ensures
        r is Ok,
        var_system_effect(system@, params@, resolved@, old(variables)@, final(variables)@),
{
    if str_eq(system, "var_exist") {
        var_exist(params, variables);
    } else if str_eq(system, "delete") {
        delete(params, variables);
    } else if str_eq(system, "random") {
        random(params, resolved, variables);
    } else if str_eq(system, "length") {
        length(params, resolved, variables);
    } else if str_eq(system, "find") {
        find(params, resolved, variables);
    } else if str_eq(system, "substr") {
        substr(params, resolved, variables);
    } else if str_eq(system, "explode") {
        explode(params, resolved, variables);
    } else if str_eq(system, "date") {
        date(params, variables);
    } else if str_eq(system, "unixtime") {
        unixtime(params, variables);
    } else if str_eq(system, "os") {
        os(params, variables);
    } else if str_eq(system, "file_exist") || str_eq(system, "file_exists") {
        file_exist(params, resolved, variables);
    } else if str_eq(system, "base64_encode") {
        let source = resolved_string(resolved, "source");
        let wrapped = concat(concat("[base64: ", source.as_str()).as_str(), "]");
        set_named(params, Value::String(wrapped), variables);
    } else if str_eq(system, "url_encode") {
        let source = resolved_string(resolved, "source");
        set_named(params, Value::String(url_encode(source.as_str())), variables);
    } else if str_eq(system, "url_decode") {
        let source = resolved_string(resolved, "source");
        set_named(params, Value::String(url_decode(source.as_str())), variables);
    } else if str_eq(system, "screen_width") {
        let n = screen_size(variables, "s.screen_width", 640);
        set_named(params, Value::Int(n), variables);
    } else if str_eq(system, "screen_height") {
        let n = screen_size(variables, "s.screen_height", 480);
        set_named(params, Value::Int(n), variables);
    } else if str_eq(system, "get_layer_info") {
        layer_info(params, variables);
    } else if str_eq(system, "get_sound_info") || str_eq(system, "get_backlog_size") || str_eq(
        system,
        "get_backlog_tags",
    ) || str_eq(system, "get_message_layer_width") || str_eq(system, "get_message_layer_height")
        || str_eq(system, "get_message_layer_line_width") || str_eq(system, "get_message_tags") || str_eq(
        system,
        "get_font",
    ) || str_eq(system, "get_exe_parameter") || str_eq(system, "fullscreen") || str_eq(system, "minimize") {
        set_named(params, Value::Int(0), variables);
    } else if str_eq(system, "file_crc") {
        file_crc(params, resolved, variables);
    } else if str_eq(system, "file_update_time") || str_eq(system, "hmac_sha1_base64") || str_eq(
        system,
        "convert_encoding",
    ) || str_eq(system, "character_reference_to_utf8") || str_eq(system, "implode") {
        set_named(params, Value::String(String::new()), variables);
    }
    Ok(())
}

// ---------------------------------------------------------------------
// The `[var]` tag
// ---------------------------------------------------------------------

/// The parameters of `[var system=...]` that may hold expressions, in the
/// order they are resolved.
pub open spec fn expression_keys() -> Seq<Seq<char>> {
    seq!["source"@, "string"@, "min"@, "max"@, "position"@, "length"@, "file"@, "target"@]
}

/// The values of the parameters among `keys` that are present, resolved in
/// order; the first failure is the error.
pub open spec fn resolve_var_params(
    vars: StoreView,
    p: Seq<(Seq<char>, Seq<char>)>,
    keys: Seq<Seq<char>>,
) -> Result<Seq<(Seq<char>, ValueModel)>, Seq<char>>
    decreases keys.len(),
{
    if keys.len() == 0 {
        Ok(Seq::empty())
    } else {
        match resolve_var_params(vars, p, keys.drop_last()) {
            Err(m) => Err(m),
            Ok(res) => match lookup(p, keys.last()) {
                None => Ok(res),
                Some(raw) => match resolve_spec(vars, raw) {
                    Err(m) => Err(m),
                    Ok(x) => Ok(entries_insert(res, keys.last(), x)),
                },
            },
        }
    }
}

/// An error in resolving a prefix of the keys stays the error.
proof fn lemma_resolve_var_params_prefix(
    vars: StoreView,
    p: Seq<(Seq<char>, Seq<char>)>,
    keys: Seq<Seq<char>>,
    j: int,
    m: Seq<char>,
)
    requires
        0 <= j <= keys.len(),
        resolve_var_params(vars, p, keys.take(j)) == Err::<Seq<(Seq<char>, ValueModel)>, Seq<char>>(m),
    ensures
        resolve_var_params(vars, p, keys) == Err::<Seq<(Seq<char>, ValueModel)>, Seq<char>>(m),
    decreases keys.len() - j,
{
    if j < keys.len() {
        assert(keys.take(j + 1).drop_last() =~= keys.take(j));
        lemma_resolve_var_params_prefix(vars, p, keys, j + 1, m);
    } else {
        assert(keys.take(j) =~= keys);
    }
}

/// What a `[var]` tag with parameters `p` does to the variables `v`, giving
/// `w` and the result `r`: with `system=`, that variant runs on the
/// resolved expression parameters; else `name` is set to `data`, resolved.
/// An expression that fails to resolve is the error, and nothing changes.
pub open spec fn var_tag_effect(p: Seq<(Seq<char>, Seq<char>)>, v: StoreView, w: StoreView, r: Result<(), Error>) -> bool {
    match lookup(p, "system"@) {
        Some(system) => match resolve_var_params(v, p, expression_keys()) {
            Err(m) => w == v && (r matches Err(Error::ExpressionError(e)) && e@ == m),
            Ok(res) => r is Ok && var_system_effect(system, p, res, v, w),
        },
        None => match resolve_spec(v, text_or(p, "data"@, Seq::empty())) {
            Err(m) => w == v && (r matches Err(Error::ExpressionError(e)) && e@ == m),
            Ok(x) => r is Ok && w == var_set(v, target_name(p), x),
        },
    }
}

/// Runs a `[var]` tag with parameters `params` on the variables; the value
/// is in place when this returns.
pub fn apply_var_tag(params: &StrMap<String>, variables: &mut VariableStore) -> (r: Result<(), Error>)
    ensures
        var_tag_effect(params@, old(variables)@, final(variables)@, r),
{
    proof {
        reveal_strlit("");
    }
    match params.get("system") {
        Some(system) => {
            let keys: Vec<&str> = vec!["source", "string", "min", "max", "position", "length", "file", "target"];
            let ghost kv = keys@.map_values(|k: &str| k@);
            assert(kv =~= expression_keys());
            let mut resolved: StrMap<Value> = StrMap::new();
            let ghost vars = variables@;
            let mut i: usize = 0;
            assert(kv.take(0) =~= Seq::<Seq<char>>::empty());
            while i < keys.len()
                invariant
                    i <= keys@.len(),
                    kv == keys@.map_values(|k: &str| k@),
                    kv == expression_keys(),
                    vars == variables@,
                    lookup(params@, "system"@) == Some(system@),
                    resolve_var_params(vars, params@, kv.take(i as int)) == Ok::<_, Seq<char>>(resolved@),
                decreases keys.len() - i,
            {
                assert(kv.take(i + 1).drop_last() =~= kv.take(i as int));
                assert(kv.take(i + 1).last() == keys@[i as int]@);
                match params.get(keys[i]) {
                    Some(raw) => {
                        let ev = ExpressionEvaluator::new(variables);
                        match ev.resolve_param(raw.as_str()) {
                            Ok(x) => {
                                resolved.insert(to_owned_string(keys[i]), x);
                            },
                            Err(e) => {
                                proof {
                                    assert(resolve_var_params(vars, params@, kv.take(i + 1)) == Err::<Seq<(Seq<char>, ValueModel)>, Seq<char>>(resolve_spec(vars, raw@)->Err_0));
                                    lemma_resolve_var_params_prefix(
                                        vars,
                                        params@,
                                        kv,
                                        i + 1,
                                        resolve_spec(vars, raw@)->Err_0,
                                    );
                                }
                                return Err(e);
                            },
                        }
                    },
                    None => {},
                }
                i = i + 1;
            }
            assert(kv.take(keys@.len() as int) =~= kv);
            assert(resolve_var_params(vars, params@, expression_keys()) == Ok::<_, Seq<char>>(resolved@));
            let r = execute_var_system(system.as_str(), params, &resolved, variables);
            assert(var_system_effect(system@, params@, resolved@, vars, variables@));
            r
        },
        None => {
            let name = param_or(params, "name", "");
            let data = param_or(params, "data", "");
            let value = {
                let ev = ExpressionEvaluator::new(variables);
                ev.resolve_param(data)
            };
            assert(lookup(params@, "system"@) is None);
            assert(data@ == text_or(params@, "data"@, Seq::empty()));
            match value {
                Ok(x) => {
                    assert(name@ == target_name(params@));
                    variables.set(name, x);
                    Ok(())
                },
                Err(e) => Err(e),
            }
        },
    }
}

/// After a `[var]` without `system=` succeeds, the variable named by `name`
/// reads as the resolved `data`, and every variable with another name
/// reads as before.
pub proof fn law_var_tag_then_read(
    p: Seq<(Seq<char>, Seq<char>)>,
    v: StoreView,
    w: StoreView,
    r: Result<(), Error>,
    other: Seq<char>,
)
    requires
        crate::variable::store_wf(v),
        var_tag_effect(p, v, w, r),
        lookup(p, "system"@) is None,
        r is Ok,
    ensures
        resolve_spec(v, text_or(p, "data"@, Seq::empty())) matches Ok(x) && var_get(w, target_name(p)) == Some(x),
        !crate::variable::same_var(target_name(p), other) ==> var_get(w, other) == var_get(v, other),
{
    let x = resolve_spec(v, text_or(p, "data"@, Seq::empty()))->Ok_0;
    crate::variable::law_get_after_set(v, target_name(p), x);
    if !crate::variable::same_var(target_name(p), other) {
        crate::variable::law_set_keeps_others(v, target_name(p), x, other);
    }
}

} // verus!
