//! The trusted boundary around the embedded Lua engine.
//!
//! Every call into mlua goes through exactly one of the small wrappers
//! below. A value read from the script environment depends on whatever the
//! script last did, so the wrappers promise nothing about the values they
//! hand back: the verified callers state what holds of every outcome, and
//! the defensive parsing layer turns the raw readings into typed data with
//! proved fallback behaviour.
//!
//! mlua panics when a table, function or other reference value created by
//! one Lua state is passed into another. To keep every wrapper total on
//! the inputs its signature admits, each one takes at most one handle and
//! otherwise only plain strings, numbers and booleans, which mlua creates
//! inside the receiving state itself; no wrapper can be handed a value
//! from a foreign state. Nested tables are therefore never installed from
//! the Rust side: the bridge builds its table skeleton by executing a Lua
//! chunk and only writes leaf values through these wrappers.

use vstd::prelude::*;

verus! {

#[verifier::external_type_specification]
#[verifier::external_body]
pub struct ExLua(mlua::Lua);

#[verifier::external_type_specification]
#[verifier::external_body]
pub struct ExTable(mlua::Table);

#[verifier::external_type_specification]
#[verifier::external_body]
pub struct ExFunction(mlua::Function);

#[verifier::external_type_specification]
#[verifier::external_body]
pub struct ExLuaError(mlua::Error);

/// Relies on mlua::Lua::new: a fresh script environment holding only the
/// standard library, none of this crate's globals.
#[verifier::external_body]
pub(crate) fn new_lua() -> mlua::Lua {
    mlua::Lua::new()
}

/// Relies on mlua::Lua::load and mlua::Chunk::exec: parse the source as a
/// chunk and run it in the environment; an error leaves previously
/// executed globals in place.
#[verifier::external_body]
pub(crate) fn exec_source(lua: &mlua::Lua, src: &str) -> Result<(), mlua::Error> {
    lua.load(src).exec()
}

/// Relies on mlua::Error's Display implementation for a readable message.
#[verifier::external_body]
pub(crate) fn error_message(e: &mlua::Error) -> String {
    format!("{}", e)
}

/// Relies on mlua::Lua::globals: the environment's global table.
#[verifier::external_body]
pub(crate) fn globals_table(lua: &mlua::Lua) -> mlua::Table {
    lua.globals()
}

/// Relies on mlua::Table::get at type Table: the table under a string key,
/// or `None` when the key is absent or holds no table.
#[verifier::external_body]
pub(crate) fn table_get_table(t: &mlua::Table, key: &str) -> Option<mlua::Table> {
    t.get::<mlua::Table>(key).ok()
}

/// Relies on mlua::Table::get at type Table: the table under a 1-based
/// sequence index, or `None` when the entry is absent or holds no table.
#[verifier::external_body]
pub(crate) fn table_get_table_at(t: &mlua::Table, idx: usize) -> Option<mlua::Table> {
    t.get::<mlua::Table>(idx).ok()
}

/// Relies on mlua::Table::get at type String: the string under a string
/// key, or `None` when the key is absent or holds no string (mlua coerces
/// a Lua number to its text form).
#[verifier::external_body]
pub(crate) fn table_get_str(t: &mlua::Table, key: &str) -> Option<String> {
    t.get::<String>(key).ok()
}

/// Relies on mlua::Table::get at type String: the string under a 1-based
/// sequence index, or `None` when the entry is absent or holds no string.
#[verifier::external_body]
pub(crate) fn table_get_str_at(t: &mlua::Table, idx: usize) -> Option<String> {
    t.get::<String>(idx).ok()
}

/// Relies on mlua::Table::get at type u32: the integer under a string key,
/// or `None` when the key is absent or holds no number representable as
/// u32.
#[verifier::external_body]
pub(crate) fn table_get_u32(t: &mlua::Table, key: &str) -> Option<u32> {
    t.get::<u32>(key).ok()
}

/// Relies on mlua::Table::get at type Value: `Some` exactly when the key
/// holds an actual boolean, `None` for an absent key or a value of any
/// other type. (mlua's own bool conversion is total — it maps nil to false
/// and anything else to its truthiness — so this wrapper reads the raw
/// value and keeps only genuine booleans.)
#[verifier::external_body]
pub(crate) fn table_get_bool(t: &mlua::Table, key: &str) -> Option<bool> {
    match t.get::<mlua::Value>(key) {
        Ok(mlua::Value::Boolean(b)) => Some(b),
        _ => None,
    }
}

/// Relies on mlua::Table::get at type Function: the function under a
/// string key, or `None` when the key is absent or holds no function.
#[verifier::external_body]
pub(crate) fn table_get_function(t: &mlua::Table, key: &str) -> Option<mlua::Function> {
    t.get::<mlua::Function>(key).ok()
}

/// Relies on mlua::Table::raw_len: the table's sequence border, the length
/// `#t` reports without metamethods.
#[verifier::external_body]
pub(crate) fn table_raw_len(t: &mlua::Table) -> usize {
    t.raw_len()
}

/// Relies on mlua::Table::set with a string value; reports success.
#[verifier::external_body]
pub(crate) fn table_set_str(t: &mlua::Table, key: &str, v: &str) -> bool {
    t.set(key, v).is_ok()
}

/// Relies on mlua::Table::set with a string value under a 1-based sequence
/// index; reports success.
#[verifier::external_body]
pub(crate) fn table_set_str_at(t: &mlua::Table, idx: usize, v: &str) -> bool {
    t.set(idx, v).is_ok()
}

/// Relies on mlua::Table::set with a u32 value; reports success.
#[verifier::external_body]
pub(crate) fn table_set_u32(t: &mlua::Table, key: &str, v: u32) -> bool {
    t.set(key, v).is_ok()
}

/// Relies on mlua::Table::set with a u64 value; reports success.
#[verifier::external_body]
pub(crate) fn table_set_u64(t: &mlua::Table, key: &str, v: u64) -> bool {
    t.set(key, v).is_ok()
}

/// Relies on mlua::Table::set with an i64 value; reports success.
#[verifier::external_body]
pub(crate) fn table_set_i64(t: &mlua::Table, key: &str, v: i64) -> bool {
    t.set(key, v).is_ok()
}

/// Relies on mlua::Table::set with a boolean value; reports success.
#[verifier::external_body]
pub(crate) fn table_set_bool(t: &mlua::Table, key: &str, v: bool) -> bool {
    t.set(key, v).is_ok()
}

/// Relies on mlua::Function::call with no arguments and no results.
#[verifier::external_body]
pub(crate) fn call_function(f: &mlua::Function) -> Result<(), mlua::Error> {
    f.call::<()>(())
}

} // verus!
