//! Resolution of X11 keycodes into key symbols.
//!
//! The library interprets a core-protocol keyboard mapping: a row-major
//! table of keysyms, one row per keycode, one column per shift/group
//! level. It provides the column/case-fallback algorithm that picks a
//! single keysym for a `(keycode, column)` pair, the Unicode-block case
//! conversion it relies on, and boolean classification predicates over
//! keysym values. Transport (issuing the mapping request and waiting for
//! the reply) is left to the caller; the state machine in [`state`]
//! tracks whether a reply is still owed.

#![allow(non_upper_case_globals)]

use vstd::prelude::*;

pub mod classify;
pub mod convert;
pub mod keysyms;
pub mod mapping;
pub mod state;

pub use classify::{
    is_cursor_key, is_function_key, is_keypad_key, is_misc_function_key, is_modifier_key,
    is_pf_key, is_private_keypad_key,
};
pub use convert::convert_case;
pub use mapping::{resolve_symbol, KeyboardMapping, KeyboardSetup, KeysymError};
pub use state::{Innards, KeyboardState};

verus! {

/// The reserved keysym value meaning "no symbol bound in this slot".
pub const NO_SYMBOL: u32 = 0;

} // verus!
