//! The keyboard mapping table and the column/case-fallback resolver.
//!
//! A mapping is a row-major table: one row per keycode in the setup's
//! range `[min_keycode, max_keycode]`, `keysyms_per_keycode` columns per
//! row. Resolving `(keycode, column)` picks one keysym from the row,
//! applying the legacy group-2 fallback for columns 0 to 3: when the row
//! has no real alternate-group entries, those columns alias the primary
//! group, and a missing shifted entry is synthesized from its even-column
//! partner by case folding.

use vstd::prelude::*;

use crate::convert::{convert_case, spec_case_fold, spec_lower, spec_upper};
use crate::NO_SYMBOL;

verus! {

/// The immutable per-connection keycode range.
#[derive(Clone, Copy, PartialEq, Eq, Structural, Debug)]
pub struct KeyboardSetup {
    pub min_keycode: u8,
    pub max_keycode: u8,
}

/// A resolved keyboard mapping: the row-major keysym table.
#[derive(Debug)]
pub struct KeyboardMapping {
    pub keysyms_per_keycode: u8,
    pub keysyms: Vec<u32>,
}

/// Failure of a symbol query.
#[derive(Clone, Copy, PartialEq, Eq, Structural, Debug)]
pub enum KeysymError {
    /// The requested column lies outside the row and is not one of the
    /// always-valid columns 0 to 3.
    InvalidColumn,
}

impl KeyboardSetup {
    /// How many keycodes the setup's range covers.
    pub open spec fn keycode_count(self) -> int {
        self.max_keycode - self.min_keycode + 1
    }

    /// A setup is well formed when its range is non-empty.
    pub open spec fn wf(self) -> bool {
        self.min_keycode <= self.max_keycode
    }
}

impl KeyboardMapping {
    /// A mapping fits a setup when it holds exactly one row of
    /// `keysyms_per_keycode` entries per keycode in the setup's range.
    pub open spec fn wf(self, setup: KeyboardSetup) -> bool {
        &&& setup.wf()
        &&& self.keysyms@.len() == setup.keycode_count() * self.keysyms_per_keycode
    }

    /// The first index of the row for `keycode`.
    pub open spec fn row_base(self, setup: KeyboardSetup, keycode: u8) -> int {
        (keycode - setup.min_keycode) * self.keysyms_per_keycode
    }

    /// The row of keysyms bound to `keycode`.
    pub open spec fn spec_row(self, setup: KeyboardSetup, keycode: u8) -> Seq<u32> {
        self.keysyms@.subrange(
            self.row_base(setup, keycode),
            self.row_base(setup, keycode) + self.keysyms_per_keycode,
        )
    }
}

/// The width of a row once trailing `NO_SYMBOL` entries are trimmed,
/// never trimming below two columns.
pub open spec fn spec_effective_width(row: Seq<u32>, per: int) -> int
    decreases per,
{
    if per > 2 && 0 <= per - 1 < row.len() && row[per - 1] == NO_SYMBOL {
        spec_effective_width(row, per - 1)
    } else {
        per
    }
}

/// The column actually consulted after the group-2 remap: columns 2 and 3
/// alias columns 0 and 1 when trimming leaves fewer than three columns.
pub open spec fn spec_remapped_column(row: Seq<u32>, column: u8) -> int {
    if column > 1 && spec_effective_width(row, row.len() as int) < 3 {
        column - 2
    } else {
        column as int
    }
}

/// Whether the query falls back to case folding: the (possibly trimmed)
/// row is too narrow to hold the column's odd partner, or the partner
/// slot holds `NO_SYMBOL`.
pub open spec fn spec_uses_case_fold(row: Seq<u32>, column: u8) -> bool {
    let width = if column > 1 {
        spec_effective_width(row, row.len() as int)
    } else {
        row.len() as int
    };
    let col = spec_remapped_column(row, column);
    let paired = col + 1 - col % 2;
    width <= paired || row[paired] == NO_SYMBOL
}

/// What resolving `column` within one row returns.
///
/// Columns at or beyond the row width are rejected unless they are 0 to
/// 3, which the group-2 fallback always serves. A direct hit returns the
/// slot's keysym; the fallback reads the even column of the pair and
/// returns its lowercase form for an even query, uppercase for an odd
/// one.
pub open spec fn spec_symbol_in_row(row: Seq<u32>, column: u8) -> Result<u32, KeysymError> {
    if column >= row.len() && column > 3 {
        Err(KeysymError::InvalidColumn)
    } else if column < 4 {
        let col = spec_remapped_column(row, column);
        if spec_uses_case_fold(row, column) {
            let pair = spec_case_fold(row[col - col % 2]);
            if col % 2 == 0 {
                Ok(pair.1)
            } else {
                Ok(pair.0)
            }
        } else {
            Ok(row[col])
        }
    } else {
        Ok(row[column as int])
    }
}

/// What `resolve_symbol` returns: the row for `keycode` is cut out of the
/// table, and the column is resolved within it.
pub open spec fn spec_resolve_symbol(
    setup: KeyboardSetup,
    mapping: KeyboardMapping,
    keycode: u8,
    column: u8,
) -> Result<u32, KeysymError> {
    spec_symbol_in_row(mapping.spec_row(setup, keycode), column)
}

/// Pick the keysym bound to `(keycode, column)` from a resolved mapping.
///
/// The caller's invariant guarantees the keycode lies in the setup's
/// range and the table has at least one column; the column, by contrast,
/// is checked here and rejected with `InvalidColumn` exactly when it
/// misses the row and exceeds 3.
pub fn resolve_symbol(
    setup: &KeyboardSetup,
    mapping: &KeyboardMapping,
    keycode: u8,
    column: u8,
) -> (r: Result<u32, KeysymError>)
    requires
        mapping.wf(*setup),
        mapping.keysyms_per_keycode >= 1,
        setup.min_keycode <= keycode <= setup.max_keycode,
    ensures
        r == spec_resolve_symbol(*setup, *mapping, keycode, column),
        r is Err <==> (column >= mapping.keysyms_per_keycode && column > 3),
{
    let ghost row = mapping.spec_row(*setup, keycode);
    proof {
        lemma_row_bounds(*setup, *mapping, keycode);
    }

    let mut per = mapping.keysyms_per_keycode;
    if column >= per && column > 3 {
        return Err(KeysymError::InvalidColumn);
    }

    // The row for this keycode starts at its base offset.
    let total: usize = mapping.keysyms.len();
    let start: usize = (keycode - setup.min_keycode) as usize * per as usize;
    proof {
        assert(start + per <= total);
        assert(forall|i: int| 0 <= i < per ==> row[i] == mapping.keysyms@[start + i]);
    }

    let mut col = column;
    if column < 4 {
        if column > 1 {
            // Trim trailing empty slots to find the effective width.
            while per > 2 && mapping.keysyms[start + per as usize - 1] == NO_SYMBOL
                invariant
                    1 <= per <= mapping.keysyms_per_keycode,
                    start + per <= total,
                    total == mapping.keysyms@.len(),
                    start + mapping.keysyms_per_keycode <= mapping.keysyms@.len(),
                    row.len() == mapping.keysyms_per_keycode,
                    forall|i: int| 0 <= i < row.len() ==> row[i] == mapping.keysyms@[start + i],
                    spec_effective_width(row, per as int)
                        == spec_effective_width(row, row.len() as int),
                decreases per,
            {
                per -= 1;
            }
            proof {
                assert(spec_effective_width(row, per as int) == per as int);
            }

            if per < 3 {
                col = column - 2;
            }
        }

        proof {
            assert(col as int == spec_remapped_column(row, column));
        }

        let paired: u8 = col + 1 - col % 2;
        if per <= paired || mapping.keysyms[start + paired as usize] == NO_SYMBOL {
            // Synthesize the shifted/unshifted pair by case folding the
            // even column of the pair.
            let base: u8 = col - col % 2;
            let (upper, lower) = convert_case(mapping.keysyms[start + base as usize]);
            if col % 2 == 0 {
                return Ok(lower);
            } else {
                return Ok(upper);
            }
        }
        return Ok(mapping.keysyms[start + col as usize]);
    }

    Ok(mapping.keysyms[start + column as usize])
}

/// Whether a keysym is one of the possible outputs of a row: an entry of
/// the row itself, or the upper or lower case form of an entry.
pub open spec fn derivable_from_row(row: Seq<u32>, s: u32) -> bool {
    exists|i: int|
        0 <= i < row.len() && (s == row[i] || s == spec_upper(row[i]) || s == spec_lower(
            row[i],
        ))
}

/// Trimming never widens a row and never narrows it below two columns
/// (nor below its own width, for a row of one column).
pub proof fn lemma_effective_width_bounds(row: Seq<u32>, per: int)
    requires
        1 <= per,
    ensures
        spec_effective_width(row, per) <= per,
        per >= 2 ==> spec_effective_width(row, per) >= 2,
        per == 1 ==> spec_effective_width(row, per) == 1,
    decreases per,
{
    if per > 2 && 0 <= per - 1 < row.len() && row[per - 1] == NO_SYMBOL {
        lemma_effective_width_bounds(row, per - 1);
    }
}

/// A resolved symbol never leaves the row's possible outputs: every `Ok`
/// result of resolving a column within a row is an entry of that row or a
/// case-folded derivative of one.
pub proof fn lemma_symbol_stays_in_row(row: Seq<u32>, column: u8)
    requires
        row.len() >= 1,
        spec_symbol_in_row(row, column) is Ok,
    ensures
        derivable_from_row(row, spec_symbol_in_row(row, column)->Ok_0),
{
    let s = spec_symbol_in_row(row, column)->Ok_0;
    let len = row.len() as int;
    if column < 4 {
        lemma_effective_width_bounds(row, len);
        let col = spec_remapped_column(row, column);
        let width = if column > 1 { spec_effective_width(row, len) } else { len };
        if spec_uses_case_fold(row, column) {
            let base = col - col % 2;
            assert(0 <= base < len);
            assert(s == spec_upper(row[base]) || s == spec_lower(row[base]));
        } else {
            let paired = col + 1 - col % 2;
            assert(col <= paired < width <= len);
            assert(s == row[col]);
        }
    } else {
        assert(s == row[column as int]);
    }
}

/// The row-level law lifted to a whole mapping: for an in-range keycode,
/// a successful `resolve_symbol` returns an entry of that keycode's row
/// or a case-folded derivative of one, never a value from outside it.
pub proof fn lemma_resolve_symbol_stays_in_row(
    setup: KeyboardSetup,
    mapping: KeyboardMapping,
    keycode: u8,
    column: u8,
)
    requires
        mapping.wf(setup),
        mapping.keysyms_per_keycode >= 1,
        setup.min_keycode <= keycode <= setup.max_keycode,
        column < mapping.keysyms_per_keycode || column <= 3,
    ensures
        spec_resolve_symbol(setup, mapping, keycode, column) is Ok,
        derivable_from_row(
            mapping.spec_row(setup, keycode),
            spec_resolve_symbol(setup, mapping, keycode, column)->Ok_0,
        ),
{
    lemma_row_bounds(setup, mapping, keycode);
    lemma_symbol_stays_in_row(mapping.spec_row(setup, keycode), column);
}

/// The row cut out for an in-range keycode lies inside the table: its
/// base and one-past-the-end offsets respect the table's length.
pub proof fn lemma_row_bounds(setup: KeyboardSetup, mapping: KeyboardMapping, keycode: u8)
    requires
        mapping.wf(setup),
        setup.min_keycode <= keycode <= setup.max_keycode,
    ensures
        0 <= mapping.row_base(setup, keycode),
        mapping.row_base(setup, keycode) + mapping.keysyms_per_keycode
            <= mapping.keysyms@.len(),
        mapping.spec_row(setup, keycode).len() == mapping.keysyms_per_keycode,
{
    let rows = setup.keycode_count();
    let per = mapping.keysyms_per_keycode as int;
    let idx = keycode - setup.min_keycode;
    assert((idx + 1) * per <= rows * per) by (nonlinear_arith)
        requires 0 <= idx, idx + 1 <= rows, 0 <= per;
    assert(idx * per + per == (idx + 1) * per) by (nonlinear_arith);
}

} // verus!
