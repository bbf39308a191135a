//! Classification of the microcode trace value: the control-flow
//! sentinels, the raw address, and the source line it points at.

use vstd::prelude::*;
use crate::text::{hex_w, push_hex};

verus! {

/// Trace value of a sequential jump.
pub const MC_JUMP: u16 = 0xFFFF;

/// Trace value of a subroutine return.
pub const MC_RTN: u16 = 0xFFFE;

/// Trace value of a correction cycle.
pub const MC_CORR: u16 = 0xFFFD;

/// Trace value when no microcode is running.
pub const MC_NONE: u16 = 0xFFFC;

/// Shown for a trace value beyond the microcode listing.
pub const MICROCODE_NUL: &'static str = "null";

/// Microcode column of the trace: a sentinel's name or the raw address.
pub open spec fn microcode_line(v: u16) -> Seq<char> {
    if v == MC_JUMP {
        "JMP"@
    } else if v == MC_RTN {
        "RET"@
    } else if v == MC_CORR {
        "COR"@
    } else if v == MC_NONE {
        "   "@
    } else {
        hex_w(v as nat, 3)
    }
}

/// Source line of the microcode listing at `v`, or the placeholder.
pub open spec fn microcode_op(table: Seq<String>, v: u16) -> Seq<char> {
    if (v as int) < table.len() {
        table[v as int]@
    } else {
        MICROCODE_NUL@
    }
}

pub fn microcode_line_str(v: u16) -> (r: String)
    ensures
        r@ == microcode_line(v),
{
    if v == MC_JUMP {
        String::from_str("JMP")
    } else if v == MC_RTN {
        String::from_str("RET")
    } else if v == MC_CORR {
        String::from_str("COR")
    } else if v == MC_NONE {
        String::from_str("   ")
    } else {
        let mut s = String::new();
        push_hex(&mut s, v as u64, 3);
        s
    }
}

pub fn microcode_op_str(table: &Vec<String>, v: u16) -> (r: String)
    ensures
        r@ == microcode_op(table@, v),
{
    if (v as usize) < table.len() {
        table[v as usize].clone()
    } else {
        String::from_str(MICROCODE_NUL)
    }
}

} // verus!
