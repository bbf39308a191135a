//! Properties that hold of every snapshot, stated over the rendering
//! specifications and proved.

use vstd::prelude::*;
use crate::cpu::{
    csv_fields, csv_head, cycle_tokens, instr_part, patched_address, signals_block, trace_header,
    Cpu, I8288, SyncSignals,
};
use crate::state::{dma_operating_label, segment_code, segment_label, QueueOp, Segment, TCycle};
use crate::text::hex_w;

verus! {

/// The segment column is blank exactly in T1 or when no segment is set;
/// otherwise it names one of the four segments.
pub proof fn segment_label_blank(t: TCycle, s: Segment)
    ensures
        segment_label(t, s) == "  "@ <==> (t == TCycle::T1 || s == Segment::NoSegment),
        !(t == TCycle::T1 || s == Segment::NoSegment) ==> (segment_label(t, s) == "SS"@
            || segment_label(t, s) == "ES"@ || segment_label(t, s) == "CS"@ || segment_label(t, s)
            == "DS"@),
{
    reveal_strlit("  ");
    reveal_strlit("SS");
    reveal_strlit("ES");
    reveal_strlit("CS");
    reveal_strlit("DS");
    if !(t == TCycle::T1 || s == Segment::NoSegment) {
        assert(segment_label(t, s)[0] != ' ');
    }
}

/// Each command line shows its letter when asserted and `.` otherwise,
/// whatever else the snapshot holds.
pub proof fn signals_block_letters(sig: I8288)
    ensures
        signals_block(sig).len() == 11,
        signals_block(sig)[2] == (if sig.mrdc { 'R' } else { '.' }),
        signals_block(sig)[3] == (if sig.amwc { 'A' } else { '.' }),
        signals_block(sig)[4] == (if sig.mwtc { 'W' } else { '.' }),
        signals_block(sig)[8] == (if sig.iorc { 'R' } else { '.' }),
        signals_block(sig)[9] == (if sig.aiowc { 'A' } else { '.' }),
        signals_block(sig)[10] == (if sig.iowc { 'W' } else { '.' }),
{
}

/// The `[segment:offset]` prefix of an instruction marker.
pub open spec fn segment_offset(cs: u16, ip: u16) -> Seq<char> {
    seq!['['] + hex_w(cs as nat, 4) + seq![':'] + hex_w(ip as nat, 4) + seq![']']
}

/// Only a `First` queue operation gives an instruction marker, and that
/// marker starts with the bracketed segment:offset pair.
pub proof fn instr_marker_only_first(c: &Cpu)
    ensures
        c.last_queue_op == QueueOp::First ==> instr_part(c).len() > 0 && instr_part(c).subrange(
            0,
            segment_offset(c.cs, c.ip).len() as int,
        ) == segment_offset(c.cs, c.ip),
        c.last_queue_op != QueueOp::First ==> instr_part(c).len() == 0,
{
    if c.last_queue_op == QueueOp::First {
        let so = segment_offset(c.cs, c.ip);
        reveal_strlit("] ");
        let rest = seq![' '] + c.i.text@ + " ("@ + crate::text::dec(c.i.size as nat) + ") "@;
        assert(instr_part(c) =~= so + rest);
        assert(instr_part(c).subrange(0, so.len() as int) =~= so);
    }
}

/// Transfer sub-states 1 to 4 are shown as S4 to S1, each distinct; any
/// other count is shown as S?.
pub proof fn dma_operating_labels(n: u8, m: u8)
    ensures
        dma_operating_label(4) == "S1"@,
        dma_operating_label(3) == "S2"@,
        dma_operating_label(2) == "S3"@,
        dma_operating_label(1) == "S4"@,
        (n < 1 || n > 4) ==> dma_operating_label(n) == "S?"@,
        1 <= n <= 4 ==> dma_operating_label(n) != "S?"@,
        1 <= n <= 4 && 1 <= m <= 4 && n != m ==> dma_operating_label(n) != dma_operating_label(m),
{
    reveal_strlit("S1");
    reveal_strlit("S2");
    reveal_strlit("S3");
    reveal_strlit("S4");
    reveal_strlit("S?");
    if 1 <= n <= 4 {
        assert(dma_operating_label(n)[1] != '?');
    }
    if 1 <= n <= 4 && 1 <= m <= 4 && n != m {
        assert(dma_operating_label(n)[1] != dma_operating_label(m)[1]);
    }
}

/// Patching the segment bits twice is patching them once: A16-A17 are
/// overwritten with the segment's code and A0-A15, A18-A19 are kept.
pub proof fn segment_patch_idempotent(addr: u32, s: Segment)
    ensures
        patched_address(patched_address(addr, s), s) == patched_address(addr, s),
        (patched_address(addr, s) >> 16u32) & 3 == segment_code(s),
        patched_address(addr, s) & 0xC_FFFF == addr & 0xC_FFFF,
{
    let k = segment_code(s) as u32;
    assert(k < 4);
    assert(((((addr & 0xC_FFFF) | (k << 16u32)) & 0xC_FFFF) | (k << 16u32)) == ((addr & 0xC_FFFF)
        | (k << 16u32))) by (bit_vector)
        requires
            k < 4,
    ;
    assert((((addr & 0xC_FFFF) | (k << 16u32)) >> 16u32) & 3 == k) by (bit_vector)
        requires
            k < 4,
    ;
    assert(((addr & 0xC_FFFF) | (k << 16u32)) & 0xC_FFFF == addr & 0xC_FFFF) by (bit_vector)
        requires
            k < 4,
    ;
}

/// The two CSV rows of a cycle agree in every field but the clock phase,
/// which is 1 in the first and 0 in the second.
pub proof fn csv_rows_differ_in_phase(c: &Cpu, sync: SyncSignals)
    ensures
        csv_fields(c, true, sync).len() == csv_fields(c, false, sync).len(),
        csv_fields(c, true, sync)[csv_head(c).len() as int] == '1',
        csv_fields(c, false, sync)[csv_head(c).len() as int] == '0',
        forall|i: int|
            0 <= i < csv_fields(c, true, sync).len() && i != csv_head(c).len() ==> csv_fields(
                c,
                true,
                sync,
            )[i] == csv_fields(c, false, sync)[i],
{
}

/// The header has exactly one title for each token, in every mode.
pub proof fn header_matches_tokens(c: &Cpu, dma_count: u16)
    ensures
        trace_header().len() == cycle_tokens(c, dma_count).len(),
        trace_header().len() == 23,
{
}

} // verus!
