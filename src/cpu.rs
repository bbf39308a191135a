//! One half-cycle snapshot of the CPU's bus interface and the renderers
//! that turn it into a text line, a token list and a pair of CSV rows.

use vstd::prelude::*;
use crate::microcode::{microcode_line, microcode_line_str, microcode_op, microcode_op_str};
use crate::queue::{queue_text, InstructionQueue};
use crate::state::{
    biu_label, bus_status_label, dma_label, fetch_label, queue_op_char, queue_op_code,
    bus_status_code, segment_code, segment_label, t_cycle_label, BiuStateNew, BusStatus, DmaState,
    FetchState, QueueOp, Segment, TCycle,
};
use crate::text::{dec, dec_w, hex_w, push_char, push_dec, push_hex, push_str, push_str_padded, space_pad};

verus! {

/// Command lines of the bus controller; the six command lines are active low.
#[derive(Clone, Copy, Debug, PartialEq, Eq, Structural)]
pub struct I8288 {
    pub ale: bool,
    pub mrdc: bool,
    pub amwc: bool,
    pub mwtc: bool,
    pub iorc: bool,
    pub aiowc: bool,
    pub iowc: bool,
}

/// Sync outputs of the video device; all false when none is attached.
#[derive(Clone, Copy, Debug, PartialEq, Eq, Structural)]
pub struct SyncSignals {
    pub vs: bool,
    pub hs: bool,
    pub den: bool,
    pub brd: bool,
}

impl SyncSignals {
    /// The sync lines seen when no video device is attached: all false.
    pub fn detached() -> (r: SyncSignals)
        ensures
            !r.vs && !r.hs && !r.den && !r.brd,
    {
        SyncSignals { vs: false, hs: false, den: false, brd: false }
    }
}

/// The decoded instruction at the current queue boundary.
pub struct Instruction {
    pub text: String,
    pub size: u32,
}

/// One labelled column of a cycle trace.
pub enum SyntaxToken {
    Text(String),
}

impl View for SyntaxToken {
    type V = Seq<char>;

    open spec fn view(&self) -> Seq<char> {
        match self {
            SyntaxToken::Text(s) => s@,
        }
    }
}

/// The state of the bus interface that the trace reads each half-cycle.
pub struct Cpu {
    pub i8288: I8288,
    pub address_bus: u32,
    pub data_bus: u8,
    pub t_cycle: TCycle,
    pub bus_segment: Segment,
    pub biu_state_new: BiuStateNew,
    pub fetch_state: FetchState,
    pub last_queue_op: QueueOp,
    pub last_queue_byte: u8,
    pub last_queue_len: usize,
    pub queue: InstructionQueue,
    pub bus_status: BusStatus,
    pub bus_status_latch: BusStatus,
    pub cs: u16,
    pub ip: u16,
    pub i: Instruction,
    pub trace_instr: u16,
    pub microcode_src: Vec<String>,
    pub dma_state: DmaState,
    pub dram_refresh_cycle_num: u32,
    pub cycle_num: u64,
    pub instr_cycle: u32,
    pub wait_states: u32,
    pub dma_wait_states: u32,
    pub ready: bool,
    pub intr: bool,
    pub trace_comment: Vec<String>,
}

/// A signal letter when the line is asserted, `.` otherwise.
pub open spec fn line_char(asserted: bool, letter: char) -> char {
    if asserted {
        letter
    } else {
        '.'
    }
}

/// The command-line block `M:RAW I:RAW`.
pub open spec fn signals_block(s: I8288) -> Seq<char> {
    seq![
        'M',
        ':',
        line_char(s.mrdc, 'R'),
        line_char(s.amwc, 'A'),
        line_char(s.mwtc, 'W'),
        ' ',
        'I',
        ':',
        line_char(s.iorc, 'R'),
        line_char(s.aiowc, 'A'),
        line_char(s.iowc, 'W'),
    ]
}

/// Address bus with A16-A17 replaced by the segment's code.
pub open spec fn patched_address(addr: u32, seg: Segment) -> u32 {
    (addr & 0xC_FFFF) | ((segment_code(seg) as u32) << 16u32)
}

/// Data transfer column; a read is shown when both a read and a write are.
pub open spec fn xfer_text(s: I8288, data: u8) -> Seq<char> {
    if s.mrdc || s.iorc {
        "<-r "@ + hex_w(data as nat, 2)
    } else if s.mwtc || s.iowc {
        "w-> "@ + hex_w(data as nat, 2)
    } else {
        "      "@
    }
}

/// Queue read column: the byte taken from the queue, if any.
pub open spec fn queue_read_text(op: QueueOp, byte: u8) -> Seq<char> {
    if op == QueueOp::First || op == QueueOp::Subsequent {
        "<-q "@ + hex_w(byte as nat, 2)
    } else {
        "      "@
    }
}

/// Instruction marker, present only at the first byte of an instruction.
pub open spec fn instr_marker(op: QueueOp, cs: u16, ip: u16, text: Seq<char>, size: u32) -> Seq<char> {
    if op == QueueOp::First {
        seq!['['] + hex_w(cs as nat, 4) + seq![':'] + hex_w(ip as nat, 4) + "] "@ + text + " ("@
            + dec(size as nat) + ") "@
    } else {
        Seq::empty()
    }
}

/// The comments, each as `; comment`, in order.
pub open spec fn comments_text(cs: Seq<String>) -> Seq<char>
    decreases cs.len(),
{
    if cs.len() == 0 {
        Seq::empty()
    } else {
        comments_text(cs.drop_last()) + "; "@ + cs.last()@
    }
}

pub open spec fn ready_char(c: &Cpu) -> char {
    if c.wait_states > 0 {
        '.'
    } else {
        'R'
    }
}

/// Whether this is the last cycle of a wait.
pub open spec fn last_wait(c: &Cpu) -> bool {
    (c.t_cycle == TCycle::T3 || c.t_cycle == TCycle::Tw) && c.wait_states == 0 && c.dma_wait_states
        == 0
}

pub open spec fn tx_char(c: &Cpu) -> char {
    if last_wait(c) {
        'x'
    } else {
        '.'
    }
}

pub open spec fn preload_char(c: &Cpu) -> char {
    if c.queue.preload {
        '*'
    } else {
        ' '
    }
}

/// Address latch, address, segment, ready and wait-state columns.
pub open spec fn address_part(c: &Cpu) -> Seq<char> {
    space_pad(if c.i8288.ale { "A:"@ } else { "  "@ }, 2) + seq!['['] + hex_w(c.address_bus as nat, 5)
        + "] "@ + space_pad(segment_label(c.t_cycle, c.bus_segment), 2) + seq![' ', ready_char(c)]
        + dec(c.wait_states as nat)
}

/// Command lines and DMA columns.
pub open spec fn dma_part(c: &Cpu, dma_count: u16) -> Seq<char> {
    seq![' '] + signals_block(c.i8288) + " |"@ + space_pad(
        dma_label(c.dma_state, dma_count, c.dram_refresh_cycle_num),
        5,
    ) + seq!['|']
}

/// Bus status, T-cycle, transfer, BIU and fetch columns.
pub open spec fn status_part(c: &Cpu) -> Seq<char> {
    seq![' '] + space_pad(bus_status_label(c.bus_status_latch), 4) + seq![' '] + space_pad(
        t_cycle_label(c.t_cycle),
        2,
    ) + seq![' '] + space_pad(xfer_text(c.i8288, c.data_bus), 6) + " | "@ + space_pad(
        biu_label(c.biu_state_new),
        4,
    ) + "| "@ + space_pad(fetch_label(c.fetch_state), 14) + "| "@
}

/// Queue operation, length, preload, contents and queue read columns.
pub open spec fn queue_part(c: &Cpu) -> Seq<char> {
    seq![queue_op_char(c.last_queue_op)] + dec(c.last_queue_len as nat) + seq![preload_char(c), '[']
        + space_pad(queue_text(c.queue.bytes@), 8) + "] "@ + queue_read_text(
        c.last_queue_op,
        c.last_queue_byte,
    ) + " | "@
}

/// Bus status through queue read columns.
pub open spec fn bus_part(c: &Cpu) -> Seq<char> {
    status_part(c) + queue_part(c)
}

pub open spec fn instr_part(c: &Cpu) -> Seq<char> {
    instr_marker(c.last_queue_op, c.cs, c.ip, c.i.text@, c.i.size)
}

/// The short line: no cycle counter, no microcode listing.
pub open spec fn short_line(c: &Cpu, dma_count: u16) -> Seq<char> {
    dec_w(c.instr_cycle as nat, 4) + seq![' '] + address_part(c) + dma_part(c, dma_count) + bus_part(c)
        + space_pad(microcode_line(c.trace_instr), 3) + " | "@ + instr_part(c) + comments_text(
        c.trace_comment@,
    )
}

/// The long line: cycle counter, last-wait mark and microcode listing added.
pub open spec fn long_line(c: &Cpu, dma_count: u16) -> Seq<char> {
    dec_w(c.cycle_num as nat, 8) + seq![':'] + dec_w(c.instr_cycle as nat, 4) + seq![' ']
        + address_part(c) + seq![tx_char(c)] + dma_part(c, dma_count) + "  |"@ + bus_part(c)
        + microcode_line(c.trace_instr) + ": "@ + microcode_op(c.microcode_src@, c.trace_instr)
        + " | "@ + instr_part(c) + comments_text(c.trace_comment@)
}

pub open spec fn cycle_line(c: &Cpu, dma_count: u16, short: bool) -> Seq<char> {
    if short {
        short_line(c, dma_count)
    } else {
        long_line(c, dma_count)
    }
}

/// The columns of the token list, in header order.
pub open spec fn cycle_tokens(c: &Cpu, dma_count: u16) -> Seq<Seq<char>> {
    seq![
        dec_w(c.cycle_num as nat, 4),
        dec_w(c.instr_cycle as nat, 4),
        if c.i8288.ale { "A"@ } else { " "@ },
        hex_w(c.address_bus as nat, 5),
        segment_label(c.t_cycle, c.bus_segment),
        seq![ready_char(c)],
        dec(c.wait_states as nat),
        seq![tx_char(c)],
        signals_block(c.i8288),
        dma_label(c.dma_state, dma_count, c.dram_refresh_cycle_num),
        bus_status_label(c.bus_status_latch),
        t_cycle_label(c.t_cycle),
        xfer_text(c.i8288, c.data_bus),
        biu_label(c.biu_state_new),
        fetch_label(c.fetch_state),
        seq![queue_op_char(c.last_queue_op)],
        dec(c.last_queue_len as nat),
        queue_text(c.queue.bytes@),
        queue_read_text(c.last_queue_op, c.last_queue_byte),
        microcode_line(c.trace_instr),
        microcode_op(c.microcode_src@, c.trace_instr),
        instr_part(c),
        comments_text(c.trace_comment@),
    ]
}

/// Column titles of the token list.
pub open spec fn trace_header() -> Seq<Seq<char>> {
    seq![
        "Cycle"@,
        "icyc"@,
        "ALE"@,
        "Addr  "@,
        "Seg"@,
        "Rdy"@,
        "WS"@,
        "Tx"@,
        "8288       "@,
        "DMA  "@,
        "Bus "@,
        "T "@,
        "Xfer  "@,
        "BIU"@,
        "Fetch       "@,
        "Qop"@,
        "Ql"@,
        "Queue   "@,
        "Qrd   "@,
        "MCPC"@,
        "Microcode"@,
        "Instr                   "@,
        "Comments"@,
    ]
}

pub open spec fn token_texts(v: Seq<SyntaxToken>) -> Seq<Seq<char>> {
    v.map_values(|t: SyntaxToken| t@)
}

pub open spec fn string_texts(v: Seq<String>) -> Seq<Seq<char>> {
    v.map_values(|t: String| t@)
}

pub open spec fn bit_char(b: bool) -> char {
    if b {
        '1'
    } else {
        '0'
    }
}

/// CSV fields before the clock phase: the address.
pub open spec fn csv_head(c: &Cpu) -> Seq<char> {
    seq![','] + hex_w(c.address_bus as nat, 5) + seq![',']
}

/// CSV flag fields: reserved, interrupt, DMA request and the sync lines.
pub open spec fn csv_flags(c: &Cpu, sync: SyncSignals) -> Seq<char> {
    seq![
        ',',
        '0',
        ',',
        bit_char(c.intr),
        ',',
        bit_char(c.dma_state == DmaState::Dreq),
        ',',
        bit_char(sync.vs),
        ',',
        bit_char(sync.hs),
        ',',
        bit_char(sync.den),
        ',',
        bit_char(sync.brd),
    ]
}

/// CSV fields after the clock phase.
pub open spec fn csv_tail(c: &Cpu, sync: SyncSignals) -> Seq<char> {
    seq![',', bit_char(c.ready), ','] + dec(queue_op_code(c.last_queue_op)) + seq![','] + dec(
        bus_status_code(c.bus_status),
    ) + csv_flags(c, sync)
}

/// One CSV row after its timestamp; `phase` is the clock level.
pub open spec fn csv_fields(c: &Cpu, phase: bool, sync: SyncSignals) -> Seq<char> {
    csv_head(c) + seq![bit_char(phase)] + csv_tail(c, sync)
}

fn line_chr(asserted: bool, letter: char) -> (r: char)
    ensures
        r == line_char(asserted, letter),
{
    if asserted {
        letter
    } else {
        '.'
    }
}

fn push_signals(s: &mut String, sig: I8288)
    ensures
        final(s)@ == old(s)@ + signals_block(sig),
{
    push_char(s, 'M');
    push_char(s, ':');
    push_char(s, line_chr(sig.mrdc, 'R'));
    push_char(s, line_chr(sig.amwc, 'A'));
    push_char(s, line_chr(sig.mwtc, 'W'));
    push_char(s, ' ');
    push_char(s, 'I');
    push_char(s, ':');
    push_char(s, line_chr(sig.iorc, 'R'));
    push_char(s, line_chr(sig.aiowc, 'A'));
    push_char(s, line_chr(sig.iowc, 'W'));
    assert(final(s)@ =~= old(s)@ + signals_block(sig));
}

fn xfer_string(sig: I8288, data: u8) -> (r: String)
    ensures
        r@ == xfer_text(sig, data),
{
    let mut s = String::new();
    if sig.mrdc || sig.iorc {
        push_str(&mut s, "<-r ");
        push_hex(&mut s, data as u64, 2);
    } else if sig.mwtc || sig.iowc {
        push_str(&mut s, "w-> ");
        push_hex(&mut s, data as u64, 2);
    } else {
        push_str(&mut s, "      ");
    }
    assert(s@ =~= xfer_text(sig, data));
    s
}

fn queue_read_string(op: QueueOp, byte: u8) -> (r: String)
    ensures
        r@ == queue_read_text(op, byte),
{
    let mut s = String::new();
    if op == QueueOp::First || op == QueueOp::Subsequent {
        push_str(&mut s, "<-q ");
        push_hex(&mut s, byte as u64, 2);
    } else {
        push_str(&mut s, "      ");
    }
    assert(s@ =~= queue_read_text(op, byte));
    s
}

fn comments_string(cs: &Vec<String>) -> (r: String)
    ensures
        r@ == comments_text(cs@),
{
    let mut s = String::new();
    let mut i: usize = 0;
    while i < cs.len()
        invariant
            i <= cs@.len(),
            s@ == comments_text(cs@.subrange(0, i as int)),
        decreases cs@.len() - i,
    {
        push_str(&mut s, "; ");
        push_str(&mut s, cs[i].as_str());
        proof {
            let next = cs@.subrange(0, i + 1);
            assert(next.drop_last() =~= cs@.subrange(0, i as int));
        }
        i = i + 1;
    }
    assert(cs@.subrange(0, i as int) =~= cs@);
    s
}

impl Cpu {
    /// Whether this is the last cycle of a wait.
    pub fn is_last_wait(&self) -> (r: bool)
        ensures
            r == last_wait(self),
    {
        (self.t_cycle == TCycle::T3 || self.t_cycle == TCycle::Tw) && self.wait_states == 0
            && self.dma_wait_states == 0
    }

    fn ready_chr(&self) -> (r: char)
        ensures
            r == ready_char(self),
    {
        if self.wait_states > 0 {
            '.'
        } else {
            'R'
        }
    }

    fn tx_chr(&self) -> (r: char)
        ensures
            r == tx_char(self),
    {
        if self.is_last_wait() {
            'x'
        } else {
            '.'
        }
    }

    /// The instruction marker, empty unless the queue op is `First`.
    pub fn instr_string(&self) -> (r: String)
        ensures
            r@ == instr_part(self),
    {
        let mut s = String::new();
        if self.last_queue_op == QueueOp::First {
            push_char(&mut s, '[');
            push_hex(&mut s, self.cs as u64, 4);
            push_char(&mut s, ':');
            push_hex(&mut s, self.ip as u64, 4);
            push_str(&mut s, "] ");
            push_str(&mut s, self.i.text.as_str());
            push_str(&mut s, " (");
            push_dec(&mut s, self.i.size as u64, 0);
            push_str(&mut s, ") ");
        }
        assert(s@ =~= instr_part(self));
        s
    }

    fn push_address_part(&self, s: &mut String)
        ensures
            final(s)@ == old(s)@ + address_part(self),
    {
        let ghost start = s@;
        push_str_padded(s, if self.i8288.ale { "A:" } else { "  " }, 2);
        push_char(s, '[');
        push_hex(s, self.address_bus as u64, 5);
        push_str(s, "] ");
        push_str_padded(s, self.bus_segment.label(self.t_cycle), 2);
        push_char(s, ' ');
        push_char(s, self.ready_chr());
        push_dec(s, self.wait_states as u64, 0);
        assert(s@ =~= start + address_part(self));
    }

    fn push_dma_part(&self, s: &mut String, dma_count: u16)
        ensures
            final(s)@ == old(s)@ + dma_part(self, dma_count),
    {
        let ghost start = s@;
        push_char(s, ' ');
        push_signals(s, self.i8288);
        push_str(s, " |");
        let d = self.dma_state.label(dma_count, self.dram_refresh_cycle_num);
        push_str_padded(s, d.as_str(), 5);
        push_char(s, '|');
        assert(s@ =~= start + dma_part(self, dma_count));
    }

    fn push_status_part(&self, s: &mut String)
        ensures
            final(s)@ == old(s)@ + status_part(self),
    {
        let ghost start = s@;
        push_char(s, ' ');
        push_str_padded(s, self.bus_status_latch.label(), 4);
        push_char(s, ' ');
        push_str_padded(s, self.t_cycle.label(), 2);
        push_char(s, ' ');
        let x = xfer_string(self.i8288, self.data_bus);
        push_str_padded(s, x.as_str(), 6);
        push_str(s, " | ");
        push_str_padded(s, self.biu_state_new.label(), 4);
        push_str(s, "| ");
        let f = self.fetch_state.label();
        push_str_padded(s, f.as_str(), 14);
        push_str(s, "| ");
        assert(s@ =~= start + status_part(self));
    }

    fn push_queue_part(&self, s: &mut String)
        ensures
            final(s)@ == old(s)@ + queue_part(self),
    {
        let ghost start = s@;
        push_char(s, self.last_queue_op.label());
        push_dec(s, self.last_queue_len as u64, 0);
        push_char(s, if self.queue.has_preload() { '*' } else { ' ' });
        push_char(s, '[');
        let q = self.queue.to_string();
        push_str_padded(s, q.as_str(), 8);
        push_str(s, "] ");
        let r = queue_read_string(self.last_queue_op, self.last_queue_byte);
        push_str(s, r.as_str());
        push_str(s, " | ");
        assert(s@ =~= start + queue_part(self));
    }

    fn push_bus_part(&self, s: &mut String)
        ensures
            final(s)@ == old(s)@ + bus_part(self),
    {
        let ghost start = s@;
        self.push_status_part(s);
        self.push_queue_part(s);
        assert(s@ =~= start + bus_part(self));
    }

    /// The cycle state as one fixed-width line, short or long.
    pub fn cycle_state_string(&self, dma_count: u16, short: bool) -> (r: String)
        ensures
            r@ == cycle_line(self, dma_count, short),
    {
        let mut s = String::new();
        if short {
            push_dec(&mut s, self.instr_cycle as u64, 4);
            push_char(&mut s, ' ');
            self.push_address_part(&mut s);
            self.push_dma_part(&mut s, dma_count);
            self.push_bus_part(&mut s);
            let m = microcode_line_str(self.trace_instr);
            push_str_padded(&mut s, m.as_str(), 3);
            push_str(&mut s, " | ");
        } else {
            push_dec(&mut s, self.cycle_num, 8);
            push_char(&mut s, ':');
            push_dec(&mut s, self.instr_cycle as u64, 4);
            push_char(&mut s, ' ');
            self.push_address_part(&mut s);
            push_char(&mut s, self.tx_chr());
            self.push_dma_part(&mut s, dma_count);
            push_str(&mut s, "  |");
            self.push_bus_part(&mut s);
            let m = microcode_line_str(self.trace_instr);
            push_str(&mut s, m.as_str());
            push_str(&mut s, ": ");
            let op = microcode_op_str(&self.microcode_src, self.trace_instr);
            push_str(&mut s, op.as_str());
            push_str(&mut s, " | ");
        }
        let i = self.instr_string();
        push_str(&mut s, i.as_str());
        let c = comments_string(&self.trace_comment);
        push_str(&mut s, c.as_str());
        assert(s@ =~= cycle_line(self, dma_count, short));
        s
    }

    fn char_token(c: char) -> (r: SyntaxToken)
        ensures
            r@ == seq![c],
    {
        let mut s = String::new();
        push_char(&mut s, c);
        assert(s@ =~= seq![c]);
        SyntaxToken::Text(s)
    }

    fn dec_token(n: u64, w: usize) -> (r: SyntaxToken)
        ensures
            r@ == dec_w(n as nat, w as nat),
    {
        let mut s = String::new();
        push_dec(&mut s, n, w);
        assert(s@ =~= dec_w(n as nat, w as nat));
        SyntaxToken::Text(s)
    }

    /// The cycle state as a list of columns, in the order of the header;
    /// every column is present in both the short and the long mode.
    pub fn cycle_state_tokens(&self, dma_count: u16, _short: bool) -> (r: Vec<SyntaxToken>)
        ensures
            token_texts(r@) == cycle_tokens(self, dma_count),
    {
        let mut v: Vec<SyntaxToken> = Vec::new();
        v.push(Self::dec_token(self.cycle_num, 4));
        v.push(Self::dec_token(self.instr_cycle as u64, 4));
        v.push(SyntaxToken::Text(String::from_str(if self.i8288.ale { "A" } else { " " })));
        let mut a = String::new();
        push_hex(&mut a, self.address_bus as u64, 5);
        assert(a@ =~= hex_w(self.address_bus as nat, 5));
        v.push(SyntaxToken::Text(a));
        v.push(SyntaxToken::Text(String::from_str(self.bus_segment.label(self.t_cycle))));
        v.push(Self::char_token(self.ready_chr()));
        v.push(Self::dec_token(self.wait_states as u64, 0));
        v.push(Self::char_token(self.tx_chr()));
        let mut b = String::new();
        push_signals(&mut b, self.i8288);
        assert(b@ =~= signals_block(self.i8288));
        v.push(SyntaxToken::Text(b));
        v.push(SyntaxToken::Text(self.dma_state.label(dma_count, self.dram_refresh_cycle_num)));
        v.push(SyntaxToken::Text(String::from_str(self.bus_status_latch.label())));
        v.push(SyntaxToken::Text(String::from_str(self.t_cycle.label())));
        v.push(SyntaxToken::Text(xfer_string(self.i8288, self.data_bus)));
        v.push(SyntaxToken::Text(String::from_str(self.biu_state_new.label())));
        v.push(SyntaxToken::Text(self.fetch_state.label()));
        v.push(Self::char_token(self.last_queue_op.label()));
        v.push(Self::dec_token(self.last_queue_len as u64, 0));
        v.push(SyntaxToken::Text(self.queue.to_string()));
        v.push(SyntaxToken::Text(queue_read_string(self.last_queue_op, self.last_queue_byte)));
        v.push(SyntaxToken::Text(microcode_line_str(self.trace_instr)));
        v.push(SyntaxToken::Text(microcode_op_str(&self.microcode_src, self.trace_instr)));
        v.push(SyntaxToken::Text(self.instr_string()));
        v.push(SyntaxToken::Text(comments_string(&self.trace_comment)));
        assert(token_texts(v@) =~= cycle_tokens(self, dma_count));
        v
    }

    /// Column titles, aligned with the token list.
    pub fn cycle_trace_header(&self) -> (r: Vec<String>)
        ensures
            string_texts(r@) == trace_header(),
    {
        let v: Vec<String> = vec![
            String::from_str("Cycle"),
            String::from_str("icyc"),
            String::from_str("ALE"),
            String::from_str("Addr  "),
            String::from_str("Seg"),
            String::from_str("Rdy"),
            String::from_str("WS"),
            String::from_str("Tx"),
            String::from_str("8288       "),
            String::from_str("DMA  "),
            String::from_str("Bus "),
            String::from_str("T "),
            String::from_str("Xfer  "),
            String::from_str("BIU"),
            String::from_str("Fetch       "),
            String::from_str("Qop"),
            String::from_str("Ql"),
            String::from_str("Queue   "),
            String::from_str("Qrd   "),
            String::from_str("MCPC"),
            String::from_str("Microcode"),
            String::from_str("Instr                   "),
            String::from_str("Comments"),
        ];
        assert(string_texts(v@) =~= trace_header());
        v
    }

    /// Puts the segment's code on A16-A17 once the address latch is
    /// released; the other bits of A0-A19 are kept.
    pub fn patch_address_segment(&mut self)
        ensures
            final(self).address_bus == if old(self).i8288.ale {
                old(self).address_bus
            } else {
                patched_address(old(self).address_bus, old(self).bus_segment)
            },
            final(self).i8288 == old(self).i8288,
            final(self).bus_segment == old(self).bus_segment,
            final(self).last_queue_op == old(self).last_queue_op,
            final(self).bus_status == old(self).bus_status,
            final(self).dma_state == old(self).dma_state,
            final(self).ready == old(self).ready,
            final(self).intr == old(self).intr,
    {
        if !self.i8288.ale {
            let seg_n = self.bus_segment.code();
            self.address_bus = (self.address_bus & 0xC_FFFF) | (seg_n << 16u32);
        }
    }

    fn push_csv_flags(&self, s: &mut String, sync: SyncSignals)
        ensures
            final(s)@ == old(s)@ + csv_flags(self, sync),
    {
        let ghost start = s@;
        push_char(s, ',');
        push_char(s, '0');
        push_char(s, ',');
        push_char(s, bit_chr(self.intr));
        push_char(s, ',');
        push_char(s, bit_chr(self.dma_state == DmaState::Dreq));
        push_char(s, ',');
        push_char(s, bit_chr(sync.vs));
        push_char(s, ',');
        push_char(s, bit_chr(sync.hs));
        push_char(s, ',');
        push_char(s, bit_chr(sync.den));
        push_char(s, ',');
        push_char(s, bit_chr(sync.brd));
        assert(s@ =~= start + csv_flags(self, sync));
    }

    fn push_csv_fields(&self, s: &mut String, phase: bool, sync: SyncSignals)
        ensures
            final(s)@ == old(s)@ + csv_fields(self, phase, sync),
    {
        let ghost start = s@;
        push_char(s, ',');
        push_hex(s, self.address_bus as u64, 5);
        push_char(s, ',');
        assert(s@ =~= start + csv_head(self));
        push_char(s, bit_chr(phase));
        let ghost mid = s@;
        push_char(s, ',');
        push_char(s, bit_chr(self.ready));
        push_char(s, ',');
        push_dec(s, self.last_queue_op.code() as u64, 0);
        push_char(s, ',');
        push_dec(s, self.bus_status.code() as u64, 0);
        self.push_csv_flags(s, sync);
        assert(s@ =~= mid + csv_tail(self, sync));
        assert(s@ =~= start + csv_fields(self, phase, sync));
    }

    /// Patches the segment bits, then renders the rising and the falling
    /// half of the cycle as CSV rows stamped `t_rise` and `t_fall`:
    /// time, address, clock, ready, queue op, bus status, 0, interrupt,
    /// DMA request, vsync, hsync, display enable, border.
    pub fn trace_csv_line(&mut self, t_rise: &str, t_fall: &str, sync: SyncSignals) -> (r: Vec<String>)
        ensures
            final(self).address_bus == if old(self).i8288.ale {
                old(self).address_bus
            } else {
                patched_address(old(self).address_bus, old(self).bus_segment)
            },
            final(self).i8288 == old(self).i8288,
            final(self).bus_segment == old(self).bus_segment,
            final(self).last_queue_op == old(self).last_queue_op,
            final(self).bus_status == old(self).bus_status,
            final(self).dma_state == old(self).dma_state,
            final(self).ready == old(self).ready,
            final(self).intr == old(self).intr,
            r@.len() == 2,
            r@[0]@ == t_rise@ + csv_fields(final(self), true, sync),
            r@[1]@ == t_fall@ + csv_fields(final(self), false, sync),
    {
        self.patch_address_segment();
        let mut first = String::from_str(t_rise);
        self.push_csv_fields(&mut first, true, sync);
        let mut second = String::from_str(t_fall);
        self.push_csv_fields(&mut second, false, sync);
        let mut r: Vec<String> = Vec::new();
        r.push(first);
        r.push(second);
        r
    }
}

fn bit_chr(b: bool) -> (r: char)
    ensures
        r == bit_char(b),
{
    if b {
        '1'
    } else {
        '0'
    }
}

} // verus!
