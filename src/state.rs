//! The enumerated hardware states of the bus interface, and the fixed
//! labels and bus codes that each of them is shown as.

use vstd::prelude::*;
use crate::text::{dec, dec_w, push_char, push_dec, push_str};

verus! {

/// Phase of the bus cycle.
#[derive(Clone, Copy, Debug, PartialEq, Eq, Structural)]
pub enum TCycle {
    Tinit,
    Ti,
    T1,
    T2,
    T3,
    T4,
    Tw,
}

/// Logical segment of the current bus access.
#[derive(Clone, Copy, Debug, PartialEq, Eq, Structural)]
pub enum Segment {
    NoSegment,
    ES,
    CS,
    SS,
    DS,
}

/// Bus interface unit arbitration state; transitional states carry the
/// cycles left before they settle.
#[derive(Clone, Copy, Debug, PartialEq, Eq, Structural)]
pub enum BiuStateNew {
    Idle,
    Prefetch,
    Eu,
    ToIdle(u8),
    ToPrefetch(u8),
    ToEu(u8),
}

/// Most recent prefetch queue activity, in queue-status pin order.
#[derive(Clone, Copy, Debug, PartialEq, Eq, Structural)]
pub enum QueueOp {
    Idle,
    First,
    Flush,
    Subsequent,
}

/// Bus status latched at the start of a bus cycle, in status pin order.
#[derive(Clone, Copy, Debug, PartialEq, Eq, Structural)]
pub enum BusStatus {
    InterruptAck,
    IoRead,
    IoWrite,
    Halt,
    CodeFetch,
    MemRead,
    MemWrite,
    Passive,
}

/// DMA and refresh arbitration state.
#[derive(Clone, Copy, Debug, PartialEq, Eq, Structural)]
pub enum DmaState {
    Idle,
    TimerTrigger,
    Dreq,
    Hrq,
    HoldA,
    Operating(u8),
}

/// State of the prefetch scheduler.
#[derive(Clone, Copy, Debug, PartialEq, Eq, Structural)]
pub enum FetchState {
    Idle,
    Suspended,
    InProgress,
    Scheduled(u8),
    ScheduleNext,
    Delayed(u8),
    DelayDone,
    Aborting(u8),
    BlockedByEU,
    Halted,
}

pub open spec fn t_cycle_label(t: TCycle) -> Seq<char> {
    match t {
        TCycle::Tinit => "Tx"@,
        TCycle::Ti => "Ti"@,
        TCycle::T1 => "T1"@,
        TCycle::T2 => "T2"@,
        TCycle::T3 => "T3"@,
        TCycle::T4 => "T4"@,
        TCycle::Tw => "Tw"@,
    }
}

/// Two-character name of a segment; blank for no segment.
pub open spec fn segment_name(s: Segment) -> Seq<char> {
    match s {
        Segment::NoSegment => "  "@,
        Segment::SS => "SS"@,
        Segment::ES => "ES"@,
        Segment::CS => "CS"@,
        Segment::DS => "DS"@,
    }
}

/// Segment column: blank during T1, where the selector is not on the bus yet.
pub open spec fn segment_label(t: TCycle, s: Segment) -> Seq<char> {
    if t == TCycle::T1 {
        "  "@
    } else {
        segment_name(s)
    }
}

/// Two-bit hardware code that a segment is multiplexed onto A16-A17 as.
pub open spec fn segment_code(s: Segment) -> nat {
    match s {
        Segment::ES => 0,
        Segment::SS => 1,
        Segment::CS | Segment::NoSegment => 2,
        Segment::DS => 3,
    }
}

pub open spec fn biu_label(b: BiuStateNew) -> Seq<char> {
    match b {
        BiuStateNew::ToIdle(_) => ">I "@,
        BiuStateNew::ToPrefetch(_) => ">PF"@,
        BiuStateNew::ToEu(_) => ">EU"@,
        BiuStateNew::Idle => "I  "@,
        BiuStateNew::Prefetch => "PF "@,
        BiuStateNew::Eu => "EU "@,
    }
}

/// Whether a BIU state is one of the transitional ones.
pub open spec fn biu_transitional(b: BiuStateNew) -> bool {
    match b {
        BiuStateNew::ToIdle(_) | BiuStateNew::ToPrefetch(_) | BiuStateNew::ToEu(_) => true,
        _ => false,
    }
}

pub open spec fn queue_op_char(q: QueueOp) -> char {
    match q {
        QueueOp::Idle => ' ',
        QueueOp::First => 'F',
        QueueOp::Flush => 'E',
        QueueOp::Subsequent => 'S',
    }
}

/// Queue-status pin code of a queue operation.
pub open spec fn queue_op_code(q: QueueOp) -> nat {
    match q {
        QueueOp::Idle => 0,
        QueueOp::First => 1,
        QueueOp::Flush => 2,
        QueueOp::Subsequent => 3,
    }
}

pub open spec fn bus_status_label(b: BusStatus) -> Seq<char> {
    match b {
        BusStatus::InterruptAck => "IRQA"@,
        BusStatus::IoRead => "IOR "@,
        BusStatus::IoWrite => "IOW "@,
        BusStatus::Halt => "HALT"@,
        BusStatus::CodeFetch => "CODE"@,
        BusStatus::MemRead => "MEMR"@,
        BusStatus::MemWrite => "MEMW"@,
        BusStatus::Passive => "PASV"@,
    }
}

/// Status pin code of a bus status.
pub open spec fn bus_status_code(b: BusStatus) -> nat {
    match b {
        BusStatus::InterruptAck => 0,
        BusStatus::IoRead => 1,
        BusStatus::IoWrite => 2,
        BusStatus::Halt => 3,
        BusStatus::CodeFetch => 4,
        BusStatus::MemRead => 5,
        BusStatus::MemWrite => 6,
        BusStatus::Passive => 7,
    }
}

/// Sub-state label of a DMA transfer; the count runs down from 4 to 1.
pub open spec fn dma_operating_label(n: u8) -> Seq<char> {
    if n == 4 {
        "S1"@
    } else if n == 3 {
        "S2"@
    } else if n == 2 {
        "S3"@
    } else if n == 1 {
        "S4"@
    } else {
        "S?"@
    }
}

/// DMA column; when idle, the outstanding DMA count and the refresh position.
pub open spec fn dma_label(d: DmaState, dma_count: u16, refresh: u32) -> Seq<char> {
    match d {
        DmaState::Idle => dec_w(dma_count as nat, 2) + seq![' '] + dec_w(refresh as nat, 2),
        DmaState::TimerTrigger => "TIMR"@,
        DmaState::Dreq => "DREQ"@,
        DmaState::Hrq => "HRQ "@,
        DmaState::HoldA => "HLDA"@,
        DmaState::Operating(n) => dma_operating_label(n),
    }
}

/// The variant name of a fetch state, with its count in parentheses.
pub open spec fn fetch_label(f: FetchState) -> Seq<char> {
    match f {
        FetchState::Idle => "Idle"@,
        FetchState::Suspended => "Suspended"@,
        FetchState::InProgress => "InProgress"@,
        FetchState::Scheduled(n) => "Scheduled("@ + dec(n as nat) + ")"@,
        FetchState::ScheduleNext => "ScheduleNext"@,
        FetchState::Delayed(n) => "Delayed("@ + dec(n as nat) + ")"@,
        FetchState::DelayDone => "DelayDone"@,
        FetchState::Aborting(n) => "Aborting("@ + dec(n as nat) + ")"@,
        FetchState::BlockedByEU => "BlockedByEU"@,
        FetchState::Halted => "Halted"@,
    }
}

impl TCycle {
    pub fn label(self) -> (r: &'static str)
        ensures
            r@ == t_cycle_label(self),
    {
        match self {
            TCycle::Tinit => "Tx",
            TCycle::Ti => "Ti",
            TCycle::T1 => "T1",
            TCycle::T2 => "T2",
            TCycle::T3 => "T3",
            TCycle::T4 => "T4",
            TCycle::Tw => "Tw",
        }
    }
}

impl Segment {
    /// Label shown for this segment in bus cycle phase `t`.
    pub fn label(self, t: TCycle) -> (r: &'static str)
        ensures
            r@ == segment_label(t, self),
    {
        if t == TCycle::T1 {
            "  "
        } else {
            match self {
                Segment::NoSegment => "  ",
                Segment::SS => "SS",
                Segment::ES => "ES",
                Segment::CS => "CS",
                Segment::DS => "DS",
            }
        }
    }

    pub fn code(self) -> (r: u32)
        ensures
            r as nat == segment_code(self),
    {
        match self {
            Segment::ES => 0,
            Segment::SS => 1,
            Segment::CS | Segment::NoSegment => 2,
            Segment::DS => 3,
        }
    }
}

impl BiuStateNew {
    pub fn label(self) -> (r: &'static str)
        ensures
            r@ == biu_label(self),
    {
        match self {
            BiuStateNew::ToIdle(_) => ">I ",
            BiuStateNew::ToPrefetch(_) => ">PF",
            BiuStateNew::ToEu(_) => ">EU",
            BiuStateNew::Idle => "I  ",
            BiuStateNew::Prefetch => "PF ",
            BiuStateNew::Eu => "EU ",
        }
    }
}

impl QueueOp {
    pub fn label(self) -> (r: char)
        ensures
            r == queue_op_char(self),
    {
        match self {
            QueueOp::Idle => ' ',
            QueueOp::First => 'F',
            QueueOp::Flush => 'E',
            QueueOp::Subsequent => 'S',
        }
    }

    pub fn code(self) -> (r: u8)
        ensures
            r as nat == queue_op_code(self),
    {
        match self {
            QueueOp::Idle => 0,
            QueueOp::First => 1,
            QueueOp::Flush => 2,
            QueueOp::Subsequent => 3,
        }
    }
}

impl BusStatus {
    pub fn label(self) -> (r: &'static str)
        ensures
            r@ == bus_status_label(self),
    {
        match self {
            BusStatus::InterruptAck => "IRQA",
            BusStatus::IoRead => "IOR ",
            BusStatus::IoWrite => "IOW ",
            BusStatus::Halt => "HALT",
            BusStatus::CodeFetch => "CODE",
            BusStatus::MemRead => "MEMR",
            BusStatus::MemWrite => "MEMW",
            BusStatus::Passive => "PASV",
        }
    }

    pub fn code(self) -> (r: u8)
        ensures
            r as nat == bus_status_code(self),
    {
        match self {
            BusStatus::InterruptAck => 0,
            BusStatus::IoRead => 1,
            BusStatus::IoWrite => 2,
            BusStatus::Halt => 3,
            BusStatus::CodeFetch => 4,
            BusStatus::MemRead => 5,
            BusStatus::MemWrite => 6,
            BusStatus::Passive => 7,
        }
    }
}

impl DmaState {
    /// The DMA column for this state.
    pub fn label(self, dma_count: u16, refresh: u32) -> (r: String)
        ensures
            r@ == dma_label(self, dma_count, refresh),
    {
        match self {
            DmaState::Idle => {
                let mut s = String::new();
                push_dec(&mut s, dma_count as u64, 2);
                push_char(&mut s, ' ');
                push_dec(&mut s, refresh as u64, 2);
                assert(s@ =~= dma_label(self, dma_count, refresh));
                s
            },
            DmaState::TimerTrigger => String::from_str("TIMR"),
            DmaState::Dreq => String::from_str("DREQ"),
            DmaState::Hrq => String::from_str("HRQ "),
            DmaState::HoldA => String::from_str("HLDA"),
            DmaState::Operating(n) => String::from_str(operating_label(n)),
        }
    }
}

/// Label of DMA transfer sub-state `n`.
pub fn operating_label(n: u8) -> (r: &'static str)
    ensures
        r@ == dma_operating_label(n),
{
    match n {
        4 => "S1",
        3 => "S2",
        2 => "S3",
        1 => "S4",
        _ => "S?",
    }
}

impl FetchState {
    pub fn label(self) -> (r: String)
        ensures
            r@ == fetch_label(self),
    {
        let mut s = String::new();
        match self {
            FetchState::Idle => push_str(&mut s, "Idle"),
            FetchState::Suspended => push_str(&mut s, "Suspended"),
            FetchState::InProgress => push_str(&mut s, "InProgress"),
            FetchState::Scheduled(n) => {
                push_str(&mut s, "Scheduled(");
                push_dec(&mut s, n as u64, 0);
                push_str(&mut s, ")");
            },
            FetchState::ScheduleNext => push_str(&mut s, "ScheduleNext"),
            FetchState::Delayed(n) => {
                push_str(&mut s, "Delayed(");
                push_dec(&mut s, n as u64, 0);
                push_str(&mut s, ")");
            },
            FetchState::DelayDone => push_str(&mut s, "DelayDone"),
            FetchState::Aborting(n) => {
                push_str(&mut s, "Aborting(");
                push_dec(&mut s, n as u64, 0);
                push_str(&mut s, ")");
            },
            FetchState::BlockedByEU => push_str(&mut s, "BlockedByEU"),
            FetchState::Halted => push_str(&mut s, "Halted"),
        }
        assert(s@ =~= fetch_label(self));
        s
    }
}

} // verus!
