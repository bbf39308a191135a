use cpu_trace::cpu::{Cpu, I8288, Instruction, SyncSignals, SyntaxToken};
use cpu_trace::microcode::{microcode_line_str, microcode_op_str, MC_CORR, MC_JUMP, MC_NONE, MC_RTN};
use cpu_trace::queue::InstructionQueue;
use cpu_trace::state::{
    operating_label, BiuStateNew, BusStatus, DmaState, FetchState, QueueOp, Segment, TCycle,
};

fn lines_off() -> I8288 {
    I8288 {
        ale: false,
        mrdc: false,
        amwc: false,
        mwtc: false,
        iorc: false,
        aiowc: false,
        iowc: false,
    }
}

fn base_cpu() -> Cpu {
    Cpu {
        i8288: lines_off(),
        address_bus: 0x12345,
        data_bus: 0,
        t_cycle: TCycle::T1,
        bus_segment: Segment::CS,
        biu_state_new: BiuStateNew::Idle,
        fetch_state: FetchState::Idle,
        last_queue_op: QueueOp::Idle,
        last_queue_byte: 0,
        last_queue_len: 0,
        queue: InstructionQueue::new(),
        bus_status: BusStatus::Passive,
        bus_status_latch: BusStatus::Passive,
        cs: 0,
        ip: 0,
        i: Instruction { text: "nop".to_string(), size: 1 },
        trace_instr: MC_NONE,
        microcode_src: Vec::new(),
        dma_state: DmaState::Idle,
        dram_refresh_cycle_num: 7,
        cycle_num: 0,
        instr_cycle: 0,
        wait_states: 0,
        dma_wait_states: 0,
        ready: true,
        intr: false,
        trace_comment: Vec::new(),
    }
}

fn busy_cpu() -> Cpu {
    let mut c = base_cpu();
    c.i8288 = I8288 { ale: true, mrdc: true, iowc: true, ..lines_off() };
    c.t_cycle = TCycle::Tw;
    c.bus_segment = Segment::DS;
    c.data_bus = 0xAB;
    c.last_queue_op = QueueOp::First;
    c.last_queue_byte = 0x90;
    c.cs = 0x0100;
    c.ip = 0x0010;
    c.trace_instr = 0x01A;
    let mut table: Vec<String> = (0..26).map(|_| "a".to_string()).collect();
    table.push("MOV X,Y".to_string());
    c.microcode_src = table;
    c.dma_state = DmaState::Operating(3);
    c.queue = InstructionQueue { bytes: vec![0xB8, 0x00], preload: true };
    c.instr_cycle = 12;
    c.cycle_num = 123456;
    c.bus_status_latch = BusStatus::MemRead;
    c.biu_state_new = BiuStateNew::ToPrefetch(2);
    c.fetch_state = FetchState::Scheduled(2);
    c.last_queue_len = 2;
    c.address_bus = 0x3FFFF;
    c.trace_comment = vec!["one".to_string(), "two".to_string()];
    c
}

fn texts(v: &[SyntaxToken]) -> Vec<String> {
    v.iter()
        .map(|t| match t {
            SyntaxToken::Text(s) => s.clone(),
        })
        .collect()
}

#[test]
fn short_line_idle_snapshot() {
    let c = base_cpu();
    assert_eq!(
        c.cycle_state_string(3, true),
        "0000   [12345]    R0 M:... I:... |03 07| PASV T1        | I   | Idle          |  0 [        ]        |     | "
    );
}

#[test]
fn long_line_idle_snapshot() {
    let c = base_cpu();
    assert_eq!(
        c.cycle_state_string(3, false),
        "00000000:0000   [12345]    R0. M:... I:... |03 07|  | PASV T1        | I   | Idle          |  0 [        ]        |    : null | "
    );
}

#[test]
fn short_line_busy_snapshot() {
    let c = busy_cpu();
    assert_eq!(
        c.cycle_state_string(0, true),
        "0012 A:[3FFFF] DS R0 M:R.. I:..W |S2   | MEMR Tw <-r AB | >PF | Scheduled(2)  | F2*[B800    ] <-q 90 | 01A | [0100:0010] nop (1) ; one; two"
    );
}

#[test]
fn long_line_busy_snapshot() {
    let c = busy_cpu();
    assert_eq!(
        c.cycle_state_string(0, false),
        "00123456:0012 A:[3FFFF] DS R0x M:R.. I:..W |S2   |  | MEMR Tw <-r AB | >PF | Scheduled(2)  | F2*[B800    ] <-q 90 | 01A: MOV X,Y | [0100:0010] nop (1) ; one; two"
    );
}

#[test]
fn tokens_busy_snapshot() {
    let c = busy_cpu();
    let t = texts(&c.cycle_state_tokens(0, false));
    let expected = vec![
        "123456", "0012", "A", "3FFFF", "DS", "R", "0", "x", "M:R.. I:..W", "S2", "MEMR", "Tw",
        "<-r AB", ">PF", "Scheduled(2)", "F", "2", "B800", "<-q 90", "01A", "MOV X,Y",
        "[0100:0010] nop (1) ", "; one; two",
    ];
    assert_eq!(t, expected);
    assert_eq!(texts(&c.cycle_state_tokens(0, true)), expected);
}

#[test]
fn segment_label_blank_in_t1_or_without_segment() {
    let cycles = [
        TCycle::Tinit,
        TCycle::Ti,
        TCycle::T1,
        TCycle::T2,
        TCycle::T3,
        TCycle::T4,
        TCycle::Tw,
    ];
    for t in cycles {
        assert_eq!(Segment::NoSegment.label(t), "  ");
        if t == TCycle::T1 {
            for s in [Segment::ES, Segment::CS, Segment::SS, Segment::DS] {
                assert_eq!(s.label(t), "  ");
            }
        } else {
            assert_eq!(Segment::ES.label(t), "ES");
            assert_eq!(Segment::CS.label(t), "CS");
            assert_eq!(Segment::SS.label(t), "SS");
            assert_eq!(Segment::DS.label(t), "DS");
        }
    }
}

#[test]
fn bus_signal_block_follows_each_line() {
    let mut c = base_cpu();
    c.i8288 = I8288 {
        ale: false,
        mrdc: true,
        amwc: true,
        mwtc: true,
        iorc: true,
        aiowc: true,
        iowc: true,
    };
    let all = [
        BusStatus::InterruptAck,
        BusStatus::IoRead,
        BusStatus::IoWrite,
        BusStatus::Halt,
        BusStatus::CodeFetch,
        BusStatus::MemRead,
        BusStatus::MemWrite,
        BusStatus::Passive,
    ];
    for b in all {
        c.bus_status_latch = b;
        assert_eq!(texts(&c.cycle_state_tokens(0, true))[8], "M:RAW I:RAW");
    }
    c.i8288 = I8288 { amwc: true, iorc: true, ..lines_off() };
    assert_eq!(texts(&c.cycle_state_tokens(0, true))[8], "M:.A. I:R..");
    c.i8288 = I8288 { mwtc: true, aiowc: true, ..lines_off() };
    assert_eq!(texts(&c.cycle_state_tokens(0, true))[8], "M:..W I:.A.");
}

#[test]
fn instruction_marker_only_on_first() {
    let mut c = base_cpu();
    c.cs = 0x0100;
    c.ip = 0x0010;
    c.last_queue_byte = 0x90;
    c.last_queue_op = QueueOp::First;
    let t = texts(&c.cycle_state_tokens(0, true));
    assert_eq!(t[18], "<-q 90");
    assert!(t[21].starts_with("[0100:0010]"));
    assert_eq!(c.instr_string(), "[0100:0010] nop (1) ");
    for op in [QueueOp::Idle, QueueOp::Subsequent, QueueOp::Flush] {
        c.last_queue_op = op;
        assert_eq!(c.instr_string(), "");
    }
    c.last_queue_op = QueueOp::Subsequent;
    assert_eq!(texts(&c.cycle_state_tokens(0, true))[18], "<-q 90");
    c.last_queue_op = QueueOp::Flush;
    assert_eq!(texts(&c.cycle_state_tokens(0, true))[18], "      ");
}

#[test]
fn dma_operating_maps_in_reverse() {
    assert_eq!(operating_label(4), "S1");
    assert_eq!(operating_label(3), "S2");
    assert_eq!(operating_label(2), "S3");
    assert_eq!(operating_label(1), "S4");
    assert_eq!(operating_label(0), "S?");
    assert_eq!(operating_label(5), "S?");
    assert_eq!(operating_label(255), "S?");
    assert_eq!(DmaState::Operating(9).label(0, 0), "S?");
}

#[test]
fn dma_labels_of_handshake_states() {
    assert_eq!(DmaState::TimerTrigger.label(1, 2), "TIMR");
    assert_eq!(DmaState::Dreq.label(1, 2), "DREQ");
    assert_eq!(DmaState::Hrq.label(1, 2), "HRQ ");
    assert_eq!(DmaState::HoldA.label(1, 2), "HLDA");
    assert_eq!(DmaState::Idle.label(123, 4), "123 04");
}

#[test]
fn segment_patch_is_idempotent() {
    for seg in [Segment::ES, Segment::SS, Segment::CS, Segment::DS, Segment::NoSegment] {
        let mut c = base_cpu();
        c.address_bus = 0xF_FFFF;
        c.bus_segment = seg;
        c.patch_address_segment();
        let once = c.address_bus;
        c.patch_address_segment();
        assert_eq!(c.address_bus, once);
        assert_eq!(once & 0xC_FFFF, 0xC_FFFF);
    }
    let mut c = base_cpu();
    c.address_bus = 0x0_1234;
    c.bus_segment = Segment::DS;
    c.patch_address_segment();
    assert_eq!(c.address_bus, 0x3_1234);
    c.bus_segment = Segment::ES;
    c.patch_address_segment();
    assert_eq!(c.address_bus, 0x0_1234);
    c.bus_segment = Segment::SS;
    c.patch_address_segment();
    assert_eq!(c.address_bus, 0x1_1234);
}

#[test]
fn segment_patch_waits_for_latch_release() {
    let mut c = base_cpu();
    c.i8288.ale = true;
    c.address_bus = 0x0_1234;
    c.bus_segment = Segment::DS;
    c.patch_address_segment();
    assert_eq!(c.address_bus, 0x0_1234);
}

#[test]
fn csv_rows_share_all_but_phase() {
    let mut c = base_cpu();
    c.address_bus = 0x0_FFF0;
    c.last_queue_op = QueueOp::Subsequent;
    c.bus_status = BusStatus::CodeFetch;
    c.intr = true;
    c.dma_state = DmaState::Dreq;
    let sync = SyncSignals { vs: true, hs: false, den: true, brd: false };
    let rows = c.trace_csv_line("0.5", "0.75", sync);
    assert_eq!(rows.len(), 2);
    assert_eq!(rows[0], "0.5,2FFF0,1,1,3,4,0,1,1,1,0,1,0");
    assert_eq!(rows[1], "0.75,2FFF0,0,1,3,4,0,1,1,1,0,1,0");
    assert_eq!(c.address_bus, 0x2_FFF0);
}

#[test]
fn csv_rows_without_video() {
    let mut c = base_cpu();
    c.i8288.ale = true;
    c.ready = false;
    let none = SyncSignals::detached();
    let rows = c.trace_csv_line("10", "11", none);
    assert_eq!(rows[0], "10,12345,1,0,0,7,0,0,0,0,0,0,0");
    assert_eq!(rows[1], "11,12345,0,0,0,7,0,0,0,0,0,0,0");
}

#[test]
fn t1_cs_ready_scenario() {
    let mut c = base_cpu();
    c.address_bus = 0x0_0000;
    c.patch_address_segment();
    assert_eq!((c.address_bus >> 16) & 3, 2);
    let t = texts(&c.cycle_state_tokens(0, true));
    assert_eq!(t[4], "  ");
    assert_eq!(t[5], "R");
    let line = c.cycle_state_string(0, true);
    assert!(line.starts_with("0000   [20000]    R0 "));
}

#[test]
fn first_queue_byte_scenario() {
    let mut c = base_cpu();
    c.last_queue_op = QueueOp::First;
    c.last_queue_byte = 0x90;
    c.cs = 0x0100;
    c.ip = 0x0010;
    let line = c.cycle_state_string(0, true);
    assert!(line.contains("<-q 90"));
    assert!(line.contains("[0100:0010]"));
}

#[test]
fn return_sentinel_scenario() {
    let mut c = base_cpu();
    c.trace_instr = MC_RTN;
    let line = c.cycle_state_string(0, true);
    assert!(line.ends_with("| RET | "));
    assert_eq!(texts(&c.cycle_state_tokens(0, true))[19], "RET");
}

#[test]
fn dma_idle_counts_scenario() {
    let c = base_cpu();
    assert_eq!(texts(&c.cycle_state_tokens(3, false))[9], "03 07");
    assert!(c.cycle_state_string(3, true).contains("|03 07|"));
}

#[test]
fn header_aligns_with_tokens() {
    let c = busy_cpu();
    let h = c.cycle_trace_header();
    assert_eq!(h.len(), 23);
    assert_eq!(h.len(), c.cycle_state_tokens(0, true).len());
    assert_eq!(h.len(), base_cpu().cycle_state_tokens(5, false).len());
    assert_eq!(h[0], "Cycle");
    assert_eq!(h[8], "8288       ");
    assert_eq!(h[22], "Comments");
}

#[test]
fn microcode_sentinels_and_addresses() {
    assert_eq!(microcode_line_str(MC_JUMP), "JMP");
    assert_eq!(microcode_line_str(MC_RTN), "RET");
    assert_eq!(microcode_line_str(MC_CORR), "COR");
    assert_eq!(microcode_line_str(MC_NONE), "   ");
    assert_eq!(microcode_line_str(0x5), "005");
    assert_eq!(microcode_line_str(0x1FF), "1FF");
    let table = vec!["first".to_string(), "second".to_string()];
    assert_eq!(microcode_op_str(&table, 1), "second");
    assert_eq!(microcode_op_str(&table, 2), "null");
    assert_eq!(microcode_op_str(&table, MC_JUMP), "null");
}

#[test]
fn labels_of_states() {
    assert_eq!(BiuStateNew::ToIdle(3).label(), ">I ");
    assert_eq!(BiuStateNew::ToEu(0).label(), ">EU");
    assert_eq!(BiuStateNew::Eu.label(), "EU ");
    assert_eq!(BiuStateNew::Prefetch.label(), "PF ");
    assert_eq!(BusStatus::InterruptAck.label(), "IRQA");
    assert_eq!(BusStatus::IoWrite.label(), "IOW ");
    assert_eq!(BusStatus::Halt.code(), 3);
    assert_eq!(QueueOp::Flush.label(), 'E');
    assert_eq!(QueueOp::Flush.code(), 2);
    assert_eq!(TCycle::Tinit.label(), "Tx");
    assert_eq!(FetchState::Aborting(10).label(), "Aborting(10)");
    assert_eq!(FetchState::BlockedByEU.label(), "BlockedByEU");
}

#[test]
fn write_transfer_and_read_priority() {
    let mut c = base_cpu();
    c.data_bus = 0x0F;
    c.i8288 = I8288 { mwtc: true, ..lines_off() };
    assert_eq!(texts(&c.cycle_state_tokens(0, true))[12], "w-> 0F");
    c.i8288 = I8288 { mwtc: true, iorc: true, ..lines_off() };
    assert_eq!(texts(&c.cycle_state_tokens(0, true))[12], "<-r 0F");
}

#[test]
fn queue_text_and_wait_states() {
    let q = InstructionQueue { bytes: vec![0x01, 0xAB, 0x00, 0xFF], preload: false };
    assert_eq!(q.to_string(), "01AB00FF");
    assert!(!q.has_preload());
    let mut c = base_cpu();
    c.wait_states = 2;
    c.t_cycle = TCycle::T3;
    let t = texts(&c.cycle_state_tokens(0, true));
    assert_eq!(t[5], ".");
    assert_eq!(t[6], "2");
    assert_eq!(t[7], ".");
    assert!(!c.is_last_wait());
    c.wait_states = 0;
    assert!(c.is_last_wait());
}
