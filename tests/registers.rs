use mmdc::engine::{Phase, Sampler, CTRL_DISABLE, CTRL_ENABLE, CTRL_FREEZE, CTRL_RESET};
use mmdc::layout::{
    MADPCR0, MADPCR1, MADPSR0, MADPSR1, MADPSR2, MADPSR3, MADPSR4, MADPSR5, MAARCR, MAGENP,
    MDASP, MDCTL, MPBC, MPZQHWCTRL, MPDCCR, WINDOW_BYTES, WINDOW_WORDS,
};
use mmdc::metrics::{ProfileResult, RawCounters};
use mmdc::regs::{get_mmdc_profiling_results, RegisterView};

#[test]
fn offsets_match_register_map() {
    assert_eq!(MDCTL, 0x000);
    assert_eq!(MDASP, 0x040);
    assert_eq!(MAARCR, 0x400);
    assert_eq!(MADPCR0, 0x410);
    assert_eq!(MADPCR1, 0x414);
    assert_eq!(MADPSR0, 0x418);
    assert_eq!(MADPSR1, 0x41C);
    assert_eq!(MADPSR2, 0x420);
    assert_eq!(MADPSR3, 0x424);
    assert_eq!(MADPSR4, 0x428);
    assert_eq!(MADPSR5, 0x42C);
    assert_eq!(MAGENP, 0x440);
    assert_eq!(MPZQHWCTRL, 0x800);
    assert_eq!(MPDCCR, 0x8C0);
    assert_eq!(MPBC, 0x8C4);
    assert_eq!(WINDOW_BYTES, 0x4000);
    assert_eq!(WINDOW_WORDS * 4, WINDOW_BYTES);
}

#[test]
fn new_window_reads_zero() {
    let v = RegisterView::new();
    assert_eq!(v.read(MDCTL), 0);
    assert_eq!(v.read(MADPCR0), 0);
    assert_eq!(v.read(WINDOW_BYTES - 4), 0);
    assert_eq!(v.control(), 0);
}

#[test]
fn writes_land_at_their_offsets() {
    let mut v = RegisterView::new();
    v.write(MADPSR3, 77);
    v.write_control(0xA);
    assert_eq!(v.read(MADPSR3), 77);
    assert_eq!(v.read(MADPSR2), 0);
    assert_eq!(v.read(MADPSR4), 0);
    assert_eq!(v.control(), 0xA);
    assert_eq!(v.read(MADPCR1), 0);
}

#[test]
fn from_words_checks_length_and_places_words() {
    assert!(RegisterView::from_words(vec![0; 10]).is_none());
    assert!(RegisterView::from_words(vec![0; WINDOW_WORDS + 1]).is_none());
    let mut words = vec![0u32; WINDOW_WORDS];
    words[MADPSR0 / 4] = 1000;
    words[MADPSR1 / 4] = 400;
    words[MADPSR2 / 4] = 10;
    words[MADPSR3 / 4] = 5;
    words[MADPSR4 / 4] = 160;
    words[MADPSR5 / 4] = 80;
    let v = RegisterView::from_words(words).unwrap();
    assert_eq!(
        v.read_counters(),
        RawCounters {
            total_cycles: 1000,
            busy_cycles: 400,
            read_accesses: 10,
            write_accesses: 5,
            read_bytes: 160,
            write_bytes: 80,
        }
    );
    let r = get_mmdc_profiling_results(&v);
    assert_eq!(r.utilization, 3);
    assert_eq!(r.data_load, 40);
    assert_eq!(r.access_utilization, 16);
}

#[test]
fn apply_options_sets_filter_register() {
    let mut v = RegisterView::new();
    v.apply_options(Some(0x3FE70004));
    assert_eq!(v.read(MADPCR1), 0x3FE70004);
    assert_eq!(v.control(), 0);
    v.apply_options(None);
    assert_eq!(v.read(MADPCR1), 0);
}

#[test]
fn control_sequence_leaves_last_value() {
    let mut v = RegisterView::new();
    v.write_control_sequence(&vec![0xA, 0x1]);
    assert_eq!(v.control(), 0x1);
    v.write_control_sequence(&vec![]);
    assert_eq!(v.control(), 0x1);
}

#[test]
fn cycle_orders_control_values() {
    assert_eq!(CTRL_RESET, 0xA);
    assert_eq!(CTRL_ENABLE, 0x1);
    assert_eq!(CTRL_FREEZE, 0x4);
    assert_eq!(CTRL_DISABLE, 0x0);
    let mut s = Sampler::new();
    assert_eq!(s.phase(), Phase::Idle);
    assert_eq!(s.clear(), vec![0xA]);
    assert_eq!(s.phase(), Phase::Armed);
    assert_eq!(s.start(), vec![0xA, 0x1]);
    assert_eq!(s.phase(), Phase::Running);
    assert_eq!(s.freeze(), vec![0x5]);
    assert_eq!(s.phase(), Phase::Frozen);
    assert_eq!(s.stop(), vec![0x0]);
    assert_eq!(s.phase(), Phase::Idle);
}

#[test]
fn cycle_against_synthetic_window() {
    let mut v = RegisterView::new();
    let mut s = Sampler::new();
    for _ in 0..2 {
        v.write_control_sequence(&s.clear());
        assert_eq!(v.control(), 0xA);
        v.write_control_sequence(&s.start());
        assert_eq!(v.control(), 0x1);
        // the device counts while the window is open
        v.write(MADPSR0, 2000);
        v.write(MADPSR1, 1000);
        v.write(MADPSR2, 20);
        v.write(MADPSR3, 0);
        v.write(MADPSR4, 1280);
        v.write(MADPSR5, 0);
        v.write_control_sequence(&s.freeze());
        assert_eq!(v.control(), 0x5);
        let r = s.collect(&v.read_counters());
        assert_eq!(r, get_mmdc_profiling_results(&v));
        assert_eq!(r.avg_read_burstsize, 64);
        assert_eq!(r.avg_write_burstsize, 0);
        assert_eq!(r.data_load, 50);
        assert_eq!(r.utilization, 8);
        assert_eq!(r.access_utilization, 64);
        v.write_control_sequence(&s.stop());
        assert_eq!(v.control(), 0);
        assert_eq!(s.phase(), Phase::Idle);
    }
    assert_eq!(ProfileResult::default().busy_cycles, 0);
}
