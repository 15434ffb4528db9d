use controller_input::knob::{KnobFilter, KnobState, KnobTurn};
use controller_input::reader::{KnobInputReader, KNOB_THRESHOLD, KNOB_THROTTLE_MS};
use controller_input::sampling::{average_medians, median, KnobBuffer, KNOB_BUFFER_LEN};

#[test]
fn wraparound_past_top_is_small_forward_turn() {
    let mut f = KnobFilter::<8, 10>::new(4090);
    assert_eq!(f.filter(5, 1), KnobTurn::Right);
    // And backwards across zero.
    let mut f = KnobFilter::<8, 10>::new(5);
    assert_eq!(f.filter(4090, 20), KnobTurn::Left);
}

#[test]
fn wraparound_below_threshold_is_no_turn() {
    // 4090 -> 5 is 11 counts forward: under a threshold of 32, nothing.
    let mut f = KnobFilter::<32, 10>::new(4090);
    assert_eq!(f.filter(5, 1), KnobTurn::Idle);
}

#[test]
fn threshold_and_throttle() {
    let mut f = KnobFilter::<32, 10>::new(1000);
    assert_eq!(f.filter(1031, 1), KnobTurn::Idle);
    assert_eq!(f.filter(1032, 1), KnobTurn::Right);
    // Committed at 1032; small jitter keeps the latched turn while throttled.
    assert_eq!(f.filter(1040, 4), KnobTurn::Right);
    assert_eq!(f.filter(1030, 4), KnobTurn::Right);
    assert_eq!(f.filter(1035, 4), KnobTurn::Right);
    // Window used up: no turn.
    assert_eq!(f.filter(1035, 4), KnobTurn::Idle);
    // A large move commits again, in the other direction.
    assert_eq!(f.filter(990, 1), KnobTurn::Left);
}

#[test]
fn below_threshold_never_commits() {
    let mut f = KnobFilter::<32, 10>::new(2000);
    // Creep up 20 counts at a time, each under the threshold from the
    // committed reading 2000 only for the first step.
    assert_eq!(f.filter(2020, 50), KnobTurn::Idle);
    assert_eq!(f.filter(2031, 50), KnobTurn::Idle);
    // Still measured from 2000: 40 counts commits.
    assert_eq!(f.filter(2040, 50), KnobTurn::Right);
}

#[test]
fn knob_state_dead_zone() {
    let mut k = KnobState::new(100);
    assert_eq!(k.update(116), KnobTurn::Idle);
    assert_eq!(k.update(84), KnobTurn::Idle);
    assert_eq!(k.update(117), KnobTurn::Right);
    assert_eq!(k.update(117), KnobTurn::Idle);
    assert_eq!(k.update(100), KnobTurn::Left);
    let mut k = KnobState::new(4080);
    assert_eq!(k.update(20), KnobTurn::Right);
}

#[test]
fn median_rejects_single_spike() {
    assert_eq!(median(100, 4000, 102), 102);
    assert_eq!(median(100, 0, 102), 100);
    assert_eq!(median(102, 4000, 100), 102);
    assert_eq!(median(1, 2, 3), 2);
    assert_eq!(median(3, 2, 1), 2);
    assert_eq!(median(2, 3, 1), 2);
    assert_eq!(median(2, 1, 3), 2);
    assert_eq!(median(3, 1, 2), 2);
    assert_eq!(median(1, 3, 2), 2);
    assert_eq!(median(7, 7, 1), 7);
}

#[test]
fn burst_average_of_medians() {
    // Left channel 1000 with one spike, right channel 2000 with one dip.
    let mut buf = KnobBuffer::new();
    assert_eq!(buf.0.len(), KNOB_BUFFER_LEN);
    assert!(buf.0.iter().all(|&v| v == 0));
    for i in 0..KNOB_BUFFER_LEN / 2 {
        buf.0[2 * i] = 1000;
        buf.0[2 * i + 1] = 2000;
    }
    buf.0[10] = 4095;
    buf.0[21] = 0;
    assert_eq!(average_medians(&buf.0), (1000, 2000));
}

#[test]
fn burst_average_exact_value() {
    // Three samples per channel: one window.
    let burst = [10u16, 400, 30, 500, 20, 600];
    assert_eq!(average_medians(&burst), (20, 500));
    // Four samples per channel: two windows, medians 20 and 30 -> 25.
    let burst = [10u16, 1, 30, 2, 20, 3, 40, 4];
    assert_eq!(average_medians(&burst), (25, 2));
}

#[test]
fn knob_reader_decodes_both_channels() {
    assert_eq!((KNOB_THRESHOLD, KNOB_THROTTLE_MS), (32, 10));
    let mut r = KnobInputReader::new(1000, 3000);
    let mut burst = [0u16; KNOB_BUFFER_LEN];
    for i in 0..KNOB_BUFFER_LEN / 2 {
        burst[2 * i] = 1100;
        burst[2 * i + 1] = 2900;
    }
    assert_eq!(r.read(&burst, 1), (KnobTurn::Right, KnobTurn::Left));
}
