use controller_input::knob::KnobTurn;
use controller_input::reader::{ButtonInputRead, ButtonInputReader, InputReader, InputSnapshot, DEBOUNCE_MS};
use controller_input::sampling::KNOB_BUFFER_LEN;
use controller_input::timer::ElapsedTimer;

fn burst(left: u16, right: u16) -> [u16; KNOB_BUFFER_LEN] {
    let mut b = [0u16; KNOB_BUFFER_LEN];
    for i in 0..KNOB_BUFFER_LEN / 2 {
        b[2 * i] = left;
        b[2 * i + 1] = right;
    }
    b
}

#[test]
fn elapsed_timer_rounds_reference_down() {
    let mut t = ElapsedTimer::new(0);
    assert_eq!(t.next_elapsed_ms(999), 0);
    assert_eq!(t.next_elapsed_ms(1500), 1);
    // Reference is now 1000, not 1500: 2000 is one whole millisecond later.
    assert_eq!(t.next_elapsed_ms(2000), 1);
    assert_eq!(t.next_elapsed_ms(2999), 0);
    assert_eq!(t.next_elapsed_ms(3000), 1);
    // Clamped to 16 bits.
    assert_eq!(t.next_elapsed_ms(3000 + 100_000_000), u16::MAX);
}

#[test]
fn identical_snapshots_are_published_once() {
    let idle = ButtonInputRead::default();
    let b = burst(2000, 2000);
    let mut r = InputReader::new(0, &idle, 2000, 2000);
    assert_eq!(r.read(1000, &idle, Some(&b)), Some(InputSnapshot::default()));
    assert_eq!(r.read(2000, &idle, Some(&b)), None);
    assert_eq!(r.read(3000, &idle, Some(&b)), None);
    let pressed = ButtonInputRead { start: true, ..idle };
    let s = r.read(4000, &pressed, Some(&b)).unwrap();
    assert!(s.buttons.start);
    assert_eq!(r.read(5000, &pressed, Some(&b)), None);
}

#[test]
fn failed_burst_abandons_cycle() {
    let idle = ButtonInputRead::default();
    let b = burst(2000, 2000);
    let mut r = InputReader::new(0, &idle, 2000, 2000);
    let pressed = ButtonInputRead { button1: true, ..idle };
    assert_eq!(r.read(1000, &pressed, None), None);
    assert!(!r.started);
    let s = r.read(2000, &pressed, Some(&b)).unwrap();
    assert!(s.buttons.button1);
}

#[test]
fn reader_end_to_end_knob_and_release() {
    let idle = ButtonInputRead::default();
    let mut r = InputReader::new(0, &idle, 1000, 1000);
    let pressed = ButtonInputRead { fx2: true, ..idle };
    let s = r.read(1000, &pressed, Some(&burst(1200, 1000))).unwrap();
    assert!(s.buttons.fx2);
    assert_eq!((s.left_knob, s.right_knob), (KnobTurn::Right, KnobTurn::Idle));
    // Release: held for the debounce window, knob latched while throttled.
    let mut t = 1000;
    let mut released_at = None;
    for step in 1..20u64 {
        t += 1000;
        if let Some(s) = r.read(t, &idle, Some(&burst(1200, 1000))) {
            if !s.buttons.fx2 {
                released_at = Some(step);
                break;
            }
        }
    }
    assert_eq!(released_at, Some(DEBOUNCE_MS as u64 + 1));
}

#[test]
fn button_reader_debounces_each_button() {
    let idle = ButtonInputRead::default();
    let mut r = ButtonInputReader::new(&idle);
    let raw = ButtonInputRead { button2: true, fx1: true, ..idle };
    let out = r.read(&raw, 1);
    assert_eq!(out, raw);
    let out = r.read(&idle, 1);
    assert_eq!(out, raw);
}

#[test]
fn elapsed_timer_does_not_drift() {
    let mut t = ElapsedTimer::new(0);
    let mut total: u64 = 0;
    let mut now: u64 = 0;
    for _ in 0..1000 {
        now += 1_300;
        total += t.next_elapsed_ms(now) as u64;
    }
    assert_eq!(total, now / 1000);
}
