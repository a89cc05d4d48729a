use oled_progress::frame::{FrameCounter, FRAMES_PER_CYCLE};
use oled_progress::ratio::Ratio;

#[test]
fn counter_starts_at_zero() {
    let counter = FrameCounter::new();
    assert_eq!(counter.index(), 0);
    assert_eq!(counter.tens(), 0);
    assert_eq!(counter.ratio(), Ratio::new(0, 100).unwrap());
    assert_eq!(FRAMES_PER_CYCLE, 100);
}

#[test]
fn ratio_rises_through_the_first_cycle_and_resets_at_100() {
    let mut counter = FrameCounter::new();
    for index in 0..100u32 {
        assert_eq!(counter.index(), u64::from(index));
        assert_eq!(counter.tens(), 0);
        let ratio = counter.ratio();
        assert_eq!(ratio.numerator(), index);
        assert_eq!(ratio.denominator(), 100);
        if index > 0 {
            let previous = FrameCounter::starting_at(u64::from(index) - 1).ratio();
            assert!(previous.numerator() * ratio.denominator() < ratio.numerator() * previous.denominator());
        }
        counter.advance();
    }
    assert_eq!(counter.index(), 100);
    assert_eq!(counter.ratio(), Ratio::new(0, 100).unwrap());
    assert_eq!(counter.tens(), 1);
}

#[test]
fn ratio_stays_below_one() {
    for index in [0u64, 1, 99, 100, 199, 12_345, u64::MAX] {
        let ratio = FrameCounter::starting_at(index).ratio();
        assert!(ratio.numerator() < ratio.denominator());
    }
}

#[test]
fn tens_and_ratio_of_a_late_frame() {
    let counter = FrameCounter::starting_at(123_456);
    assert_eq!(counter.tens(), 1234);
    assert_eq!(counter.ratio(), Ratio::new(56, 100).unwrap());
    let last = FrameCounter::starting_at(u64::MAX);
    assert_eq!(last.tens(), 184_467_440_737_095_516);
    assert_eq!(last.ratio(), Ratio::new(15, 100).unwrap());
}

#[test]
fn advance_moves_on_by_one() {
    let mut counter = FrameCounter::starting_at(99);
    counter.advance();
    assert_eq!(counter.index(), 100);
    counter.advance();
    assert_eq!(counter.index(), 101);
    assert_eq!(counter.ratio(), Ratio::new(1, 100).unwrap());
}
