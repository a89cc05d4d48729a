use oled_progress::progressbar::{BarShapes, Fill, ProgressBar, Rect, Shape, Style};
use oled_progress::ratio::Ratio;

fn hundredths(k: u32) -> Ratio {
    Ratio::new(k, 100).unwrap()
}

#[test]
fn fill_is_empty_at_ratio_zero() {
    let mut bar = ProgressBar::new(10, 35, 108, 8);
    let shapes = bar.draw(hundredths(0));
    assert_eq!(shapes.fill.rect.width, 0);
    assert_eq!(shapes.fill.rect.height, 8);
}

#[test]
fn fill_is_106_at_99_hundredths_of_108() {
    let mut bar = ProgressBar::new(10, 35, 108, 8);
    let shapes = bar.draw(hundredths(99));
    assert_eq!(shapes.fill.rect.width, 106);
}

#[test]
fn draw_gives_outline_then_fill_from_the_same_corner() {
    let mut bar = ProgressBar::new(10, 35, 108, 8);
    let shapes = bar.draw(hundredths(50));
    let expected = BarShapes {
        outline: Shape {
            rect: Rect { x: 10, y: 35, width: 108, height: 8 },
            style: Style { stroke_width: 1, fill: Fill::Hollow },
        },
        fill: Shape {
            rect: Rect { x: 10, y: 35, width: 54, height: 8 },
            style: Style { stroke_width: 1, fill: Fill::Solid },
        },
    };
    assert_eq!(shapes, expected);
}

#[test]
fn fill_is_the_floor_of_length_times_ratio() {
    let mut bar = ProgressBar::new(0, 0, 108, 8);
    assert_eq!(bar.draw(hundredths(1)).fill.rect.width, 1);
    assert_eq!(bar.draw(hundredths(25)).fill.rect.width, 27);
    assert_eq!(bar.draw(hundredths(33)).fill.rect.width, 35);
    assert_eq!(bar.draw(hundredths(98)).fill.rect.width, 105);
    let mut short = ProgressBar::new(0, 0, 7, 3);
    assert_eq!(short.draw(Ratio::new(1, 3).unwrap()).fill.rect.width, 2);
    assert_eq!(short.draw(Ratio::new(2, 3).unwrap()).fill.rect.width, 4);
    assert_eq!(short.draw(Ratio::new(6, 7).unwrap()).fill.rect.width, 6);
}

#[test]
fn fill_stays_within_the_bar_for_every_hundredth() {
    for length in [1u32, 2, 7, 100, 108, 128, 4_000_000_000] {
        let mut bar = ProgressBar::new(0, 0, length, 1);
        for k in 0..100 {
            let fill = bar.draw(hundredths(k)).fill.rect.width;
            assert!(fill <= length);
            assert_eq!(u64::from(fill), u64::from(length) * u64::from(k) / 100);
        }
    }
}

#[test]
fn fill_never_shrinks_as_the_ratio_grows() {
    let mut bar = ProgressBar::new(10, 35, 108, 8);
    let mut last = 0;
    for k in 0..100 {
        let fill = bar.draw(hundredths(k)).fill.rect.width;
        assert!(fill >= last);
        last = fill;
    }
    let third = bar.draw(Ratio::new(1, 3).unwrap()).fill.rect.width;
    let half = bar.draw(Ratio::new(1, 2).unwrap()).fill.rect.width;
    assert!(third <= half);
}

#[test]
fn fill_of_the_largest_bar_does_not_overflow() {
    let mut bar = ProgressBar::new(0, 0, u32::MAX, 1);
    let almost_one = Ratio::new(u32::MAX - 1, u32::MAX).unwrap();
    assert_eq!(bar.draw(almost_one).fill.rect.width, u32::MAX - 1);
}

#[test]
fn fill_agrees_with_single_precision_on_the_108_pixel_bar() {
    let mut bar = ProgressBar::new(10, 35, 108, 8);
    for k in 0..100u32 {
        let ratio = k as f32 * (1.0 / 100.0);
        let expected = (108u32 as f32 * ratio) as u32;
        assert_eq!(bar.draw(hundredths(k)).fill.rect.width, expected);
    }
}

#[test]
fn draw_leaves_the_bar_as_it_was() {
    let mut bar = ProgressBar::new(10, 35, 108, 8);
    let before = bar;
    let first = bar.draw(hundredths(42));
    assert_eq!(bar, before);
    let second = bar.draw(hundredths(42));
    assert_eq!(first, second);
}

#[test]
fn coordinates_above_the_signed_range_come_out_negative() {
    let mut bar = ProgressBar::new(u32::MAX, 0x8000_0000, 5, 5);
    let shapes = bar.draw(hundredths(0));
    assert_eq!(shapes.outline.rect.x, -1);
    assert_eq!(shapes.outline.rect.y, i32::MIN);
    let mut edge = ProgressBar::new(0x7fff_ffff, 0, 5, 5);
    assert_eq!(edge.draw(hundredths(0)).fill.rect.x, i32::MAX);
}

#[test]
fn ratio_is_refused_at_one_and_above() {
    assert!(Ratio::new(100, 100).is_none());
    assert!(Ratio::new(101, 100).is_none());
    assert!(Ratio::new(0, 0).is_none());
    assert!(Ratio::new(99, 100).is_some());
}

#[test]
fn ratio_keeps_its_parts() {
    let r = Ratio::new(2, 4).unwrap();
    assert_eq!(r.numerator(), 2);
    assert_eq!(r.denominator(), 4);
    assert_ne!(r, Ratio::new(1, 2).unwrap());
}

#[test]
fn cyclic_ratio_wraps_round_the_period() {
    assert_eq!(Ratio::cyclic(0, 100), hundredths(0));
    assert_eq!(Ratio::cyclic(99, 100), hundredths(99));
    assert_eq!(Ratio::cyclic(100, 100), hundredths(0));
    assert_eq!(Ratio::cyclic(u64::MAX, 100), hundredths(15));
}

#[test]
fn scale_rounds_toward_zero() {
    assert_eq!(hundredths(99).scale(108), 106);
    assert_eq!(hundredths(99).scale(0), 0);
    assert_eq!(Ratio::new(1, 2).unwrap().scale(5), 2);
}
