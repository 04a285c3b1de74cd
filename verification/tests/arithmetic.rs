use cells::color::{ColorCell, CHANNEL_MAX, COLOR_STEP};
use cells::fixed::{limited_sum, ratio, UNIT};
use cells::grid::Grid;
use cells::limit;

#[test]
fn limit_keeps_a_value_inside_the_interval() {
    assert_eq!(limit(0, 49, 25), 25);
    assert_eq!(limit(0, 49, 0), 0);
    assert_eq!(limit(0, 49, 49), 49);
}

#[test]
fn limit_holds_a_value_at_the_nearer_bound() {
    assert_eq!(limit(0, 49, -1), 0);
    assert_eq!(limit(0, 49, 50), 49);
    assert_eq!(limit(-5, 5, i64::MIN), -5);
    assert_eq!(limit(-5, 5, i64::MAX), 5);
}

#[test]
fn limit_on_an_empty_interval_prefers_the_lower_bound_for_small_values() {
    assert_eq!(limit(10, 0, 5), 10);
    assert_eq!(limit(10, 0, 20), 0);
}

#[test]
fn ratio_is_in_thousandths() {
    assert_eq!(UNIT, 1000);
    assert_eq!(ratio(1, 1), 1000);
    assert_eq!(ratio(12_000, 12_000), 1000);
    assert_eq!(ratio(1, 3), 333);
    assert_eq!(ratio(2, 3), 666);
    assert_eq!(ratio(5, 13), 384);
    assert_eq!(ratio(0, 7), 0);
}

#[test]
fn ratio_rounds_toward_zero_for_every_sign() {
    assert_eq!(ratio(-1, 3), -333);
    assert_eq!(ratio(1, -3), -333);
    assert_eq!(ratio(-1, -3), 333);
    assert_eq!(ratio(-2, 3), -666);
    assert_eq!(ratio(12_000, -7), -1_714_285);
}

#[test]
fn limited_sum_adds_and_holds() {
    assert_eq!(limited_sum(0, 1000, 400, 200), 600);
    assert_eq!(limited_sum(0, 1000, 900, 200), 1000);
    assert_eq!(limited_sum(0, 1000, 100, -200), 0);
    assert_eq!(limited_sum(i64::MIN, i64::MAX, i64::MAX, 1), i64::MAX);
    assert_eq!(limited_sum(i64::MIN, i64::MAX, i64::MIN, -1), i64::MIN);
    assert_eq!(limited_sum(-5, 5, i64::MAX, i64::MAX), 5);
}

#[test]
fn color_new_keeps_the_channels() {
    let c = ColorCell::new(1000, 500, 0);
    assert_eq!(c, ColorCell { r: 1000, g: 500, b: 0 });
}

#[test]
fn color_shift_moves_each_channel_by_its_own_delta() {
    let mut c = ColorCell::new(500, 500, 500);
    c.shift(100, -200, 0);
    assert_eq!(c, ColorCell { r: 600, g: 300, b: 500 });
}

#[test]
fn color_shift_holds_each_channel_between_dark_and_lit() {
    let mut c = ColorCell::new(900, 100, 1000);
    c.shift(200, -200, 1);
    assert_eq!(c, ColorCell { r: CHANNEL_MAX, g: 0, b: CHANNEL_MAX });
    let mut d = ColorCell::new(0, 1000, 0);
    d.shift(-1, 1, -200);
    assert_eq!(d, ColorCell { r: 0, g: 1000, b: 0 });
}

#[test]
fn color_modify_moves_each_channel_by_at_most_one_step() {
    let mut low = i64::MAX;
    let mut high = i64::MIN;
    for _ in 0..2000 {
        let mut c = ColorCell::new(500, 500, 500);
        c.modify();
        for channel in [c.r, c.g, c.b] {
            assert!(500 - COLOR_STEP <= channel && channel <= 500 + COLOR_STEP);
            low = low.min(channel);
            high = high.max(channel);
        }
    }
    assert!(low < 400, "no draw fell in the lower part of the range");
    assert!(high > 600, "no draw fell in the upper part of the range");
}

#[test]
fn color_modify_never_leaves_the_range() {
    let mut c = ColorCell::new(1000, 0, 500);
    for _ in 0..2000 {
        c.modify();
        assert!(0 <= c.r && c.r <= CHANNEL_MAX);
        assert!(0 <= c.g && c.g <= CHANNEL_MAX);
        assert!(0 <= c.b && c.b <= CHANNEL_MAX);
    }
}

#[test]
fn grid_starts_empty_and_records_what_is_set() {
    let mut grid = Grid::new();
    assert_eq!(grid.get((0, 0)), None);
    assert_eq!(grid.get((49, 49)), None);
    grid.set((3, 7), Some(5));
    assert_eq!(grid.get((3, 7)), Some(5));
    assert_eq!(grid.get((7, 3)), None);
    grid.set((3, 7), None);
    assert_eq!(grid.get((3, 7)), None);
}
