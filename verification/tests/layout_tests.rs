use transit_tui::layout::{leg_layout, leg_ratio, visible_legs, MIN_VISIBLE_LEG_SECS};
use transit_tui::model::{Leg, Mode};

fn leg(duration_secs: u64) -> Leg {
    Leg {
        mode: Mode::Bus,
        duration_secs,
        from_stop: String::new(),
        to_stop: String::new(),
        route_short_name: String::new(),
    }
}

#[test]
fn short_legs_are_omitted_from_the_breakdown() {
    let legs = vec![leg(30), leg(120), leg(61), leg(60)];
    // Strictly more than the threshold is required: a 60 s leg is omitted.
    assert_eq!(MIN_VISIBLE_LEG_SECS, 60);
    assert_eq!(visible_legs(&legs), vec![1, 2]);
}

#[test]
fn all_legs_visible_when_all_are_long() {
    let legs = vec![leg(61), leg(400)];
    assert_eq!(visible_legs(&legs), vec![0, 1]);
}

#[test]
fn no_legs_no_regions() {
    let legs: Vec<Leg> = vec![];
    assert_eq!(visible_legs(&legs), Vec::<usize>::new());
}

#[test]
fn ratio_is_the_share_in_hundredths() {
    assert_eq!(leg_ratio(30, 120), 25);
    assert_eq!(leg_ratio(120, 120), 100);
    assert_eq!(leg_ratio(0, 120), 0);
    assert_eq!(leg_ratio(1, 3), 33);
}

#[test]
fn layout_pairs_visible_legs_with_their_shares() {
    let legs = vec![leg(300), leg(45), leg(900)];
    let total = 1200;
    assert_eq!(leg_layout(&legs, total), vec![(0, 25), (2, 75)]);
}
