use transit_tui::format::{
    format_duration, format_title, leg_from_label, leg_line, leg_to_label, render_title,
    two_digit_string, u64_to_string,
};
use transit_tui::model::{Itinerary, Leg, Mode};

fn leg(mode: Mode, duration_secs: u64, from: &str, to: &str, route: &str) -> Leg {
    Leg {
        mode,
        duration_secs,
        from_stop: from.to_string(),
        to_stop: to.to_string(),
        route_short_name: route.to_string(),
    }
}

#[test]
fn numbers_render_in_decimal() {
    assert_eq!(u64_to_string(0), "0");
    assert_eq!(u64_to_string(7), "7");
    assert_eq!(u64_to_string(10), "10");
    assert_eq!(u64_to_string(12345), "12345");
    assert_eq!(u64_to_string(1000000), "1000000");
}

#[test]
fn durations_drop_zero_components() {
    assert_eq!(format_duration(0), "");
    assert_eq!(format_duration(45), "45s");
    assert_eq!(format_duration(60), "1m");
    assert_eq!(format_duration(61), "1m 1s");
    assert_eq!(format_duration(3600), "1h");
    assert_eq!(format_duration(3660), "1h 1m");
    assert_eq!(format_duration(3661), "1h 1m 1s");
    assert_eq!(format_duration(7325), "2h 2m 5s");
}

#[test]
fn clock_fields_are_zero_padded() {
    assert_eq!(two_digit_string(0), "00");
    assert_eq!(two_digit_string(5), "05");
    assert_eq!(two_digit_string(10), "10");
    assert_eq!(two_digit_string(59), "59");
}

#[test]
fn title_line_has_times_and_duration() {
    assert_eq!(render_title(8, 5, 9, 15, 4200), "[ 08:05 - 09:15 | 1h 10m ]");
    assert_eq!(render_title(23, 59, 0, 0, 60), "[ 23:59 - 00:00 | 1m ]");
}

#[test]
fn itinerary_title_is_well_formed_in_any_time_zone() {
    let itin = Itinerary {
        start_time_ms: 1700000000000,
        end_time_ms: 1700004200000,
        duration_secs: 4200,
        legs: vec![],
    };
    let title = format_title(&itin);
    // The wall-clock digits depend on the machine's time zone; the shape
    // and the duration do not.
    assert_eq!(title.chars().count(), "[ 00:00 - 00:00 | 1h 10m ]".chars().count());
    assert!(title.starts_with("[ "));
    assert!(title.ends_with(" | 1h 10m ]"));
    let times: Vec<char> = title.chars().skip(2).take(13).collect();
    assert!(times[0].is_ascii_digit());
    assert!(times[1].is_ascii_digit());
    assert_eq!(times[2], ':');
    assert!(times[3].is_ascii_digit());
    assert!(times[4].is_ascii_digit());
    assert_eq!(&times[5..8].iter().collect::<String>(), " - ");
}

#[test]
fn walking_legs_show_the_pictogram_and_duration() {
    let walk = leg(Mode::Walk, 300, "", "", "");
    assert_eq!(leg_line(&walk), "\u{1F6B6} 5m");
}

#[test]
fn ride_legs_show_route_and_duration() {
    let bus = leg(Mode::Bus, 540, "Kamppi", "Kera", "550");
    assert_eq!(leg_line(&bus), "\u{1F68C} (550) 9m");
    let rail = leg(Mode::Rail, 1200, "A", "B", "E");
    assert_eq!(leg_line(&rail), "\u{1F686} (E) 20m");
    let subway = leg(Mode::Subway, 600, "A", "B", "M1");
    assert_eq!(leg_line(&subway), "\u{1F687} (M1) 10m");
    let other = leg(Mode::Other, 60, "A", "B", "X");
    assert_eq!(leg_line(&other), "none (X) 1m");
}

#[test]
fn stop_labels_are_empty_for_walking_legs() {
    let walk = leg(Mode::Walk, 300, "Kamppi", "Kera", "");
    assert_eq!(leg_from_label(&walk), "");
    assert_eq!(leg_to_label(&walk), "");
    let bus = leg(Mode::Bus, 540, "Kamppi", "Kera", "550");
    assert_eq!(leg_from_label(&bus), "Kamppi");
    assert_eq!(leg_to_label(&bus), "Kera");
}
