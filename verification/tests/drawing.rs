use daph::number_drawer::NumberDrawer;
use daph::screen::{shown_track, side_pane_percentage, volume_label, volume_padding};

#[test]
fn draws_two_digits_side_by_side() {
    assert_eq!(
        NumberDrawer::draw("10"),
        "\n  ╔╗ ╔═══╗\n ╔╝║ ║╔═╗║\n ╚╗║ ║║ ║║\n  ║║ ║║ ║║\n ╔╝╚╗║╚═╝║\n ╚══╝╚═══╝\n"
    );
}

#[test]
fn draws_as_many_rows_as_the_first_glyph() {
    // The glyph of 5 has a trailing empty row that the glyph of 0 lacks.
    assert_eq!(
        NumberDrawer::draw("05"),
        "\n╔═══╗╔═══╗\n║╔═╗║║╔══╝\n║║ ║║║╚══╗\n║║ ║║╚══╗║\n║╚═╝║╔══╝║\n╚═══╝╚═══╝\n"
    );
}

#[test]
fn draws_non_digits_as_none() {
    assert_eq!(NumberDrawer::draw("bird"), "NONENONENONENONE\n");
}

#[test]
fn enlarge_gives_the_glyph() {
    assert_eq!(NumberDrawer::enlarge(&'0'), "\n╔═══╗\n║╔═╗║\n║║ ║║\n║║ ║║\n║╚═╝║\n╚═══╝\n");
    assert_eq!(NumberDrawer::enlarge(&'x'), "NONE");
}

#[test]
fn can_draw_needs_rows_for_every_glyph() {
    assert!(NumberDrawer::can_draw("10"));
    assert!(NumberDrawer::can_draw("05"));
    assert!(NumberDrawer::can_draw("bird"));
    assert!(!NumberDrawer::can_draw(""));
    // 0 has fewer rows than 4.
    assert!(!NumberDrawer::can_draw("40"));
}

#[test]
fn volume_labels_have_two_digits_at_least() {
    assert_eq!(volume_label(0), "00");
    assert_eq!(volume_label(5), "05");
    assert_eq!(volume_label(10), "10");
    assert_eq!(volume_label(20), "20");
    assert_eq!(volume_label(123), "123");
}

#[test]
fn every_volume_label_can_be_drawn() {
    for tenths in 0..=20u32 {
        assert!(NumberDrawer::can_draw(&volume_label(tenths)));
    }
}

#[test]
fn player_bar_shows_current_or_ninth_track() {
    assert_eq!(shown_track(Some(2), 5), Some(2));
    assert_eq!(shown_track(Some(7), 5), None);
    assert_eq!(shown_track(None, 20), Some(8));
    assert_eq!(shown_track(None, 8), None);
}

#[test]
fn narrow_terminal_hides_the_side_pane() {
    assert_eq!(side_pane_percentage(119), 0);
    assert_eq!(side_pane_percentage(120), 25);
}

#[test]
fn volume_digits_are_padded_towards_the_centre() {
    assert_eq!(volume_padding(40, 20), (15, 5));
    assert_eq!(volume_padding(10, 20), (5, 10));
    assert_eq!(volume_padding(0, 0), (0, 0));
}

#[test]
fn a_single_character_banner_is_its_glyph() {
    for c in "0123456789".chars() {
        assert_eq!(NumberDrawer::draw(&c.to_string()), NumberDrawer::enlarge(&c));
    }
    assert_eq!(NumberDrawer::draw("x"), "NONE\n");
}

#[test]
fn a_banner_of_two_parts_is_their_banners_side_by_side() {
    let whole = NumberDrawer::draw("123");
    let left = NumberDrawer::draw("1");
    let right = NumberDrawer::draw("23");
    let joined: Vec<String> = left.lines().zip(right.lines()).map(|(x, y)| format!("{x}{y}")).collect();
    let rows: Vec<String> = whole.lines().map(|l| l.to_string()).collect();
    assert_eq!(rows, joined);
    assert_eq!(rows.len(), 7);
}
