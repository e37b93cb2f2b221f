use hecto::cursor::scroll_axis;
use hecto::terminal::cursor_position;
use hecto::{Position, Size};

#[test]
fn window_stays_while_it_shows_the_cursor() {
    assert_eq!(scroll_axis(3, 3, 4), 3);
    assert_eq!(scroll_axis(3, 5, 4), 3);
    assert_eq!(scroll_axis(3, 6, 4), 3);
}

#[test]
fn window_goes_to_a_cursor_in_front_of_it() {
    assert_eq!(scroll_axis(3, 2, 4), 2);
    assert_eq!(scroll_axis(3, 0, 4), 0);
}

#[test]
fn window_brings_a_cursor_behind_it_to_its_far_edge() {
    assert_eq!(scroll_axis(3, 7, 4), 4);
    assert_eq!(scroll_axis(3, 20, 4), 17);
    assert_eq!(scroll_axis(0, 1, 1), 1);
}

#[test]
fn following_twice_is_following_once() {
    for offset in 0..12 {
        for cursor in 0..12 {
            for span in 1..5 {
                let once = scroll_axis(offset, cursor, span);
                assert_eq!(scroll_axis(once, cursor, span), once);
                assert!(once <= cursor && cursor < once + span);
            }
        }
    }
}

#[test]
fn window_without_room_goes_back_and_forth() {
    assert_eq!(scroll_axis(0, 5, 0), 6);
    assert_eq!(scroll_axis(6, 5, 0), 5);
    assert_eq!(scroll_axis(5, 5, 0), 6);
}

#[test]
fn following_stops_at_the_largest_index() {
    assert_eq!(scroll_axis(0, usize::MAX, 4), usize::MAX - 3);
    assert_eq!(scroll_axis(usize::MAX - 1, usize::MAX, 4), usize::MAX - 3);
    assert_eq!(scroll_axis(0, usize::MAX, 0), usize::MAX);
}

#[test]
fn screen_counts_from_one() {
    assert_eq!(cursor_position(&Position { x: 0, y: 0 }), (1, 1));
    assert_eq!(cursor_position(&Position { x: 79, y: 23 }), (80, 24));
    assert_eq!(cursor_position(&Position { x: 65534, y: 1 }), (65535, 2));
}

#[test]
fn screen_coordinates_keep_sixteen_bits() {
    assert_eq!(cursor_position(&Position { x: 65535, y: 65536 }), (0, 1));
    assert_eq!(cursor_position(&Position { x: usize::MAX, y: usize::MAX }), (65535, 65535));
}

#[test]
fn window_leaves_two_rows_for_the_bars() {
    assert_eq!(Size::on_screen(80, 24), Size { width: 80, height: 22 });
    assert_eq!(Size::on_screen(80, 2), Size { width: 80, height: 0 });
    assert_eq!(Size::on_screen(0, 0), Size { width: 0, height: 0 });
}

#[test]
fn default_position_is_the_origin() {
    assert_eq!(Position::default(), Position { x: 0, y: 0 });
}
