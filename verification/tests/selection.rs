use jira_tui::text::count_line_breaks;
use jira_tui::text::ends_with;
use jira_tui::widgets::centered_area;
use jira_tui::widgets::selection::move_down;
use jira_tui::widgets::selection::move_to_bottom;
use jira_tui::widgets::selection::move_to_top;
use jira_tui::widgets::selection::move_up;
use jira_tui::widgets::Area;
use jira_tui::text::chars_of;

#[test]
fn move_down_adds_and_clamps() {
    assert_eq!(move_down(Some(0), 1, 5), Some(1));
    assert_eq!(move_down(Some(2), 2, 5), Some(4));
    assert_eq!(move_down(Some(2), 3, 5), Some(4));
    assert_eq!(move_down(Some(4), 10, 5), Some(4));
    assert_eq!(move_down(Some(0), usize::MAX, 5), Some(4));
    assert_eq!(move_down(Some(usize::MAX), usize::MAX, 5), Some(4));
    assert_eq!(move_down(Some(9), 0, 5), Some(4));
    assert_eq!(move_down(Some(3), 0, 5), Some(3));
    assert_eq!(move_down(None, 1, 5), None);
    assert_eq!(move_down(Some(0), 1, 1), Some(0));
}

#[test]
fn move_up_subtracts_and_clamps() {
    assert_eq!(move_up(Some(4), 1, 5), Some(3));
    assert_eq!(move_up(Some(4), 4, 5), Some(0));
    assert_eq!(move_up(Some(4), 10, 5), Some(0));
    assert_eq!(move_up(Some(0), 1, 5), Some(0));
    assert_eq!(move_up(Some(9), 1, 5), Some(4));
    assert_eq!(move_up(Some(9), 6, 5), Some(3));
    assert_eq!(move_up(Some(usize::MAX), 0, 5), Some(4));
    assert_eq!(move_up(None, 1, 5), None);
}

#[test]
fn jumps_go_to_the_ends() {
    assert_eq!(move_to_top(Some(3), 5), Some(0));
    assert_eq!(move_to_top(None, 5), Some(0));
    assert_eq!(move_to_bottom(Some(1), 5), Some(4));
    assert_eq!(move_to_bottom(None, 5), Some(4));
    assert_eq!(move_to_bottom(None, usize::MAX), Some(usize::MAX - 1));
}

#[test]
fn nothing_moves_on_an_empty_list() {
    for selected in [None, Some(0), Some(3), Some(usize::MAX)] {
        assert_eq!(move_down(selected, 1, 0), selected);
        assert_eq!(move_down(selected, 10, 0), selected);
        assert_eq!(move_up(selected, 1, 0), selected);
        assert_eq!(move_up(selected, 10, 0), selected);
        assert_eq!(move_to_top(selected, 0), selected);
        assert_eq!(move_to_bottom(selected, 0), selected);
    }
}

#[test]
fn ends_with_compares_the_last_characters() {
    assert!(ends_with("customfieldtypes:select", ":select"));
    assert!(ends_with(":select", ":select"));
    assert!(ends_with("anything", ""));
    assert!(ends_with("", ""));
    assert!(!ends_with("select", ":select"));
    assert!(!ends_with("", ":select"));
    assert!(!ends_with(":select:", ":select"));
    assert!(!ends_with("x:selecT", ":select"));
    assert!(ends_with("naïve:sélect", ":sélect"));
    assert!(!ends_with("naïve:select", ":sélect"));
}

#[test]
fn line_breaks_are_counted() {
    assert_eq!(count_line_breaks(""), 0);
    assert_eq!(count_line_breaks("one line"), 0);
    assert_eq!(count_line_breaks("a\nb"), 1);
    assert_eq!(count_line_breaks("\n\n\n"), 3);
    assert_eq!(count_line_breaks("é\nü\r\n"), 2);
}

#[test]
fn centered_area_sits_in_the_middle() {
    assert_eq!(
        centered_area(100, 50, 80, 20),
        Area { x: 10, y: 15, width: 80, height: 20 }
    );
    assert_eq!(centered_area(101, 51, 80, 20), Area { x: 10, y: 15, width: 80, height: 20 });
    assert_eq!(centered_area(80, 20, 80, 20), Area { x: 0, y: 0, width: 80, height: 20 });
    assert_eq!(centered_area(10, 30, 80, 20), Area { x: 0, y: 5, width: 10, height: 20 });
    assert_eq!(centered_area(7, 3, 0, 0), Area { x: 3, y: 1, width: 0, height: 0 });
}

#[test]
fn chars_of_lists_the_characters() {
    assert_eq!(chars_of(""), Vec::<char>::new());
    assert_eq!(chars_of("aé\n"), vec!['a', 'é', '\n']);
}
