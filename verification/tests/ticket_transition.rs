use jira_tui::config::KeyConfig;
use jira_tui::event::key::Key;
use jira_tui::jira::error::SchemaError;
use jira_tui::jira::transitions::CustomFieldAllowedValues;
use jira_tui::jira::transitions::FieldKind;
use jira_tui::jira::transitions::TicketTransition;
use jira_tui::jira::transitions::TicketTransitions;
use jira_tui::jira::transitions::TransitionField;
use jira_tui::jira::transitions::TransitionFieldSchema;
use jira_tui::jira::transitions::TransitionFields;
use jira_tui::widgets::ticket_transition::TransitionRequest;
use jira_tui::widgets::ticket_transition::TransitionWidget;
use jira_tui::widgets::Area;
use jira_tui::widgets::EventState;
use jira_tui::widgets::InputMode;

const SELECT: &str = "com.atlassian.jira.plugin.system.customfieldtypes:select";

fn value(v: &str) -> CustomFieldAllowedValues {
    CustomFieldAllowedValues { value: v.to_string(), id: None }
}

fn field(custom: Option<&str>, values: Option<Vec<&str>>) -> TransitionField {
    TransitionField {
        allowed_values: values.map(|vs| vs.into_iter().map(value).collect()),
        schema: TransitionFieldSchema { custom: custom.map(|c| c.to_string()) },
    }
}

fn plain(id: &str, name: &str) -> TicketTransition {
    TicketTransition {
        id: id.to_string(),
        name: Some(name.to_string()),
        has_screen: Some(false),
        fields: None,
    }
}

fn with_screen(id: &str, name: &str, fields: Vec<(&str, TransitionField)>) -> TicketTransition {
    TicketTransition {
        id: id.to_string(),
        name: Some(name.to_string()),
        has_screen: Some(true),
        fields: Some(TransitionFields {
            values: fields.into_iter().map(|(k, f)| (k.to_string(), f)).collect(),
        }),
    }
}

fn resolve(values: Vec<&str>) -> TicketTransition {
    with_screen(
        "31",
        "Resolve",
        vec![
            ("summary", field(None, None)),
            ("customfield_10050", field(Some(SELECT), Some(values))),
        ],
    )
}

fn widget(transitions: Vec<TicketTransition>) -> TransitionWidget {
    TransitionWidget::new(transitions, KeyConfig::default())
}

fn floating(values: Vec<&str>) -> TransitionWidget {
    let mut w = widget(vec![resolve(values)]);
    assert_eq!(w.event(Key::Enter), Ok(EventState::Consumed));
    assert!(w.is_float_screen_open());
    w
}

#[test]
fn new_selects_the_first_transition() {
    let w = widget(vec![plain("1", "Done"), plain("2", "Reopen")]);
    assert_eq!(w.selected_index(), Some(0));
    assert_eq!(w.selected_transition(), Some(&plain("1", "Done")));
    assert_eq!(w.transitions().len(), 2);
    assert!(!w.is_float_screen_open());
    assert!(!w.push_transition());
    assert_eq!(w.push_transition_reason(), None);
    assert_eq!(w.float_screen_list(), None);
    assert_eq!(w.selected_reason_index(), None);
    assert_eq!(w.comment_float_screen(), "");
    assert_eq!(w.input_mode(), InputMode::Normal);
}

#[test]
fn new_on_no_transitions_selects_nothing() {
    let w = widget(vec![]);
    assert_eq!(w.selected_index(), None);
    assert_eq!(w.selected_transition(), None);
}

#[test]
fn navigation_on_empty_list_is_a_no_op() {
    let mut w = widget(vec![]);
    w.next(1);
    assert_eq!(w.selected_index(), None);
    w.previous(1);
    assert_eq!(w.selected_index(), None);
    w.go_to_top();
    assert_eq!(w.selected_index(), None);
    w.go_to_bottom();
    assert_eq!(w.selected_index(), None);
    w.next(10);
    w.previous(10);
    assert_eq!(w.selected_index(), None);
    assert_eq!(w.selected_transition(), None);
    assert!(!w.push_transition());
    assert!(!w.is_float_screen_open());
}

#[test]
fn keys_on_empty_list_change_nothing() {
    let mut w = widget(vec![]);
    for key in [
        Key::Char('j'),
        Key::Char('k'),
        Key::Ctrl('d'),
        Key::Ctrl('u'),
        Key::Char('g'),
        Key::Char('G'),
        Key::Enter,
    ] {
        assert_eq!(w.event(key), Ok(EventState::Consumed));
        assert_eq!(w.selected_index(), None);
        assert!(!w.push_transition());
        assert!(!w.is_float_screen_open());
    }
    assert_eq!(w.event(Key::Char('x')), Ok(EventState::NotConsumed));
    assert_eq!(w.take_submission(), None);
}

#[test]
fn navigation_on_empty_list_keeps_a_cursor_set_by_the_renderer() {
    let mut w = widget(vec![]);
    w.list_state().select(Some(4));
    w.next(3);
    assert_eq!(w.selected_index(), Some(4));
    w.previous(3);
    assert_eq!(w.selected_index(), Some(4));
    w.go_to_top();
    assert_eq!(w.selected_index(), Some(4));
    w.go_to_bottom();
    assert_eq!(w.selected_index(), Some(4));
    assert_eq!(w.selected_transition(), None);
}

#[test]
fn next_and_previous_clamp_to_the_list() {
    let mut w = widget(vec![plain("1", "A"), plain("2", "B"), plain("3", "C")]);
    w.next(1);
    assert_eq!(w.selected_index(), Some(1));
    w.next(1);
    assert_eq!(w.selected_index(), Some(2));
    w.next(1);
    assert_eq!(w.selected_index(), Some(2));
    w.next(usize::MAX);
    assert_eq!(w.selected_index(), Some(2));
    w.previous(1);
    assert_eq!(w.selected_index(), Some(1));
    w.previous(10);
    assert_eq!(w.selected_index(), Some(0));
    w.previous(1);
    assert_eq!(w.selected_index(), Some(0));
    w.go_to_bottom();
    assert_eq!(w.selected_index(), Some(2));
    assert_eq!(w.selected_transition(), Some(&plain("3", "C")));
    w.go_to_top();
    assert_eq!(w.selected_index(), Some(0));
}

#[test]
fn scroll_keys_move_by_one_and_by_ten() {
    let names: Vec<String> = (0..30).map(|i| format!("T{}", i)).collect();
    let mut w = widget(names.iter().map(|n| plain(n, n)).collect());
    assert_eq!(w.event(Key::Char('j')), Ok(EventState::Consumed));
    assert_eq!(w.selected_index(), Some(1));
    assert_eq!(w.event(Key::Ctrl('d')), Ok(EventState::Consumed));
    assert_eq!(w.selected_index(), Some(11));
    assert_eq!(w.event(Key::Char('k')), Ok(EventState::Consumed));
    assert_eq!(w.selected_index(), Some(10));
    assert_eq!(w.event(Key::Ctrl('u')), Ok(EventState::Consumed));
    assert_eq!(w.selected_index(), Some(0));
    assert_eq!(w.event(Key::Char('G')), Ok(EventState::Consumed));
    assert_eq!(w.selected_index(), Some(29));
    assert_eq!(w.event(Key::Char('g')), Ok(EventState::Consumed));
    assert_eq!(w.selected_index(), Some(0));
    assert_eq!(w.event(Key::Tab), Ok(EventState::NotConsumed));
    assert_eq!(w.selected_index(), Some(0));
}

#[test]
fn confirm_without_screen_marks_ready() {
    let mut w = widget(vec![plain("1", "Done")]);
    assert_eq!(w.event(Key::Enter), Ok(EventState::Consumed));
    assert!(w.push_transition());
    assert!(!w.is_float_screen_open());
    assert_eq!(w.float_screen_list(), None);
    assert_eq!(w.push_transition_reason(), None);
    assert_eq!(
        w.take_submission(),
        Some(TransitionRequest { transition_id: "1".to_string(), reason: None, comment: None })
    );
    assert!(!w.push_transition());
    assert_eq!(w.take_submission(), None);
}

#[test]
fn confirm_with_absent_screen_flag_marks_ready() {
    let mut t = plain("5", "Close");
    t.has_screen = None;
    let mut w = widget(vec![t]);
    assert_eq!(w.check_transition_floating_screen(), Ok(false));
    assert_eq!(w.event(Key::Enter), Ok(EventState::Consumed));
    assert!(w.push_transition());
    assert!(!w.is_float_screen_open());
}

#[test]
fn confirm_with_screen_loads_the_allowed_values() {
    let mut w = widget(vec![plain("1", "Done"), resolve(vec!["Fixed", "Won't Do", "Duplicate"])]);
    w.next(1);
    assert_eq!(w.event(Key::Enter), Ok(EventState::Consumed));
    assert!(w.is_float_screen_open());
    assert_eq!(
        w.float_screen_list(),
        Some(&vec![value("Fixed"), value("Won't Do"), value("Duplicate")])
    );
    assert_eq!(w.selected_reason_index(), Some(0));
    assert_eq!(w.selected_transition_reason(), Some(&value("Fixed")));
    assert_eq!(w.input_mode(), InputMode::Normal);
    assert!(!w.push_transition());
    assert_eq!(w.selected_index(), Some(1));
}

#[test]
fn confirm_with_screen_and_no_values_opens_an_empty_screen() {
    let mut w = widget(vec![resolve(vec![])]);
    assert_eq!(w.check_transition_floating_screen(), Ok(true));
    assert!(w.is_float_screen_open());
    assert_eq!(w.float_screen_list(), Some(&vec![]));
    assert_eq!(w.selected_reason_index(), Some(0));
    assert_eq!(w.selected_transition_reason(), None);
    assert_eq!(w.event(Key::Enter), Ok(EventState::Consumed));
    assert!(w.is_float_screen_open());
    assert!(!w.push_transition());
}

#[test]
fn confirm_with_screen_takes_the_last_select_field() {
    let t = with_screen(
        "7",
        "Escalate",
        vec![
            ("customfield_1", field(Some(SELECT), Some(vec!["a", "b"]))),
            ("customfield_2", field(Some("com.example:textfield"), Some(vec!["x"]))),
            ("customfield_3", field(Some("com.example:select"), Some(vec!["c"]))),
            ("customfield_4", field(Some(SELECT), None)),
            ("customfield_5", field(None, Some(vec!["y"]))),
        ],
    );
    assert_eq!(t.screen_values(), Ok(vec![value("c")]));
    let mut w = widget(vec![t]);
    assert_eq!(w.event(Key::Enter), Ok(EventState::Consumed));
    assert_eq!(w.float_screen_list(), Some(&vec![value("c")]));
}

#[test]
fn confirm_with_screen_and_no_fields_is_a_schema_error() {
    let mut t = plain("9", "Broken");
    t.has_screen = Some(true);
    let mut w = widget(vec![t]);
    assert_eq!(w.event(Key::Enter), Err(SchemaError::MissingFields));
    assert!(!w.is_float_screen_open());
    assert!(!w.push_transition());
    assert_eq!(w.float_screen_list(), None);
    assert_eq!(w.selected_index(), Some(0));
}

#[test]
fn confirm_with_screen_and_no_select_field_is_a_schema_error() {
    let t = with_screen(
        "9",
        "Broken",
        vec![
            ("summary", field(None, Some(vec!["x"]))),
            ("customfield_1", field(Some("com.example:multiselect"), Some(vec!["y"]))),
            ("customfield_2", field(Some(SELECT), None)),
            ("customfield_3", field(Some("select"), Some(vec!["z"]))),
        ],
    );
    assert_eq!(t.screen_values(), Err(SchemaError::NoSelectField));
    let mut w = widget(vec![t]);
    assert_eq!(w.check_transition_floating_screen(), Err(SchemaError::NoSelectField));
    assert_eq!(w.event(Key::Enter), Err(SchemaError::NoSelectField));
    assert!(!w.is_float_screen_open());
    assert!(!w.push_transition());
}

#[test]
fn confirm_with_screen_and_empty_schema_is_a_schema_error() {
    let t = with_screen("9", "Broken", vec![]);
    let mut w = widget(vec![t]);
    assert_eq!(w.event(Key::Enter), Err(SchemaError::NoSelectField));
    assert!(!w.is_float_screen_open());
}

#[test]
fn field_kinds_go_by_the_end_of_the_custom_type() {
    let kind = |c: Option<&str>| TransitionFieldSchema { custom: c.map(|s| s.to_string()) }.kind();
    assert_eq!(kind(Some(SELECT)), FieldKind::Select);
    assert_eq!(kind(Some(":select")), FieldKind::Select);
    assert_eq!(kind(Some("select")), FieldKind::Unrecognized);
    assert_eq!(kind(Some("x:select ")), FieldKind::Unrecognized);
    assert_eq!(kind(Some("x:selects")), FieldKind::Unrecognized);
    assert_eq!(kind(Some("x:Select")), FieldKind::Unrecognized);
    assert_eq!(kind(Some("")), FieldKind::Unrecognized);
    assert_eq!(kind(None), FieldKind::Unrecognized);
    assert!(field(Some(SELECT), Some(vec![])).is_selectable());
    assert!(!field(Some(SELECT), None).is_selectable());
    assert!(!field(None, Some(vec!["a"])).is_selectable());
}

#[test]
fn floating_screen_navigation_clamps_to_the_values() {
    let mut w = floating(vec!["a", "b", "c"]);
    assert_eq!(w.event(Key::Char('j')), Ok(EventState::Consumed));
    assert_eq!(w.selected_reason_index(), Some(1));
    assert_eq!(w.selected_index(), Some(0));
    assert_eq!(w.event(Key::Ctrl('d')), Ok(EventState::Consumed));
    assert_eq!(w.selected_reason_index(), Some(2));
    assert_eq!(w.event(Key::Char('k')), Ok(EventState::Consumed));
    assert_eq!(w.selected_reason_index(), Some(1));
    assert_eq!(w.event(Key::Ctrl('u')), Ok(EventState::Consumed));
    assert_eq!(w.selected_reason_index(), Some(0));
    assert_eq!(w.event(Key::Char('G')), Ok(EventState::Consumed));
    assert_eq!(w.selected_reason_index(), Some(2));
    assert_eq!(w.selected_transition_reason(), Some(&value("c")));
    assert_eq!(w.event(Key::Char('g')), Ok(EventState::Consumed));
    assert_eq!(w.selected_reason_index(), Some(0));
    assert_eq!(w.event(Key::Char('x')), Ok(EventState::NotConsumed));
}

#[test]
fn go_to_bottom_reason_goes_by_the_values_not_the_transitions() {
    let mut w = widget(vec![resolve(vec!["a", "b", "c", "d"]), plain("1", "Done")]);
    assert_eq!(w.event(Key::Enter), Ok(EventState::Consumed));
    w.go_to_bottom_reason();
    assert_eq!(w.selected_reason_index(), Some(3));
    w.go_to_top_reason();
    assert_eq!(w.selected_reason_index(), Some(0));
    w.next_reason(2);
    assert_eq!(w.selected_reason_index(), Some(2));
    w.next_reason(2);
    assert_eq!(w.selected_reason_index(), Some(3));
    w.previous_reason(1);
    assert_eq!(w.selected_reason_index(), Some(2));
    w.previous_reason(5);
    assert_eq!(w.selected_reason_index(), Some(0));
}

#[test]
fn reason_navigation_without_a_screen_is_a_no_op() {
    let mut w = widget(vec![plain("1", "Done")]);
    w.next_reason(1);
    w.previous_reason(1);
    w.go_to_top_reason();
    w.go_to_bottom_reason();
    assert_eq!(w.selected_reason_index(), None);
    assert_eq!(w.selected_transition_reason(), None);
    assert_eq!(w.selected_index(), Some(0));
}

#[test]
fn floating_confirm_without_selection_is_a_no_op() {
    let mut w = floating(vec!["a", "b"]);
    w.float_screen_list_state().select(None);
    assert_eq!(w.selected_transition_reason(), None);
    assert_eq!(w.event(Key::Enter), Ok(EventState::Consumed));
    assert!(w.is_float_screen_open());
    assert!(!w.push_transition());
    assert_eq!(w.push_transition_reason(), None);
    assert_eq!(w.float_screen_list(), Some(&vec![value("a"), value("b")]));
    assert_eq!(w.selected_reason_index(), None);
    assert_eq!(w.take_submission(), None);
}

#[test]
fn floating_confirm_with_selection_resolves_the_field() {
    let mut w = floating(vec!["Fixed", "Duplicate"]);
    assert_eq!(w.event(Key::Char('j')), Ok(EventState::Consumed));
    assert_eq!(w.event(Key::Enter), Ok(EventState::Consumed));
    assert!(w.push_transition());
    assert_eq!(w.push_transition_reason(), Some(&"Duplicate".to_string()));
    assert!(!w.is_float_screen_open());
    assert_eq!(w.float_screen_list(), None);
    assert_eq!(w.selected_reason_index(), None);
    assert_eq!(w.input_mode(), InputMode::Normal);
    assert_eq!(
        w.take_submission(),
        Some(TransitionRequest {
            transition_id: "31".to_string(),
            reason: Some("Duplicate".to_string()),
            comment: None,
        })
    );
}

#[test]
fn editing_fills_the_comment() {
    let mut w = floating(vec!["Fixed"]);
    assert_eq!(w.event(Key::Tab), Ok(EventState::Consumed));
    assert_eq!(w.input_mode(), InputMode::Editing);
    for c in "jk ok!".chars() {
        assert_eq!(w.event(Key::Char(c)), Ok(EventState::Consumed));
    }
    assert_eq!(w.comment_float_screen(), "jk ok!");
    assert_eq!(w.selected_reason_index(), Some(0));
    assert_eq!(w.event(Key::Backspace), Ok(EventState::Consumed));
    assert_eq!(w.comment_float_screen(), "jk ok");
    assert_eq!(w.event(Key::Esc), Ok(EventState::Consumed));
    assert_eq!(w.input_mode(), InputMode::Normal);
    assert_eq!(w.comment_float_screen(), "jk ok");
    assert!(w.is_float_screen_open());
    assert_eq!(w.event(Key::Backspace), Ok(EventState::NotConsumed));
    assert_eq!(w.comment_float_screen(), "jk ok");
}

#[test]
fn backspace_on_an_empty_comment_is_a_no_op() {
    let mut w = floating(vec!["Fixed"]);
    assert_eq!(w.event(Key::Tab), Ok(EventState::Consumed));
    assert_eq!(w.event(Key::Backspace), Ok(EventState::Consumed));
    assert_eq!(w.comment_float_screen(), "");
    assert_eq!(w.event(Key::Char('é')), Ok(EventState::Consumed));
    assert_eq!(w.event(Key::Backspace), Ok(EventState::Consumed));
    assert_eq!(w.comment_float_screen(), "");
}

#[test]
fn confirm_while_editing_submits_with_the_comment() {
    let mut w = floating(vec!["Fixed"]);
    assert_eq!(w.event(Key::Tab), Ok(EventState::Consumed));
    for c in "done".chars() {
        assert_eq!(w.event(Key::Char(c)), Ok(EventState::Consumed));
    }
    assert_eq!(w.event(Key::Enter), Ok(EventState::Consumed));
    assert!(w.push_transition());
    assert!(!w.is_float_screen_open());
    assert_eq!(w.input_mode(), InputMode::Normal);
    assert_eq!(w.comment_float_screen(), "done");
    assert_eq!(
        w.take_submission(),
        Some(TransitionRequest {
            transition_id: "31".to_string(),
            reason: Some("Fixed".to_string()),
            comment: Some("done".to_string()),
        })
    );
    assert_eq!(w.comment_float_screen(), "");
    assert_eq!(w.push_transition_reason(), None);
    assert!(!w.push_transition());
}

#[test]
fn cancel_closes_the_screen_and_discards_the_comment() {
    let mut w = floating(vec!["Fixed", "Duplicate"]);
    assert_eq!(w.event(Key::Char('j')), Ok(EventState::Consumed));
    assert_eq!(w.event(Key::Tab), Ok(EventState::Consumed));
    for c in "half".chars() {
        assert_eq!(w.event(Key::Char(c)), Ok(EventState::Consumed));
    }
    assert_eq!(w.event(Key::Esc), Ok(EventState::Consumed));
    assert!(w.is_float_screen_open());
    assert_eq!(w.comment_float_screen(), "half");
    assert_eq!(w.event(Key::Esc), Ok(EventState::Consumed));
    assert!(!w.is_float_screen_open());
    assert_eq!(w.comment_float_screen(), "");
    assert_eq!(w.float_screen_list(), None);
    assert_eq!(w.selected_reason_index(), None);
    assert!(!w.push_transition());
    assert_eq!(w.push_transition_reason(), None);
    assert_eq!(w.selected_index(), Some(0));
    assert_eq!(w.event(Key::Enter), Ok(EventState::Consumed));
    assert!(w.is_float_screen_open());
    assert_eq!(w.selected_reason_index(), Some(0));
}

#[test]
fn update_starts_over() {
    let mut w = floating(vec!["Fixed"]);
    assert_eq!(w.event(Key::Tab), Ok(EventState::Consumed));
    assert_eq!(w.event(Key::Char('x')), Ok(EventState::Consumed));
    w.update(TicketTransitions { transitions: vec![plain("1", "Done"), plain("2", "Reopen")] });
    assert_eq!(w.transitions(), &vec![plain("1", "Done"), plain("2", "Reopen")]);
    assert_eq!(w.selected_index(), Some(0));
    assert!(!w.is_float_screen_open());
    assert_eq!(w.float_screen_list(), None);
    assert_eq!(w.comment_float_screen(), "");
    assert_eq!(w.input_mode(), InputMode::Normal);
    assert!(!w.push_transition());
    w.next(1);
    w.update(TicketTransitions { transitions: vec![] });
    assert_eq!(w.selected_index(), None);
    assert_eq!(w.selected_transition(), None);
}

#[test]
fn take_submission_needs_a_ready_transition() {
    let mut w = widget(vec![plain("1", "Done")]);
    assert_eq!(w.take_submission(), None);
    assert_eq!(w.selected_index(), Some(0));
}

#[test]
fn names_skip_transitions_without_one() {
    let mut nameless = plain("2", "");
    nameless.name = None;
    let w = widget(vec![plain("1", "Done"), nameless, plain("3", "Reopen")]);
    assert_eq!(w.names(), vec!["Done".to_string(), "Reopen".to_string()]);
    assert_eq!(widget(vec![]).names(), Vec::<String>::new());
}

#[test]
fn popup_area_is_centred_and_fits_the_frame() {
    assert_eq!(
        TransitionWidget::popup_area(200, 60),
        Area { x: 60, y: 20, width: 80, height: 20 }
    );
    assert_eq!(
        TransitionWidget::popup_area(81, 21),
        Area { x: 0, y: 0, width: 80, height: 20 }
    );
    assert_eq!(
        TransitionWidget::popup_area(40, 10),
        Area { x: 0, y: 0, width: 40, height: 10 }
    );
    assert_eq!(TransitionWidget::popup_area(0, 0), Area { x: 0, y: 0, width: 0, height: 0 });
    assert_eq!(
        TransitionWidget::popup_area(u16::MAX, u16::MAX),
        Area { x: 32727, y: 32757, width: 80, height: 20 }
    );
}

#[test]
fn rebinding_keys_rebinds_the_actions() {
    let mut config = KeyConfig::default();
    config.enter = Key::Char('y');
    config.esc = Key::Char('n');
    config.next = Key::Char('e');
    let mut w = TransitionWidget::new(vec![resolve(vec!["Fixed"])], config);
    assert_eq!(w.event(Key::Enter), Ok(EventState::NotConsumed));
    assert_eq!(w.event(Key::Char('y')), Ok(EventState::Consumed));
    assert!(w.is_float_screen_open());
    assert_eq!(w.event(Key::Char('e')), Ok(EventState::Consumed));
    assert_eq!(w.input_mode(), InputMode::Editing);
    assert_eq!(w.event(Key::Char('n')), Ok(EventState::Consumed));
    assert_eq!(w.comment_float_screen(), "n");
    assert_eq!(w.event(Key::Esc), Ok(EventState::Consumed));
    assert_eq!(w.event(Key::Char('n')), Ok(EventState::Consumed));
    assert!(!w.is_float_screen_open());
    assert_eq!(w.comment_float_screen(), "");
}

#[test]
fn event_state_says_whether_it_was_consumed() {
    assert!(EventState::Consumed.is_consumed());
    assert!(!EventState::NotConsumed.is_consumed());
}

#[test]
fn default_key_config_is_vi_style() {
    let c = KeyConfig::default();
    assert_eq!(c.scroll_up, Key::Char('k'));
    assert_eq!(c.scroll_down, Key::Char('j'));
    assert_eq!(c.scroll_up_multiple_lines, Key::Ctrl('u'));
    assert_eq!(c.scroll_down_multiple_lines, Key::Ctrl('d'));
    assert_eq!(c.scroll_to_top, Key::Char('g'));
    assert_eq!(c.scroll_to_bottom, Key::Char('G'));
    assert_eq!(c.enter, Key::Enter);
    assert_eq!(c.esc, Key::Esc);
    assert_eq!(c.next, Key::Tab);
    assert_eq!(c.open_browser, Key::Char('o'));
    assert_eq!(c.quit, Key::Char('q'));
    assert_eq!(c.exit, Key::Ctrl('c'));
}

#[test]
fn screen_field_is_the_last_select_field_with_values() {
    let t = with_screen(
        "7",
        "Escalate",
        vec![
            ("customfield_1", field(Some(SELECT), Some(vec!["a", "b"]))),
            ("customfield_2", field(None, None)),
            ("customfield_3", field(Some(SELECT), Some(vec!["c"]))),
            ("customfield_4", field(Some(SELECT), None)),
        ],
    );
    assert_eq!(t.screen_field(), Ok(2));
    assert_eq!(resolve(vec!["x"]).screen_field(), Ok(1));
    assert_eq!(plain("1", "Done").screen_field(), Err(SchemaError::MissingFields));
    assert_eq!(with_screen("2", "Empty", vec![]).screen_field(), Err(SchemaError::NoSelectField));
    assert!(resolve(vec![]).check_has_screen());
    assert!(!plain("1", "Done").check_has_screen());
}
