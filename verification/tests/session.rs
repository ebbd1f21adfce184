use pulumimi::fields::{
    field_at, field_descriptor, AppEnvironment, EnumIndex, FieldKind, ResourceType, TextField,
};
use pulumimi::input::{dispatch, Action, Direction, KeyCode, KeyEvent, KeyEventKind};
use pulumimi::session::{App, TerminalReason};

fn press(code: KeyCode) -> KeyEvent {
    KeyEvent::new(code)
}

fn type_text(app: &mut App, text: &str) {
    for c in text.chars() {
        app.step(press(KeyCode::Char(c)));
    }
}

fn move_to(app: &mut App, row: usize) {
    while app.focus != row {
        app.step(press(KeyCode::Down));
    }
}

#[test]
fn fresh_session_starts_on_the_name() {
    let app = App::new();
    assert!(!app.exit);
    assert!(!app.confirmation);
    assert!(!app.show_exit_screen);
    assert_eq!(app.focus, 0);
    assert_eq!(app.validation_error, None);
    assert_eq!(app.config.resource_name, "default_name");
    assert_eq!(app.config.owner_email, "");
    assert_eq!(app.config.environments.len(), 4);
    assert_eq!(app.config.additional_resources.len(), 6);
    assert_eq!(app.terminal_reason(), None);
}

#[test]
fn focus_walks_down_past_the_headers() {
    let mut app = App::new();
    let mut seen = Vec::new();
    for _ in 0..12 {
        seen.push(app.focus);
        app.cycle_focus(1);
    }
    assert_eq!(seen, vec![0, 1, 3, 4, 5, 6, 8, 9, 10, 11, 12, 13]);
    assert_eq!(app.focus, 0);
}

#[test]
fn focus_walks_up_past_the_headers() {
    let mut app = App::new();
    let mut seen = Vec::new();
    for _ in 0..12 {
        seen.push(app.focus);
        app.cycle_focus(-1);
    }
    assert_eq!(seen, vec![0, 13, 12, 11, 10, 9, 8, 6, 5, 4, 3, 1]);
    assert_eq!(app.focus, 0);
}

#[test]
fn full_turn_returns_from_every_field() {
    for start in [0usize, 1, 3, 4, 5, 6, 8, 9, 10, 11, 12, 13] {
        let mut app = App::new();
        app.focus = start;
        for _ in 0..12 {
            app.cycle_focus(1);
            assert!(app.focus != 2 && app.focus != 7 && app.focus < 14);
        }
        assert_eq!(app.focus, start);
        for _ in 0..12 {
            app.cycle_focus(-1);
            assert!(app.focus != 2 && app.focus != 7 && app.focus < 14);
        }
        assert_eq!(app.focus, start);
    }
}

#[test]
fn focus_wraps_at_both_ends() {
    let mut app = App::new();
    app.focus = 13;
    app.cycle_focus(1);
    assert_eq!(app.focus, 0);
    app.cycle_focus(-1);
    assert_eq!(app.focus, 13);
}

#[test]
fn tab_moves_like_down() {
    let mut app = App::new();
    app.step(press(KeyCode::Tab));
    assert_eq!(app.focus, 1);
    app.step(press(KeyCode::Tab));
    assert_eq!(app.focus, 3);
    app.step(press(KeyCode::Up));
    assert_eq!(app.focus, 1);
}

#[test]
fn toggle_one_removes_a_selected_environment() {
    let mut app = App::new();
    app.handle_keycode_right_env(AppEnvironment::Test);
    assert_eq!(app.config.environments, vec!["dev", "stage", "prod"]);
}

#[test]
fn toggle_one_adds_an_unselected_environment() {
    let mut app = App::new();
    app.config.environments = vec!["prod".to_string()];
    app.handle_keycode_right_env(AppEnvironment::Dev);
    assert_eq!(app.config.environments, vec!["prod", "dev"]);
}

#[test]
fn toggle_one_twice_never_duplicates() {
    let mut app = App::new();
    app.handle_keycode_right_resource(ResourceType::Cache);
    assert_eq!(
        app.config.additional_resources,
        vec!["database", "servicebus", "storage", "keyvault", "containerregistry"]
    );
    app.handle_keycode_right_resource(ResourceType::Cache);
    assert_eq!(
        app.config.additional_resources,
        vec!["database", "servicebus", "storage", "keyvault", "containerregistry", "cache"]
    );
    assert!(app.config.has_resource(ResourceType::Cache));
}

#[test]
fn toggle_all_clears_a_full_group() {
    let mut app = App::new();
    app.environments_toggle_all();
    assert!(app.config.environments.is_empty());
    app.resources_toggle_all();
    assert!(app.config.additional_resources.is_empty());
}

#[test]
fn toggle_all_completes_a_partial_group() {
    let mut app = App::new();
    app.config.environments = vec!["stage".to_string()];
    app.environments_toggle_all();
    assert_eq!(app.config.environments, vec!["stage", "dev", "test", "prod"]);
    app.config.additional_resources = Vec::new();
    app.resources_toggle_all();
    assert_eq!(
        app.config.additional_resources,
        vec![
            "database",
            "cache",
            "servicebus",
            "storage",
            "keyvault",
            "containerregistry"
        ]
    );
}

#[test]
fn toggle_all_twice_alternates() {
    let mut app = App::new();
    app.config.environments = vec!["dev".to_string(), "prod".to_string()];
    app.environments_toggle_all();
    assert_eq!(app.config.environments.len(), 4);
    app.environments_toggle_all();
    assert!(app.config.environments.is_empty());
    app.environments_toggle_all();
    assert_eq!(app.config.environments, vec!["dev", "test", "stage", "prod"]);
}

#[test]
fn space_flips_the_focused_toggle() {
    let mut app = App::new();
    move_to(&mut app, 5);
    app.step(press(KeyCode::Char(' ')));
    assert!(!app.config.has_environment(AppEnvironment::Stage));
    assert_eq!(app.config.environments, vec!["dev", "test", "prod"]);
    app.step(press(KeyCode::Char(' ')));
    assert!(app.config.has_environment(AppEnvironment::Stage));
    move_to(&mut app, 13);
    app.step(press(KeyCode::Char(' ')));
    assert!(!app.config.has_resource(ResourceType::ContainerRegistry));
    assert_eq!(app.config.additional_resources.len(), 5);
}

#[test]
fn letters_on_a_toggle_do_nothing() {
    let mut app = App::new();
    move_to(&mut app, 4);
    app.step(press(KeyCode::Char('x')));
    assert_eq!(app.config.environments, vec!["dev", "test", "stage", "prod"]);
    assert_eq!(app.config.resource_name, "default_name");
    assert_eq!(app.focus, 4);
}

#[test]
fn right_flips_the_group_of_the_focus() {
    let mut app = App::new();
    move_to(&mut app, 3);
    app.step(press(KeyCode::Right));
    assert!(app.config.environments.is_empty());
    assert_eq!(app.config.additional_resources.len(), 6);
    move_to(&mut app, 10);
    app.step(press(KeyCode::Right));
    assert!(app.config.additional_resources.is_empty());
    app.step(press(KeyCode::Right));
    assert_eq!(app.config.additional_resources.len(), 6);
}

#[test]
fn right_on_a_text_field_does_nothing() {
    let mut app = App::new();
    app.step(press(KeyCode::Right));
    assert_eq!(app.config.environments.len(), 4);
    assert_eq!(app.config.additional_resources.len(), 6);
}

#[test]
fn typing_edits_the_focused_text_field() {
    let mut app = App::new();
    app.step(press(KeyCode::Delete));
    assert_eq!(app.config.resource_name, "");
    type_text(&mut app, "shop 1");
    assert_eq!(app.config.resource_name, "shop 1");
    app.step(press(KeyCode::Backspace));
    assert_eq!(app.config.resource_name, "shop ");
    app.step(press(KeyCode::Down));
    type_text(&mut app, "a@b.com");
    assert_eq!(app.config.owner_email, "a@b.com");
    assert_eq!(app.config.resource_name, "shop ");
}

#[test]
fn backspace_on_an_empty_field_keeps_it_empty() {
    let mut app = App::new();
    app.focus = 1;
    app.step(press(KeyCode::Backspace));
    assert_eq!(app.config.owner_email, "");
}

#[test]
fn text_keys_on_a_toggle_are_ignored() {
    let mut app = App::new();
    move_to(&mut app, 8);
    app.step(press(KeyCode::Backspace));
    app.step(press(KeyCode::Delete));
    assert_eq!(app.config.resource_name, "default_name");
    assert_eq!(app.config.additional_resources.len(), 6);
}

#[test]
fn releases_and_repeats_are_ignored() {
    let mut app = App::new();
    for kind in [KeyEventKind::Release, KeyEventKind::Repeat] {
        for code in [
            KeyCode::Down,
            KeyCode::Char('z'),
            KeyCode::Esc,
            KeyCode::Enter,
            KeyCode::Delete,
        ] {
            app.step(KeyEvent { code, kind });
        }
    }
    assert_eq!(app.focus, 0);
    assert_eq!(app.config.resource_name, "default_name");
    assert!(!app.exit);
    assert_eq!(app.validation_error, None);
}

#[test]
fn unmapped_keys_are_ignored() {
    let mut app = App::new();
    app.step(press(KeyCode::Left));
    app.step(press(KeyCode::Other));
    assert_eq!(app.focus, 0);
    assert!(!app.exit);
    assert_eq!(app.config.resource_name, "default_name");
}

#[test]
fn dispatch_maps_keys_by_field_kind() {
    assert_eq!(
        dispatch(&press(KeyCode::Char('a')), 0),
        Some(Action::InsertChar('a'))
    );
    assert_eq!(
        dispatch(&press(KeyCode::Char(' ')), 1),
        Some(Action::InsertChar(' '))
    );
    assert_eq!(dispatch(&press(KeyCode::Char(' ')), 3), Some(Action::ToggleOne));
    assert_eq!(dispatch(&press(KeyCode::Char('a')), 3), None);
    assert_eq!(dispatch(&press(KeyCode::Char(' ')), 2), None);
    assert_eq!(dispatch(&press(KeyCode::Right), 9), Some(Action::ToggleAll));
    assert_eq!(dispatch(&press(KeyCode::Right), 1), None);
    assert_eq!(dispatch(&press(KeyCode::Backspace), 1), Some(Action::Backspace));
    assert_eq!(dispatch(&press(KeyCode::Backspace), 6), None);
    assert_eq!(dispatch(&press(KeyCode::Delete), 0), Some(Action::ClearField));
    assert_eq!(dispatch(&press(KeyCode::Delete), 13), None);
    assert_eq!(
        dispatch(&press(KeyCode::Down), 7),
        Some(Action::MoveFocus(Direction::Forward))
    );
    assert_eq!(
        dispatch(&press(KeyCode::Tab), 0),
        Some(Action::MoveFocus(Direction::Forward))
    );
    assert_eq!(
        dispatch(&press(KeyCode::Up), 0),
        Some(Action::MoveFocus(Direction::Backward))
    );
    assert_eq!(dispatch(&press(KeyCode::Enter), 5), Some(Action::Confirm));
    assert_eq!(dispatch(&press(KeyCode::Esc), 5), Some(Action::Cancel));
    assert_eq!(
        dispatch(
            &KeyEvent {
                code: KeyCode::Esc,
                kind: KeyEventKind::Release
            },
            5
        ),
        None
    );
}

#[test]
fn catalogue_maps_rows_to_fields() {
    assert_eq!(field_at(0), Some(FieldKind::Text(TextField::ResourceName)));
    assert_eq!(field_at(1), Some(FieldKind::Text(TextField::OwnerEmail)));
    assert_eq!(field_at(2), None);
    assert_eq!(field_at(3), Some(FieldKind::Environment(AppEnvironment::Dev)));
    assert_eq!(field_at(6), Some(FieldKind::Environment(AppEnvironment::Prod)));
    assert_eq!(field_at(7), None);
    assert_eq!(field_at(8), Some(FieldKind::Resource(ResourceType::Database)));
    assert_eq!(
        field_at(13),
        Some(FieldKind::Resource(ResourceType::ContainerRegistry))
    );
    assert_eq!(field_at(14), None);
    assert_eq!(AppEnvironment::Stage.value(), 5);
    assert_eq!(ResourceType::Keyvault.value(), 12);
    assert_eq!(AppEnvironment::Stage.key(), "stage");
    assert_eq!(ResourceType::ServiceBus.key(), "servicebus");
}

#[test]
fn failed_confirm_keeps_the_record() {
    let mut app = App::new();
    app.config.environments = vec!["dev".to_string(), "prod".to_string()];
    app.config.additional_resources = vec!["cache".to_string()];
    app.focus = 9;
    app.step(press(KeyCode::Enter));
    assert!(!app.exit);
    assert!(!app.confirmation);
    assert!(!app.show_exit_screen);
    assert_eq!(
        app.validation_error,
        Some("Owner email cannot be empty.".to_string())
    );
    assert_eq!(app.config.resource_name, "default_name");
    assert_eq!(app.config.owner_email, "");
    assert_eq!(app.config.environments, vec!["dev", "prod"]);
    assert_eq!(app.config.additional_resources, vec!["cache"]);
    assert_eq!(app.focus, 9);
    assert_eq!(app.terminal_reason(), None);
}

#[test]
fn confirm_selections_sets_the_flag_only_on_a_valid_record() {
    let mut app = App::new();
    app.confirm_selections();
    assert!(!app.confirmation);
    assert_eq!(
        app.validation_error,
        Some("Owner email cannot be empty.".to_string())
    );
    app.config.owner_email = "a@b.com".to_string();
    app.confirm_selections();
    assert!(app.confirmation);
    assert_eq!(app.validation_error, None);
    assert!(!app.exit);
}

#[test]
fn retry_after_a_failed_confirm_succeeds() {
    let mut app = App::new();
    app.step(press(KeyCode::Enter));
    assert!(app.validation_error.is_some());
    app.step(press(KeyCode::Down));
    type_text(&mut app, "a@b.com");
    app.step(press(KeyCode::Enter));
    assert!(app.exit);
    assert!(app.confirmation);
    assert!(app.show_exit_screen);
    assert_eq!(app.validation_error, None);
    assert_eq!(app.terminal_reason(), Some(TerminalReason::Confirmed));
    let config = app.into_config().unwrap();
    assert_eq!(config.resource_name, "default_name");
    assert_eq!(config.owner_email, "a@b.com");
    assert_eq!(config.environments.len(), 4);
}

#[test]
fn cancel_ends_without_a_record() {
    let mut app = App::new();
    app.step(press(KeyCode::Esc));
    assert!(app.exit);
    assert!(!app.confirmation);
    assert!(app.show_exit_screen);
    assert_eq!(app.terminal_reason(), Some(TerminalReason::Cancelled));
    assert!(app.into_config().is_none());
}

#[test]
fn cancel_after_a_failed_confirm_keeps_the_message() {
    for row in [0usize, 1, 3, 6, 8, 13] {
        let mut app = App::new();
        app.focus = row;
        app.step(press(KeyCode::Enter));
        assert_eq!(
            app.validation_error,
            Some("Owner email cannot be empty.".to_string())
        );
        app.step(press(KeyCode::Esc));
        assert!(app.exit);
        assert!(!app.confirmation);
        assert_eq!(app.terminal_reason(), Some(TerminalReason::Cancelled));
        assert_eq!(
            app.validation_error,
            Some("Owner email cannot be empty.".to_string())
        );
        assert_eq!(app.focus, row);
        assert_eq!(app.config.resource_name, "default_name");
        assert_eq!(app.config.environments.len(), 4);
        assert!(app.into_config().is_none());
    }
}

#[test]
fn cancel_without_a_message_leaves_none() {
    let mut app = App::new();
    app.focus = 5;
    app.handle_key_event(press(KeyCode::Esc));
    assert!(app.exit);
    assert!(!app.confirmation);
    assert_eq!(app.validation_error, None);
    assert_eq!(app.focus, 5);
    assert_eq!(app.config.owner_email, "");
}

#[test]
fn ended_session_takes_no_input() {
    let mut app = App::new();
    app.step(press(KeyCode::Esc));
    app.step(press(KeyCode::Down));
    app.step(press(KeyCode::Char('q')));
    app.step(press(KeyCode::Enter));
    assert_eq!(app.focus, 0);
    assert_eq!(app.config.resource_name, "default_name");
    assert_eq!(app.terminal_reason(), Some(TerminalReason::Cancelled));
}

#[test]
fn running_session_hands_out_nothing() {
    let app = App::new();
    assert!(app.into_config().is_none());
}

#[test]
fn run_feeds_the_events_in_order() {
    let mut app = App::new();
    let events = vec![
        press(KeyCode::Down),
        press(KeyCode::Char('m')),
        press(KeyCode::Char('e')),
        press(KeyCode::Down),
        press(KeyCode::Char(' ')),
        press(KeyCode::Enter),
        press(KeyCode::Char(' ')),
    ];
    app.run(&events);
    assert_eq!(app.config.owner_email, "me");
    assert_eq!(app.config.environments, vec!["test", "stage", "prod"]);
    assert_eq!(app.focus, 3);
    assert_eq!(app.terminal_reason(), Some(TerminalReason::Confirmed));
}

#[test]
fn apply_cancel_resets_a_pending_confirmation() {
    let mut app = App::new();
    app.config.owner_email = "a@b.com".to_string();
    app.handle_key_event(press(KeyCode::Enter));
    assert!(app.confirmation);
    assert!(!app.exit);
    app.apply(Action::Cancel);
    assert!(app.exit);
    assert!(!app.confirmation);
    assert_eq!(app.terminal_reason(), Some(TerminalReason::Cancelled));
}

#[test]
fn settle_sends_an_invalid_confirmed_session_back() {
    let mut app = App::new();
    app.confirmation = true;
    app.settle();
    assert!(!app.exit);
    assert!(!app.confirmation);
    assert_eq!(
        app.validation_error,
        Some("Owner email cannot be empty.".to_string())
    );
}

#[test]
fn catalogue_entries_carry_row_and_label() {
    let name = field_descriptor(0).unwrap();
    assert_eq!(name.index, 0);
    assert_eq!(name.kind, FieldKind::Text(TextField::ResourceName));
    assert_eq!(name.label, "Application Name: ");
    let contact = field_descriptor(1).unwrap();
    assert_eq!(contact.label, "Owner's Email: ");
    let stage = field_descriptor(5).unwrap();
    assert_eq!(stage.index, 5);
    assert_eq!(stage.kind, FieldKind::Environment(AppEnvironment::Stage));
    assert_eq!(stage.label, "Stage");
    let bus = field_descriptor(10).unwrap();
    assert_eq!(bus.kind, FieldKind::Resource(ResourceType::ServiceBus));
    assert_eq!(bus.label, "Azure Service Bus");
    for row in [2usize, 7, 14, 100] {
        assert!(field_descriptor(row).is_none());
    }
    let fields = (0..14).filter(|row| field_descriptor(*row).is_some()).count();
    assert_eq!(fields, 12);
}

#[test]
fn confirmed_record_can_be_copied() {
    let mut app = App::new();
    app.config.owner_email = "a@b.com".to_string();
    let before = app.config.clone();
    app.step(press(KeyCode::Enter));
    let config = app.into_config().unwrap();
    assert_eq!(config.resource_name, before.resource_name);
    assert_eq!(config.owner_email, before.owner_email);
    assert_eq!(config.environments, before.environments);
    assert_eq!(config.additional_resources, before.additional_resources);
}
