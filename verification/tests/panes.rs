use pulumimi::fields::{AppEnvironment, ResourceType};
use pulumimi::panes::{
    help_lines, help_topic, render_exit_screen, render_help_context, render_input_blade,
    AddTextLineToContainer,
    AddToggleLineToContainer, FocusIndex, HelpTopic, SetUserOption, SpanStyle,
    UiInputLineAppState, UiInputLineValue, UiLine, UiLineLabel, UiTextInputLine, UiToggleLine,
};
use pulumimi::session::App;

fn spans(line: &UiLine) -> Vec<(&str, SpanStyle)> {
    line.spans
        .iter()
        .map(|span| (span.text.as_str(), span.style))
        .collect()
}

#[test]
fn new_lines_carry_placeholders() {
    let text = UiTextInputLine::new();
    assert!(text.app_state.is_none());
    assert_eq!(text.label, "Label");
    assert_eq!(text.value, "Value");
    assert_eq!(text.index, 0);
    let toggle = UiToggleLine::new();
    assert!(toggle.app_state.is_none());
    assert_eq!(toggle.label, "Label");
    assert_eq!(toggle.index, 0);
}

#[test]
fn builders_set_their_field() {
    let app = App::new();
    let mut line = UiTextInputLine::new();
    line.app_state(&app).label("Name: ").value("shop").index(4);
    assert_eq!(line.label, "Name: ");
    assert_eq!(line.value, "shop");
    assert_eq!(line.index, 4);
    assert!(line.app_state.is_some());
    let mut toggle = UiToggleLine::new();
    toggle.app_state(&app).label("Dev").index(3);
    assert_eq!(toggle.label, "Dev");
    assert_eq!(toggle.index, 3);
}

#[test]
fn text_line_takes_the_next_row() {
    let app = App::new();
    let mut lines: Vec<UiLine> = Vec::new();
    let mut first = UiTextInputLine::new();
    first
        .app_state(&app)
        .label("Application Name: ")
        .value("shop")
        .container(&mut lines);
    let mut second = UiTextInputLine::new();
    second
        .app_state(&app)
        .label("Owner's Email: ")
        .value("")
        .container(&mut lines);
    assert_eq!(first.index, 0);
    assert_eq!(second.index, 1);
    assert_eq!(
        spans(&lines[0]),
        vec![
            ("> ", SpanStyle::Focused),
            ("Application Name: ", SpanStyle::Focused),
            ("shop", SpanStyle::Plain)
        ]
    );
    assert_eq!(
        spans(&lines[1]),
        vec![
            ("  ", SpanStyle::Normal),
            ("Owner's Email: ", SpanStyle::Normal),
            ("", SpanStyle::Plain)
        ]
    );
}

#[test]
fn form_has_fourteen_rows() {
    let mut app = App::new();
    app.focus = 9;
    app.config.environments = vec!["test".to_string()];
    app.config.additional_resources = vec!["cache".to_string(), "keyvault".to_string()];
    app.config.owner_email = "a@b.com".to_string();
    let lines = render_input_blade(&app);
    assert_eq!(lines.len(), 14);
    assert_eq!(
        spans(&lines[0]),
        vec![
            ("  ", SpanStyle::Normal),
            ("Application Name: ", SpanStyle::Normal),
            ("default_name", SpanStyle::Plain)
        ]
    );
    assert_eq!(
        spans(&lines[1]),
        vec![
            ("  ", SpanStyle::Normal),
            ("Owner's Email: ", SpanStyle::Normal),
            ("a@b.com", SpanStyle::Plain)
        ]
    );
    assert_eq!(
        spans(&lines[2]),
        vec![("  Environments:", SpanStyle::SectionTitle)]
    );
    assert_eq!(
        spans(&lines[3]),
        vec![("  [ ] ", SpanStyle::Plain), ("Dev", SpanStyle::Normal)]
    );
    assert_eq!(
        spans(&lines[4]),
        vec![("  [x] ", SpanStyle::Plain), ("Test", SpanStyle::Normal)]
    );
    assert_eq!(
        spans(&lines[7]),
        vec![("  Additional Resources:", SpanStyle::SectionTitle)]
    );
    assert_eq!(
        spans(&lines[8]),
        vec![("  [ ] ", SpanStyle::Plain), ("Azure SQL", SpanStyle::Normal)]
    );
    assert_eq!(
        spans(&lines[9]),
        vec![
            ("> [x] ", SpanStyle::Plain),
            ("Azure Cache for Redis", SpanStyle::Focused)
        ]
    );
    assert_eq!(
        spans(&lines[12]),
        vec![("  [x] ", SpanStyle::Plain), ("Azure Key Vault", SpanStyle::Normal)]
    );
    assert_eq!(
        spans(&lines[13]),
        vec![
            ("  [ ] ", SpanStyle::Plain),
            ("Azure Container Registry", SpanStyle::Normal)
        ]
    );
}

#[test]
fn toggle_line_is_ticked_by_its_row() {
    let mut app = App::new();
    app.focus = 1;
    app.config.additional_resources = Vec::new();
    let mut lines: Vec<UiLine> = Vec::new();
    for _ in 0..3 {
        lines.push(UiLine { spans: Vec::new() });
    }
    let mut toggle = UiToggleLine::new();
    toggle.app_state(&app).label("Anything").container(&mut lines);
    assert_eq!(toggle.index, 3);
    assert_eq!(
        spans(&lines[3]),
        vec![("  [x] ", SpanStyle::Plain), ("Anything", SpanStyle::Normal)]
    );
}

#[test]
fn user_option_shows_mark_box_and_key() {
    let mut app = App::new();
    app.focus = 4;
    app.config.environments = vec!["dev".to_string()];
    assert_eq!(AppEnvironment::Dev.set_user_option(&app), "  [x] dev");
    assert_eq!(AppEnvironment::Test.set_user_option(&app), "> [ ] test");
    app.focus = 13;
    assert_eq!(
        ResourceType::ContainerRegistry.set_user_option(&app),
        "> [x] containerregistry"
    );
    app.config.additional_resources = Vec::new();
    assert_eq!(ResourceType::Database.set_user_option(&app), "  [ ] database");
}

#[test]
fn help_follows_the_focus() {
    assert_eq!(help_topic(0), HelpTopic::ResourceName);
    assert_eq!(help_topic(1), HelpTopic::OwnerEmail);
    assert_eq!(help_topic(2), HelpTopic::General);
    for row in 3..=6 {
        assert_eq!(help_topic(row), HelpTopic::Environments);
    }
    assert_eq!(help_topic(7), HelpTopic::General);
    assert_eq!(help_topic(8), HelpTopic::Resource(ResourceType::Database));
    assert_eq!(help_topic(11), HelpTopic::Resource(ResourceType::Storage));
    assert_eq!(help_topic(40), HelpTopic::General);
    assert_eq!(
        help_lines(HelpTopic::Environments),
        vec![
            "Select the environments where the application will be deployed.",
            "",
            "Each environment maps to a specific Azure Subscription by default.",
            "",
            "Dev = dev-01",
            "Test = non-prod",
            "Stage = preprod",
            "Prod = prod-01"
        ]
    );
    assert_eq!(
        help_lines(HelpTopic::Resource(ResourceType::ContainerRegistry)),
        vec![
            " - Azure Container Registry.",
            "- Used for storing and managing container images."
        ]
    );
}

#[test]
fn help_pane_ends_with_the_message() {
    let app = App::new();
    let lines = render_help_context(&app, Some("Owner email cannot be empty.".to_string()));
    assert_eq!(lines.len(), 9 + 4 + 2);
    assert_eq!(spans(&lines[0]), vec![("Controls", SpanStyle::Heading)]);
    assert_eq!(spans(&lines[1]), vec![("\n", SpanStyle::Plain)]);
    assert_eq!(
        spans(&lines[4]),
        vec![(
            "  Spacebar - Toggle selection of current option.",
            SpanStyle::Hint
        )]
    );
    assert_eq!(spans(&lines[7]), vec![("Focus Help", SpanStyle::Heading)]);
    assert_eq!(
        spans(&lines[9]),
        vec![("Enter the application name.", SpanStyle::Help)]
    );
    assert_eq!(spans(&lines[13]), vec![("\n", SpanStyle::Plain)]);
    assert_eq!(
        spans(&lines[14]),
        vec![
            ("\u{26a0}  ", SpanStyle::WarningSign),
            ("Owner email cannot be empty.", SpanStyle::Warning)
        ]
    );
}

#[test]
fn help_pane_without_message_ends_blank() {
    let mut app = App::new();
    app.focus = 13;
    for message in [None, Some(String::new())] {
        let lines = render_help_context(&app, message);
        assert_eq!(lines.len(), 9 + 2 + 2);
        assert_eq!(spans(&lines[12]), vec![("", SpanStyle::Plain)]);
    }
}

#[test]
fn exit_screen_has_three_lines() {
    let lines = render_exit_screen();
    assert_eq!(lines.len(), 3);
    assert_eq!(
        spans(&lines[0]),
        vec![("Exit Screen - Operation Complete!", SpanStyle::Plain)]
    );
    assert_eq!(
        spans(&lines[2]),
        vec![("Press any key to exit.", SpanStyle::Plain)]
    );
}
