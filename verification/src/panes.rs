//! The form as plain lines of styled text, ready for a renderer.
//!
//! A line is a list of spans, and a span is a text with the name of a
//! style; which colours a style stands for is left to the renderer.

use vstd::prelude::*;
use vstd::string::StringExecFns;
use crate::fields::{field_at, spec_field_at};
use crate::fields::{AppEnvironment, EnumIndex, FieldKind, ResourceType, TextField};
use crate::session::{App, AppView};
use crate::scan::{spec_lines, spec_split_once, split_lines, split_once};
use crate::text::{slices, texts};

verus! {

/// The look of a span.
#[derive(Clone, Copy, Debug, PartialEq, Eq, Structural)]
pub enum SpanStyle {
    /// Unstyled text.
    Plain,
    /// The row that has the focus.
    Focused,
    /// A row that does not have the focus.
    Normal,
    /// The title of a group of toggles.
    SectionTitle,
    /// A heading of the help pane.
    Heading,
    /// A line that explains a key.
    Hint,
    /// A line of help on the focused field.
    Help,
    /// The sign in front of a validation message.
    WarningSign,
    /// A validation message.
    Warning,
    /// The key of a line of the preview.
    PreviewKey,
    /// The value of a line of the preview.
    PreviewValue,
}

/// A stretch of text in one style.
#[derive(Debug)]
pub struct UiSpan {
    pub text: String,
    pub style: SpanStyle,
}

/// One line of a pane.
#[derive(Debug)]
pub struct UiLine {
    pub spans: Vec<UiSpan>,
}

impl View for UiSpan {
    type V = (Seq<char>, SpanStyle);

    open spec fn view(&self) -> (Seq<char>, SpanStyle) {
        (self.text@, self.style)
    }
}

impl View for UiLine {
    type V = Seq<(Seq<char>, SpanStyle)>;

    open spec fn view(&self) -> Seq<(Seq<char>, SpanStyle)> {
        Seq::new(self.spans@.len(), |i: int| self.spans@[i]@)
    }
}

/// The spans of each line of a pane.
pub open spec fn line_views(lines: Seq<UiLine>) -> Seq<Seq<(Seq<char>, SpanStyle)>> {
    Seq::new(lines.len(), |i: int| lines[i]@)
}

impl UiSpan {
    pub fn new(text: &str, style: SpanStyle) -> (span: UiSpan)
        ensures
            span@ == (text@, style),
    {
        UiSpan { text: text.to_owned(), style }
    }
}

impl UiLine {
    /// A line of one span.
    pub fn single(text: &str, style: SpanStyle) -> (line: UiLine)
        ensures
            line@ == seq![(text@, style)],
    {
        let mut spans: Vec<UiSpan> = Vec::new();
        spans.push(UiSpan::new(text, style));
        let line = UiLine { spans };
        assert(line@ == seq![(text@, style)]);
        line
    }
}

/// The mark in front of a row: an arrow on the focused row.
pub open spec fn spec_marker(focused: bool) -> Seq<char> {
    if focused {
        "> "@
    } else {
        "  "@
    }
}

/// The style of a row's name.
pub open spec fn spec_emphasis(focused: bool) -> SpanStyle {
    if focused {
        SpanStyle::Focused
    } else {
        SpanStyle::Normal
    }
}

/// The box of a toggle, ticked where it is selected.
pub open spec fn spec_checkbox(checked: bool) -> Seq<char> {
    if checked {
        "[x]"@
    } else {
        "[ ]"@
    }
}

/// Whether the toggle on a row is selected; no other row is.
pub open spec fn spec_checked(app: AppView, row: usize) -> bool {
    match spec_field_at(row) {
        Some(FieldKind::Environment(environment)) => app.config.has_environment(environment),
        Some(FieldKind::Resource(resource)) => app.config.has_resource(resource),
        _ => false,
    }
}

/// The line of a text field: mark and name in the row's style, then the
/// value as typed.
pub open spec fn spec_text_line(focused: bool, label: Seq<char>, value: Seq<char>) -> Seq<
    (Seq<char>, SpanStyle),
> {
    seq![
        (spec_marker(focused), spec_emphasis(focused)),
        (label, spec_emphasis(focused)),
        (value, SpanStyle::Plain),
    ]
}

/// The line of a toggle: mark and box, then the name in the row's style.
pub open spec fn spec_toggle_line(focused: bool, checked: bool, label: Seq<char>) -> Seq<
    (Seq<char>, SpanStyle),
> {
    seq![
        (spec_marker(focused) + spec_checkbox(checked) + " "@, SpanStyle::Plain),
        (label, spec_emphasis(focused)),
    ]
}

fn marker(focused: bool) -> (text: &'static str)
    ensures
        text@ == spec_marker(focused),
{
    if focused {
        "> "
    } else {
        "  "
    }
}

fn emphasis(focused: bool) -> (style: SpanStyle)
    ensures
        style == spec_emphasis(focused),
{
    if focused {
        SpanStyle::Focused
    } else {
        SpanStyle::Normal
    }
}

fn checkbox(checked: bool) -> (text: &'static str)
    ensures
        text@ == spec_checkbox(checked),
{
    if checked {
        "[x]"
    } else {
        "[ ]"
    }
}

/// Whether the toggle on a row is selected.
pub fn checked(app: &App, row: usize) -> (ticked: bool)
    ensures
        ticked == spec_checked(app@, row),
{
    match field_at(row) {
        Some(FieldKind::Environment(environment)) => app.config.has_environment(environment),
        Some(FieldKind::Resource(resource)) => app.config.has_resource(resource),
        _ => false,
    }
}

/// A line of text input under construction.
pub struct UiTextInputLine<'a, 'b> {
    pub app_state: Option<&'b App>,
    pub label: &'a str,
    pub value: &'a str,
    pub index: usize,
}

/// A toggle line under construction.
pub struct UiToggleLine<'a, 'b> {
    pub app_state: Option<&'b App>,
    pub label: &'a str,
    pub index: usize,
}

/// The label and the value of a text field.
#[derive(Debug)]
pub struct TextInputFieldProperties {
    pub label: &'static str,
    pub value: &'static str,
}

/// Setting the row of a line.
pub trait FocusIndex: Sized {
    spec fn with_index(&self, index: usize) -> Self;

    fn index(&mut self, index: usize) -> (line: &mut Self)
        ensures
            *final(self) == *final(line),
            *line == old(self).with_index(index),
    ;
}

/// Setting the session a line is drawn from.
pub trait UiInputLineAppState<'a>: Sized {
    spec fn with_app_state(&self, app_state: &'a App) -> Self;

    fn app_state(&mut self, app_state: &'a App) -> (line: &mut Self)
        ensures
            *final(self) == *final(line),
            *line == old(self).with_app_state(app_state),
    ;
}

/// Setting the name of a line.
pub trait UiLineLabel<'a>: Sized {
    spec fn with_label(&self, label: &'a str) -> Self;

    fn label(&mut self, label: &'a str) -> (line: &mut Self)
        ensures
            *final(self) == *final(line),
            *line == old(self).with_label(label),
    ;
}

/// Setting the value of a line.
pub trait UiInputLineValue<'a>: Sized {
    spec fn with_value(&self, value: &'a str) -> Self;

    fn value(&mut self, value: &'a str) -> (line: &mut Self)
        ensures
            *final(self) == *final(line),
            *line == old(self).with_value(value),
    ;
}

impl<'a, 'b> UiTextInputLine<'a, 'b> {
    pub fn new() -> (line: Self)
        ensures
            line.app_state.is_none(),
            line.label@ == "Label"@,
            line.value@ == "Value"@,
            line.index == 0,
    {
        Self { app_state: None, label: "Label", value: "Value", index: 0 }
    }
}

impl<'a, 'b> UiToggleLine<'a, 'b> {
    pub fn new() -> (line: Self)
        ensures
            line.app_state.is_none(),
            line.label@ == "Label"@,
            line.index == 0,
    {
        Self { app_state: None, label: "Label", index: 0 }
    }
}

impl<'a, 'b> FocusIndex for UiTextInputLine<'a, 'b> {
    open spec fn with_index(&self, index: usize) -> Self {
        UiTextInputLine { index, ..*self }
    }

    fn index(&mut self, index: usize) -> (line: &mut Self) {
        self.index = index;
        self
    }
}

impl<'a, 'b: 'a> UiInputLineAppState<'b> for UiTextInputLine<'a, 'b> {
    open spec fn with_app_state(&self, app_state: &'b App) -> Self {
        UiTextInputLine { app_state: Some(app_state), ..*self }
    }

    fn app_state(&mut self, app_state: &'b App) -> (line: &mut Self) {
        self.app_state = Some(app_state);
        self
    }
}

impl<'a, 'b> UiLineLabel<'a> for UiTextInputLine<'a, 'b> {
    open spec fn with_label(&self, label: &'a str) -> Self {
        UiTextInputLine { label, ..*self }
    }

    fn label(&mut self, label: &'a str) -> (line: &mut Self) {
        self.label = label;
        self
    }
}

impl<'a, 'b> UiInputLineValue<'a> for UiTextInputLine<'a, 'b> {
    open spec fn with_value(&self, value: &'a str) -> Self {
        UiTextInputLine { value, ..*self }
    }

    fn value(&mut self, value: &'a str) -> (line: &mut Self) {
        self.value = value;
        self
    }
}

impl<'a, 'b> FocusIndex for UiToggleLine<'a, 'b> {
    open spec fn with_index(&self, index: usize) -> Self {
        UiToggleLine { index, ..*self }
    }

    fn index(&mut self, index: usize) -> (line: &mut Self) {
        self.index = index;
        self
    }
}

impl<'a, 'b: 'a> UiInputLineAppState<'b> for UiToggleLine<'a, 'b> {
    open spec fn with_app_state(&self, app_state: &'b App) -> Self {
        UiToggleLine { app_state: Some(app_state), ..*self }
    }

    fn app_state(&mut self, app_state: &'b App) -> (line: &mut Self) {
        self.app_state = Some(app_state);
        self
    }
}

impl<'a, 'b> UiLineLabel<'a> for UiToggleLine<'a, 'b> {
    open spec fn with_label(&self, label: &'a str) -> Self {
        UiToggleLine { label, ..*self }
    }

    fn label(&mut self, label: &'a str) -> (line: &mut Self) {
        self.label = label;
        self
    }
}

/// Appending a text line to the lines of a pane.
pub trait AddTextLineToContainer<'a, 'b>: Sized {
    spec fn text_line(&self) -> UiTextInputLine<'a, 'b>;

    /// Takes the next row of the pane as the line's row and appends the
    /// line, drawn as focused where the session's focus is on that row.
    fn container(&mut self, container: &mut Vec<UiLine>) -> (line: &mut UiTextInputLine<'a, 'b>)
        requires
            old(self).text_line().app_state.is_some(),
        ensures
            final(self).text_line() == *final(line),
            *line == old(self).text_line().with_index(old(container).len()),
            line_views(final(container)@) == line_views(old(container)@).push(
                spec_text_line(
                    old(self).text_line().app_state.unwrap().focus == old(container).len(),
                    old(self).text_line().label@,
                    old(self).text_line().value@,
                ),
            ),
    ;
}

/// Appending a toggle line to the lines of a pane.
pub trait AddToggleLineToContainer<'a, 'b>: Sized {
    spec fn toggle_line(&self) -> UiToggleLine<'a, 'b>;

    /// Takes the next row of the pane as the line's row and appends the
    /// line, drawn as focused where the session's focus is on that row and
    /// ticked where the toggle of that row is selected.
    fn container(&mut self, container: &mut Vec<UiLine>) -> (line: &mut UiToggleLine<'a, 'b>)
        requires
            old(self).toggle_line().app_state.is_some(),
        ensures
            final(self).toggle_line() == *final(line),
            *line == old(self).toggle_line().with_index(old(container).len()),
            line_views(final(container)@) == line_views(old(container)@).push(
                spec_toggle_line(
                    old(self).toggle_line().app_state.unwrap().focus == old(container).len(),
                    spec_checked(
                        old(self).toggle_line().app_state.unwrap()@,
                        old(container).len(),
                    ),
                    old(self).toggle_line().label@,
                ),
            ),
    ;
}

impl<'a, 'b> AddTextLineToContainer<'a, 'b> for UiTextInputLine<'a, 'b> {
    open spec fn text_line(&self) -> UiTextInputLine<'a, 'b> {
        *self
    }

    fn container(&mut self, container: &mut Vec<UiLine>) -> (line: &mut UiTextInputLine<'a, 'b>) {
        self.index = container.len();
        let app = self.app_state.unwrap();
        let focused = app.focus == self.index;
        let style = emphasis(focused);
        let mut spans: Vec<UiSpan> = Vec::new();
        spans.push(UiSpan::new(marker(focused), style));
        spans.push(UiSpan::new(self.label, style));
        spans.push(UiSpan::new(self.value, SpanStyle::Plain));
        let built = UiLine { spans };
        assert(built@ == spec_text_line(focused, self.label@, self.value@));
        container.push(built);
        assert(line_views(container@) == line_views(old(container)@).push(built@));
        self
    }
}

impl<'a, 'b> AddToggleLineToContainer<'a, 'b> for UiToggleLine<'a, 'b> {
    open spec fn toggle_line(&self) -> UiToggleLine<'a, 'b> {
        *self
    }

    fn container(&mut self, container: &mut Vec<UiLine>) -> (line: &mut UiToggleLine<'a, 'b>) {
        self.index = container.len();
        let app = self.app_state.unwrap();
        let focused = app.focus == self.index;
        let ticked = checked(app, self.index);
        let mut lead = String::from_str(marker(focused));
        lead.append(checkbox(ticked));
        lead.append(" ");
        let mut spans: Vec<UiSpan> = Vec::new();
        spans.push(UiSpan { text: lead, style: SpanStyle::Plain });
        spans.push(UiSpan::new(self.label, emphasis(focused)));
        let built = UiLine { spans };
        assert(built@ == spec_toggle_line(focused, ticked, self.label@));
        container.push(built);
        assert(line_views(container@) == line_views(old(container)@).push(built@));
        self
    }
}

/// The line of a toggle as one text.
pub trait SetUserOption {
    spec fn spec_user_option(&self, app_state: AppView) -> Seq<char>;

    fn set_user_option(&self, app_state: &App) -> (text: String)
        ensures
            text@ == self.spec_user_option(app_state@),
    ;
}

impl SetUserOption for AppEnvironment {
    /// Mark, box, a blank and the environment's key.
    open spec fn spec_user_option(&self, app_state: AppView) -> Seq<char> {
        spec_marker(app_state.focus == self.spec_value()) + spec_checkbox(
            app_state.config.has_environment(*self),
        ) + " "@ + self.spec_key()
    }

    fn set_user_option(&self, app_state: &App) -> (text: String) {
        let mut text = String::from_str(marker(app_state.focus == self.value()));
        text.append(checkbox(app_state.config.has_environment(*self)));
        text.append(" ");
        text.append(self.key());
        text
    }
}

impl SetUserOption for ResourceType {
    /// Mark, box, a blank and the resource's key.
    open spec fn spec_user_option(&self, app_state: AppView) -> Seq<char> {
        spec_marker(app_state.focus == self.spec_value()) + spec_checkbox(
            app_state.config.has_resource(*self),
        ) + " "@ + self.spec_key()
    }

    fn set_user_option(&self, app_state: &App) -> (text: String) {
        let mut text = String::from_str(marker(app_state.focus == self.value()));
        text.append(checkbox(app_state.config.has_resource(*self)));
        text.append(" ");
        text.append(self.key());
        text
    }
}

/// What a text field holds.
pub open spec fn spec_text_value(app: AppView, field: TextField) -> Seq<char> {
    match field {
        TextField::ResourceName => app.config.resource_name,
        TextField::OwnerEmail => app.config.owner_email,
    }
}

/// The line shown on a row of the form: a field's line for a field, and
/// the title of the group below for a section header.
pub open spec fn spec_input_row(app: AppView, row: usize) -> Seq<(Seq<char>, SpanStyle)> {
    match spec_field_at(row) {
        Some(FieldKind::Text(field)) => spec_text_line(
            app.focus == row,
            field.spec_label(),
            spec_text_value(app, field),
        ),
        Some(FieldKind::Environment(environment)) => spec_toggle_line(
            app.focus == row,
            app.config.has_environment(environment),
            environment.spec_label(),
        ),
        Some(FieldKind::Resource(resource)) => spec_toggle_line(
            app.focus == row,
            app.config.has_resource(resource),
            resource.spec_label(),
        ),
        None => if row == 2 {
            seq![("  Environments:"@, SpanStyle::SectionTitle)]
        } else {
            seq![("  Additional Resources:"@, SpanStyle::SectionTitle)]
        },
    }
}

/// The lines of the form, one for each row from the top down.
pub fn render_input_blade(app_state: &App) -> (lines: Vec<UiLine>)
    ensures
        lines@.len() == 14,
        forall|row: int|
            0 <= row < 14 ==> #[trigger] line_views(lines@)[row] == spec_input_row(
                app_state@,
                row as usize,
            ),
{
    let mut lines: Vec<UiLine> = Vec::new();
    let mut row: usize = 0;
    while row < 14
        invariant
            row <= 14,
            lines@.len() == row,
            forall|r: int|
                0 <= r < row ==> #[trigger] line_views(lines@)[r] == spec_input_row(
                    app_state@,
                    r as usize,
                ),
        decreases 14 - row,
    {
        let ghost before = line_views(lines@);
        match field_at(row) {
            Some(FieldKind::Text(TextField::ResourceName)) => {
                UiTextInputLine::new().app_state(app_state).label(
                    TextField::ResourceName.label(),
                ).value(
                    app_state.config.resource_name.as_str(),
                ).container(&mut lines);
            },
            Some(FieldKind::Text(TextField::OwnerEmail)) => {
                UiTextInputLine::new().app_state(app_state).label(
                    TextField::OwnerEmail.label(),
                ).value(
                    app_state.config.owner_email.as_str(),
                ).container(&mut lines);
            },
            Some(FieldKind::Environment(environment)) => {
                UiToggleLine::new().app_state(app_state).label(environment.label()).container(
                    &mut lines,
                );
            },
            Some(FieldKind::Resource(resource)) => {
                UiToggleLine::new().app_state(app_state).label(resource.label()).container(
                    &mut lines,
                );
            },
            None => {
                let title = if row == 2 {
                    "  Environments:"
                } else {
                    "  Additional Resources:"
                };
                let header = UiLine::single(title, SpanStyle::SectionTitle);
                lines.push(header);
                assert(line_views(lines@) == before.push(header@));
            },
        }
        assert(line_views(lines@) == before.push(spec_input_row(app_state@, row)));
        row += 1;
    }
    lines
}

/// What the help pane explains.
#[derive(Clone, Copy, Debug, PartialEq, Eq, Structural)]
pub enum HelpTopic {
    ResourceName,
    OwnerEmail,
    Environments,
    Resource(ResourceType),
    /// The keys of the form, for a row that holds no field.
    General,
}

/// The topic that goes with the focus: the focused field, with the four
/// environments taken together.
pub open spec fn spec_help_topic(focus: usize) -> HelpTopic {
    match spec_field_at(focus) {
        Some(FieldKind::Text(TextField::ResourceName)) => HelpTopic::ResourceName,
        Some(FieldKind::Text(TextField::OwnerEmail)) => HelpTopic::OwnerEmail,
        Some(FieldKind::Environment(_)) => HelpTopic::Environments,
        Some(FieldKind::Resource(resource)) => HelpTopic::Resource(resource),
        None => HelpTopic::General,
    }
}

pub fn help_topic(focus: usize) -> (topic: HelpTopic)
    ensures
        topic == spec_help_topic(focus),
{
    match field_at(focus) {
        Some(FieldKind::Text(TextField::ResourceName)) => HelpTopic::ResourceName,
        Some(FieldKind::Text(TextField::OwnerEmail)) => HelpTopic::OwnerEmail,
        Some(FieldKind::Environment(_)) => HelpTopic::Environments,
        Some(FieldKind::Resource(resource)) => HelpTopic::Resource(resource),
        None => HelpTopic::General,
    }
}

/// The help on a topic, line by line.
pub open spec fn spec_help_lines(topic: HelpTopic) -> Seq<Seq<char>> {
    match topic {
        HelpTopic::ResourceName => seq![
            "Enter the application name."@,
            ""@,
            "This will be used as a base name for all resources."@,
            "Typically you would use some convention that I have to find out about."@,
        ],
        HelpTopic::OwnerEmail => seq![
            "Provide the owner's email."@,
            ""@,
            "Notifications/Alerts will be sent here."@,
            "This is typically a project lead or other. I need to confirm."@,
        ],
        HelpTopic::Environments => seq![
            "Select the environments where the application will be deployed."@,
            ""@,
            "Each environment maps to a specific Azure Subscription by default."@,
            ""@,
            "Dev = dev-01"@,
            "Test = non-prod"@,
            "Stage = preprod"@,
            "Prod = prod-01"@,
        ],
        HelpTopic::Resource(ResourceType::Database) => seq![
            "Include Azure SQL resources in the project."@,
            ""@,
            "- Azure SQL Server."@,
            "- Azure SQL Database."@,
            "- Managed relational database service for SQL Server."@,
        ],
        HelpTopic::Resource(ResourceType::Cache) => seq![
            "Include Azure Cache for Redis resource in the project."@,
            ""@,
            "- Azure Cache for Redis."@,
            "- In-memory data structure store, used as a database, cache, and message broker."@,
        ],
        HelpTopic::Resource(ResourceType::ServiceBus) => seq![
            "Include Azure Service Bus resource in the project."@,
            ""@,
            "- Azure Service Bus."@,
            "- Fully managed enterprise message broker with message queues and publish-subscribe topics."@,
        ],
        HelpTopic::Resource(ResourceType::Storage) => seq![
            "Include Azure Storage resource in the project."@,
            ""@,
            "- Azure Storage Account."@,
            "- Durable, highly available, and massively scalable cloud storage solution."@,
        ],
        HelpTopic::Resource(ResourceType::Keyvault) => seq![
            "Include Azure Key Vault resource in the project."@,
            ""@,
            "- Azure Key Vault."@,
            "- Used for storing secrets, keys, and certificates securely."@,
        ],
        HelpTopic::Resource(ResourceType::ContainerRegistry) => seq![
            " - Azure Container Registry."@,
            "- Used for storing and managing container images."@,
        ],
        HelpTopic::General => seq![
            "Use arrow keys to navigate. Press 'Enter' to confirm selections."@,
        ],
    }
}

pub fn help_lines(topic: HelpTopic) -> (lines: Vec<&'static str>)
    ensures
        slices(lines@) == spec_help_lines(topic),
{
    let lines = match topic {
        HelpTopic::ResourceName => vec![
            "Enter the application name.",
            "",
            "This will be used as a base name for all resources.",
            "Typically you would use some convention that I have to find out about.",
        ],
        HelpTopic::OwnerEmail => vec![
            "Provide the owner's email.",
            "",
            "Notifications/Alerts will be sent here.",
            "This is typically a project lead or other. I need to confirm.",
        ],
        HelpTopic::Environments => vec![
            "Select the environments where the application will be deployed.",
            "",
            "Each environment maps to a specific Azure Subscription by default.",
            "",
            "Dev = dev-01",
            "Test = non-prod",
            "Stage = preprod",
            "Prod = prod-01",
        ],
        HelpTopic::Resource(ResourceType::Database) => vec![
            "Include Azure SQL resources in the project.",
            "",
            "- Azure SQL Server.",
            "- Azure SQL Database.",
            "- Managed relational database service for SQL Server.",
        ],
        HelpTopic::Resource(ResourceType::Cache) => vec![
            "Include Azure Cache for Redis resource in the project.",
            "",
            "- Azure Cache for Redis.",
            "- In-memory data structure store, used as a database, cache, and message broker.",
        ],
        HelpTopic::Resource(ResourceType::ServiceBus) => vec![
            "Include Azure Service Bus resource in the project.",
            "",
            "- Azure Service Bus.",
            "- Fully managed enterprise message broker with message queues and publish-subscribe topics.",
        ],
        HelpTopic::Resource(ResourceType::Storage) => vec![
            "Include Azure Storage resource in the project.",
            "",
            "- Azure Storage Account.",
            "- Durable, highly available, and massively scalable cloud storage solution.",
        ],
        HelpTopic::Resource(ResourceType::Keyvault) => vec![
            "Include Azure Key Vault resource in the project.",
            "",
            "- Azure Key Vault.",
            "- Used for storing secrets, keys, and certificates securely.",
        ],
        HelpTopic::Resource(ResourceType::ContainerRegistry) => vec![
            " - Azure Container Registry.",
            "- Used for storing and managing container images.",
        ],
        HelpTopic::General => vec![
            "Use arrow keys to navigate. Press 'Enter' to confirm selections.",
        ],
    };
    assert(slices(lines@) == spec_help_lines(topic));
    lines
}

/// The head of the help pane: what the keys do.
pub open spec fn spec_controls() -> Seq<Seq<(Seq<char>, SpanStyle)>> {
    seq![
        seq![("Controls"@, SpanStyle::Heading)],
        seq![("\n"@, SpanStyle::Plain)],
        seq![("  \u{2191}/\u{2193} - Navigate through options."@, SpanStyle::Hint)],
        seq![("  \u{2794}  - Toggle all of current list."@, SpanStyle::Hint)],
        seq![("  Spacebar - Toggle selection of current option."@, SpanStyle::Hint)],
        seq![("  Enter - Confirm selection & generate the Pulumi project."@, SpanStyle::Hint)],
        seq![("\n"@, SpanStyle::Plain)],
        seq![("Focus Help"@, SpanStyle::Heading)],
        seq![("\n"@, SpanStyle::Plain)],
    ]
}

/// Each text as a line of its own in one style.
pub open spec fn spec_single_lines(texts: Seq<Seq<char>>, style: SpanStyle) -> Seq<
    Seq<(Seq<char>, SpanStyle)>,
> {
    Seq::new(texts.len(), |i: int| seq![(texts[i], style)])
}

/// The line that shows the validation message: a warning sign and the
/// message, or an empty line where there is no message or an empty one.
pub open spec fn spec_warning_line(message: Option<Seq<char>>) -> Seq<(Seq<char>, SpanStyle)> {
    match message {
        Some(text) if text.len() > 0 => seq![
            ("\u{26a0}  "@, SpanStyle::WarningSign),
            (text, SpanStyle::Warning),
        ],
        _ => seq![(""@, SpanStyle::Plain)],
    }
}

/// The help pane: the keys, the help on the focused field, a blank line
/// and the validation message.
pub open spec fn spec_help_context(focus: usize, message: Option<Seq<char>>) -> Seq<
    Seq<(Seq<char>, SpanStyle)>,
> {
    spec_controls() + spec_single_lines(
        spec_help_lines(spec_help_topic(focus)),
        SpanStyle::Help,
    ) + seq![seq![("\n"@, SpanStyle::Plain)], spec_warning_line(message)]
}

fn push_single(lines: &mut Vec<UiLine>, text: &str, style: SpanStyle)
    ensures
        line_views(final(lines)@) == line_views(old(lines)@).push(seq![(text@, style)]),
{
    let line = UiLine::single(text, style);
    lines.push(line);
    assert(line_views(lines@) == line_views(old(lines)@).push(seq![(text@, style)]));
}

/// The lines of the help pane for a session and a validation message.
pub fn render_help_context(app_state: &App, error_message: Option<String>) -> (lines: Vec<UiLine>)
    ensures
        line_views(lines@) == spec_help_context(
            app_state.focus,
            crate::session::message_text(error_message),
        ),
{
    let mut lines: Vec<UiLine> = Vec::new();
    assert(line_views(lines@) == Seq::<Seq<(Seq<char>, SpanStyle)>>::empty());
    push_single(&mut lines, "Controls", SpanStyle::Heading);
    push_single(&mut lines, "\n", SpanStyle::Plain);
    push_single(&mut lines, "  \u{2191}/\u{2193} - Navigate through options.", SpanStyle::Hint);
    push_single(&mut lines, "  \u{2794}  - Toggle all of current list.", SpanStyle::Hint);
    push_single(&mut lines, "  Spacebar - Toggle selection of current option.", SpanStyle::Hint);
    push_single(
        &mut lines,
        "  Enter - Confirm selection & generate the Pulumi project.",
        SpanStyle::Hint,
    );
    push_single(&mut lines, "\n", SpanStyle::Plain);
    push_single(&mut lines, "Focus Help", SpanStyle::Heading);
    push_single(&mut lines, "\n", SpanStyle::Plain);
    assert(line_views(lines@) == spec_controls());
    let help = help_lines(help_topic(app_state.focus));
    let ghost help_texts = spec_help_lines(spec_help_topic(app_state.focus));
    let mut i: usize = 0;
    while i < help.len()
        invariant
            i <= help.len(),
            slices(help@) == help_texts,
            line_views(lines@) == spec_controls() + spec_single_lines(
                help_texts.take(i as int),
                SpanStyle::Help,
            ),
        decreases help.len() - i,
    {
        assert(help_texts[i as int] == help@[i as int]@);
        push_single(&mut lines, help[i], SpanStyle::Help);
        assert(spec_single_lines(help_texts.take(i + 1), SpanStyle::Help) == spec_single_lines(
            help_texts.take(i as int),
            SpanStyle::Help,
        ).push(seq![(help_texts[i as int], SpanStyle::Help)]));
        i += 1;
    }
    assert(help_texts.take(i as int) == help_texts);
    push_single(&mut lines, "\n", SpanStyle::Plain);
    let ghost before = line_views(lines@);
    let mut spans: Vec<UiSpan> = Vec::new();
    match error_message {
        Some(text) => {
            if !text.as_str().is_empty() {
                spans.push(UiSpan::new("\u{26a0}  ", SpanStyle::WarningSign));
                spans.push(UiSpan { text, style: SpanStyle::Warning });
            } else {
                spans.push(UiSpan::new("", SpanStyle::Plain));
            }
        },
        None => {
            spans.push(UiSpan::new("", SpanStyle::Plain));
        },
    }
    let warning = UiLine { spans };
    assert(warning@ == spec_warning_line(crate::session::message_text(error_message)));
    lines.push(warning);
    assert(line_views(lines@) == before.push(warning@));
    assert(line_views(lines@) == spec_help_context(
        app_state.focus,
        crate::session::message_text(error_message),
    ));
    lines
}

/// The lines of the screen shown once the session has ended.
pub open spec fn spec_exit_screen() -> Seq<Seq<(Seq<char>, SpanStyle)>> {
    seq![
        seq![("Exit Screen - Operation Complete!"@, SpanStyle::Plain)],
        seq![("Everything has been successfully processed."@, SpanStyle::Plain)],
        seq![("Press any key to exit."@, SpanStyle::Plain)],
    ]
}

pub fn render_exit_screen() -> (lines: Vec<UiLine>)
    ensures
        line_views(lines@) == spec_exit_screen(),
{
    let mut lines: Vec<UiLine> = Vec::new();
    assert(line_views(lines@) == Seq::<Seq<(Seq<char>, SpanStyle)>>::empty());
    push_single(&mut lines, "Exit Screen - Operation Complete!", SpanStyle::Plain);
    push_single(&mut lines, "Everything has been successfully processed.", SpanStyle::Plain);
    push_single(&mut lines, "Press any key to exit.", SpanStyle::Plain);
    assert(line_views(lines@) == spec_exit_screen());
    lines
}

/// A line of the preview: key, colon and value where the line holds a
/// colon, split at the first one; the line as it is where it holds none.
pub open spec fn spec_preview_line(line: Seq<char>) -> Seq<(Seq<char>, SpanStyle)> {
    match spec_split_once(line, ':') {
        Some((key, value)) => seq![
            (key, SpanStyle::PreviewKey),
            (":"@, SpanStyle::Plain),
            (value, SpanStyle::PreviewValue),
        ],
        None => seq![(line, SpanStyle::Plain)],
    }
}

/// The preview of a record written out as text: each line of the text as a
/// line of the preview.
pub open spec fn spec_styled_json(json: Seq<char>) -> Seq<Seq<(Seq<char>, SpanStyle)>> {
    Seq::new(spec_lines(json).len(), |i: int| spec_preview_line(spec_lines(json)[i]))
}

/// Styles one line of the preview.
pub fn preview_line(line: &str) -> (styled: UiLine)
    ensures
        styled@ == spec_preview_line(line@),
{
    let mut spans: Vec<UiSpan> = Vec::new();
    match split_once(line, ':') {
        Some((key, value)) => {
            spans.push(UiSpan { text: key, style: SpanStyle::PreviewKey });
            spans.push(UiSpan::new(":", SpanStyle::Plain));
            spans.push(UiSpan { text: value, style: SpanStyle::PreviewValue });
        },
        None => {
            spans.push(UiSpan::new(line, SpanStyle::Plain));
        },
    }
    let styled = UiLine { spans };
    assert(styled@ == spec_preview_line(line@));
    styled
}

/// Styles the text of a record for the preview pane.
pub fn styled_json(json: &str) -> (styled_lines: Vec<UiLine>)
    ensures
        line_views(styled_lines@) == spec_styled_json(json@),
{
    let lines = split_lines(json);
    let mut styled_lines: Vec<UiLine> = Vec::new();
    let mut i: usize = 0;
    while i < lines.len()
        invariant
            i <= lines.len(),
            texts(lines@) == spec_lines(json@),
            styled_lines@.len() == i,
            forall|k: int|
                0 <= k < i ==> (#[trigger] styled_lines@[k])@ == spec_preview_line(
                    spec_lines(json@)[k],
                ),
        decreases lines.len() - i,
    {
        assert(texts(lines@)[i as int] == lines@[i as int]@);
        styled_lines.push(preview_line(lines[i].as_str()));
        i += 1;
    }
    assert(texts(lines@).len() == lines@.len());
    assert(line_views(styled_lines@) == spec_styled_json(json@));
    styled_lines
}

/// The lines of the preview pane for a record written out as text.
pub fn render_config_review(config_json: &str) -> (lines: Vec<UiLine>)
    ensures
        line_views(lines@) == spec_styled_json(config_json@),
{
    styled_json(config_json)
}

} // verus!
