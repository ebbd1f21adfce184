//! The editing session: the record, the focus and the way they change
//! under actions, up to confirmation or cancellation.

use vstd::prelude::*;
use crate::fields::{environment_keys, resource_keys, environment_options, resource_options};
use crate::fields::{is_navigable, spec_field_at, field_at};
use crate::fields::{AppEnvironment, EnumIndex, FieldKind, ResourceType, TextField};
use crate::fields::{ENVIRONMENTS_HEADER, NAVIGABLE_ROWS, RESOURCES_HEADER, TOTAL_ROWS};
use crate::input::{dispatch, spec_dispatch, Action, Direction, KeyEvent};
use crate::record::{ConfigView, ProjectConfig};
use crate::text::{texts, toggled, toggled_all, toggle_text, toggle_all_texts};
use crate::validation::{rejection, validate_inputs};

verus! {

/// How a session ended.
#[derive(Clone, Copy, Debug, PartialEq, Eq, Structural)]
pub enum TerminalReason {
    Confirmed,
    Cancelled,
}

/// The state of one editing session.
#[derive(Debug)]
pub struct App {
    /// Set once the session has ended.
    pub exit: bool,
    /// Set while a confirmed record has passed validation.
    pub confirmation: bool,
    pub config: ProjectConfig,
    /// Row of the field that receives the keys.
    pub focus: usize,
    pub user_input_container: Vec<String>,
    /// Why the last confirmation was turned down, if it was.
    pub validation_error: Option<String>,
    pub show_exit_screen: bool,
}

/// What a session holds, as plain values.
pub struct AppView {
    pub exit: bool,
    pub confirmation: bool,
    pub config: ConfigView,
    pub focus: usize,
    pub user_input_container: Seq<Seq<char>>,
    pub validation_error: Option<Seq<char>>,
    pub show_exit_screen: bool,
}

/// The text of an optional message.
pub open spec fn message_text(message: Option<String>) -> Option<Seq<char>> {
    match message {
        Some(text) => Some(text@),
        None => None,
    }
}

impl View for App {
    type V = AppView;

    open spec fn view(&self) -> AppView {
        AppView {
            exit: self.exit,
            confirmation: self.confirmation,
            config: self.config@,
            focus: self.focus,
            user_input_container: texts(self.user_input_container@),
            validation_error: message_text(self.validation_error),
            show_exit_screen: self.show_exit_screen,
        }
    }
}

/// The row the focus moves to from `focus` by one step of `direction`
/// (`1` or `-1`): the next row round the form, and one row further where
/// that is a section header.
pub open spec fn spec_advance(focus: usize, direction: int) -> usize {
    let next = (focus + direction + TOTAL_ROWS) % (TOTAL_ROWS as int);
    if next == ENVIRONMENTS_HEADER || next == RESOURCES_HEADER {
        (next + direction) as usize
    } else {
        next as usize
    }
}

impl AppView {
    /// A fresh session: the default record, the focus on the first field,
    /// nothing confirmed and no message.
    pub open spec fn initial() -> AppView {
        AppView {
            exit: false,
            confirmation: false,
            config: ConfigView::initial("default_name"@),
            focus: 0,
            user_input_container: Seq::empty(),
            validation_error: None,
            show_exit_screen: false,
        }
    }

    /// The focus is on a field and the record is well formed.
    pub open spec fn wf(self) -> bool {
        is_navigable(self.focus) && self.config.wf()
    }

    /// How the session ended, or `None` while it goes on.
    pub open spec fn terminal_reason(self) -> Option<TerminalReason> {
        if !self.exit {
            None
        } else if self.confirmation {
            Some(TerminalReason::Confirmed)
        } else {
            Some(TerminalReason::Cancelled)
        }
    }

    /// The record that the session hands out: its record where it ended
    /// confirmed, and none otherwise.
    pub open spec fn handed_out(self) -> Option<ConfigView> {
        if self.terminal_reason() == Some(TerminalReason::Confirmed) {
            Some(self.config)
        } else {
            None
        }
    }

    pub open spec fn with_config(self, config: ConfigView) -> AppView {
        AppView { config, ..self }
    }

    pub open spec fn toggle_environment(self, environment: AppEnvironment) -> AppView {
        self.with_config(
            ConfigView {
                environments: toggled(self.config.environments, environment.spec_key()),
                ..self.config
            },
        )
    }

    pub open spec fn toggle_resource(self, resource: ResourceType) -> AppView {
        self.with_config(
            ConfigView {
                additional_resources: toggled(
                    self.config.additional_resources,
                    resource.spec_key(),
                ),
                ..self.config
            },
        )
    }

    pub open spec fn toggle_all_environments(self) -> AppView {
        self.with_config(
            ConfigView {
                environments: toggled_all(self.config.environments, environment_keys()),
                ..self.config
            },
        )
    }

    pub open spec fn toggle_all_resources(self) -> AppView {
        self.with_config(
            ConfigView {
                additional_resources: toggled_all(
                    self.config.additional_resources,
                    resource_keys(),
                ),
                ..self.config
            },
        )
    }

    pub open spec fn cycle_focus(self, direction: int) -> AppView {
        AppView { focus: spec_advance(self.focus, direction), ..self }
    }

    /// The record after a character was appended to the focused text
    /// field.
    pub open spec fn insert_char(self, c: char) -> AppView {
        match spec_field_at(self.focus) {
            Some(FieldKind::Text(TextField::ResourceName)) => self.with_config(
                ConfigView { resource_name: self.config.resource_name.push(c), ..self.config },
            ),
            Some(FieldKind::Text(TextField::OwnerEmail)) => self.with_config(
                ConfigView { owner_email: self.config.owner_email.push(c), ..self.config },
            ),
            _ => self,
        }
    }

    /// The record after the last character of the focused text field was
    /// dropped; an empty field stays empty.
    pub open spec fn backspace(self) -> AppView {
        match spec_field_at(self.focus) {
            Some(FieldKind::Text(TextField::ResourceName)) => self.with_config(
                ConfigView {
                    resource_name: shortened(self.config.resource_name),
                    ..self.config
                },
            ),
            Some(FieldKind::Text(TextField::OwnerEmail)) => self.with_config(
                ConfigView { owner_email: shortened(self.config.owner_email), ..self.config },
            ),
            _ => self,
        }
    }

    /// The record after the focused text field was emptied.
    pub open spec fn clear_field(self) -> AppView {
        match spec_field_at(self.focus) {
            Some(FieldKind::Text(TextField::ResourceName)) => self.with_config(
                ConfigView { resource_name: Seq::empty(), ..self.config },
            ),
            Some(FieldKind::Text(TextField::OwnerEmail)) => self.with_config(
                ConfigView { owner_email: Seq::empty(), ..self.config },
            ),
            _ => self,
        }
    }

    /// The focused toggle flipped; nothing on any other row.
    pub open spec fn toggle_one(self) -> AppView {
        match spec_field_at(self.focus) {
            Some(FieldKind::Environment(environment)) => self.toggle_environment(environment),
            Some(FieldKind::Resource(resource)) => self.toggle_resource(resource),
            _ => self,
        }
    }

    /// The group of the focused toggle flipped as a whole; nothing on any
    /// other row.
    pub open spec fn toggle_all(self) -> AppView {
        match spec_field_at(self.focus) {
            Some(FieldKind::Environment(_)) => self.toggle_all_environments(),
            Some(FieldKind::Resource(_)) => self.toggle_all_resources(),
            _ => self,
        }
    }

    /// The record validated: confirmed with no message where it passes,
    /// not confirmed with the reason as message where it fails. The record
    /// and the focus stay as they are.
    pub open spec fn confirm(self) -> AppView {
        match rejection(self.config) {
            None => AppView { confirmation: true, validation_error: None, ..self },
            Some(reason) => AppView {
                confirmation: false,
                validation_error: Some(reason),
                ..self
            },
        }
    }

    /// The session ended without a confirmed record. Validation is not
    /// run, so the record and the message stay as they are.
    pub open spec fn cancel(self) -> AppView {
        AppView { exit: true, confirmation: false, ..self }
    }

    pub open spec fn apply(self, action: Action) -> AppView {
        match action {
            Action::InsertChar(c) => self.insert_char(c),
            Action::Backspace => self.backspace(),
            Action::ClearField => self.clear_field(),
            Action::ToggleOne => self.toggle_one(),
            Action::ToggleAll => self.toggle_all(),
            Action::MoveFocus(direction) => self.cycle_focus(direction.spec_delta()),
            Action::Confirm => self.confirm(),
            Action::Cancel => self.cancel(),
        }
    }

    pub open spec fn handle_key_event(self, event: KeyEvent) -> AppView {
        match spec_dispatch(event, self.focus) {
            Some(action) => self.apply(action),
            None => self,
        }
    }

    /// What follows an action: a session marked confirmed ends if its
    /// record passes validation, and goes back to editing with the reason
    /// as message if it does not.
    pub open spec fn settle(self) -> AppView {
        if !self.confirmation {
            self
        } else {
            match rejection(self.config) {
                None => AppView { confirmation: true, validation_error: None, exit: true, ..self },
                Some(reason) => AppView {
                    confirmation: false,
                    validation_error: Some(reason),
                    ..self
                },
            }
        }
    }

    /// One turn of the session: a session that has ended ignores the
    /// event; otherwise the event is handled and settled, and a session
    /// that ends by it shows the exit screen from then on.
    pub open spec fn step(self, event: KeyEvent) -> AppView {
        if self.exit {
            self
        } else {
            let next = self.handle_key_event(event).settle();
            AppView { show_exit_screen: next.show_exit_screen || next.exit, ..next }
        }
    }

    /// The session after a run of events, taken one turn each.
    pub open spec fn run(self, events: Seq<KeyEvent>) -> AppView
        decreases events.len(),
    {
        if events.len() == 0 {
            self
        } else {
            self.run(events.drop_last()).step(events.last())
        }
    }
}

impl App {
    /// A fresh session.
    pub fn new() -> (app: App)
        ensures
            app@ == AppView::initial(),
            app@.wf(),
    {
        proof {
            crate::record::lemma_initial_record("default_name"@);
        }
        let app = App {
            exit: false,
            confirmation: false,
            config: ProjectConfig::default("default_name"),
            focus: 0,
            user_input_container: Vec::new(),
            validation_error: None,
            show_exit_screen: false,
        };
        assert(app@.user_input_container == Seq::<Seq<char>>::empty());
        app
    }

    /// Flips one environment: selected becomes unselected and the reverse.
    /// No other selection changes and no key comes to occur twice.
    pub fn handle_keycode_right_env(&mut self, environment: AppEnvironment)
        ensures
            final(self)@ == old(self)@.toggle_environment(environment),
            final(self)@.config.has_environment(environment) <==> !old(
                self,
            )@.config.has_environment(environment),
            forall|other: AppEnvironment|
                other != environment ==> (#[trigger] final(self)@.config.has_environment(other)
                    <==> old(self)@.config.has_environment(other)),
            old(self)@.config.wf() ==> final(self)@.config.wf(),
    {
        proof {
            lemma_toggle_environment(self@, environment);
        }
        toggle_text(&mut self.config.environments, environment.key());
    }

    /// Flips one resource: selected becomes unselected and the reverse. No
    /// other selection changes and no key comes to occur twice.
    pub fn handle_keycode_right_resource(&mut self, resource: ResourceType)
        ensures
            final(self)@ == old(self)@.toggle_resource(resource),
            final(self)@.config.has_resource(resource) <==> !old(self)@.config.has_resource(
                resource,
            ),
            forall|other: ResourceType|
                other != resource ==> (#[trigger] final(self)@.config.has_resource(other) <==> old(
                    self,
                )@.config.has_resource(other)),
            old(self)@.config.wf() ==> final(self)@.config.wf(),
    {
        proof {
            lemma_toggle_resource(self@, resource);
        }
        toggle_text(&mut self.config.additional_resources, resource.key());
    }

    /// Flips the environments as a group: none is left selected where all
    /// were, and all are selected otherwise.
    pub fn environments_toggle_all(&mut self)
        ensures
            final(self)@ == old(self)@.toggle_all_environments(),
            (forall|e: AppEnvironment| old(self)@.config.has_environment(e))
                ==> final(self)@.config.environments.len() == 0,
            !(forall|e: AppEnvironment| old(self)@.config.has_environment(e)) ==> (forall|
                e: AppEnvironment,
            |
                final(self)@.config.has_environment(e)),
            old(self)@.config.wf() ==> final(self)@.config.wf(),
    {
        proof {
            lemma_toggle_all_environments(self@);
        }
        let keys = environment_options();
        proof {
            crate::fields::lemma_environment_keys();
        }
        toggle_all_texts(&mut self.config.environments, keys.as_slice());
    }

    /// Flips the resources as a group: none is left selected where all
    /// were, and all are selected otherwise.
    pub fn resources_toggle_all(&mut self)
        ensures
            final(self)@ == old(self)@.toggle_all_resources(),
            (forall|r: ResourceType| old(self)@.config.has_resource(r))
                ==> final(self)@.config.additional_resources.len() == 0,
            !(forall|r: ResourceType| old(self)@.config.has_resource(r)) ==> (forall|
                r: ResourceType,
            |
                final(self)@.config.has_resource(r)),
            old(self)@.config.wf() ==> final(self)@.config.wf(),
    {
        proof {
            lemma_toggle_all_resources(self@);
        }
        let keys = resource_options();
        proof {
            crate::fields::lemma_resource_keys();
        }
        toggle_all_texts(&mut self.config.additional_resources, keys.as_slice());
    }

    /// Moves the focus one field down the form (`1`) or up (`-1`), round
    /// the ends and past the section headers.
    pub fn cycle_focus(&mut self, direction: isize)
        requires
            direction == 1 || direction == -1,
        ensures
            final(self)@ == old(self)@.cycle_focus(direction as int),
            is_navigable(final(self).focus),
    {
        let row = self.focus % TOTAL_ROWS;
        let turned = if direction == 1 {
            (row + 1) % TOTAL_ROWS
        } else {
            (row + TOTAL_ROWS - 1) % TOTAL_ROWS
        };
        if turned == ENVIRONMENTS_HEADER || turned == RESOURCES_HEADER {
            self.focus = if direction == 1 {
                turned + 1
            } else {
                turned - 1
            };
        } else {
            self.focus = turned;
        }
    }

    /// Validates the record. Where it passes the session is marked
    /// confirmed and the message is cleared; where it fails the session is
    /// not confirmed and the reason becomes the message. The record is not
    /// touched either way.
    pub fn confirm_selections(&mut self)
        ensures
            final(self)@ == old(self)@.confirm(),
            final(self)@.config == old(self)@.config,
            final(self)@.confirmation <==> rejection(old(self)@.config).is_none(),
    {
        match validate_inputs(self) {
            Err(reason) => {
                self.confirmation = false;
                self.validation_error = Some(reason);
            },
            Ok(()) => {
                self.confirmation = true;
                self.validation_error = None;
            },
        }
    }

    /// Carries out one action on the session.
    pub fn apply(&mut self, action: Action)
        ensures
            final(self)@ == old(self)@.apply(action),
    {
        match action {
            Action::InsertChar(c) => match field_at(self.focus) {
                Some(FieldKind::Text(TextField::ResourceName)) => {
                    self.config.resource_name.push(c);
                },
                Some(FieldKind::Text(TextField::OwnerEmail)) => {
                    self.config.owner_email.push(c);
                },
                _ => {},
            },
            Action::Backspace => match field_at(self.focus) {
                Some(FieldKind::Text(TextField::ResourceName)) => {
                    self.config.resource_name.pop();
                },
                Some(FieldKind::Text(TextField::OwnerEmail)) => {
                    self.config.owner_email.pop();
                },
                _ => {},
            },
            Action::ClearField => match field_at(self.focus) {
                Some(FieldKind::Text(TextField::ResourceName)) => {
                    self.config.resource_name.clear();
                },
                Some(FieldKind::Text(TextField::OwnerEmail)) => {
                    self.config.owner_email.clear();
                },
                _ => {},
            },
            Action::ToggleOne => match field_at(self.focus) {
                Some(FieldKind::Environment(environment)) => {
                    self.handle_keycode_right_env(environment);
                },
                Some(FieldKind::Resource(resource)) => {
                    self.handle_keycode_right_resource(resource);
                },
                _ => {},
            },
            Action::ToggleAll => match field_at(self.focus) {
                Some(FieldKind::Environment(_)) => {
                    self.environments_toggle_all();
                },
                Some(FieldKind::Resource(_)) => {
                    self.resources_toggle_all();
                },
                _ => {},
            },
            Action::MoveFocus(direction) => {
                self.cycle_focus(direction.delta());
            },
            Action::Confirm => {
                self.confirm_selections();
            },
            Action::Cancel => {
                self.exit = true;
                self.confirmation = false;
            },
        }
    }

    /// Handles one key event: the action it asks for is carried out, and
    /// an event that asks for nothing changes nothing.
    pub fn handle_key_event(&mut self, key_event: KeyEvent)
        ensures
            final(self)@ == old(self)@.handle_key_event(key_event),
    {
        match dispatch(&key_event, self.focus) {
            Some(action) => {
                self.apply(action);
            },
            None => {},
        }
    }

    /// Ends a session that is marked confirmed and whose record passes
    /// validation; sends one whose record fails back to editing with the
    /// reason as message.
    pub fn settle(&mut self)
        ensures
            final(self)@ == old(self)@.settle(),
    {
        if self.confirmation {
            match validate_inputs(self) {
                Err(reason) => {
                    self.confirmation = false;
                    self.validation_error = Some(reason);
                },
                Ok(()) => {
                    self.confirmation = true;
                    self.validation_error = None;
                    self.exit = true;
                },
            }
        }
    }

    /// One turn of the session on one key event. A session that has ended
    /// takes no further input.
    pub fn step(&mut self, key_event: KeyEvent)
        ensures
            final(self)@ == old(self)@.step(key_event),
            old(self)@.wf() ==> final(self)@.wf(),
    {
        proof {
            if self@.wf() {
                lemma_step_keeps_wf(self@, key_event);
            }
        }
        if !self.exit {
            self.handle_key_event(key_event);
            self.settle();
            if self.exit {
                self.show_exit_screen = true;
            }
        }
    }

    /// Feeds a run of key events to the session, one turn each.
    pub fn run(&mut self, events: &[KeyEvent])
        ensures
            final(self)@ == old(self)@.run(events@),
            old(self)@.wf() ==> final(self)@.wf(),
    {
        let mut i: usize = 0;
        assert(events@.take(0) == Seq::<KeyEvent>::empty());
        while i < events.len()
            invariant
                i <= events.len(),
                self@ == old(self)@.run(events@.take(i as int)),
                old(self)@.wf() ==> self@.wf(),
            decreases events.len() - i,
        {
            assert(events@.take(i + 1).drop_last() == events@.take(i as int));
            self.step(events[i]);
            i += 1;
        }
        assert(events@.take(i as int) == events@);
    }

    /// How the session ended, or `None` while it goes on.
    pub fn terminal_reason(&self) -> (reason: Option<TerminalReason>)
        ensures
            reason == self@.terminal_reason(),
    {
        if !self.exit {
            None
        } else if self.confirmation {
            Some(TerminalReason::Confirmed)
        } else {
            Some(TerminalReason::Cancelled)
        }
    }

    /// Hands the record out if the session ended confirmed. A cancelled
    /// session, and one that still goes on, gives nothing.
    pub fn into_config(self) -> (record: Option<ProjectConfig>)
        ensures
            record.is_some() <==> self@.handed_out().is_some(),
            record matches Some(config) ==> Some(config@) == self@.handed_out(),
    {
        if self.exit && self.confirmation {
            Some(self.config)
        } else {
            None
        }
    }
}

/// Flipping one environment flips its selection and no other, and keeps a
/// well-formed record well formed.
pub proof fn lemma_toggle_environment(state: AppView, environment: AppEnvironment)
    ensures
        state.toggle_environment(environment).config.has_environment(environment)
            <==> !state.config.has_environment(environment),
        forall|other: AppEnvironment|
            other != environment ==> (#[trigger] state.toggle_environment(
                environment,
            ).config.has_environment(other) <==> state.config.has_environment(other)),
        state.config.wf() ==> state.toggle_environment(environment).config.wf(),
        state.toggle_environment(environment).focus == state.focus,
{
    let before = state.config.environments;
    let key = environment.spec_key();
    let after = toggled(before, key);
    crate::text::lemma_toggled_flips_one(before, key);
    crate::fields::lemma_environment_keys();
    assert forall|other: AppEnvironment| other != environment implies (#[trigger] after.contains(
        other.spec_key(),
    ) <==> before.contains(other.spec_key())) by {
        if other.spec_key() == key {
            AppEnvironment::lemma_key_injective(other, environment);
        }
    }
    if state.config.wf() {
        assert forall|i: int| 0 <= i < after.len() implies environment_keys().contains(
            #[trigger] after[i],
        ) by {
            assert(after.contains(after[i]));
            if after[i] != key {
                assert(before.contains(after[i]));
            }
        }
    }
}

/// Flipping one resource flips its selection and no other, and keeps a
/// well-formed record well formed.
pub proof fn lemma_toggle_resource(state: AppView, resource: ResourceType)
    ensures
        state.toggle_resource(resource).config.has_resource(resource)
            <==> !state.config.has_resource(resource),
        forall|other: ResourceType|
            other != resource ==> (#[trigger] state.toggle_resource(resource).config.has_resource(
                other,
            ) <==> state.config.has_resource(other)),
        state.config.wf() ==> state.toggle_resource(resource).config.wf(),
        state.toggle_resource(resource).focus == state.focus,
{
    let before = state.config.additional_resources;
    let key = resource.spec_key();
    let after = toggled(before, key);
    crate::text::lemma_toggled_flips_one(before, key);
    crate::fields::lemma_resource_keys();
    assert forall|other: ResourceType| other != resource implies (#[trigger] after.contains(
        other.spec_key(),
    ) <==> before.contains(other.spec_key())) by {
        if other.spec_key() == key {
            ResourceType::lemma_key_injective(other, resource);
        }
    }
    if state.config.wf() {
        assert forall|i: int| 0 <= i < after.len() implies resource_keys().contains(
            #[trigger] after[i],
        ) by {
            assert(after.contains(after[i]));
            if after[i] != key {
                assert(before.contains(after[i]));
            }
        }
    }
}

/// Flipping the environments as a group: where all were selected none is
/// left; where one was missing all are selected afterwards. A well-formed
/// record stays well formed.
pub proof fn lemma_toggle_all_environments(state: AppView)
    ensures
        (forall|e: AppEnvironment| state.config.has_environment(e))
            ==> state.toggle_all_environments().config.environments.len() == 0,
        !(forall|e: AppEnvironment| state.config.has_environment(e)) ==> (forall|
            e: AppEnvironment,
        |
            state.toggle_all_environments().config.has_environment(e)),
        state.config.wf() ==> state.toggle_all_environments().config.wf(),
        state.toggle_all_environments().focus == state.focus,
{
    let before = state.config.environments;
    let keys = environment_keys();
    let after = toggled_all(before, keys);
    crate::fields::lemma_environment_keys();
    crate::text::lemma_toggled_all_completes_or_clears(before, keys);
    if forall|e: AppEnvironment| state.config.has_environment(e) {
        assert forall|i: int| 0 <= i < keys.len() implies before.contains(#[trigger] keys[i]) by {
            assert(state.config.has_environment(crate::fields::environment_at(i)));
        }
    } else {
        let lacking = choose|e: AppEnvironment| !state.config.has_environment(e);
        assert(keys[lacking.spec_value() - 3] == lacking.spec_key());
        assert(!crate::text::holds_all(before, keys));
        assert forall|e: AppEnvironment| after.contains(e.spec_key()) by {
            assert(keys[e.spec_value() - 3] == e.spec_key());
        }
        if state.config.wf() {
            assert forall|i: int| 0 <= i < after.len() implies keys.contains(
                #[trigger] after[i],
            ) by {
                assert(after.contains(after[i]));
                if before.contains(after[i]) {
                    let at = choose|at: int| 0 <= at < before.len() && before[at] == after[i];
                    assert(keys.contains(before[at]));
                }
            }
        }
    }
}

/// Flipping the resources as a group: where all were selected none is
/// left; where one was missing all are selected afterwards. A well-formed
/// record stays well formed.
pub proof fn lemma_toggle_all_resources(state: AppView)
    ensures
        (forall|r: ResourceType| state.config.has_resource(r))
            ==> state.toggle_all_resources().config.additional_resources.len() == 0,
        !(forall|r: ResourceType| state.config.has_resource(r)) ==> (forall|r: ResourceType|
            state.toggle_all_resources().config.has_resource(r)),
        state.config.wf() ==> state.toggle_all_resources().config.wf(),
        state.toggle_all_resources().focus == state.focus,
{
    let before = state.config.additional_resources;
    let keys = resource_keys();
    let after = toggled_all(before, keys);
    crate::fields::lemma_resource_keys();
    crate::text::lemma_toggled_all_completes_or_clears(before, keys);
    if forall|r: ResourceType| state.config.has_resource(r) {
        assert forall|i: int| 0 <= i < keys.len() implies before.contains(#[trigger] keys[i]) by {
            assert(state.config.has_resource(crate::fields::resource_at(i)));
        }
    } else {
        let lacking = choose|r: ResourceType| !state.config.has_resource(r);
        assert(keys[lacking.spec_value() - 8] == lacking.spec_key());
        assert(!crate::text::holds_all(before, keys));
        assert forall|r: ResourceType| after.contains(r.spec_key()) by {
            assert(keys[r.spec_value() - 8] == r.spec_key());
        }
        if state.config.wf() {
            assert forall|i: int| 0 <= i < after.len() implies keys.contains(
                #[trigger] after[i],
            ) by {
                assert(after.contains(after[i]));
                if before.contains(after[i]) {
                    let at = choose|at: int| 0 <= at < before.len() && before[at] == after[i];
                    assert(keys.contains(before[at]));
                }
            }
        }
    }
}

/// Flipping the environments as a group, in terms of the set of selected
/// environments: the full set becomes the empty set, and every other set
/// becomes the full set. A second flip right after the first therefore
/// gives the empty set where the first gave the full one, and the reverse.
pub proof fn lemma_toggle_all_environments_alternates(state: AppView)
    ensures
        ({
            let all = Set::<AppEnvironment>::full();
            let none = Set::<AppEnvironment>::empty();
            let once = state.toggle_all_environments().config.selected_environments();
            let twice =
                state.toggle_all_environments().toggle_all_environments().config.selected_environments();
            if state.config.selected_environments() == all {
                once == none && twice == all
            } else {
                once == all && twice == none
            }
        }),
{
    let once = state.toggle_all_environments();
    let twice = once.toggle_all_environments();
    let full = Set::<AppEnvironment>::full();
    let none = Set::<AppEnvironment>::empty();
    lemma_toggle_all_environments(state);
    lemma_toggle_all_environments(once);
    if state.config.selected_environments() == full {
        assert forall|e: AppEnvironment| state.config.has_environment(e) by {
            assert(full.contains(e));
        }
        assert(once.config.selected_environments() =~= none);
        assert(!once.config.has_environment(AppEnvironment::Dev));
        assert(twice.config.selected_environments() =~= full);
    } else {
        if forall|e: AppEnvironment| state.config.has_environment(e) {
            assert(state.config.selected_environments() =~= full);
        }
        assert(once.config.selected_environments() =~= full);
        assert(twice.config.selected_environments() =~= none);
    }
}

/// Flipping the resources as a group, in terms of the set of selected
/// resources: the full set becomes the empty set, and every other set
/// becomes the full set. A second flip right after the first therefore
/// gives the empty set where the first gave the full one, and the reverse.
pub proof fn lemma_toggle_all_resources_alternates(state: AppView)
    ensures
        ({
            let all = Set::<ResourceType>::full();
            let none = Set::<ResourceType>::empty();
            let once = state.toggle_all_resources().config.selected_resources();
            let twice =
                state.toggle_all_resources().toggle_all_resources().config.selected_resources();
            if state.config.selected_resources() == all {
                once == none && twice == all
            } else {
                once == all && twice == none
            }
        }),
{
    let once = state.toggle_all_resources();
    let twice = once.toggle_all_resources();
    let full = Set::<ResourceType>::full();
    let none = Set::<ResourceType>::empty();
    lemma_toggle_all_resources(state);
    lemma_toggle_all_resources(once);
    if state.config.selected_resources() == full {
        assert forall|r: ResourceType| state.config.has_resource(r) by {
            assert(full.contains(r));
        }
        assert(once.config.selected_resources() =~= none);
        assert(!once.config.has_resource(ResourceType::Database));
        assert(twice.config.selected_resources() =~= full);
    } else {
        if forall|r: ResourceType| state.config.has_resource(r) {
            assert(state.config.selected_resources() =~= full);
        }
        assert(once.config.selected_resources() =~= full);
        assert(twice.config.selected_resources() =~= none);
    }
}

/// Flipping one toggle, in terms of the sets of selected variants: the
/// variant leaves the set it was in and joins the set it was not in.
pub proof fn lemma_toggle_one_as_sets(
    state: AppView,
    environment: AppEnvironment,
    resource: ResourceType,
)
    ensures
        ({
            let before = state.config.selected_environments();
            let after = state.toggle_environment(environment).config.selected_environments();
            if before.contains(environment) {
                after == before.remove(environment)
            } else {
                after == before.insert(environment)
            }
        }),
        ({
            let before = state.config.selected_resources();
            let after = state.toggle_resource(resource).config.selected_resources();
            if before.contains(resource) {
                after == before.remove(resource)
            } else {
                after == before.insert(resource)
            }
        }),
{
    lemma_toggle_environment(state, environment);
    lemma_toggle_resource(state, resource);
    let environments = state.toggle_environment(environment).config.selected_environments();
    let resources = state.toggle_resource(resource).config.selected_resources();
    if state.config.has_environment(environment) {
        assert(environments =~= state.config.selected_environments().remove(environment));
    } else {
        assert(environments =~= state.config.selected_environments().insert(environment));
    }
    if state.config.has_resource(resource) {
        assert(resources =~= state.config.selected_resources().remove(resource));
    } else {
        assert(resources =~= state.config.selected_resources().insert(resource));
    }
}

/// Moving the focus always lands on a field, wherever it starts.
pub proof fn lemma_advance_lands_on_field(focus: usize, direction: Direction)
    ensures
        is_navigable(spec_advance(focus, direction.spec_delta())),
{
}

/// Every action keeps the focus on a field and the record well formed.
pub proof fn lemma_apply_keeps_wf(state: AppView, action: Action)
    requires
        state.wf(),
    ensures
        state.apply(action).wf(),
{
    match action {
        Action::ToggleOne => {
            match spec_field_at(state.focus) {
                Some(FieldKind::Environment(environment)) => {
                    lemma_toggle_environment(state, environment);
                },
                Some(FieldKind::Resource(resource)) => {
                    lemma_toggle_resource(state, resource);
                },
                _ => {},
            }
        },
        Action::ToggleAll => {
            lemma_toggle_all_environments(state);
            lemma_toggle_all_resources(state);
        },
        _ => {},
    }
}

/// Every turn keeps the focus on a field and the record well formed.
pub proof fn lemma_step_keeps_wf(state: AppView, event: KeyEvent)
    requires
        state.wf(),
    ensures
        state.step(event).wf(),
{
    match spec_dispatch(event, state.focus) {
        Some(action) => {
            lemma_apply_keeps_wf(state, action);
        },
        None => {},
    }
}

/// Whatever the keys, the focus of a session never rests on a section
/// header or off the form, and its selections stay free of repetitions and
/// of foreign keys.
pub proof fn lemma_run_keeps_wf(state: AppView, events: Seq<KeyEvent>)
    requires
        state.wf(),
    ensures
        state.run(events).wf(),
    decreases events.len(),
{
    if events.len() > 0 {
        lemma_run_keeps_wf(state, events.drop_last());
        lemma_step_keeps_wf(state.run(events.drop_last()), events.last());
    }
}

/// The focus after `count` steps forward.
pub open spec fn forward(focus: usize, count: nat) -> usize
    decreases count,
{
    if count == 0 {
        focus
    } else {
        spec_advance(forward(focus, (count - 1) as nat), 1)
    }
}

/// The focus after `count` steps backward.
pub open spec fn backward(focus: usize, count: nat) -> usize
    decreases count,
{
    if count == 0 {
        focus
    } else {
        spec_advance(backward(focus, (count - 1) as nat), -1)
    }
}

/// The rows that can take the focus, from the top of the form down.
pub open spec fn navigable_rows() -> Seq<usize> {
    seq![0, 1, 3, 4, 5, 6, 8, 9, 10, 11, 12, 13]
}

/// The place of a row among the rows that can take the focus.
pub open spec fn rank(focus: usize) -> int {
    if focus < 2 {
        focus as int
    } else if focus < 7 {
        focus - 1
    } else {
        focus - 2
    }
}

/// Moving the focus walks the table of navigable rows as a ring: `count`
/// steps forward from the row at place `p` lead to the row at place
/// `p + count`, taken round the table.
pub proof fn lemma_forward_walks_the_ring(focus: usize, count: nat)
    requires
        is_navigable(focus),
    ensures
        is_navigable(forward(focus, count)),
        forward(focus, count) == navigable_rows()[(rank(focus) + count) % 12],
    decreases count,
{
    if count > 0 {
        lemma_forward_walks_the_ring(focus, (count - 1) as nat);
    }
}

/// `count` steps backward from the row at place `p` lead to the row at
/// place `p - count`, taken round the table of navigable rows.
pub proof fn lemma_backward_walks_the_ring(focus: usize, count: nat)
    requires
        is_navigable(focus),
    ensures
        is_navigable(backward(focus, count)),
        backward(focus, count) == navigable_rows()[(rank(focus) - count) % 12],
    decreases count,
{
    if count > 0 {
        lemma_backward_walks_the_ring(focus, (count - 1) as nat);
    }
}

/// As many steps as there are fields, all forward or all backward, bring
/// the focus back to where it started.
pub proof fn lemma_full_turn_returns(focus: usize)
    requires
        is_navigable(focus),
    ensures
        forward(focus, NAVIGABLE_ROWS as nat) == focus,
        backward(focus, NAVIGABLE_ROWS as nat) == focus,
{
    lemma_forward_walks_the_ring(focus, NAVIGABLE_ROWS as nat);
    lemma_backward_walks_the_ring(focus, NAVIGABLE_ROWS as nat);
}

/// The session after `count` actions that move the focus in one
/// direction.
pub open spec fn moved(state: AppView, direction: Direction, count: nat) -> AppView
    decreases count,
{
    if count == 0 {
        state
    } else {
        moved(state, direction, (count - 1) as nat).apply(Action::MoveFocus(direction))
    }
}

/// Moving the focus changes the focus alone, and takes it where the walk
/// over the rows leads.
pub proof fn lemma_moved_changes_focus_only(state: AppView, direction: Direction, count: nat)
    ensures
        moved(state, direction, count) == (AppView {
            focus: match direction {
                Direction::Forward => forward(state.focus, count),
                Direction::Backward => backward(state.focus, count),
            },
            ..state
        }),
    decreases count,
{
    if count > 0 {
        lemma_moved_changes_focus_only(state, direction, (count - 1) as nat);
    }
}

/// The session after a run of actions that move the focus, each in its own
/// direction.
pub open spec fn walked(state: AppView, moves: Seq<Direction>) -> AppView
    decreases moves.len(),
{
    if moves.len() == 0 {
        state
    } else {
        walked(state, moves.drop_last()).apply(Action::MoveFocus(moves.last()))
    }
}

/// Whatever the moves, a focus that starts on a field stays on fields, and
/// nothing but the focus changes.
pub proof fn lemma_walked_stays_on_fields(state: AppView, moves: Seq<Direction>)
    requires
        is_navigable(state.focus),
    ensures
        is_navigable(walked(state, moves).focus),
        walked(state, moves) == (AppView { focus: walked(state, moves).focus, ..state }),
    decreases moves.len(),
{
    if moves.len() > 0 {
        lemma_walked_stays_on_fields(state, moves.drop_last());
    }
}

/// As many moves as there are fields, all in one direction, leave the
/// session as it was.
pub proof fn lemma_full_turn_of_moves(state: AppView, direction: Direction)
    requires
        is_navigable(state.focus),
    ensures
        moved(state, direction, NAVIGABLE_ROWS as nat) == state,
{
    lemma_moved_changes_focus_only(state, direction, NAVIGABLE_ROWS as nat);
    lemma_full_turn_returns(state.focus);
}

/// However many times the focus is moved, and from whatever row, it rests
/// on a field after the first move.
pub proof fn lemma_moved_rests_on_a_field(state: AppView, direction: Direction, count: nat)
    requires
        count > 0,
    ensures
        is_navigable(moved(state, direction, count).focus),
{
}

/// A session that has ended takes no further input.
pub proof fn lemma_done_is_final(state: AppView, events: Seq<KeyEvent>)
    requires
        state.exit,
    ensures
        state.run(events) == state,
    decreases events.len(),
{
    if events.len() > 0 {
        lemma_done_is_final(state, events.drop_last());
    }
}

/// Pressing Escape in a session that goes on ends it cancelled, whatever
/// its focus, its record and its message. Validation is not run: the
/// record, the focus and the message stay as they were, and no record is
/// handed out.
pub proof fn lemma_cancel_ends_cancelled(state: AppView)
    requires
        !state.exit,
    ensures
        state.step(crate::input::spec_escape()).terminal_reason() == Some(
            TerminalReason::Cancelled,
        ),
        state.step(crate::input::spec_escape()).config == state.config,
        state.step(crate::input::spec_escape()).focus == state.focus,
        state.step(crate::input::spec_escape()).validation_error == state.validation_error,
        state.step(crate::input::spec_escape()).show_exit_screen,
        state.step(crate::input::spec_escape()).handed_out().is_none(),
{
}

/// After any run of keys that has not ended the session, Escape ends it
/// cancelled.
pub proof fn lemma_cancel_after_any_run(state: AppView, events: Seq<KeyEvent>)
    requires
        !state.run(events).exit,
    ensures
        state.run(events.push(crate::input::spec_escape())).terminal_reason() == Some(
            TerminalReason::Cancelled,
        ),
        state.run(events.push(crate::input::spec_escape())).handed_out().is_none(),
{
    let longer = events.push(crate::input::spec_escape());
    assert(longer.drop_last() == events);
    lemma_cancel_ends_cancelled(state.run(events));
}

/// Confirming a record that fails validation changes neither the record
/// nor the focus: the session goes on, with the reason as message.
pub proof fn lemma_failed_confirm_keeps_record(state: AppView)
    requires
        !state.exit,
        rejection(state.config).is_some(),
    ensures
        state.step(crate::input::spec_enter()).config == state.config,
        state.step(crate::input::spec_enter()).focus == state.focus,
        !state.step(crate::input::spec_enter()).exit,
        !state.step(crate::input::spec_enter()).confirmation,
        state.step(crate::input::spec_enter()).validation_error == rejection(state.config),
{
}

/// Confirming a record that passes validation ends the session
/// confirmed, with the record as it was.
pub proof fn lemma_passed_confirm_ends_confirmed(state: AppView)
    requires
        !state.exit,
        rejection(state.config).is_none(),
    ensures
        state.step(crate::input::spec_enter()).config == state.config,
        state.step(crate::input::spec_enter()).terminal_reason() == Some(
            TerminalReason::Confirmed,
        ),
        state.step(crate::input::spec_enter()).validation_error.is_none(),
{
}

/// A session that a turn ends confirmed holds a record that passes
/// validation.
pub proof fn lemma_confirmed_record_is_valid(state: AppView, event: KeyEvent)
    requires
        !state.exit,
        state.step(event).terminal_reason() == Some(TerminalReason::Confirmed),
    ensures
        rejection(state.step(event).config).is_none(),
{
}

/// A text without its last character; the empty text as it is.
pub open spec fn shortened(text: Seq<char>) -> Seq<char> {
    if text.len() > 0 {
        text.drop_last()
    } else {
        text
    }
}

} // verus!
