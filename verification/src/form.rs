//! The controls a person answers with: one choice from a set, and one
//! switch between two states. Both are controlled: the application owns
//! which option is chosen and whether a switch is on, and these report a
//! typed event asking for the change.

use vstd::prelude::*;
use crate::ids::opt_view;

verus! {

/// One option in a single-choice set.
#[derive(Debug, Clone, PartialEq, Eq)]
pub struct ChoiceOption {
    id: String,
    label: String,
    description: Option<String>,
    disabled: bool,
}

impl ChoiceOption {
    /// The stable option identifier.
    pub closed spec fn id_view(self) -> Seq<char> {
        self.id@
    }

    /// The visible label; also the option's accessible name.
    pub closed spec fn label_view(self) -> Seq<char> {
        self.label@
    }

    /// The second line under the label, if any.
    pub closed spec fn description_view(self) -> Option<Seq<char>> {
        opt_view(self.description)
    }

    /// Whether the option is unavailable.
    pub closed spec fn disabled_spec(self) -> bool {
        self.disabled
    }

    /// Creates an available option with a stable identifier and its label.
    pub fn new(id: &str, label: &str) -> (r: Self)
        ensures
            r.id_view() == id@,
            r.label_view() == label@,
            r.description_view() is None,
            !r.disabled_spec(),
    {
        ChoiceOption { id: id.to_owned(), label: label.to_owned(), description: None, disabled: false }
    }

    /// A second line under the label, for what the option means.
    pub fn description(self, description: &str) -> (r: Self)
        ensures
            r.description_view() == Some(description@),
            r.id_view() == self.id_view(),
            r.label_view() == self.label_view(),
            r.disabled_spec() == self.disabled_spec(),
    {
        ChoiceOption { description: Some(description.to_owned()), ..self }
    }

    /// Marks the option unavailable. It stays readable and stays announced.
    pub fn disabled(self, disabled: bool) -> (r: Self)
        ensures
            r.disabled_spec() == disabled,
            r.id_view() == self.id_view(),
            r.label_view() == self.label_view(),
            r.description_view() == self.description_view(),
    {
        ChoiceOption { disabled, ..self }
    }
}

/// What a choice group reports.
#[derive(Debug, Clone, PartialEq, Eq)]
pub enum ChoiceEvent {
    /// A person picked an option.
    Chosen {
        /// The group's identifier.
        group: String,
        /// The chosen option's identifier.
        option: String,
    },
}

/// A set of options where at most one is chosen.
#[derive(Debug, Clone)]
pub struct ChoiceGroup {
    id: String,
    label: Option<String>,
    options: Vec<ChoiceOption>,
    selected: Option<String>,
}

impl ChoiceGroup {
    /// The stable group identifier.
    pub closed spec fn id_view(self) -> Seq<char> {
        self.id@
    }

    /// The question the group asks, if it asks one itself.
    pub closed spec fn label_view(self) -> Option<Seq<char>> {
        opt_view(self.label)
    }

    /// The options, in the order they are offered.
    pub closed spec fn options_spec(self) -> Seq<ChoiceOption> {
        self.options@
    }

    /// The chosen option, if any.
    pub closed spec fn selected_view(self) -> Option<Seq<char>> {
        opt_view(self.selected)
    }

    /// Creates a group with a stable identifier and the question it asks.
    pub fn new(id: &str, label: &str) -> (r: Self)
        ensures
            r.id_view() == id@,
            r.label_view() == Some(label@),
            r.options_spec() == Seq::<ChoiceOption>::empty(),
            r.selected_view() is None,
    {
        ChoiceGroup { id: id.to_owned(), label: Some(label.to_owned()), options: Vec::new(), selected: None }
    }

    /// Creates a group with no visible question of its own, for a caller
    /// that has already asked one.
    pub fn unlabelled(id: &str) -> (r: Self)
        ensures
            r.id_view() == id@,
            r.label_view() is None,
            r.options_spec() == Seq::<ChoiceOption>::empty(),
            r.selected_view() is None,
    {
        ChoiceGroup { id: id.to_owned(), label: None, options: Vec::new(), selected: None }
    }

    /// Sets the options, in the order they are offered.
    pub fn options(self, options: Vec<ChoiceOption>) -> (r: Self)
        ensures
            r.options_spec() == options@,
            r.id_view() == self.id_view(),
            r.label_view() == self.label_view(),
            r.selected_view() == self.selected_view(),
    {
        ChoiceGroup { options, ..self }
    }

    /// Selects an option by identifier.
    pub fn selected(self, option: &str) -> (r: Self)
        ensures
            r.selected_view() == Some(option@),
            r.id_view() == self.id_view(),
            r.label_view() == self.label_view(),
            r.options_spec() == self.options_spec(),
    {
        ChoiceGroup { selected: Some(option.to_owned()), ..self }
    }

    /// Selects an option, or none.
    pub fn selection(self, option: Option<String>) -> (r: Self)
        ensures
            r.selected_view() == opt_view(option),
            r.id_view() == self.id_view(),
            r.label_view() == self.label_view(),
            r.options_spec() == self.options_spec(),
    {
        ChoiceGroup { selected: option, ..self }
    }

    /// The size of the set, as announced on the group.
    pub fn set_size(&self) -> (r: usize)
        ensures
            r == self.options_spec().len(),
    {
        self.options.len()
    }

    /// Whether the option at `index` is the chosen one.
    pub fn is_chosen(&self, index: usize) -> (r: bool)
        requires
            index < self.options_spec().len(),
        ensures
            r == (self.selected_view() == Some(self.options_spec()[index as int].id_view())),
    {
        match &self.selected {
            Some(s) => *s == self.options[index].id,
            None => false,
        }
    }

    /// The intent picking the option at `index` produces; an unavailable
    /// option produces none.
    pub fn choose_option(&self, index: usize) -> (r: Option<ChoiceEvent>)
        requires
            index < self.options_spec().len(),
        ensures
            r is Some <==> !self.options_spec()[index as int].disabled_spec(),
            r matches Some(ChoiceEvent::Chosen { group, option }) ==> group@ == self.id_view()
                && option@ == self.options_spec()[index as int].id_view(),
    {
        let option = &self.options[index];
        if option.disabled {
            None
        } else {
            Some(ChoiceEvent::Chosen { group: self.id.clone(), option: option.id.clone() })
        }
    }
}

/// Whether a toggle reads as a box that is ticked or a switch that is thrown.
#[derive(Debug, Clone, Copy, PartialEq, Eq, Structural)]
pub enum ToggleShape {
    /// A box: one of several things a person is choosing to include.
    Check,
    /// A switch: a setting that takes effect the moment it moves.
    Switch,
}

impl Default for ToggleShape {
    fn default() -> (r: Self)
        ensures
            r == ToggleShape::Check,
    {
        ToggleShape::Check
    }
}

/// The role a toggle is announced with; it follows the shape.
#[derive(Debug, Clone, Copy, PartialEq, Eq, Structural)]
pub enum ToggleRole {
    /// A check box.
    CheckBox,
    /// A switch.
    Switch,
}

/// What a toggle reports.
#[derive(Debug, Clone, PartialEq, Eq)]
pub enum ToggleEvent {
    /// A person asked for the toggle to change.
    Toggled {
        /// The toggle's identifier.
        id: String,
        /// The state being asked for.
        on: bool,
    },
}

/// A labelled control that is either on or off.
#[derive(Debug, Clone)]
pub struct Toggle {
    id: String,
    label: String,
    description: Option<String>,
    shape: ToggleShape,
    on: bool,
    disabled: bool,
}

impl Toggle {
    /// The stable toggle identifier.
    pub closed spec fn id_view(self) -> Seq<char> {
        self.id@
    }

    /// The label; also the accessible name.
    pub closed spec fn label_view(self) -> Seq<char> {
        self.label@
    }

    /// The second line under the label, if any.
    pub closed spec fn description_view(self) -> Option<Seq<char>> {
        opt_view(self.description)
    }

    /// The shape.
    pub closed spec fn shape_spec(self) -> ToggleShape {
        self.shape
    }

    /// The state the application set.
    pub closed spec fn on_spec(self) -> bool {
        self.on
    }

    /// Whether the toggle is unavailable.
    pub closed spec fn disabled_spec(self) -> bool {
        self.disabled
    }

    /// Creates an available check box that is off.
    pub fn new(id: &str, label: &str) -> (r: Self)
        ensures
            r.id_view() == id@,
            r.label_view() == label@,
            r.description_view() is None,
            r.shape_spec() == ToggleShape::Check,
            !r.on_spec(),
            !r.disabled_spec(),
    {
        Toggle {
            id: id.to_owned(),
            label: label.to_owned(),
            description: None,
            shape: ToggleShape::Check,
            on: false,
            disabled: false,
        }
    }

    /// A second line under the label.
    pub fn description(self, description: &str) -> (r: Self)
        ensures
            r.description_view() == Some(description@),
            r.id_view() == self.id_view(),
            r.label_view() == self.label_view(),
            r.shape_spec() == self.shape_spec(),
            r.on_spec() == self.on_spec(),
            r.disabled_spec() == self.disabled_spec(),
    {
        Toggle { description: Some(description.to_owned()), ..self }
    }

    /// Chooses the box or the switch.
    pub fn shape(self, shape: ToggleShape) -> (r: Self)
        ensures
            r.shape_spec() == shape,
            r.id_view() == self.id_view(),
            r.label_view() == self.label_view(),
            r.description_view() == self.description_view(),
            r.on_spec() == self.on_spec(),
            r.disabled_spec() == self.disabled_spec(),
    {
        Toggle { shape, ..self }
    }

    /// Sets the state. The application owns it.
    pub fn on(self, on: bool) -> (r: Self)
        ensures
            r.on_spec() == on,
            r.id_view() == self.id_view(),
            r.label_view() == self.label_view(),
            r.description_view() == self.description_view(),
            r.shape_spec() == self.shape_spec(),
            r.disabled_spec() == self.disabled_spec(),
    {
        Toggle { on, ..self }
    }

    /// Marks the toggle unavailable.
    pub fn disabled(self, disabled: bool) -> (r: Self)
        ensures
            r.disabled_spec() == disabled,
            r.id_view() == self.id_view(),
            r.label_view() == self.label_view(),
            r.description_view() == self.description_view(),
            r.shape_spec() == self.shape_spec(),
            r.on_spec() == self.on_spec(),
    {
        Toggle { disabled, ..self }
    }

    /// The role the toggle is announced with.
    pub fn role(&self) -> (r: ToggleRole)
        ensures
            r == if self.shape_spec() == ToggleShape::Check { ToggleRole::CheckBox } else { ToggleRole::Switch },
    {
        match self.shape {
            ToggleShape::Check => ToggleRole::CheckBox,
            ToggleShape::Switch => ToggleRole::Switch,
        }
    }

    /// The intent activating the toggle produces: a request for the
    /// opposite state; an unavailable toggle produces none.
    pub fn request(&self) -> (r: Option<ToggleEvent>)
        ensures
            r is Some <==> !self.disabled_spec(),
            r matches Some(ToggleEvent::Toggled { id, on }) ==> id@ == self.id_view() && on == !self.on_spec(),
    {
        if self.disabled {
            None
        } else {
            Some(ToggleEvent::Toggled { id: self.id.clone(), on: !self.on })
        }
    }
}

} // verus!
