//! Declarative setting items an extension exposes on its settings page.
//!
//! Every setting item carries the same base properties — identifier,
//! required flag, error message, description, caption — so the setters for
//! those live once, in [`SettingBasePropModifier`], and reach each concrete
//! item type through one [`SettingItem`] accessor rather than hand-written
//! per-type copies.
use vstd::prelude::*;

verus! {

/// The properties shared by every kind of setting item.
#[derive(Clone, Debug)]
pub struct BasePropSetting {
    /// The identifier of the setting, unique within one settings page.
    pub id: String,
    /// Whether the user must fill the setting in.
    pub is_required: bool,
    /// The message shown when the setting's value is invalid.
    pub error_message: String,
    /// Descriptive text shown with the setting.
    pub title: String,
    /// The caption shown next to the input.
    pub label: String,
}

impl BasePropSetting {
    /// Base properties for the setting called `id`: not required, all texts
    /// empty.
    pub fn new(id: &str) -> (r: Self)
        ensures
            r.id@ == id@,
            !r.is_required,
            r.error_message@ == Seq::<char>::empty(),
            r.title@ == Seq::<char>::empty(),
            r.label@ == Seq::<char>::empty(),
    {
        BasePropSetting {
            id: id.to_owned(),
            is_required: false,
            error_message: String::new(),
            title: String::new(),
            label: String::new(),
        }
    }
}

/// Access to the base properties every setting item embeds.
pub trait SettingItem: Sized {
    /// The item's base properties.
    spec fn base_prop_spec(self) -> BasePropSetting;

    /// The item with its base properties replaced and everything else kept.
    spec fn with_base_prop(self, base_prop: BasePropSetting) -> Self;

    /// Mutable access to the base properties; the rest of the item is
    /// untouched.
    fn base_prop_mut(&mut self) -> (b: &mut BasePropSetting)
        ensures
            *b == old(self).base_prop_spec(),
            *final(self) == old(self).with_base_prop(*final(b)),
    ;

    /// Law connecting the two spec views: replacing the base properties
    /// stores exactly them.
    proof fn lemma_with_base_prop(self, base_prop: BasePropSetting)
        ensures
            self.with_base_prop(base_prop).base_prop_spec() == base_prop,
    ;
}

/// The setters shared by every setting item. Each replaces exactly one base
/// property and keeps the rest of the item; they come as default bodies, so
/// a setting type gets all of them by implementing [`SettingItem`] alone.
pub trait SettingBasePropModifier: SettingItem {
    /// Marks the setting as required or optional.
    fn is_required(self, is_required: bool) -> (r: Self)
        ensures
            r == self.with_base_prop(
                (BasePropSetting { is_required, ..self.base_prop_spec() }),
            ),
    {
        let mut item = self;
        let b = item.base_prop_mut();
        b.is_required = is_required;
        item
    }

    /// Sets the message shown when the setting's value is invalid.
    fn error_message(self, error_message: &str) -> (r: Self)
        ensures
            r == self.with_base_prop(r.base_prop_spec()),
            r.base_prop_spec().error_message@ == error_message@,
            r.base_prop_spec() == (BasePropSetting {
                error_message: r.base_prop_spec().error_message,
                ..self.base_prop_spec()
            }),
    {
        let text = error_message.to_owned();
        let ghost orig = self;
        let ghost replaced = (BasePropSetting { error_message: text, ..self.base_prop_spec() });
        let mut item = self;
        let b = item.base_prop_mut();
        b.error_message = text;
        proof {
            orig.lemma_with_base_prop(replaced);
        }
        item
    }

    /// Sets the caption shown next to the input.
    fn caption(self, caption: &str) -> (r: Self)
        ensures
            r == self.with_base_prop(r.base_prop_spec()),
            r.base_prop_spec().label@ == caption@,
            r.base_prop_spec() == (BasePropSetting {
                label: r.base_prop_spec().label,
                ..self.base_prop_spec()
            }),
    {
        let text = caption.to_owned();
        let ghost orig = self;
        let ghost replaced = (BasePropSetting { label: text, ..self.base_prop_spec() });
        let mut item = self;
        let b = item.base_prop_mut();
        b.label = text;
        proof {
            orig.lemma_with_base_prop(replaced);
        }
        item
    }

    /// Sets the descriptive text shown for the setting.
    fn description(self, description: &str) -> (r: Self)
        ensures
            r == self.with_base_prop(r.base_prop_spec()),
            r.base_prop_spec().title@ == description@,
            r.base_prop_spec() == (BasePropSetting {
                title: r.base_prop_spec().title,
                ..self.base_prop_spec()
            }),
    {
        let text = description.to_owned();
        let ghost orig = self;
        let ghost replaced = (BasePropSetting { title: text, ..self.base_prop_spec() });
        let mut item = self;
        let b = item.base_prop_mut();
        b.title = text;
        proof {
            orig.lemma_with_base_prop(replaced);
        }
        item
    }
}

impl<T: SettingItem> SettingBasePropModifier for T {
}

/// A setting item that takes free-form text.
#[derive(Clone, Debug)]
pub struct TextSetting {
    /// Placeholder text for the input field.
    pub placeholder: String,
    /// A pattern the input must match, as the host interprets it.
    pub pattern: String,
    /// Whether the input field allows multiple lines.
    pub is_multiline: bool,
    /// The shared base properties.
    pub base_prop: BasePropSetting,
    /// The current value, if any has been set.
    pub value: Option<String>,
}

impl SettingItem for TextSetting {
    open spec fn base_prop_spec(self) -> BasePropSetting {
        self.base_prop
    }

    open spec fn with_base_prop(self, base_prop: BasePropSetting) -> Self {
        TextSetting { base_prop, ..self }
    }

    fn base_prop_mut(&mut self) -> (b: &mut BasePropSetting) {
        &mut self.base_prop
    }

    proof fn lemma_with_base_prop(self, base_prop: BasePropSetting) {
    }
}

impl TextSetting {
    /// Creates a text setting with the given identifier, which should be
    /// unique across all settings of one page: single-line, with empty
    /// placeholder and pattern, and no value.
    pub fn new(id: &str) -> (r: Self)
        ensures
            r.base_prop.id@ == id@,
            !r.base_prop.is_required,
            r.placeholder@ == Seq::<char>::empty(),
            r.pattern@ == Seq::<char>::empty(),
            !r.is_multiline,
            r.value is None,
    {
        TextSetting {
            placeholder: String::new(),
            pattern: String::new(),
            is_multiline: false,
            base_prop: BasePropSetting::new(id),
            value: None,
        }
    }

    /// Sets the placeholder text for the input field.
    pub fn placeholder(self, placeholder: &str) -> (r: Self)
        ensures
            r.placeholder@ == placeholder@,
            r == (TextSetting { placeholder: r.placeholder, ..self }),
    {
        TextSetting { placeholder: placeholder.to_owned(), ..self }
    }

    /// Sets the pattern the input must match.
    pub fn pattern(self, pattern: &str) -> (r: Self)
        ensures
            r.pattern@ == pattern@,
            r == (TextSetting { pattern: r.pattern, ..self }),
    {
        TextSetting { pattern: pattern.to_owned(), ..self }
    }

    /// Specifies whether the input field allows multiple lines.
    pub fn is_multiline(self, is_multiline: bool) -> (r: Self)
        ensures
            r == (TextSetting { is_multiline, ..self }),
    {
        TextSetting { is_multiline, ..self }
    }

    /// Specifies the value used when no prior settings are saved.
    pub fn default(self, value: &str) -> (r: Self)
        ensures
            r.value matches Some(v) && v@ == value@,
            r == (TextSetting { value: r.value, ..self }),
    {
        TextSetting { value: Some(value.to_owned()), ..self }
    }
}

/// A setting item holding a boolean, shown as a toggle.
#[derive(Clone, Debug)]
pub struct ToggleSetting {
    /// The shared base properties.
    pub base_prop: BasePropSetting,
    /// The current value, if any has been set.
    pub value: Option<bool>,
}

impl SettingItem for ToggleSetting {
    open spec fn base_prop_spec(self) -> BasePropSetting {
        self.base_prop
    }

    open spec fn with_base_prop(self, base_prop: BasePropSetting) -> Self {
        ToggleSetting { base_prop, ..self }
    }

    fn base_prop_mut(&mut self) -> (b: &mut BasePropSetting) {
        &mut self.base_prop
    }

    proof fn lemma_with_base_prop(self, base_prop: BasePropSetting) {
    }
}

impl ToggleSetting {
    /// Creates a toggle setting with the given identifier, which should be
    /// unique across all settings of one page; no value is set.
    pub fn new(id: &str) -> (r: Self)
        ensures
            r.base_prop.id@ == id@,
            !r.base_prop.is_required,
            r.value is None,
    {
        ToggleSetting { base_prop: BasePropSetting::new(id), value: None }
    }

    /// Specifies the value used when no prior settings are saved.
    pub fn default(self, value: bool) -> (r: Self)
        ensures
            r.value == Some(value),
            r == (ToggleSetting { value: r.value, ..self }),
    {
        ToggleSetting { value: Some(value), ..self }
    }
}

/// One selectable choice of a [`ChoiceSetSetting`]: a value the extension
/// stores and a title the user sees. Implement it for your own type to use
/// that type in a choice set, keeping the values distinct.
pub trait Choice: Sized + Clone {
    /// The stored value of the choice, unique across the set.
    fn value(&self) -> &str;

    /// The title shown for the choice.
    fn title(&self) -> &str;
}

impl Choice for String {
    fn value(&self) -> &str {
        self.as_str()
    }

    fn title(&self) -> &str {
        self.as_str()
    }
}

impl Choice for &'static str {
    fn value(&self) -> &str {
        self
    }

    fn title(&self) -> &str {
        self
    }
}

/// A setting item where the user picks one of a fixed set of choices.
#[derive(Clone, Debug)]
pub struct ChoiceSetSetting<T: Choice> {
    /// The selectable choices, in the order they are shown.
    pub choices: Vec<T>,
    /// The shared base properties.
    pub base_prop: BasePropSetting,
    /// The current selection, if any has been set.
    pub value: Option<T>,
}

impl<T: Choice> SettingItem for ChoiceSetSetting<T> {
    open spec fn base_prop_spec(self) -> BasePropSetting {
        self.base_prop
    }

    open spec fn with_base_prop(self, base_prop: BasePropSetting) -> Self {
        ChoiceSetSetting { base_prop, ..self }
    }

    fn base_prop_mut(&mut self) -> (b: &mut BasePropSetting) {
        &mut self.base_prop
    }

    proof fn lemma_with_base_prop(self, base_prop: BasePropSetting) {
    }
}

impl<T: Choice> ChoiceSetSetting<T> {
    /// Creates a choice set with the given identifier, which should be
    /// unique across all settings of one page: no choices, no selection.
    pub fn new(id: &str) -> (r: Self)
        ensures
            r.base_prop.id@ == id@,
            !r.base_prop.is_required,
            r.choices@ == Seq::<T>::empty(),
            r.value is None,
    {
        let r = ChoiceSetSetting {
            choices: Vec::new(),
            base_prop: BasePropSetting::new(id),
            value: None,
        };
        proof {
            assert(r.choices@ =~= Seq::<T>::empty());
        }
        r
    }

    /// Appends one choice to the set.
    pub fn add_choice(self, choice: T) -> (r: Self)
        ensures
            r.choices@ == self.choices@.push(choice),
            r == (ChoiceSetSetting { choices: r.choices, ..self }),
    {
        let mut choices = self.choices;
        choices.push(choice);
        ChoiceSetSetting { choices, ..self }
    }

    /// Replaces every existing choice with `choices`.
    pub fn choices(self, choices: Vec<T>) -> (r: Self)
        ensures
            r.choices == choices,
            r == (ChoiceSetSetting { choices: r.choices, ..self }),
    {
        ChoiceSetSetting { choices, ..self }
    }

    /// Specifies the selection used when no prior settings are saved.
    pub fn default(self, value: T) -> (r: Self)
        ensures
            r.value == Some(value),
            r == (ChoiceSetSetting { value: r.value, ..self }),
    {
        ChoiceSetSetting { value: Some(value), ..self }
    }
}

} // verus!
