//! Behavior of the setting items and their shared base-property setters.
use cmdpal::settings::{
    BasePropSetting, Choice, ChoiceSetSetting, SettingBasePropModifier, TextSetting,
    ToggleSetting,
};

#[test]
fn text_setting_builders_fill_every_field() {
    let setting = TextSetting::new("greeting")
        .placeholder("say hi")
        .pattern("[a-z]+")
        .is_multiline(true)
        .default("hello");

    assert_eq!(setting.base_prop.id, "greeting");
    assert!(!setting.base_prop.is_required);
    assert_eq!(setting.placeholder, "say hi");
    assert_eq!(setting.pattern, "[a-z]+");
    assert!(setting.is_multiline);
    assert_eq!(setting.value.as_deref(), Some("hello"));
}

#[test]
fn base_prop_setters_reach_every_setting_kind() {
    let text = TextSetting::new("t")
        .is_required(true)
        .error_message("must not be empty")
        .caption("Name")
        .description("The name shown in the list");
    assert!(text.base_prop.is_required);
    assert_eq!(text.base_prop.error_message, "must not be empty");
    assert_eq!(text.base_prop.label, "Name");
    assert_eq!(text.base_prop.title, "The name shown in the list");
    // The other fields survive the shared setters.
    assert_eq!(text.base_prop.id, "t");
    assert!(!text.is_multiline);

    let toggle = ToggleSetting::new("dark").caption("Dark mode").default(true);
    assert_eq!(toggle.base_prop.label, "Dark mode");
    assert_eq!(toggle.value, Some(true));

    let choices: ChoiceSetSetting<&'static str> =
        ChoiceSetSetting::new("size").is_required(false).description("Text size");
    assert_eq!(choices.base_prop.title, "Text size");
}

#[test]
fn toggle_setting_starts_unset() {
    let toggle = ToggleSetting::new("flag");
    assert_eq!(toggle.base_prop.id, "flag");
    assert_eq!(toggle.value, None);
    assert_eq!(toggle.default(false).value, Some(false));
}

#[test]
fn choice_set_accumulates_and_replaces_choices() {
    let set: ChoiceSetSetting<String> = ChoiceSetSetting::new("lang")
        .add_choice(String::from("en"))
        .add_choice(String::from("de"));
    assert_eq!(set.choices, vec![String::from("en"), String::from("de")]);

    let replaced = set.choices(vec![String::from("fr")]).default(String::from("fr"));
    assert_eq!(replaced.choices, vec![String::from("fr")]);
    assert_eq!(replaced.value, Some(String::from("fr")));
}

#[test]
fn plain_strings_are_their_own_choice_value_and_title() {
    let s = String::from("medium");
    assert_eq!(Choice::value(&s), "medium");
    assert_eq!(Choice::title(&s), "medium");
    let st = "large";
    assert_eq!(Choice::value(&st), "large");
    assert_eq!(Choice::title(&st), "large");
}

#[test]
fn base_prop_new_starts_blank() {
    let base = BasePropSetting::new("x");
    assert_eq!(base.id, "x");
    assert!(!base.is_required);
    assert!(base.error_message.is_empty());
    assert!(base.title.is_empty());
    assert!(base.label.is_empty());
}
