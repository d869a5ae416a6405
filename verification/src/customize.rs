//! The dialogs that give an item a color and an icon of its own.

use crate::input::{Key, Propagation};
use crate::text::{characters, concat_text, same_text, starts_with_text, text_between};
use vstd::prelude::*;

verus! {

/// A color of the palette, by its place there.
#[derive(Clone, Copy, Debug, PartialEq, Eq, Structural)]
pub struct FolderColor {
    pub place: u8,
}

/// The color of an item: one of the palette, or any other as a hexadecimal number.
#[derive(Debug)]
pub enum FolderColorValue {
    Preset(FolderColor),
    Custom(String),
}

impl FolderColorValue {
    /// The same color once more.
    pub fn duplicate(&self) -> (result: Self)
        ensures
            result == *self,
    {
        match self {
            FolderColorValue::Preset(color) => FolderColorValue::Preset(*color),
            FolderColorValue::Custom(hex) => FolderColorValue::Custom(hex.clone()),
        }
    }
}

/// The row of colors: which of them is chosen. Without a choice the item has that of the theme.
#[derive(Debug)]
pub struct FolderColorBar {
    pub active: Option<FolderColorValue>,
}

fn duplicate_color(color: &Option<FolderColorValue>) -> (result: Option<FolderColorValue>)
    ensures
        result == *color,
{
    match color {
        Some(color) => Some(color.duplicate()),
        None => None,
    }
}

impl FolderColorBar {
    /// The row with a choice made before.
    pub fn build_folder_color_bar(initial_color: Option<FolderColorValue>) -> (result: Self)
        ensures
            result.active == initial_color,
    {
        FolderColorBar { active: initial_color }
    }

    /// Whether a color of the palette is the one chosen.
    pub open spec fn is_preset(&self, color: FolderColor) -> bool {
        self.active == Some(FolderColorValue::Preset(color))
    }

    /// Whether the dot of the theme is marked.
    pub fn theme_is_active(&self) -> (result: bool)
        ensures
            result == (self.active is None),
    {
        self.active.is_none()
    }

    /// Whether the dot of a color of the palette is marked.
    pub fn preset_is_active(&self, color: FolderColor) -> (result: bool)
        ensures
            result == self.is_preset(color),
    {
        match &self.active {
            Some(FolderColorValue::Preset(active)) => *active == color,
            _ => false,
        }
    }

    /// The color in the dot of any other color, where one is chosen.
    pub fn custom_color(&self) -> (result: Option<String>)
        ensures
            result == match self.active {
                Some(FolderColorValue::Custom(hex)) => Some(hex),
                _ => None,
            },
    {
        match &self.active {
            Some(FolderColorValue::Custom(hex)) => Some(hex.clone()),
            _ => None,
        }
    }

    /// What the dot of any other color says.
    pub fn custom_tooltip(&self) -> (result: String)
        ensures
            result@ == match self.active {
                Some(FolderColorValue::Custom(hex)) => "Custom ("@ + hex@ + ")"@,
                _ => "Custom color…"@,
            },
    {
        match &self.active {
            Some(FolderColorValue::Custom(hex)) => {
                let mut text: String = concat_text("Custom (", hex.as_str());
                text.append(")");
                text
            },
            _ => "Custom color…".to_owned(),
        }
    }

    /// Takes a click on the dot of the theme. Gives the color that the item then has.
    pub fn theme_clicked(&mut self) -> (result: Option<FolderColorValue>)
        ensures
            result is None,
            final(self).active is None,
    {
        self.active = None;
        None
    }

    /// Takes a click on the dot of a color of the palette; the one that is chosen is given up. Gives
    /// the color that the item then has.
    pub fn preset_clicked(&mut self, color: FolderColor) -> (result: Option<FolderColorValue>)
        ensures
            result == final(self).active,
            result == if old(self).is_preset(color) {
                None
            } else {
                Some(FolderColorValue::Preset(color))
            },
    {
        if self.preset_is_active(color) {
            self.active = None;
        } else {
            self.active = Some(FolderColorValue::Preset(color));
        }
        duplicate_color(&self.active)
    }

    /// Takes the choice of any other color. Gives the color that the item then has.
    pub fn custom_chosen(&mut self, hex: String) -> (result: Option<FolderColorValue>)
        ensures
            result == final(self).active,
            result == Some(FolderColorValue::Custom(hex)),
    {
        self.active = Some(FolderColorValue::Custom(hex));
        duplicate_color(&self.active)
    }

    /// The color that the choice of any other begins with. `preset_hex` is that of the color of the
    /// palette that is chosen, and `can_be_read` tells whether the active color can be read; one
    /// that cannot is passed over.
    pub fn custom_start(&self, preset_hex: &str, can_be_read: bool) -> (result: String)
        ensures
            result@ == match self.active {
                None => "#34d399"@,
                Some(color) => if !can_be_read {
                    "#34d399"@
                } else {
                    match color {
                        FolderColorValue::Preset(_) => preset_hex@,
                        FolderColorValue::Custom(hex) => hex@,
                    }
                },
            },
    {
        if !can_be_read {
            return "#34d399".to_owned();
        }
        match &self.active {
            None => "#34d399".to_owned(),
            Some(FolderColorValue::Preset(_)) => preset_hex.to_owned(),
            Some(FolderColorValue::Custom(hex)) => hex.clone(),
        }
    }
}

/// What the preference for the icon of an item is, when the icon is an emoji.
pub open spec fn emoji_preference(emoji: Seq<char>) -> Seq<char> {
    "emoji:"@ + emoji
}

/// The emoji in a preference for an icon.
pub open spec fn emoji_of(preference: Seq<char>) -> Option<Seq<char>> {
    if "emoji:"@.is_prefix_of(preference) {
        Some(preference.skip(6))
    } else {
        None
    }
}

/// The emoji in a preference for an icon.
pub fn custom_emoji(preference: &str) -> (result: Option<String>)
    ensures
        match result {
            Some(emoji) => emoji_of(preference@) == Some(emoji@),
            None => emoji_of(preference@) is None,
        },
{
    if starts_with_text(preference, "emoji:") {
        proof {
            reveal_strlit("emoji:");
        }
        let chars: Vec<char> = characters(preference);
        let end: usize = chars.len();
        let emoji: String = text_between(&chars, 6, end);
        assert(emoji@ == preference@.skip(6));
        Some(emoji)
    } else {
        None
    }
}

/// The dialog that gives an item a color and an icon.
#[derive(Debug)]
pub struct CustomizeDialog {
    pub colors: FolderColorBar,
    /// The preference for the icon: its name, or an emoji.
    pub icon: Option<String>,
    pub clear_sensitive: bool,
}

/// What the button of the emoji says.
pub open spec fn emoji_button_text(icon: Option<Seq<char>>) -> Seq<char> {
    match icon {
        Some(preference) => match emoji_of(preference) {
            Some(emoji) => "Emoji  "@ + emoji,
            None => "Choose Emoji…"@,
        },
        None => "Choose Emoji…"@,
    }
}

impl CustomizeDialog {
    /// The preference for the icon, over its characters.
    pub open spec fn icon_view(&self) -> Option<Seq<char>> {
        match self.icon {
            Some(icon) => Some(icon@),
            None => None,
        }
    }

    /// The dialog for an item that has a color and an icon of its own, or not.
    pub fn show_customize_modal(color: Option<FolderColorValue>, icon: Option<String>) -> (result:
        Self)
        ensures
            result.colors.active == color,
            result.icon == icon,
            result.clear_sensitive == (color is Some || icon is Some),
    {
        let clear_sensitive: bool = color.is_some() || icon.is_some();
        CustomizeDialog {
            colors: FolderColorBar::build_folder_color_bar(color),
            icon,
            clear_sensitive,
        }
    }

    /// Whether the button of an icon is marked.
    pub fn icon_is_active(&self, name: &str) -> (result: bool)
        ensures
            result == (self.icon_view() == Some(name@)),
    {
        match &self.icon {
            Some(icon) => same_text(icon.as_str(), name),
            None => false,
        }
    }

    /// What the button of the emoji says.
    pub fn emoji_label(&self) -> (result: String)
        ensures
            result@ == emoji_button_text(self.icon_view()),
    {
        match &self.icon {
            Some(icon) => match custom_emoji(icon.as_str()) {
                Some(emoji) => concat_text("Emoji  ", emoji.as_str()),
                None => "Choose Emoji…".to_owned(),
            },
            None => "Choose Emoji…".to_owned(),
        }
    }

    /// Takes that a color was chosen. Whatever was chosen can then be cleared.
    pub fn color_selected(&mut self)
        ensures
            final(self).colors == old(self).colors,
            final(self).icon == old(self).icon,
            final(self).clear_sensitive,
    {
        self.clear_sensitive = true;
    }

    /// Takes the choice of an icon. Gives the preference for it.
    pub fn icon_selected(&mut self, name: &str) -> (result: String)
        ensures
            result@ == name@,
            final(self).icon == Some(result),
            final(self).colors == old(self).colors,
            final(self).clear_sensitive,
    {
        let preference: String = name.to_owned();
        self.icon = Some(preference.clone());
        self.clear_sensitive = true;
        preference
    }

    /// Takes the choice of an emoji. Gives the preference for it.
    pub fn emoji_picked(&mut self, emoji: &str) -> (result: String)
        ensures
            result@ == emoji_preference(emoji@),
            final(self).icon == Some(result),
            final(self).colors == old(self).colors,
            final(self).clear_sensitive,
    {
        let preference: String = concat_text("emoji:", emoji);
        self.icon = Some(preference.clone());
        self.clear_sensitive = true;
        preference
    }

    /// Takes that the color and the icon are cleared.
    pub fn cleared(&mut self)
        ensures
            final(self).colors.active is None,
            final(self).icon is None,
            !final(self).clear_sensitive,
    {
        self.colors.active = None;
        self.icon = None;
        self.clear_sensitive = false;
    }
}

/// What the dialog is headed by.
pub fn customize_title(is_directory: bool) -> (result: &'static str)
    ensures
        result@ == if is_directory {
            "Customize Folder"@
        } else {
            "Customize File"@
        },
{
    if is_directory {
        "Customize Folder"
    } else {
        "Customize File"
    }
}

/// The dialog that chooses any color. Its editor is a page behind the palette.
#[derive(Clone, Copy, Debug, PartialEq, Eq, Structural)]
pub struct CustomColorDialog {
    pub is_directory: bool,
    pub in_editor: bool,
}

impl CustomColorDialog {
    /// The dialog, at its palette.
    pub fn show_custom_color_modal(is_directory: bool) -> (result: Self)
        ensures
            result == (CustomColorDialog { is_directory, in_editor: false }),
    {
        CustomColorDialog { is_directory, in_editor: false }
    }

    /// What the dialog is headed by.
    pub fn title(&self) -> (result: &'static str)
        ensures
            result@ == if self.is_directory {
                "Custom Folder Color"@
            } else {
                "Custom File Color"@
            },
    {
        if self.is_directory {
            "Custom Folder Color"
        } else {
            "Custom File Color"
        }
    }

    /// What stands below the heading.
    pub fn subtitle(&self) -> (result: &'static str)
        ensures
            result@ == match (self.in_editor, self.is_directory) {
                (true, true) => "Customize folder color"@,
                (true, false) => "Customize file color"@,
                (false, true) => "Choose a color for this folder"@,
                (false, false) => "Choose a color for this file"@,
            },
    {
        match (self.in_editor, self.is_directory) {
            (true, true) => "Customize folder color",
            (true, false) => "Customize file color",
            (false, true) => "Choose a color for this folder",
            (false, false) => "Choose a color for this file",
        }
    }

    /// Whether there is a way back to the palette.
    pub fn back_visible(&self) -> (result: bool)
        ensures
            result == self.in_editor,
    {
        self.in_editor
    }

    /// Takes that the editor is shown or hidden.
    pub fn editor_shown(&mut self, in_editor: bool)
        ensures
            *final(self) == (CustomColorDialog { in_editor, ..*old(self) }),
    {
        self.in_editor = in_editor;
    }

    /// Takes a key. Escape leaves the editor first and the dialog next, which `result.1` tells.
    pub fn key_pressed(&mut self, key: Key) -> (result: (Propagation, bool))
        ensures
            result.0 == if key is Escape {
                Propagation::Stop
            } else {
                Propagation::Proceed
            },
            result.1 == (key is Escape && !old(self).in_editor),
            *final(self) == if key is Escape {
                CustomColorDialog { in_editor: false, ..*old(self) }
            } else {
                *old(self)
            },
    {
        if key == Key::Escape {
            let dismissed: bool = !self.in_editor;
            self.in_editor = false;
            (Propagation::Stop, dismissed)
        } else {
            (Propagation::Proceed, false)
        }
    }
}

/// The preference for an emoji holds that emoji.
pub proof fn law_emoji_preference_reads_back(emoji: Seq<char>)
    ensures
        emoji_of(emoji_preference(emoji)) == Some(emoji),
{
    reveal_strlit("emoji:");
    let preference = emoji_preference(emoji);
    assert(preference.take(6) == "emoji:"@);
    assert(preference.skip(6) == emoji);
}

/// At most one dot of the row of colors is marked: that of the theme, one of the palette, or that of
/// any other color.
pub proof fn law_one_color_is_marked(bar: FolderColorBar, left: FolderColor, right: FolderColor)
    ensures
        bar.is_preset(left) && bar.is_preset(right) ==> left == right,
        bar.is_preset(left) ==> bar.active !is None && !(bar.active matches Some(
            FolderColorValue::Custom(_),
        )),
{
}

/// An icon preference is an emoji exactly where it goes on from the mark of one, and the button tells
/// that emoji.
pub proof fn law_only_marked_preferences_are_emoji(preference: Seq<char>, rest: Seq<char>)
    ensures
        emoji_of(preference) is Some <==> preference == emoji_preference(emoji_of(preference)->0),
        emoji_preference(rest).len() == rest.len() + 6,
        emoji_preference(rest) == "emoji:"@ + rest,
        emoji_button_text(Some(emoji_preference(rest))) == "Emoji  "@ + rest,
        emoji_of(preference) is None ==> emoji_button_text(Some(preference)) == emoji_button_text(
            None,
        ),
        emoji_button_text(None) == "Choose Emoji…"@,
{
    reveal_strlit("emoji:");
    law_emoji_preference_reads_back(rest);
    if "emoji:"@.is_prefix_of(preference) {
        assert(preference =~= "emoji:"@ + preference.skip(6));
    } else if preference == emoji_preference(emoji_of(preference)->0) {
        assert(preference.take(6) =~= "emoji:"@);
    }
}

/// The color that is marked is the one chosen, and none is where none was chosen or an own one.
pub proof fn law_chosen_color_is_marked(bar: FolderColorBar, color: FolderColor)
    ensures
        bar.active == Some(FolderColorValue::Preset(color)) ==> bar.is_preset(color),
        bar.active is None ==> !bar.is_preset(color),
{
}

/// The icon of the dialog is the preference it holds.
pub proof fn law_icon_is_the_preference(dialog: CustomizeDialog)
    ensures
        dialog.icon is None <==> dialog.icon_view() is None,
        dialog.icon is Some ==> dialog.icon_view() == Some(dialog.icon->0@),
{
}

} // verus!
