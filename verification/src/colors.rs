//! Theme documents: a name and the colors it overrides.

use vstd::prelude::*;
use vstd::string::*;

use crate::keys::{ColorKey, COLOR_KEY_COUNT};
use crate::text::{copy_of, same_optional_text, same_text, text_of};

verus! {

/// What a theme document says: its name, and a color for each role that it
/// overrides. A role outside the map's domain is left to the toolkit.
pub struct Theme {
    pub name: Seq<char>,
    pub colors: Map<ColorKey, Seq<char>>,
}

impl Theme {
    /// This theme with the color of one role replaced, or removed where
    /// `color` is `None`.
    pub open spec fn with(self, key: ColorKey, color: Option<Seq<char>>) -> Theme {
        Theme {
            name: self.name,
            colors: match color {
                Some(text) => self.colors.insert(key, text),
                None => self.colors.remove(key),
            },
        }
    }
}

/// What the name of a theme's file adds to the name of the theme.
pub const THEME_EXTENSION: &'static str = ".ron";

/// The name of the file that holds the theme of a given name.
pub open spec fn theme_file(name: Seq<char>) -> Seq<char> {
    name + THEME_EXTENSION@
}

/// Themes of different names are kept in different files.
pub proof fn lemma_theme_file_injective(a: Seq<char>, b: Seq<char>)
    requires
        theme_file(a) == theme_file(b),
    ensures
        a == b,
{
    assert(theme_file(a).len() == a.len() + THEME_EXTENSION@.len());
    assert(theme_file(b).len() == b.len() + THEME_EXTENSION@.len());
    assert(a =~= theme_file(a).subrange(0, a.len() as int));
    assert(b =~= theme_file(b).subrange(0, b.len() as int));
}

/// The name of the file that holds the theme called `name`.
pub fn theme_file_name(name: &str) -> (file: String)
    ensures
        file@ == theme_file(name@),
{
    let mut file = String::from_str(name);
    file.append(THEME_EXTENSION);
    file
}

/// The refusal to write a color under a name that is no color role.
#[derive(Debug)]
pub struct InvalidKey {
    /// The name that was refused.
    pub key: String,
}

impl InvalidKey {
    /// The refusal in words.
    pub fn message(&self) -> (text: String)
        ensures
            text@ == "Invalid key: "@ + self.key@,
    {
        let mut text = String::from_str("Invalid key: ");
        text.append(self.key.as_str());
        text
    }
}

/// A theme document: a named bundle of optional color overrides, one per
/// color role.
#[derive(Debug)]
pub struct ColorOverrides {
    /// name
    pub name: String,
    pub accent_bg_color: Option<String>,
    pub accent_fg_color: Option<String>,
    pub accent_color: Option<String>,
    // Destructive-action buttons
    pub destructive_bg_color: Option<String>,
    pub destructive_fg_color: Option<String>,
    pub destructive_color: Option<String>,
    // Levelbars, entries, labels and infobars
    pub success_color: Option<String>,
    pub success_bg_color: Option<String>,
    pub success_fg_color: Option<String>,
    pub warning_color: Option<String>,
    pub warning_bg_color: Option<String>,
    pub warning_fg_color: Option<String>,
    pub error_color: Option<String>,
    pub error_bg_color: Option<String>,
    pub error_fg_color: Option<String>,
    // Main window background
    pub window_bg_color: Option<String>,
    pub window_fg_color: Option<String>,
    // Content areas, e.g. text views
    pub view_bg_color: Option<String>,
    pub view_fg_color: Option<String>,
    // Header bar, search bar, tab bar
    pub headerbar_bg_color: Option<String>,
    pub headerbar_fg_color: Option<String>,
    pub headerbar_border_color: Option<String>,
    pub headerbar_backdrop_color: Option<String>,
    pub headerbar_shade_color: Option<String>,
    // Cards, boxed lists
    pub card_bg_color: Option<String>,
    pub card_fg_color: Option<String>,
    pub card_border_color: Option<String>,
    // Popovers
    pub popover_bg_color: Option<String>,
    pub popover_fg_color: Option<String>,
    // Miscellaneous
    pub scrollbar_outline_color: Option<String>,
    pub window_outline_color: Option<String>,
    pub shade_color: Option<String>,
}

impl View for ColorOverrides {
    type V = Theme;

    open spec fn view(&self) -> Theme {
        Theme {
            name: self.name@,
            colors: Map::new(
                |key: ColorKey| self.slot(key) is Some,
                |key: ColorKey| (self.slot(key)->0)@,
            ),
        }
    }
}

impl Default for ColorOverrides {
    /// The document without a name that overrides nothing.
    fn default() -> (doc: Self)
        ensures
            doc@.name == Seq::<char>::empty(),
            doc@.colors == Map::<ColorKey, Seq<char>>::empty(),
    {
        let doc = ColorOverrides {
            name: String::new(),
            accent_bg_color: None,
            accent_fg_color: None,
            accent_color: None,
            destructive_bg_color: None,
            destructive_fg_color: None,
            destructive_color: None,
            success_color: None,
            success_bg_color: None,
            success_fg_color: None,
            warning_color: None,
            warning_bg_color: None,
            warning_fg_color: None,
            error_color: None,
            error_bg_color: None,
            error_fg_color: None,
            window_bg_color: None,
            window_fg_color: None,
            view_bg_color: None,
            view_fg_color: None,
            shade_color: None,
            headerbar_bg_color: None,
            headerbar_fg_color: None,
            headerbar_border_color: None,
            headerbar_backdrop_color: None,
            headerbar_shade_color: None,
            card_bg_color: None,
            card_fg_color: None,
            card_border_color: None,
            popover_bg_color: None,
            popover_fg_color: None,
            scrollbar_outline_color: None,
            window_outline_color: None,
        };
        assert(doc@.colors =~= Map::<ColorKey, Seq<char>>::empty());
        doc
    }
}

impl Clone for ColorOverrides {
    fn clone(&self) -> (copy: Self)
        ensures
            copy == *self,
    {
        ColorOverrides {
            name: self.name.clone(),
            accent_bg_color: copy_of(&self.accent_bg_color),
            accent_fg_color: copy_of(&self.accent_fg_color),
            accent_color: copy_of(&self.accent_color),
            destructive_bg_color: copy_of(&self.destructive_bg_color),
            destructive_fg_color: copy_of(&self.destructive_fg_color),
            destructive_color: copy_of(&self.destructive_color),
            success_color: copy_of(&self.success_color),
            success_bg_color: copy_of(&self.success_bg_color),
            success_fg_color: copy_of(&self.success_fg_color),
            warning_color: copy_of(&self.warning_color),
            warning_bg_color: copy_of(&self.warning_bg_color),
            warning_fg_color: copy_of(&self.warning_fg_color),
            error_color: copy_of(&self.error_color),
            error_bg_color: copy_of(&self.error_bg_color),
            error_fg_color: copy_of(&self.error_fg_color),
            window_bg_color: copy_of(&self.window_bg_color),
            window_fg_color: copy_of(&self.window_fg_color),
            view_bg_color: copy_of(&self.view_bg_color),
            view_fg_color: copy_of(&self.view_fg_color),
            shade_color: copy_of(&self.shade_color),
            headerbar_bg_color: copy_of(&self.headerbar_bg_color),
            headerbar_fg_color: copy_of(&self.headerbar_fg_color),
            headerbar_border_color: copy_of(&self.headerbar_border_color),
            headerbar_backdrop_color: copy_of(&self.headerbar_backdrop_color),
            headerbar_shade_color: copy_of(&self.headerbar_shade_color),
            card_bg_color: copy_of(&self.card_bg_color),
            card_fg_color: copy_of(&self.card_fg_color),
            card_border_color: copy_of(&self.card_border_color),
            popover_bg_color: copy_of(&self.popover_bg_color),
            popover_fg_color: copy_of(&self.popover_fg_color),
            scrollbar_outline_color: copy_of(&self.scrollbar_outline_color),
            window_outline_color: copy_of(&self.window_outline_color),
        }
    }
}

impl ColorOverrides {
    /// The field that holds the color of a role.
    pub open spec fn slot(&self, key: ColorKey) -> Option<String> {
        match key {
            ColorKey::AccentBgColor => self.accent_bg_color,
            ColorKey::AccentFgColor => self.accent_fg_color,
            ColorKey::AccentColor => self.accent_color,
            ColorKey::DestructiveBgColor => self.destructive_bg_color,
            ColorKey::DestructiveFgColor => self.destructive_fg_color,
            ColorKey::DestructiveColor => self.destructive_color,
            ColorKey::SuccessColor => self.success_color,
            ColorKey::SuccessBgColor => self.success_bg_color,
            ColorKey::SuccessFgColor => self.success_fg_color,
            ColorKey::WarningColor => self.warning_color,
            ColorKey::WarningBgColor => self.warning_bg_color,
            ColorKey::WarningFgColor => self.warning_fg_color,
            ColorKey::ErrorColor => self.error_color,
            ColorKey::ErrorBgColor => self.error_bg_color,
            ColorKey::ErrorFgColor => self.error_fg_color,
            ColorKey::WindowBgColor => self.window_bg_color,
            ColorKey::WindowFgColor => self.window_fg_color,
            ColorKey::ViewBgColor => self.view_bg_color,
            ColorKey::ViewFgColor => self.view_fg_color,
            ColorKey::ShadeColor => self.shade_color,
            ColorKey::HeaderbarBgColor => self.headerbar_bg_color,
            ColorKey::HeaderbarFgColor => self.headerbar_fg_color,
            ColorKey::HeaderbarBorderColor => self.headerbar_border_color,
            ColorKey::HeaderbarBackdropColor => self.headerbar_backdrop_color,
            ColorKey::HeaderbarShadeColor => self.headerbar_shade_color,
            ColorKey::CardBgColor => self.card_bg_color,
            ColorKey::CardFgColor => self.card_fg_color,
            ColorKey::CardBorderColor => self.card_border_color,
            ColorKey::PopoverBgColor => self.popover_bg_color,
            ColorKey::PopoverFgColor => self.popover_fg_color,
            ColorKey::ScrollbarOutlineColor => self.scrollbar_outline_color,
            ColorKey::WindowOutlineColor => self.window_outline_color,
        }
    }

    /// The color that this document gives to a role, if it gives one.
    pub fn get(&self, key: ColorKey) -> (color: &Option<String>)
        ensures
            *color == self.slot(key),
            text_of(*color) == self@.colors.get(key),
    {
        match key {
            ColorKey::AccentBgColor => &self.accent_bg_color,
            ColorKey::AccentFgColor => &self.accent_fg_color,
            ColorKey::AccentColor => &self.accent_color,
            ColorKey::DestructiveBgColor => &self.destructive_bg_color,
            ColorKey::DestructiveFgColor => &self.destructive_fg_color,
            ColorKey::DestructiveColor => &self.destructive_color,
            ColorKey::SuccessColor => &self.success_color,
            ColorKey::SuccessBgColor => &self.success_bg_color,
            ColorKey::SuccessFgColor => &self.success_fg_color,
            ColorKey::WarningColor => &self.warning_color,
            ColorKey::WarningBgColor => &self.warning_bg_color,
            ColorKey::WarningFgColor => &self.warning_fg_color,
            ColorKey::ErrorColor => &self.error_color,
            ColorKey::ErrorBgColor => &self.error_bg_color,
            ColorKey::ErrorFgColor => &self.error_fg_color,
            ColorKey::WindowBgColor => &self.window_bg_color,
            ColorKey::WindowFgColor => &self.window_fg_color,
            ColorKey::ViewBgColor => &self.view_bg_color,
            ColorKey::ViewFgColor => &self.view_fg_color,
            ColorKey::ShadeColor => &self.shade_color,
            ColorKey::HeaderbarBgColor => &self.headerbar_bg_color,
            ColorKey::HeaderbarFgColor => &self.headerbar_fg_color,
            ColorKey::HeaderbarBorderColor => &self.headerbar_border_color,
            ColorKey::HeaderbarBackdropColor => &self.headerbar_backdrop_color,
            ColorKey::HeaderbarShadeColor => &self.headerbar_shade_color,
            ColorKey::CardBgColor => &self.card_bg_color,
            ColorKey::CardFgColor => &self.card_fg_color,
            ColorKey::CardBorderColor => &self.card_border_color,
            ColorKey::PopoverBgColor => &self.popover_bg_color,
            ColorKey::PopoverFgColor => &self.popover_fg_color,
            ColorKey::ScrollbarOutlineColor => &self.scrollbar_outline_color,
            ColorKey::WindowOutlineColor => &self.window_outline_color,
        }
    }

    /// Gives a role the color `color`, or takes its color away where `color`
    /// is `None`. The name and the other roles keep what they had.
    pub fn set(&mut self, key: ColorKey, color: Option<String>)
        ensures
            final(self)@ == old(self)@.with(key, text_of(color)),
            final(self).slot(key) == color,
    {
        match key {
            ColorKey::AccentBgColor => self.accent_bg_color = color,
            ColorKey::AccentFgColor => self.accent_fg_color = color,
            ColorKey::AccentColor => self.accent_color = color,
            ColorKey::DestructiveBgColor => self.destructive_bg_color = color,
            ColorKey::DestructiveFgColor => self.destructive_fg_color = color,
            ColorKey::DestructiveColor => self.destructive_color = color,
            ColorKey::SuccessColor => self.success_color = color,
            ColorKey::SuccessBgColor => self.success_bg_color = color,
            ColorKey::SuccessFgColor => self.success_fg_color = color,
            ColorKey::WarningColor => self.warning_color = color,
            ColorKey::WarningBgColor => self.warning_bg_color = color,
            ColorKey::WarningFgColor => self.warning_fg_color = color,
            ColorKey::ErrorColor => self.error_color = color,
            ColorKey::ErrorBgColor => self.error_bg_color = color,
            ColorKey::ErrorFgColor => self.error_fg_color = color,
            ColorKey::WindowBgColor => self.window_bg_color = color,
            ColorKey::WindowFgColor => self.window_fg_color = color,
            ColorKey::ViewBgColor => self.view_bg_color = color,
            ColorKey::ViewFgColor => self.view_fg_color = color,
            ColorKey::ShadeColor => self.shade_color = color,
            ColorKey::HeaderbarBgColor => self.headerbar_bg_color = color,
            ColorKey::HeaderbarFgColor => self.headerbar_fg_color = color,
            ColorKey::HeaderbarBorderColor => self.headerbar_border_color = color,
            ColorKey::HeaderbarBackdropColor => self.headerbar_backdrop_color = color,
            ColorKey::HeaderbarShadeColor => self.headerbar_shade_color = color,
            ColorKey::CardBgColor => self.card_bg_color = color,
            ColorKey::CardFgColor => self.card_fg_color = color,
            ColorKey::CardBorderColor => self.card_border_color = color,
            ColorKey::PopoverBgColor => self.popover_bg_color = color,
            ColorKey::PopoverFgColor => self.popover_fg_color = color,
            ColorKey::ScrollbarOutlineColor => self.scrollbar_outline_color = color,
            ColorKey::WindowOutlineColor => self.window_outline_color = color,
        }
        assert(self@.colors =~= old(self)@.with(key, text_of(color)).colors);
    }

    /// The name of the file that holds this document.
    pub fn file_name(&self) -> (file: String)
        ensures
            file@ == theme_file(self@.name),
    {
        theme_file_name(self.name.as_str())
    }

    /// Writes the color of the role that `key` names. A name that is no
    /// role's identifier is refused, and the document stays as it was.
    pub fn set_key(&mut self, key: &str, value: Option<String>) -> (outcome: Result<
        (),
        InvalidKey,
    >)
        ensures
            ColorKey::named(key@) matches Some(role) ==> outcome is Ok && final(self)@ == old(
                self,
            )@.with(role, text_of(value)),
            ColorKey::named(key@) is None ==> outcome is Err && outcome->Err_0.key@ == key@
                && *final(self) == *old(self),
    {
        match ColorKey::from_name(key) {
            Some(role) => {
                self.set(role, value);
                Ok(())
            },
            None => Err(InvalidKey { key: String::from_str(key) }),
        }
    }

    /// Reads the color of the role that `key` names. A name that is no role's
    /// identifier reads as a role without a color.
    pub fn get_key(&self, key: &str) -> (color: Option<String>)
        ensures
            ColorKey::named(key@) matches Some(role) ==> text_of(color) == self@.colors.get(role),
            ColorKey::named(key@) is None ==> color is None,
    {
        match ColorKey::from_name(key) {
            Some(role) => copy_of(self.get(role)),
            None => None,
        }
    }

    /// Tells whether two documents say the same: the same name, and the same
    /// color or none for every role.
    pub fn same_content(&self, other: &ColorOverrides) -> (same: bool)
        ensures
            same == (self@ == other@),
    {
        if !same_text(self.name.as_str(), other.name.as_str()) {
            return false;
        }
        let mut rank: usize = 0;
        while rank < COLOR_KEY_COUNT
            invariant
                rank <= COLOR_KEY_COUNT,
                self.name@ == other.name@,
                forall|below: int|
                    0 <= below < rank ==> self@.colors.get(ColorKey::at(below))
                        == other@.colors.get(ColorKey::at(below)),
            decreases COLOR_KEY_COUNT - rank,
        {
            match ColorKey::from_rank(rank) {
                Some(key) => {
                    if !same_optional_text(self.get(key), other.get(key)) {
                        assert(self@.colors.get(key) != other@.colors.get(key));
                        return false;
                    }
                },
                None => {},
            }
            rank += 1;
        }
        proof {
            assert forall|key: ColorKey| #[trigger]
                self@.colors.get(key) == other@.colors.get(key) by {
                ColorKey::lemma_rank_at(key, 0);
                assert(ColorKey::at(key.rank() as int) == key);
            }
            assert forall|key: ColorKey| #[trigger]
                self@.colors.dom().contains(key) implies other@.colors.dom().contains(key)
                && self@.colors[key] == other@.colors[key] by {
                assert(self@.colors.get(key) == other@.colors.get(key));
            }
            assert forall|key: ColorKey| #[trigger]
                other@.colors.dom().contains(key) implies self@.colors.dom().contains(key) by {
                assert(self@.colors.get(key) == other@.colors.get(key));
            }
            assert(self@.colors =~= other@.colors);
        }
        true
    }
}

} // verus!
