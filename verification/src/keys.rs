//! The color roles a theme can override.

use vstd::prelude::*;
use vstd::string::*;

use crate::text::same_text;

verus! {

/// How many color roles there are.
pub const COLOR_KEY_COUNT: usize = 32;

/// A color role of the toolkit's palette.
///
/// The variants are listed in canonical order: the order in which a
/// stylesheet declares them.
#[derive(Clone, Copy, Debug, PartialEq, Eq, Structural)]
pub enum ColorKey {
    // Accent
    AccentBgColor,
    AccentFgColor,
    AccentColor,
    // Destructive-action buttons
    DestructiveBgColor,
    DestructiveFgColor,
    DestructiveColor,
    // Levelbars, entries, labels and infobars
    SuccessColor,
    SuccessBgColor,
    SuccessFgColor,
    WarningColor,
    WarningBgColor,
    WarningFgColor,
    ErrorColor,
    ErrorBgColor,
    ErrorFgColor,
    // Main window background
    WindowBgColor,
    WindowFgColor,
    // Content areas, e.g. text views
    ViewBgColor,
    ViewFgColor,
    // Shading
    ShadeColor,
    // Header bar, search bar, tab bar
    HeaderbarBgColor,
    HeaderbarFgColor,
    HeaderbarBorderColor,
    HeaderbarBackdropColor,
    HeaderbarShadeColor,
    // Cards, boxed lists
    CardBgColor,
    CardFgColor,
    CardBorderColor,
    // Popovers
    PopoverBgColor,
    PopoverFgColor,
    // Outlines
    ScrollbarOutlineColor,
    WindowOutlineColor,
}

impl ColorKey {
    /// The identifier under which the toolkit knows this role.
    pub open spec fn ident(self) -> Seq<char> {
        match self {
            ColorKey::AccentBgColor => "accent_bg_color"@,
            ColorKey::AccentFgColor => "accent_fg_color"@,
            ColorKey::AccentColor => "accent_color"@,
            ColorKey::DestructiveBgColor => "destructive_bg_color"@,
            ColorKey::DestructiveFgColor => "destructive_fg_color"@,
            ColorKey::DestructiveColor => "destructive_color"@,
            ColorKey::SuccessColor => "success_color"@,
            ColorKey::SuccessBgColor => "success_bg_color"@,
            ColorKey::SuccessFgColor => "success_fg_color"@,
            ColorKey::WarningColor => "warning_color"@,
            ColorKey::WarningBgColor => "warning_bg_color"@,
            ColorKey::WarningFgColor => "warning_fg_color"@,
            ColorKey::ErrorColor => "error_color"@,
            ColorKey::ErrorBgColor => "error_bg_color"@,
            ColorKey::ErrorFgColor => "error_fg_color"@,
            ColorKey::WindowBgColor => "window_bg_color"@,
            ColorKey::WindowFgColor => "window_fg_color"@,
            ColorKey::ViewBgColor => "view_bg_color"@,
            ColorKey::ViewFgColor => "view_fg_color"@,
            ColorKey::ShadeColor => "shade_color"@,
            ColorKey::HeaderbarBgColor => "headerbar_bg_color"@,
            ColorKey::HeaderbarFgColor => "headerbar_fg_color"@,
            ColorKey::HeaderbarBorderColor => "headerbar_border_color"@,
            ColorKey::HeaderbarBackdropColor => "headerbar_backdrop_color"@,
            ColorKey::HeaderbarShadeColor => "headerbar_shade_color"@,
            ColorKey::CardBgColor => "card_bg_color"@,
            ColorKey::CardFgColor => "card_fg_color"@,
            ColorKey::CardBorderColor => "card_border_color"@,
            ColorKey::PopoverBgColor => "popover_bg_color"@,
            ColorKey::PopoverFgColor => "popover_fg_color"@,
            ColorKey::ScrollbarOutlineColor => "scrollbar_outline_color"@,
            ColorKey::WindowOutlineColor => "window_outline_color"@,
        }
    }

    /// The position of this role in canonical order.
    pub open spec fn rank(self) -> nat {
        match self {
            ColorKey::AccentBgColor => 0,
            ColorKey::AccentFgColor => 1,
            ColorKey::AccentColor => 2,
            ColorKey::DestructiveBgColor => 3,
            ColorKey::DestructiveFgColor => 4,
            ColorKey::DestructiveColor => 5,
            ColorKey::SuccessColor => 6,
            ColorKey::SuccessBgColor => 7,
            ColorKey::SuccessFgColor => 8,
            ColorKey::WarningColor => 9,
            ColorKey::WarningBgColor => 10,
            ColorKey::WarningFgColor => 11,
            ColorKey::ErrorColor => 12,
            ColorKey::ErrorBgColor => 13,
            ColorKey::ErrorFgColor => 14,
            ColorKey::WindowBgColor => 15,
            ColorKey::WindowFgColor => 16,
            ColorKey::ViewBgColor => 17,
            ColorKey::ViewFgColor => 18,
            ColorKey::ShadeColor => 19,
            ColorKey::HeaderbarBgColor => 20,
            ColorKey::HeaderbarFgColor => 21,
            ColorKey::HeaderbarBorderColor => 22,
            ColorKey::HeaderbarBackdropColor => 23,
            ColorKey::HeaderbarShadeColor => 24,
            ColorKey::CardBgColor => 25,
            ColorKey::CardFgColor => 26,
            ColorKey::CardBorderColor => 27,
            ColorKey::PopoverBgColor => 28,
            ColorKey::PopoverFgColor => 29,
            ColorKey::ScrollbarOutlineColor => 30,
            ColorKey::WindowOutlineColor => 31,
        }
    }

    /// The role at a position of canonical order.
    pub open spec fn at(rank: int) -> ColorKey {
        if rank == 0 {
            ColorKey::AccentBgColor
        } else if rank == 1 {
            ColorKey::AccentFgColor
        } else if rank == 2 {
            ColorKey::AccentColor
        } else if rank == 3 {
            ColorKey::DestructiveBgColor
        } else if rank == 4 {
            ColorKey::DestructiveFgColor
        } else if rank == 5 {
            ColorKey::DestructiveColor
        } else if rank == 6 {
            ColorKey::SuccessColor
        } else if rank == 7 {
            ColorKey::SuccessBgColor
        } else if rank == 8 {
            ColorKey::SuccessFgColor
        } else if rank == 9 {
            ColorKey::WarningColor
        } else if rank == 10 {
            ColorKey::WarningBgColor
        } else if rank == 11 {
            ColorKey::WarningFgColor
        } else if rank == 12 {
            ColorKey::ErrorColor
        } else if rank == 13 {
            ColorKey::ErrorBgColor
        } else if rank == 14 {
            ColorKey::ErrorFgColor
        } else if rank == 15 {
            ColorKey::WindowBgColor
        } else if rank == 16 {
            ColorKey::WindowFgColor
        } else if rank == 17 {
            ColorKey::ViewBgColor
        } else if rank == 18 {
            ColorKey::ViewFgColor
        } else if rank == 19 {
            ColorKey::ShadeColor
        } else if rank == 20 {
            ColorKey::HeaderbarBgColor
        } else if rank == 21 {
            ColorKey::HeaderbarFgColor
        } else if rank == 22 {
            ColorKey::HeaderbarBorderColor
        } else if rank == 23 {
            ColorKey::HeaderbarBackdropColor
        } else if rank == 24 {
            ColorKey::HeaderbarShadeColor
        } else if rank == 25 {
            ColorKey::CardBgColor
        } else if rank == 26 {
            ColorKey::CardFgColor
        } else if rank == 27 {
            ColorKey::CardBorderColor
        } else if rank == 28 {
            ColorKey::PopoverBgColor
        } else if rank == 29 {
            ColorKey::PopoverFgColor
        } else if rank == 30 {
            ColorKey::ScrollbarOutlineColor
        } else {
            ColorKey::WindowOutlineColor
        }
    }

    /// The role that an identifier names, if it names one.
    pub open spec fn named(ident: Seq<char>) -> Option<ColorKey> {
        if exists|key: ColorKey| key.ident() == ident {
            Some(choose|key: ColorKey| key.ident() == ident)
        } else {
            None
        }
    }

    /// Canonical order numbers the roles from zero without gaps: `at` and
    /// `rank` are inverse to each other.
    pub proof fn lemma_rank_at(key: ColorKey, rank: int)
        ensures
            key.rank() < COLOR_KEY_COUNT,
            ColorKey::at(key.rank() as int) == key,
            0 <= rank < COLOR_KEY_COUNT ==> ColorKey::at(rank).rank() == rank,
    {
    }

    /// The length of an identifier, its first character and the character
    /// eight places before its end: enough to tell any two roles apart.
    spec fn fingerprint(ident: Seq<char>) -> (nat, char, char) {
        (ident.len(), ident[0], ident[ident.len() - 8])
    }

    proof fn lemma_fingerprint(key: ColorKey)
        ensures
            Self::fingerprint(key.ident()) == match key {
                ColorKey::AccentBgColor => (15nat, 'a', 'b'),
                ColorKey::AccentFgColor => (15nat, 'a', 'f'),
                ColorKey::AccentColor => (12nat, 'a', 'n'),
                ColorKey::DestructiveBgColor => (20nat, 'd', 'b'),
                ColorKey::DestructiveFgColor => (20nat, 'd', 'f'),
                ColorKey::DestructiveColor => (17nat, 'd', 'v'),
                ColorKey::SuccessColor => (13nat, 's', 's'),
                ColorKey::SuccessBgColor => (16nat, 's', 'b'),
                ColorKey::SuccessFgColor => (16nat, 's', 'f'),
                ColorKey::WarningColor => (13nat, 'w', 'n'),
                ColorKey::WarningBgColor => (16nat, 'w', 'b'),
                ColorKey::WarningFgColor => (16nat, 'w', 'f'),
                ColorKey::ErrorColor => (11nat, 'e', 'o'),
                ColorKey::ErrorBgColor => (14nat, 'e', 'b'),
                ColorKey::ErrorFgColor => (14nat, 'e', 'f'),
                ColorKey::WindowBgColor => (15nat, 'w', 'b'),
                ColorKey::WindowFgColor => (15nat, 'w', 'f'),
                ColorKey::ViewBgColor => (13nat, 'v', 'b'),
                ColorKey::ViewFgColor => (13nat, 'v', 'f'),
                ColorKey::ShadeColor => (11nat, 's', 'd'),
                ColorKey::HeaderbarBgColor => (18nat, 'h', 'b'),
                ColorKey::HeaderbarFgColor => (18nat, 'h', 'f'),
                ColorKey::HeaderbarBorderColor => (22nat, 'h', 'e'),
                ColorKey::HeaderbarBackdropColor => (24nat, 'h', 'o'),
                ColorKey::HeaderbarShadeColor => (21nat, 'h', 'd'),
                ColorKey::CardBgColor => (13nat, 'c', 'b'),
                ColorKey::CardFgColor => (13nat, 'c', 'f'),
                ColorKey::CardBorderColor => (17nat, 'c', 'e'),
                ColorKey::PopoverBgColor => (16nat, 'p', 'b'),
                ColorKey::PopoverFgColor => (16nat, 'p', 'f'),
                ColorKey::ScrollbarOutlineColor => (23nat, 's', 'n'),
                ColorKey::WindowOutlineColor => (20nat, 'w', 'n'),
            },
    {
        reveal_strlit("accent_bg_color");
        reveal_strlit("accent_fg_color");
        reveal_strlit("accent_color");
        reveal_strlit("destructive_bg_color");
        reveal_strlit("destructive_fg_color");
        reveal_strlit("destructive_color");
        reveal_strlit("success_color");
        reveal_strlit("success_bg_color");
        reveal_strlit("success_fg_color");
        reveal_strlit("warning_color");
        reveal_strlit("warning_bg_color");
        reveal_strlit("warning_fg_color");
        reveal_strlit("error_color");
        reveal_strlit("error_bg_color");
        reveal_strlit("error_fg_color");
        reveal_strlit("window_bg_color");
        reveal_strlit("window_fg_color");
        reveal_strlit("view_bg_color");
        reveal_strlit("view_fg_color");
        reveal_strlit("shade_color");
        reveal_strlit("headerbar_bg_color");
        reveal_strlit("headerbar_fg_color");
        reveal_strlit("headerbar_border_color");
        reveal_strlit("headerbar_backdrop_color");
        reveal_strlit("headerbar_shade_color");
        reveal_strlit("card_bg_color");
        reveal_strlit("card_fg_color");
        reveal_strlit("card_border_color");
        reveal_strlit("popover_bg_color");
        reveal_strlit("popover_fg_color");
        reveal_strlit("scrollbar_outline_color");
        reveal_strlit("window_outline_color");
    }

    /// No two roles share an identifier.
    pub proof fn lemma_ident_injective(a: ColorKey, b: ColorKey)
        requires
            a.ident() == b.ident(),
        ensures
            a == b,
    {
        Self::lemma_fingerprint(a);
        Self::lemma_fingerprint(b);
    }

    /// An identifier names the role whose identifier it is, and no other.
    pub proof fn lemma_named(key: ColorKey)
        ensures
            ColorKey::named(key.ident()) == Some(key),
    {
        let found = choose|other: ColorKey| other.ident() == key.ident();
        Self::lemma_ident_injective(found, key);
    }

    /// The identifier of this role.
    pub fn name(self) -> (text: &'static str)
        ensures
            text@ == self.ident(),
    {
        match self {
            ColorKey::AccentBgColor => "accent_bg_color",
            ColorKey::AccentFgColor => "accent_fg_color",
            ColorKey::AccentColor => "accent_color",
            ColorKey::DestructiveBgColor => "destructive_bg_color",
            ColorKey::DestructiveFgColor => "destructive_fg_color",
            ColorKey::DestructiveColor => "destructive_color",
            ColorKey::SuccessColor => "success_color",
            ColorKey::SuccessBgColor => "success_bg_color",
            ColorKey::SuccessFgColor => "success_fg_color",
            ColorKey::WarningColor => "warning_color",
            ColorKey::WarningBgColor => "warning_bg_color",
            ColorKey::WarningFgColor => "warning_fg_color",
            ColorKey::ErrorColor => "error_color",
            ColorKey::ErrorBgColor => "error_bg_color",
            ColorKey::ErrorFgColor => "error_fg_color",
            ColorKey::WindowBgColor => "window_bg_color",
            ColorKey::WindowFgColor => "window_fg_color",
            ColorKey::ViewBgColor => "view_bg_color",
            ColorKey::ViewFgColor => "view_fg_color",
            ColorKey::ShadeColor => "shade_color",
            ColorKey::HeaderbarBgColor => "headerbar_bg_color",
            ColorKey::HeaderbarFgColor => "headerbar_fg_color",
            ColorKey::HeaderbarBorderColor => "headerbar_border_color",
            ColorKey::HeaderbarBackdropColor => "headerbar_backdrop_color",
            ColorKey::HeaderbarShadeColor => "headerbar_shade_color",
            ColorKey::CardBgColor => "card_bg_color",
            ColorKey::CardFgColor => "card_fg_color",
            ColorKey::CardBorderColor => "card_border_color",
            ColorKey::PopoverBgColor => "popover_bg_color",
            ColorKey::PopoverFgColor => "popover_fg_color",
            ColorKey::ScrollbarOutlineColor => "scrollbar_outline_color",
            ColorKey::WindowOutlineColor => "window_outline_color",
        }
    }

    /// The role at position `rank` of canonical order, if there is one.
    pub fn from_rank(rank: usize) -> (key: Option<ColorKey>)
        ensures
            rank < COLOR_KEY_COUNT ==> key == Some(ColorKey::at(rank as int)),
            rank >= COLOR_KEY_COUNT ==> key is None,
    {
        match rank {
            0 => Some(ColorKey::AccentBgColor),
            1 => Some(ColorKey::AccentFgColor),
            2 => Some(ColorKey::AccentColor),
            3 => Some(ColorKey::DestructiveBgColor),
            4 => Some(ColorKey::DestructiveFgColor),
            5 => Some(ColorKey::DestructiveColor),
            6 => Some(ColorKey::SuccessColor),
            7 => Some(ColorKey::SuccessBgColor),
            8 => Some(ColorKey::SuccessFgColor),
            9 => Some(ColorKey::WarningColor),
            10 => Some(ColorKey::WarningBgColor),
            11 => Some(ColorKey::WarningFgColor),
            12 => Some(ColorKey::ErrorColor),
            13 => Some(ColorKey::ErrorBgColor),
            14 => Some(ColorKey::ErrorFgColor),
            15 => Some(ColorKey::WindowBgColor),
            16 => Some(ColorKey::WindowFgColor),
            17 => Some(ColorKey::ViewBgColor),
            18 => Some(ColorKey::ViewFgColor),
            19 => Some(ColorKey::ShadeColor),
            20 => Some(ColorKey::HeaderbarBgColor),
            21 => Some(ColorKey::HeaderbarFgColor),
            22 => Some(ColorKey::HeaderbarBorderColor),
            23 => Some(ColorKey::HeaderbarBackdropColor),
            24 => Some(ColorKey::HeaderbarShadeColor),
            25 => Some(ColorKey::CardBgColor),
            26 => Some(ColorKey::CardFgColor),
            27 => Some(ColorKey::CardBorderColor),
            28 => Some(ColorKey::PopoverBgColor),
            29 => Some(ColorKey::PopoverFgColor),
            30 => Some(ColorKey::ScrollbarOutlineColor),
            31 => Some(ColorKey::WindowOutlineColor),
            _ => None,
        }
    }

    /// The role that `name` identifies, or `None` where it identifies none.
    pub fn from_name(name: &str) -> (key: Option<ColorKey>)
        ensures
            key == ColorKey::named(name@),
    {
        let mut rank: usize = 0;
        while rank < COLOR_KEY_COUNT
            invariant
                rank <= COLOR_KEY_COUNT,
                forall|below: int| 0 <= below < rank ==> ColorKey::at(below).ident() != name@,
            decreases COLOR_KEY_COUNT - rank,
        {
            match ColorKey::from_rank(rank) {
                Some(candidate) => {
                    if same_text(name, candidate.name()) {
                        proof {
                            Self::lemma_named(candidate);
                        }
                        return Some(candidate);
                    }
                },
                None => {},
            }
            rank += 1;
        }
        proof {
            assert forall|key: ColorKey| key.ident() != name@ by {
                Self::lemma_rank_at(key, 0);
                assert(ColorKey::at(key.rank() as int).ident() != name@);
            }
        }
        None
    }
}

} // verus!
