use user_colors::keys::{ColorKey, COLOR_KEY_COUNT};

const IDENTIFIERS: [&str; 32] = [
    "accent_bg_color",
    "accent_fg_color",
    "accent_color",
    "destructive_bg_color",
    "destructive_fg_color",
    "destructive_color",
    "success_color",
    "success_bg_color",
    "success_fg_color",
    "warning_color",
    "warning_bg_color",
    "warning_fg_color",
    "error_color",
    "error_bg_color",
    "error_fg_color",
    "window_bg_color",
    "window_fg_color",
    "view_bg_color",
    "view_fg_color",
    "shade_color",
    "headerbar_bg_color",
    "headerbar_fg_color",
    "headerbar_border_color",
    "headerbar_backdrop_color",
    "headerbar_shade_color",
    "card_bg_color",
    "card_fg_color",
    "card_border_color",
    "popover_bg_color",
    "popover_fg_color",
    "scrollbar_outline_color",
    "window_outline_color",
];

#[test]
fn there_are_thirty_two_roles() {
    assert_eq!(COLOR_KEY_COUNT, 32);
    assert_eq!(IDENTIFIERS.len(), COLOR_KEY_COUNT);
}

#[test]
fn canonical_order_lists_every_identifier() {
    for (rank, identifier) in IDENTIFIERS.iter().enumerate() {
        let key = ColorKey::from_rank(rank).unwrap();
        assert_eq!(key.name(), *identifier);
    }
}

#[test]
fn from_rank_ends_after_the_last_role() {
    assert_eq!(ColorKey::from_rank(0), Some(ColorKey::AccentBgColor));
    assert_eq!(ColorKey::from_rank(19), Some(ColorKey::ShadeColor));
    assert_eq!(ColorKey::from_rank(31), Some(ColorKey::WindowOutlineColor));
    assert_eq!(ColorKey::from_rank(32), None);
    assert_eq!(ColorKey::from_rank(usize::MAX), None);
}

#[test]
fn from_name_finds_every_role_by_its_identifier() {
    for (rank, identifier) in IDENTIFIERS.iter().enumerate() {
        assert_eq!(ColorKey::from_name(identifier), ColorKey::from_rank(rank));
    }
}

#[test]
fn from_name_tells_apart_identifiers_that_look_alike() {
    assert_eq!(ColorKey::from_name("success_color"), Some(ColorKey::SuccessColor));
    assert_eq!(ColorKey::from_name("success_bg_color"), Some(ColorKey::SuccessBgColor));
    assert_eq!(ColorKey::from_name("success_fg_color"), Some(ColorKey::SuccessFgColor));
    assert_eq!(ColorKey::from_name("shade_color"), Some(ColorKey::ShadeColor));
    assert_eq!(ColorKey::from_name("headerbar_shade_color"), Some(ColorKey::HeaderbarShadeColor));
    assert_eq!(ColorKey::from_name("window_outline_color"), Some(ColorKey::WindowOutlineColor));
}

#[test]
fn from_name_refuses_what_is_no_identifier() {
    assert_eq!(ColorKey::from_name(""), None);
    assert_eq!(ColorKey::from_name("name"), None);
    assert_eq!(ColorKey::from_name("accent"), None);
    assert_eq!(ColorKey::from_name("accent_bg_color "), None);
    assert_eq!(ColorKey::from_name("Accent_bg_color"), None);
    assert_eq!(ColorKey::from_name("accent_bg_colour"), None);
    assert_eq!(ColorKey::from_name("accent\u{e9}bg_color"), None);
}

#[test]
fn identifiers_are_all_different() {
    for a in 0..COLOR_KEY_COUNT {
        for b in 0..COLOR_KEY_COUNT {
            let x = ColorKey::from_rank(a).unwrap();
            let y = ColorKey::from_rank(b).unwrap();
            assert_eq!(x.name() == y.name(), a == b);
            assert_eq!(x == y, a == b);
        }
    }
}
