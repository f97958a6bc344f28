use utu::components::appearance::{swatch_css, AppearanceAction, AppearanceModel, AppearanceMsg, ACCENT_PRESETS};
use utu::services::theme::{accent_for_lowercase, accent_for_product, build_accent_css, parse_hex_pair};

#[test]
fn tuf_maps_to_amber() {
    assert_eq!(accent_for_product("ASUS TUF Gaming A15"), "#e8a800");
}

#[test]
fn proart_maps_to_teal() {
    assert_eq!(accent_for_product("ASUS ProArt Studiobook"), "#00bcd4");
}

#[test]
fn rog_maps_to_crimson() {
    assert_eq!(accent_for_product("ROG Zephyrus G14"), "#e8002d");
}

#[test]
fn unknown_maps_to_amber() {
    assert_eq!(accent_for_product("Unknown Laptop"), "#e8a800");
}

#[test]
fn accent_names_are_non_empty() {
    for (name, hex, _) in ACCENT_PRESETS {
        assert!(!name.is_empty());
        assert!(hex.starts_with('#'));
    }
}

#[test]
fn accent_lookup_ignores_case() {
    // Upper-case input only matches after lower-casing.
    assert_eq!(accent_for_product("PROART P16"), "#00bcd4");
    assert_eq!(accent_for_product("asus rog strix"), "#e8002d");
}

#[test]
fn proart_wins_over_rog() {
    assert_eq!(accent_for_product("ROG ProArt crossover"), "#00bcd4");
}

#[test]
fn amber_css_is_exact() {
    assert_eq!(
        build_accent_css("#e8a800"),
        "* { --utu-accent: #e8a800; --utu-accent-end: #e88a14; \
         --utu-accent-glow: rgba(232,168,0,0.05); --utu-accent-dim: rgba(232,168,0,0.15); }"
    );
}

#[test]
fn gradient_end_clamps_channels() {
    // green 0x10 - 30 stays at 0, blue 0xf0 + 20 stops at 255
    let css = build_accent_css("#0a10f0");
    assert!(css.contains("--utu-accent-end: #0a00ff;"));
    assert!(css.contains("rgba(10,16,240,0.05)"));
}

#[test]
fn unparsable_channels_fall_back_to_amber() {
    let css = build_accent_css("#zzzzzz");
    assert!(css.contains("rgba(232,168,0,0.15)"));
    assert!(css.contains("--utu-accent: #zzzzzz;"));
}

#[test]
fn plus_sign_channel_parses() {
    assert_eq!(parse_hex_pair(b'+', b'f'), Some(15));
    assert_eq!(parse_hex_pair(b'-', b'f'), None);
    assert_eq!(parse_hex_pair(b'F', b'f'), Some(255));
}

#[test]
fn hex_pairs_round_trip() {
    for v in 0..=255u8 {
        let s = format!("{:02x}", v);
        let b = s.as_bytes();
        assert_eq!(parse_hex_pair(b[0], b[1]), Some(v));
    }
}

#[test]
fn detected_accent_is_a_preset() {
    for name in ["ROG", "ProArt", "TUF", "Vivobook", ""] {
        let a = accent_for_product(name);
        assert!(ACCENT_PRESETS.iter().any(|(_, hex, _)| *hex == a));
    }
}

#[test]
fn swatch_css_is_exact() {
    assert_eq!(
        swatch_css("#00bcd4"),
        "button.accent-swatch { background-color: #00bcd4; min-width: 48px; min-height: 48px; \
         border-radius: 50%; padding: 0; }"
    );
}

#[test]
fn set_accent_twice_acts_once() {
    let mut m = AppearanceModel { active_accent: "#e8a800".to_string() };
    let first = m.update(AppearanceMsg::SetAccent("#00bcd4".to_string()));
    assert_eq!(first.len(), 3);
    assert!(matches!(&first[0], AppearanceAction::SaveAccent(h) if h == "#00bcd4"));
    assert!(matches!(&first[1], AppearanceAction::ApplyAccent(h) if h == "#00bcd4"));
    assert!(matches!(&first[2], AppearanceAction::RebuildSwatches));
    assert_eq!(m.active_accent, "#00bcd4");
    assert!(m.swatch_active("#00bcd4"));
    assert!(!m.swatch_active("#e8a800"));
    let second = m.update(AppearanceMsg::SetAccent("#00bcd4".to_string()));
    assert!(second.is_empty());
}

#[test]
fn accent_for_lowercase_needs_lower_case() {
    assert_eq!(accent_for_lowercase("asus proart studiobook"), "#00bcd4");
    assert_eq!(accent_for_lowercase("rog zephyrus"), "#e8002d");
    assert_eq!(accent_for_lowercase("ROG Zephyrus"), "#e8a800");
}
