use utu::components::about::{dot_css_class, dot_glyph, AboutCmd, AboutModel};
use utu::components::display::cosmic_panel::{autohide_value, is_panel_config_dir, opacity_value};
use utu::components::display::helpers::{apply_icm_profile, reset_icm_profile, ICM_FILES};
use utu::services::armoury_key::{armoury_device_choice, device_choice_for_lowercase, is_armoury_press, DeviceChoice};
use utu::text::{parse_i32, parse_u64, parse_u8, trim};

#[test]
fn about_dots() {
    let mut m = AboutModel::new();
    m.update_cmd(AboutCmd::DaemonStatus { asusd: true, supergfxd: false });
    assert!(m.asusd_running && !m.supergfxd_running);
    assert_eq!(dot_glyph(true), "●");
    assert_eq!(dot_glyph(false), "○");
    assert_eq!(dot_css_class(true), "success");
    assert_eq!(dot_css_class(false), "error");
}

#[test]
fn cosmic_panel_values() {
    assert_eq!(autohide_value(false), "None");
    assert!(autohide_value(true).starts_with("Some((wait_time: 1000"));
    assert_eq!(opacity_value(true), "0.0");
    assert_eq!(opacity_value(false), "1.0");
    assert!(is_panel_config_dir("com.system76.CosmicPanel.Dock"));
    assert!(!is_panel_config_dir("com.system76.CosmicPanelButton.foo"));
    assert!(!is_panel_config_dir("com.system76.CosmicPanel"));
}

#[test]
fn icm_profiles_unsupported() {
    assert!(reset_icm_profile().unwrap_err().contains("not yet supported"));
    assert!(apply_icm_profile("Utu_sRGB.icm", &std::path::PathBuf::from("/tmp/icm")).unwrap_err().contains("application"));
    assert_eq!(ICM_FILES.len(), 3);
}

#[test]
fn armoury_device_search() {
    let keys = vec![30u16, 148];
    assert_eq!(armoury_device_choice(Some("Asus WMI hotkeys"), Some(&keys), true), DeviceChoice::Take);
    assert_eq!(armoury_device_choice(Some("AT Translated Set 2 keyboard"), Some(&keys), false), DeviceChoice::Fallback);
    assert_eq!(armoury_device_choice(Some("AT Translated Set 2 keyboard"), Some(&keys), true), DeviceChoice::Skip);
    assert_eq!(armoury_device_choice(Some("Asus WMI hotkeys"), Some(&vec![1u16]), false), DeviceChoice::Skip);
    assert_eq!(armoury_device_choice(None, None, false), DeviceChoice::Skip);
    assert!(is_armoury_press(148, 1));
    assert!(!is_armoury_press(148, 0));
    assert!(!is_armoury_press(30, 1));
}

#[test]
fn integer_parsing_follows_from_str() {
    assert_eq!(parse_u64("+42"), Some(42));
    assert_eq!(parse_u64("+"), None);
    assert_eq!(parse_u64(""), None);
    assert_eq!(parse_u64("-1"), None);
    assert_eq!(parse_u64("18446744073709551615"), Some(u64::MAX));
    assert_eq!(parse_u64("18446744073709551616"), None);
    assert_eq!(parse_u8("255"), Some(255));
    assert_eq!(parse_u8("256"), None);
    assert_eq!(parse_i32("-2147483648"), Some(i32::MIN));
    assert_eq!(parse_i32("2147483648"), None);
    assert_eq!(parse_i32("-"), None);
    assert_eq!(trim("\u{3000} x y \t\n"), "x y");
}

#[test]
fn device_choice_for_lowercase_names() {
    let keys = vec![30u16, 148];
    assert_eq!(device_choice_for_lowercase("asus wmi hotkeys", Some(&keys), false), DeviceChoice::Take);
    assert_eq!(device_choice_for_lowercase("Asus WMI hotkeys", Some(&keys), false), DeviceChoice::Fallback);
    assert_eq!(device_choice_for_lowercase("asus wmi hotkeys", None, false), DeviceChoice::Skip);
}
