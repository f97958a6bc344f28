use std::path::PathBuf;
use utu::components::audio::sound_modes::{
    easyeffects_args, easyeffects_commands, extract_file_stem, preset_file_name, stem_result, AudioCommandOutput,
    EasyEffectsCommand, SoundModesAction, SoundModesModel, SoundModesMsg, CUSTOM_IDX, NONE_IDX,
};
use utu::components::keyboard::backlight_idle::{
    BacklightIdleAction, BacklightIdleModel, BacklightIdleMsg, TimeoutMode,
};
use utu::components::keyboard::fn_key::{build_grub_script, FnKeyAction, FnKeyCommandOutput, FnKeyModel, FnKeyMsg};

#[test]
fn timeout_mode_numbers() {
    assert_eq!(TimeoutMode::from_number(1), TimeoutMode::BatteryAndAc);
    assert_eq!(TimeoutMode::from_number(2), TimeoutMode::BatteryOnly);
    assert_eq!(TimeoutMode::from_number(0), TimeoutMode::Never);
    assert_eq!(TimeoutMode::from_number(7), TimeoutMode::Never);
    assert_eq!(TimeoutMode::default(), TimeoutMode::Never);
    for m in [TimeoutMode::Never, TimeoutMode::BatteryAndAc, TimeoutMode::BatteryOnly] {
        assert_eq!(TimeoutMode::from_number(m.number()), m);
    }
}

#[test]
fn backlight_choice_then_load_is_noop() {
    let mut page = BacklightIdleModel { timeout_mode: TimeoutMode::Never };
    let a = page.update(BacklightIdleMsg::ChangeMode(TimeoutMode::BatteryOnly));
    assert!(matches!(a[..], [BacklightIdleAction::SaveTimeoutMode(2), BacklightIdleAction::RebuildCards]));
    assert!(page.update(BacklightIdleMsg::LoadProfile(2)).is_empty());
    assert!(page.update(BacklightIdleMsg::AmbientChanged).is_empty());
    let a = page.update(BacklightIdleMsg::LoadProfile(0));
    assert!(matches!(a[..], [BacklightIdleAction::RebuildCards]));
    assert_eq!(page.cards()[0], (TimeoutMode::Never, true));
}

#[test]
fn grub_script_is_exact() {
    let expected_locked = "sed -i 's/ asus_wmi\\.fnlock_default=[^ \"]*//g' /etc/default/grub && \\\n\
sed -i 's/\\(GRUB_CMDLINE_LINUX_DEFAULT=\"[^\"]*\\)\"/\\1 asus_wmi.fnlock_default=0\"/g' /etc/default/grub && \\\n\
update-grub";
    assert_eq!(build_grub_script(true), expected_locked);
    assert!(build_grub_script(false).contains("fnlock_default=1\"/g'"));
}

#[test]
fn fn_key_toggle_runs_script_once() {
    let mut page = FnKeyModel { locked: false, update_grub_available: false };
    let a = page.update(FnKeyMsg::ToggleLocked(true));
    assert_eq!(a.len(), 2);
    assert!(matches!(&a[1], FnKeyAction::RunGrubScript(s) if *s == build_grub_script(true)));
    assert!(page.update(FnKeyMsg::LoadProfile(true)).is_empty());
    let a = page.update_cmd(FnKeyCommandOutput::Error("denied".to_string()));
    assert!(matches!(&a[..], [FnKeyAction::ShowSaveError(e), FnKeyAction::Report(f)] if e == "denied" && f == "denied"));
    page.update_cmd(FnKeyCommandOutput::UpdateGrubChecked(true));
    assert_eq!(page.cards(), vec![(true, true, true), (false, false, true)]);
}

#[test]
fn easyeffects_commands_per_card() {
    assert!(matches!(easyeffects_commands(NONE_IDX, None)[..], [EasyEffectsCommand::BypassOn]));
    assert!(easyeffects_commands(CUSTOM_IDX, None).is_empty());
    let c = easyeffects_commands(CUSTOM_IDX, Some("Mine".to_string()));
    assert!(matches!(&c[..], [EasyEffectsCommand::BypassOff, EasyEffectsCommand::LoadPreset(n)] if n == "Mine"));
    let names: Vec<String> = [0u32, 1, 3, 4, 5]
        .iter()
        .map(|&i| match &easyeffects_commands(i, None)[1] {
            EasyEffectsCommand::LoadPreset(n) => n.clone(),
            _ => panic!("preset expected"),
        })
        .collect();
    assert_eq!(names, vec!["Movie", "Music", "Perfect_EQ", "Video", "Voice"]);
    assert_eq!(easyeffects_args(&EasyEffectsCommand::BypassOn), vec!["-b", "1"]);
    assert_eq!(easyeffects_args(&EasyEffectsCommand::BypassOff), vec!["-b", "2"]);
    assert_eq!(easyeffects_args(&EasyEffectsCommand::LoadPreset("Voice".into())), vec!["-l", "Voice"]);
    assert_eq!(preset_file_name("Movie"), "Movie.json");
}

#[test]
fn file_stem_of_preset() {
    assert_eq!(extract_file_stem(&PathBuf::from("/tmp/My Preset.json")), Ok("My Preset".to_string()));
    assert_eq!(extract_file_stem(&PathBuf::from("/")), Err("Invalid file name".to_string()));
}

#[test]
fn sound_custom_flow() {
    let mut page = SoundModesModel::new(1);
    let a = page.update(SoundModesMsg::ChangeProfile(CUSTOM_IDX));
    assert!(matches!(a[..], [SoundModesAction::OpenCustomDialog(1)]));
    assert_eq!(page.current_profile, CUSTOM_IDX);
    let a = page.update(SoundModesMsg::CustomPresetPathSelected(PathBuf::from("/")));
    assert!(matches!(a[..], [SoundModesAction::CancelCustom(1)]));
    let a = page.update(SoundModesMsg::CustomPresetPathSelected(PathBuf::from("/x/EQ.json")));
    assert!(matches!(&a[..], [SoundModesAction::SaveAudioProfile(6), SoundModesAction::LoadCustomPreset(p)] if p == &PathBuf::from("/x/EQ.json")));
    let a = page.update(SoundModesMsg::CustomCancelled(1));
    assert!(matches!(a[..], [SoundModesAction::RebuildCards, SoundModesAction::SaveAudioProfile(1)]));
    assert!(page.update(SoundModesMsg::ChangeProfile(1)).is_empty());
    let a = page.update(SoundModesMsg::ChangeProfile(4));
    assert!(matches!(a[..], [SoundModesAction::SaveAudioProfile(4), SoundModesAction::SetEasyEffectsProfile(4)]));
    assert_eq!(page.previous_profile, 1);
    assert!(page.update(SoundModesMsg::LoadProfile(0)).is_empty());
    assert!(matches!(page.update_cmd(AudioCommandOutput::EeChecked(true)), Some(SoundModesAction::RebuildCards)));
    let cards = page.cards();
    assert_eq!(cards.len(), 7);
    assert_eq!(cards[4], (4, true, true));
    assert_eq!(cards[0], (0, false, true));
}

#[test]
fn stem_result_keeps_stem_or_reports_missing_name() {
    assert_eq!(stem_result(Some("Bass".to_string())), Ok("Bass".to_string()));
    assert_eq!(stem_result(None), Err("Invalid file name".to_string()));
}
