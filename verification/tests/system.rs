use utu::components::system::apu_mem::{
    init_output, label_for_value, usable_options, ApuMemAction, ApuMemCommandOutput, ApuMemLabel,
    ApuMemModel, ApuMemMsg,
};
use utu::components::system::battery::{
    one_shot_outcome, ONE_SHOT_CHARGE_LIMIT, ONE_SHOT_HOLD_SECS,
    mem_sleep_state, BatteryAction, BatteryCommandOutput, BatteryModel, BatteryMsg, SleepMode,
};
use utu::components::system::battery_health::{
    date_for_epoch_secs, energy_reading, epoch_days_to_ymd, should_record,
};
use utu::components::system::charge_limit::{ChargeLimit, ChargeLimitAction, ChargeLimitCmd, ChargeLimitMsg};
use utu::components::system::gpu::{merge_modes, GpuAction, GpuCards, GpuCommandOutput, GpuModel, GpuMsg};
use utu::components::system::thermal_profile::{
    ThermalProfileAction, ThermalProfileCmd, ThermalProfileModel, ThermalProfileMsg,
};
use utu::services::profiles::{FanProfile, GfxMode};

#[test]
fn clamp_to_range() {
    assert_eq!(ChargeLimit::clamp_limit(15), 20);
    assert_eq!(ChargeLimit::clamp_limit(50), 50);
    assert_eq!(ChargeLimit::clamp_limit(110), 100);
}

#[test]
fn charge_limit_commit_needs_daemon() {
    let mut page = ChargeLimit::new();
    assert_eq!(page.limit, 80);
    assert!(page.update(ChargeLimitMsg::SliderChanged(5)).is_none());
    assert_eq!(page.limit, 20);
    assert!(page.update(ChargeLimitMsg::Commit).is_none());
    assert!(matches!(page.update_cmd(ChargeLimitCmd::Loaded(60)), ChargeLimitAction::ShowLimit(60)));
    assert!(page.asusd_available);
    assert!(matches!(page.update(ChargeLimitMsg::Commit), Some(ChargeLimitAction::SetChargeLimit(60))));
    assert!(matches!(page.update_cmd(ChargeLimitCmd::Error("x".to_string())), ChargeLimitAction::Report(e) if e == "x"));
    assert_eq!(page.limit, 60);
}

#[test]
fn apply_profile_updates_active() {
    let mut model = ThermalProfileModel {
        active: FanProfile::Balanced,
        asusd_available: true,
    };
    model.apply_profile(FanProfile::Quiet);
    assert_eq!(model.active, FanProfile::Quiet);
}

#[test]
fn thermal_select_twice_acts_once() {
    let mut m = ThermalProfileModel { active: FanProfile::Balanced, asusd_available: false };
    let a = m.update(ThermalProfileMsg::Select(FanProfile::Performance));
    assert_eq!(a.len(), 3);
    assert!(matches!(a[0], ThermalProfileAction::SaveFanProfile(1)));
    assert!(matches!(a[2], ThermalProfileAction::SetFanProfile(FanProfile::Performance)));
    assert!(m.update(ThermalProfileMsg::Select(FanProfile::Performance)).is_empty());
    let l = m.update(ThermalProfileMsg::LoadProfile(FanProfile::Quiet));
    assert_eq!(l.len(), 1);
    assert!(m.update_cmd(ThermalProfileCmd::AsusdChecked(true)).is_none());
    let l = m.update(ThermalProfileMsg::LoadProfile(FanProfile::Quiet));
    assert_eq!(l.len(), 2);
    let cards = m.cards();
    assert_eq!(cards, vec![(FanProfile::Quiet, true), (FanProfile::Balanced, false), (FanProfile::Performance, false)]);
}

#[test]
fn profile_numbers_round_trip() {
    for p in [FanProfile::Balanced, FanProfile::Performance, FanProfile::Quiet] {
        assert_eq!(FanProfile::from_number(p.number()), p);
    }
    assert_eq!(FanProfile::from_number(99), FanProfile::Balanced);
    for m in [GfxMode::Hybrid, GfxMode::Integrated, GfxMode::NvidiaNoModeset, GfxMode::Vfio, GfxMode::AsusEgpu, GfxMode::AsusMuxDiscreet, GfxMode::NoMode] {
        assert_eq!(GfxMode::from_number(m.number()), m);
    }
}

#[test]
fn gpu_modes_merge_without_duplicates() {
    let merged = merge_modes(GfxMode::Hybrid, &vec![GfxMode::Integrated, GfxMode::Hybrid, GfxMode::Integrated, GfxMode::Vfio]);
    assert_eq!(merged, vec![GfxMode::Hybrid, GfxMode::Integrated, GfxMode::Vfio]);
}

#[test]
fn gpu_cards_follow_daemon() {
    let mut m = GpuModel::new(GfxMode::Hybrid);
    assert!(matches!(m.cards(), GpuCards::MissingDaemon));
    assert!(m.update(GpuMsg::LoadProfile(1)).is_empty());
    m.update_cmd(GpuCommandOutput::SupergfxctlChecked(true));
    match m.cards() {
        GpuCards::Cards { cards, reboot_note } => {
            assert_eq!(cards.len(), 3);
            assert!(!reboot_note);
        }
        GpuCards::MissingDaemon => panic!("daemon answered"),
    }
    m.update_cmd(GpuCommandOutput::InitModeAndSupported(GfxMode::Integrated, vec![GfxMode::Hybrid]));
    match m.cards() {
        GpuCards::Cards { cards, reboot_note } => {
            assert_eq!(cards, vec![(GfxMode::Integrated, true), (GfxMode::Hybrid, false)]);
            assert!(reboot_note);
        }
        GpuCards::MissingDaemon => panic!("modes known"),
    }
    let a = m.update(GpuMsg::ChangeMode(GfxMode::Hybrid));
    assert!(matches!(a[0], GpuAction::SaveGpuMode(0)));
    assert!(m.update(GpuMsg::ChangeMode(GfxMode::Hybrid)).is_empty());
    assert!(matches!(m.update_cmd(GpuCommandOutput::ModeSet(GfxMode::Hybrid)), Some(GpuAction::OfferRestart(GfxMode::Hybrid))));
}

#[test]
fn apu_mem_pick_and_load() {
    assert_eq!(label_for_value(0), ApuMemLabel::Auto);
    assert_eq!(label_for_value(4), ApuMemLabel::Gigabytes(4));
    assert!(usable_options(Ok(vec![])).is_none());
    assert!(usable_options(Err("e".into())).is_none());
    assert_eq!(usable_options(Ok(vec![0, 4])), Some(vec![0, 4]));
    assert!(matches!(init_output(vec![0, 4], Err("e".into())), ApuMemCommandOutput::NotAvailable));
    let mut m = ApuMemModel::new(4);
    assert!(m.update(ApuMemMsg::LoadProfile(8)).is_empty());
    assert!(matches!(m.update_cmd(init_output(vec![0, 4, 8], Ok(4))), Some(ApuMemAction::RebuildStrip)));
    assert!(m.show_reboot_note());
    assert_eq!(m.pill_index(8), Some(2));
    assert_eq!(m.pill_index(16), None);
    assert!(m.update(ApuMemMsg::ChangeValue(1)).is_empty());
    assert!(m.update(ApuMemMsg::ChangeValue(7)).is_empty());
    let a = m.update(ApuMemMsg::ChangeValue(2));
    assert!(matches!(a[0], ApuMemAction::SaveApuMem(8)));
    assert_eq!(m.current_value, 8);
}

#[test]
fn battery_maintenance_round_trip() {
    let mut b = BatteryModel::new();
    let a = b.update(BatteryMsg::ToggleMaintenanceMode(true));
    assert!(matches!(a[..], [BatteryAction::SetChargeLimit(80)]));
    assert!(b.update(BatteryMsg::ToggleMaintenanceMode(true)).is_empty());
    b.update_cmd(BatteryCommandOutput::InitValue(80));
    assert!(b.maintenance_mode_active);
    b.update_cmd(BatteryCommandOutput::InitValue(100));
    assert!(!b.maintenance_mode_active);
    assert!(matches!(b.update_cmd(BatteryCommandOutput::TimerElapsed), Some(BatteryAction::SetChargeLimit(80))));
}

#[test]
fn deep_sleep_needs_support() {
    let mut b = BatteryModel::new();
    let a = b.update(BatteryMsg::ToggleDeepSleep(true));
    assert!(matches!(a[..], [BatteryAction::ReportDeepSleepUnsupported]));
    assert!(!b.deep_sleep_active);
    let (active, supported) = mem_sleep_state("s2idle [deep]\n");
    assert!(active && supported);
    let (active, supported) = mem_sleep_state("[s2idle] deep\n");
    assert!(!active && supported);
    b.update_cmd(BatteryCommandOutput::InitDeepSleep(active));
    b.update_cmd(BatteryCommandOutput::DeepSleepSupported(supported));
    let a = b.update(BatteryMsg::ToggleDeepSleep(true));
    assert!(matches!(a[..], [BatteryAction::SaveDeepSleep(true), BatteryAction::WriteMemSleep(SleepMode::Deep)]));
    assert_eq!(SleepMode::Deep.sysfs_value(), "deep");
    assert_eq!(SleepMode::S2Idle.sysfs_value(), "s2idle");
    b.update_cmd(BatteryCommandOutput::DeepSleepSupported(false));
    assert!(!b.deep_sleep_active);
}

#[test]
fn epoch_dates() {
    assert_eq!(epoch_days_to_ymd(0), (1970, 1, 1));
    assert_eq!(epoch_days_to_ymd(31), (1970, 2, 1));
    assert_eq!(epoch_days_to_ymd(59), (1970, 3, 1));
    assert_eq!(epoch_days_to_ymd(365), (1971, 1, 1));
    // 2000 is a leap year: 29 February exists
    assert_eq!(epoch_days_to_ymd(11016), (2000, 2, 29));
    assert_eq!(epoch_days_to_ymd(11017), (2000, 3, 1));
    assert_eq!(epoch_days_to_ymd(19723), (2024, 1, 1));
    assert_eq!(date_for_epoch_secs(1_725_029_869), "2024-08-30");
    assert_eq!(date_for_epoch_secs(0), "1970-01-01");
}

#[test]
fn health_history_rules() {
    assert!(should_record(None, "2024-01-01"));
    assert!(should_record(Some("2023-12-31"), "2024-01-01"));
    assert!(!should_record(Some("2024-01-01"), "2024-01-01"));
    assert_eq!(energy_reading(Some(" 52000000\n"), 0), 52_000_000);
    assert_eq!(energy_reading(Some("junk"), 1), 1);
    assert_eq!(energy_reading(None, 1), 1);
}

#[test]
fn one_shot_waits_only_after_the_limit_was_set() {
    assert_eq!(ONE_SHOT_CHARGE_LIMIT, 100);
    assert_eq!(ONE_SHOT_HOLD_SECS, 24 * 60 * 60);
    let (reply, wait) = one_shot_outcome(Ok(100));
    assert!(matches!(reply, BatteryCommandOutput::ChargeLimitSet(100)));
    assert!(wait);
    let (reply, wait) = one_shot_outcome(Err("no daemon".to_string()));
    assert!(matches!(reply, BatteryCommandOutput::Error(ref e) if e == "no daemon"));
    assert!(!wait);
}
