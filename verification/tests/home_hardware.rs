use utu::components::hardware::{
    cpu_busy_delta, cpu_model_name, cpu_stat_sample, gpu_name_from_lspci, has_gpu_keywords, memory_used_and_total,
};
use utu::components::home::mode_strip::{init_output, ModeStripAction, ModeStripCmd, ModeStripModel, ModeStripMsg};
use utu::components::home::systems_monitor::{
    disk_used_from_df, fan_reading, has_gpu_hwmon_keywords, is_asus_hwmon, is_gpu_hwmon, meminfo_totals, milli_celsius_label,
    ram_label, rpm_label, temp_label,
};
use utu::components::home::{
    battery_status, laptop_img_for_uppercase, percent_reading, product_label, select_laptop_img, BatteryStatus, LaptopImage};
use utu::services::profiles::{FanProfile, GfxMode};

#[test]
fn laptop_images_by_series() {
    assert_eq!(select_laptop_img("ROG Strix G16"), LaptopImage::Rog);
    assert_eq!(select_laptop_img("ASUS TUF Gaming A15"), LaptopImage::Tuf);
    assert_eq!(select_laptop_img("Zenbook 14"), LaptopImage::Zenbook);
    assert_eq!(select_laptop_img("vivobook pro"), LaptopImage::Vivobook);
    assert_eq!(select_laptop_img("ProArt P16"), LaptopImage::ProArt);
    assert_eq!(select_laptop_img("ExpertBook B9"), LaptopImage::ExpertBook);
    assert_eq!(select_laptop_img("Something"), LaptopImage::Tuf);
    assert_eq!(select_laptop_img("rog tuf"), LaptopImage::Rog);
}

#[test]
fn battery_summary_readings() {
    assert_eq!(product_label(Some("  ROG Flow  \n")), "ROG Flow");
    assert_eq!(product_label(None), "ASUS Laptop");
    assert!(matches!(battery_status(Some("Charging\n")), BatteryStatus::Charging));
    assert!(matches!(battery_status(Some("Full")), BatteryStatus::Full));
    assert!(matches!(battery_status(Some("Not charging\n")), BatteryStatus::Other(s) if s == "Not charging"));
    assert!(matches!(battery_status(None), BatteryStatus::Other(s) if s == "Unknown"));
    assert_eq!(percent_reading(Some("87\n"), 0), 87);
    assert_eq!(percent_reading(Some("300"), 0), 0);
    assert_eq!(percent_reading(None, 100), 100);
}

#[test]
fn mode_strip_clicks_always_apply() {
    let mut s = ModeStripModel::new(1);
    assert_eq!(s.active_gpu, GfxMode::Integrated);
    let a = s.update(ModeStripMsg::SetThermal(FanProfile::Balanced));
    assert!(matches!(a[..], [ModeStripAction::SaveFanProfile(0), ModeStripAction::RebuildStrip, ModeStripAction::SetFanProfile(FanProfile::Balanced)]));
    let cmd = init_output(Err("x".into()), Ok(GfxMode::AsusMuxDiscreet));
    assert!(matches!(cmd, ModeStripCmd::Init { thermal: FanProfile::Balanced, gpu: GfxMode::AsusMuxDiscreet }));
    s.update_cmd(cmd);
    assert_eq!(s.gpu_cards()[2], (GfxMode::AsusMuxDiscreet, true));
    assert_eq!(s.thermal_cards()[1], (FanProfile::Balanced, true));
}

#[test]
fn temperatures_round_toward_zero() {
    assert_eq!(milli_celsius_label(45999), "45°C");
    assert_eq!(milli_celsius_label(-1500), "-1°C");
    assert_eq!(temp_label(Some("52000\n")), "52°C");
    assert_eq!(temp_label(Some("n/a")), "?°C");
    assert_eq!(temp_label(None), "?°C");
}

#[test]
fn hwmon_names_and_fans() {
    assert!(is_gpu_hwmon("amdgpu\n"));
    assert!(is_gpu_hwmon("NVIDIA"));
    assert!(!is_gpu_hwmon("k10temp"));
    assert!(is_asus_hwmon(" asus\n"));
    assert!(!is_asus_hwmon("acpitz"));
    assert_eq!(fan_reading("2300\n"), Some("2300 RPM".to_string()));
    assert_eq!(fan_reading("x"), None);
    assert_eq!(rpm_label(None), "? RPM");
}

#[test]
fn memory_and_disk() {
    let meminfo = "MemTotal:       16323456 kB\nMemFree:         1000000 kB\nMemAvailable:    8161728 kB\n";
    assert_eq!(meminfo_totals(meminfo), (16323456, 8161728));
    assert_eq!(meminfo_totals("nothing here"), (0, 0));
    assert_eq!(ram_label(16323456, 8161728), "7 / 15 GB");
    assert_eq!(ram_label(0, 0), "N/A");
    assert_eq!(memory_used_and_total("MemTotal: 10 kB\nMemAvailable: 20 kB\n"), (0, 10));
    let df = "Filesystem      Size  Used Avail Use% Mounted on\n/dev/nvme0n1p2  468G  123G  322G  28% /\n";
    assert_eq!(disk_used_from_df(df), "123G");
    assert_eq!(disk_used_from_df("only header\n"), "N/A");
}

#[test]
fn cpu_and_gpu_names() {
    let cpuinfo = "processor\t: 0\nvendor_id\t: AuthenticAMD\nmodel name\t: AMD Ryzen 7 7735HS with Radeon Graphics\n";
    assert_eq!(cpu_model_name(cpuinfo), "AMD Ryzen 7 7735HS with Radeon Graphics");
    assert_eq!(cpu_model_name("processor: 0\n"), "");
    let lspci = "00:00.0 Host bridge: AMD Device 14e8\n01:00.0 VGA compatible controller: NVIDIA Corporation AD107M [GeForce RTX 4060 Max-Q / Mobile] (rev a1)\n";
    assert_eq!(gpu_name_from_lspci(lspci), "NVIDIA Corporation AD107M [GeForce RTX 4060 Max-Q / Mobile] (rev a1)");
    assert_eq!(gpu_name_from_lspci("00:00.0 Host bridge: Intel\n"), "Unknown GPU");
}

#[test]
fn cpu_samples() {
    let stat = "cpu  10 20 30 40 50 60 70\ncpu0 1 2 3 4\n";
    assert_eq!(cpu_stat_sample(stat), Some((90, 280)));
    assert_eq!(cpu_stat_sample("cpu 1 2 3\n"), None);
    assert_eq!(cpu_stat_sample(""), None);
    assert_eq!(cpu_stat_sample("cpu 1 x 2 3 4\n"), Some((4, 10)));
    assert_eq!(cpu_busy_delta(Some((100, 1000)), Some((150, 1100))), Some((50, 100)));
    assert_eq!(cpu_busy_delta(Some((100, 1000)), Some((150, 1000))), None);
    assert_eq!(cpu_busy_delta(None, Some((1, 2))), None);
}

#[test]
fn lower_cased_keyword_checks() {
    assert!(has_gpu_keywords("01:00.0 vga compatible controller: nvidia corporation"));
    assert!(!has_gpu_keywords("01:00.0 VGA compatible controller: NVIDIA Corporation"));
    assert!(!has_gpu_keywords("00:14.0 usb controller: intel corporation"));
    assert!(has_gpu_hwmon_keywords("amdgpu"));
    assert!(!has_gpu_hwmon_keywords("AMDGPU"));
    assert_eq!(laptop_img_for_uppercase("ASUS VIVOBOOK 15"), LaptopImage::Vivobook);
    assert_eq!(laptop_img_for_uppercase("asus vivobook 15"), LaptopImage::Tuf);
}
