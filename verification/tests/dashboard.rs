use presentations::dashboard::main_dashboard;
use presentations::dashboard::simple;
use presentations::dashboard::sys_integration::{
    easyeffects_preset, limiter_enabled, pactl_volume, volume_change, volume_request, volume_step,
    wpctl_volume_field, LimiterQuery, VolumeQuery, VolumeStep,
};

#[test]
fn dashboard_with_volume_control() {
    let page = main_dashboard(true, Some(65));
    assert!(page.starts_with("<!DOCTYPE html>"));
    assert!(page.contains("<span class=\"volume-level\">65% - Nivel de salida de audio</span>"));
    assert!(page.contains("<div class=\"volume-card \">"));
    assert!(page.contains("aria-pressed=\"true\""));
    assert!(page.contains("<div class=\"toggle active\" id=\"limiterToggle\""));
    assert!(page.contains("<input type=\"checkbox\" name=\"enable\" checked id=\"limiterCheckbox\">"));
    assert!(page.contains("box-sizing: border-box;\n            }"));
    assert!(!page.contains("{{"));
}

#[test]
fn dashboard_without_volume_control() {
    let page = main_dashboard(false, None);
    assert!(page.contains("<span class=\"volume-level\">0% - Control de volumen no disponible</span>"));
    assert!(page.contains("<div class=\"volume-card disabled\">"));
    assert!(page.contains("aria-label=\"Bajar volumen\" disabled>-</button>"));
    assert!(page.contains("aria-label=\"Subir volumen\" disabled>+</button>"));
    assert!(page.contains("aria-pressed=\"false\""));
    assert!(page.contains("<div class=\"toggle \" id=\"limiterToggle\""));
    assert!(page.contains("<input type=\"checkbox\" name=\"enable\"  id=\"limiterCheckbox\">"));
}

#[test]
fn simple_dashboard_checkbox() {
    let on = simple::main_dashboard(true);
    let off = simple::main_dashboard(false);
    assert!(on.contains("<input type=\"checkbox\" checked name=\"enable\""));
    assert!(off.contains("<input type=\"checkbox\"  name=\"enable\""));
    assert!(on.contains("<h1>Sistema de presentaciones</h1>"));
}

#[test]
fn limiter_form() {
    assert!(limiter_enabled(&LimiterQuery { enable: Some("on".to_string()) }));
    assert!(!limiter_enabled(&LimiterQuery { enable: Some("off".to_string()) }));
    assert!(!limiter_enabled(&LimiterQuery { enable: None }));
    assert_eq!(easyeffects_preset(true), "2");
    assert_eq!(easyeffects_preset(false), "1");
}

#[test]
fn volume_form() {
    assert_eq!(volume_step("up"), Some(VolumeStep::Up));
    assert_eq!(volume_step("down"), Some(VolumeStep::Down));
    assert_eq!(volume_step("UP"), None);
    let q = VolumeQuery { direction: "down".to_string() };
    assert_eq!(volume_request(true, &q), Some(VolumeStep::Down));
    assert_eq!(volume_request(false, &q), None);
    assert_eq!(volume_change(VolumeStep::Up), ("5%+", "+5%"));
    assert_eq!(volume_change(VolumeStep::Down), ("5%-", "-5%"));
}

#[test]
fn wpctl_output() {
    assert_eq!(wpctl_volume_field("Volume: 0.75\n").as_deref(), Some("0.75"));
    assert_eq!(wpctl_volume_field("Volume: 0.40 [MUTED]\r\n").as_deref(), Some("[MUTED]"));
    assert_eq!(wpctl_volume_field("nothing here\n"), None);
    assert_eq!(wpctl_volume_field("x\nVolume:   \nVolume: 1.0\n").as_deref(), Some("Volume:"));
}

#[test]
fn pactl_output() {
    let out = "Sink #0\n\tState: RUNNING\n\tVolume: front-left: 42598 /  65% / -11.22 dB,   front-right: 42598 /  65% / -11.22 dB\n";
    assert_eq!(pactl_volume(out), Some(65));
    assert_eq!(pactl_volume("\tVolume: x / 300% / y\n\tVolume: a / 12% / b\n"), Some(12));
    assert_eq!(pactl_volume("\tVolume: 100%\n"), None);
    assert_eq!(pactl_volume("\tBase Volume: 65536 / +100% / 0.00 dB\r\n"), Some(100));
    assert_eq!(pactl_volume(""), None);
}
