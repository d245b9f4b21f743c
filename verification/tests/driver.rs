use swb021bk_driver::driver::{driver_reply, preset_from_flag, DriverEvent, DriverMsg, TrayIcon};
use swb021bk_driver::executor::Preset;

#[test]
fn enabling_shows_the_libresprite_icon() {
    assert_eq!(driver_reply(DriverMsg::Enable), Some(DriverEvent::SetIcon(TrayIcon::LibreSprite)));
    assert_eq!(driver_reply(DriverMsg::Disable), None);
    assert_eq!(driver_reply(DriverMsg::SetPreset(2)), None);
}

#[test]
fn command_line_flags_select_presets() {
    assert_eq!(preset_from_flag("-l"), Some(Preset::LibreSprite));
    assert_eq!(preset_from_flag("-k"), Some(Preset::Krita));
    assert_eq!(preset_from_flag("-r"), None);
    assert_eq!(preset_from_flag(""), None);
    assert_eq!(preset_from_flag("-lk"), None);
    assert_eq!(preset_from_flag("l"), None);
}
