//! Messages between the tray menu and the driver, and the command line's
//! choice of application.

use vstd::prelude::*;
use crate::executor::Preset;
use vstd::string::StringSliceAdditionalSpecFns;

verus! {

/// Requests that the tray menu sends to the driver.
#[derive(Clone, Copy, PartialEq, Eq, Structural, Debug)]
pub enum DriverMsg {
    SetPreset(i32),
    Enable,
    Disable,
}

/// The pictures the tray icon can show.
#[derive(Clone, Copy, PartialEq, Eq, Structural, Debug)]
pub enum TrayIcon {
    Idle,
    LibreSprite,
    Rnote,
}

/// Notifications that the driver sends back to the tray.
#[derive(Clone, Copy, PartialEq, Eq, Structural, Debug)]
pub enum DriverEvent {
    Disconnected,
    SetIcon(TrayIcon),
}

/// The driver's answer to a request: enabling shows the LibreSprite icon;
/// the other requests are only acknowledged.
pub open spec fn reply_to(msg: DriverMsg) -> Option<DriverEvent> {
    match msg {
        DriverMsg::Enable => Some(DriverEvent::SetIcon(TrayIcon::LibreSprite)),
        _ => None,
    }
}

/// The notification, if any, that answers `msg`.
pub fn driver_reply(msg: DriverMsg) -> (event: Option<DriverEvent>)
    ensures
        event == reply_to(msg),
{
    match msg {
        DriverMsg::Enable => Some(DriverEvent::SetIcon(TrayIcon::LibreSprite)),
        DriverMsg::Disable => None,
        DriverMsg::SetPreset(_) => None,
    }
}

/// The application chosen by a command-line flag: `-l` for LibreSprite,
/// `-k` for Krita; anything else keeps the default (Rnote).
pub open spec fn flag_preset(flag: Seq<u8>) -> Option<Preset> {
    if flag == seq![45u8, 108u8] {
        Some(Preset::LibreSprite)
    } else if flag == seq![45u8, 107u8] {
        Some(Preset::Krita)
    } else {
        None
    }
}

/// The application that the command-line flag `flag` selects, if any.
pub fn preset_from_flag(flag: &str) -> (preset: Option<Preset>)
    ensures
        preset == flag_preset(flag.spec_bytes()),
{
    let bytes = flag.as_bytes();
    if bytes.len() == 2 && bytes[0] == 45u8 {
        if bytes[1] == 108u8 {
            assert(bytes@ =~= seq![45u8, 108u8]);
            return Some(Preset::LibreSprite);
        }
        if bytes[1] == 107u8 {
            assert(bytes@ =~= seq![45u8, 107u8]);
            return Some(Preset::Krita);
        }
    }
    proof {
        if bytes@ == seq![45u8, 108u8] {
            assert(bytes@[1] == 108u8);
        }
        if bytes@ == seq![45u8, 107u8] {
            assert(bytes@[1] == 107u8);
        }
    }
    None
}

} // verus!
