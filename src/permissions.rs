//! Per-device plugin permissions, the plugin each one switches, and the
//! icons the device list shows.

use vstd::prelude::*;

verus! {

/// A plugin the user can allow or forbid for a device.
#[derive(Debug, Clone, Copy, PartialEq, Eq, Structural)]
pub enum PermissionType {
    SMS,
    Share,
    Sftp,
    MediaPlayer,
    VolumeControl,
    ConnectivityReport,
    RemoteKeypresses,
    Notifications,
    PauseMediaCalls,
    ContactsSync,
    Clipboard,
    Battery,
    Ping,
    FindMyPhone,
    Presenter,
    Photo,
    RunCommand,
    LockDevice,
    Telephony,
    MprisRemote,
    MultimediaReceiver,
    ScreensaverInhibit,
    VirtualMonitor,
    Bigscreen,
    Mousepad,
    RemoteControl,
    SendNotifications,
}

/// Whether each plugin is allowed for a device.
#[derive(Debug, Clone, Copy)]
pub struct DevicePermissions {
    pub sms: bool,
    pub share: bool,
    pub sftp: bool,
    pub media_player: bool,
    pub volume_control: bool,
    pub connectivity_report: bool,
    pub remote_keypresses: bool,
    pub notifications: bool,
    pub pause_media_calls: bool,
    pub contacts_sync: bool,
    pub clipboard: bool,
    pub battery: bool,
    pub ping: bool,
    pub findmyphone: bool,
    pub presenter: bool,
    pub photo: bool,
    pub runcommand: bool,
    pub lockdevice: bool,
    pub telephony: bool,
    pub mpris_remote: bool,
    pub multimedia_receiver: bool,
    pub screensaver_inhibit: bool,
    pub virtualmonitor: bool,
    pub bigscreen: bool,
    pub mousepad: bool,
    pub remotecontrol: bool,
    pub sendnotifications: bool,
}

/// The plugin a permission switches.
pub open spec fn plugin_name_of(perm: PermissionType) -> Seq<char> {
    match perm {
        PermissionType::SMS => "kdeconnect_sms"@,
        PermissionType::Share => "kdeconnect_share"@,
        PermissionType::Sftp => "kdeconnect_sftp"@,
        PermissionType::MediaPlayer => "kdeconnect_mpriscontrol"@,
        PermissionType::VolumeControl => "kdeconnect_systemvolume"@,
        PermissionType::ConnectivityReport => "kdeconnect_connectivity_report"@,
        PermissionType::RemoteKeypresses => "kdeconnect_remotekeyboard"@,
        PermissionType::Notifications => "kdeconnect_notifications"@,
        PermissionType::PauseMediaCalls => "kdeconnect_pausemusic"@,
        PermissionType::ContactsSync => "kdeconnect_contacts"@,
        PermissionType::Clipboard => "kdeconnect_clipboard"@,
        PermissionType::Battery => "kdeconnect_battery"@,
        PermissionType::Ping => "kdeconnect_ping"@,
        PermissionType::FindMyPhone => "kdeconnect_findmyphone"@,
        PermissionType::Presenter => "kdeconnect_presenter"@,
        PermissionType::Photo => "kdeconnect_photo"@,
        PermissionType::RunCommand => "kdeconnect_runcommand"@,
        PermissionType::LockDevice => "kdeconnect_lockdevice"@,
        PermissionType::Telephony => "kdeconnect_telephony"@,
        PermissionType::MprisRemote => "kdeconnect_mprisremote"@,
        PermissionType::MultimediaReceiver => "kdeconnect_mpriscontrol"@,
        PermissionType::ScreensaverInhibit => "kdeconnect_screensaver_inhibit"@,
        PermissionType::VirtualMonitor => "kdeconnect_virtualmonitor"@,
        PermissionType::Bigscreen => "kdeconnect_bigscreen"@,
        PermissionType::Mousepad => "kdeconnect_mousepad"@,
        PermissionType::RemoteControl => "kdeconnect_remotecontrol"@,
        PermissionType::SendNotifications => "kdeconnect_sendnotifications"@,
    }
}

/// Whether `permissions` allows `perm`.
pub open spec fn allowed(permissions: DevicePermissions, perm: PermissionType) -> bool {
    match perm {
        PermissionType::SMS => permissions.sms,
        PermissionType::Share => permissions.share,
        PermissionType::Sftp => permissions.sftp,
        PermissionType::MediaPlayer => permissions.media_player,
        PermissionType::VolumeControl => permissions.volume_control,
        PermissionType::ConnectivityReport => permissions.connectivity_report,
        PermissionType::RemoteKeypresses => permissions.remote_keypresses,
        PermissionType::Notifications => permissions.notifications,
        PermissionType::PauseMediaCalls => permissions.pause_media_calls,
        PermissionType::ContactsSync => permissions.contacts_sync,
        PermissionType::Clipboard => permissions.clipboard,
        PermissionType::Battery => permissions.battery,
        PermissionType::Ping => permissions.ping,
        PermissionType::FindMyPhone => permissions.findmyphone,
        PermissionType::Presenter => permissions.presenter,
        PermissionType::Photo => permissions.photo,
        PermissionType::RunCommand => permissions.runcommand,
        PermissionType::LockDevice => permissions.lockdevice,
        PermissionType::Telephony => permissions.telephony,
        PermissionType::MprisRemote => permissions.mpris_remote,
        PermissionType::MultimediaReceiver => permissions.multimedia_receiver,
        PermissionType::ScreensaverInhibit => permissions.screensaver_inhibit,
        PermissionType::VirtualMonitor => permissions.virtualmonitor,
        PermissionType::Bigscreen => permissions.bigscreen,
        PermissionType::Mousepad => permissions.mousepad,
        PermissionType::RemoteControl => permissions.remotecontrol,
        PermissionType::SendNotifications => permissions.sendnotifications,
    }
}

/// Whether a permission is allowed before the device's own state is read.
pub open spec fn allowed_by_default(perm: PermissionType) -> bool {
    match perm {
        PermissionType::SMS => false,
        PermissionType::Share => true,
        PermissionType::Sftp => false,
        PermissionType::MediaPlayer => true,
        PermissionType::VolumeControl => true,
        PermissionType::ConnectivityReport => true,
        PermissionType::RemoteKeypresses => false,
        PermissionType::Notifications => true,
        PermissionType::PauseMediaCalls => true,
        PermissionType::ContactsSync => false,
        PermissionType::Clipboard => false,
        PermissionType::Battery => true,
        PermissionType::Ping => true,
        PermissionType::FindMyPhone => true,
        PermissionType::Presenter => true,
        PermissionType::Photo => false,
        PermissionType::RunCommand => true,
        PermissionType::LockDevice => true,
        PermissionType::Telephony => true,
        PermissionType::MprisRemote => true,
        PermissionType::MultimediaReceiver => true,
        PermissionType::ScreensaverInhibit => false,
        PermissionType::VirtualMonitor => false,
        PermissionType::Bigscreen => false,
        PermissionType::Mousepad => false,
        PermissionType::RemoteControl => false,
        PermissionType::SendNotifications => false,
    }
}

impl Default for DevicePermissions {
    /// The permissions assumed before a device's own state is read.
    fn default() -> (r: DevicePermissions)
        ensures
            forall|perm: PermissionType| #[trigger] allowed(r, perm) == allowed_by_default(perm),
    {
        DevicePermissions {
            sms: false,
            share: true,
            sftp: false,
            media_player: true,
            volume_control: true,
            connectivity_report: true,
            remote_keypresses: false,
            notifications: true,
            pause_media_calls: true,
            contacts_sync: false,
            clipboard: false,
            battery: true,
            ping: true,
            findmyphone: true,
            presenter: true,
            photo: false,
            runcommand: true,
            lockdevice: true,
            telephony: true,
            mpris_remote: true,
            multimedia_receiver: true,
            screensaver_inhibit: false,
            virtualmonitor: false,
            bigscreen: false,
            mousepad: false,
            remotecontrol: false,
            sendnotifications: false,
        }
    }
}

/// Every permission, in the order the settings list them.
pub fn all_permissions() -> (r: Vec<PermissionType>)
    ensures
        r@.len() == 27,
        forall|perm: PermissionType| #[trigger] r@.contains(perm),
{
    let r = vec![
        PermissionType::SMS,
        PermissionType::Share,
        PermissionType::Sftp,
        PermissionType::MediaPlayer,
        PermissionType::VolumeControl,
        PermissionType::ConnectivityReport,
        PermissionType::RemoteKeypresses,
        PermissionType::Notifications,
        PermissionType::PauseMediaCalls,
        PermissionType::ContactsSync,
        PermissionType::Clipboard,
        PermissionType::Battery,
        PermissionType::Ping,
        PermissionType::FindMyPhone,
        PermissionType::Presenter,
        PermissionType::Photo,
        PermissionType::RunCommand,
        PermissionType::LockDevice,
        PermissionType::Telephony,
        PermissionType::MprisRemote,
        PermissionType::MultimediaReceiver,
        PermissionType::ScreensaverInhibit,
        PermissionType::VirtualMonitor,
        PermissionType::Bigscreen,
        PermissionType::Mousepad,
        PermissionType::RemoteControl,
        PermissionType::SendNotifications,
    ];
    assert forall|perm: PermissionType| #[trigger] r@.contains(perm) by {
        match perm {
            PermissionType::SMS => assert(r@[0] == perm),
            PermissionType::Share => assert(r@[1] == perm),
            PermissionType::Sftp => assert(r@[2] == perm),
            PermissionType::MediaPlayer => assert(r@[3] == perm),
            PermissionType::VolumeControl => assert(r@[4] == perm),
            PermissionType::ConnectivityReport => assert(r@[5] == perm),
            PermissionType::RemoteKeypresses => assert(r@[6] == perm),
            PermissionType::Notifications => assert(r@[7] == perm),
            PermissionType::PauseMediaCalls => assert(r@[8] == perm),
            PermissionType::ContactsSync => assert(r@[9] == perm),
            PermissionType::Clipboard => assert(r@[10] == perm),
            PermissionType::Battery => assert(r@[11] == perm),
            PermissionType::Ping => assert(r@[12] == perm),
            PermissionType::FindMyPhone => assert(r@[13] == perm),
            PermissionType::Presenter => assert(r@[14] == perm),
            PermissionType::Photo => assert(r@[15] == perm),
            PermissionType::RunCommand => assert(r@[16] == perm),
            PermissionType::LockDevice => assert(r@[17] == perm),
            PermissionType::Telephony => assert(r@[18] == perm),
            PermissionType::MprisRemote => assert(r@[19] == perm),
            PermissionType::MultimediaReceiver => assert(r@[20] == perm),
            PermissionType::ScreensaverInhibit => assert(r@[21] == perm),
            PermissionType::VirtualMonitor => assert(r@[22] == perm),
            PermissionType::Bigscreen => assert(r@[23] == perm),
            PermissionType::Mousepad => assert(r@[24] == perm),
            PermissionType::RemoteControl => assert(r@[25] == perm),
            PermissionType::SendNotifications => assert(r@[26] == perm),
        }
    }
    r
}

/// The name of the plugin a permission switches.
pub fn permission_to_plugin_name(perm: &PermissionType) -> (r: String)
    ensures
        r@ == plugin_name_of(*perm),
{
    match perm {
        PermissionType::SMS => "kdeconnect_sms".to_string(),
        PermissionType::Share => "kdeconnect_share".to_string(),
        PermissionType::Sftp => "kdeconnect_sftp".to_string(),
        PermissionType::MediaPlayer => "kdeconnect_mpriscontrol".to_string(),
        PermissionType::VolumeControl => "kdeconnect_systemvolume".to_string(),
        PermissionType::ConnectivityReport => "kdeconnect_connectivity_report".to_string(),
        PermissionType::RemoteKeypresses => "kdeconnect_remotekeyboard".to_string(),
        PermissionType::Notifications => "kdeconnect_notifications".to_string(),
        PermissionType::PauseMediaCalls => "kdeconnect_pausemusic".to_string(),
        PermissionType::ContactsSync => "kdeconnect_contacts".to_string(),
        PermissionType::Clipboard => "kdeconnect_clipboard".to_string(),
        PermissionType::Battery => "kdeconnect_battery".to_string(),
        PermissionType::Ping => "kdeconnect_ping".to_string(),
        PermissionType::FindMyPhone => "kdeconnect_findmyphone".to_string(),
        PermissionType::Presenter => "kdeconnect_presenter".to_string(),
        PermissionType::Photo => "kdeconnect_photo".to_string(),
        PermissionType::RunCommand => "kdeconnect_runcommand".to_string(),
        PermissionType::LockDevice => "kdeconnect_lockdevice".to_string(),
        PermissionType::Telephony => "kdeconnect_telephony".to_string(),
        PermissionType::MprisRemote => "kdeconnect_mprisremote".to_string(),
        PermissionType::MultimediaReceiver => "kdeconnect_mpriscontrol".to_string(),
        PermissionType::ScreensaverInhibit => "kdeconnect_screensaver_inhibit".to_string(),
        PermissionType::VirtualMonitor => "kdeconnect_virtualmonitor".to_string(),
        PermissionType::Bigscreen => "kdeconnect_bigscreen".to_string(),
        PermissionType::Mousepad => "kdeconnect_mousepad".to_string(),
        PermissionType::RemoteControl => "kdeconnect_remotecontrol".to_string(),
        PermissionType::SendNotifications => "kdeconnect_sendnotifications".to_string(),
    }
}

/// Whether `permissions` allows `perm`.
pub fn get_permission_state(permissions: &DevicePermissions, perm: &PermissionType) -> (r: bool)
    ensures
        r == allowed(*permissions, *perm),
{
    match perm {
        PermissionType::SMS => permissions.sms,
        PermissionType::Share => permissions.share,
        PermissionType::Sftp => permissions.sftp,
        PermissionType::MediaPlayer => permissions.media_player,
        PermissionType::VolumeControl => permissions.volume_control,
        PermissionType::ConnectivityReport => permissions.connectivity_report,
        PermissionType::RemoteKeypresses => permissions.remote_keypresses,
        PermissionType::Notifications => permissions.notifications,
        PermissionType::PauseMediaCalls => permissions.pause_media_calls,
        PermissionType::ContactsSync => permissions.contacts_sync,
        PermissionType::Clipboard => permissions.clipboard,
        PermissionType::Battery => permissions.battery,
        PermissionType::Ping => permissions.ping,
        PermissionType::FindMyPhone => permissions.findmyphone,
        PermissionType::Presenter => permissions.presenter,
        PermissionType::Photo => permissions.photo,
        PermissionType::RunCommand => permissions.runcommand,
        PermissionType::LockDevice => permissions.lockdevice,
        PermissionType::Telephony => permissions.telephony,
        PermissionType::MprisRemote => permissions.mpris_remote,
        PermissionType::MultimediaReceiver => permissions.multimedia_receiver,
        PermissionType::ScreensaverInhibit => permissions.screensaver_inhibit,
        PermissionType::VirtualMonitor => permissions.virtualmonitor,
        PermissionType::Bigscreen => permissions.bigscreen,
        PermissionType::Mousepad => permissions.mousepad,
        PermissionType::RemoteControl => permissions.remotecontrol,
        PermissionType::SendNotifications => permissions.sendnotifications,
    }
}

/// `permissions` with `perm` allowed or not as `value` says.
pub open spec fn with_permission(permissions: DevicePermissions, perm: PermissionType, value: bool) -> DevicePermissions {
    match perm {
        PermissionType::SMS => DevicePermissions { sms: value, ..permissions },
        PermissionType::Share => DevicePermissions { share: value, ..permissions },
        PermissionType::Sftp => DevicePermissions { sftp: value, ..permissions },
        PermissionType::MediaPlayer => DevicePermissions { media_player: value, ..permissions },
        PermissionType::VolumeControl => DevicePermissions { volume_control: value, ..permissions },
        PermissionType::ConnectivityReport => DevicePermissions { connectivity_report: value, ..permissions },
        PermissionType::RemoteKeypresses => DevicePermissions { remote_keypresses: value, ..permissions },
        PermissionType::Notifications => DevicePermissions { notifications: value, ..permissions },
        PermissionType::PauseMediaCalls => DevicePermissions { pause_media_calls: value, ..permissions },
        PermissionType::ContactsSync => DevicePermissions { contacts_sync: value, ..permissions },
        PermissionType::Clipboard => DevicePermissions { clipboard: value, ..permissions },
        PermissionType::Battery => DevicePermissions { battery: value, ..permissions },
        PermissionType::Ping => DevicePermissions { ping: value, ..permissions },
        PermissionType::FindMyPhone => DevicePermissions { findmyphone: value, ..permissions },
        PermissionType::Presenter => DevicePermissions { presenter: value, ..permissions },
        PermissionType::Photo => DevicePermissions { photo: value, ..permissions },
        PermissionType::RunCommand => DevicePermissions { runcommand: value, ..permissions },
        PermissionType::LockDevice => DevicePermissions { lockdevice: value, ..permissions },
        PermissionType::Telephony => DevicePermissions { telephony: value, ..permissions },
        PermissionType::MprisRemote => DevicePermissions { mpris_remote: value, ..permissions },
        PermissionType::MultimediaReceiver => DevicePermissions { multimedia_receiver: value, ..permissions },
        PermissionType::ScreensaverInhibit => DevicePermissions { screensaver_inhibit: value, ..permissions },
        PermissionType::VirtualMonitor => DevicePermissions { virtualmonitor: value, ..permissions },
        PermissionType::Bigscreen => DevicePermissions { bigscreen: value, ..permissions },
        PermissionType::Mousepad => DevicePermissions { mousepad: value, ..permissions },
        PermissionType::RemoteControl => DevicePermissions { remotecontrol: value, ..permissions },
        PermissionType::SendNotifications => DevicePermissions { sendnotifications: value, ..permissions },
    }
}

/// `permissions` with `perm` allowed or not as `value` says.
pub fn with_permission_state(permissions: DevicePermissions, perm: &PermissionType, value: bool) -> (r: DevicePermissions)
    ensures
        r == with_permission(permissions, *perm, value),
{
    match perm {
        PermissionType::SMS => DevicePermissions { sms: value, ..permissions },
        PermissionType::Share => DevicePermissions { share: value, ..permissions },
        PermissionType::Sftp => DevicePermissions { sftp: value, ..permissions },
        PermissionType::MediaPlayer => DevicePermissions { media_player: value, ..permissions },
        PermissionType::VolumeControl => DevicePermissions { volume_control: value, ..permissions },
        PermissionType::ConnectivityReport => DevicePermissions { connectivity_report: value, ..permissions },
        PermissionType::RemoteKeypresses => DevicePermissions { remote_keypresses: value, ..permissions },
        PermissionType::Notifications => DevicePermissions { notifications: value, ..permissions },
        PermissionType::PauseMediaCalls => DevicePermissions { pause_media_calls: value, ..permissions },
        PermissionType::ContactsSync => DevicePermissions { contacts_sync: value, ..permissions },
        PermissionType::Clipboard => DevicePermissions { clipboard: value, ..permissions },
        PermissionType::Battery => DevicePermissions { battery: value, ..permissions },
        PermissionType::Ping => DevicePermissions { ping: value, ..permissions },
        PermissionType::FindMyPhone => DevicePermissions { findmyphone: value, ..permissions },
        PermissionType::Presenter => DevicePermissions { presenter: value, ..permissions },
        PermissionType::Photo => DevicePermissions { photo: value, ..permissions },
        PermissionType::RunCommand => DevicePermissions { runcommand: value, ..permissions },
        PermissionType::LockDevice => DevicePermissions { lockdevice: value, ..permissions },
        PermissionType::Telephony => DevicePermissions { telephony: value, ..permissions },
        PermissionType::MprisRemote => DevicePermissions { mpris_remote: value, ..permissions },
        PermissionType::MultimediaReceiver => DevicePermissions { multimedia_receiver: value, ..permissions },
        PermissionType::ScreensaverInhibit => DevicePermissions { screensaver_inhibit: value, ..permissions },
        PermissionType::VirtualMonitor => DevicePermissions { virtualmonitor: value, ..permissions },
        PermissionType::Bigscreen => DevicePermissions { bigscreen: value, ..permissions },
        PermissionType::Mousepad => DevicePermissions { mousepad: value, ..permissions },
        PermissionType::RemoteControl => DevicePermissions { remotecontrol: value, ..permissions },
        PermissionType::SendNotifications => DevicePermissions { sendnotifications: value, ..permissions },
    }
}

/// Sets whether `permissions` allows `perm`; every other permission stays.
pub fn set_permission_state(permissions: &mut DevicePermissions, perm: &PermissionType, value: bool)
    ensures
        *final(permissions) == with_permission(*old(permissions), *perm, value),
{
    *permissions = with_permission_state(*permissions, perm, value);
}

/// Flips whether `permissions` allows `perm` and returns the new state;
/// every other permission stays.
pub fn toggle_permission(permissions: &mut DevicePermissions, perm: &PermissionType) -> (r: bool)
    ensures
        r == !allowed(*old(permissions), *perm),
        *final(permissions) == with_permission(*old(permissions), *perm, r),
{
    let r = !get_permission_state(permissions, perm);
    set_permission_state(permissions, perm, r);
    r
}

/// The icon of a device type.
pub open spec fn icon_of_type(device_type: Seq<char>) -> Seq<char> {
    if device_type == "tablet"@ {
        "tablet-symbolic"@
    } else if device_type == "desktop"@ || device_type == "laptop"@ {
        "computer-symbolic"@
    } else {
        "phone-symbolic"@
    }
}

/// The icon of a device type; phones and unknown types get the phone icon.
pub fn device_icon(device_type: &str) -> (r: &'static str)
    ensures
        r@ == icon_of_type(device_type@),
{
    if crate::text::same_text(device_type, "tablet") {
        "tablet-symbolic"
    } else if crate::text::same_text(device_type, "desktop") || crate::text::same_text(
        device_type,
        "laptop",
    ) {
        "computer-symbolic"
    } else {
        "phone-symbolic"
    }
}

/// The battery icon of a charge level: charging, or the level rounded up to
/// the next step of 20 (at most 100).
pub open spec fn icon_of_battery(level: int, charging: bool) -> Seq<char> {
    if charging {
        "battery-full-charging-symbolic"@
    } else if 0 <= level <= 20 {
        "battery-level-20-symbolic"@
    } else if 21 <= level <= 40 {
        "battery-level-40-symbolic"@
    } else if 41 <= level <= 60 {
        "battery-level-60-symbolic"@
    } else if 61 <= level <= 80 {
        "battery-level-80-symbolic"@
    } else {
        "battery-level-100-symbolic"@
    }
}

/// The battery icon of a charge level; a negative level shows as full, as
/// does any level above 80.
pub fn battery_icon(level: i32, charging: bool) -> (r: &'static str)
    ensures
        r@ == icon_of_battery(level as int, charging),
{
    if charging {
        "battery-full-charging-symbolic"
    } else if 0 <= level && level <= 20 {
        "battery-level-20-symbolic"
    } else if 21 <= level && level <= 40 {
        "battery-level-40-symbolic"
    } else if 41 <= level && level <= 60 {
        "battery-level-60-symbolic"
    } else if 61 <= level && level <= 80 {
        "battery-level-80-symbolic"
    } else {
        "battery-level-100-symbolic"
    }
}

} // verus!
