//! The decisions of the process-wide persistent BLE session: what a fresh
//! connection reports, and when a failed operation tears the session down.

use crate::client::StateSync;
use crate::command::{AncScene, scene_from_triplet};
use crate::disconnect_power_off::{
    DisconnectPowerOff, disconnect_power_off_of, parse_disconnect_power_off,
};
use crate::error::{CoreError, is_transport_error};
use crate::game_mode::{GameMode, game_mode_of, parse_game_mode};
use crate::ldac::{Ldac, ldac_of, parse_ldac};
use crate::multipoint::{Multipoint, multipoint_of, parse_multipoint};
use crate::notification_volume::{NotificationVolume, parse_notification_volume, volume_of};
use crate::scheduled_power_off::{
    ScheduledPowerOff, parse_scheduled_power_off, scheduled_power_off_of,
};
use crate::sleep_mode::{SleepMode, parse_sleep_mode, sleep_mode_of};
use crate::touch_action::{TouchActionMap, map_of_pairs};
use crate::version::FirmwareVersion;
use crate::wear_detection::{WearDetection, parse_wear_detection, wear_detection_of};
use vstd::prelude::*;

verus! {

/// Static, connection-scoped info read right after a connection is
/// established. Every field is best-effort: a failed read leaves it `None`.
#[derive(Debug, Clone)]
pub struct ConnectionInfo {
    /// The device's ANC scene at the moment of connecting.
    pub initial_anc_scene: Option<AncScene>,
    /// The device's channel balance at the moment of connecting.
    pub initial_balance: Option<u8>,
    /// The device's advertised BLE name.
    pub device_name: Option<String>,
    /// Firmware version.
    pub firmware_version: Option<FirmwareVersion>,
    pub initial_wear_detection: Option<WearDetection>,
    pub initial_notification_volume: Option<NotificationVolume>,
    pub initial_scheduled_power_off: Option<ScheduledPowerOff>,
    pub initial_disconnect_power_off: Option<DisconnectPowerOff>,
    pub initial_game_mode: Option<GameMode>,
    pub initial_sleep_mode: Option<SleepMode>,
    pub initial_ldac: Option<Ldac>,
    pub initial_multipoint: Option<Multipoint>,
    pub initial_touch_actions: Option<TouchActionMap>,
}

impl Default for ConnectionInfo {
    fn default() -> (c: Self)
        ensures
            c.initial_anc_scene is None,
            c.initial_balance is None,
            c.device_name is None,
            c.firmware_version is None,
            c.initial_wear_detection is None,
            c.initial_notification_volume is None,
            c.initial_scheduled_power_off is None,
            c.initial_disconnect_power_off is None,
            c.initial_game_mode is None,
            c.initial_sleep_mode is None,
            c.initial_ldac is None,
            c.initial_multipoint is None,
            c.initial_touch_actions is None,
    {
        ConnectionInfo {
            initial_anc_scene: None,
            initial_balance: None,
            device_name: None,
            firmware_version: None,
            initial_wear_detection: None,
            initial_notification_volume: None,
            initial_scheduled_power_off: None,
            initial_disconnect_power_off: None,
            initial_game_mode: None,
            initial_sleep_mode: None,
            initial_ldac: None,
            initial_multipoint: None,
            initial_touch_actions: None,
        }
    }
}

/// The scene named by a sync read's ANC echo, if any.
pub open spec fn scene_of_sync(state: StateSync) -> Option<AncScene> {
    match state.anc {
        Some(s) => scene_from_triplet(s.mode, s.sub_scene, s.noise_value),
        None => None,
    }
}

/// The initial ANC scene and balance a connection reports, from its sync
/// read (`None` when the read failed).
pub fn initial_scene_and_balance(state: Option<StateSync>) -> (r: (Option<AncScene>, Option<u8>))
    ensures
        r == (match state {
            Some(s) => (scene_of_sync(s), s.balance),
            None => (None, None),
        }),
{
    match state {
        Some(s) => {
            let scene = match s.anc {
                Some(a) => AncScene::from_triplet(a.mode, a.sub_scene, a.noise_value),
                None => None,
            };
            (scene, s.balance)
        },
        None => (None, None),
    }
}

/// Discards a failed connect-time read.
pub fn best_effort<T>(result: Result<T, CoreError>) -> (r: Option<T>)
    ensures
        r == (match result {
            Ok(v) => Some(v),
            Err(_) => None,
        }),
{
    match result {
        Ok(v) => Some(v),
        Err(_) => None,
    }
}

/// The outcomes of the reads a fresh connection makes: the sync read, the
/// advertised name, the firmware read, each setting's raw query reply, and
/// the raw touch-action read.
pub struct ConnectionReads {
    pub state: Result<StateSync, CoreError>,
    pub device_name: Option<String>,
    pub firmware: Result<FirmwareVersion, CoreError>,
    pub wear_detection: Result<Vec<u8>, CoreError>,
    pub notification_volume: Result<Vec<u8>, CoreError>,
    pub scheduled_power_off: Result<Vec<u8>, CoreError>,
    pub disconnect_power_off: Result<Vec<u8>, CoreError>,
    pub game_mode: Result<Vec<u8>, CoreError>,
    pub sleep_mode: Result<Vec<u8>, CoreError>,
    pub ldac: Result<Vec<u8>, CoreError>,
    pub multipoint: Result<Vec<u8>, CoreError>,
    pub touch_actions: Result<Vec<u8>, CoreError>,
}

/// A setting as a query reply gives it: `None` when the query failed or
/// the reply did not parse.
pub open spec fn reply_of<T>(r: Result<Vec<u8>, CoreError>, parse: spec_fn(Seq<u8>) -> Option<T>) -> Option<T> {
    match r {
        Ok(params) => parse(params@),
        Err(_) => None,
    }
}

fn parse_reply<T>(
    r: Result<Vec<u8>, CoreError>,
    parse: impl Fn(&[u8]) -> Option<T>,
    Ghost(spec): Ghost<spec_fn(Seq<u8>) -> Option<T>>,
) -> (v: Option<T>)
    requires
        forall|p: &[u8]| #[trigger] parse.requires((p,)),
        forall|p: &[u8], v: Option<T>| #[trigger] parse.ensures((p,), v) ==> v == spec(p@),
    ensures
        v == reply_of(r, spec),
{
    match r {
        Ok(params) => parse(params.as_slice()),
        Err(_) => None,
    }
}

/// Everything a fresh connection reports. Every read is best-effort: a
/// failed read, or a reply that does not parse, leaves its field `None`.
pub fn connection_info(reads: ConnectionReads) -> (info: ConnectionInfo)
    ensures
        (info.initial_anc_scene, info.initial_balance) == (match reads.state {
            Ok(s) => (scene_of_sync(s), s.balance),
            Err(_) => (None, None),
        }),
        info.device_name == reads.device_name,
        info.firmware_version == (match reads.firmware {
            Ok(v) => Some(v),
            Err(_) => None,
        }),
        info.initial_wear_detection == reply_of(reads.wear_detection, |p| wear_detection_of(p)),
        info.initial_notification_volume == reply_of(reads.notification_volume, |p| volume_of(p)),
        info.initial_scheduled_power_off == reply_of(
            reads.scheduled_power_off,
            |p| scheduled_power_off_of(p),
        ),
        info.initial_disconnect_power_off == reply_of(
            reads.disconnect_power_off,
            |p| disconnect_power_off_of(p),
        ),
        info.initial_game_mode == reply_of(reads.game_mode, |p| game_mode_of(p)),
        info.initial_sleep_mode == reply_of(reads.sleep_mode, |p| sleep_mode_of(p)),
        info.initial_ldac == reply_of(reads.ldac, |p| ldac_of(p)),
        info.initial_multipoint == reply_of(reads.multipoint, |p| multipoint_of(p)),
        info.initial_touch_actions == (match reads.touch_actions {
            Ok(d) => Some(map_of_pairs(d@, (d@.len() / 2) as nat)),
            Err(_) => None,
        }),
{
    let (initial_anc_scene, initial_balance) = initial_scene_and_balance(best_effort(reads.state));
    let initial_touch_actions = match reads.touch_actions {
        Ok(d) => Some(TouchActionMap::parse(d.as_slice())),
        Err(_) => None,
    };
    ConnectionInfo {
        initial_anc_scene,
        initial_balance,
        device_name: reads.device_name,
        firmware_version: best_effort(reads.firmware),
        initial_wear_detection: parse_reply(
            reads.wear_detection,
            parse_wear_detection,
            Ghost(|p| wear_detection_of(p)),
        ),
        initial_notification_volume: parse_reply(
            reads.notification_volume,
            parse_notification_volume,
            Ghost(|p| volume_of(p)),
        ),
        initial_scheduled_power_off: parse_reply(
            reads.scheduled_power_off,
            parse_scheduled_power_off,
            Ghost(|p| scheduled_power_off_of(p)),
        ),
        initial_disconnect_power_off: parse_reply(
            reads.disconnect_power_off,
            parse_disconnect_power_off,
            Ghost(|p| disconnect_power_off_of(p)),
        ),
        initial_game_mode: parse_reply(reads.game_mode, parse_game_mode, Ghost(|p| game_mode_of(p))),
        initial_sleep_mode: parse_reply(
            reads.sleep_mode,
            parse_sleep_mode,
            Ghost(|p| sleep_mode_of(p)),
        ),
        initial_ldac: parse_reply(reads.ldac, parse_ldac, Ghost(|p| ldac_of(p))),
        initial_multipoint: parse_reply(
            reads.multipoint,
            parse_multipoint,
            Ghost(|p| multipoint_of(p)),
        ),
        initial_touch_actions,
    }
}

/// `true` when an operation's outcome must tear the shared session down:
/// only a transport-level failure does. A validation or parse error leaves
/// a healthy link in place.
pub fn drops_session<T>(result: &Result<T, CoreError>) -> (r: bool)
    ensures
        r == (match result {
            Ok(_) => false,
            Err(e) => is_transport_error(*e),
        }),
{
    match result {
        Ok(_) => false,
        Err(e) => e.is_transport(),
    }
}

} // verus!
