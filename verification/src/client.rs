//! The decisions of the BLE client: how a sync read, a notification, or a
//! query reply is interpreted, which write type a payload needs, and how
//! long to wait before retrying a connection. The Bluetooth calls that feed
//! these decisions live with the application.

use crate::balance;
use crate::battery::{BatteryStatus, battery_of};
use crate::command::opcode;
use crate::device_actions::{sanitized_name, set_name};
use crate::text::is_blank;
use crate::error::CoreError;
use crate::protocol::{Command, CommandView, frame_of, parse_spec};
use crate::response::{self, AncSetting, Event, anc_setting_of};
use crate::version::{FirmwareVersion, left_version, opt_chars, right_version};
use vstd::prelude::*;
use vstd::utf8::encode_utf8;

verus! {

/// ATT header every write PDU pays (1-byte opcode + 2-byte handle), on top
/// of the negotiated MTU.
pub const ATT_WRITE_HEADER: u16 = 3;

/// Retries for the initial BLE connect.
pub const CONNECT_RETRIES: u32 = 3;

/// Retries for service/characteristic discovery.
pub const DISCOVERY_RETRIES: u32 = 3;

/// The outcomes an ANC write can produce.
#[derive(Debug, Clone, Copy, PartialEq, Eq, Structural)]
pub enum AncConfirmation {
    /// The device's ANC result reported success.
    Applied,
    /// The device's ANC result reported failure.
    Rejected,
    /// The write was echoed back, but no ANC result arrived before timeout.
    EchoedOnly,
    /// No response on the notify channel.
    NoResponse,
}

/// Device state extracted from a sync read.
#[derive(Debug, Clone, Copy, PartialEq, Eq, Structural)]
pub struct StateSync {
    pub anc: Option<AncSetting>,
    pub balance: Option<u8>,
}

/// Device info: advertised name and firmware version.
#[derive(Debug, Clone)]
pub struct DeviceInfo {
    pub name: Option<String>,
    pub firmware: FirmwareVersion,
}

/// How a payload is written to a characteristic.
#[derive(Debug, Clone, Copy, PartialEq, Eq, Structural)]
pub enum WriteKind {
    WithoutResponse,
    WithResponse,
}

/// The state a sync read reports: each ANC-setting block and each balance
/// block overwrites the field it carries, later blocks winning; other blocks
/// are ignored.
pub open spec fn sync_fold(cmds: Seq<CommandView>) -> StateSync
    decreases cmds.len(),
{
    if cmds.len() == 0 {
        StateSync { anc: None, balance: None }
    } else {
        let prev = sync_fold(cmds.drop_last());
        let (op, params) = cmds.last();
        if op == opcode::ANC_SETTING {
            StateSync { anc: anc_setting_of(params), ..prev }
        } else if op == balance::OPCODE {
            StateSync { balance: balance::first_byte(params), ..prev }
        } else {
            prev
        }
    }
}

impl StateSync {
    /// Interprets a direct read of the notify characteristic.
    pub fn from_read(data: &[u8]) -> (r: Result<StateSync, CoreError>)
        ensures
            match r {
                Ok(s) => parse_spec(data@) is Some && s == sync_fold(parse_spec(data@)->0),
                Err(e) => parse_spec(data@) is None && e is InvalidPacket,
            },
    {
        let commands = Command::parse(data)?;
        let ghost views = crate::protocol::views_of(commands@);
        let mut state = StateSync { anc: None, balance: None };
        let mut i: usize = 0;
        while i < commands.len()
            invariant
                i <= commands@.len(),
                views == crate::protocol::views_of(commands@),
                state == sync_fold(views.take(i as int)),
            decreases commands.len() - i,
        {
            let cmd = &commands[i];
            assert(views.take(i + 1).drop_last() == views.take(i as int));
            assert(views.take(i + 1).last() == cmd@);
            if cmd.opcode == opcode::ANC_SETTING {
                state.anc = AncSetting::parse(cmd.parameters.as_slice());
            } else if cmd.opcode == balance::OPCODE {
                state.balance = balance::parse_balance(cmd.parameters.as_slice());
            }
            i = i + 1;
        }
        assert(views.take(commands@.len() as int) == views);
        Ok(state)
    }
}

/// Where the wait for an ANC confirmation stands after a notification.
#[derive(Debug, Clone, Copy, PartialEq, Eq, Structural)]
pub enum AncStep {
    /// Keep waiting; `echoed` records whether the write has been echoed.
    Waiting { echoed: bool },
    /// The device reported its verdict.
    Finished(AncConfirmation),
}

/// The blocks of one notification, read in order: an ANC-setting block
/// marks the write as echoed, and the first ANC-result block that carries a
/// byte ends the wait with its verdict.
pub open spec fn anc_scan(echoed: bool, cmds: Seq<CommandView>) -> AncStep
    decreases cmds.len(),
{
    if cmds.len() == 0 {
        AncStep::Waiting { echoed }
    } else {
        let (op, params) = cmds[0];
        if op == opcode::ANC_SETTING {
            anc_scan(true, cmds.drop_first())
        } else if op == opcode::ANC_RESULT && params.len() >= 1 {
            AncStep::Finished(
                if params[0] == 0x01 {
                    AncConfirmation::Applied
                } else {
                    AncConfirmation::Rejected
                },
            )
        } else {
            anc_scan(echoed, cmds.drop_first())
        }
    }
}

/// What a notification does to the wait: a packet that does not parse is
/// ignored.
pub open spec fn anc_step_of(echoed: bool, packet: Seq<u8>) -> AncStep {
    match parse_spec(packet) {
        Some(cmds) => anc_scan(echoed, cmds),
        None => AncStep::Waiting { echoed },
    }
}

/// Advances the wait for an ANC confirmation by one notification.
pub fn anc_notification_step(echoed: bool, packet: &[u8]) -> (r: AncStep)
    ensures
        r == anc_step_of(echoed, packet@),
{
    let commands = match Command::parse(packet) {
        Ok(c) => c,
        Err(_) => return AncStep::Waiting { echoed },
    };
    let ghost views = crate::protocol::views_of(commands@);
    let mut seen = echoed;
    let mut i: usize = 0;
    assert(views.skip(0) == views);
    while i < commands.len()
        invariant
            i <= commands@.len(),
            views == crate::protocol::views_of(commands@),
            parse_spec(packet@) == Some(views),
            anc_scan(echoed, views) == anc_scan(seen, views.skip(i as int)),
        decreases commands.len() - i,
    {
        let cmd = &commands[i];
        assert(views.skip(i as int).drop_first() == views.skip(i + 1));
        assert(views.skip(i as int)[0] == cmd@);
        if cmd.opcode == opcode::ANC_SETTING {
            seen = true;
        } else if cmd.opcode == opcode::ANC_RESULT {
            let event = response::dispatch(cmd.opcode, cmd.parameters.as_slice());
            if let Event::AncResult(result) = event {
                assert(response::known_event(cmd.opcode, cmd.parameters@) == Some(event));
                assert(cmd.parameters@.len() >= 1);
                assert(result.applied == (cmd.parameters@[0] == 0x01));
                let verdict = if result.applied {
                    AncConfirmation::Applied
                } else {
                    AncConfirmation::Rejected
                };
                assert(anc_scan(seen, views.skip(i as int)) == AncStep::Finished(verdict));
                return AncStep::Finished(verdict);
            }
        }
        i = i + 1;
    }
    AncStep::Waiting { echoed: seen }
}

/// The verdict when the wait for an ANC result runs out.
pub fn anc_timeout_outcome(echoed: bool) -> (r: AncConfirmation)
    ensures
        r == (if echoed {
            AncConfirmation::EchoedOnly
        } else {
            AncConfirmation::NoResponse
        }),
{
    if echoed {
        AncConfirmation::EchoedOnly
    } else {
        AncConfirmation::NoResponse
    }
}

/// The parameters of the first block carrying `target`.
pub open spec fn first_with_opcode(cmds: Seq<CommandView>, target: u8) -> Option<Seq<u8>>
    decreases cmds.len(),
{
    if cmds.len() == 0 {
        None
    } else if cmds[0].0 == target {
        Some(cmds[0].1)
    } else {
        first_with_opcode(cmds.drop_first(), target)
    }
}

/// The reply a notification carries for a query of `target`: the
/// parameters of its first block with that opcode.
pub open spec fn query_reply_of(packet: Seq<u8>, target: u8) -> Option<Seq<u8>> {
    match parse_spec(packet) {
        Some(cmds) => first_with_opcode(cmds, target),
        None => None,
    }
}

/// Picks the reply to a parameter query out of a notification.
pub fn query_reply(packet: &[u8], target: u8) -> (r: Option<Vec<u8>>)
    ensures
        match r {
            Some(v) => query_reply_of(packet@, target) == Some(v@),
            None => query_reply_of(packet@, target) is None,
        },
{
    let commands = match Command::parse(packet) {
        Ok(c) => c,
        Err(_) => return None,
    };
    let ghost views = crate::protocol::views_of(commands@);
    let mut i: usize = 0;
    assert(views.skip(0) == views);
    while i < commands.len()
        invariant
            i <= commands@.len(),
            views == crate::protocol::views_of(commands@),
            parse_spec(packet@) == Some(views),
            first_with_opcode(views, target) == first_with_opcode(views.skip(i as int), target),
        decreases commands.len() - i,
    {
        assert(views.skip(i as int).drop_first() == views.skip(i + 1));
        assert(views.skip(i as int)[0] == commands@[i as int]@);
        if commands[i].opcode == target {
            let p = &commands[i].parameters;
            assert(views.skip(i as int)[0] == (target, p@));
            assert(first_with_opcode(views.skip(i as int), target) == Some(p@));
            let v = crate::protocol::copy_range(p.as_slice(), 0, p.len());
            assert(p@.subrange(0, p@.len() as int) == p@);
            return Some(v);
        }
        i = i + 1;
    }
    None
}

/// The write type a characteristic prefers: without response when it
/// supports that, with response otherwise.
pub fn preferred_write_kind(supports_without_response: bool) -> (k: WriteKind)
    ensures
        k == (if supports_without_response {
            WriteKind::WithoutResponse
        } else {
            WriteKind::WithResponse
        }),
{
    if supports_without_response {
        WriteKind::WithoutResponse
    } else {
        WriteKind::WithResponse
    }
}

/// A write without response is silently truncated to the negotiated MTU
/// (minus the ATT header), so a longer payload goes out with response.
pub fn write_kind_for(mtu: u16, payload_len: usize, preferred: WriteKind) -> (k: WriteKind)
    ensures
        k == (if payload_len > (if mtu >= ATT_WRITE_HEADER { mtu - ATT_WRITE_HEADER } else { 0 }) {
            WriteKind::WithResponse
        } else {
            preferred
        }),
{
    let usable: u16 = if mtu >= ATT_WRITE_HEADER {
        mtu - ATT_WRITE_HEADER
    } else {
        0
    };
    if payload_len > usable as usize {
        WriteKind::WithResponse
    } else {
        preferred
    }
}

/// The bytes sent for a command: its frame, once it is known to fit.
pub fn frame_for_write(cmd: &Command) -> (r: Result<Vec<u8>, CoreError>)
    ensures
        match r {
            Ok(packet) => cmd.fits_frame() && packet@ == frame_of(cmd.opcode, cmd.parameters@),
            Err(e) => !cmd.fits_frame() && e == CoreError::FrameTooLarge(cmd.parameters@.len() as usize),
        },
{
    cmd.validate()?;
    Ok(cmd.pack())
}

/// Delay before connection attempt `attempt` (counted from zero): none for
/// the first, then 500 ms more for each retry.
pub fn retry_delay_ms(attempt: u32) -> (ms: u64)
    ensures
        ms == 500 * attempt,
{
    500 * (attempt as u64)
}

/// A battery read, interpreted: a payload shorter than three bytes is an
/// invalid packet.
pub fn battery_from_read(data: &[u8]) -> (r: Result<BatteryStatus, CoreError>)
    ensures
        match r {
            Ok(s) => battery_of(data@) == Some(s),
            Err(e) => battery_of(data@) is None && e is InvalidPacket,
        },
{
    match BatteryStatus::parse(data) {
        Some(s) => Ok(s),
        None => Err(CoreError::InvalidPacket("battery payload shorter than 3 bytes".to_owned())),
    }
}

/// A version read, interpreted: an empty payload is an invalid packet.
pub fn version_from_read(data: &[u8]) -> (r: Result<FirmwareVersion, CoreError>)
    ensures
        match r {
            Ok(v) => data@.len() > 0 && opt_chars(v.left) == left_version(data@) && opt_chars(
                v.right,
            ) == right_version(data@),
            Err(e) => data@.len() == 0 && e is InvalidPacket,
        },
{
    match FirmwareVersion::parse(data) {
        Some(v) => Ok(v),
        None => Err(CoreError::InvalidPacket("version payload was empty".to_owned())),
    }
}

/// A UTF-8 encoding is empty exactly when the text is.
pub proof fn lemma_encode_utf8_empty(s: Seq<char>)
    ensures
        (encode_utf8(s).len() == 0) == (s.len() == 0),
{
    if s.len() > 0 {
        crate::text::lemma_encode_utf8_concat(seq![s[0]], s.drop_first());
        assert(seq![s[0]] + s.drop_first() == s);
        crate::text::lemma_utf8_width(s[0]);
    }
}

/// The rename command for `name`, refused exactly when the name is made
/// only of whitespace and control characters (it sanitizes to nothing), so
/// that an empty pairing name is never written.
pub fn rename_command(name: &str) -> (r: Result<Command, CoreError>)
    ensures
        match r {
            Ok(cmd) => !is_blank(name@) && sanitized_name(name@).len() > 0 && cmd.opcode
                == crate::device_actions::opcode::PAIRNAME && cmd.parameters@ == encode_utf8(
                sanitized_name(name@),
            ) && cmd.fits_frame(),
            Err(e) => is_blank(name@) && sanitized_name(name@).len() == 0 && e
                == CoreError::InvalidName,
        },
{
    let cmd = set_name(name);
    proof {
        lemma_encode_utf8_empty(sanitized_name(name@));
    }
    if cmd.parameters.len() == 0 {
        return Err(CoreError::InvalidName);
    }
    Ok(cmd)
}

} // verus!
