//! Game (low-latency) mode toggle.
//! Written to the command characteristic (`00001001`, `0xFF`-framed).
//!
//! On/off is encoded as `0x01`/`0x02`, on writes and reads alike.

use crate::balance::first_byte;
use crate::protocol::Command;
use vstd::prelude::*;

verus! {

/// Opcode for game mode (read and write).
pub const OPCODE: u8 = 0x09;

/// Game mode state.
#[derive(Debug, Clone, Copy, PartialEq, Eq, Structural)]
pub enum GameMode {
    On,
    Off,
}

/// Write-side selector: On = `0x01`, Off = `0x02`.
pub open spec fn game_mode_raw(state: GameMode) -> u8 {
    match state {
        GameMode::On => 0x01,
        GameMode::Off => 0x02,
    }
}

/// Read-side decoding: On = `0x01`, Off = `0x02`.
pub open spec fn game_mode_from_raw(value: u8) -> Option<GameMode> {
    if value == 0x01 {
        Some(GameMode::On)
    } else if value == 0x02 {
        Some(GameMode::Off)
    } else {
        None
    }
}

/// What [`parse_game_mode`] yields for a payload.
pub open spec fn game_mode_of(params: Seq<u8>) -> Option<GameMode> {
    match first_byte(params) {
        Some(b) => game_mode_from_raw(b),
        None => None,
    }
}

impl GameMode {
    pub fn raw(self) -> (r: u8)
        ensures
            r == game_mode_raw(self),
    {
        match self {
            GameMode::On => 0x01,
            GameMode::Off => 0x02,
        }
    }

    pub fn from_raw(value: u8) -> (r: Option<Self>)
        ensures
            r == game_mode_from_raw(value),
    {
        match value {
            0x01 => Some(GameMode::On),
            0x02 => Some(GameMode::Off),
            _ => None,
        }
    }
}

/// Builds the game mode-set write command.
pub fn set_game_mode(state: GameMode) -> (cmd: Command)
    ensures
        cmd.opcode == OPCODE,
        cmd.parameters@ == seq![game_mode_raw(state)],
{
    Command::new(OPCODE, vec![state.raw()])
}

/// Parses a game mode reading from a query/echo payload.
pub fn parse_game_mode(params: &[u8]) -> (r: Option<GameMode>)
    ensures
        r == game_mode_of(params@),
{
    if params.len() < 1 {
        return None;
    }
    GameMode::from_raw(params[0])
}

/// A written state reads back as itself.
pub proof fn lemma_game_mode_round_trip(state: GameMode)
    ensures
        game_mode_of(seq![game_mode_raw(state)]) == Some(state),
{
}

} // verus!
