//! ANC command builder for the QCY protocol.
//! Written to characteristic `00001001` (`0xFF`-framed).

pub mod opcode;

use crate::protocol::Command;
use vstd::prelude::*;

verus! {

/// Lowest wire-confirmed level for [`TransparencyMode::AmbientSound`].
pub const AMBIENT_LEVEL_MIN: u8 = 1;

/// Highest wire-confirmed level for [`TransparencyMode::AmbientSound`].
pub const AMBIENT_LEVEL_MAX: u8 = 6;

/// A three-level intensity setting used by several [`NoiseCancellingMode`] variants.
#[derive(Debug, Clone, Copy, PartialEq, Eq, Structural)]
pub enum NcLevel {
    One,
    Two,
    Three,
}

/// The "Noise Cancelling" submenu modes.
#[derive(Debug, Clone, Copy, PartialEq, Eq, Structural)]
pub enum NoiseCancellingMode {
    Adaptive,
    Indoor(NcLevel),
    DailyCommute(NcLevel),
    Noisy(NcLevel),
    WindResistance,
}

/// The "Transparency" submenu modes.
#[derive(Debug, Clone, Copy, PartialEq, Eq, Structural)]
pub enum TransparencyMode {
    VocalEnhancement,
    /// Ambient sound passthrough. Valid `level` range is
    /// [`AMBIENT_LEVEL_MIN`]`..=`[`AMBIENT_LEVEL_MAX`]; [`anc_scene`] clamps
    /// anything outside it.
    AmbientSound { level: u8 },
}

/// ANC scenes on opcode `0x17`.
#[derive(Debug, Clone, Copy, PartialEq, Eq, Structural)]
pub enum AncScene {
    /// Plain listening, no ANC/transparency processing.
    Normal,
    /// Transparency / ambient sound passthrough.
    Transparency(TransparencyMode),
    /// Noise Cancelling modes.
    NoiseCancelling(NoiseCancellingMode),
}

pub open spec fn nc_level_raw(level: NcLevel) -> u8 {
    match level {
        NcLevel::One => 0x00,
        NcLevel::Two => 0x01,
        NcLevel::Three => 0x02,
    }
}

pub open spec fn nc_level_from_raw(value: u8) -> Option<NcLevel> {
    if value == 0x00 {
        Some(NcLevel::One)
    } else if value == 0x01 {
        Some(NcLevel::Two)
    } else if value == 0x02 {
        Some(NcLevel::Three)
    } else {
        None
    }
}

impl NcLevel {
    pub fn raw(self) -> (r: u8)
        ensures
            r == nc_level_raw(self),
    {
        match self {
            NcLevel::One => 0x00,
            NcLevel::Two => 0x01,
            NcLevel::Three => 0x02,
        }
    }

    pub fn from_raw(value: u8) -> (r: Option<Self>)
        ensures
            r == nc_level_from_raw(value),
    {
        match value {
            0x00 => Some(NcLevel::One),
            0x01 => Some(NcLevel::Two),
            0x02 => Some(NcLevel::Three),
            _ => None,
        }
    }
}

/// An ambient-sound level outside the wire-confirmed range is invalid;
/// every other scene is valid.
pub open spec fn scene_is_valid(scene: AncScene) -> bool {
    match scene {
        AncScene::Transparency(TransparencyMode::AmbientSound { level }) =>
            AMBIENT_LEVEL_MIN <= level <= AMBIENT_LEVEL_MAX,
        _ => true,
    }
}

/// The `(mode, sub_scene, noise_value)` triplet of a scene.
pub open spec fn scene_triplet(scene: AncScene) -> (u8, u8, u8) {
    match scene {
        AncScene::Normal => (0x02, 0x00, 0x00),
        AncScene::Transparency(TransparencyMode::VocalEnhancement) => (0x03, 0x02, 0x00),
        AncScene::Transparency(TransparencyMode::AmbientSound { level }) => (0x03, 0x01, level),
        AncScene::NoiseCancelling(NoiseCancellingMode::Adaptive) => (0x01, 0x05, 0x00),
        AncScene::NoiseCancelling(NoiseCancellingMode::Indoor(l)) => (0x01, 0x01, nc_level_raw(l)),
        AncScene::NoiseCancelling(NoiseCancellingMode::DailyCommute(l)) => (
            0x01,
            0x02,
            nc_level_raw(l),
        ),
        AncScene::NoiseCancelling(NoiseCancellingMode::Noisy(l)) => (0x01, 0x03, nc_level_raw(l)),
        AncScene::NoiseCancelling(NoiseCancellingMode::WindResistance) => (0x01, 0x04, 0x00),
    }
}

/// The scene a `(mode, sub_scene, noise_value)` triplet names, if any.
pub open spec fn scene_from_triplet(mode: u8, sub_scene: u8, noise_value: u8) -> Option<AncScene> {
    if mode == 0x02 && sub_scene == 0x00 && noise_value == 0x00 {
        Some(AncScene::Normal)
    } else if mode == 0x03 && sub_scene == 0x02 && noise_value == 0x00 {
        Some(AncScene::Transparency(TransparencyMode::VocalEnhancement))
    } else if mode == 0x03 && sub_scene == 0x01 {
        Some(AncScene::Transparency(TransparencyMode::AmbientSound { level: noise_value }))
    } else if mode == 0x01 && sub_scene == 0x05 && noise_value == 0x00 {
        Some(AncScene::NoiseCancelling(NoiseCancellingMode::Adaptive))
    } else if mode == 0x01 && sub_scene == 0x04 && noise_value == 0x00 {
        Some(AncScene::NoiseCancelling(NoiseCancellingMode::WindResistance))
    } else if mode == 0x01 && sub_scene == 0x01 {
        match nc_level_from_raw(noise_value) {
            Some(l) => Some(AncScene::NoiseCancelling(NoiseCancellingMode::Indoor(l))),
            None => None,
        }
    } else if mode == 0x01 && sub_scene == 0x02 {
        match nc_level_from_raw(noise_value) {
            Some(l) => Some(AncScene::NoiseCancelling(NoiseCancellingMode::DailyCommute(l))),
            None => None,
        }
    } else if mode == 0x01 && sub_scene == 0x03 {
        match nc_level_from_raw(noise_value) {
            Some(l) => Some(AncScene::NoiseCancelling(NoiseCancellingMode::Noisy(l))),
            None => None,
        }
    } else {
        None
    }
}

/// `value` limited to `lo..=hi`.
pub open spec fn clamp_u8(value: u8, lo: u8, hi: u8) -> u8 {
    if value < lo {
        lo
    } else if value > hi {
        hi
    } else {
        value
    }
}

/// The parameters [`anc_scene`] writes: the scene's triplet, with an
/// ambient-sound level clamped into the wire-confirmed range.
pub open spec fn anc_parameters(scene: AncScene) -> Seq<u8> {
    let (mode, sub_scene, noise_value) = scene_triplet(scene);
    match scene {
        AncScene::Transparency(TransparencyMode::AmbientSound { .. }) => seq![
            mode,
            sub_scene,
            clamp_u8(noise_value, AMBIENT_LEVEL_MIN, AMBIENT_LEVEL_MAX),
        ],
        _ => seq![mode, sub_scene, noise_value],
    }
}

impl AncScene {
    /// `false` for an ambient-sound level outside the wire-confirmed range.
    pub fn is_valid(self) -> (r: bool)
        ensures
            r == scene_is_valid(self),
    {
        match self {
            AncScene::Transparency(TransparencyMode::AmbientSound { level }) => {
                AMBIENT_LEVEL_MIN <= level && level <= AMBIENT_LEVEL_MAX
            },
            _ => true,
        }
    }

    /// Returns the `(mode, sub_scene, noise_value)` triplet for this scene.
    pub fn triplet(self) -> (r: (u8, u8, u8))
        ensures
            r == scene_triplet(self),
    {
        match self {
            AncScene::Normal => (0x02, 0x00, 0x00),
            AncScene::Transparency(TransparencyMode::VocalEnhancement) => (0x03, 0x02, 0x00),
            AncScene::Transparency(TransparencyMode::AmbientSound { level }) => (0x03, 0x01, level),
            AncScene::NoiseCancelling(NoiseCancellingMode::Adaptive) => (0x01, 0x05, 0x00),
            AncScene::NoiseCancelling(NoiseCancellingMode::Indoor(level)) => {
                (0x01, 0x01, level.raw())
            },
            AncScene::NoiseCancelling(NoiseCancellingMode::DailyCommute(level)) => {
                (0x01, 0x02, level.raw())
            },
            AncScene::NoiseCancelling(NoiseCancellingMode::Noisy(level)) => {
                (0x01, 0x03, level.raw())
            },
            AncScene::NoiseCancelling(NoiseCancellingMode::WindResistance) => (0x01, 0x04, 0x00),
        }
    }

    /// Parses a `(mode, sub_scene, noise_value)` triplet into an [`AncScene`].
    pub fn from_triplet(mode: u8, sub_scene: u8, noise_value: u8) -> (r: Option<Self>)
        ensures
            r == scene_from_triplet(mode, sub_scene, noise_value),
    {
        match (mode, sub_scene, noise_value) {
            (0x02, 0x00, 0x00) => Some(AncScene::Normal),
            (0x03, 0x02, 0x00) => Some(AncScene::Transparency(TransparencyMode::VocalEnhancement)),
            (0x03, 0x01, level) => Some(
                AncScene::Transparency(TransparencyMode::AmbientSound { level }),
            ),
            (0x01, 0x05, 0x00) => Some(AncScene::NoiseCancelling(NoiseCancellingMode::Adaptive)),
            (0x01, 0x04, 0x00) => Some(
                AncScene::NoiseCancelling(NoiseCancellingMode::WindResistance),
            ),
            (0x01, 0x01, raw) => match NcLevel::from_raw(raw) {
                Some(level) => Some(AncScene::NoiseCancelling(NoiseCancellingMode::Indoor(level))),
                None => None,
            },
            (0x01, 0x02, raw) => match NcLevel::from_raw(raw) {
                Some(level) => Some(
                    AncScene::NoiseCancelling(NoiseCancellingMode::DailyCommute(level)),
                ),
                None => None,
            },
            (0x01, 0x03, raw) => match NcLevel::from_raw(raw) {
                Some(level) => Some(AncScene::NoiseCancelling(NoiseCancellingMode::Noisy(level))),
                None => None,
            },
            _ => None,
        }
    }
}

/// Builds the ANC-setting write command for a given [`AncScene`].
///
/// An ambient-sound level outside the wire-confirmed range is clamped into
/// it, so no unconfirmed value reaches the firmware.
pub fn anc_scene(scene: AncScene) -> (cmd: Command)
    ensures
        cmd.opcode == opcode::ANC_SETTING,
        cmd.parameters@ == anc_parameters(scene),
{
    let (mode, sub_scene, mut noise_value) = scene.triplet();
    if let AncScene::Transparency(TransparencyMode::AmbientSound { .. }) = scene {
        if noise_value < AMBIENT_LEVEL_MIN {
            noise_value = AMBIENT_LEVEL_MIN;
        } else if noise_value > AMBIENT_LEVEL_MAX {
            noise_value = AMBIENT_LEVEL_MAX;
        }
    }
    Command::new(opcode::ANC_SETTING, vec![mode, sub_scene, noise_value])
}

/// Every scene's triplet parses back to that scene.
pub proof fn lemma_from_triplet_of_triplet(scene: AncScene)
    ensures
        ({
            let (m, s, n) = scene_triplet(scene);
            scene_from_triplet(m, s, n) == Some(scene)
        }),
{
}

/// A triplet that names a scene is exactly that scene's triplet.
pub proof fn lemma_triplet_of_from_triplet(mode: u8, sub_scene: u8, noise_value: u8)
    requires
        scene_from_triplet(mode, sub_scene, noise_value) is Some,
    ensures
        scene_triplet(scene_from_triplet(mode, sub_scene, noise_value)->0) == (
            mode,
            sub_scene,
            noise_value,
        ),
{
}

/// The parameters written for any scene name a valid scene; for a scene
/// that is already valid they are its triplet, unchanged.
pub proof fn lemma_anc_parameters_are_valid(scene: AncScene)
    ensures
        scene_from_triplet(anc_parameters(scene)[0], anc_parameters(scene)[1], anc_parameters(scene)[2]) is Some,
        scene_is_valid(
            scene_from_triplet(anc_parameters(scene)[0], anc_parameters(scene)[1], anc_parameters(scene)[2])->0,
        ),
        scene_is_valid(scene) ==> ({
            let (m, s, n) = scene_triplet(scene);
            anc_parameters(scene) == seq![m, s, n]
        }),
{
}

} // verus!
