//! Configuration profiles: named snapshots of a subset of device settings
//! that can be applied in one action, saved for later, and exported to or
//! imported from JSON.
//!
//! A [`Profile`] is intentionally sparse: every setting is optional, and
//! only the settings that are `Some` are written to the device when the
//! profile is applied. An EQ-only profile is a `Profile` with every field
//! `None` except `eq_preset`/`eq_custom`.
//!
//! Imported profiles are untrusted: [`Profile::from_import`] checks every
//! field against the range the device accepts before a profile can reach
//! the wire.

use crate::balance;
use crate::command::{AncScene, NcLevel, NoiseCancellingMode, TransparencyMode, scene_is_valid};
use crate::eq::{CUSTOM_BAND_COUNT, EqPreset, gains_in_range, gains_valid};
use crate::game_mode::GameMode;
use crate::notification_volume::NotificationVolume;
use crate::text::{
    chars_of, is_trimmed, lemma_no_controls_subrange, lemma_remove_controls, lemma_trim,
    lemma_trim_end, lemma_trim_of_trimmed, no_controls, remove_control_chars, remove_controls,
    string_of, trim, trim_chars, trim_end, trim_end_chars,
};
use vstd::prelude::*;

verus! {

/// Longest accepted profile name, in characters.
pub const MAX_NAME_CHARS: usize = 64;

/// Largest JSON document an import accepts. A real profile is a few hundred
/// bytes; the cap bounds what an arbitrary file can make the app allocate.
pub const MAX_JSON_BYTES: usize = 64 * 1024;

/// Why a profile was rejected.
#[derive(Debug, Clone, PartialEq, Eq)]
pub enum ProfileError {
    /// Not JSON, or not shaped like a profile.
    Parse(String),
    /// Larger than [`MAX_JSON_BYTES`].
    TooLarge,
    /// Empty once sanitized, or reserved for a built-in profile.
    InvalidName,
    /// Sets no device setting at all.
    Empty,
    /// Sets both a built-in EQ preset and a custom curve.
    EqConflict,
    /// A field is outside the range the device accepts.
    OutOfRange(&'static str),
}

/// The English description of each error.
pub open spec fn error_text(e: ProfileError) -> &'static str {
    match e {
        ProfileError::Parse(_) => "The file is not a valid profile",
        ProfileError::TooLarge => "The file is too large to be a profile",
        ProfileError::InvalidName => "The profile name is empty or reserved",
        ProfileError::Empty => "The profile sets no device setting",
        ProfileError::EqConflict => "The profile sets both an EQ preset and a custom curve",
        ProfileError::OutOfRange(_) => "A profile setting is outside the accepted range",
    }
}

impl ProfileError {
    /// An English description of the error.
    pub fn message(&self) -> (s: String)
        ensures
            s@ == error_text(*self)@,
    {
        let text = match self {
            ProfileError::Parse(_) => "The file is not a valid profile",
            ProfileError::TooLarge => "The file is too large to be a profile",
            ProfileError::InvalidName => "The profile name is empty or reserved",
            ProfileError::Empty => "The profile sets no device setting",
            ProfileError::EqConflict => "The profile sets both an EQ preset and a custom curve",
            ProfileError::OutOfRange(_) => "A profile setting is outside the accepted range",
        };
        text.to_owned()
    }
}

/// A named, partial snapshot of device settings.
#[derive(Debug, Clone, PartialEq)]
pub struct Profile {
    pub name: String,
    pub anc_scene: Option<AncScene>,
    pub eq_preset: Option<EqPreset>,
    /// Present only for a custom (per-band) EQ curve; mutually exclusive
    /// with `eq_preset`.
    pub eq_custom: Option<[i16; CUSTOM_BAND_COUNT]>,
    pub balance: Option<u8>,
    pub notification_volume: Option<NotificationVolume>,
    pub game_mode: Option<GameMode>,
    /// `true` for the built-in profiles; never persisted.
    pub built_in: bool,
}

/// What a [`Profile`] holds, as plain values.
pub struct ProfileView {
    pub name: Seq<char>,
    pub anc_scene: Option<AncScene>,
    pub eq_preset: Option<EqPreset>,
    pub eq_custom: Option<Seq<i16>>,
    pub balance: Option<u8>,
    pub notification_volume: Option<NotificationVolume>,
    pub game_mode: Option<GameMode>,
    pub built_in: bool,
}

impl View for Profile {
    type V = ProfileView;

    open spec fn view(&self) -> ProfileView {
        ProfileView {
            name: self.name@,
            anc_scene: self.anc_scene,
            eq_preset: self.eq_preset,
            eq_custom: match self.eq_custom {
                Some(g) => Some(g@),
                None => None,
            },
            balance: self.balance,
            notification_volume: self.notification_volume,
            game_mode: self.game_mode,
            built_in: self.built_in,
        }
    }
}

/// The name prefix reserved for built-in profiles.
pub open spec fn reserved_prefix() -> Seq<char> {
    seq!['b', 'u', 'i', 'l', 't', '-', 'i', 'n', '-']
}

/// `true` for names reserved for the built-in profiles.
pub open spec fn is_reserved(name: Seq<char>) -> bool {
    name.len() >= reserved_prefix().len() && name.take(reserved_prefix().len() as int)
        == reserved_prefix()
}

/// At most the first `n` characters of `s`.
pub open spec fn cap(s: Seq<char>, n: int) -> Seq<char> {
    if s.len() <= n {
        s
    } else {
        s.take(n)
    }
}

/// A user-supplied name, sanitized: control characters removed, surrounding
/// whitespace trimmed, capped at [`MAX_NAME_CHARS`] characters.
pub open spec fn clean_name(name: Seq<char>) -> Seq<char> {
    trim_end(cap(trim(remove_controls(name)), MAX_NAME_CHARS as int))
}

/// The profile sets no device setting.
pub open spec fn sets_nothing(p: Profile) -> bool {
    &&& p.anc_scene is None
    &&& p.eq_preset is None
    &&& p.eq_custom is None
    &&& p.balance is None
    &&& p.notification_volume is None
    &&& p.game_mode is None
}

/// Why [`Profile::validate_settings`] rejects `p`, checked in this order, or
/// `None` when it accepts it.
pub open spec fn settings_error(p: Profile) -> Option<ProfileError> {
    if p.anc_scene matches Some(s) && !scene_is_valid(s) {
        Some(ProfileError::OutOfRange("anc_scene"))
    } else if p.balance matches Some(b) && b > balance::MAX_VALUE {
        Some(ProfileError::OutOfRange("balance"))
    } else if p.eq_custom matches Some(g) && !gains_in_range(g@) {
        Some(ProfileError::OutOfRange("eq_custom"))
    } else if p.eq_preset is Some && p.eq_custom is Some {
        Some(ProfileError::EqConflict)
    } else if sets_nothing(p) {
        Some(ProfileError::Empty)
    } else {
        None
    }
}

/// The name is non-empty, already sanitized, and not reserved unless the
/// profile is a built-in.
pub open spec fn name_ok(name: Seq<char>, built_in: bool) -> bool {
    &&& name.len() > 0
    &&& name == clean_name(name)
    &&& (built_in || !is_reserved(name))
}

/// Why [`Profile::validate`] rejects `p`, or `None` when it accepts it.
pub open spec fn profile_error(p: Profile) -> Option<ProfileError> {
    if !name_ok(p.name@, p.built_in) {
        Some(ProfileError::InvalidName)
    } else {
        settings_error(p)
    }
}

/// Why an imported profile is rejected once its name is sanitized, or
/// `None` when it is accepted.
pub open spec fn import_error(parsed: Profile) -> Option<ProfileError> {
    if !name_ok(clean_name(parsed.name@), parsed.built_in) {
        Some(ProfileError::InvalidName)
    } else {
        settings_error(parsed)
    }
}

pub open spec fn result_of(e: Option<ProfileError>) -> Result<(), ProfileError> {
    match e {
        Some(err) => Err(err),
        None => Ok(()),
    }
}

/// The fields of a profile other than its name.
pub open spec fn same_settings(a: Profile, b: Profile) -> bool {
    &&& a.anc_scene == b.anc_scene
    &&& a.eq_preset == b.eq_preset
    &&& a.eq_custom == b.eq_custom
    &&& a.balance == b.balance
    &&& a.notification_volume == b.notification_volume
    &&& a.game_mode == b.game_mode
    &&& a.built_in == b.built_in
}

fn built_in_profile(
    name: &str,
    anc_scene: AncScene,
    eq_preset: EqPreset,
    notification_volume: NotificationVolume,
    game_mode: GameMode,
) -> (p: Profile)
    ensures
        p.name@ == name@,
        p.anc_scene == Some(anc_scene),
        p.eq_preset == Some(eq_preset),
        p.eq_custom is None,
        p.balance == Some(50u8),
        p.notification_volume == Some(notification_volume),
        p.game_mode == Some(game_mode),
        p.built_in,
{
    Profile {
        name: name.to_owned(),
        anc_scene: Some(anc_scene),
        eq_preset: Some(eq_preset),
        eq_custom: None,
        balance: Some(50),
        notification_volume: Some(notification_volume),
        game_mode: Some(game_mode),
        built_in: true,
    }
}

impl Profile {
    /// The profiles shipped with the app, covering common listening
    /// situations. Each name is a translation key under the reserved
    /// prefix; every field maps to a wire-confirmed setting.
    pub fn built_in() -> (v: Vec<Profile>)
        ensures
            v@.len() == 4,
            v@[0].name@ == "built-in-focus"@,
            v@[0].anc_scene == Some(AncScene::NoiseCancelling(NoiseCancellingMode::Adaptive)),
            v@[0].eq_preset == Some(EqPreset::Default),
            v@[0].notification_volume == Some(NotificationVolume::Medium),
            v@[0].game_mode == Some(GameMode::Off),
            v@[1].name@ == "built-in-calls"@,
            v@[1].anc_scene == Some(AncScene::Transparency(TransparencyMode::VocalEnhancement)),
            v@[1].eq_preset == Some(EqPreset::Soft),
            v@[1].notification_volume == Some(NotificationVolume::Low),
            v@[1].game_mode == Some(GameMode::Off),
            v@[2].name@ == "built-in-workout"@,
            v@[2].anc_scene == Some(
                AncScene::NoiseCancelling(NoiseCancellingMode::Noisy(NcLevel::Two)),
            ),
            v@[2].eq_preset == Some(EqPreset::BassBoost),
            v@[2].notification_volume == Some(NotificationVolume::High),
            v@[2].game_mode == Some(GameMode::Off),
            v@[3].name@ == "built-in-gaming"@,
            v@[3].anc_scene == Some(AncScene::Normal),
            v@[3].eq_preset == Some(EqPreset::Popular),
            v@[3].notification_volume == Some(NotificationVolume::Max),
            v@[3].game_mode == Some(GameMode::On),
            forall|i: int|
                0 <= i < 4 ==> {
                    &&& (#[trigger] v@[i]).built_in
                    &&& v@[i].eq_custom is None
                    &&& v@[i].balance == Some(50u8)
                    &&& is_reserved(v@[i].name@)
                    &&& profile_error(v@[i]) is None
                },
    {
        let focus = built_in_profile(
            "built-in-focus",
            AncScene::NoiseCancelling(NoiseCancellingMode::Adaptive),
            EqPreset::Default,
            NotificationVolume::Medium,
            GameMode::Off,
        );
        let calls = built_in_profile(
            "built-in-calls",
            AncScene::Transparency(TransparencyMode::VocalEnhancement),
            EqPreset::Soft,
            NotificationVolume::Low,
            GameMode::Off,
        );
        let workout = built_in_profile(
            "built-in-workout",
            AncScene::NoiseCancelling(NoiseCancellingMode::Noisy(NcLevel::Two)),
            EqPreset::BassBoost,
            NotificationVolume::High,
            GameMode::Off,
        );
        let gaming = built_in_profile(
            "built-in-gaming",
            AncScene::Normal,
            EqPreset::Popular,
            NotificationVolume::Max,
            GameMode::On,
        );
        proof {
            reveal_strlit("built-in-focus");
            reveal_strlit("built-in-calls");
            reveal_strlit("built-in-workout");
            reveal_strlit("built-in-gaming");
            lemma_clean_name_of_plain(focus.name@);
            lemma_clean_name_of_plain(calls.name@);
            lemma_clean_name_of_plain(workout.name@);
            lemma_clean_name_of_plain(gaming.name@);
            assert(focus.name@.take(9) == reserved_prefix());
            assert(calls.name@.take(9) == reserved_prefix());
            assert(workout.name@.take(9) == reserved_prefix());
            assert(gaming.name@.take(9) == reserved_prefix());
        }
        vec![focus, calls, workout, gaming]
    }

    /// Builds a full-device profile snapshot from the current app state.
    pub fn from_current(
        name: String,
        anc_scene: Option<AncScene>,
        eq_preset: Option<EqPreset>,
        eq_custom: Option<[i16; CUSTOM_BAND_COUNT]>,
        balance: Option<u8>,
        notification_volume: Option<NotificationVolume>,
        game_mode: Option<GameMode>,
    ) -> (p: Profile)
        ensures
            p == (Profile {
                name,
                anc_scene,
                eq_preset,
                eq_custom,
                balance,
                notification_volume,
                game_mode,
                built_in: false,
            }),
    {
        Profile {
            name,
            anc_scene,
            eq_preset,
            eq_custom,
            balance,
            notification_volume,
            game_mode,
            built_in: false,
        }
    }

    /// Builds an EQ-only profile: every non-EQ field stays `None`.
    pub fn from_current_eq(
        name: String,
        eq_preset: Option<EqPreset>,
        eq_custom: Option<[i16; CUSTOM_BAND_COUNT]>,
    ) -> (p: Profile)
        ensures
            p == (Profile {
                name,
                anc_scene: None,
                eq_preset,
                eq_custom,
                balance: None,
                notification_volume: None,
                game_mode: None,
                built_in: false,
            }),
    {
        Profile {
            name,
            anc_scene: None,
            eq_preset,
            eq_custom,
            balance: None,
            notification_volume: None,
            game_mode: None,
            built_in: false,
        }
    }

    /// Returns an EQ-only copy, every non-EQ field cleared.
    pub fn eq_only(self) -> (p: Profile)
        ensures
            p == (Profile {
                anc_scene: None,
                balance: None,
                notification_volume: None,
                game_mode: None,
                ..self
            }),
    {
        Profile { anc_scene: None, balance: None, notification_volume: None, game_mode: None, ..self }
    }

    /// Sanitizes a user-supplied name: control characters removed,
    /// surrounding whitespace trimmed, capped at [`MAX_NAME_CHARS`].
    /// Idempotent (see [`lemma_clean_name_idempotent`]).
    pub fn sanitize_name(name: &str) -> (s: String)
        ensures
            s@ == clean_name(name@),
    {
        let chars = chars_of(name);
        let stripped = remove_control_chars(chars.as_slice());
        let trimmed = trim_chars(stripped.as_slice());
        let mut capped: Vec<char> = Vec::new();
        let mut i: usize = 0;
        while i < trimmed.len() && i < MAX_NAME_CHARS
            invariant
                i <= trimmed@.len(),
                i <= MAX_NAME_CHARS,
                capped@ == trimmed@.take(i as int),
            decreases MAX_NAME_CHARS - i,
        {
            capped.push(trimmed[i]);
            i = i + 1;
            assert(trimmed@.take(i as int) == trimmed@.take(i - 1).push(trimmed@[i - 1]));
        }
        assert(capped@ == cap(trimmed@, MAX_NAME_CHARS as int));
        let end = trim_end_chars(capped.as_slice());
        string_of(end.as_slice())
    }

    /// `true` for names reserved for the built-in profiles' translation keys.
    pub fn is_reserved_name(name: &str) -> (r: bool)
        ensures
            r == is_reserved(name@),
    {
        let chars = chars_of(name);
        let prefix = vec!['b', 'u', 'i', 'l', 't', '-', 'i', 'n', '-'];
        if chars.len() < prefix.len() {
            return false;
        }
        let mut i: usize = 0;
        while i < prefix.len()
            invariant
                prefix@ == reserved_prefix(),
                chars@ == name@,
                chars@.len() >= prefix@.len(),
                i <= prefix@.len(),
                forall|j: int| 0 <= j < i ==> chars@[j] == prefix@[j],
            decreases prefix.len() - i,
        {
            if chars[i] != prefix[i] {
                return false;
            }
            i = i + 1;
        }
        assert(chars@.take(9) == reserved_prefix());
        true
    }

    /// `true` when the profile sets no device setting.
    pub fn is_empty(&self) -> (r: bool)
        ensures
            r == sets_nothing(*self),
    {
        self.anc_scene.is_none() && self.eq_preset.is_none() && self.eq_custom.is_none()
            && self.balance.is_none() && self.notification_volume.is_none()
            && self.game_mode.is_none()
    }

    /// Checks everything that reaches the device: every set field is within
    /// the range the device accepts, a preset and a custom curve aren't both
    /// set, and at least one setting is present.
    pub fn validate_settings(&self) -> (r: Result<(), ProfileError>)
        ensures
            r == result_of(settings_error(*self)),
    {
        if let Some(scene) = self.anc_scene {
            if !scene.is_valid() {
                return Err(ProfileError::OutOfRange("anc_scene"));
            }
        }
        if let Some(b) = self.balance {
            if b > balance::MAX_VALUE {
                return Err(ProfileError::OutOfRange("balance"));
            }
        }
        if let Some(gains) = &self.eq_custom {
            if !gains_valid(gains) {
                return Err(ProfileError::OutOfRange("eq_custom"));
            }
        }
        if self.eq_preset.is_some() && self.eq_custom.is_some() {
            return Err(ProfileError::EqConflict);
        }
        if self.is_empty() {
            return Err(ProfileError::Empty);
        }
        Ok(())
    }

    /// [`Self::validate_settings`], plus the name: non-empty, already
    /// sanitized, and not reserved unless the profile is a built-in.
    pub fn validate(&self) -> (r: Result<(), ProfileError>)
        ensures
            r == result_of(profile_error(*self)),
    {
        let ok = !self.name.as_str().is_empty() && self.name.eq(
            &Self::sanitize_name(self.name.as_str()),
        ) && (self.built_in || !Self::is_reserved_name(self.name.as_str()));
        if !ok {
            return Err(ProfileError::InvalidName);
        }
        self.validate_settings()
    }

    /// Rejects a serialized profile larger than [`MAX_JSON_BYTES`] before
    /// it is parsed.
    pub fn check_json_size(data_len: usize) -> (r: Result<(), ProfileError>)
        ensures
            r == (if data_len > MAX_JSON_BYTES {
                Err::<(), ProfileError>(ProfileError::TooLarge)
            } else {
                Ok(())
            }),
    {
        if data_len > MAX_JSON_BYTES {
            Err(ProfileError::TooLarge)
        } else {
            Ok(())
        }
    }

    /// The outcome of importing a serialized profile of `data_len` bytes
    /// whose parse gave `parsed` (the parser's message on failure): too
    /// large first, then unparsable, then [`Self::from_import`].
    pub fn from_json_outcome(data_len: usize, parsed: Result<Profile, String>) -> (r: Result<
        Profile,
        ProfileError,
    >)
        ensures
            data_len > MAX_JSON_BYTES ==> r == Err::<Profile, ProfileError>(ProfileError::TooLarge),
            data_len <= MAX_JSON_BYTES ==> match parsed {
                Err(m) => r == Err::<Profile, ProfileError>(ProfileError::Parse(m)),
                Ok(p) => match r {
                    Ok(q) => {
                        &&& import_error(p) is None
                        &&& q.name@ == clean_name(p.name@)
                        &&& same_settings(q, p)
                        &&& profile_error(q) is None
                    },
                    Err(e) => import_error(p) == Some(e),
                },
            },
    {
        if data_len > MAX_JSON_BYTES {
            return Err(ProfileError::TooLarge);
        }
        match parsed {
            Err(m) => Err(ProfileError::Parse(m)),
            Ok(p) => Self::from_import(p),
        }
    }

    /// Accepts a profile read from an untrusted file: the name is
    /// sanitized, then the whole profile [`Self::validate`]d.
    pub fn from_import(parsed: Profile) -> (r: Result<Profile, ProfileError>)
        ensures
            match r {
                Ok(p) => {
                    &&& import_error(parsed) is None
                    &&& p.name@ == clean_name(parsed.name@)
                    &&& same_settings(p, parsed)
                    &&& profile_error(p) is None
                },
                Err(e) => import_error(parsed) == Some(e),
            },
    {
        let mut profile = parsed;
        profile.name = Self::sanitize_name(profile.name.as_str());
        match profile.validate() {
            Ok(()) => Ok(profile),
            Err(e) => Err(e),
        }
    }
}

/// An imported profile that does not claim to be built in is accepted only
/// under a non-empty, sanitized name outside the reserved prefix, so it can
/// never pass for a built-in profile.
pub proof fn lemma_import_never_takes_a_built_in_name(parsed: Profile)
    requires
        !parsed.built_in,
    ensures
        import_error(parsed) is None ==> {
            &&& clean_name(parsed.name@).len() > 0
            &&& !is_reserved(clean_name(parsed.name@))
        },
{
}

/// The sanitized name of a name that is already clean is itself.
proof fn lemma_clean_name_of_plain(name: Seq<char>)
    requires
        no_controls(name),
        is_trimmed(name),
        name.len() <= MAX_NAME_CHARS,
    ensures
        clean_name(name) == name,
{
    lemma_remove_controls(name);
    lemma_trim_of_trimmed(name);
}

/// Sanitizing a profile name twice gives the same name as sanitizing it
/// once.
pub proof fn lemma_clean_name_idempotent(name: Seq<char>)
    ensures
        clean_name(clean_name(name)) == clean_name(name),
{
    let r = remove_controls(name);
    lemma_remove_controls(name);
    let t = trim(r);
    lemma_trim(r);
    let (a, b) = choose|a: int, b: int| 0 <= a <= b <= r.len() && t == #[trigger] r.subrange(a, b);
    lemma_no_controls_subrange(r, a, b);
    let c = cap(t, MAX_NAME_CHARS as int);
    assert(c == t.subrange(0, c.len() as int));
    lemma_no_controls_subrange(t, 0, c.len() as int);
    let e = trim_end(c);
    lemma_trim_end(c);
    let k = choose|k: int| 0 <= k <= c.len() && e == #[trigger] c.take(k);
    assert(e == c.subrange(0, k));
    lemma_no_controls_subrange(c, 0, k);
    if e.len() > 0 {
        assert(e[0] == t[0]);
    }
    lemma_clean_name_of_plain(e);
}

/// A profile is refused as empty exactly when none of its six settings
/// (ANC scene, EQ preset, custom curve, balance, notification volume, game
/// mode) is set; a profile whose only setting is an in-range custom curve is
/// accepted.
pub proof fn lemma_empty_means_no_setting(p: Profile)
    ensures
        (settings_error(p) == Some(ProfileError::Empty)) == (p.anc_scene is None && p.eq_preset is None
            && p.eq_custom is None && p.balance is None && p.notification_volume is None
            && p.game_mode is None),
        (p.eq_custom matches Some(g) && gains_in_range(g@)) && p.anc_scene is None && p.eq_preset is None
            && p.balance is None && p.notification_volume is None && p.game_mode is None
            ==> settings_error(p) is None,
{
}

} // verus!
