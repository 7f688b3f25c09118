//! The graphical front end's plain state and the small decisions behind
//! its widgets: signal bars, labels, language choice, file names, and the
//! reconnect back-off.

pub mod laws;
pub mod message;
pub mod model;
pub mod transition;
pub mod update;
pub mod workers;

use crate::command::{AncScene, TransparencyMode};
use crate::eq::EqPreset;
use crate::error::CoreError;
use crate::version::{FirmwareVersion, opt_chars};
use crate::scheduled_power_off::{MAX_MINUTES, MIN_MINUTES};
use crate::text::{
    chars_of, decimal, is_digit, parse_u16, parse_u16_spec, push_char, push_chars, push_decimal, str_eq,
    string_of, trim, trim_chars,
};
use vstd::prelude::*;

verus! {

/// High-level state of the persistent connection's lifecycle.
#[derive(Debug, Clone, Copy, PartialEq, Eq, Structural)]
pub enum AppState {
    /// Actively scanning/connecting in the background.
    Connecting,
    /// The persistent session is open and ready to accept commands.
    Connected,
    /// Connection failed.
    Error,
}

/// Main shell sections shown when connected.
#[derive(Debug, Clone, Copy, PartialEq, Eq, Structural)]
pub enum Tab {
    Home,
    Anc,
    Equalizer,
    Settings,
    About,
}

/// Every tab, in navigation order.
pub fn all_tabs() -> (v: Vec<Tab>)
    ensures
        v@ == seq![Tab::Home, Tab::Anc, Tab::Equalizer, Tab::Settings, Tab::About],
{
    vec![Tab::Home, Tab::Anc, Tab::Equalizer, Tab::Settings, Tab::About]
}

/// Which saved-profile library a profile action targets: the full-device
/// profiles, or the Equalizer tab's EQ-only profiles.
#[derive(Debug, Clone, Copy, PartialEq, Eq, Structural)]
pub enum ProfileScope {
    Full,
    Eq,
}

/// The color family of a status badge.
#[derive(Debug, Clone, Copy, PartialEq, Eq, Structural)]
pub enum Tone {
    Success,
    Warning,
    Danger,
    Neutral,
}

/// Persisted app-level preferences: UI theme and language.
#[derive(Debug, Clone, PartialEq, Eq)]
pub struct AppSettings {
    /// The theme's display name, e.g. `"Nord"`.
    pub theme: Option<String>,
    /// Fluent language id, e.g. `"en"` or `"pt-BR"`.
    pub language: Option<String>,
}

/// The settings to use given what was read from disk (`None` when nothing
/// readable was saved): the saved settings, or no theme and no language,
/// meaning the default theme and the system-detected language.
pub fn load_settings(stored: Option<AppSettings>) -> (s: AppSettings)
    ensures
        s == (match stored {
            Some(saved) => saved,
            None => AppSettings { theme: None, language: None },
        }),
{
    match stored {
        Some(saved) => saved,
        None => AppSettings { theme: None, language: None },
    }
}

/// Number of signal bars drawn.
pub const BAR_COUNT: usize = 4;

/// How many bars light up for an RSSI reading, in dBm: four from -60 up,
/// one fewer for each 10 dBm below, none below -90.
pub open spec fn bars_for(rssi: i16) -> usize {
    if rssi >= -60 {
        4
    } else if rssi >= -70 {
        3
    } else if rssi >= -80 {
        2
    } else if rssi >= -90 {
        1
    } else {
        0
    }
}

pub fn bars_for_rssi(rssi: i16) -> (n: usize)
    ensures
        n == bars_for(rssi),
        n <= BAR_COUNT,
{
    if rssi >= -60 {
        4
    } else if rssi >= -70 {
        3
    } else if rssi >= -80 {
        2
    } else if rssi >= -90 {
        1
    } else {
        0
    }
}

/// A stronger reading never lights fewer bars.
pub proof fn lemma_bars_monotone(a: i16, b: i16)
    requires
        a <= b,
    ensures
        bars_for(a) <= bars_for(b),
{
}

/// A UI language, by its Fluent language id.
#[derive(Debug, Clone, Copy, PartialEq, Eq)]
pub struct LanguageOption(pub &'static str);

/// The languages with translations, in picker order.
pub fn all_languages() -> (v: Vec<LanguageOption>)
    ensures
        v@ == seq![LanguageOption("en"), LanguageOption("pt-BR")],
{
    vec![LanguageOption("en"), LanguageOption("pt-BR")]
}

impl LanguageOption {
    /// The language with id `id`, if it is one of the translated ones.
    pub fn from_id(id: &str) -> (r: Option<LanguageOption>)
        ensures
            r == (if id@ == "en"@ {
                Some(LanguageOption("en"))
            } else if id@ == "pt-BR"@ {
                Some(LanguageOption("pt-BR"))
            } else {
                None
            }),
    {
        if str_eq(id, "en") {
            Some(LanguageOption("en"))
        } else if str_eq(id, "pt-BR") {
            Some(LanguageOption("pt-BR"))
        } else {
            None
        }
    }

    /// The language's Fluent id.
    pub fn id(self) -> (r: &'static str)
        ensures
            r == self.0,
    {
        self.0
    }

    /// The language's name, in that language; an unknown id is shown as is.
    pub fn label(self) -> (r: &'static str)
        ensures
            r == (if self.0@ == "en"@ {
                "English"
            } else if self.0@ == "pt-BR"@ {
                "Português (Brasil)"
            } else {
                self.0
            }),
    {
        if str_eq(self.0, "en") {
            "English"
        } else if str_eq(self.0, "pt-BR") {
            "Português (Brasil)"
        } else {
            self.0
        }
    }
}

/// A band's center frequency as the device's own app shows it: whole kHz
/// from 1000 Hz on (`"2k"`), plain Hz below (`"500"`).
pub open spec fn freq_text(freq_hz: u16) -> Seq<char> {
    if freq_hz >= 1000 {
        decimal((freq_hz / 1000) as nat).push('k')
    } else {
        decimal(freq_hz as nat)
    }
}

pub fn freq_label(freq_hz: u16) -> (s: String)
    ensures
        s@ == freq_text(freq_hz),
{
    let mut s = String::new();
    if freq_hz >= 1000 {
        push_decimal(&mut s, (freq_hz / 1000) as u32);
        push_char(&mut s, 'k');
    } else {
        push_decimal(&mut s, freq_hz as u32);
    }
    s
}

/// A gain in dB with an explicit sign for positive values: `"+3"`,
/// `"-8"`, `"0"`.
pub open spec fn gain_text(gain_db: i16) -> Seq<char> {
    if gain_db > 0 {
        seq!['+'] + decimal(gain_db as nat)
    } else if gain_db < 0 {
        seq!['-'] + decimal((-gain_db) as nat)
    } else {
        seq!['0']
    }
}

pub fn gain_label(gain_db: i16) -> (s: String)
    ensures
        s@ == gain_text(gain_db),
{
    let mut s = String::new();
    if gain_db > 0 {
        push_char(&mut s, '+');
        push_decimal(&mut s, gain_db as u32);
    } else if gain_db < 0 {
        push_char(&mut s, '-');
        let magnitude: i32 = -(gain_db as i32);
        push_decimal(&mut s, magnitude as u32);
    } else {
        push_char(&mut s, '0');
    }
    s
}

/// The icon of a built-in profile, by its key; any other name gets the
/// generic folder icon.
pub fn built_in_icon(name: &str) -> (r: &'static str)
    ensures
        r == (if name@ == "built-in-focus"@ {
            "🎯"
        } else if name@ == "built-in-calls"@ {
            "🗣️"
        } else if name@ == "built-in-workout"@ {
            "🏃"
        } else if name@ == "built-in-gaming"@ {
            "🎮"
        } else {
            "🗂️"
        }),
{
    if str_eq(name, "built-in-focus") {
        "🎯"
    } else if str_eq(name, "built-in-calls") {
        "🗣️"
    } else if str_eq(name, "built-in-workout") {
        "🏃"
    } else if str_eq(name, "built-in-gaming") {
        "🎮"
    } else {
        "🗂️"
    }
}

/// Whether a profile name is the key of a built-in profile, whose label
/// the front end looks up in its translations instead of showing as typed.
pub fn is_built_in_key(name: &str) -> (r: bool)
    ensures
        r == (name@ == "built-in-focus"@ || name@ == "built-in-calls"@ || name@
            == "built-in-workout"@ || name@ == "built-in-gaming"@),
{
    str_eq(name, "built-in-focus") || str_eq(name, "built-in-calls") || str_eq(
        name,
        "built-in-workout",
    ) || str_eq(name, "built-in-gaming")
}

/// The icon shown on an equalizer preset's chip.
pub fn preset_icon(preset: EqPreset) -> (r: &'static str)
    ensures
        r == (match preset {
            EqPreset::Spatial => "🌐",
            EqPreset::Default => "🎚️",
            EqPreset::Popular => "🔥",
            EqPreset::BassBoost => "🥁",
            EqPreset::Rock => "🎸",
            EqPreset::Soft => "🍃",
            EqPreset::Classic => "🎻",
        }),
{
    match preset {
        EqPreset::Spatial => "🌐",
        EqPreset::Default => "🎚️",
        EqPreset::Popular => "🔥",
        EqPreset::BassBoost => "🥁",
        EqPreset::Rock => "🎸",
        EqPreset::Soft => "🍃",
        EqPreset::Classic => "🎻",
    }
}

/// The tone of the connection badge: connecting warns, connected succeeds,
/// a failed connection is a danger.
pub fn state_tone(state: AppState) -> (t: Tone)
    ensures
        t == (match state {
            AppState::Connecting => Tone::Warning,
            AppState::Connected => Tone::Success,
            AppState::Error => Tone::Danger,
        }),
{
    match state {
        AppState::Connecting => Tone::Warning,
        AppState::Connected => Tone::Success,
        AppState::Error => Tone::Danger,
    }
}

/// The tone of the home screen's status pill: ready once the device has
/// confirmed an ANC scene, neutral before.
pub fn scene_tone(active: Option<AncScene>) -> (t: Tone)
    ensures
        t == (if active is Some {
            Tone::Success
        } else {
            Tone::Neutral
        }),
{
    match active {
        Some(_) => Tone::Success,
        None => Tone::Neutral,
    }
}

/// The vocal-enhancement switch is on while that transparency mode is the
/// confirmed scene.
pub fn vocal_enhancement_on(active: Option<AncScene>) -> (r: bool)
    ensures
        r == (active == Some(AncScene::Transparency(TransparencyMode::VocalEnhancement))),
{
    match active {
        Some(AncScene::Transparency(TransparencyMode::VocalEnhancement)) => true,
        _ => false,
    }
}

/// The scene the vocal-enhancement switch requests: vocal enhancement when
/// switched on, back to ambient sound at the slider's level when off.
pub fn vocal_enhancement_request(on: bool, ambient_level: u8) -> (s: AncScene)
    ensures
        s == (if on {
            AncScene::Transparency(TransparencyMode::VocalEnhancement)
        } else {
            AncScene::Transparency(TransparencyMode::AmbientSound { level: ambient_level })
        }),
{
    if on {
        AncScene::Transparency(TransparencyMode::VocalEnhancement)
    } else {
        AncScene::Transparency(TransparencyMode::AmbientSound { level: ambient_level })
    }
}

/// A button on a saved profile's row.
#[derive(Debug, Clone, Copy, PartialEq, Eq, Structural)]
pub enum RowAction {
    /// Clears the active-profile indicator.
    Deactivate,
    /// Applies the profile.
    Apply,
    /// Exports the profile to a file.
    Export,
    /// Deletes the profile.
    Delete,
}

/// The buttons of a profile's row, in order: deactivate for the active
/// profile or apply for any other, export, and delete for user profiles
/// only.
pub fn profile_row_actions(built_in: bool, is_active: bool) -> (v: Vec<RowAction>)
    ensures
        v@ == seq![if is_active { RowAction::Deactivate } else { RowAction::Apply }, RowAction::Export]
            + if built_in {
            Seq::<RowAction>::empty()
        } else {
            seq![RowAction::Delete]
        },
{
    let mut v: Vec<RowAction> = Vec::new();
    if is_active {
        v.push(RowAction::Deactivate);
    } else {
        v.push(RowAction::Apply);
    }
    v.push(RowAction::Export);
    if !built_in {
        v.push(RowAction::Delete);
    }
    proof {
        if built_in {
            assert(v@ =~= seq![if is_active { RowAction::Deactivate } else { RowAction::Apply }, RowAction::Export]
                + Seq::<RowAction>::empty());
        } else {
            assert(v@ =~= seq![if is_active { RowAction::Deactivate } else { RowAction::Apply }, RowAction::Export]
                + seq![RowAction::Delete]);
        }
    }
    v
}

/// The firmware line of the settings and home tabs: both earbuds' versions
/// joined by `" / "`, or the one that was read; `None` (shown as
/// "unknown") when neither was.
pub open spec fn firmware_line_of(f: Option<FirmwareVersion>) -> Option<Seq<char>> {
    match f {
        Some(v) => match (opt_chars(v.left), opt_chars(v.right)) {
            (Some(l), Some(r)) => Some(l + seq![' ', '/', ' '] + r),
            (Some(l), None) => Some(l),
            (None, Some(r)) => Some(r),
            (None, None) => None,
        },
        None => None,
    }
}

pub fn firmware_line(f: &Option<FirmwareVersion>) -> (r: Option<String>)
    ensures
        opt_chars(r) == firmware_line_of(*f),
{
    match f {
        Some(v) => match (&v.left, &v.right) {
            (Some(left), Some(right)) => {
                let mut s = left.clone();
                push_char(&mut s, ' ');
                push_char(&mut s, '/');
                push_char(&mut s, ' ');
                let rc = chars_of(right.as_str());
                push_chars(&mut s, rc.as_slice());
                assert(s@ == left@ + seq![' ', '/', ' '] + right@);
                Some(s)
            },
            (Some(left), None) => Some(left.clone()),
            (None, Some(right)) => Some(right.clone()),
            (None, None) => None,
        },
        None => None,
    }
}

/// Whether `char::is_alphanumeric` holds of a character.
pub uninterp spec fn alphanumeric(c: char) -> bool;

/// Trusted: `char::is_alphanumeric`, which the standard library documents
/// as `is_alphabetic() || is_numeric()` over the Unicode tables. Only its
/// ASCII behaviour (letters and digits) is stated; the rest is named.
#[verifier::external_body]
fn char_is_alphanumeric(c: char) -> (r: bool)
    ensures
        r == alphanumeric(c),
        (c as u32) < 128 ==> r == (('a' <= c && c <= 'z') || ('A' <= c && c <= 'Z') || ('0' <= c
            && c <= '9')),
{
    c.is_alphanumeric()
}

/// A character kept in a suggested file name; any other is replaced by `_`.
pub open spec fn file_name_char(c: char) -> char {
    if alphanumeric(c) || c == '-' || c == '_' || c == ' ' {
        c
    } else {
        '_'
    }
}

/// A profile name turned into a suggested export file name: awkward
/// characters replaced by `_`, surrounding whitespace trimmed, and
/// `"profile"` when nothing is left.
pub open spec fn file_name_of(name: Seq<char>) -> Seq<char> {
    let t = trim(Seq::new(name.len(), |i: int| file_name_char(name[i])));
    if t.len() == 0 {
        "profile"@
    } else {
        t
    }
}

pub fn sanitize_file_name(name: &str) -> (s: String)
    ensures
        s@ == file_name_of(name@),
{
    let chars = chars_of(name);
    let mut cleaned: Vec<char> = Vec::new();
    let mut i: usize = 0;
    while i < chars.len()
        invariant
            i <= chars@.len(),
            cleaned@.len() == i,
            forall|j: int| 0 <= j < i ==> cleaned@[j] == file_name_char(#[trigger] chars@[j]),
        decreases chars.len() - i,
    {
        let c = chars[i];
        let kept = if char_is_alphanumeric(c) || c == '-' || c == '_' || c == ' ' {
            c
        } else {
            '_'
        };
        cleaned.push(kept);
        i = i + 1;
    }
    assert(cleaned@ == Seq::new(name@.len(), |i: int| file_name_char(name@[i])));
    let t = trim_chars(cleaned.as_slice());
    if t.len() == 0 {
        "profile".to_owned()
    } else {
        string_of(t.as_slice())
    }
}

/// Where the balance slider sits, for its label.
#[derive(Debug, Clone, Copy, PartialEq, Eq, Structural)]
pub enum BalanceSide {
    Centered,
    /// Toward the left, by this percentage of the half-range.
    Left(u8),
    /// Toward the right, by this percentage of the half-range.
    Right(u8),
}

/// The side and strength of a balance value: `50` is centered, and each
/// step away from it is 2 %.
pub fn balance_side(value: u8) -> (r: BalanceSide)
    requires
        value <= 177,
    ensures
        r == (if value == 50 {
            BalanceSide::Centered
        } else if value > 50 {
            BalanceSide::Right(((value - 50) * 2) as u8)
        } else {
            BalanceSide::Left(((50 - value) * 2) as u8)
        }),
{
    if value == 50 {
        BalanceSide::Centered
    } else if value > 50 {
        BalanceSide::Right((value - 50) * 2)
    } else {
        BalanceSide::Left((50 - value) * 2)
    }
}

/// First delay after a connection attempt finds nothing, in seconds.
pub const RECONNECT_BACKOFF_MIN_SECS: u64 = 1;

/// Ceiling on the retry delay, in seconds.
pub const RECONNECT_BACKOFF_MAX_SECS: u64 = 30;

/// The delay after `current`: doubled, capped at the ceiling.
pub open spec fn backoff_after(current_secs: u64) -> u64 {
    if 2 * current_secs <= RECONNECT_BACKOFF_MAX_SECS {
        (2 * current_secs) as u64
    } else {
        RECONNECT_BACKOFF_MAX_SECS
    }
}

/// The delay after `current`: doubled, capped at the ceiling.
pub fn next_backoff(current_secs: u64) -> (next: u64)
    requires
        current_secs <= u64::MAX / 2,
    ensures
        next == backoff_after(current_secs),
{
    let doubled = current_secs * 2;
    if doubled <= RECONNECT_BACKOFF_MAX_SECS {
        doubled
    } else {
        RECONNECT_BACKOFF_MAX_SECS
    }
}

/// Started between its floor and its ceiling, the back-off never passes the
/// ceiling and never shrinks, and below the ceiling it strictly grows.
pub proof fn lemma_backoff_bounded(current_secs: u64)
    requires
        RECONNECT_BACKOFF_MIN_SECS <= current_secs <= RECONNECT_BACKOFF_MAX_SECS,
    ensures
        current_secs <= backoff_after(current_secs) <= RECONNECT_BACKOFF_MAX_SECS,
        current_secs < RECONNECT_BACKOFF_MAX_SECS ==> current_secs < backoff_after(current_secs),
{
}

/// A failed connection attempt is retried only when the device simply was
/// not advertising yet or the stack was briefly unresponsive; anything else
/// is something the user has to fix.
pub fn connect_error_is_retryable(e: &CoreError) -> (r: bool)
    ensures
        r == (*e is DeviceNotFound || *e is OperationTimeout),
{
    match e {
        CoreError::DeviceNotFound => true,
        CoreError::OperationTimeout(_) => true,
        _ => false,
    }
}

/// Max digit count accepted by the custom scheduled-power-off input.
pub const CUSTOM_MINUTES_MAX_DIGITS: usize = 3;

/// The ASCII digits of `s`, in order.
pub open spec fn digits_only(s: Seq<char>) -> Seq<char>
    decreases s.len(),
{
    if s.len() == 0 {
        s
    } else if is_digit(s.last()) {
        digits_only(s.drop_last()).push(s.last())
    } else {
        digits_only(s.drop_last())
    }
}

/// What the custom-minutes field keeps of typed text: its digits only, at
/// most three of them.
pub open spec fn minutes_input_of(s: Seq<char>) -> Seq<char> {
    let d = digits_only(s);
    if d.len() <= CUSTOM_MINUTES_MAX_DIGITS {
        d
    } else {
        d.take(CUSTOM_MINUTES_MAX_DIGITS as int)
    }
}

pub fn filter_minutes_input(value: &str) -> (s: String)
    ensures
        s@ == minutes_input_of(value@),
{
    let chars = chars_of(value);
    let mut digits: Vec<char> = Vec::new();
    let mut i: usize = 0;
    while i < chars.len()
        invariant
            i <= chars@.len(),
            digits@ == digits_only(chars@.take(i as int)),
        decreases chars.len() - i,
    {
        assert(chars@.take(i + 1).drop_last() == chars@.take(i as int));
        let c = chars[i];
        if '0' <= c && c <= '9' {
            digits.push(c);
        }
        i = i + 1;
    }
    assert(chars@.take(chars@.len() as int) == chars@);
    let mut kept: Vec<char> = Vec::new();
    let mut k: usize = 0;
    while k < digits.len() && k < CUSTOM_MINUTES_MAX_DIGITS
        invariant
            k <= digits@.len(),
            k <= CUSTOM_MINUTES_MAX_DIGITS,
            kept@ == digits@.take(k as int),
        decreases CUSTOM_MINUTES_MAX_DIGITS - k,
    {
        kept.push(digits[k]);
        k = k + 1;
        assert(digits@.take(k as int) == digits@.take(k - 1).push(digits@[k - 1]));
    }
    assert(digits@.len() <= CUSTOM_MINUTES_MAX_DIGITS ==> digits@.take(k as int) == digits@);
    string_of(kept.as_slice())
}

/// The minutes a submitted custom field holds: its trimmed text as a `u16`,
/// when that is a timer the user may set
/// ([`MIN_MINUTES`]`..=`[`MAX_MINUTES`]); `None` otherwise.
pub open spec fn custom_minutes_of(input: Seq<char>) -> Option<u16> {
    match parse_u16_spec(trim(input)) {
        Some(m) => if MIN_MINUTES <= m && m <= MAX_MINUTES {
            Some(m)
        } else {
            None
        },
        None => None,
    }
}

/// The minutes a submitted custom field holds, refused outside
/// [`MIN_MINUTES`]`..=`[`MAX_MINUTES`].
pub fn custom_minutes(input: &str) -> (r: Option<u16>)
    ensures
        r == custom_minutes_of(input@),
{
    let chars = chars_of(input);
    let t = trim_chars(chars.as_slice());
    match parse_u16(t.as_slice()) {
        Some(m) => if MIN_MINUTES <= m && m <= MAX_MINUTES {
            Some(m)
        } else {
            None
        },
        None => None,
    }
}

} // verus!
