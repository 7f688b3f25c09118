//! Properties of the front end's state machine that span messages.

use crate::client::AncConfirmation;
use crate::command::AncScene;
use crate::gui::message::{EffectView, Message, ProfileWrite, writes_of};
use crate::gui::model::{GuiView, initial_view};
use crate::gui::transition::{saved, snapshot, step, without_name};
use crate::text::trim;
use crate::gui::{ProfileScope, Tab};
use crate::disconnect_power_off::DisconnectPowerOff;
use crate::eq::EqPreset;
use crate::game_mode::GameMode;
use crate::ldac::Ldac;
use crate::multipoint::Multipoint;
use crate::notification_volume::NotificationVolume;
use crate::profile::{Profile, ProfileView};
use crate::scheduled_power_off::ScheduledPowerOff;
use crate::sleep_mode::SleepMode;
use crate::touch_action::{TouchAction, TouchControl};
use vstd::prelude::*;

verus! {

/// No two profiles of the list share a name.
pub open spec fn names_unique(ps: Seq<ProfileView>) -> bool {
    forall|i: int, j: int| 0 <= i < j < ps.len() ==> ps[i].name != ps[j].name
}

/// Dropping a name leaves no profile of that name, keeps every other
/// profile, adds none, and keeps names unique.
pub proof fn lemma_without_name(ps: Seq<ProfileView>, name: Seq<char>)
    ensures
        forall|k: int|
            0 <= k < without_name(ps, name).len() ==> without_name(ps, name)[k].name != name,
        forall|k: int|
            0 <= k < without_name(ps, name).len() ==> ps.contains(without_name(ps, name)[k]),
        forall|k: int|
            0 <= k < ps.len() && ps[k].name != name ==> without_name(ps, name).contains(ps[k]),
        names_unique(ps) ==> names_unique(without_name(ps, name)),
    decreases ps.len(),
{
    if ps.len() > 0 {
        let tail = ps.drop_first();
        lemma_without_name(tail, name);
        let w = without_name(ps, name);
        let wt = without_name(tail, name);
        assert forall|k: int| 0 <= k < wt.len() implies ps.contains(wt[k]) by {
            let j = choose|j: int| 0 <= j < tail.len() && tail[j] == wt[k];
            assert(ps[j + 1] == wt[k]);
        }
        assert forall|k: int| 0 <= k < ps.len() && ps[k].name != name implies w.contains(
            ps[k],
        ) by {
            if k > 0 {
                assert(tail[k - 1] == ps[k]);
                let j = choose|j: int| 0 <= j < wt.len() && wt[j] == ps[k];
                if ps[0].name == name {
                    assert(w[j] == ps[k]);
                } else {
                    assert(w[j + 1] == ps[k]);
                }
            } else {
                assert(w[0] == ps[0]);
            }
        }
        if ps[0].name != name {
            assert forall|k: int| 0 <= k < w.len() implies ps.contains(w[k]) by {
                if k == 0 {
                    assert(ps[0] == w[0]);
                } else {
                    assert(w[k] == wt[k - 1]);
                }
            }
            if names_unique(ps) {
                assert(names_unique(tail)) by {
                    assert forall|i: int, j: int| 0 <= i < j < tail.len() implies tail[i].name
                        != tail[j].name by {
                        assert(tail[i] == ps[i + 1] && tail[j] == ps[j + 1]);
                    }
                }
                assert forall|i: int, j: int| 0 <= i < j < w.len() implies w[i].name
                    != w[j].name by {
                    if i == 0 {
                        assert(w[j] == wt[j - 1]);
                        let m = choose|m: int| 0 <= m < tail.len() && tail[m] == wt[j - 1];
                        assert(ps[m + 1] == w[j]);
                    } else {
                        assert(w[i] == wt[i - 1] && w[j] == wt[j - 1]);
                    }
                }
            }
        } else if names_unique(ps) {
            assert forall|i: int, j: int| 0 <= i < j < tail.len() implies tail[i].name
                != tail[j].name by {
                assert(tail[i] == ps[i + 1] && tail[j] == ps[j + 1]);
            }
        }
    }
}

/// Saving a profile leaves exactly one profile of its name, the saved one,
/// last; the other names stay unique.
pub proof fn lemma_saved_keeps_names_unique(ps: Seq<ProfileView>, p: ProfileView)
    requires
        names_unique(ps),
    ensures
        names_unique(saved(ps, p)),
        saved(ps, p).last() == p,
{
    lemma_without_name(ps, p.name);
    let w = without_name(ps, p.name);
    let r = saved(ps, p);
    assert forall|i: int, j: int| 0 <= i < j < r.len() implies r[i].name != r[j].name by {
        if j == r.len() - 1 {
            assert(r[i] == w[i]);
        } else {
            assert(r[i] == w[i] && r[j] == w[j]);
        }
    }
}

/// Every message keeps the names within each saved-profile list unique.
pub proof fn lemma_step_keeps_names_unique(s: GuiView, m: Message)
    requires
        names_unique(s.profiles),
        names_unique(s.eq_profiles),
    ensures
        names_unique(step(s, m).0.profiles),
        names_unique(step(s, m).0.eq_profiles),
{
    match m {
        Message::DeleteProfile(_, name) => {
            lemma_without_name(s.profiles, name@);
            lemma_without_name(s.eq_profiles, name@);
        },
        Message::SaveCurrentAsProfile(scope) => {
            let t = step(s, m).0;
            if t.profiles != s.profiles {
                lemma_saved_keeps_names_unique(s.profiles, t.profiles.last());
            }
            if t.eq_profiles != s.eq_profiles {
                lemma_saved_keeps_names_unique(s.eq_profiles, t.eq_profiles.last());
            }
        },
        Message::ImportProfileResult(_, Ok(Some(p))) => {
            lemma_saved_keeps_names_unique(s.profiles, p@);
            lemma_saved_keeps_names_unique(s.eq_profiles, p@);
        },
        _ => {},
    }
}

/// A disconnect returns every device-derived field to its start-up value:
/// only the tab, the theme, the error log, the custom curve, the language,
/// the saved profiles and the profile names being typed survive.
pub proof fn lemma_disconnect_forgets_device(s: GuiView)
    ensures
        step(s, Message::Disconnected) == (
            GuiView {
                tab: s.tab,
                theme: s.theme,
                error_log: s.error_log,
                eq_custom_bands: s.eq_custom_bands,
                language: s.language,
                profiles: s.profiles,
                new_profile_name: s.new_profile_name,
                eq_profiles: s.eq_profiles,
                new_eq_profile_name: s.new_eq_profile_name,
                ..initial_view()
            },
            EffectView::Nothing,
        ),
{
}

/// An ANC request while another is pending is ignored; otherwise it becomes
/// the pending request and is written. Its outcome, whatever it is, ends the
/// wait.
pub proof fn lemma_anc_request_waits(
    s: GuiView,
    scene: AncScene,
    outcome: Result<AncConfirmation, String>,
)
    ensures
        s.pending_scene is Some ==> step(s, Message::SetAnc(scene)) == (s, EffectView::Nothing),
        s.pending_scene is None ==> step(s, Message::SetAnc(scene)).0.pending_scene == Some(
            scene,
        ) && step(s, Message::SetAnc(scene)).1 == EffectView::SetAnc(scene),
        step(s, Message::AncResult(scene, outcome)).0.pending_scene is None,
{
}

/// "Reset to default" and "factory reset" act only on a second press: the
/// first only arms them, and switching tabs in between disarms them.
pub proof fn lemma_resets_need_two_presses(s: GuiView, tab: Tab)
    requires
        !s.reset_default_armed,
        !s.factory_reset_armed,
    ensures
        step(s, Message::ResetDefaultPressed).1 == EffectView::Nothing,
        step(step(s, Message::ResetDefaultPressed).0, Message::ResetDefaultPressed).1
            == EffectView::ResetDefault,
        !step(step(s, Message::ResetDefaultPressed).0, Message::ResetDefaultPressed).0.reset_default_armed,
        step(
            step(step(s, Message::ResetDefaultPressed).0, Message::TabSelected(tab)).0,
            Message::ResetDefaultPressed,
        ).1 == EffectView::Nothing,
        step(s, Message::FactoryResetPressed).1 == EffectView::Nothing,
        step(step(s, Message::FactoryResetPressed).0, Message::FactoryResetPressed).1
            == EffectView::FactoryReset,
        !step(step(s, Message::FactoryResetPressed).0, Message::FactoryResetPressed).0.factory_reset_armed,
        step(
            step(step(s, Message::FactoryResetPressed).0, Message::TabSelected(tab)).0,
            Message::FactoryResetPressed,
        ).1 == EffectView::Nothing,
{
}

/// The saved-profile list a scope addresses.
pub open spec fn scope_list(s: GuiView, scope: ProfileScope) -> Seq<ProfileView> {
    match scope {
        ProfileScope::Full => s.profiles,
        ProfileScope::Eq => s.eq_profiles,
    }
}

/// The profile name being typed for a scope.
pub open spec fn typed_name(s: GuiView, scope: ProfileScope) -> Seq<char> {
    match scope {
        ProfileScope::Full => s.new_profile_name,
        ProfileScope::Eq => s.new_eq_profile_name,
    }
}

/// Saving the live settings under a blank name does nothing; under any
/// other name it stores the snapshot last in the scope's list, the only
/// profile of that name, and asks for the list to be persisted.
pub proof fn lemma_save_current_stores_snapshot(s: GuiView, scope: ProfileScope)
    requires
        names_unique(scope_list(s, scope)),
    ensures
        ({
            let (t, e) = step(s, Message::SaveCurrentAsProfile(scope));
            let name = trim(typed_name(s, scope));
            &&& name.len() == 0 ==> t == s && e == EffectView::Nothing
            &&& name.len() > 0 ==> {
                &&& e == EffectView::SaveProfiles(scope)
                &&& scope_list(t, scope).last() == snapshot(s, scope, name)
                &&& names_unique(scope_list(t, scope))
            }
        }),
{
    let name = trim(typed_name(s, scope));
    if name.len() > 0 {
        lemma_saved_keeps_names_unique(scope_list(s, scope), snapshot(s, scope, name));
    }
}

/// The setting a profile write stands for is one the profile holds: a
/// setting left `None` is never written, and a preset is written only when
/// the profile has no custom curve.
pub open spec fn write_is_held(p: Profile, w: ProfileWrite) -> bool {
    match w {
        ProfileWrite::Anc(s) => p.anc_scene == Some(s),
        ProfileWrite::EqCustom(g) => p.eq_custom == Some(g),
        ProfileWrite::EqPreset(e) => p.eq_preset == Some(e) && p.eq_custom is None,
        ProfileWrite::Balance(b) => p.balance == Some(b),
        ProfileWrite::NotificationVolume(v) => p.notification_volume == Some(v),
        ProfileWrite::GameMode(g) => p.game_mode == Some(g),
    }
}

/// Every write of `ws` is one `p` holds; with `eq_only`, every write is
/// an equalizer write too.
spec fn writes_held(p: Profile, ws: Seq<ProfileWrite>, eq_only: bool) -> bool {
    forall|i: int|
        0 <= i < ws.len() ==> write_is_held(p, #[trigger] ws[i]) && (eq_only ==> (ws[i] is EqCustom
            || ws[i] is EqPreset))
}

proof fn lemma_writes_held_concat(
    p: Profile,
    a: Seq<ProfileWrite>,
    b: Seq<ProfileWrite>,
    eq_only: bool,
)
    requires
        writes_held(p, a, eq_only),
        writes_held(p, b, eq_only),
    ensures
        writes_held(p, a + b, eq_only),
{
    assert forall|i: int| 0 <= i < (a + b).len() implies write_is_held(p, #[trigger] (a + b)[i])
        && (eq_only ==> ((a + b)[i] is EqCustom || (a + b)[i] is EqPreset)) by {
        if i < a.len() {
            assert((a + b)[i] == a[i]);
        } else {
            assert((a + b)[i] == b[i - a.len()]);
        }
    }
}

/// Applying a profile writes only the settings it holds, each once; so an
/// EQ-only profile writes nothing but its equalizer.
pub proof fn lemma_profile_writes_only_what_it_holds(p: Profile)
    ensures
        forall|i: int| 0 <= i < writes_of(p).len() ==> write_is_held(p, #[trigger] writes_of(p)[i]),
        writes_of(p).len() <= 5,
        p.anc_scene is None && p.balance is None && p.notification_volume is None
            && p.game_mode is None ==> forall|i: int|
            0 <= i < writes_of(p).len() ==> (#[trigger] writes_of(p)[i] is EqCustom
                || writes_of(p)[i] is EqPreset),
{
    let eq_only = p.anc_scene is None && p.balance is None && p.notification_volume is None
        && p.game_mode is None;
    let anc = match p.anc_scene {
        Some(s) => seq![ProfileWrite::Anc(s)],
        None => Seq::empty(),
    };
    let eq = match p.eq_custom {
        Some(g) => seq![ProfileWrite::EqCustom(g)],
        None => match p.eq_preset {
            Some(e) => seq![ProfileWrite::EqPreset(e)],
            None => Seq::empty(),
        },
    };
    let balance = match p.balance {
        Some(b) => seq![ProfileWrite::Balance(b)],
        None => Seq::empty(),
    };
    let volume = match p.notification_volume {
        Some(v) => seq![ProfileWrite::NotificationVolume(v)],
        None => Seq::empty(),
    };
    let game = match p.game_mode {
        Some(g) => seq![ProfileWrite::GameMode(g)],
        None => Seq::empty(),
    };
    assert(writes_of(p) == anc + eq + balance + volume + game);
    assert(writes_held(p, anc, eq_only));
    assert(writes_held(p, eq, eq_only));
    assert(writes_held(p, balance, eq_only));
    assert(writes_held(p, volume, eq_only));
    assert(writes_held(p, game, eq_only));
    lemma_writes_held_concat(p, anc, eq, eq_only);
    lemma_writes_held_concat(p, anc + eq, balance, eq_only);
    lemma_writes_held_concat(p, anc + eq + balance, volume, eq_only);
    lemma_writes_held_concat(p, anc + eq + balance + volume, game, eq_only);
}

/// A request to change a device setting records the new value and asks for
/// exactly that value to be written: each `Set*` message (and the balance
/// release, the wear toggle, and an ANC request when none is pending) yields
/// the write of the value it names.
pub proof fn lemma_setting_requests_write_that_setting(s: GuiView)
    ensures
        forall|v: SleepMode| #![trigger step(s, Message::SetSleepMode(v))]
            step(s, Message::SetSleepMode(v)).1 == EffectView::SetSleepMode(v)
            && step(s, Message::SetSleepMode(v)).0.sleep_mode == Some(v),
        forall|v: GameMode| #![trigger step(s, Message::SetGameMode(v))]
            step(s, Message::SetGameMode(v)).1 == EffectView::SetGameMode(v)
            && step(s, Message::SetGameMode(v)).0.game_mode == Some(v),
        forall|v: Ldac| #![trigger step(s, Message::SetLdac(v))]
            step(s, Message::SetLdac(v)).1 == EffectView::SetLdac(v)
            && step(s, Message::SetLdac(v)).0.ldac == Some(v),
        forall|v: Multipoint| #![trigger step(s, Message::SetMultipoint(v))]
            step(s, Message::SetMultipoint(v)).1 == EffectView::SetMultipoint(v)
            && step(s, Message::SetMultipoint(v)).0.multipoint == Some(v),
        forall|v: NotificationVolume| #![trigger step(s, Message::SetNotificationVolume(v))]
            step(s, Message::SetNotificationVolume(v)).1 == EffectView::SetNotificationVolume(v)
            && step(s, Message::SetNotificationVolume(v)).0.notification_volume == Some(v),
        forall|v: ScheduledPowerOff| #![trigger step(s, Message::SetScheduledPowerOff(v))]
            step(s, Message::SetScheduledPowerOff(v)).1 == EffectView::SetScheduledPowerOff(v)
            && step(s, Message::SetScheduledPowerOff(v)).0.scheduled_power_off == Some(v),
        forall|v: DisconnectPowerOff| #![trigger step(s, Message::SetDisconnectPowerOff(v))]
            step(s, Message::SetDisconnectPowerOff(v)).1 == EffectView::SetDisconnectPowerOff(v)
            && step(s, Message::SetDisconnectPowerOff(v)).0.disconnect_power_off == Some(v),
        forall|v: EqPreset| #![trigger step(s, Message::SetEqPreset(v))]
            step(s, Message::SetEqPreset(v)).1 == EffectView::SetEqPreset(v)
            && step(s, Message::SetEqPreset(v)).0.eq_preset == Some(v),
        forall|v: u8| #![trigger step(s, Message::BalanceCommit(v))]
            step(s, Message::BalanceCommit(v)).1 == EffectView::SetBalance(v)
            && step(s, Message::BalanceCommit(v)).0.balance == v,
        forall|c: TouchControl, a: TouchAction| #![trigger step(s, Message::SetTouchAction(c, a))]
            step(s, Message::SetTouchAction(c, a)).1 == EffectView::SetTouchAction(c, a),
        forall|on: bool| #![trigger step(s, Message::WearDetectionToggled(on))]
            step(s, Message::WearDetectionToggled(on)).1 matches EffectView::SetWearDetection(w)
            && w.wear_detection == on
            && step(s, Message::WearDetectionToggled(on)).0.wear_detection == Some(w),
        s.pending_scene is None ==> forall|a: AncScene| #![trigger step(s, Message::SetAnc(a))]
            step(s, Message::SetAnc(a)).1 == EffectView::SetAnc(a),
{
}

} // verus!
