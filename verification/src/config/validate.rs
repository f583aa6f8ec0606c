use vstd::prelude::*;

use crate::config::combo::{combo_of, parse_combo_on, Platform};
use crate::config::types::{slots, Config, Profile, TargetEvent};
use crate::text::string_of;

verus! {

/// The slots of the profiles' mapping sets, profile by profile.
pub open spec fn profile_slots(ps: Seq<Profile>) -> Seq<Option<TargetEvent>>
    decreases ps.len(),
{
    if ps.len() == 0 {
        Seq::empty()
    } else {
        profile_slots(ps.drop_last()) + slots(ps.last().mappings)
    }
}

/// Every mapping slot of a config: the default set first, then each
/// profile's set, in order.
pub open spec fn all_slots(config: Config) -> Seq<Option<TargetEvent>> {
    slots(config.default) + profile_slots(config.profiles@)
}

/// A keyboard binding that is not empty and does not parse on `platform`.
pub open spec fn invalid_binding(platform: Platform, slot: Option<TargetEvent>) -> bool {
    slot matches Some(TargetEvent::Keyboard { binding, .. }) && binding@.len() > 0 && combo_of(
        platform,
        binding@,
    ) is None
}

/// The binding of the first invalid keyboard binding among the slots.
pub open spec fn first_invalid_binding(platform: Platform, s: Seq<Option<TargetEvent>>) -> Option<
    Seq<char>,
>
    decreases s.len(),
{
    if s.len() == 0 {
        None
    } else if invalid_binding(platform, s[0]) {
        Some(s[0]->0->Keyboard_binding@)
    } else {
        first_invalid_binding(platform, s.drop_first())
    }
}

/// A slot holding a sleep, restart or shutdown event.
pub open spec fn destructive_slot(slot: Option<TargetEvent>) -> bool {
    slot matches Some(e) && crate::config::types::destructive(e)
}

/// The label of the first destructive event among the slots.
pub open spec fn first_destructive_label(s: Seq<Option<TargetEvent>>) -> Option<Seq<char>>
    decreases s.len(),
{
    if s.len() == 0 {
        None
    } else if destructive_slot(s[0]) {
        Some(crate::config::types::label_of(s[0]->0))
    } else {
        first_destructive_label(s.drop_first())
    }
}

/// References to every mapping slot of `config`, in the order of [`all_slots`].
pub fn mappings_list(config: &Config) -> (v: Vec<&Option<TargetEvent>>)
    ensures
        v@.len() == all_slots(*config).len(),
        forall|i: int| 0 <= i < v@.len() ==> *v@[i] == all_slots(*config)[i],
{
    let mut v: Vec<&Option<TargetEvent>> = Vec::new();
    push_set(&mut v, &config.default);
    let ghost base = v@;
    assert(profile_slots(config.profiles@.take(0)) == Seq::<Option<TargetEvent>>::empty()) by {
        assert(config.profiles@.take(0).len() == 0);
    }
    let mut i: usize = 0;
    while i < config.profiles.len()
        invariant
            i <= config.profiles@.len(),
            v@.len() == slots(config.default).len() + profile_slots(
                config.profiles@.take(i as int),
            ).len(),
            forall|j: int|
                0 <= j < v@.len() ==> *v@[j] == (slots(config.default) + profile_slots(
                    config.profiles@.take(i as int),
                ))[j],
        decreases config.profiles@.len() - i,
    {
        let ghost before = v@;
        push_set(&mut v, &config.profiles[i].mappings);
        proof {
            let t = config.profiles@.take(i + 1);
            assert(t.drop_last() == config.profiles@.take(i as int));
            assert(t.last() == config.profiles@[i as int]);
            let prev = slots(config.default) + profile_slots(config.profiles@.take(i as int));
            let next = slots(config.default) + profile_slots(t);
            assert(next == prev + slots(config.profiles@[i as int].mappings));
        }
        i = i + 1;
    }
    assert(config.profiles@.take(config.profiles@.len() as int) == config.profiles@);
    v
}

fn push_set<'a>(v: &mut Vec<&'a Option<TargetEvent>>, m: &'a crate::config::types::ButtonMappingSet)
    ensures
        final(v)@.len() == old(v)@.len() + 8,
        forall|j: int| 0 <= j < old(v)@.len() ==> final(v)@[j] == old(v)@[j],
        forall|j: int| 0 <= j < 8 ==> *final(v)@[old(v)@.len() + j] == slots(*m)[j],
{
    v.push(&m.button_top_left);
    v.push(&m.button_top_left_hold);
    v.push(&m.button_bottom_right);
    v.push(&m.button_bottom_right_hold);
    v.push(&m.play_pause);
    v.push(&m.knob_cw);
    v.push(&m.knob_ccw);
    v.push(&m.knob_click);
}

/// Check every keyboard binding of the config (default and profiles)
/// against the key names of `platform`. Returns the first binding that is
/// not empty and does not parse.
pub fn validate_bindings(config: &Config, platform: Platform) -> (r: Result<(), String>)
    ensures
        match r {
            Ok(()) => first_invalid_binding(platform, all_slots(*config)) is None,
            Err(b) => first_invalid_binding(platform, all_slots(*config)) == Some(b@),
        },
{
    let all = mappings_list(config);
    let ghost s = all_slots(*config);
    let mut i: usize = 0;
    assert(s.skip(0) == s);
    while i < all.len()
        invariant
            s == all_slots(*config),
            all@.len() == s.len(),
            forall|j: int| 0 <= j < all@.len() ==> *all@[j] == s[j],
            i <= s.len(),
            first_invalid_binding(platform, s) == first_invalid_binding(platform, s.skip(i as int)),
        decreases s.len() - i,
    {
        assert(s.skip(i as int)[0] == s[i as int]);
        assert(s.skip(i as int).drop_first() == s.skip(i + 1));
        let slot = all[i];
        if let Some(TargetEvent::Keyboard { binding, .. }) = slot {
            if binding.unicode_len() > 0 && parse_combo_on(binding.as_str(), platform).is_none() {
                return Err(string_of(binding.as_str()));
            }
        }
        i = i + 1;
    }
    Ok(())
}

/// The label of the first sleep, restart or shutdown event bound anywhere
/// in the config (default and profiles), if any.
pub fn find_destructive_binding(config: &Config) -> (r: Option<String>)
    ensures
        match r {
            Some(l) => first_destructive_label(all_slots(*config)) == Some(l@),
            None => first_destructive_label(all_slots(*config)) is None,
        },
{
    let all = mappings_list(config);
    let ghost s = all_slots(*config);
    let mut i: usize = 0;
    assert(s.skip(0) == s);
    while i < all.len()
        invariant
            s == all_slots(*config),
            all@.len() == s.len(),
            forall|j: int| 0 <= j < all@.len() ==> *all@[j] == s[j],
            i <= s.len(),
            first_destructive_label(s) == first_destructive_label(s.skip(i as int)),
        decreases s.len() - i,
    {
        assert(s.skip(i as int)[0] == s[i as int]);
        assert(s.skip(i as int).drop_first() == s.skip(i + 1));
        let slot = all[i];
        if let Some(evt) = slot {
            if evt.is_destructive() {
                return Some(string_of(evt.label()));
            }
        }
        i = i + 1;
    }
    None
}

/// Why a config is refused by start, reload and save.
#[derive(Debug, Clone)]
pub enum Rejection {
    /// A keyboard binding that does not parse.
    InvalidBinding(String),
    /// A sleep/restart/shutdown event while `allow_destructive` is off
    /// (its label).
    Destructive(String),
}

/// Whether a config is accepted on `platform`: `Ok` unless a binding does
/// not parse there, or a destructive event is bound while
/// `allow_destructive` is off.
pub open spec fn accepted(platform: Platform, config: Config) -> bool {
    &&& first_invalid_binding(platform, all_slots(config)) is None
    &&& (!config.allow_destructive ==> first_destructive_label(all_slots(config)) is None)
}

/// The reason a config is refused: the first binding that does not parse,
/// else (unless `allow_destructive`) the label of the first destructive
/// event.
pub open spec fn refusal(platform: Platform, config: Config, why: Rejection) -> bool {
    match why {
        Rejection::InvalidBinding(b) => first_invalid_binding(platform, all_slots(config)) == Some(
            b@,
        ),
        Rejection::Destructive(l) => first_invalid_binding(platform, all_slots(config)) is None
            && !config.allow_destructive && first_destructive_label(all_slots(config)) == Some(
            l@,
        ),
    }
}

/// Check a config as the engine does before using or saving it: first the
/// keyboard bindings (against the key names of `platform`), then (unless
/// `allow_destructive`) destructive events.
pub fn check_config(config: &Config, platform: Platform) -> (r: Result<(), Rejection>)
    ensures
        r is Ok <==> accepted(platform, *config),
        r matches Err(why) ==> refusal(platform, *config, why),
{
    match validate_bindings(config, platform) {
        Err(b) => return Err(Rejection::InvalidBinding(b)),
        Ok(()) => {},
    }
    if !config.allow_destructive {
        if let Some(name) = find_destructive_binding(config) {
            return Err(Rejection::Destructive(name));
        }
    }
    Ok(())
}

/// The config the engine starts with: the loaded one when it is accepted,
/// else the built-in defaults, together with the reason for the fallback
/// (the one [`check_config`] gives).
pub fn startup_config(loaded: Config, defaults: Config, platform: Platform) -> (r: (
    Config,
    Option<Rejection>,
))
    ensures
        accepted(platform, loaded) ==> r.0 == loaded && r.1 is None,
        !accepted(platform, loaded) ==> r.0 == defaults && (r.1 matches Some(why) && refusal(
            platform,
            loaded,
            why,
        )),
{
    match check_config(&loaded, platform) {
        Ok(()) => (loaded, None),
        Err(why) => (defaults, Some(why)),
    }
}

proof fn lemma_first_invalid_none(platform: Platform, s: Seq<Option<TargetEvent>>)
    ensures
        first_invalid_binding(platform, s) is None <==> forall|i: int| 0 <= i < s.len() ==> !invalid_binding(platform, 
            s[i],
        ),
    decreases s.len(),
{
    if s.len() > 0 {
        lemma_first_invalid_none(platform, s.drop_first());
        if first_invalid_binding(platform, s) is None {
            assert forall|i: int| 0 <= i < s.len() implies !invalid_binding(platform, s[i]) by {
                if i > 0 {
                    assert(s[i] == s.drop_first()[i - 1]);
                }
            }
        }
        if forall|i: int| 0 <= i < s.len() ==> !invalid_binding(platform, s[i]) {
            assert forall|i: int| 0 <= i < s.drop_first().len() implies !invalid_binding(platform, 
                s.drop_first()[i],
            ) by {
                assert(s.drop_first()[i] == s[i + 1]);
            }
        }
    }
}

proof fn lemma_first_destructive_none(s: Seq<Option<TargetEvent>>)
    ensures
        first_destructive_label(s) is None <==> forall|i: int|
            0 <= i < s.len() ==> !destructive_slot(s[i]),
    decreases s.len(),
{
    if s.len() > 0 {
        lemma_first_destructive_none(s.drop_first());
        if first_destructive_label(s) is None {
            assert forall|i: int| 0 <= i < s.len() implies !destructive_slot(s[i]) by {
                if i > 0 {
                    assert(s[i] == s.drop_first()[i - 1]);
                }
            }
        }
        if forall|i: int| 0 <= i < s.len() ==> !destructive_slot(s[i]) {
            assert forall|i: int| 0 <= i < s.drop_first().len() implies !destructive_slot(
                s.drop_first()[i],
            ) by {
                assert(s.drop_first()[i] == s[i + 1]);
            }
        }
    }
}

/// A config is accepted exactly when every keyboard binding in every slot
/// (default and profiles) is empty or parses, and, unless
/// `allow_destructive` is set, no slot holds a sleep, restart or shutdown.
pub proof fn lemma_accepted_iff(platform: Platform, config: Config)
    ensures
        accepted(platform, config) <==> (forall|i: int|
            0 <= i < all_slots(config).len() ==> !invalid_binding(platform, all_slots(config)[i])) && (
        !config.allow_destructive ==> forall|i: int|
            0 <= i < all_slots(config).len() ==> !destructive_slot(all_slots(config)[i])),
{
    lemma_first_invalid_none(platform, all_slots(config));
    lemma_first_destructive_none(all_slots(config));
}

} // verus!
