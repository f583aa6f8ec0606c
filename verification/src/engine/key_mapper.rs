use vstd::prelude::*;

use crate::config::types::{merged, ButtonMappingSet, Config, Profile, TargetEvent};
use crate::hid::keycode::KeyCode;
use crate::text::str_eq;

verus! {

/// The first profile whose `app_id` is `app_id`, if any.
pub open spec fn matching_profile(profiles: Seq<Profile>, app_id: Seq<char>) -> Option<Profile>
    decreases profiles.len(),
{
    if profiles.len() == 0 {
        None
    } else if profiles[0].app_id@ == app_id {
        Some(profiles[0])
    } else {
        matching_profile(profiles.drop_first(), app_id)
    }
}

/// The mapping set that applies for the focused application: the first
/// matching profile merged onto the default, else the default itself.
pub open spec fn resolved(config: Config, focused: Option<Seq<char>>) -> ButtonMappingSet {
    match focused {
        Some(id) => match matching_profile(config.profiles@, id) {
            Some(p) => merged(p.mappings, config.default),
            None => config.default,
        },
        None => config.default,
    }
}

/// The focused application's ID as characters.
pub open spec fn focus_view(focused: Option<&str>) -> Option<Seq<char>> {
    match focused {
        Some(s) => Some(s@),
        None => None,
    }
}

/// The mapping slot of a hub keyboard code: the four button codes have one,
/// every other code none.
pub open spec fn keycode_slot(kc: KeyCode, m: ButtonMappingSet) -> Option<TargetEvent> {
    if kc.0 == KeyCode::BTN_BOTTOM_RIGHT {
        m.button_bottom_right
    } else if kc.0 == KeyCode::BTN_BOTTOM_RIGHT_HOLD {
        m.button_bottom_right_hold
    } else if kc.0 == KeyCode::BTN_TOP_LEFT {
        m.button_top_left
    } else if kc.0 == KeyCode::BTN_TOP_LEFT_HOLD {
        m.button_top_left_hold
    } else {
        None
    }
}

/// Resolves a hub button to its target event for the focused app.
pub struct ConfigKeyMapper;

impl ConfigKeyMapper {
    /// The `ButtonMappingSet` that applies given a focused app ID. If a
    /// profile matches (the first one, in order), its mappings are merged
    /// onto the default; otherwise the default applies.
    pub fn resolve(config: &Config, focused_app_id: Option<&str>) -> (r: ButtonMappingSet)
        ensures
            r == resolved(*config, focus_view(focused_app_id)),
    {
        if let Some(app_id) = focused_app_id {
            let mut i: usize = 0;
            assert(config.profiles@.skip(0) == config.profiles@);
            while i < config.profiles.len()
                invariant
                    focused_app_id == Some(app_id),
                    i <= config.profiles@.len(),
                    matching_profile(config.profiles@, app_id@) == matching_profile(
                        config.profiles@.skip(i as int),
                        app_id@,
                    ),
                decreases config.profiles@.len() - i,
            {
                let p = &config.profiles[i];
                assert(config.profiles@.skip(i as int)[0] == config.profiles@[i as int]);
                if str_eq(p.app_id.as_str(), app_id) {
                    return p.mappings.merge(&config.default);
                }
                assert(config.profiles@.skip(i as int).drop_first() == config.profiles@.skip(
                    i + 1,
                ));
                i = i + 1;
            }
        }
        config.default.duplicate()
    }

    /// The target event mapped to a hub keyboard code.
    pub fn map_keycode<'a>(kc: KeyCode, mapping: &'a ButtonMappingSet) -> (r: Option<
        &'a TargetEvent,
    >)
        ensures
            r is Some == keycode_slot(kc, *mapping) is Some,
            r matches Some(e) ==> *e == keycode_slot(kc, *mapping)->0,
    {
        if kc.0 == KeyCode::BTN_BOTTOM_RIGHT {
            mapping.button_bottom_right.as_ref()
        } else if kc.0 == KeyCode::BTN_BOTTOM_RIGHT_HOLD {
            mapping.button_bottom_right_hold.as_ref()
        } else if kc.0 == KeyCode::BTN_TOP_LEFT {
            mapping.button_top_left.as_ref()
        } else if kc.0 == KeyCode::BTN_TOP_LEFT_HOLD {
            mapping.button_top_left_hold.as_ref()
        } else {
            None
        }
    }
}

/// Without a focused application the default mapping applies.
pub proof fn lemma_resolve_unfocused(config: Config)
    ensures
        resolved(config, None) == config.default,
{
}

/// When no profile names the focused application, the default applies.
pub proof fn lemma_resolve_unmatched(config: Config, id: Seq<char>)
    requires
        forall|i: int| 0 <= i < config.profiles@.len() ==> config.profiles@[i].app_id@ != id,
    ensures
        resolved(config, Some(id)) == config.default,
{
    lemma_no_match(config.profiles@, id);
}

proof fn lemma_no_match(ps: Seq<Profile>, id: Seq<char>)
    requires
        forall|i: int| 0 <= i < ps.len() ==> ps[i].app_id@ != id,
    ensures
        matching_profile(ps, id) is None,
    decreases ps.len(),
{
    if ps.len() > 0 {
        assert(forall|i: int| 0 <= i < ps.drop_first().len() ==> ps.drop_first()[i] == ps[i + 1]);
        lemma_no_match(ps.drop_first(), id);
    }
}

/// The first profile that names the focused application wins: profiles
/// before it do not name it, and its set slots override the default while
/// its unset slots inherit the default.
pub proof fn lemma_resolve_first_match(config: Config, id: Seq<char>, k: int)
    requires
        0 <= k < config.profiles@.len(),
        config.profiles@[k].app_id@ == id,
        forall|i: int| 0 <= i < k ==> config.profiles@[i].app_id@ != id,
    ensures
        resolved(config, Some(id)) == merged(config.profiles@[k].mappings, config.default),
{
    lemma_first_match(config.profiles@, id, k);
}

proof fn lemma_first_match(ps: Seq<Profile>, id: Seq<char>, k: int)
    requires
        0 <= k < ps.len(),
        ps[k].app_id@ == id,
        forall|i: int| 0 <= i < k ==> ps[i].app_id@ != id,
    ensures
        matching_profile(ps, id) == Some(ps[k]),
    decreases k,
{
    if k > 0 {
        assert(forall|i: int| 0 <= i < ps.drop_first().len() ==> ps.drop_first()[i] == ps[i + 1]);
        lemma_first_match(ps.drop_first(), id, k - 1);
    }
}

} // verus!
