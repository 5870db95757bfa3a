//! Properties that relate several registry commands, proved over the
//! transitions of `crate::model`.  Each executable command ensures that it
//! equals its transition, so these laws carry over to the commands.

use crate::model::{
    apply_overlays_from, cfg_at, cfg_index, has_cfg, has_preset, has_window, lemma_cfg_index_is,
    lemma_preset_index_is, lemma_spec_create_wf, lemma_spec_save_preset_wf,
    lemma_spec_toggle_all_wf, lemma_spec_toggle_wf, lemma_window_index_is, preset_at,
    preset_index, spec_apply_preset, spec_create, spec_save_preset, spec_toggle, spec_toggle_all,
    spec_update_config, state_wf, unique_cfg_ids, window_at, window_index, ActionModel,
    ConfigModel, PresetModel, StateModel,
};
use vstd::prelude::*;

verus! {

/// Creating the window for a known overlay whose window is absent and then
/// toggling it yields the negation of the stored visibility: the new
/// visibility reported by the toggle, the stored configuration and the
/// window itself all carry it.
pub proof fn lemma_create_then_toggle(s: StateModel, id: Seq<char>)
    requires
        state_wf(s),
        has_cfg(s.configs, id),
        !has_window(s.windows, id),
    ensures
        ({
            let s1 = spec_create(s, id).0;
            let t = spec_toggle(s1, id);
            &&& t.2 == Some(!cfg_at(s.configs, id).visible)
            &&& cfg_at(t.0.configs, id).visible == !cfg_at(s.configs, id).visible
            &&& window_at(t.0.windows, id).visible == !cfg_at(s.configs, id).visible
        }),
{
    let v0 = cfg_at(s.configs, id).visible;
    let s1 = spec_create(s, id).0;
    lemma_spec_create_wf(s, id);
    let wn = s.windows.len() as int;
    assert(s1.windows[wn].id == id);
    lemma_window_index_is(s1.windows, id, wn);
    assert(window_at(s1.windows, id).visible == v0);
    let t = spec_toggle(s1, id);
    lemma_spec_toggle_wf(s1, id);
    assert(t.2 == Some(!v0));
    let ci = cfg_index(s.configs, id);
    assert(0 <= ci < s.configs.len() && s.configs[ci].id == id);
    assert(s1.configs == s.configs);
    lemma_cfg_index_is(s1.configs, id, ci);
    assert(t.0.configs[ci].visible == !v0);
    lemma_cfg_index_is(t.0.configs, id, ci);
    let wi = window_index(s1.windows, id);
    assert(t.0.windows[wi].visible == !v0);
    lemma_window_index_is(t.0.windows, id, wi);
}

/// Applying a preset under an unknown name fails and has no side effects:
/// the state is unchanged and no action is handed to the toolkit.
pub proof fn lemma_apply_preset_unknown(s: StateModel, name: Seq<char>)
    requires
        !has_preset(s.presets, name),
    ensures
        spec_apply_preset(s, name).0 == s,
        spec_apply_preset(s, name).1 == Seq::<ActionModel>::empty(),
        !spec_apply_preset(s, name).2,
{
}

/// Toggling all overlays touches neither the stored configurations nor the
/// presets, keeps every window in place under its id, and creates no
/// window for an absent overlay.
pub proof fn lemma_toggle_all_effects(s: StateModel, v: bool)
    ensures
        spec_toggle_all(s, v).0.configs == s.configs,
        spec_toggle_all(s, v).0.presets == s.presets,
        spec_toggle_all(s, v).0.windows.len() == s.windows.len(),
        forall|k: int|
            0 <= k < s.windows.len() ==> #[trigger] spec_toggle_all(s, v).0.windows[k].id
                == s.windows[k].id,
        forall|id: Seq<char>|
            has_window(spec_toggle_all(s, v).0.windows, id) <==> has_window(s.windows, id),
{
    let ws2 = spec_toggle_all(s, v).0.windows;
    assert forall|id: Seq<char>| has_window(ws2, id) <==> has_window(s.windows, id) by {
        if has_window(ws2, id) {
            let k = choose|k: int| 0 <= k < ws2.len() && ws2[k].id == id;
            assert(s.windows[k].id == id);
        }
        if has_window(s.windows, id) {
            let k = choose|k: int| 0 <= k < s.windows.len() && s.windows[k].id == id;
            assert(ws2[k].id == id);
        }
    }
}

/// Updating a configuration stores it under its id: afterwards the id is
/// known and the stored configuration is exactly the given one, so an id
/// not previously present appears in the configuration list.
pub proof fn lemma_update_config_adds(s: StateModel, c: ConfigModel)
    requires
        unique_cfg_ids(s.configs),
    ensures
        has_cfg(spec_update_config(s, c).0.configs, c.id),
        cfg_at(spec_update_config(s, c).0.configs, c.id) == c,
{
    crate::model::lemma_upsert_cfg(s.configs, c);
}

/// Applying overlays whose configurations are already stored unchanged
/// leaves the configuration list exactly as it is.
proof fn lemma_apply_overlays_preserves_configs(t: StateModel, ovs: Seq<ConfigModel>, i: int)
    requires
        unique_cfg_ids(t.configs),
        0 <= i <= ovs.len(),
        forall|k: int| #![trigger ovs[k]]
            i <= k < ovs.len() ==> has_cfg(t.configs, ovs[k].id) && cfg_at(t.configs, ovs[k].id)
                == ovs[k],
    ensures
        apply_overlays_from(t, ovs, i).0.configs == t.configs,
    decreases ovs.len() - i,
{
    if i < ovs.len() {
        let c = ovs[i];
        assert(has_cfg(t.configs, ovs[i].id) && cfg_at(t.configs, ovs[i].id) == ovs[i]);
        let u = spec_update_config(t, c);
        assert(u.0.configs =~= t.configs);
        let after = if c.visible {
            spec_create(u.0, c.id).0
        } else {
            u.0
        };
        assert(after.configs == t.configs);
        assert forall|k: int| #![trigger ovs[k]]
            i + 1 <= k < ovs.len() implies has_cfg(after.configs, ovs[k].id) && cfg_at(
            after.configs,
            ovs[k].id,
        ) == ovs[k] by {
            assert(has_cfg(t.configs, ovs[k].id) && cfg_at(t.configs, ovs[k].id) == ovs[k]);
        }
        lemma_apply_overlays_preserves_configs(after, ovs, i + 1);
    }
}

/// Saving a preset and then applying it under the same name succeeds and
/// restores exactly the configuration list held at save time.
pub proof fn lemma_save_then_apply_restores(s: StateModel, name: Seq<char>)
    requires
        state_wf(s),
    ensures
        spec_apply_preset(spec_save_preset(s, name), name).2,
        spec_apply_preset(spec_save_preset(s, name), name).0.configs == s.configs,
{
    let s1 = spec_save_preset(s, name);
    lemma_spec_save_preset_wf(s, name);
    let p = PresetModel { name: name, overlays: s.configs };
    if has_preset(s.presets, name) {
        let i = preset_index(s.presets, name);
        assert(0 <= i < s.presets.len() && s.presets[i].name == name);
        assert(s1.presets[i] == p);
        lemma_preset_index_is(s1.presets, name, i);
    } else {
        assert(s1.presets[s.presets.len() as int] == p);
        lemma_preset_index_is(s1.presets, name, s.presets.len() as int);
    }
    assert(preset_at(s1.presets, name) == p);
    let hidden = spec_toggle_all(s1, false).0;
    lemma_spec_toggle_all_wf(s1, false);
    assert(hidden.configs == s.configs);
    assert forall|k: int| #![trigger s.configs[k]]
        0 <= k < s.configs.len() implies has_cfg(hidden.configs, s.configs[k].id) && cfg_at(
        hidden.configs,
        s.configs[k].id,
    ) == s.configs[k] by {
        lemma_cfg_index_is(s.configs, s.configs[k].id, k);
    }
    lemma_apply_overlays_preserves_configs(hidden, s.configs, 0);
}

} // verus!
