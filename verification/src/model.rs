//! Mathematical model of the overlay registry.
//!
//! The registry state is a sequence of overlay configurations (unique ids),
//! a sequence of named presets (unique names), and a sequence of live
//! windows (unique ids, each backed by a configuration).  Every command of
//! the registry is given here as a pure transition on `StateModel`, so that
//! the executable commands can be specified as equal to these transitions
//! and properties relating several commands can be proved once, over the
//! model alone.

use vstd::prelude::*;

verus! {

/// Value of one overlay configuration.
#[verifier::ext_equal]
pub struct ConfigModel {
    pub id: Seq<char>,
    pub title: Seq<char>,
    pub x: int,
    pub y: int,
    pub width: int,
    pub height: int,
    pub visible: bool,
    pub opacity_pct: int,
    pub always_on_top: bool,
    pub click_through: bool,
}

/// Value of one named preset: an ordered list of configuration snapshots.
#[verifier::ext_equal]
pub struct PresetModel {
    pub name: Seq<char>,
    pub overlays: Seq<ConfigModel>,
}

/// Value of one live overlay window: which overlay it belongs to and
/// whether it is currently shown.
#[verifier::ext_equal]
pub struct WindowModel {
    pub id: Seq<char>,
    pub visible: bool,
}

/// The whole registry state.
#[verifier::ext_equal]
pub struct StateModel {
    pub configs: Seq<ConfigModel>,
    pub presets: Seq<PresetModel>,
    pub windows: Seq<WindowModel>,
}

/// One window-management primitive that the host toolkit must perform.
#[verifier::ext_equal]
pub enum ActionModel {
    Create { config: ConfigModel },
    Close { id: Seq<char> },
    Show { id: Seq<char> },
    Hide { id: Seq<char> },
    SetPosition { id: Seq<char>, x: int, y: int },
    SetSize { id: Seq<char>, width: int, height: int },
    SetAlwaysOnTop { id: Seq<char>, on_top: bool },
    SetClickThrough { id: Seq<char>, enabled: bool },
}

// ---------------------------------------------------------------------------
// Lookups.

pub open spec fn has_cfg(cs: Seq<ConfigModel>, id: Seq<char>) -> bool {
    exists|i: int| 0 <= i < cs.len() && cs[i].id == id
}

pub open spec fn cfg_index(cs: Seq<ConfigModel>, id: Seq<char>) -> int {
    choose|i: int| 0 <= i < cs.len() && cs[i].id == id
}

pub open spec fn cfg_at(cs: Seq<ConfigModel>, id: Seq<char>) -> ConfigModel {
    cs[cfg_index(cs, id)]
}

pub open spec fn has_window(ws: Seq<WindowModel>, id: Seq<char>) -> bool {
    exists|i: int| 0 <= i < ws.len() && ws[i].id == id
}

pub open spec fn window_index(ws: Seq<WindowModel>, id: Seq<char>) -> int {
    choose|i: int| 0 <= i < ws.len() && ws[i].id == id
}

pub open spec fn window_at(ws: Seq<WindowModel>, id: Seq<char>) -> WindowModel {
    ws[window_index(ws, id)]
}

pub open spec fn has_preset(ps: Seq<PresetModel>, name: Seq<char>) -> bool {
    exists|i: int| 0 <= i < ps.len() && ps[i].name == name
}

pub open spec fn preset_index(ps: Seq<PresetModel>, name: Seq<char>) -> int {
    choose|i: int| 0 <= i < ps.len() && ps[i].name == name
}

pub open spec fn preset_at(ps: Seq<PresetModel>, name: Seq<char>) -> PresetModel {
    ps[preset_index(ps, name)]
}

// ---------------------------------------------------------------------------
// Well-formedness.

pub open spec fn unique_cfg_ids(cs: Seq<ConfigModel>) -> bool {
    forall|i: int, j: int| 0 <= i < j < cs.len() ==> cs[i].id != cs[j].id
}

pub open spec fn unique_window_ids(ws: Seq<WindowModel>) -> bool {
    forall|i: int, j: int| 0 <= i < j < ws.len() ==> ws[i].id != ws[j].id
}

pub open spec fn unique_preset_names(ps: Seq<PresetModel>) -> bool {
    forall|i: int, j: int| 0 <= i < j < ps.len() ==> ps[i].name != ps[j].name
}

/// The registry invariant: ids and preset names are unique keys, every live
/// window belongs to a known configuration, and every stored preset is
/// itself a well-formed configuration snapshot.
pub open spec fn state_wf(s: StateModel) -> bool {
    &&& unique_cfg_ids(s.configs)
    &&& unique_window_ids(s.windows)
    &&& unique_preset_names(s.presets)
    &&& forall|i: int| 0 <= i < s.windows.len() ==> has_cfg(s.configs, s.windows[i].id)
    &&& forall|i: int| 0 <= i < s.presets.len() ==> unique_cfg_ids(s.presets[i].overlays)
}

// ---------------------------------------------------------------------------
// Building blocks of the transitions.

/// Overwrite the configuration stored under `c.id`, or append it when the
/// id is new.
pub open spec fn upsert_cfg(cs: Seq<ConfigModel>, c: ConfigModel) -> Seq<ConfigModel> {
    if has_cfg(cs, c.id) {
        cs.update(cfg_index(cs, c.id), c)
    } else {
        cs.push(c)
    }
}

/// Overwrite the preset stored under `p.name`, or append it when the name
/// is new.
pub open spec fn upsert_preset(ps: Seq<PresetModel>, p: PresetModel) -> Seq<PresetModel> {
    if has_preset(ps, p.name) {
        ps.update(preset_index(ps, p.name), p)
    } else {
        ps.push(p)
    }
}

/// Set the visibility of the window with the given id (which must exist).
pub open spec fn set_window_visible(ws: Seq<WindowModel>, id: Seq<char>, v: bool) -> Seq<
    WindowModel,
> {
    ws.update(window_index(ws, id), WindowModel { id: ws[window_index(ws, id)].id, visible: v })
}

// ---------------------------------------------------------------------------
// Command transitions.  Each returns the new state, the actions handed to
// the windowing toolkit, and (where the command can fail) a success flag.

/// Create the overlay window for a known id.  Fails when the id is unknown;
/// does nothing when the window already exists; otherwise the window comes
/// into being with the stored visibility, and click-through is pushed to it
/// right after creation when the configuration asks for it.
pub open spec fn spec_create(s: StateModel, id: Seq<char>) -> (StateModel, Seq<ActionModel>, bool) {
    if !has_cfg(s.configs, id) {
        (s, Seq::<ActionModel>::empty(), false)
    } else if has_window(s.windows, id) {
        (s, Seq::<ActionModel>::empty(), true)
    } else {
        let c = cfg_at(s.configs, id);
        let acts = if c.click_through {
            seq![
                ActionModel::Create { config: c },
                ActionModel::SetClickThrough { id: id, enabled: true },
            ]
        } else {
            seq![ActionModel::Create { config: c }]
        };
        (
            StateModel {
                windows: s.windows.push(WindowModel { id: id, visible: c.visible }),
                ..s
            },
            acts,
            true,
        )
    }
}

/// Destroy the overlay window if it exists; silently succeed otherwise.
pub open spec fn spec_close(s: StateModel, id: Seq<char>) -> (StateModel, Seq<ActionModel>) {
    if has_window(s.windows, id) {
        (
            StateModel { windows: s.windows.remove(window_index(s.windows, id)), ..s },
            seq![ActionModel::Close { id: id }],
        )
    } else {
        (s, Seq::<ActionModel>::empty())
    }
}

/// Flip the visibility of an existing window, mirroring the new value into
/// the stored configuration; for an absent window, fall back to `spec_create`
/// and report the overlay as now visible.  The returned option is the new
/// visibility, `None` on an unknown id.
pub open spec fn spec_toggle(s: StateModel, id: Seq<char>) -> (
    StateModel,
    Seq<ActionModel>,
    Option<bool>,
) {
    if has_window(s.windows, id) {
        let newv = !window_at(s.windows, id).visible;
        let ws2 = set_window_visible(s.windows, id, newv);
        let cs2 = if has_cfg(s.configs, id) {
            s.configs.update(
                cfg_index(s.configs, id),
                ConfigModel { visible: newv, ..cfg_at(s.configs, id) },
            )
        } else {
            s.configs
        };
        let act = if newv {
            ActionModel::Show { id: id }
        } else {
            ActionModel::Hide { id: id }
        };
        (StateModel { configs: cs2, windows: ws2, ..s }, seq![act], Some(newv))
    } else {
        let created = spec_create(s, id);
        if created.2 {
            (created.0, created.1, Some(true))
        } else {
            (s, Seq::<ActionModel>::empty(), None)
        }
    }
}

/// Apply one visibility value to every currently-existing window.  Stored
/// configurations are untouched and no window is created.
pub open spec fn spec_toggle_all(s: StateModel, v: bool) -> (StateModel, Seq<ActionModel>) {
    (
        StateModel {
            windows: s.windows.map(|i: int, w: WindowModel| WindowModel { id: w.id, visible: v }),
            ..s
        },
        s.windows.map(
            |i: int, w: WindowModel|
                if v {
                    ActionModel::Show { id: w.id }
                } else {
                    ActionModel::Hide { id: w.id }
                },
        ),
    )
}

/// Store the configuration under its id, then, only when the window exists,
/// push geometry, always-on-top, click-through and visibility to it.
pub open spec fn spec_update_config(s: StateModel, c: ConfigModel) -> (
    StateModel,
    Seq<ActionModel>,
) {
    let cs2 = upsert_cfg(s.configs, c);
    if has_window(s.windows, c.id) {
        (
            StateModel { configs: cs2, windows: set_window_visible(s.windows, c.id, c.visible), ..s },
            seq![
                ActionModel::SetPosition { id: c.id, x: c.x, y: c.y },
                ActionModel::SetSize { id: c.id, width: c.width, height: c.height },
                ActionModel::SetAlwaysOnTop { id: c.id, on_top: c.always_on_top },
                ActionModel::SetClickThrough { id: c.id, enabled: c.click_through },
                if c.visible {
                    ActionModel::Show { id: c.id }
                } else {
                    ActionModel::Hide { id: c.id }
                },
            ],
        )
    } else {
        (StateModel { configs: cs2, ..s }, Seq::<ActionModel>::empty())
    }
}

/// Snapshot the whole configuration list as a preset under the given name,
/// replacing a preset of that name in place or appending a new one.
pub open spec fn spec_save_preset(s: StateModel, name: Seq<char>) -> StateModel {
    StateModel {
        presets: upsert_preset(s.presets, PresetModel { name: name, overlays: s.configs }),
        ..s
    }
}

/// Store the click-through flag for a known id (silently ignore an unknown
/// one); when the window exists, push the flag to it.
pub open spec fn spec_set_click_through(s: StateModel, id: Seq<char>, enabled: bool) -> (
    StateModel,
    Seq<ActionModel>,
) {
    let cs2 = if has_cfg(s.configs, id) {
        s.configs.update(
            cfg_index(s.configs, id),
            ConfigModel { click_through: enabled, ..cfg_at(s.configs, id) },
        )
    } else {
        s.configs
    };
    let acts = if has_window(s.windows, id) {
        seq![ActionModel::SetClickThrough { id: id, enabled: enabled }]
    } else {
        Seq::<ActionModel>::empty()
    };
    (StateModel { configs: cs2, ..s }, acts)
}

/// Apply the overlays of a preset from position `i` on: store each
/// configuration, then create its window when it is marked visible.
pub open spec fn apply_overlays_from(s: StateModel, ovs: Seq<ConfigModel>, i: int) -> (
    StateModel,
    Seq<ActionModel>,
)
    decreases ovs.len() - i,
{
    if i < 0 || i >= ovs.len() {
        (s, Seq::<ActionModel>::empty())
    } else {
        let updated = spec_update_config(s, ovs[i]);
        let created = if ovs[i].visible {
            let c = spec_create(updated.0, ovs[i].id);
            (c.0, updated.1 + c.1)
        } else {
            updated
        };
        let rest = apply_overlays_from(created.0, ovs, i + 1);
        (rest.0, created.1 + rest.1)
    }
}

/// Apply a named preset: fail without side effects when the name is
/// unknown; otherwise hide every existing window, then apply each overlay
/// of the preset in order.
pub open spec fn spec_apply_preset(s: StateModel, name: Seq<char>) -> (
    StateModel,
    Seq<ActionModel>,
    bool,
) {
    if !has_preset(s.presets, name) {
        (s, Seq::<ActionModel>::empty(), false)
    } else {
        let hidden = spec_toggle_all(s, false);
        let applied = apply_overlays_from(hidden.0, preset_at(s.presets, name).overlays, 0);
        (applied.0, hidden.1 + applied.1, true)
    }
}

// ---------------------------------------------------------------------------
// Lemmas about the lookups.

/// Under unique ids, any index whose configuration carries `id` is the
/// looked-up index.
pub proof fn lemma_cfg_index_is(cs: Seq<ConfigModel>, id: Seq<char>, i: int)
    requires
        unique_cfg_ids(cs),
        0 <= i < cs.len(),
        cs[i].id == id,
    ensures
        has_cfg(cs, id),
        cfg_index(cs, id) == i,
        cfg_at(cs, id) == cs[i],
{
    assert(has_cfg(cs, id));
    let k = cfg_index(cs, id);
    assert(0 <= k < cs.len() && cs[k].id == id);
    if k < i {
        assert(cs[k].id != cs[i].id);
    }
    if i < k {
        assert(cs[i].id != cs[k].id);
    }
}

/// Under unique ids, any index whose window carries `id` is the looked-up
/// index.
pub proof fn lemma_window_index_is(ws: Seq<WindowModel>, id: Seq<char>, i: int)
    requires
        unique_window_ids(ws),
        0 <= i < ws.len(),
        ws[i].id == id,
    ensures
        has_window(ws, id),
        window_index(ws, id) == i,
        window_at(ws, id) == ws[i],
{
    assert(has_window(ws, id));
    let k = window_index(ws, id);
    assert(0 <= k < ws.len() && ws[k].id == id);
    if k < i {
        assert(ws[k].id != ws[i].id);
    }
    if i < k {
        assert(ws[i].id != ws[k].id);
    }
}

/// Under unique names, any index whose preset carries `name` is the
/// looked-up index.
pub proof fn lemma_preset_index_is(ps: Seq<PresetModel>, name: Seq<char>, i: int)
    requires
        unique_preset_names(ps),
        0 <= i < ps.len(),
        ps[i].name == name,
    ensures
        has_preset(ps, name),
        preset_index(ps, name) == i,
        preset_at(ps, name) == ps[i],
{
    assert(has_preset(ps, name));
    let k = preset_index(ps, name);
    assert(0 <= k < ps.len() && ps[k].name == name);
    if k < i {
        assert(ps[k].name != ps[i].name);
    }
    if i < k {
        assert(ps[i].name != ps[k].name);
    }
}

/// What an upsert does to the stored configurations: uniqueness of ids is
/// kept, the given configuration is afterwards stored under its id, and
/// every other id keeps its configuration.
pub proof fn lemma_upsert_cfg(cs: Seq<ConfigModel>, c: ConfigModel)
    requires
        unique_cfg_ids(cs),
    ensures
        unique_cfg_ids(upsert_cfg(cs, c)),
        has_cfg(upsert_cfg(cs, c), c.id),
        cfg_at(upsert_cfg(cs, c), c.id) == c,
        forall|id: Seq<char>|
            id != c.id ==> (has_cfg(upsert_cfg(cs, c), id) <==> has_cfg(cs, id)),
        forall|id: Seq<char>|
            id != c.id && has_cfg(cs, id) ==> cfg_at(upsert_cfg(cs, c), id) == cfg_at(cs, id),
{
    let cs2 = upsert_cfg(cs, c);
    if has_cfg(cs, c.id) {
        let i = cfg_index(cs, c.id);
        assert(0 <= i < cs.len() && cs[i].id == c.id);
        assert(unique_cfg_ids(cs2)) by {
            assert(forall|p: int, q: int|
                0 <= p < q < cs2.len() ==> cs2[p].id != cs2[q].id) by {
                assert(forall|p: int| 0 <= p < cs2.len() && p != i ==> cs2[p] == cs[p]);
            }
        }
        lemma_cfg_index_is(cs2, c.id, i);
        assert forall|id: Seq<char>| id != c.id implies (has_cfg(cs2, id) <==> has_cfg(
            cs,
            id,
        )) by {
            if has_cfg(cs2, id) {
                let k = cfg_index(cs2, id);
                assert(cs2[k].id == id);
                assert(k != i);
                assert(cs[k].id == id);
            }
            if has_cfg(cs, id) {
                let k = cfg_index(cs, id);
                assert(cs[k].id == id);
                assert(k != i);
                assert(cs2[k].id == id);
            }
        }
        assert forall|id: Seq<char>| id != c.id && has_cfg(cs, id) implies cfg_at(cs2, id)
            == cfg_at(cs, id) by {
            let k = cfg_index(cs, id);
            assert(cs[k].id == id);
            assert(k != i);
            assert(cs2[k].id == id);
            lemma_cfg_index_is(cs2, id, k);
        }
    } else {
        assert(forall|k: int| 0 <= k < cs.len() ==> cs[k].id != c.id);
        assert(cs2 == cs.push(c));
        assert(cs2[cs.len() as int] == c);
        assert(unique_cfg_ids(cs2)) by {
            assert(forall|p: int| 0 <= p < cs.len() ==> cs2[p] == cs[p]);
        }
        lemma_cfg_index_is(cs2, c.id, cs.len() as int);
        assert forall|id: Seq<char>| id != c.id implies (has_cfg(cs2, id) <==> has_cfg(
            cs,
            id,
        )) by {
            if has_cfg(cs2, id) {
                let k = cfg_index(cs2, id);
                assert(cs2[k].id == id);
                assert(k != cs.len());
                assert(cs[k].id == id);
            }
            if has_cfg(cs, id) {
                let k = cfg_index(cs, id);
                assert(cs2[k].id == id);
            }
        }
        assert forall|id: Seq<char>| id != c.id && has_cfg(cs, id) implies cfg_at(cs2, id)
            == cfg_at(cs, id) by {
            let k = cfg_index(cs, id);
            assert(cs[k].id == id);
            assert(cs2[k].id == id);
            lemma_cfg_index_is(cs2, id, k);
        }
    }
}

// ---------------------------------------------------------------------------
// The transitions preserve the invariant.

pub proof fn lemma_spec_create_wf(s: StateModel, id: Seq<char>)
    requires
        state_wf(s),
    ensures
        state_wf(spec_create(s, id).0),
{
    let s2 = spec_create(s, id).0;
    if has_cfg(s.configs, id) && !has_window(s.windows, id) {
        assert(forall|k: int| 0 <= k < s.windows.len() ==> s.windows[k].id != id);
        assert(forall|k: int| 0 <= k < s.windows.len() ==> s2.windows[k] == s.windows[k]);
        assert(s2.windows[s.windows.len() as int].id == id);
        assert(unique_window_ids(s2.windows));
    }
}

pub proof fn lemma_spec_close_wf(s: StateModel, id: Seq<char>)
    requires
        state_wf(s),
    ensures
        state_wf(spec_close(s, id).0),
{
    let s2 = spec_close(s, id).0;
    if has_window(s.windows, id) {
        let i = window_index(s.windows, id);
        assert(0 <= i < s.windows.len());
        assert(forall|k: int|
            0 <= k < s2.windows.len() ==> s2.windows[k] == (if k < i {
                s.windows[k]
            } else {
                s.windows[k + 1]
            }));
        assert(unique_window_ids(s2.windows));
        assert(forall|k: int| 0 <= k < s2.windows.len() ==> has_cfg(s2.configs, s2.windows[k].id));
    }
}

/// Setting the visibility of an existing window keeps every window id in
/// place.
pub proof fn lemma_set_window_visible_ids(ws: Seq<WindowModel>, id: Seq<char>, v: bool)
    requires
        unique_window_ids(ws),
        has_window(ws, id),
    ensures
        set_window_visible(ws, id, v).len() == ws.len(),
        forall|k: int|
            0 <= k < ws.len() ==> #[trigger] set_window_visible(ws, id, v)[k].id == ws[k].id,
{
    let i = window_index(ws, id);
    assert(0 <= i < ws.len() && ws[i].id == id);
}

pub proof fn lemma_spec_toggle_wf(s: StateModel, id: Seq<char>)
    requires
        state_wf(s),
    ensures
        state_wf(spec_toggle(s, id).0),
{
    if has_window(s.windows, id) {
        let s2 = spec_toggle(s, id).0;
        lemma_set_window_visible_ids(s.windows, id, !window_at(s.windows, id).visible);
        assert(unique_window_ids(s2.windows));
        if has_cfg(s.configs, id) {
            let ci = cfg_index(s.configs, id);
            assert(0 <= ci < s.configs.len() && s.configs[ci].id == id);
            assert(forall|k: int|
                0 <= k < s.configs.len() ==> #[trigger] s2.configs[k].id == s.configs[k].id);
            assert(unique_cfg_ids(s2.configs));
            assert forall|k: int| 0 <= k < s2.windows.len() implies has_cfg(
                s2.configs,
                s2.windows[k].id,
            ) by {
                assert(has_cfg(s.configs, s.windows[k].id));
                let w = cfg_index(s.configs, s.windows[k].id);
                assert(s2.configs[w].id == s.windows[k].id);
            }
        } else {
            assert forall|k: int| 0 <= k < s2.windows.len() implies has_cfg(
                s2.configs,
                s2.windows[k].id,
            ) by {
                assert(s2.windows[k].id == s.windows[k].id);
            }
        }
    } else {
        lemma_spec_create_wf(s, id);
    }
}

pub proof fn lemma_spec_toggle_all_wf(s: StateModel, v: bool)
    requires
        state_wf(s),
    ensures
        state_wf(spec_toggle_all(s, v).0),
{
    let s2 = spec_toggle_all(s, v).0;
    assert(forall|k: int| 0 <= k < s.windows.len() ==> #[trigger] s2.windows[k].id
        == s.windows[k].id);
    assert(unique_window_ids(s2.windows));
}

pub proof fn lemma_spec_update_config_wf(s: StateModel, c: ConfigModel)
    requires
        state_wf(s),
    ensures
        state_wf(spec_update_config(s, c).0),
{
    let s2 = spec_update_config(s, c).0;
    lemma_upsert_cfg(s.configs, c);
    if has_window(s.windows, c.id) {
        lemma_set_window_visible_ids(s.windows, c.id, c.visible);
        assert(unique_window_ids(s2.windows));
    }
    assert forall|k: int| 0 <= k < s2.windows.len() implies has_cfg(
        s2.configs,
        s2.windows[k].id,
    ) by {
        assert(s2.windows[k].id == s.windows[k].id);
        assert(has_cfg(s.configs, s.windows[k].id));
        if s.windows[k].id != c.id {
            assert(has_cfg(s2.configs, s.windows[k].id));
        }
    }
}

pub proof fn lemma_spec_save_preset_wf(s: StateModel, name: Seq<char>)
    requires
        state_wf(s),
    ensures
        state_wf(spec_save_preset(s, name)),
{
    let s2 = spec_save_preset(s, name);
    let p = PresetModel { name: name, overlays: s.configs };
    if has_preset(s.presets, name) {
        let i = preset_index(s.presets, name);
        assert(0 <= i < s.presets.len() && s.presets[i].name == name);
        assert(forall|k: int| 0 <= k < s.presets.len() && k != i ==> s2.presets[k]
            == s.presets[k]);
        assert(unique_preset_names(s2.presets));
    } else {
        assert(forall|k: int| 0 <= k < s.presets.len() ==> s.presets[k].name != name);
        assert(forall|k: int| 0 <= k < s.presets.len() ==> s2.presets[k] == s.presets[k]);
        assert(s2.presets[s.presets.len() as int] == p);
        assert(unique_preset_names(s2.presets));
    }
}

pub proof fn lemma_spec_set_click_through_wf(s: StateModel, id: Seq<char>, enabled: bool)
    requires
        state_wf(s),
    ensures
        state_wf(spec_set_click_through(s, id, enabled).0),
{
    let s2 = spec_set_click_through(s, id, enabled).0;
    if has_cfg(s.configs, id) {
        let ci = cfg_index(s.configs, id);
        assert(0 <= ci < s.configs.len() && s.configs[ci].id == id);
        assert(forall|k: int|
            0 <= k < s.configs.len() ==> #[trigger] s2.configs[k].id == s.configs[k].id);
        assert(unique_cfg_ids(s2.configs));
        assert forall|k: int| 0 <= k < s2.windows.len() implies has_cfg(
            s2.configs,
            s2.windows[k].id,
        ) by {
            assert(has_cfg(s.configs, s.windows[k].id));
            let w = cfg_index(s.configs, s.windows[k].id);
            assert(s2.configs[w].id == s.windows[k].id);
        }
    }
}

pub proof fn lemma_apply_overlays_from_wf(s: StateModel, ovs: Seq<ConfigModel>, i: int)
    requires
        state_wf(s),
    ensures
        state_wf(apply_overlays_from(s, ovs, i).0),
    decreases ovs.len() - i,
{
    if 0 <= i < ovs.len() {
        let updated = spec_update_config(s, ovs[i]);
        lemma_spec_update_config_wf(s, ovs[i]);
        if ovs[i].visible {
            lemma_spec_create_wf(updated.0, ovs[i].id);
            lemma_apply_overlays_from_wf(spec_create(updated.0, ovs[i].id).0, ovs, i + 1);
        } else {
            lemma_apply_overlays_from_wf(updated.0, ovs, i + 1);
        }
    }
}

pub proof fn lemma_spec_apply_preset_wf(s: StateModel, name: Seq<char>)
    requires
        state_wf(s),
    ensures
        state_wf(spec_apply_preset(s, name).0),
{
    if has_preset(s.presets, name) {
        lemma_spec_toggle_all_wf(s, false);
        lemma_apply_overlays_from_wf(
            spec_toggle_all(s, false).0,
            preset_at(s.presets, name).overlays,
            0,
        );
    }
}

} // verus!
