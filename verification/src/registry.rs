//! The overlay registry: the executable state and its command surface.
//!
//! Each command mutates the registry and returns the window actions that
//! the host toolkit must perform; its contract equates the new state with
//! the corresponding transition of `crate::model`.

use crate::config::{
    actions_view, builtin_state, clone_configs, configs_view, lemma_builtin_state_wf,
    preset_entry, OverlayConfig, OverlayPreset, WindowAction, WindowState,
};
use crate::model::{
    apply_overlays_from, has_cfg, has_preset, has_window, lemma_cfg_index_is,
    lemma_preset_index_is, lemma_spec_apply_preset_wf, lemma_spec_close_wf, lemma_spec_create_wf,
    lemma_spec_save_preset_wf, lemma_spec_set_click_through_wf, lemma_spec_toggle_all_wf,
    lemma_spec_toggle_wf, lemma_spec_update_config_wf, lemma_upsert_cfg, lemma_window_index_is,
    preset_at, spec_apply_preset, spec_close, spec_create, spec_save_preset,
    spec_set_click_through, spec_toggle, spec_toggle_all, spec_update_config, state_wf,
    ActionModel, PresetModel, StateModel, WindowModel,
};
use vstd::prelude::*;

verus! {

/// Why a command was refused.
#[derive(Debug)]
pub enum OverlayError {
    /// No configuration is stored under this overlay id.
    OverlayNotFound { id: String },
    /// No preset is stored under this name.
    PresetNotFound { name: String },
}

pub open spec fn presets_view(ps: Seq<OverlayPreset>) -> Seq<PresetModel> {
    ps.map(|i: int, p: OverlayPreset| p@)
}

pub open spec fn windows_view(ws: Seq<WindowState>) -> Seq<WindowModel> {
    ws.map(|i: int, w: WindowState| w@)
}

/// The registry: stored configurations, stored presets, and the live
/// overlay windows as the registry knows them.
pub struct OverlayState {
    pub configs: Vec<OverlayConfig>,
    pub presets: Vec<OverlayPreset>,
    pub windows: Vec<WindowState>,
}

impl View for OverlayState {
    type V = StateModel;

    open spec fn view(&self) -> StateModel {
        StateModel {
            configs: configs_view(self.configs@),
            presets: presets_view(self.presets@),
            windows: windows_view(self.windows@),
        }
    }
}

/// Index of the first configuration stored under `id`, if any.
fn find_config(cs: &Vec<OverlayConfig>, id: &String) -> (r: Option<usize>)
    ensures
        match r {
            Some(i) => {
                &&& i < cs@.len()
                &&& cs@[i as int]@.id == id@
                &&& forall|j: int| 0 <= j < i ==> cs@[j]@.id != id@
            },
            None => forall|j: int| 0 <= j < cs@.len() ==> cs@[j]@.id != id@,
        },
{
    let n = cs.len();
    for i in 0..n
        invariant
            n == cs@.len(),
            forall|j: int| 0 <= j < i ==> cs@[j]@.id != id@,
    {
        if cs[i].id == *id {
            return Some(i);
        }
    }
    None
}

/// Index of the window for `id`, if one exists.
fn find_window(ws: &Vec<WindowState>, id: &String) -> (r: Option<usize>)
    ensures
        match r {
            Some(i) => {
                &&& i < ws@.len()
                &&& ws@[i as int]@.id == id@
                &&& forall|j: int| 0 <= j < i ==> ws@[j]@.id != id@
            },
            None => forall|j: int| 0 <= j < ws@.len() ==> ws@[j]@.id != id@,
        },
{
    let n = ws.len();
    for i in 0..n
        invariant
            n == ws@.len(),
            forall|j: int| 0 <= j < i ==> ws@[j]@.id != id@,
    {
        if ws[i].id == *id {
            return Some(i);
        }
    }
    None
}

/// Index of the first preset stored under `name`, if any.
fn find_preset(ps: &Vec<OverlayPreset>, name: &String) -> (r: Option<usize>)
    ensures
        match r {
            Some(i) => {
                &&& i < ps@.len()
                &&& ps@[i as int]@.name == name@
                &&& forall|j: int| 0 <= j < i ==> ps@[j]@.name != name@
            },
            None => forall|j: int| 0 <= j < ps@.len() ==> ps@[j]@.name != name@,
        },
{
    let n = ps.len();
    for i in 0..n
        invariant
            n == ps@.len(),
            forall|j: int| 0 <= j < i ==> ps@[j]@.name != name@,
    {
        if ps[i].name == *name {
            return Some(i);
        }
    }
    None
}

impl Default for OverlayState {
    /// The registry at process start: the built-in configurations and
    /// presets, and no live window.
    fn default() -> (r: Self)
        ensures
            r@ == builtin_state(),
            state_wf(r@),
    {
        let mut configs: Vec<OverlayConfig> = Vec::new();
        configs.push(
            OverlayConfig {
                id: "telemetry".to_owned(),
                title: "Telemetrie".to_owned(),
                x: 50,
                y: 50,
                width: 280,
                height: 180,
                visible: false,
                opacity_pct: 90,
                always_on_top: true,
                click_through: true,
            },
        );
        configs.push(
            OverlayConfig {
                id: "strategy".to_owned(),
                title: "Strategie".to_owned(),
                x: 50,
                y: 250,
                width: 320,
                height: 200,
                visible: false,
                opacity_pct: 90,
                always_on_top: true,
                click_through: true,
            },
        );
        configs.push(
            OverlayConfig {
                id: "standings".to_owned(),
                title: "Classement".to_owned(),
                x: 1600,
                y: 50,
                width: 280,
                height: 400,
                visible: false,
                opacity_pct: 90,
                always_on_top: true,
                click_through: true,
            },
        );

        let mut course: Vec<OverlayConfig> = Vec::new();
        course.push(preset_entry("telemetry", 50, 50));
        course.push(preset_entry("strategy", 50, 250));
        course.push(preset_entry("standings", 1600, 50));
        let mut qualifications: Vec<OverlayConfig> = Vec::new();
        qualifications.push(preset_entry("telemetry", 50, 50));
        qualifications.push(preset_entry("standings", 1600, 50));
        let mut minimal: Vec<OverlayConfig> = Vec::new();
        minimal.push(preset_entry("telemetry", 50, 50));

        let mut presets: Vec<OverlayPreset> = Vec::new();
        presets.push(OverlayPreset { name: "Course".to_owned(), overlays: course });
        presets.push(OverlayPreset { name: "Qualifications".to_owned(), overlays: qualifications });
        presets.push(OverlayPreset { name: "Minimal".to_owned(), overlays: minimal });

        let r = OverlayState { configs, presets, windows: Vec::new() };
        proof {
            assert(r@ =~~= builtin_state());
            lemma_builtin_state_wf();
        }
        r
    }
}

impl OverlayState {
    /// Snapshot of all stored configurations.
    pub fn get_overlay_configs(&self) -> (r: Vec<OverlayConfig>)
        ensures
            configs_view(r@) == self@.configs,
    {
        let r = clone_configs(&self.configs);
        proof {
            assert(configs_view(r@) =~= self@.configs);
        }
        r
    }

    /// Snapshot of all stored presets.
    pub fn get_overlay_presets(&self) -> (r: Vec<OverlayPreset>)
        ensures
            presets_view(r@) == self@.presets,
    {
        let mut r: Vec<OverlayPreset> = Vec::new();
        let n = self.presets.len();
        for i in 0..n
            invariant
                n == self.presets@.len(),
                r@.len() == i,
                forall|j: int| 0 <= j < i ==> r@[j]@ == self.presets@[j]@,
        {
            r.push(self.presets[i].clone());
        }
        proof {
            assert(presets_view(r@) =~= self@.presets);
        }
        r
    }

    /// Snapshot the whole configuration list as a preset under the given
    /// name, replacing a preset of that name in place or appending a new
    /// one.
    pub fn save_overlay_preset(&mut self, preset_name: String)
        requires
            state_wf(old(self)@),
        ensures
            state_wf(final(self)@),
            final(self)@ == spec_save_preset(old(self)@, preset_name@),
    {
        let overlays = clone_configs(&self.configs);
        proof {
            lemma_spec_save_preset_wf(old(self)@, preset_name@);
        }
        match find_preset(&self.presets, &preset_name) {
            Some(i) => {
                proof {
                    lemma_preset_index_is(old(self)@.presets, preset_name@, i as int);
                }
                self.presets[i] = OverlayPreset { name: preset_name, overlays };
                proof {
                    assert(self@ =~~= spec_save_preset(old(self)@, preset_name@));
                }
            },
            None => {
                self.presets.push(OverlayPreset { name: preset_name, overlays });
                proof {
                    assert(!has_preset(old(self)@.presets, preset_name@));
                    assert(self@ =~~= spec_save_preset(old(self)@, preset_name@));
                }
            },
        }
    }

    /// Store the click-through flag for a known id (an unknown id is
    /// silently ignored); when the window exists, return the action that
    /// pushes the flag to it.
    pub fn set_overlay_click_through(&mut self, overlay_id: String, click_through: bool) -> (r:
        Vec<WindowAction>)
        requires
            state_wf(old(self)@),
        ensures
            state_wf(final(self)@),
            final(self)@ == spec_set_click_through(old(self)@, overlay_id@, click_through).0,
            actions_view(r@) == spec_set_click_through(old(self)@, overlay_id@, click_through).1,
    {
        proof {
            lemma_spec_set_click_through_wf(old(self)@, overlay_id@, click_through);
        }
        match find_config(&self.configs, &overlay_id) {
            Some(i) => {
                proof {
                    lemma_cfg_index_is(old(self)@.configs, overlay_id@, i as int);
                }
                self.configs[i].click_through = click_through;
                proof {
                    assert(self@ =~~= spec_set_click_through(
                        old(self)@,
                        overlay_id@,
                        click_through,
                    ).0);
                }
            },
            None => {
                proof {
                    assert(!has_cfg(old(self)@.configs, overlay_id@));
                    assert(self@ =~~= spec_set_click_through(
                        old(self)@,
                        overlay_id@,
                        click_through,
                    ).0);
                }
            },
        }
        let mut acts: Vec<WindowAction> = Vec::new();
        match find_window(&self.windows, &overlay_id) {
            Some(i) => {
                proof {
                    lemma_window_index_is(old(self)@.windows, overlay_id@, i as int);
                }
                acts.push(WindowAction::SetClickThrough { id: overlay_id, enabled: click_through });
            },
            None => {
                proof {
                    assert(!has_window(old(self)@.windows, overlay_id@));
                }
            },
        }
        proof {
            assert(actions_view(acts@) =~= spec_set_click_through(
                old(self)@,
                overlay_id@,
                click_through,
            ).1);
        }
        acts
    }

    /// Destroy the overlay window if it exists; silently succeed otherwise.
    pub fn close_overlay(&mut self, overlay_id: String) -> (r: Vec<WindowAction>)
        requires
            state_wf(old(self)@),
        ensures
            state_wf(final(self)@),
            final(self)@ == spec_close(old(self)@, overlay_id@).0,
            actions_view(r@) == spec_close(old(self)@, overlay_id@).1,
    {
        proof {
            lemma_spec_close_wf(old(self)@, overlay_id@);
        }
        let mut acts: Vec<WindowAction> = Vec::new();
        match find_window(&self.windows, &overlay_id) {
            Some(i) => {
                proof {
                    lemma_window_index_is(old(self)@.windows, overlay_id@, i as int);
                }
                let _removed = self.windows.remove(i);
                acts.push(WindowAction::Close { id: overlay_id });
                proof {
                    assert(self@.windows =~= spec_close(old(self)@, overlay_id@).0.windows);
                    assert(self@ =~~= spec_close(old(self)@, overlay_id@).0);
                    assert(actions_view(acts@) =~= spec_close(old(self)@, overlay_id@).1);
                }
            },
            None => {
                proof {
                    assert(!has_window(old(self)@.windows, overlay_id@));
                    assert(self@ =~~= spec_close(old(self)@, overlay_id@).0);
                    assert(actions_view(acts@) =~= spec_close(old(self)@, overlay_id@).1);
                }
            },
        }
        acts
    }

    /// Create the overlay window for a known id.  An unknown id is
    /// refused; an already-existing window makes this a no-op.  On
    /// success, the returned actions build the window from the stored
    /// configuration and, when that configuration asks for click-through,
    /// push the flag right after creation.
    pub fn create_overlay(&mut self, overlay_id: String) -> (r: Result<
        Vec<WindowAction>,
        OverlayError,
    >)
        requires
            state_wf(old(self)@),
        ensures
            state_wf(final(self)@),
            final(self)@ == spec_create(old(self)@, overlay_id@).0,
            r is Ok <==> has_cfg(old(self)@.configs, overlay_id@),
            r matches Ok(acts) ==> actions_view(acts@) == spec_create(
                old(self)@,
                overlay_id@,
            ).1,
            r matches Err(e) ==> (e matches OverlayError::OverlayNotFound { id } && id@
                == overlay_id@),
    {
        proof {
            lemma_spec_create_wf(old(self)@, overlay_id@);
        }
        let cfg_i = match find_config(&self.configs, &overlay_id) {
            Some(i) => i,
            None => {
                proof {
                    assert(!has_cfg(old(self)@.configs, overlay_id@));
                }
                return Err(OverlayError::OverlayNotFound { id: overlay_id });
            },
        };
        proof {
            lemma_cfg_index_is(old(self)@.configs, overlay_id@, cfg_i as int);
        }
        match find_window(&self.windows, &overlay_id) {
            Some(i) => {
                proof {
                    lemma_window_index_is(old(self)@.windows, overlay_id@, i as int);
                    assert(actions_view(Seq::<WindowAction>::empty()) =~= Seq::<
                        ActionModel,
                    >::empty());
                }
                return Ok(Vec::new());
            },
            None => {
                proof {
                    assert(!has_window(old(self)@.windows, overlay_id@));
                }
            },
        }
        let config = self.configs[cfg_i].clone();
        let visible = config.visible;
        let click_through = config.click_through;
        self.windows.push(WindowState { id: overlay_id.clone(), visible });
        let mut acts: Vec<WindowAction> = Vec::new();
        acts.push(WindowAction::Create { config });
        if click_through {
            acts.push(WindowAction::SetClickThrough { id: overlay_id, enabled: true });
        }
        proof {
            assert(self@ =~~= spec_create(old(self)@, overlay_id@).0);
            assert(actions_view(acts@) =~= spec_create(old(self)@, overlay_id@).1);
        }
        Ok(acts)
    }

    /// Flip the visibility of an existing window, mirroring the new value
    /// into the stored configuration, and report the new visibility.  For
    /// an absent window, fall back to creating it and report the overlay
    /// as now visible; only an unknown id is refused.
    pub fn toggle_overlay(&mut self, overlay_id: String) -> (r: Result<
        (bool, Vec<WindowAction>),
        OverlayError,
    >)
        requires
            state_wf(old(self)@),
        ensures
            state_wf(final(self)@),
            final(self)@ == spec_toggle(old(self)@, overlay_id@).0,
            r is Ok <==> (has_window(old(self)@.windows, overlay_id@) || has_cfg(
                old(self)@.configs,
                overlay_id@,
            )),
            r matches Ok(p) ==> Some(p.0) == spec_toggle(old(self)@, overlay_id@).2
                && actions_view(p.1@) == spec_toggle(old(self)@, overlay_id@).1,
            r matches Err(e) ==> (e matches OverlayError::OverlayNotFound { id } && id@
                == overlay_id@),
    {
        proof {
            lemma_spec_toggle_wf(old(self)@, overlay_id@);
        }
        match find_window(&self.windows, &overlay_id) {
            Some(i) => {
                proof {
                    lemma_window_index_is(old(self)@.windows, overlay_id@, i as int);
                }
                let newv = !self.windows[i].visible;
                self.windows[i].visible = newv;
                match find_config(&self.configs, &overlay_id) {
                    Some(ci) => {
                        proof {
                            lemma_cfg_index_is(old(self)@.configs, overlay_id@, ci as int);
                        }
                        self.configs[ci].visible = newv;
                    },
                    None => {
                        proof {
                            assert(!has_cfg(old(self)@.configs, overlay_id@));
                        }
                    },
                }
                let mut acts: Vec<WindowAction> = Vec::new();
                if newv {
                    acts.push(WindowAction::Show { id: overlay_id });
                } else {
                    acts.push(WindowAction::Hide { id: overlay_id });
                }
                proof {
                    assert(self@ =~~= spec_toggle(old(self)@, overlay_id@).0);
                    assert(actions_view(acts@) =~= spec_toggle(old(self)@, overlay_id@).1);
                }
                Ok((newv, acts))
            },
            None => {
                proof {
                    assert(!has_window(old(self)@.windows, overlay_id@));
                }
                match self.create_overlay(overlay_id) {
                    Ok(acts) => Ok((true, acts)),
                    Err(e) => Err(e),
                }
            },
        }
    }

    /// Apply one visibility value to every currently-existing window,
    /// returning one show or hide action per window.  Stored
    /// configurations are untouched and no window is created.
    pub fn toggle_all_overlays(&mut self, visible: bool) -> (r: Vec<WindowAction>)
        requires
            state_wf(old(self)@),
        ensures
            state_wf(final(self)@),
            final(self)@ == spec_toggle_all(old(self)@, visible).0,
            actions_view(r@) == spec_toggle_all(old(self)@, visible).1,
    {
        proof {
            lemma_spec_toggle_all_wf(old(self)@, visible);
        }
        let mut acts: Vec<WindowAction> = Vec::new();
        let n = self.windows.len();
        for i in 0..n
            invariant
                n == self.windows@.len(),
                self.configs@ == old(self).configs@,
                self.presets@ == old(self).presets@,
                self.windows@.len() == old(self).windows@.len(),
                forall|j: int|
                    0 <= j < n ==> #[trigger] self.windows@[j]@.id == old(self).windows@[j]@.id,
                forall|j: int| 0 <= j < i ==> #[trigger] self.windows@[j]@.visible == visible,
                forall|j: int|
                    i <= j < n ==> #[trigger] self.windows@[j]@.visible
                        == old(self).windows@[j]@.visible,
                acts@.len() == i,
                forall|j: int|
                    0 <= j < i ==> #[trigger] acts@[j]@ == (if visible {
                        ActionModel::Show { id: old(self).windows@[j]@.id }
                    } else {
                        ActionModel::Hide { id: old(self).windows@[j]@.id }
                    }),
        {
            let ghost prev = self.windows@;
            let id = self.windows[i].id.clone();
            self.windows[i].visible = visible;
            if visible {
                acts.push(WindowAction::Show { id });
            } else {
                acts.push(WindowAction::Hide { id });
            }
            proof {
                assert(self.windows@.len() == prev.len());
                assert(forall|j: int| 0 <= j < n && j != i ==> self.windows@[j] == prev[j]);
                assert(self.windows@[i as int]@.id == prev[i as int]@.id);
                assert(self.windows@[i as int]@.visible == visible);
                assert(id@ == prev[i as int]@.id);
                assert(acts@[i as int]@ == (if visible {
                    ActionModel::Show { id: old(self).windows@[i as int]@.id }
                } else {
                    ActionModel::Hide { id: old(self).windows@[i as int]@.id }
                }));
            }
        }
        proof {
            assert(self@ =~~= spec_toggle_all(old(self)@, visible).0);
            assert(actions_view(acts@) =~= spec_toggle_all(old(self)@, visible).1);
        }
        acts
    }

    /// Store the configuration under its id (adding it when the id is
    /// new), then, only when the window exists, return the actions that
    /// push position, size, always-on-top, click-through and visibility
    /// to it.
    pub fn update_overlay_config(&mut self, config: OverlayConfig) -> (r: Vec<WindowAction>)
        requires
            state_wf(old(self)@),
        ensures
            state_wf(final(self)@),
            final(self)@ == spec_update_config(old(self)@, config@).0,
            actions_view(r@) == spec_update_config(old(self)@, config@).1,
    {
        proof {
            lemma_spec_update_config_wf(old(self)@, config@);
            lemma_upsert_cfg(old(self)@.configs, config@);
        }
        let stored = config.clone();
        match find_config(&self.configs, &config.id) {
            Some(i) => {
                proof {
                    lemma_cfg_index_is(old(self)@.configs, config@.id, i as int);
                }
                self.configs[i] = stored;
            },
            None => {
                proof {
                    assert(!has_cfg(old(self)@.configs, config@.id));
                }
                self.configs.push(stored);
            },
        }
        proof {
            assert(self@.configs =~= spec_update_config(old(self)@, config@).0.configs);
        }
        match find_window(&self.windows, &config.id) {
            Some(wi) => {
                proof {
                    lemma_window_index_is(old(self)@.windows, config@.id, wi as int);
                }
                self.windows[wi].visible = config.visible;
                let mut acts: Vec<WindowAction> = Vec::new();
                acts.push(
                    WindowAction::SetPosition { id: config.id.clone(), x: config.x, y: config.y },
                );
                acts.push(
                    WindowAction::SetSize {
                        id: config.id.clone(),
                        width: config.width,
                        height: config.height,
                    },
                );
                acts.push(
                    WindowAction::SetAlwaysOnTop {
                        id: config.id.clone(),
                        on_top: config.always_on_top,
                    },
                );
                acts.push(
                    WindowAction::SetClickThrough {
                        id: config.id.clone(),
                        enabled: config.click_through,
                    },
                );
                if config.visible {
                    acts.push(WindowAction::Show { id: config.id });
                } else {
                    acts.push(WindowAction::Hide { id: config.id });
                }
                proof {
                    assert(self@ =~~= spec_update_config(old(self)@, config@).0);
                    assert(actions_view(acts@) =~= spec_update_config(old(self)@, config@).1);
                }
                acts
            },
            None => {
                proof {
                    assert(!has_window(old(self)@.windows, config@.id));
                    assert(self@ =~~= spec_update_config(old(self)@, config@).0);
                    assert(actions_view(Seq::<WindowAction>::empty()) =~= spec_update_config(
                        old(self)@,
                        config@,
                    ).1);
                }
                Vec::new()
            },
        }
    }

    /// Apply a named preset: an unknown name is refused and nothing
    /// changes.  Otherwise every existing window is hidden first, then
    /// each overlay of the preset is stored and, when marked visible, its
    /// window is created.
    pub fn apply_overlay_preset(&mut self, preset_name: String) -> (r: Result<
        Vec<WindowAction>,
        OverlayError,
    >)
        requires
            state_wf(old(self)@),
        ensures
            state_wf(final(self)@),
            final(self)@ == spec_apply_preset(old(self)@, preset_name@).0,
            r is Ok <==> has_preset(old(self)@.presets, preset_name@),
            r matches Ok(acts) ==> actions_view(acts@) == spec_apply_preset(
                old(self)@,
                preset_name@,
            ).1,
            r matches Err(e) ==> (e matches OverlayError::PresetNotFound { name } && name@
                == preset_name@),
    {
        proof {
            lemma_spec_apply_preset_wf(old(self)@, preset_name@);
        }
        let pi = match find_preset(&self.presets, &preset_name) {
            Some(i) => i,
            None => {
                proof {
                    assert(!has_preset(old(self)@.presets, preset_name@));
                }
                return Err(OverlayError::PresetNotFound { name: preset_name });
            },
        };
        proof {
            lemma_preset_index_is(old(self)@.presets, preset_name@, pi as int);
        }
        let overlays = clone_configs(&self.presets[pi].overlays);
        let ghost ovs = configs_view(overlays@);
        proof {
            assert(ovs == preset_at(old(self)@.presets, preset_name@).overlays);
        }
        let mut acts = self.toggle_all_overlays(false);
        let ghost hide_acts = spec_toggle_all(old(self)@, false).1;
        let ghost hidden = spec_toggle_all(old(self)@, false).0;
        let n = overlays.len();
        for i in 0..n
            invariant
                n == overlays@.len(),
                configs_view(overlays@) == ovs,
                state_wf(self@),
                apply_overlays_from(hidden, ovs, 0).0 == apply_overlays_from(
                    self@,
                    ovs,
                    i as int,
                ).0,
                hide_acts + apply_overlays_from(hidden, ovs, 0).1 == actions_view(acts@)
                    + apply_overlays_from(self@, ovs, i as int).1,
        {
            let ghost pre = self@;
            let ghost pre_acts = actions_view(acts@);
            let cfg = overlays[i].clone();
            let is_visible = overlays[i].visible;
            let mut a1 = self.update_overlay_config(cfg);
            acts.append(&mut a1);
            proof {
                lemma_upsert_cfg(pre.configs, ovs[i as int]);
            }
            if is_visible {
                let id = overlays[i].id.clone();
                let mut a2 = match self.create_overlay(id) {
                    Ok(a) => a,
                    // The overlay's configuration was stored just above,
                    // so creation cannot find its id unknown.
                    Err(_) => {
                        proof {
                            assert(false);
                        }
                        Vec::new()
                    },
                };
                acts.append(&mut a2);
            }
            proof {
                let stepped = if ovs[i as int].visible {
                    spec_create(spec_update_config(pre, ovs[i as int]).0, ovs[i as int].id)
                } else {
                    (
                        spec_update_config(pre, ovs[i as int]).0,
                        Seq::<ActionModel>::empty(),
                        true,
                    )
                };
                assert(self@ == stepped.0);
                assert(apply_overlays_from(pre, ovs, i as int).0 == apply_overlays_from(
                    self@,
                    ovs,
                    i as int + 1,
                ).0);
                assert(actions_view(acts@) =~= pre_acts + spec_update_config(
                    pre,
                    ovs[i as int],
                ).1 + stepped.1);
                assert(hide_acts + apply_overlays_from(hidden, ovs, 0).1 =~= actions_view(acts@)
                    + apply_overlays_from(self@, ovs, i as int + 1).1);
            }
        }
        proof {
            assert(apply_overlays_from(self@, ovs, n as int).0 == self@);
            assert(apply_overlays_from(self@, ovs, n as int).1 =~= Seq::<ActionModel>::empty());
            assert(self@ == spec_apply_preset(old(self)@, preset_name@).0);
            assert(actions_view(acts@) =~= hide_acts + apply_overlays_from(hidden, ovs, 0).1);
            assert(actions_view(acts@) == spec_apply_preset(old(self)@, preset_name@).1);
        }
        Ok(acts)
    }
}

} // verus!
