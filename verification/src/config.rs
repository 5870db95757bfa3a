//! Executable data types of the overlay registry, with their views into the
//! mathematical model, and the built-in configurations and presets seeded at
//! process start.

use crate::model::{ActionModel, ConfigModel, PresetModel, WindowModel};
use vstd::prelude::*;

verus! {

/// Configuration of one overlay window.  Opacity is kept in whole percent
/// (100 = fully opaque) so that the registry stores only plain integers.
pub struct OverlayConfig {
    pub id: String,
    pub title: String,
    pub x: i32,
    pub y: i32,
    pub width: u32,
    pub height: u32,
    pub visible: bool,
    pub opacity_pct: u8,
    pub always_on_top: bool,
    pub click_through: bool,
}

impl View for OverlayConfig {
    type V = ConfigModel;

    open spec fn view(&self) -> ConfigModel {
        ConfigModel {
            id: self.id@,
            title: self.title@,
            x: self.x as int,
            y: self.y as int,
            width: self.width as int,
            height: self.height as int,
            visible: self.visible,
            opacity_pct: self.opacity_pct as int,
            always_on_top: self.always_on_top,
            click_through: self.click_through,
        }
    }
}

impl Clone for OverlayConfig {
    fn clone(&self) -> (r: Self)
        ensures
            r@ == self@,
    {
        OverlayConfig {
            id: self.id.clone(),
            title: self.title.clone(),
            x: self.x,
            y: self.y,
            width: self.width,
            height: self.height,
            visible: self.visible,
            opacity_pct: self.opacity_pct,
            always_on_top: self.always_on_top,
            click_through: self.click_through,
        }
    }
}

/// A named preset: an ordered list of configuration snapshots.
pub struct OverlayPreset {
    pub name: String,
    pub overlays: Vec<OverlayConfig>,
}

pub open spec fn configs_view(cs: Seq<OverlayConfig>) -> Seq<ConfigModel> {
    cs.map(|i: int, c: OverlayConfig| c@)
}

impl View for OverlayPreset {
    type V = PresetModel;

    open spec fn view(&self) -> PresetModel {
        PresetModel { name: self.name@, overlays: configs_view(self.overlays@) }
    }
}

impl Clone for OverlayPreset {
    fn clone(&self) -> (r: Self)
        ensures
            r@ == self@,
    {
        OverlayPreset { name: self.name.clone(), overlays: clone_configs(&self.overlays) }
    }
}

/// One live overlay window, as the registry tracks it: the overlay it
/// belongs to and whether it is currently shown.
pub struct WindowState {
    pub id: String,
    pub visible: bool,
}

impl View for WindowState {
    type V = WindowModel;

    open spec fn view(&self) -> WindowModel {
        WindowModel { id: self.id@, visible: self.visible }
    }
}

impl Clone for WindowState {
    fn clone(&self) -> (r: Self)
        ensures
            r@ == self@,
    {
        WindowState { id: self.id.clone(), visible: self.visible }
    }
}

/// One window-management primitive for the host toolkit to perform.  The
/// registry computes these; an unverified shell executes them.
pub enum WindowAction {
    Create { config: OverlayConfig },
    Close { id: String },
    Show { id: String },
    Hide { id: String },
    SetPosition { id: String, x: i32, y: i32 },
    SetSize { id: String, width: u32, height: u32 },
    SetAlwaysOnTop { id: String, on_top: bool },
    SetClickThrough { id: String, enabled: bool },
}

impl View for WindowAction {
    type V = ActionModel;

    open spec fn view(&self) -> ActionModel {
        match self {
            WindowAction::Create { config } => ActionModel::Create { config: config@ },
            WindowAction::Close { id } => ActionModel::Close { id: id@ },
            WindowAction::Show { id } => ActionModel::Show { id: id@ },
            WindowAction::Hide { id } => ActionModel::Hide { id: id@ },
            WindowAction::SetPosition { id, x, y } => ActionModel::SetPosition {
                id: id@,
                x: *x as int,
                y: *y as int,
            },
            WindowAction::SetSize { id, width, height } => ActionModel::SetSize {
                id: id@,
                width: *width as int,
                height: *height as int,
            },
            WindowAction::SetAlwaysOnTop { id, on_top } => ActionModel::SetAlwaysOnTop {
                id: id@,
                on_top: *on_top,
            },
            WindowAction::SetClickThrough { id, enabled } => ActionModel::SetClickThrough {
                id: id@,
                enabled: *enabled,
            },
        }
    }
}

pub open spec fn actions_view(v: Seq<WindowAction>) -> Seq<ActionModel> {
    v.map(|i: int, a: WindowAction| a@)
}

// ---------------------------------------------------------------------------
// Built-in configurations and presets.

/// The configuration a fresh overlay gets before any field is set.
pub open spec fn default_config_model() -> ConfigModel {
    ConfigModel {
        id: Seq::<char>::empty(),
        title: "Overlay"@,
        x: 100,
        y: 100,
        width: 300,
        height: 200,
        visible: true,
        opacity_pct: 100,
        always_on_top: true,
        click_through: false,
    }
}

impl Default for OverlayConfig {
    /// The default configuration: see `default_config_model`.
    fn default() -> (r: Self)
        ensures
            r@ == default_config_model(),
    {
        OverlayConfig {
            id: String::new(),
            title: "Overlay".to_owned(),
            x: 100,
            y: 100,
            width: 300,
            height: 200,
            visible: true,
            opacity_pct: 100,
            always_on_top: true,
            click_through: false,
        }
    }
}

/// An entry of a built-in preset: the default configuration with the given
/// id and position, marked visible.
pub open spec fn preset_entry_model(id: Seq<char>, x: int, y: int) -> ConfigModel {
    ConfigModel { id: id, x: x, y: y, visible: true, ..default_config_model() }
}

/// Build an entry of a built-in preset.
pub fn preset_entry(id: &str, x: i32, y: i32) -> (r: OverlayConfig)
    ensures
        r@ == preset_entry_model(id@, x as int, y as int),
{
    let mut c = OverlayConfig::default();
    c.id = id.to_owned();
    c.x = x;
    c.y = y;
    c.visible = true;
    c
}

/// The telemetry overlay as seeded at process start.
pub open spec fn builtin_telemetry_model() -> ConfigModel {
    ConfigModel {
        id: "telemetry"@,
        title: "Telemetrie"@,
        x: 50,
        y: 50,
        width: 280,
        height: 180,
        visible: false,
        opacity_pct: 90,
        always_on_top: true,
        click_through: true,
    }
}

/// The strategy overlay as seeded at process start.
pub open spec fn builtin_strategy_model() -> ConfigModel {
    ConfigModel {
        id: "strategy"@,
        title: "Strategie"@,
        x: 50,
        y: 250,
        width: 320,
        height: 200,
        visible: false,
        opacity_pct: 90,
        always_on_top: true,
        click_through: true,
    }
}

/// The standings overlay as seeded at process start.
pub open spec fn builtin_standings_model() -> ConfigModel {
    ConfigModel {
        id: "standings"@,
        title: "Classement"@,
        x: 1600,
        y: 50,
        width: 280,
        height: 400,
        visible: false,
        opacity_pct: 90,
        always_on_top: true,
        click_through: true,
    }
}

/// The three built-in presets seeded at process start.
pub open spec fn builtin_presets_model() -> Seq<PresetModel> {
    seq![
        PresetModel {
            name: "Course"@,
            overlays: seq![
                preset_entry_model("telemetry"@, 50, 50),
                preset_entry_model("strategy"@, 50, 250),
                preset_entry_model("standings"@, 1600, 50),
            ],
        },
        PresetModel {
            name: "Qualifications"@,
            overlays: seq![
                preset_entry_model("telemetry"@, 50, 50),
                preset_entry_model("standings"@, 1600, 50),
            ],
        },
        PresetModel {
            name: "Minimal"@,
            overlays: seq![preset_entry_model("telemetry"@, 50, 50)],
        },
    ]
}

/// The registry state at process start: the three built-in configurations,
/// the three built-in presets, and no live window.
pub open spec fn builtin_state() -> crate::model::StateModel {
    crate::model::StateModel {
        configs: seq![
            builtin_telemetry_model(),
            builtin_strategy_model(),
            builtin_standings_model(),
        ],
        presets: builtin_presets_model(),
        windows: Seq::<WindowModel>::empty(),
    }
}

/// The three built-in overlay ids are pairwise distinct.
pub proof fn lemma_builtin_ids_distinct()
    ensures
        "telemetry"@ != "strategy"@,
        "telemetry"@ != "standings"@,
        "strategy"@ != "standings"@,
{
    reveal_strlit("telemetry");
    reveal_strlit("strategy");
    reveal_strlit("standings");
    assert("telemetry"@.len() == 9);
    assert("strategy"@.len() == 8);
    assert("standings"@.len() == 9);
    assert("telemetry"@[1] != "standings"@[1]);
}

/// The seeded state satisfies the registry invariant.
pub proof fn lemma_builtin_state_wf()
    ensures
        crate::model::state_wf(builtin_state()),
{
    lemma_builtin_ids_distinct();
    reveal_strlit("Course");
    reveal_strlit("Qualifications");
    reveal_strlit("Minimal");
    assert("Course"@.len() == 6);
    assert("Qualifications"@.len() == 14);
    assert("Minimal"@.len() == 7);
    let s = builtin_state();
    assert(crate::model::unique_cfg_ids(s.configs));
    assert(crate::model::unique_window_ids(s.windows));
    assert(crate::model::unique_preset_names(s.presets));
    assert(forall|i: int| 0 <= i < s.presets.len() ==> crate::model::unique_cfg_ids(
        s.presets[i].overlays,
    ));
}

/// Clone a configuration list element by element, keeping its value.
pub fn clone_configs(cs: &Vec<OverlayConfig>) -> (r: Vec<OverlayConfig>)
    ensures
        configs_view(r@) == configs_view(cs@),
        r@.len() == cs@.len(),
{
    let mut r: Vec<OverlayConfig> = Vec::new();
    let n = cs.len();
    for i in 0..n
        invariant
            n == cs@.len(),
            r@.len() == i,
            forall|j: int| 0 <= j < i ==> r@[j]@ == cs@[j]@,
    {
        r.push(cs[i].clone());
    }
    proof {
        assert(configs_view(r@) =~= configs_view(cs@));
    }
    r
}

} // verus!
