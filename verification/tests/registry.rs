use overlay_shell::config::{OverlayConfig, WindowAction};
use overlay_shell::registry::{OverlayError, OverlayState};

fn cfg(id: &str) -> OverlayConfig {
    let mut c = OverlayConfig::default();
    c.id = id.to_string();
    c
}

fn find<'a>(cs: &'a [OverlayConfig], id: &str) -> &'a OverlayConfig {
    cs.iter().find(|c| c.id == id).expect("config not found")
}

#[test]
fn default_state_has_builtin_configs() {
    let st = OverlayState::default();
    let cs = st.get_overlay_configs();
    assert!(cs.len() == 3);
    let t = find(&cs, "telemetry");
    assert!(t.title == "Telemetrie");
    assert!(t.x == 50 && t.y == 50);
    assert!(t.width == 280 && t.height == 180);
    assert!(!t.visible);
    assert!(t.opacity_pct == 90);
    assert!(t.always_on_top);
    assert!(t.click_through);
    let s = find(&cs, "strategy");
    assert!(s.title == "Strategie" && s.x == 50 && s.y == 250);
    assert!(s.width == 320 && s.height == 200);
    let r = find(&cs, "standings");
    assert!(r.title == "Classement" && r.x == 1600 && r.y == 50);
    assert!(r.width == 280 && r.height == 400);
}

#[test]
fn default_state_has_builtin_presets() {
    let st = OverlayState::default();
    let ps = st.get_overlay_presets();
    assert!(ps.len() == 3);
    assert!(ps[0].name == "Course" && ps[0].overlays.len() == 3);
    assert!(ps[1].name == "Qualifications" && ps[1].overlays.len() == 2);
    assert!(ps[2].name == "Minimal" && ps[2].overlays.len() == 1);
    let m = &ps[2].overlays[0];
    assert!(m.id == "telemetry");
    assert!(m.visible);
    assert!(m.x == 50 && m.y == 50);
    // Preset entries carry the default configuration otherwise.
    assert!(m.title == "Overlay");
    assert!(m.width == 300 && m.height == 200);
    assert!(m.opacity_pct == 100);
    assert!(m.always_on_top && !m.click_through);
}

#[test]
fn create_unknown_overlay_errors() {
    let mut st = OverlayState::default();
    match st.create_overlay("nope".to_string()) {
        Err(OverlayError::OverlayNotFound { id }) => assert!(id == "nope"),
        _ => panic!("expected an unknown-overlay error"),
    }
    assert!(st.windows.is_empty());
}

#[test]
fn create_emits_create_action_with_stored_config() {
    let mut st = OverlayState::default();
    let acts = st.create_overlay("telemetry".to_string()).expect("known id");
    // telemetry asks for click-through, so creation is followed by it.
    assert!(acts.len() == 2);
    match &acts[0] {
        WindowAction::Create { config } => {
            assert!(config.id == "telemetry");
            assert!(config.title == "Telemetrie");
            assert!(!config.visible);
        }
        _ => panic!("expected a create action"),
    }
    match &acts[1] {
        WindowAction::SetClickThrough { id, enabled } => {
            assert!(id == "telemetry");
            assert!(*enabled);
        }
        _ => panic!("expected a click-through action"),
    }
    assert!(st.windows.len() == 1);
    assert!(st.windows[0].id == "telemetry");
    assert!(!st.windows[0].visible);
    // Creating again is a no-op.
    let again = st.create_overlay("telemetry".to_string()).expect("known id");
    assert!(again.is_empty());
    assert!(st.windows.len() == 1);
}

#[test]
fn create_then_toggle_flips_default_visibility() {
    // Default visibility false: after create and toggle the overlay is visible.
    let mut st = OverlayState::default();
    st.create_overlay("telemetry".to_string()).expect("known id");
    let (now_visible, acts) = st.toggle_overlay("telemetry".to_string()).expect("known id");
    assert!(now_visible);
    assert!(acts.len() == 1);
    assert!(matches!(&acts[0], WindowAction::Show { id } if id == "telemetry"));
    assert!(find(&st.get_overlay_configs(), "telemetry").visible);

    // Default visibility true: after create and toggle it is hidden.
    let mut st2 = OverlayState::default();
    let mut c = cfg("hud");
    c.visible = true;
    st2.update_overlay_config(c);
    st2.create_overlay("hud".to_string()).expect("known id");
    let (now_visible2, acts2) = st2.toggle_overlay("hud".to_string()).expect("known id");
    assert!(!now_visible2);
    assert!(matches!(&acts2[0], WindowAction::Hide { id } if id == "hud"));
    assert!(!find(&st2.get_overlay_configs(), "hud").visible);
}

#[test]
fn toggle_twice_returns_to_stored_visibility() {
    let mut st = OverlayState::default();
    st.create_overlay("strategy".to_string()).expect("known id");
    let (v1, _) = st.toggle_overlay("strategy".to_string()).expect("known id");
    let (v2, _) = st.toggle_overlay("strategy".to_string()).expect("known id");
    assert!(v1 && !v2);
    assert!(!find(&st.get_overlay_configs(), "strategy").visible);
}

#[test]
fn toggle_absent_window_creates_and_reports_visible() {
    let mut st = OverlayState::default();
    let (now_visible, acts) = st.toggle_overlay("standings".to_string()).expect("known id");
    assert!(now_visible);
    assert!(matches!(&acts[0], WindowAction::Create { .. }));
    assert!(st.windows.len() == 1 && st.windows[0].id == "standings");
    match st.toggle_overlay("nope".to_string()) {
        Err(OverlayError::OverlayNotFound { id }) => assert!(id == "nope"),
        _ => panic!("expected an unknown-overlay error"),
    }
}

#[test]
fn toggle_all_false_never_creates_windows() {
    let mut st = OverlayState::default();
    // No window exists: nothing to do, nothing created.
    let acts = st.toggle_all_overlays(false);
    assert!(acts.is_empty());
    assert!(st.windows.is_empty());
    // One window exists: only that one is hidden.
    st.create_overlay("telemetry".to_string()).expect("known id");
    let acts = st.toggle_all_overlays(false);
    assert!(acts.len() == 1);
    assert!(matches!(&acts[0], WindowAction::Hide { id } if id == "telemetry"));
    assert!(st.windows.len() == 1 && !st.windows[0].visible);
}

#[test]
fn toggle_all_true_leaves_stored_configs_alone() {
    let mut st = OverlayState::default();
    st.create_overlay("telemetry".to_string()).expect("known id");
    let before = st.get_overlay_configs();
    let acts = st.toggle_all_overlays(true);
    assert!(acts.len() == 1);
    assert!(matches!(&acts[0], WindowAction::Show { id } if id == "telemetry"));
    // Window visibility changed, but no stored config did - in particular
    // not those of the absent strategy and standings overlays.
    let after = st.get_overlay_configs();
    assert!(before.len() == after.len());
    for (b, a) in before.iter().zip(after.iter()) {
        assert!(b.id == a.id && b.visible == a.visible && b.x == a.x && b.y == a.y);
    }
    assert!(st.windows[0].visible);
}

#[test]
fn apply_unknown_preset_errors_without_side_effects() {
    let mut st = OverlayState::default();
    st.create_overlay("telemetry".to_string()).expect("known id");
    let configs_before = st.get_overlay_configs();
    let presets_before = st.get_overlay_presets();
    let windows_before = st.windows.len();
    match st.apply_overlay_preset("nope".to_string()) {
        Err(OverlayError::PresetNotFound { name }) => assert!(name == "nope"),
        _ => panic!("expected an unknown-preset error"),
    }
    let configs_after = st.get_overlay_configs();
    assert!(configs_before.len() == configs_after.len());
    for (b, a) in configs_before.iter().zip(configs_after.iter()) {
        assert!(b.id == a.id && b.visible == a.visible);
    }
    assert!(st.get_overlay_presets().len() == presets_before.len());
    assert!(st.windows.len() == windows_before);
}

#[test]
fn save_then_apply_restores_configs() {
    let mut st = OverlayState::default();
    let mut moved = find(&st.get_overlay_configs(), "telemetry").clone();
    moved.x = 999;
    moved.y = 777;
    st.update_overlay_config(moved);
    st.save_overlay_preset("mine".to_string());
    let saved = st.get_overlay_configs();

    // Disturb the state after saving.
    let mut disturbed = find(&st.get_overlay_configs(), "telemetry").clone();
    disturbed.x = 1;
    disturbed.visible = true;
    st.update_overlay_config(disturbed);

    st.apply_overlay_preset("mine".to_string()).expect("saved preset");
    let restored = st.get_overlay_configs();
    assert!(restored.len() == saved.len());
    for (s, r) in saved.iter().zip(restored.iter()) {
        assert!(s.id == r.id);
        assert!(s.title == r.title);
        assert!(s.x == r.x && s.y == r.y);
        assert!(s.width == r.width && s.height == r.height);
        assert!(s.visible == r.visible);
        assert!(s.opacity_pct == r.opacity_pct);
        assert!(s.always_on_top == r.always_on_top);
        assert!(s.click_through == r.click_through);
    }
    assert!(find(&restored, "telemetry").x == 999);
}

#[test]
fn save_preset_overwrites_by_name() {
    let mut st = OverlayState::default();
    st.save_overlay_preset("mine".to_string());
    assert!(st.get_overlay_presets().len() == 4);
    st.save_overlay_preset("mine".to_string());
    assert!(st.get_overlay_presets().len() == 4);
}

#[test]
fn update_with_new_id_appears_in_list() {
    let mut st = OverlayState::default();
    let mut c = cfg("fuel");
    c.title = "Fuel".to_string();
    c.x = 10;
    c.y = 20;
    let acts = st.update_overlay_config(c);
    // No window for the new id, so nothing is pushed to the toolkit.
    assert!(acts.is_empty());
    let cs = st.get_overlay_configs();
    assert!(cs.len() == 4);
    let f = find(&cs, "fuel");
    assert!(f.title == "Fuel" && f.x == 10 && f.y == 20);
}

#[test]
fn update_existing_window_pushes_full_state() {
    let mut st = OverlayState::default();
    st.create_overlay("telemetry".to_string()).expect("known id");
    let mut c = find(&st.get_overlay_configs(), "telemetry").clone();
    c.x = 5;
    c.y = 6;
    c.width = 640;
    c.height = 480;
    c.visible = true;
    c.always_on_top = false;
    c.click_through = false;
    let acts = st.update_overlay_config(c);
    assert!(acts.len() == 5);
    assert!(matches!(&acts[0], WindowAction::SetPosition { id, x: 5, y: 6 } if id == "telemetry"));
    assert!(
        matches!(&acts[1], WindowAction::SetSize { id, width: 640, height: 480 } if id == "telemetry")
    );
    assert!(
        matches!(&acts[2], WindowAction::SetAlwaysOnTop { id, on_top: false } if id == "telemetry")
    );
    assert!(
        matches!(&acts[3], WindowAction::SetClickThrough { id, enabled: false } if id == "telemetry")
    );
    assert!(matches!(&acts[4], WindowAction::Show { id } if id == "telemetry"));
    assert!(st.windows[0].visible);
}

#[test]
fn apply_minimal_preset_shows_exactly_telemetry() {
    let mut st = OverlayState::default();
    let acts = st.apply_overlay_preset("Minimal".to_string()).expect("built-in preset");
    assert!(!acts.is_empty());
    // Exactly one overlay window exists and it is the visible telemetry one.
    assert!(st.windows.len() == 1);
    assert!(st.windows[0].id == "telemetry");
    assert!(st.windows[0].visible);
    // The other two overlays stay hidden.
    let cs = st.get_overlay_configs();
    assert!(find(&cs, "telemetry").visible);
    assert!(!find(&cs, "strategy").visible);
    assert!(!find(&cs, "standings").visible);
}

#[test]
fn apply_course_preset_shows_all_three() {
    let mut st = OverlayState::default();
    st.apply_overlay_preset("Course".to_string()).expect("built-in preset");
    assert!(st.windows.len() == 3);
    assert!(st.windows.iter().all(|w| w.visible));
    let cs = st.get_overlay_configs();
    assert!(cs.len() == 3);
    assert!(cs.iter().all(|c| c.visible));
}

#[test]
fn close_overlay_removes_window_and_tolerates_absence() {
    let mut st = OverlayState::default();
    // Closing an absent window silently succeeds.
    let acts = st.close_overlay("telemetry".to_string());
    assert!(acts.is_empty());
    st.create_overlay("telemetry".to_string()).expect("known id");
    let acts = st.close_overlay("telemetry".to_string());
    assert!(acts.len() == 1);
    assert!(matches!(&acts[0], WindowAction::Close { id } if id == "telemetry"));
    assert!(st.windows.is_empty());
}

#[test]
fn set_click_through_updates_config_and_live_window() {
    let mut st = OverlayState::default();
    // No window: only the stored flag changes.
    let acts = st.set_overlay_click_through("telemetry".to_string(), false);
    assert!(acts.is_empty());
    assert!(!find(&st.get_overlay_configs(), "telemetry").click_through);
    // With a window, the flag is also pushed to it.
    st.create_overlay("telemetry".to_string()).expect("known id");
    let acts = st.set_overlay_click_through("telemetry".to_string(), true);
    assert!(acts.len() == 1);
    assert!(
        matches!(&acts[0], WindowAction::SetClickThrough { id, enabled: true } if id == "telemetry")
    );
    // An unknown id is silently ignored.
    let acts = st.set_overlay_click_through("nope".to_string(), true);
    assert!(acts.is_empty());
    assert!(st.get_overlay_configs().len() == 3);
}
