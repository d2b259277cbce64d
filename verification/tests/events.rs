use seelen_ui_core::debounce::LocationDebouncer;
use seelen_ui_core::hook::{DispatchAction, DispatchFlags, HookManager, WindowInfo};
use seelen_ui_core::vd::{process_vd_event, VdAction, VdContext, VdEvent};
use seelen_ui_core::winevent::WinEvent;

fn window(title: &str) -> WindowInfo {
    WindowInfo {
        is_seelen_overlay: false,
        title: title.to_string(),
        display_name: Some("Sample App".to_string()),
        exe: Some("C:/apps/sample.exe".to_string()),
    }
}

fn all_flags() -> DispatchFlags {
    DispatchFlags { weg_enabled: true, window_manager_enabled: true }
}

#[test]
fn skip_registered_then_consumed_once() {
    let mut hm = HookManager::new();
    hm.skip(WinEvent::ObjectLocationChange, 42);
    assert!(hm.should_skip(WinEvent::ObjectLocationChange, 42));
    hm.skip_done(WinEvent::ObjectLocationChange, 42);
    assert!(!hm.should_skip(WinEvent::ObjectLocationChange, 42));
}

#[test]
fn skip_is_per_window_and_per_kind() {
    let mut hm = HookManager::new();
    hm.skip(WinEvent::ObjectLocationChange, 42);
    assert!(!hm.should_skip(WinEvent::ObjectLocationChange, 7));
    assert!(!hm.should_skip(WinEvent::SystemForeground, 42));
}

#[test]
fn two_pending_suppressions_consume_one_each() {
    let mut hm = HookManager::new();
    hm.skip(WinEvent::SystemForeground, 5);
    hm.skip(WinEvent::SystemForeground, 5);
    hm.skip_done(WinEvent::SystemForeground, 5);
    assert!(hm.should_skip(WinEvent::SystemForeground, 5));
    hm.skip_done(WinEvent::SystemForeground, 5);
    assert!(!hm.should_skip(WinEvent::SystemForeground, 5));
}

#[test]
fn event_suppressed_then_processed_normally() {
    let mut hm = HookManager::new();
    hm.skip(WinEvent::ObjectLocationChange, 42);
    let first = hm.event(WinEvent::ObjectLocationChange, 42, &window("Editor"), all_flags());
    assert!(first.is_empty());
    let second = hm.event(WinEvent::ObjectLocationChange, 42, &window("Editor"), all_flags());
    assert!(!second.is_empty());
    assert!(matches!(second.last().unwrap(), DispatchAction::ForwardToInstances));
}

#[test]
fn ignored_title_produces_no_focus_notification() {
    let mut hm = HookManager::new();
    let actions = hm.event(
        WinEvent::SystemForeground,
        11,
        &window("Task Switching"),
        all_flags(),
    );
    assert!(actions.is_empty());
    // the foreground bookkeeping still happened before the filter
    assert_eq!(hm.last_active, 11);
}

#[test]
fn focus_event_emits_focus_changed_first() {
    let mut hm = HookManager::new();
    let actions = hm.event(WinEvent::ObjectFocus, 11, &window("Editor"), all_flags());
    assert_eq!(actions.len(), 5);
    match &actions[0] {
        DispatchAction::FocusChanged(app) => {
            assert_eq!(app.hwnd, 11);
            assert_eq!(app.title, "Editor");
            assert_eq!(app.name, "Sample App");
            assert_eq!(app.exe.as_deref(), Some("C:/apps/sample.exe"));
        }
        _ => panic!("expected a focus notification"),
    }
    assert!(matches!(actions[1], DispatchAction::ForwardToVirtualDesk));
    assert!(matches!(actions[2], DispatchAction::ForwardToWeg));
    assert!(matches!(actions[3], DispatchAction::ForwardToWindowManager));
    assert!(matches!(actions[4], DispatchAction::ForwardToInstances));
}

#[test]
fn missing_display_name_degrades_to_placeholder() {
    let mut hm = HookManager::new();
    let info = WindowInfo {
        is_seelen_overlay: false,
        title: "Editor".to_string(),
        display_name: None,
        exe: None,
    };
    let actions = hm.event(WinEvent::SystemForeground, 3, &info, all_flags());
    match &actions[0] {
        DispatchAction::FocusChanged(app) => {
            assert_eq!(app.name, "Error on App Name");
            assert!(app.exe.is_none());
        }
        _ => panic!("expected a focus notification"),
    }
}

#[test]
fn overlay_window_does_not_update_last_active() {
    let mut hm = HookManager::new();
    let info = WindowInfo {
        is_seelen_overlay: true,
        title: "Editor".to_string(),
        display_name: None,
        exe: None,
    };
    hm.event(WinEvent::SystemForeground, 99, &info, all_flags());
    assert_eq!(hm.last_active, 0);
}

#[test]
fn non_focus_event_skips_focus_stage() {
    let mut hm = HookManager::new();
    let flags = DispatchFlags { weg_enabled: false, window_manager_enabled: false };
    let actions = hm.event(WinEvent::ObjectNameChange, 8, &window("Editor"), flags);
    // the virtual-desktop translator sees every surviving event
    assert_eq!(actions.len(), 2);
    assert!(matches!(actions[0], DispatchAction::ForwardToVirtualDesk));
    assert!(matches!(actions[1], DispatchAction::ForwardToInstances));
}

#[test]
fn location_events_rate_limited_within_window() {
    let mut d = LocationDebouncer::new();
    assert!(d.location_delay_completed(1, 100));
    assert!(!d.location_delay_completed(1, 120));
    assert!(!d.location_delay_completed(1, 150));
    assert!(d.location_delay_completed(1, 151));
}

#[test]
fn switching_target_resets_debounce_gate() {
    let mut d = LocationDebouncer::new();
    assert!(d.location_delay_completed(1, 100));
    assert!(d.location_delay_completed(2, 101));
    assert!(d.location_delay_completed(1, 102));
}

#[test]
fn first_location_event_always_processed() {
    let mut d = LocationDebouncer::new();
    assert!(d.location_delay_completed(77, 0));
}

#[test]
fn win_event_codes_translate() {
    assert_eq!(WinEvent::from_code(0x0003), WinEvent::SystemForeground);
    assert_eq!(WinEvent::from_code(0x8005), WinEvent::ObjectFocus);
    assert_eq!(WinEvent::from_code(0x800B), WinEvent::ObjectLocationChange);
    assert_eq!(WinEvent::from_code(0x8001), WinEvent::ObjectDestroy);
    assert_eq!(WinEvent::from_code(0xFFFF), WinEvent::Unknown);
}

#[test]
fn destroy_implies_foreground_synthetic() {
    let s = WinEvent::ObjectDestroy.get_synthetics();
    assert_eq!(s.len(), 1);
    assert_eq!(s[0], WinEvent::SystemForeground);
    assert!(WinEvent::ObjectNameChange.get_synthetics().is_empty());
}

#[test]
fn desktop_list_changes_reannounce_workspaces() {
    let ctx = VdContext {
        window_manager_enabled: true,
        window_exists: false,
        config_pinned: false,
        backend_pinned: false,
    };
    let actions = process_vd_event(
        &VdEvent::DesktopCreated { desktop: "d1".to_string() },
        ctx,
    );
    assert_eq!(actions.len(), 2);
    assert!(matches!(actions[0], VdAction::ForwardToWindowManager));
    assert!(matches!(actions[1], VdAction::EmitWorkspacesChanged));
}

#[test]
fn active_desktop_change_announces_identity() {
    let ctx = VdContext {
        window_manager_enabled: false,
        window_exists: false,
        config_pinned: false,
        backend_pinned: false,
    };
    let actions = process_vd_event(
        &VdEvent::DesktopChanged { new: "d2".to_string(), old: "d1".to_string() },
        ctx,
    );
    assert_eq!(actions.len(), 1);
    match &actions[0] {
        VdAction::EmitActiveWorkspaceChanged(id) => assert_eq!(id, "d2"),
        _ => panic!("expected the active-workspace announcement"),
    }
}

#[test]
fn pinned_window_reapplied_only_when_needed() {
    let base = VdContext {
        window_manager_enabled: false,
        window_exists: true,
        config_pinned: true,
        backend_pinned: false,
    };
    let actions = process_vd_event(&VdEvent::WindowChanged { window: 42 }, base);
    assert_eq!(actions.len(), 1);
    assert!(matches!(actions[0], VdAction::PinWindow(42)));

    let already = VdContext { backend_pinned: true, ..base };
    assert!(process_vd_event(&VdEvent::WindowChanged { window: 42 }, already).is_empty());

    let gone = VdContext { window_exists: false, ..base };
    assert!(process_vd_event(&VdEvent::WindowChanged { window: 42 }, gone).is_empty());

    let unpinned_config = VdContext { config_pinned: false, ..base };
    assert!(process_vd_event(&VdEvent::WindowChanged { window: 42 }, unpinned_config).is_empty());
}

#[test]
fn unhandled_vd_notifications_are_ignored() {
    let ctx = VdContext {
        window_manager_enabled: false,
        window_exists: true,
        config_pinned: true,
        backend_pinned: false,
    };
    assert!(process_vd_event(&VdEvent::Other, ctx).is_empty());
}
