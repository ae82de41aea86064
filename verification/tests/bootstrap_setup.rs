use truckercore_shell::bootstrap::{
    on_file_drop, on_update_available, plan_setup, DropResponse, SurfacePolicy,
};
use truckercore_shell::role::Role;

#[test]
fn surface_present_plans_navigation_and_both_handlers() {
    let plan = plan_setup(Role::FleetManager, true, SurfacePolicy::Strict).unwrap();
    assert_eq!(
        plan.navigate_to.as_deref(),
        Some("https://app.truckercore.com/desktop?role=fleet-manager")
    );
    assert!(plan.suppress_file_drops);
    assert!(plan.watch_for_updates);
}

#[test]
fn surface_present_same_plan_under_either_policy() {
    let strict = plan_setup(Role::TruckStop, true, SurfacePolicy::Strict).unwrap();
    let degrade = plan_setup(Role::TruckStop, true, SurfacePolicy::Degrade).unwrap();
    assert_eq!(strict.navigate_to, degrade.navigate_to);
    assert_eq!(strict.suppress_file_drops, degrade.suppress_file_drops);
    assert_eq!(strict.watch_for_updates, degrade.watch_for_updates);
}

#[test]
fn strict_mode_aborts_without_surface_before_any_navigation() {
    let r = plan_setup(Role::Generic, false, SurfacePolicy::Strict);
    match r {
        Ok(_) => panic!("strict setup must abort when the main surface is missing"),
        Err(diagnostic) => {
            assert_eq!(diagnostic, "main surface not available at startup");
        }
    }
}

#[test]
fn degrade_mode_skips_navigation_but_keeps_update_handler() {
    let plan = plan_setup(Role::OwnerOperator, false, SurfacePolicy::Degrade).unwrap();
    assert_eq!(plan.navigate_to, None);
    assert!(!plan.suppress_file_drops);
    assert!(plan.watch_for_updates);
}

#[test]
fn file_drop_is_always_suppressed() {
    for _ in 0..10 {
        assert!(matches!(on_file_drop(), DropResponse::Suppress));
    }
}

#[test]
fn update_firing_renders_one_notice_while_surface_lives() {
    let notice = on_update_available(true).expect("a live surface must get a notice");
    assert_eq!(notice.title, "Update");
    assert_eq!(notice.message, "A new version is available. Downloading\u{2026}");
}

#[test]
fn repeated_update_firings_are_not_deduplicated() {
    let mut rendered: usize = 0;
    for _ in 0..5 {
        if on_update_available(true).is_some() {
            rendered += 1;
        }
    }
    assert_eq!(rendered, 5);
}

#[test]
fn update_firing_with_dead_surface_is_dropped_silently() {
    assert!(on_update_available(false).is_none());
    let mut rendered: usize = 0;
    for _ in 0..5 {
        if on_update_available(false).is_some() {
            rendered += 1;
        }
    }
    assert_eq!(rendered, 0);
}
