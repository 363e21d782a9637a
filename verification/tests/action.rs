use std::sync::atomic::{AtomicUsize, Ordering};
use std::sync::Arc;
use tauri_plugin_nspopover::action::{
    Action, ClassSlot, TargetActionHandler, ACTION_CALLBACK_PTR, INVOKER_CLASS_NAME,
    INVOKER_SUPERCLASS_NAME, PERFORM_SELECTOR,
};
use tauri_plugin_nspopover::delegate::{
    application_should_terminate_after_last_window_closed, Ivars,
};

#[test]
fn class_slot_registers_once() {
    let mut slot: ClassSlot<u64> = ClassSlot::new();
    assert!(slot.needs_registration());
    assert_eq!(slot.get(), None);
    slot.store(42);
    assert!(!slot.needs_registration());
    assert_eq!(slot.get(), Some(&42));
}

#[test]
fn invoker_class_names() {
    assert_eq!(ACTION_CALLBACK_PTR, "rstTargetActionPtr");
    assert_eq!(INVOKER_CLASS_NAME, "RSTTargetActionHandler");
    assert_eq!(INVOKER_SUPERCLASS_NAME, "NSObject");
    assert_eq!(PERFORM_SELECTOR, "perform:");
}

#[test]
fn action_runs_its_callback() {
    let hits = Arc::new(AtomicUsize::new(0));
    let seen = hits.clone();
    let callback: Box<dyn Fn() + Send + Sync> = Box::new(move || {
        seen.fetch_add(1, Ordering::SeqCst);
    });
    let action = Action(callback);
    assert_eq!(action.debug_text(), "Action");
    (action.0)();
    (action.0)();
    assert_eq!(hits.load(Ordering::SeqCst), 2);
    let handler = TargetActionHandler {};
    assert_eq!(format!("{:?}", handler), "TargetActionHandler");
}

#[test]
fn delegate_ivars_defaults() {
    let ivars = Ivars::new(42, true);
    assert_eq!(ivars.ivar, 42);
    assert!(ivars.another_ivar);
    assert_eq!(*ivars.box_ivar, 2);
    assert!(ivars.maybe_box_ivar.is_none());
    assert_eq!(ivars.id_ivar, "abc");
    assert_eq!(ivars.maybe_id_ivar.as_deref(), Some("def"));
}

#[test]
fn delegate_keeps_app_running() {
    assert!(!application_should_terminate_after_last_window_closed());
}
