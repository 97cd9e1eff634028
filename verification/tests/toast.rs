use shellpad::ui::notification::{Toast, ToastManager, ToastSeverity};

#[test]
fn test_toast_add_and_retrieve() {
    let mut mgr = ToastManager::new();
    assert!(mgr.toasts.is_empty());

    mgr.add("Hello", ToastSeverity::Info);
    assert_eq!(mgr.toasts.len(), 1);
    assert_eq!(mgr.toasts[0].message, "Hello");
}

#[test]
fn test_toast_clean_expired_preserves_fresh() {
    let mut mgr = ToastManager::new();
    mgr.add("Fresh", ToastSeverity::Info);
    mgr.clean_expired();
    // fresh toasts are not removed
    assert_eq!(mgr.toasts.len(), 1);
}

#[test]
fn test_toast_severity_mapping() {
    let mut mgr = ToastManager::new();
    mgr.add("Info", ToastSeverity::Info);
    mgr.add("Success", ToastSeverity::Success);
    mgr.add("Error", ToastSeverity::Error);
    assert_eq!(mgr.toasts[0].severity, ToastSeverity::Info);
    assert_eq!(mgr.toasts[1].severity, ToastSeverity::Success);
    assert_eq!(mgr.toasts[2].severity, ToastSeverity::Error);
}

#[test]
fn retain_fresh_keeps_the_young_toasts_in_order() {
    let mut mgr = ToastManager::new();
    mgr.add("a", ToastSeverity::Info);
    mgr.add("b", ToastSeverity::Error);
    mgr.add("c", ToastSeverity::Success);
    mgr.retain_fresh(&vec![10, 3000, 2999]);
    assert_eq!(mgr.toasts.len(), 2);
    assert_eq!(mgr.toasts[0].message, "a");
    assert_eq!(mgr.toasts[1].message, "c");
}

#[test]
fn toast_new_keeps_message_and_severity() {
    let t = Toast::new("saved", ToastSeverity::Success);
    assert_eq!(t.message, "saved");
    assert_eq!(t.severity, ToastSeverity::Success);
}

#[test]
fn each_severity_has_its_icon() {
    assert_eq!(ToastSeverity::Success.icon(), "✓");
    assert_eq!(ToastSeverity::Error.icon(), "✕");
    assert_eq!(ToastSeverity::Info.icon(), "ℹ");
}
