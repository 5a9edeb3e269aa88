use notify_core::errors::NotifyError;
use notify_core::paths::resolve_lock_paths;

#[test]
fn resolves_fixed_layout_under_home() {
    let r = resolve_lock_paths(Some(String::from("/home/u"))).unwrap();
    assert_eq!(r.dir, "/home/u/.notify-lock");
    assert_eq!(r.file, "/home/u/.notify-lock/say.lock");
}

#[test]
fn missing_home_is_a_configuration_error() {
    let r = resolve_lock_paths(None);
    match r {
        Err(NotifyError::ConfigurationError(m)) => {
            assert_eq!(m, "HOME environment variable not set");
        }
        _ => panic!("expected a configuration error"),
    }
}

#[test]
fn resolution_is_deterministic_across_calls() {
    let a = resolve_lock_paths(Some(String::from("/home/u"))).unwrap();
    let b = resolve_lock_paths(Some(String::from("/home/u"))).unwrap();
    let c = resolve_lock_paths(Some(String::from("/home/u"))).unwrap();
    assert_eq!(a.dir, b.dir);
    assert_eq!(a.file, b.file);
    assert_eq!(b.file, c.file);
}

#[test]
fn different_homes_give_different_paths() {
    let a = resolve_lock_paths(Some(String::from("/home/u"))).unwrap();
    let b = resolve_lock_paths(Some(String::from("/home/v"))).unwrap();
    assert_ne!(a.file, b.file);
}

#[test]
fn error_message_rendering() {
    let e = NotifyError::ConfigurationError(String::from("HOME environment variable not set"));
    assert_eq!(
        e.message(),
        "configuration error: HOME environment variable not set"
    );
    let e = NotifyError::LockAcquisitionError(String::from("permission denied"));
    assert_eq!(e.message(), "lock acquisition error: permission denied");
    let e = NotifyError::BackendExecutionError(String::from("say: not found"));
    assert_eq!(e.message(), "backend execution error: say: not found");
    let e = NotifyError::SpawnError(String::from("exec failed"));
    assert_eq!(e.message(), "spawn error: exec failed");
}
