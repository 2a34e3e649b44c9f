use hake::errors::Error;
use hake::registry::is_valid_name;
use hake::reconcile::{clean, find_orphans};
use hake::registry::{ClusterRecord, Registry};

fn complete(name: &str, handle: &str, cfg: &[u8]) -> ClusterRecord {
    ClusterRecord {
        name: name.to_string(),
        handle: Some(handle.to_string()),
        kubeconfig: Some(cfg.to_vec()),
    }
}

#[test]
fn create_rejects_duplicate_name_with_state_error() {
    let mut reg = Registry::new();
    assert!(reg.begin_create(&"demo".to_string()).is_ok());
    let second = reg.begin_create(&"demo".to_string());
    assert!(matches!(second, Err(Error::StateError(_))));
    // the registry is untouched by the refused call
    assert_eq!(reg.names(), vec!["demo".to_string()]);
}

#[test]
fn create_then_delete_leaves_no_entry() {
    let mut reg = Registry::new();
    let name = "demo".to_string();
    assert!(reg.begin_create(&name).is_ok());
    assert!(reg.finish_create(&name, "abc123".to_string(), b"KCFG".to_vec()).is_ok());
    let removed = reg.remove(&name).unwrap();
    assert_eq!(removed.name, "demo");
    assert_eq!(removed.handle.as_deref(), Some("abc123"));
    assert!(!reg.contains(&name));
    assert!(reg.names().is_empty());
}

#[test]
fn delete_of_unknown_name_is_state_error() {
    let mut reg = Registry::new();
    assert!(matches!(reg.remove(&"ghost".to_string()), Err(Error::StateError(_))));
}

#[test]
fn kubeconfig_read_is_idempotent() {
    let mut reg = Registry::new();
    let name = "demo".to_string();
    reg.begin_create(&name).unwrap();
    reg.finish_create(&name, "abc123".to_string(), b"KCFG".to_vec()).unwrap();
    let first = reg.get_kubeconfig(&name).unwrap().clone();
    let second = reg.get_kubeconfig(&name).unwrap().clone();
    assert_eq!(first, second);
    assert_eq!(first, b"KCFG".to_vec());
}

#[test]
fn kubeconfig_of_unknown_name_is_state_error() {
    let reg = Registry::new();
    assert!(matches!(reg.get_kubeconfig(&"ghost".to_string()), Err(Error::StateError(_))));
}

#[test]
fn kubeconfig_of_partial_record_is_filesystem_error() {
    let mut reg = Registry::new();
    reg.begin_create(&"demo".to_string()).unwrap();
    let r = reg.get_kubeconfig(&"demo".to_string());
    assert!(matches!(r, Err(Error::FilesystemError(_))));
}

#[test]
fn handle_of_partial_record_is_filesystem_error() {
    let mut reg = Registry::new();
    reg.begin_create(&"demo".to_string()).unwrap();
    assert!(matches!(reg.get_handle(&"demo".to_string()), Err(Error::FilesystemError(_))));
    assert!(matches!(reg.get_handle(&"ghost".to_string()), Err(Error::StateError(_))));
}

#[test]
fn scenario_create_demo_persists_handle_and_kubeconfig() {
    let mut reg = Registry::new();
    let name = "demo".to_string();
    reg.begin_create(&name).unwrap();
    reg.finish_create(&name, "abc123".to_string(), b"KCFG".to_vec()).unwrap();
    assert_eq!(reg.get_handle(&name).unwrap(), "abc123");
    assert_eq!(reg.get_kubeconfig(&name).unwrap(), &b"KCFG".to_vec());
    assert_eq!(reg.names(), vec!["demo".to_string()]);
}

#[test]
fn clean_force_removes_exactly_the_orphans() {
    let mut reg = Registry::new();
    reg.insert(complete("A", "A", b"ka")).unwrap();
    reg.insert(complete("B", "B", b"kb")).unwrap();
    reg.insert(complete("C", "C", b"kc")).unwrap();
    let live = vec!["B".to_string()];

    // dry run: reports A and C, removes nothing
    let reported = clean(&mut reg, &live, false);
    assert_eq!(reported, vec!["A".to_string(), "C".to_string()]);
    assert_eq!(reg.names(), vec!["A".to_string(), "B".to_string(), "C".to_string()]);

    // force: removes exactly A and C, leaves B untouched
    let removed = clean(&mut reg, &live, true);
    assert_eq!(removed, vec!["A".to_string(), "C".to_string()]);
    assert_eq!(reg.names(), vec!["B".to_string()]);
    assert_eq!(reg.get_kubeconfig(&"B".to_string()).unwrap(), &b"kb".to_vec());
}

#[test]
fn partially_created_entry_is_an_orphan_even_when_its_handle_is_live() {
    // remote creation succeeded, but kubeconfig persistence failed
    let mut reg = Registry::new();
    reg.insert(ClusterRecord {
        name: "demo".to_string(),
        handle: Some("abc123".to_string()),
        kubeconfig: None,
    })
    .unwrap();
    let live = vec!["abc123".to_string()];
    let orphans = find_orphans(&reg, &live);
    assert_eq!(orphans, vec!["demo".to_string()]);
}

#[test]
fn name_validity() {
    assert!(is_valid_name("demo"));
    assert!(is_valid_name("demo-2.test_a"));
    assert!(!is_valid_name(""));
    assert!(!is_valid_name("."));
    assert!(!is_valid_name(".."));
    assert!(!is_valid_name("a/b"));
    assert!(!is_valid_name("a b"));
}

#[test]
fn entry_with_no_handle_is_an_orphan() {
    let mut reg = Registry::new();
    reg.begin_create(&"demo".to_string()).unwrap();
    let orphans = find_orphans(&reg, &vec!["demo".to_string()]);
    assert_eq!(orphans, vec!["demo".to_string()]);
}
