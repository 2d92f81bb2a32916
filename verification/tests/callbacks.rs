use plugin_bridge::callbacks::{
    clear_host_callbacks, get_host_callbacks, set_host_callbacks, CallbackRegistry,
};

#[derive(Clone, Copy, Debug, PartialEq)]
struct Table {
    tag: u32,
}

#[test]
fn lookup_of_an_unknown_instance_is_absent() {
    let registry: CallbackRegistry<Table> = CallbackRegistry::new();
    assert_eq!(get_host_callbacks(&registry, "A"), None);
}

#[test]
fn unregistering_one_instance_leaves_the_other() {
    let mut registry = CallbackRegistry::new();
    assert_eq!(set_host_callbacks(&mut registry, "A", Table { tag: 1 }), Ok(()));
    assert_eq!(set_host_callbacks(&mut registry, "B", Table { tag: 2 }), Ok(()));
    assert!(clear_host_callbacks(&mut registry, "A"));
    assert_eq!(get_host_callbacks(&registry, "A"), None);
    assert_eq!(get_host_callbacks(&registry, "B"), Some(Table { tag: 2 }));
}

#[test]
fn registering_again_overwrites() {
    let mut registry = CallbackRegistry::new();
    set_host_callbacks(&mut registry, "A", Table { tag: 1 }).unwrap();
    set_host_callbacks(&mut registry, "A", Table { tag: 7 }).unwrap();
    assert_eq!(get_host_callbacks(&registry, "A"), Some(Table { tag: 7 }));
}

#[test]
fn unregistering_reports_whether_an_entry_existed() {
    let mut registry = CallbackRegistry::new();
    assert!(!clear_host_callbacks(&mut registry, "A"));
    set_host_callbacks(&mut registry, "A", Table { tag: 1 }).unwrap();
    assert!(clear_host_callbacks(&mut registry, "A"));
    assert!(!clear_host_callbacks(&mut registry, "A"));
}
