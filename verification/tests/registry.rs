use linkcast::registry::{IfCard, InterfaceRegistry, UnknownInterfaceId};

fn device_names() -> Vec<String> {
    vec![String::from("lo"), String::from("eth0"), String::from("wlan0")]
}

#[test]
fn identifiers_follow_the_enumeration() {
    let registry = InterfaceRegistry::from_names(&device_names());
    assert_eq!(registry.len(), 3);
    assert_eq!(
        registry.cards(),
        &vec![
            IfCard { id: 0, name: String::from("lo") },
            IfCard { id: 1, name: String::from("eth0") },
            IfCard { id: 2, name: String::from("wlan0") },
        ]
    );
}

#[test]
fn resolve_gives_the_name_at_the_identifier() {
    let registry = InterfaceRegistry::from_names(&device_names());
    assert_eq!(registry.resolve(0), Ok(String::from("lo")));
    assert_eq!(registry.resolve(1), Ok(String::from("eth0")));
    assert_eq!(registry.resolve(2), Ok(String::from("wlan0")));
}

#[test]
fn resolve_refuses_an_unknown_identifier() {
    let registry = InterfaceRegistry::from_names(&device_names());
    assert_eq!(registry.resolve(3), Err(UnknownInterfaceId { id: 3 }));
    assert_eq!(registry.resolve(usize::MAX), Err(UnknownInterfaceId { id: usize::MAX }));
}

#[test]
fn empty_registry_resolves_nothing() {
    let registry = InterfaceRegistry::from_names(&Vec::new());
    assert_eq!(registry.len(), 0);
    assert!(registry.cards().is_empty());
    assert_eq!(registry.resolve(0), Err(UnknownInterfaceId { id: 0 }));
}

#[test]
fn devices_of_one_name_keep_their_own_identifiers() {
    let names = vec![String::from("any"), String::from("any")];
    let registry = InterfaceRegistry::from_names(&names);
    assert_eq!(registry.cards()[0].id, 0);
    assert_eq!(registry.cards()[1].id, 1);
    assert_eq!(registry.resolve(1), Ok(String::from("any")));
}
