use zumito::registry::{ConfigError, Registry, Resource};

#[test]
fn fresh_registry_holds_nothing() {
    let registry = Registry::new();
    assert!(!registry.holds(Resource::Motors));
    assert!(!registry.holds(Resource::Sensors));
}

#[test]
fn each_resource_is_handed_out_once() {
    for resource in [Resource::Motors, Resource::Sensors] {
        let mut registry = Registry::new();
        assert_eq!(registry.register(resource), Ok(()));
        assert!(registry.holds(resource));
        assert_eq!(registry.register(resource), Err(ConfigError::AlreadyRegistered(resource)));
        assert_eq!(registry.register(resource), Err(ConfigError::AlreadyRegistered(resource)));
        assert!(registry.holds(resource));
    }
}

#[test]
fn resources_are_independent() {
    let mut registry = Registry::new();
    assert_eq!(registry.register(Resource::Sensors), Ok(()));
    assert!(!registry.holds(Resource::Motors));
    assert_eq!(registry.register(Resource::Motors), Ok(()));
    assert_eq!(
        registry.register(Resource::Sensors),
        Err(ConfigError::AlreadyRegistered(Resource::Sensors))
    );
    assert_eq!(
        registry.register(Resource::Motors),
        Err(ConfigError::AlreadyRegistered(Resource::Motors))
    );
}
