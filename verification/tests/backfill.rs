use robjetives_config::{BackFillable, Config, ConfigApp, ConfigError};

fn defaults() -> Config {
    Config {
        name: Some("default".to_string()),
        url: Some("http://localhost:3125".to_string()),
        user: Some("root".to_string()),
        password: Some("guide-post-hk".to_string()),
        retry: Some(5),
        app: Some(ConfigApp {
            name: Some("test-app".to_string()),
            license: Some("MIT".to_string()),
        }),
    }
}

fn partial_target() -> Config {
    Config {
        name: Some("fancy-app-mysql".to_string()),
        url: None,
        user: Some("deborah".to_string()),
        password: None,
        retry: None,
        app: Some(ConfigApp {
            name: None,
            license: Some("AGPL-3.0".to_string()),
        }),
    }
}

#[test]
fn back_fill_fills_every_unset_field_from_the_source() {
    let mut target = partial_target();
    target.back_fill(&defaults()).unwrap();

    assert_eq!(target.name.as_deref(), Some("fancy-app-mysql"));
    assert_eq!(target.url.as_deref(), Some("http://localhost:3125"));
    assert_eq!(target.user.as_deref(), Some("deborah"));
    assert_eq!(target.password.as_deref(), Some("guide-post-hk"));
    assert_eq!(target.retry, Some(5));

    let app = target.app.as_ref().unwrap();
    assert_eq!(app.name.as_deref(), Some("test-app"));
    assert_eq!(app.license.as_deref(), Some("AGPL-3.0"));
}

#[test]
fn concrete_back_fill_scenario() {
    let mut target = Config {
        name: None,
        url: None,
        user: None,
        password: None,
        retry: None,
        app: Some(ConfigApp {
            name: None,
            license: Some("AGPL-3.0".to_string()),
        }),
    };
    let source = Config {
        name: Some("default".to_string()),
        url: Some("http://x".to_string()),
        user: None,
        password: None,
        retry: None,
        app: Some(ConfigApp {
            name: Some("base-app".to_string()),
            license: Some("MIT".to_string()),
        }),
    };
    target.back_fill(&source).unwrap();

    assert_eq!(target.name.as_deref(), Some("default"));
    assert_eq!(target.url.as_deref(), Some("http://x"));
    assert_eq!(target.user, None);
    assert_eq!(target.password, None);
    let app = target.app.as_ref().unwrap();
    assert_eq!(app.name.as_deref(), Some("base-app"));
    assert_eq!(app.license.as_deref(), Some("AGPL-3.0"));
}

#[test]
fn back_fill_twice_equals_back_fill_once() {
    let source = defaults();

    let mut once = partial_target();
    once.back_fill(&source).unwrap();

    let mut twice = partial_target();
    twice.back_fill(&source).unwrap();
    twice.back_fill(&source).unwrap();

    assert_eq!(once, twice);
}

#[test]
fn set_fields_are_never_overwritten() {
    let mut target = defaults();
    let source = Config {
        name: Some("other".to_string()),
        url: Some("http://other".to_string()),
        user: Some("guest".to_string()),
        password: Some("nope".to_string()),
        retry: Some(9),
        app: Some(ConfigApp {
            name: Some("other-app".to_string()),
            license: Some("Apache-2.0".to_string()),
        }),
    };
    target.back_fill(&source).unwrap();
    assert_eq!(target, defaults());
}

#[test]
fn unset_nested_record_is_copied_by_value() {
    let mut target = Config {
        name: None,
        url: None,
        user: None,
        password: None,
        retry: None,
        app: None,
    };
    let source = Config {
        name: None,
        url: None,
        user: None,
        password: None,
        retry: None,
        app: Some(ConfigApp {
            name: Some("MIT-app".to_string()),
            license: Some("MIT".to_string()),
        }),
    };
    target.back_fill(&source).unwrap();
    assert_eq!(target.app, source.app);

    // Mutating the target's nested record afterwards must not change
    // the source's: the copy is by value, not by aliasing.
    target.app.as_mut().unwrap().license = Some("Apache-2.0".to_string());
    assert_eq!(source.app.as_ref().unwrap().license.as_deref(), Some("MIT"));
}

#[test]
fn missing_nested_default_is_an_error_and_leaves_the_target_untouched() {
    let mut target = Config {
        name: None,
        url: Some("http://x".to_string()),
        user: None,
        password: None,
        retry: None,
        app: None,
    };
    let source = Config {
        name: Some("default".to_string()),
        url: None,
        user: None,
        password: None,
        retry: Some(3),
        app: None,
    };
    let before = target.clone();
    assert_eq!(target.back_fill(&source), Err(ConfigError::MissingDefault));
    assert_eq!(target, before);
}

#[test]
fn missing_nested_default_is_an_error_even_when_the_target_nested_record_is_set() {
    let mut target = partial_target();
    let mut source = defaults();
    source.app = None;
    let before = target.clone();
    assert_eq!(target.back_fill(&source), Err(ConfigError::MissingDefault));
    assert_eq!(target, before);
}

#[test]
fn nested_record_back_fill_fills_only_unset_fields() {
    let mut app = ConfigApp {
        name: None,
        license: Some("AGPL-3.0".to_string()),
    };
    let from = ConfigApp {
        name: Some("base-app".to_string()),
        license: Some("MIT".to_string()),
    };
    app.back_fill(&from).unwrap();
    assert_eq!(app.name.as_deref(), Some("base-app"));
    assert_eq!(app.license.as_deref(), Some("AGPL-3.0"));
}

#[test]
fn unset_source_scalars_leave_unset_target_scalars_unset() {
    let mut target = Config {
        name: None,
        url: None,
        user: None,
        password: None,
        retry: None,
        app: None,
    };
    let source = Config {
        name: None,
        url: None,
        user: None,
        password: None,
        retry: None,
        app: Some(ConfigApp { name: None, license: None }),
    };
    target.back_fill(&source).unwrap();
    assert_eq!(target.name, None);
    assert_eq!(target.retry, None);
    assert_eq!(target.app, source.app);
}
