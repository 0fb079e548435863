use flightctl::kubeenv::{
    Container, EnvFromSource, EnvVar, EnvVarSource, KeyRef, ResolvedValue,
};
use flightctl::kubeenv;

fn resolver() -> kubeenv::Resolver {
    kubeenv::new(
        vec![(
            String::from("settings"),
            vec![
                (String::from("LOG_LEVEL"), String::from("info")),
                (String::from("PORT"), String::from("8080")),
            ],
        )],
        vec![(
            String::from("credentials"),
            vec![(String::from("API_KEY"), String::from("SECRET-REDACTED"))],
        )],
    )
}

#[test]
fn literal_values_stay_pod_values() {
    let container = Container {
        name: String::from("main"),
        env: vec![EnvVar {
            name: String::from("MODE"),
            value: Some(String::from("production")),
            value_from: None,
        }],
        env_from: vec![],
    };
    let vars = resolver().resolve(&container);
    assert_eq!(vars.len(), 1);
    assert_eq!(vars[0].name, "MODE");
    match &vars[0].value {
        ResolvedValue::Pod { value } => assert_eq!(value.as_deref(), Some("production")),
        _ => panic!("expected a pod value"),
    }
}

#[test]
fn config_map_references_carry_the_looked_up_value() {
    let container = Container {
        name: String::from("main"),
        env: vec![
            EnvVar {
                name: String::from("LOG"),
                value: None,
                value_from: Some(EnvVarSource {
                    config_map_key_ref: Some(KeyRef {
                        name: Some(String::from("settings")),
                        key: String::from("LOG_LEVEL"),
                    }),
                    field_ref: None,
                }),
            },
            EnvVar {
                name: String::from("MISSING"),
                value: None,
                value_from: Some(EnvVarSource {
                    config_map_key_ref: Some(KeyRef {
                        name: Some(String::from("settings")),
                        key: String::from("ABSENT"),
                    }),
                    field_ref: None,
                }),
            },
            EnvVar {
                name: String::from("ANON"),
                value: None,
                value_from: Some(EnvVarSource {
                    config_map_key_ref: Some(KeyRef { name: None, key: String::from("K") }),
                    field_ref: None,
                }),
            },
        ],
        env_from: vec![],
    };
    let vars = resolver().resolve(&container);
    assert_eq!(vars.len(), 3);
    match &vars[0].value {
        ResolvedValue::ConfigMapKeyRef { config_map, key, value } => {
            assert_eq!(config_map, "settings");
            assert_eq!(key, "LOG_LEVEL");
            assert_eq!(value.as_deref(), Some("info"));
        }
        _ => panic!("expected a config map reference"),
    }
    match &vars[1].value {
        ResolvedValue::ConfigMapKeyRef { value, .. } => assert_eq!(*value, None),
        _ => panic!("expected a config map reference"),
    }
    match &vars[2].value {
        ResolvedValue::ConfigMapKeyRef { config_map, value, .. } => {
            assert_eq!(config_map, "null");
            assert_eq!(*value, None);
        }
        _ => panic!("expected a config map reference"),
    }
}

#[test]
fn field_references_keep_their_path() {
    let container = Container {
        name: String::from("main"),
        env: vec![EnvVar {
            name: String::from("POD_IP"),
            value: None,
            value_from: Some(EnvVarSource {
                config_map_key_ref: None,
                field_ref: Some(String::from("status.podIP")),
            }),
        }],
        env_from: vec![],
    };
    let vars = resolver().resolve(&container);
    match &vars[0].value {
        ResolvedValue::FieldRef { path } => assert_eq!(path, "status.podIP"),
        _ => panic!("expected a field reference"),
    }
}

#[test]
fn imports_append_whole_resources_in_order() {
    let container = Container {
        name: String::from("main"),
        env: vec![],
        env_from: vec![
            EnvFromSource { config_map: Some(String::from("settings")), secret: None },
            EnvFromSource { config_map: None, secret: Some(String::from("credentials")) },
            EnvFromSource { config_map: None, secret: None },
        ],
    };
    let vars = resolver().resolve(&container);
    assert_eq!(vars.len(), 3);
    assert_eq!(vars[0].name, "LOG_LEVEL");
    match &vars[0].value {
        ResolvedValue::ConfigMapKeyRef { config_map, key, value } => {
            assert_eq!(config_map, "settings");
            assert_eq!(key, "LOG_LEVEL");
            assert_eq!(value.as_deref(), Some("info"));
        }
        _ => panic!("expected a config map reference"),
    }
    assert_eq!(vars[1].name, "PORT");
    assert_eq!(vars[2].name, "API_KEY");
    // secret values are withheld, only named
    match &vars[2].value {
        ResolvedValue::SecretKeyRef { secret, key } => {
            assert_eq!(secret, "credentials");
            assert_eq!(key, "API_KEY");
        }
        _ => panic!("expected a secret reference"),
    }
}

#[test]
fn unfetched_imports_contribute_nothing() {
    let container = Container {
        name: String::from("main"),
        env: vec![],
        env_from: vec![EnvFromSource {
            config_map: Some(String::from("not-fetched")),
            secret: None,
        }],
    };
    let vars = resolver().resolve(&container);
    assert_eq!(vars.len(), 0);
}

#[test]
fn reference_collection_lists_the_referenced_names() {
    let container = Container {
        name: String::from("main"),
        env: vec![EnvVar {
            name: String::from("LOG"),
            value: None,
            value_from: Some(EnvVarSource {
                config_map_key_ref: Some(KeyRef {
                    name: Some(String::from("settings")),
                    key: String::from("LOG_LEVEL"),
                }),
                field_ref: None,
            }),
        }],
        env_from: vec![
            EnvFromSource { config_map: Some(String::from("extra")), secret: None },
            EnvFromSource { config_map: None, secret: Some(String::from("credentials")) },
        ],
    };
    assert_eq!(container.config_map_refs(), vec!["settings", "extra"]);
    assert_eq!(container.secret_refs(), vec!["credentials"]);
}

#[test]
fn lookup_takes_the_first_entry_under_a_key() {
    let res = kubeenv::new(
        vec![(
            String::from("dup"),
            vec![
                (String::from("K"), String::from("first")),
                (String::from("K"), String::from("second")),
            ],
        )],
        vec![],
    );
    assert_eq!(
        res.lookup_config_map_key(&String::from("dup"), &String::from("K")).as_deref(),
        Some("first")
    );
    assert_eq!(res.lookup_config_map_key(&String::from("dup"), &String::from("X")), None);
    assert_eq!(res.lookup_config_map_key(&String::from("other"), &String::from("K")), None);
}
