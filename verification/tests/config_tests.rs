use reactor_core::config::{
    join_paths, key_names_path, normalize_paths, parse_i64, parse_toml_value, path_is_relative,
    Cli, ConfigEntry, ConfigExt, ConfigSection, ConfigTable, TomlValue,
};
use reactor_core::error::Error;

#[test]
fn config_ext_parses_section_key_value() {
    let ext = ConfigExt::from_str("node.chainspec_config_path=chainspec.toml").unwrap();
    assert_eq!(ext.section(), "node");
    assert_eq!(ext.key(), "chainspec_config_path");
    assert_eq!(ext.value(), "chainspec.toml");
}

#[test]
fn config_ext_section_may_contain_equals() {
    let ext = ConfigExt::from_str("a=b.c=d").unwrap();
    assert_eq!(ext.section(), "a=b");
    assert_eq!(ext.key(), "c");
    assert_eq!(ext.value(), "d");
}

#[test]
fn config_ext_value_may_contain_dots_and_equals() {
    let ext = ConfigExt::from_str("net.bind=127.0.0.1:34553=x").unwrap();
    assert_eq!(ext.section(), "net");
    assert_eq!(ext.key(), "bind");
    assert_eq!(ext.value(), "127.0.0.1:34553=x");
}

#[test]
fn config_ext_rejects_malformed_input() {
    assert!(ConfigExt::from_str("").is_none());
    assert!(ConfigExt::from_str("nodot=value").is_none());
    assert!(ConfigExt::from_str("a.b").is_none());
    assert!(ConfigExt::from_str(".key=value").is_none());
    assert!(ConfigExt::from_str("a.=value").is_none());
    assert!(ConfigExt::from_str("a.b=").is_none());
    assert!(ConfigExt::from_str("a=b.c").is_none());
}

#[test]
fn toml_values_parse_by_kind() {
    assert_eq!(parse_toml_value("42"), TomlValue::Integer(42));
    assert_eq!(parse_toml_value("-7"), TomlValue::Integer(-7));
    assert_eq!(parse_toml_value("+5"), TomlValue::Integer(5));
    assert_eq!(parse_toml_value("true"), TomlValue::Boolean(true));
    assert_eq!(parse_toml_value("false"), TomlValue::Boolean(false));
    assert_eq!(parse_toml_value("hello"), TomlValue::Str("hello".to_string()));
    assert_eq!(parse_toml_value(""), TomlValue::Str("".to_string()));
    assert_eq!(parse_toml_value("4 2"), TomlValue::Str("4 2".to_string()));
    assert_eq!(parse_toml_value("True"), TomlValue::Str("True".to_string()));
}

#[test]
fn integer_parsing_matches_sixty_four_bit_bounds() {
    assert_eq!(parse_i64("9223372036854775807"), Some(i64::MAX));
    assert_eq!(parse_i64("-9223372036854775808"), Some(i64::MIN));
    assert_eq!(parse_i64("9223372036854775808"), None);
    assert_eq!(parse_i64("-9223372036854775809"), None);
    assert_eq!(parse_i64("0"), Some(0));
    assert_eq!(parse_i64("007"), Some(7));
    assert_eq!(parse_i64(""), None);
    assert_eq!(parse_i64("-"), None);
    assert_eq!(parse_i64("+"), None);
    assert_eq!(parse_i64("12a"), None);
    assert_eq!(parse_i64("--4"), None);
    assert_eq!(
        parse_toml_value("9223372036854775808"),
        TomlValue::Str("9223372036854775808".to_string())
    );
}

#[test]
fn update_toml_table_inserts_and_overrides() {
    let mut table = ConfigTable::new();

    let ext = ConfigExt::from_str("node.verbosity=3").unwrap();
    ext.update_toml_table(&mut table);
    assert_eq!(table.sections.len(), 1);
    assert_eq!(table.sections[0].name, "node");
    assert_eq!(table.sections[0].entries.len(), 1);
    assert_eq!(table.sections[0].entries[0].key, "verbosity");
    assert_eq!(table.sections[0].entries[0].value, TomlValue::Integer(3));

    // A second key extends the same section.
    let ext2 = ConfigExt::from_str("node.no_color=true").unwrap();
    ext2.update_toml_table(&mut table);
    assert_eq!(table.sections.len(), 1);
    assert_eq!(table.sections[0].entries.len(), 2);
    assert_eq!(table.sections[0].entries[1].value, TomlValue::Boolean(true));

    // The same key is overridden in place.
    let ext3 = ConfigExt::from_str("node.verbosity=off").unwrap();
    ext3.update_toml_table(&mut table);
    assert_eq!(table.sections[0].entries.len(), 2);
    assert_eq!(table.sections[0].entries[0].value, TomlValue::Str("off".to_string()));

    // Another section is created on demand.
    let ext4 = ConfigExt::from_str("storage.path=data").unwrap();
    ext4.update_toml_table(&mut table);
    assert_eq!(table.sections.len(), 2);
    assert_eq!(table.sections[1].name, "storage");
}

#[test]
fn path_keys_are_recognized() {
    assert!(key_names_path("chainspec_config_path"));
    assert!(key_names_path("path"));
    assert!(!key_names_path("pat"));
    assert!(!key_names_path("size"));
    assert!(!key_names_path("pathology"));
}

#[test]
fn relative_paths_are_joined_onto_the_root() {
    assert!(path_is_relative("data/storage"));
    assert!(!path_is_relative("/var/lib/node"));
    assert!(path_is_relative(""));
    assert_eq!(join_paths("/etc/node", "chainspec.toml"), "/etc/node/chainspec.toml");

    let mut table = ConfigTable {
        sections: vec![ConfigSection {
            name: "node".to_string(),
            entries: vec![
                ConfigEntry {
                    key: "chainspec_config_path".to_string(),
                    value: TomlValue::Str("chainspec.toml".to_string()),
                },
                ConfigEntry {
                    key: "storage_path".to_string(),
                    value: TomlValue::Str("/var/lib/node".to_string()),
                },
                ConfigEntry { key: "verbosity".to_string(), value: TomlValue::Integer(3) },
                ConfigEntry {
                    key: "name".to_string(),
                    value: TomlValue::Str("relative/but-not-a-path-key".to_string()),
                },
            ],
        }],
    };
    normalize_paths(&mut table, "/etc/node");
    let entries = &table.sections[0].entries;
    assert_eq!(entries[0].value, TomlValue::Str("/etc/node/chainspec.toml".to_string()));
    assert_eq!(entries[1].value, TomlValue::Str("/var/lib/node".to_string()));
    assert_eq!(entries[2].value, TomlValue::Integer(3));
    assert_eq!(
        entries[3].value,
        TomlValue::Str("relative/but-not-a-path-key".to_string())
    );
}

#[test]
fn error_kinds_classify_and_describe() {
    let metrics = Error::Metrics("registry".to_string());
    assert!(!metrics.is_fatal());
    assert!(!metrics.is_invariant_violation());
    assert_eq!(metrics.kind_name(), "prometheus (metrics) error");

    let storage = Error::Storage("corrupt database".to_string());
    assert!(storage.is_fatal());
    assert!(!storage.is_invariant_violation());
    assert_eq!(storage.kind_name(), "storage error");
    assert_eq!(storage.description(), "storage error: corrupt database");

    let consensus = Error::Consensus("highway".to_string());
    assert!(consensus.is_fatal());
    assert_eq!(consensus.kind_name(), "consensus error");
}

#[test]
fn cli_commands_carry_their_arguments() {
    let cli = Cli::Validator {
        config: Some("/etc/node/config.toml".to_string()),
        config_ext: vec![ConfigExt::from_str("node.verbosity=3").unwrap()],
    };
    match cli {
        Cli::Validator { config, config_ext } => {
            assert_eq!(config.as_deref(), Some("/etc/node/config.toml"));
            assert_eq!(config_ext.len(), 1);
            assert_eq!(config_ext[0].section(), "node");
        }
        _ => panic!("expected the validator command"),
    }
    let gen = Cli::GenerateCert { output: "node-cert".to_string() };
    assert!(matches!(gen, Cli::GenerateCert { .. }));
    assert!(matches!(Cli::GenerateConfig {}, Cli::GenerateConfig {}));
}
