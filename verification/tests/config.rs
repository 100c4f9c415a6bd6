use hercules::{CommandError, ConfigManager, HerculesConfig, Property, PropertyError, SensorConfig};

fn set(config: &mut HerculesConfig, property: &str, value: &str) -> Result<(), PropertyError> {
    ConfigManager::set_property(config, property, value)
}

fn words(line: &[&str]) -> Vec<String> {
    line.iter().map(|w| w.to_string()).collect()
}

fn manager() -> ConfigManager {
    ConfigManager::new("/tmp/hercules.toml".to_string(), None)
}

const SWITCHES: [&str; 10] = [
    "show_cpu",
    "show_memory",
    "show_disk",
    "show_network",
    "show_processes",
    "continuous",
    "show_compact_mode",
    "show_installer",
    "show_sensors",
    "sensor_use_celsius",
];

fn switch_of(config: &HerculesConfig, property: &str) -> bool {
    match property {
        "show_cpu" => config.show_cpu,
        "show_memory" => config.show_memory,
        "show_disk" => config.show_disk,
        "show_network" => config.show_network,
        "show_processes" => config.show_processes,
        "continuous" => config.continuous,
        "show_compact_mode" => config.show_compact_mode,
        "show_installer" => config.show_installer,
        "show_sensors" => config.show_sensors,
        "sensor_use_celsius" => config.sensor_config.use_celsius,
        other => panic!("not a switch: {}", other),
    }
}

#[test]
fn default_settings() {
    let config = HerculesConfig::default();
    assert_eq!(config.update_interval_ms, 1000);
    assert!(config.show_cpu);
    assert!(config.show_memory);
    assert!(config.show_disk);
    assert!(config.show_network);
    assert!(!config.show_processes);
    assert_eq!(config.max_processes, 10);
    assert!(config.continuous);
    assert!(!config.show_compact_mode);
    assert!(!config.show_installer);
    assert!(!config.show_sensors);
    assert_eq!(
        config.sensor_config,
        SensorConfig { enabled: false, update_interval_ms: 100, use_celsius: true }
    );
    assert_eq!(config.sensor_config, SensorConfig::default());
}

#[test]
fn manager_starts_from_defaults_without_a_file() {
    let manager = manager();
    assert_eq!(*manager.get_config(), HerculesConfig::default());
    assert_eq!(manager.config_path(), "/tmp/hercules.toml");
}

#[test]
fn manager_keeps_what_the_file_held() {
    let mut stored = HerculesConfig::default();
    stored.max_processes = 42;
    stored.show_processes = true;
    let manager = ConfigManager::new("hercules.toml".to_string(), Some(stored));
    assert_eq!(*manager.get_config(), stored);
}

#[test]
fn set_update_interval() {
    let mut config = HerculesConfig::default();
    assert!(set(&mut config, "update_interval_ms", "500").is_ok());
    let mut expected = HerculesConfig::default();
    expected.update_interval_ms = 500;
    assert_eq!(config, expected);
}

#[test]
fn set_max_processes() {
    let mut config = HerculesConfig::default();
    assert!(set(&mut config, "max_processes", "15").is_ok());
    let mut expected = HerculesConfig::default();
    expected.max_processes = 15;
    assert_eq!(config, expected);
}

#[test]
fn set_sensor_update_interval() {
    let mut config = HerculesConfig::default();
    assert!(set(&mut config, "sensor_update_interval_ms", "25").is_ok());
    let mut expected = HerculesConfig::default();
    expected.sensor_config.update_interval_ms = 25;
    assert_eq!(config, expected);
}

#[test]
fn numbers_may_carry_a_plus_sign_and_leading_zeros() {
    let mut config = HerculesConfig::default();
    assert!(set(&mut config, "update_interval_ms", "+250").is_ok());
    assert_eq!(config.update_interval_ms, 250);
    assert!(set(&mut config, "update_interval_ms", "0007").is_ok());
    assert_eq!(config.update_interval_ms, 7);
    assert!(set(&mut config, "update_interval_ms", "18446744073709551615").is_ok());
    assert_eq!(config.update_interval_ms, u64::MAX);
    assert!(set(&mut config, "update_interval_ms", "0").is_ok());
    assert_eq!(config.update_interval_ms, 0);
}

#[test]
fn malformed_numbers_are_rejected_and_change_nothing() {
    for value in [
        "", "+", "-", "-5", "-0", "12a", " 12", "12 ", "1_000", "1.5", "0x10", "1e3",
        "18446744073709551616", "99999999999999999999999", "++1", "+-1", "1+", "١٢٣", "１２",
    ] {
        for property in [Property::UpdateIntervalMs, Property::SensorUpdateIntervalMs] {
            let mut config = HerculesConfig::default();
            match set(&mut config, property.name(), value) {
                Err(PropertyError::InvalidNumber { property: culprit }) => assert_eq!(culprit, property),
                other => panic!("{:?} accepted as {:?}: {:?}", value, property, other),
            }
            assert_eq!(config, HerculesConfig::default());
        }
    }
    let mut config = HerculesConfig::default();
    match set(&mut config, "max_processes", "many") {
        Err(PropertyError::InvalidNumber { property }) => assert_eq!(property, Property::MaxProcesses),
        other => panic!("unexpected outcome: {:?}", other),
    }
    assert_eq!(config, HerculesConfig::default());
}

#[test]
fn every_switch_can_be_set_both_ways() {
    for property in SWITCHES {
        for (value, on) in [("true", true), ("false", false)] {
            let mut config = HerculesConfig::default();
            assert!(set(&mut config, property, value).is_ok(), "{}", property);
            assert_eq!(switch_of(&config, property), on, "{}", property);
            let untouched: Vec<&str> = SWITCHES.iter().copied().filter(|p| *p != property).collect();
            for other in untouched {
                assert_eq!(
                    switch_of(&config, other),
                    switch_of(&HerculesConfig::default(), other),
                    "{} changed {}",
                    property,
                    other
                );
            }
            assert_eq!(config.update_interval_ms, 1000);
            assert_eq!(config.max_processes, 10);
            assert_eq!(config.sensor_config.update_interval_ms, 100);
            if property == "show_sensors" {
                assert_eq!(config.sensor_config.enabled, on);
            } else {
                assert!(!config.sensor_config.enabled);
            }
        }
    }
}

#[test]
fn showing_sensors_enables_acquisition() {
    let mut config = HerculesConfig::default();
    assert!(set(&mut config, "show_sensors", "on").is_ok());
    assert!(config.show_sensors);
    assert!(config.sensor_config.enabled);
    assert!(set(&mut config, "show_sensors", "off").is_ok());
    assert!(!config.show_sensors);
    assert!(!config.sensor_config.enabled);
}

#[test]
fn switch_keywords() {
    for word in ["true", "1", "yes", "on", "enable", "enabled"] {
        assert_eq!(ConfigManager::parse_bool(word).unwrap(), true, "{}", word);
    }
    for word in ["false", "0", "no", "off", "disable", "disabled"] {
        assert_eq!(ConfigManager::parse_bool(word).unwrap(), false, "{}", word);
    }
}

#[test]
fn switch_keywords_in_any_case() {
    for word in ["TRUE", "True", "YES", "On", "ENABLE", "Enabled"] {
        assert_eq!(ConfigManager::parse_bool(word).unwrap(), true, "{}", word);
    }
    for word in ["FALSE", "False", "NO", "oFF", "DISABLE", "Disabled"] {
        assert_eq!(ConfigManager::parse_bool(word).unwrap(), false, "{}", word);
    }
}

#[test]
fn other_words_are_no_switch() {
    for word in ["", "2", "y", "n", "tru", "truee", " true", "true ", "t", "maybe", "enables"] {
        match ConfigManager::parse_bool(word) {
            Err(PropertyError::InvalidBoolean { value }) => assert_eq!(value, word),
            other => panic!("{:?} accepted: {:?}", word, other),
        }
    }
}

#[test]
fn bad_switch_value_changes_nothing() {
    let mut config = HerculesConfig::default();
    match set(&mut config, "show_cpu", "Maybe") {
        Err(PropertyError::InvalidBoolean { value }) => assert_eq!(value, "Maybe"),
        other => panic!("unexpected outcome: {:?}", other),
    }
    assert_eq!(config, HerculesConfig::default());
}

#[test]
fn unknown_property_is_rejected() {
    for name in ["", "show_gpu", "Show_cpu", "show_cpu ", "update_interval"] {
        let mut config = HerculesConfig::default();
        match set(&mut config, name, "true") {
            Err(PropertyError::UnknownProperty { name: unknown }) => assert_eq!(unknown, name),
            other => panic!("unexpected outcome: {:?}", other),
        }
        assert_eq!(config, HerculesConfig::default());
    }
}

#[test]
fn names_and_properties_correspond() {
    let all = Property::all();
    assert_eq!(all.len(), 13);
    for property in all {
        assert_eq!(Property::from_name(property.name()), Some(property));
    }
    assert_eq!(Property::from_name("nothing"), None);
    assert!(Property::UpdateIntervalMs.is_numeric());
    assert!(Property::MaxProcesses.is_numeric());
    assert!(Property::SensorUpdateIntervalMs.is_numeric());
    assert!(!Property::ShowCpu.is_numeric());
    assert!(!Property::SensorUseCelsius.is_numeric());
}

#[test]
fn listing_of_properties() {
    let expected = [
        ("update_interval_ms", "Update interval in milliseconds (number)"),
        ("show_cpu", "Show CPU information (true/false)"),
        ("show_memory", "Show memory information (true/false)"),
        ("show_disk", "Show disk information (true/false)"),
        ("show_network", "Show network information (true/false)"),
        ("show_processes", "Show process information (true/false)"),
        ("max_processes", "Maximum processes to show (number)"),
        ("continuous", "Run in continuous mode (true/false)"),
        ("show_compact_mode", "Use compact display mode (true/false)"),
        ("show_installer", "Show installer options (true/false)"),
        ("show_sensors", "Enable sensor monitoring (true/false)"),
        ("sensor_update_interval_ms", "Sensor update interval in milliseconds (number)"),
        ("sensor_use_celsius", "Use Celsius for sensor temperature (true/false)"),
    ]
    .iter()
    .map(|(prop, desc)| format!("  {:<25} - {}", prop, desc))
    .collect::<Vec<_>>()
    .join("\n");
    assert_eq!(ConfigManager::list_available_properties(), expected);
}

#[test]
fn listing_lines_are_aligned() {
    let text = ConfigManager::list_available_properties();
    let lines: Vec<&str> = text.lines().collect();
    assert_eq!(lines.len(), 13);
    assert_eq!(lines[1], "  show_cpu                  - Show CPU information (true/false)");
    assert_eq!(
        lines[11],
        "  sensor_update_interval_ms - Sensor update interval in milliseconds (number)"
    );
    for line in lines {
        assert_eq!(&line[27..30], " - ");
    }
}

#[test]
fn property_error_messages() {
    assert_eq!(
        PropertyError::InvalidNumber { property: Property::MaxProcesses }.message(),
        "Invalid number format for max_processes"
    );
    assert_eq!(
        PropertyError::InvalidBoolean { value: "perhaps".to_string() }.message(),
        "Invalid boolean value 'perhaps'. Use: true/false, 1/0, yes/no, on/off, enable/disable"
    );
    assert_eq!(
        PropertyError::UnknownProperty { name: "volume".to_string() }.message(),
        format!(
            "Unknown property 'volume'. Available properties:\n{}",
            ConfigManager::list_available_properties()
        )
    );
}

#[test]
fn command_error_messages() {
    assert_eq!(
        CommandError::InvalidSyntax.message(),
        "Invalid syntax. Use: hercules conf <property> -> <new_value>\n\
         Examples:\n\
           hercules conf update_interval_ms -> 500\n\
           hercules conf show_sensors -> true\n\
           hercules conf show_compact_mode -> false"
    );
    let rejected = CommandError::Rejected {
        property: "max_processes".to_string(),
        reason: PropertyError::InvalidNumber { property: Property::MaxProcesses },
    };
    assert_eq!(
        rejected.message(),
        "Failed to set property 'max_processes': Invalid number format for max_processes"
    );
}

#[test]
fn conf_command_sets_a_property() {
    let mut manager = manager();
    assert!(manager.handle_conf_command(&words(&["conf", "update_interval_ms", "->", "500"])).is_ok());
    assert_eq!(manager.get_config().update_interval_ms, 500);
    assert!(manager.handle_conf_command(&words(&["conf", "show_sensors", "->", "true"])).is_ok());
    assert!(manager.get_config().show_sensors);
    assert!(manager.get_config().sensor_config.enabled);
    assert_eq!(manager.config_path(), "/tmp/hercules.toml");
}

#[test]
fn conf_command_ignores_trailing_words() {
    let mut manager = manager();
    let line = words(&["conf", "max_processes", "->", "3", "and", "more"]);
    assert!(manager.handle_conf_command(&line).is_ok());
    assert_eq!(manager.get_config().max_processes, 3);
}

#[test]
fn conf_command_with_bad_syntax() {
    for line in [
        words(&[]),
        words(&["conf"]),
        words(&["conf", "show_cpu"]),
        words(&["conf", "show_cpu", "->"]),
        words(&["conf", "show_cpu", "=", "false"]),
        words(&["conf", "show_cpu", "false", "->"]),
        words(&["conf", "->", "show_cpu", "false"]),
    ] {
        let mut manager = manager();
        match manager.handle_conf_command(&line) {
            Err(CommandError::InvalidSyntax) => {}
            other => panic!("{:?}: {:?}", line, other),
        }
        assert_eq!(*manager.get_config(), HerculesConfig::default());
    }
}

#[test]
fn conf_command_reports_the_rejected_property() {
    let mut manager = manager();
    match manager.handle_conf_command(&words(&["conf", "show_cpu", "->", "perhaps"])) {
        Err(CommandError::Rejected { property, reason: PropertyError::InvalidBoolean { value } }) => {
            assert_eq!(property, "show_cpu");
            assert_eq!(value, "perhaps");
        }
        other => panic!("unexpected outcome: {:?}", other),
    }
    match manager.handle_conf_command(&words(&["conf", "volume", "->", "11"])) {
        Err(CommandError::Rejected { property, reason: PropertyError::UnknownProperty { name } }) => {
            assert_eq!(property, "volume");
            assert_eq!(name, "volume");
        }
        other => panic!("unexpected outcome: {:?}", other),
    }
    assert_eq!(*manager.get_config(), HerculesConfig::default());
}

#[test]
fn reset_restores_the_defaults() {
    let mut manager = manager();
    manager.handle_conf_command(&words(&["conf", "show_cpu", "->", "off"])).unwrap();
    manager.handle_conf_command(&words(&["conf", "max_processes", "->", "99"])).unwrap();
    assert_ne!(*manager.get_config(), HerculesConfig::default());
    manager.reset_config();
    assert_eq!(*manager.get_config(), HerculesConfig::default());
    assert_eq!(manager.config_path(), "/tmp/hercules.toml");
}

#[test]
fn flags_only_switch_things_on() {
    let base = HerculesConfig::default();
    assert_eq!(base.with_flags(false, false, false), base);
    let mut all_on = base;
    all_on.show_compact_mode = true;
    all_on.show_installer = true;
    all_on.show_sensors = true;
    assert_eq!(all_on.with_flags(false, false, false), all_on);
    let compact = base.with_flags(true, false, false);
    assert!(compact.show_compact_mode);
    assert!(!compact.show_installer);
    assert!(!compact.show_sensors);
    let installer = base.with_flags(false, true, false);
    assert!(installer.show_installer);
    assert!(!installer.show_compact_mode);
}

#[test]
fn sensors_flag_enables_acquisition_at_a_tenth_of_the_refresh() {
    let config = HerculesConfig::default().with_flags(false, false, true);
    assert!(config.show_sensors);
    assert!(config.sensor_config.enabled);
    assert_eq!(config.sensor_config.update_interval_ms, 100);
    assert!(config.sensor_config.use_celsius);
    let mut slow = HerculesConfig::default();
    slow.update_interval_ms = 2505;
    assert_eq!(slow.with_flags(false, false, true).sensor_config.update_interval_ms, 250);
    let mut fast = HerculesConfig::default();
    fast.update_interval_ms = 9;
    assert_eq!(fast.with_flags(false, false, true).sensor_config.update_interval_ms, 0);
    assert_eq!(slow.with_flags(true, true, false).sensor_config, slow.sensor_config);
}

#[test]
fn shorthand_commands_show_once() {
    let compact = HerculesConfig::default().compact_once();
    assert!(compact.show_compact_mode);
    assert!(!compact.continuous);
    assert!(!compact.show_sensors);
    let sensors = HerculesConfig::default().sensors_once();
    assert!(sensors.show_sensors);
    assert!(sensors.sensor_config.enabled);
    assert!(!sensors.continuous);
    assert_eq!(sensors.sensor_config.update_interval_ms, 100);
    let mut expected = HerculesConfig::default();
    expected.show_sensors = true;
    expected.sensor_config.enabled = true;
    expected.continuous = false;
    assert_eq!(sensors, expected);
}

#[test]
fn written_numbers_read_back() {
    for number in [0u64, 1, 9, 10, 99, 100, 1000, 65_535, 4_294_967_296, u64::MAX] {
        let mut config = HerculesConfig::default();
        assert!(set(&mut config, "update_interval_ms", &number.to_string()).is_ok());
        assert_eq!(config.update_interval_ms, number);
        assert!(set(&mut config, "sensor_update_interval_ms", &number.to_string()).is_ok());
        assert_eq!(config.sensor_config.update_interval_ms, number);
    }
    let mut config = HerculesConfig::default();
    assert!(set(&mut config, "max_processes", &usize::MAX.to_string()).is_ok());
    assert_eq!(config.max_processes, usize::MAX);
}
