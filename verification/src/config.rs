//! The monitor's settings and the rules for changing them by name.

use crate::text::{lowercase, parse_u64, parse_usize, parsed_unsigned, str_eq, to_lowercase};
use vstd::prelude::*;

verus! {

/// How the sensor subsystem is to run.
#[derive(Debug, Clone, Copy, PartialEq, Eq, Structural)]
pub struct SensorConfig {
    /// Whether acquisition is attempted at all.
    pub enabled: bool,
    /// Pause between two reads, in milliseconds.
    pub update_interval_ms: u64,
    /// Whether temperatures are displayed in degrees Celsius.
    pub use_celsius: bool,
}

impl SensorConfig {
    /// The settings of a fresh installation.
    pub open spec fn spec_default() -> SensorConfig {
        SensorConfig { enabled: false, update_interval_ms: 100, use_celsius: true }
    }

    /// The pause between reads is strictly positive.
    pub open spec fn valid(self) -> bool {
        self.update_interval_ms > 0
    }
}

impl Default for SensorConfig {
    /// Sensors off, ten reads a second, degrees Celsius.
    fn default() -> (config: SensorConfig)
        ensures
            config == SensorConfig::spec_default(),
            config.valid(),
    {
        SensorConfig { enabled: false, update_interval_ms: 100, use_celsius: true }
    }
}

/// Everything the monitor can be told to show, and how often.
#[derive(Debug, Clone, Copy, PartialEq, Eq, Structural)]
pub struct HerculesConfig {
    /// Pause between two refreshes of the display, in milliseconds.
    pub update_interval_ms: u64,
    /// Whether processor load is shown.
    pub show_cpu: bool,
    /// Whether memory and swap are shown.
    pub show_memory: bool,
    /// Whether disks are shown.
    pub show_disk: bool,
    /// Whether network traffic is shown.
    pub show_network: bool,
    /// Whether the busiest processes are shown.
    pub show_processes: bool,
    /// How many processes are shown at most.
    pub max_processes: usize,
    /// Whether the display keeps refreshing or is shown once.
    pub continuous: bool,
    /// Whether the compact display is used.
    pub show_compact_mode: bool,
    /// Whether the installer runs at start.
    pub show_installer: bool,
    /// Whether sensor readings are shown.
    pub show_sensors: bool,
    /// How the sensor subsystem is to run.
    pub sensor_config: SensorConfig,
}

impl HerculesConfig {
    /// The settings of a fresh installation.
    pub open spec fn spec_default() -> HerculesConfig {
        HerculesConfig {
            update_interval_ms: 1000,
            show_cpu: true,
            show_memory: true,
            show_disk: true,
            show_network: true,
            show_processes: false,
            max_processes: 10,
            continuous: true,
            show_compact_mode: false,
            show_installer: false,
            show_sensors: false,
            sensor_config: SensorConfig::spec_default(),
        }
    }

    /// The settings with the command line's flags laid over them: each flag
    /// that is set switches its feature on, none switches anything off.
    /// Asking for sensors also enables acquisition, with a pause between
    /// reads of a tenth of the pause between refreshes.
    pub open spec fn spec_with_flags(
        self,
        compact: bool,
        installer: bool,
        sensors: bool,
    ) -> HerculesConfig {
        HerculesConfig {
            show_compact_mode: self.show_compact_mode || compact,
            show_installer: self.show_installer || installer,
            show_sensors: self.show_sensors || sensors,
            sensor_config: if sensors {
                SensorConfig {
                    enabled: true,
                    update_interval_ms: self.update_interval_ms / 10,
                    ..self.sensor_config
                }
            } else {
                self.sensor_config
            },
            ..self
        }
    }

    /// The settings for one compact display: compact mode on, shown once.
    pub open spec fn spec_compact_once(self) -> HerculesConfig {
        HerculesConfig { show_compact_mode: true, continuous: false, ..self }
    }

    /// The settings for one display with sensors: sensors shown and
    /// enabled, shown once.
    pub open spec fn spec_sensors_once(self) -> HerculesConfig {
        HerculesConfig {
            show_sensors: true,
            sensor_config: SensorConfig { enabled: true, ..self.sensor_config },
            continuous: false,
            ..self
        }
    }

    /// The settings with the command line's flags laid over them: each flag
    /// that is set switches its feature on, none switches anything off.
    /// Asking for sensors also enables acquisition, with a pause between
    /// reads of a tenth of the pause between refreshes.
    pub fn with_flags(self, compact: bool, installer: bool, sensors: bool) -> (config:
        HerculesConfig)
        ensures
            config == self.spec_with_flags(compact, installer, sensors),
    {
        HerculesConfig {
            show_compact_mode: self.show_compact_mode || compact,
            show_installer: self.show_installer || installer,
            show_sensors: self.show_sensors || sensors,
            sensor_config: if sensors {
                SensorConfig {
                    enabled: true,
                    update_interval_ms: self.update_interval_ms / 10,
                    ..self.sensor_config
                }
            } else {
                self.sensor_config
            },
            ..self
        }
    }

    /// The settings for one compact display: compact mode on, shown once.
    pub fn compact_once(self) -> (config: HerculesConfig)
        ensures
            config == self.spec_compact_once(),
    {
        HerculesConfig { show_compact_mode: true, continuous: false, ..self }
    }

    /// The settings for one display with sensors: sensors shown and
    /// enabled, shown once.
    pub fn sensors_once(self) -> (config: HerculesConfig)
        ensures
            config == self.spec_sensors_once(),
    {
        HerculesConfig {
            show_sensors: true,
            sensor_config: SensorConfig { enabled: true, ..self.sensor_config },
            continuous: false,
            ..self
        }
    }
}

impl Default for HerculesConfig {
    /// Refresh once a second, show everything but processes and sensors.
    fn default() -> (config: HerculesConfig)
        ensures
            config == HerculesConfig::spec_default(),
    {
        HerculesConfig {
            update_interval_ms: 1000,
            show_cpu: true,
            show_memory: true,
            show_disk: true,
            show_network: true,
            show_processes: false,
            max_processes: 10,
            continuous: true,
            show_compact_mode: false,
            show_installer: false,
            show_sensors: false,
            sensor_config: SensorConfig::default(),
        }
    }
}

/// A setting that can be changed by name.
#[derive(Debug, Clone, Copy, PartialEq, Eq, Structural)]
pub enum Property {
    UpdateIntervalMs,
    ShowCpu,
    ShowMemory,
    ShowDisk,
    ShowNetwork,
    ShowProcesses,
    MaxProcesses,
    Continuous,
    ShowCompactMode,
    ShowInstaller,
    ShowSensors,
    SensorUpdateIntervalMs,
    SensorUseCelsius,
}

impl Property {
    /// The name under which the setting is changed.
    pub open spec fn spec_name(self) -> Seq<char> {
        match self {
            Property::UpdateIntervalMs => "update_interval_ms"@,
            Property::ShowCpu => "show_cpu"@,
            Property::ShowMemory => "show_memory"@,
            Property::ShowDisk => "show_disk"@,
            Property::ShowNetwork => "show_network"@,
            Property::ShowProcesses => "show_processes"@,
            Property::MaxProcesses => "max_processes"@,
            Property::Continuous => "continuous"@,
            Property::ShowCompactMode => "show_compact_mode"@,
            Property::ShowInstaller => "show_installer"@,
            Property::ShowSensors => "show_sensors"@,
            Property::SensorUpdateIntervalMs => "sensor_update_interval_ms"@,
            Property::SensorUseCelsius => "sensor_use_celsius"@,
        }
    }

    /// What the setting does and what values it takes.
    pub open spec fn spec_description(self) -> Seq<char> {
        match self {
            Property::UpdateIntervalMs => "Update interval in milliseconds (number)"@,
            Property::ShowCpu => "Show CPU information (true/false)"@,
            Property::ShowMemory => "Show memory information (true/false)"@,
            Property::ShowDisk => "Show disk information (true/false)"@,
            Property::ShowNetwork => "Show network information (true/false)"@,
            Property::ShowProcesses => "Show process information (true/false)"@,
            Property::MaxProcesses => "Maximum processes to show (number)"@,
            Property::Continuous => "Run in continuous mode (true/false)"@,
            Property::ShowCompactMode => "Use compact display mode (true/false)"@,
            Property::ShowInstaller => "Show installer options (true/false)"@,
            Property::ShowSensors => "Enable sensor monitoring (true/false)"@,
            Property::SensorUpdateIntervalMs => "Sensor update interval in milliseconds (number)"@,
            Property::SensorUseCelsius => "Use Celsius for sensor temperature (true/false)"@,
        }
    }

    /// Whether the setting holds a number rather than a switch.
    pub open spec fn spec_is_numeric(self) -> bool {
        self == Property::UpdateIntervalMs || self == Property::MaxProcesses || self
            == Property::SensorUpdateIntervalMs
    }

    /// The setting that `name` names, if any. Names are matched exactly.
    pub open spec fn spec_from_name(name: Seq<char>) -> Option<Property> {
        if name == "update_interval_ms"@ {
            Some(Property::UpdateIntervalMs)
        } else if name == "show_cpu"@ {
            Some(Property::ShowCpu)
        } else if name == "show_memory"@ {
            Some(Property::ShowMemory)
        } else if name == "show_disk"@ {
            Some(Property::ShowDisk)
        } else if name == "show_network"@ {
            Some(Property::ShowNetwork)
        } else if name == "show_processes"@ {
            Some(Property::ShowProcesses)
        } else if name == "max_processes"@ {
            Some(Property::MaxProcesses)
        } else if name == "continuous"@ {
            Some(Property::Continuous)
        } else if name == "show_compact_mode"@ {
            Some(Property::ShowCompactMode)
        } else if name == "show_installer"@ {
            Some(Property::ShowInstaller)
        } else if name == "show_sensors"@ {
            Some(Property::ShowSensors)
        } else if name == "sensor_update_interval_ms"@ {
            Some(Property::SensorUpdateIntervalMs)
        } else if name == "sensor_use_celsius"@ {
            Some(Property::SensorUseCelsius)
        } else {
            None
        }
    }

    /// The name under which the setting is changed.
    pub fn name(self) -> (name: &'static str)
        ensures
            name@ == self.spec_name(),
    {
        match self {
            Property::UpdateIntervalMs => "update_interval_ms",
            Property::ShowCpu => "show_cpu",
            Property::ShowMemory => "show_memory",
            Property::ShowDisk => "show_disk",
            Property::ShowNetwork => "show_network",
            Property::ShowProcesses => "show_processes",
            Property::MaxProcesses => "max_processes",
            Property::Continuous => "continuous",
            Property::ShowCompactMode => "show_compact_mode",
            Property::ShowInstaller => "show_installer",
            Property::ShowSensors => "show_sensors",
            Property::SensorUpdateIntervalMs => "sensor_update_interval_ms",
            Property::SensorUseCelsius => "sensor_use_celsius",
        }
    }

    /// What the setting does and what values it takes.
    pub fn description(self) -> (description: &'static str)
        ensures
            description@ == self.spec_description(),
    {
        match self {
            Property::UpdateIntervalMs => "Update interval in milliseconds (number)",
            Property::ShowCpu => "Show CPU information (true/false)",
            Property::ShowMemory => "Show memory information (true/false)",
            Property::ShowDisk => "Show disk information (true/false)",
            Property::ShowNetwork => "Show network information (true/false)",
            Property::ShowProcesses => "Show process information (true/false)",
            Property::MaxProcesses => "Maximum processes to show (number)",
            Property::Continuous => "Run in continuous mode (true/false)",
            Property::ShowCompactMode => "Use compact display mode (true/false)",
            Property::ShowInstaller => "Show installer options (true/false)",
            Property::ShowSensors => "Enable sensor monitoring (true/false)",
            Property::SensorUpdateIntervalMs => "Sensor update interval in milliseconds (number)",
            Property::SensorUseCelsius => "Use Celsius for sensor temperature (true/false)",
        }
    }

    /// Whether the setting holds a number rather than a switch.
    #[verifier::when_used_as_spec(spec_is_numeric)]
    pub fn is_numeric(self) -> (numeric: bool)
        ensures
            numeric == self.spec_is_numeric(),
    {
        match self {
            Property::UpdateIntervalMs
            | Property::MaxProcesses
            | Property::SensorUpdateIntervalMs => true,
            _ => false,
        }
    }

    /// Every setting, in the order of the listing.
    pub fn all() -> (properties: Vec<Property>)
        ensures
            properties@ == all_properties(),
    {
        let properties = vec![
            Property::UpdateIntervalMs,
            Property::ShowCpu,
            Property::ShowMemory,
            Property::ShowDisk,
            Property::ShowNetwork,
            Property::ShowProcesses,
            Property::MaxProcesses,
            Property::Continuous,
            Property::ShowCompactMode,
            Property::ShowInstaller,
            Property::ShowSensors,
            Property::SensorUpdateIntervalMs,
            Property::SensorUseCelsius,
        ];
        assert(properties@ =~= all_properties());
        properties
    }

    /// The setting that `name` names, if any. Names are matched exactly.
    pub fn from_name(name: &str) -> (property: Option<Property>)
        ensures
            property == Property::spec_from_name(name@),
    {
        if str_eq(name, "update_interval_ms") {
            Some(Property::UpdateIntervalMs)
        } else if str_eq(name, "show_cpu") {
            Some(Property::ShowCpu)
        } else if str_eq(name, "show_memory") {
            Some(Property::ShowMemory)
        } else if str_eq(name, "show_disk") {
            Some(Property::ShowDisk)
        } else if str_eq(name, "show_network") {
            Some(Property::ShowNetwork)
        } else if str_eq(name, "show_processes") {
            Some(Property::ShowProcesses)
        } else if str_eq(name, "max_processes") {
            Some(Property::MaxProcesses)
        } else if str_eq(name, "continuous") {
            Some(Property::Continuous)
        } else if str_eq(name, "show_compact_mode") {
            Some(Property::ShowCompactMode)
        } else if str_eq(name, "show_installer") {
            Some(Property::ShowInstaller)
        } else if str_eq(name, "show_sensors") {
            Some(Property::ShowSensors)
        } else if str_eq(name, "sensor_update_interval_ms") {
            Some(Property::SensorUpdateIntervalMs)
        } else if str_eq(name, "sensor_use_celsius") {
            Some(Property::SensorUseCelsius)
        } else {
            None
        }
    }
}

/// No two settings share a name: the name of each setting selects that
/// setting and no other.
pub proof fn lemma_names_select_their_property(property: Property)
    ensures
        Property::spec_from_name(property.spec_name()) == Some(property),
{
    reveal_strlit("update_interval_ms");
    reveal_strlit("show_cpu");
    reveal_strlit("show_memory");
    reveal_strlit("show_disk");
    reveal_strlit("show_network");
    reveal_strlit("show_processes");
    reveal_strlit("max_processes");
    reveal_strlit("continuous");
    reveal_strlit("show_compact_mode");
    reveal_strlit("show_installer");
    reveal_strlit("show_sensors");
    reveal_strlit("sensor_update_interval_ms");
    reveal_strlit("sensor_use_celsius");
    assert("update_interval_ms"@.len() == 18);
    assert("show_cpu"@.len() == 8);
    assert("show_memory"@.len() == 11);
    assert("show_disk"@.len() == 9);
    assert("show_network"@.len() == 12);
    assert("show_processes"@.len() == 14);
    assert("max_processes"@.len() == 13);
    assert("continuous"@.len() == 10);
    assert("show_compact_mode"@.len() == 17);
    assert("show_installer"@.len() == 14);
    assert("show_sensors"@.len() == 12);
    assert("sensor_update_interval_ms"@.len() == 25);
    assert("sensor_use_celsius"@.len() == 18);
    assert("update_interval_ms"@[0] != "sensor_use_celsius"@[0]);
    assert("show_processes"@[5] != "show_installer"@[5]);
    assert("show_network"@[5] != "show_sensors"@[5]);
}

/// The switch position that a lower-case keyword names, if it names one.
pub open spec fn keyword_switch(word: Seq<char>) -> Option<bool> {
    if word == "true"@ || word == "1"@ || word == "yes"@ || word == "on"@ || word == "enable"@
        || word == "enabled"@ {
        Some(true)
    } else if word == "false"@ || word == "0"@ || word == "no"@ || word == "off"@ || word
        == "disable"@ || word == "disabled"@ {
        Some(false)
    } else {
        None
    }
}

/// The switch position that `value` names in any mix of upper and lower case.
pub open spec fn spec_parse_bool(value: Seq<char>) -> Option<bool> {
    keyword_switch(lowercase(value))
}

/// `config` with the numeric setting `property` set to `number`.
pub open spec fn with_number(
    config: HerculesConfig,
    property: Property,
    number: nat,
) -> HerculesConfig {
    match property {
        Property::UpdateIntervalMs => HerculesConfig {
            update_interval_ms: number as u64,
            ..config
        },
        Property::MaxProcesses => HerculesConfig { max_processes: number as usize, ..config },
        Property::SensorUpdateIntervalMs => HerculesConfig {
            sensor_config: SensorConfig {
                update_interval_ms: number as u64,
                ..config.sensor_config
            },
            ..config
        },
        _ => config,
    }
}

/// `config` with the switch `property` set to `on`. Switching sensors on or
/// off also enables or disables acquisition.
pub open spec fn with_switch(
    config: HerculesConfig,
    property: Property,
    on: bool,
) -> HerculesConfig {
    match property {
        Property::ShowCpu => HerculesConfig { show_cpu: on, ..config },
        Property::ShowMemory => HerculesConfig { show_memory: on, ..config },
        Property::ShowDisk => HerculesConfig { show_disk: on, ..config },
        Property::ShowNetwork => HerculesConfig { show_network: on, ..config },
        Property::ShowProcesses => HerculesConfig { show_processes: on, ..config },
        Property::Continuous => HerculesConfig { continuous: on, ..config },
        Property::ShowCompactMode => HerculesConfig { show_compact_mode: on, ..config },
        Property::ShowInstaller => HerculesConfig { show_installer: on, ..config },
        Property::ShowSensors => HerculesConfig {
            show_sensors: on,
            sensor_config: SensorConfig { enabled: on, ..config.sensor_config },
            ..config
        },
        Property::SensorUseCelsius => HerculesConfig {
            sensor_config: SensorConfig { use_celsius: on, ..config.sensor_config },
            ..config
        },
        _ => config,
    }
}

/// The largest number that the numeric setting `property` can hold.
pub open spec fn largest_number(property: Property) -> nat {
    if property == Property::MaxProcesses {
        usize::MAX as nat
    } else {
        u64::MAX as nat
    }
}

/// `config` with `property` set to what `value` writes, if `value` is
/// well-formed for that setting: a number in range for a numeric setting, a
/// switch keyword for the others.
pub open spec fn with_property(
    config: HerculesConfig,
    property: Property,
    value: Seq<char>,
) -> Option<HerculesConfig> {
    if property.spec_is_numeric() {
        match parsed_unsigned(value, largest_number(property)) {
            Some(number) => Some(with_number(config, property, number)),
            None => None,
        }
    } else {
        match spec_parse_bool(value) {
            Some(on) => Some(with_switch(config, property, on)),
            None => None,
        }
    }
}

/// Whether `after` and `result` are what setting the property named `name`
/// to the text `value` makes of `before`: the updated settings and success
/// where the name is known and the value well-formed, and else the settings
/// untouched and the error that says what was wrong.
pub open spec fn property_set(
    before: HerculesConfig,
    name: Seq<char>,
    value: Seq<char>,
    after: HerculesConfig,
    result: Result<(), PropertyError>,
) -> bool {
    match Property::spec_from_name(name) {
        None => {
            &&& result matches Err(PropertyError::UnknownProperty { name: unknown })
            &&& unknown@ == name
            &&& after == before
        },
        Some(known) => match with_property(before, known, value) {
            Some(updated) => result is Ok && after == updated,
            None => {
                &&& after == before
                &&& known.spec_is_numeric() ==> (result matches Err(
                    PropertyError::InvalidNumber { property: culprit },
                ) && culprit == known)
                &&& !known.spec_is_numeric() ==> (result matches Err(
                    PropertyError::InvalidBoolean { value: rejected },
                ) && rejected@ == value)
            },
        },
    }
}

/// The column at which descriptions start in the listing of settings,
/// counted from the start of the name.
pub const NAME_COLUMN_WIDTH: usize = 25;

/// Every setting, in the order of the listing.
pub open spec fn all_properties() -> Seq<Property> {
    seq![
        Property::UpdateIntervalMs,
        Property::ShowCpu,
        Property::ShowMemory,
        Property::ShowDisk,
        Property::ShowNetwork,
        Property::ShowProcesses,
        Property::MaxProcesses,
        Property::Continuous,
        Property::ShowCompactMode,
        Property::ShowInstaller,
        Property::ShowSensors,
        Property::SensorUpdateIntervalMs,
        Property::SensorUseCelsius,
    ]
}

/// `count` spaces; none where `count` is not positive.
pub open spec fn padding(count: int) -> Seq<char> {
    Seq::new(
        if count > 0 {
            count as nat
        } else {
            0
        },
        |i: int| ' ',
    )
}

/// The line of the listing for one setting: two spaces, the name padded
/// with spaces to the column width, a dash between spaces, the description.
pub open spec fn property_line(property: Property) -> Seq<char> {
    "  "@ + property.spec_name() + padding(NAME_COLUMN_WIDTH - property.spec_name().len()) + " - "@
        + property.spec_description()
}

/// The lines of `properties`, separated by line feeds.
pub open spec fn listing(properties: Seq<Property>) -> Seq<char>
    decreases properties.len(),
{
    if properties.len() == 0 {
        Seq::empty()
    } else if properties.len() == 1 {
        property_line(properties[0])
    } else {
        listing(properties.drop_last()) + "\n"@ + property_line(properties.last())
    }
}

/// Why a setting could not be changed.
#[derive(Debug)]
pub enum PropertyError {
    /// The value given for a numeric setting is not a number in range.
    InvalidNumber { property: Property },
    /// The value given for a switch is none of the accepted keywords.
    InvalidBoolean { value: String },
    /// No setting has this name.
    UnknownProperty { name: String },
}

impl PropertyError {
    /// The text of [`PropertyError::message`].
    pub open spec fn spec_message(self) -> Seq<char> {
        match self {
            PropertyError::InvalidNumber { property } => "Invalid number format for "@
                + property.spec_name(),
            PropertyError::InvalidBoolean { value } => "Invalid boolean value '"@ + value@
                + "'. Use: true/false, 1/0, yes/no, on/off, enable/disable"@,
            PropertyError::UnknownProperty { name } => "Unknown property '"@ + name@
                + "'. Available properties:\n"@ + listing(all_properties()),
        }
    }

    /// What went wrong, for a human reader. An unknown name is answered
    /// with the listing of the names that exist.
    pub fn message(&self) -> (text: String)
        ensures
            text@ == self.spec_message(),
    {
        match self {
            PropertyError::InvalidNumber { property } => String::from_str(
                "Invalid number format for ",
            ).concat(property.name()),
            PropertyError::InvalidBoolean { value } => String::from_str(
                "Invalid boolean value '",
            ).concat(value.as_str()).concat(
                "'. Use: true/false, 1/0, yes/no, on/off, enable/disable",
            ),
            PropertyError::UnknownProperty { name } => {
                let listing = ConfigManager::list_available_properties();
                String::from_str("Unknown property '").concat(name.as_str()).concat(
                    "'. Available properties:\n",
                ).concat(listing.as_str())
            },
        }
    }
}

/// Why a settings command was not carried out.
#[derive(Debug)]
pub enum CommandError {
    /// The command is not of the form `conf <property> -> <value>`.
    InvalidSyntax,
    /// The command is well-formed but the setting could not be changed.
    Rejected { property: String, reason: PropertyError },
}

impl CommandError {
    /// The text of [`CommandError::message`].
    pub open spec fn spec_message(self) -> Seq<char> {
        match self {
            CommandError::InvalidSyntax =>
                "Invalid syntax. Use: hercules conf <property> -> <new_value>\n\
                Examples:\n\
                hercules conf update_interval_ms -> 500\n\
                hercules conf show_sensors -> true\n\
                hercules conf show_compact_mode -> false"@,
            CommandError::Rejected { property, reason } => "Failed to set property '"@ + property@
                + "': "@ + reason.spec_message(),
        }
    }

    /// What went wrong, for a human reader.
    pub fn message(&self) -> (text: String)
        ensures
            text@ == self.spec_message(),
    {
        match self {
            CommandError::InvalidSyntax => String::from_str(
                "Invalid syntax. Use: hercules conf <property> -> <new_value>\n\
                Examples:\n\
                hercules conf update_interval_ms -> 500\n\
                hercules conf show_sensors -> true\n\
                hercules conf show_compact_mode -> false",
            ),
            CommandError::Rejected { property, reason } => {
                let cause = reason.message();
                String::from_str("Failed to set property '").concat(property.as_str()).concat(
                    "': ",
                ).concat(cause.as_str())
            },
        }
    }
}

/// Whether `args` has the form `conf <property> -> <value>`: at least four
/// words, the third of them an arrow.
pub open spec fn command_well_formed(args: Seq<String>) -> bool {
    args.len() >= 4 && args[2]@ == "->"@
}

/// Appends the listing line of `property` to `out`.
fn push_property_line(out: &mut String, property: Property)
    ensures
        final(out)@ == old(out)@ + property_line(property),
{
    let name = property.name();
    out.append("  ");
    out.append(name);
    let mut width: usize = name.unicode_len();
    assert(padding(0) =~= Seq::<char>::empty());
    assert(out@ =~= old(out)@ + "  "@ + name@ + padding(0));
    while width < NAME_COLUMN_WIDTH
        invariant
            name@.len() <= width,
            width <= NAME_COLUMN_WIDTH || width == name@.len(),
            out@ == old(out)@ + "  "@ + name@ + padding(width - name@.len()),
        decreases NAME_COLUMN_WIDTH - width,
    {
        proof {
            reveal_strlit(" ");
        }
        out.append(" ");
        assert(padding(width - name@.len()) + " "@ =~= padding(width + 1 - name@.len()));
        assert(out@ =~= old(out)@ + "  "@ + name@ + padding(width + 1 - name@.len()));
        width += 1;
    }
    assert(padding(width - name@.len()) =~= padding(NAME_COLUMN_WIDTH - name@.len()));
    out.append(" - ");
    out.append(property.description());
    assert(out@ =~= old(out)@ + property_line(property));
}

/// The switch position that an already lower-cased keyword names.
pub fn switch_from_keyword(word: &str) -> (switch: Option<bool>)
    ensures
        switch == keyword_switch(word@),
{
    if str_eq(word, "true") || str_eq(word, "1") || str_eq(word, "yes") || str_eq(word, "on")
        || str_eq(word, "enable") || str_eq(word, "enabled") {
        Some(true)
    } else if str_eq(word, "false") || str_eq(word, "0") || str_eq(word, "no") || str_eq(
        word,
        "off",
    ) || str_eq(word, "disable") || str_eq(word, "disabled") {
        Some(false)
    } else {
        None
    }
}

/// `config` with the switch `property` set to `on`.
fn switched(config: HerculesConfig, property: Property, on: bool) -> (updated: HerculesConfig)
    ensures
        updated == with_switch(config, property, on),
{
    match property {
        Property::ShowCpu => HerculesConfig { show_cpu: on, ..config },
        Property::ShowMemory => HerculesConfig { show_memory: on, ..config },
        Property::ShowDisk => HerculesConfig { show_disk: on, ..config },
        Property::ShowNetwork => HerculesConfig { show_network: on, ..config },
        Property::ShowProcesses => HerculesConfig { show_processes: on, ..config },
        Property::Continuous => HerculesConfig { continuous: on, ..config },
        Property::ShowCompactMode => HerculesConfig { show_compact_mode: on, ..config },
        Property::ShowInstaller => HerculesConfig { show_installer: on, ..config },
        Property::ShowSensors => HerculesConfig {
            show_sensors: on,
            sensor_config: SensorConfig { enabled: on, ..config.sensor_config },
            ..config
        },
        Property::SensorUseCelsius => HerculesConfig {
            sensor_config: SensorConfig { use_celsius: on, ..config.sensor_config },
            ..config
        },
        _ => config,
    }
}

/// The settings in force and the file they are kept in.
pub struct ConfigManager {
    config_path: String,
    config: HerculesConfig,
}

impl ConfigManager {
    /// The settings in force.
    pub closed spec fn spec_config(self) -> HerculesConfig {
        self.config
    }

    /// The path of the settings file.
    pub closed spec fn spec_config_path(self) -> Seq<char> {
        self.config_path@
    }

    /// A manager for the settings file at `config_path`. `stored` is what
    /// the file held, or `None` where there was no file yet: the manager
    /// then starts from the defaults.
    pub fn new(config_path: String, stored: Option<HerculesConfig>) -> (manager: ConfigManager)
        ensures
            manager.spec_config_path() == config_path@,
            manager.spec_config() == match stored {
                Some(config) => config,
                None => HerculesConfig::spec_default(),
            },
    {
        let config = match stored {
            Some(config) => config,
            None => HerculesConfig::default(),
        };
        ConfigManager { config_path, config }
    }

    /// The settings in force.
    pub fn get_config(&self) -> (config: &HerculesConfig)
        ensures
            *config == self.spec_config(),
    {
        &self.config
    }

    /// The path of the settings file.
    pub fn config_path(&self) -> (path: &str)
        ensures
            path@ == self.spec_config_path(),
    {
        self.config_path.as_str()
    }

    /// Forgets every change: the settings in force are the defaults again.
    pub fn reset_config(&mut self)
        ensures
            final(self).spec_config() == HerculesConfig::spec_default(),
            final(self).spec_config_path() == old(self).spec_config_path(),
    {
        self.config = HerculesConfig::default();
    }

    /// The listing of every setting that can be changed by name, one line
    /// each, with what it does.
    pub fn list_available_properties() -> (text: String)
        ensures
            text@ == listing(all_properties()),
    {
        let properties = Property::all();
        let mut text = String::new();
        let mut i: usize = 0;
        assert(properties@.take(0) =~= Seq::<Property>::empty());
        while i < properties.len()
            invariant
                i <= properties@.len(),
                text@ == listing(properties@.take(i as int)),
            decreases properties@.len() - i,
        {
            let ghost done = properties@.take(i as int);
            let ghost next = properties@.take(i + 1);
            assert(next.drop_last() =~= done);
            assert(next.last() == properties@[i as int]);
            if i > 0 {
                text.append("\n");
            }
            push_property_line(&mut text, properties[i]);
            assert(text@ =~= listing(next));
            i += 1;
        }
        assert(properties@.take(i as int) =~= properties@);
        text
    }

    /// Carries out the settings command `args`: `conf <property> -> <value>`.
    ///
    /// A command of another form is a syntax error. A well-formed one sets
    /// the property as [`ConfigManager::set_property`] does; where that
    /// fails, the settings stay as they were and the error names the
    /// property and the reason.
    pub fn handle_conf_command(&mut self, args: &Vec<String>) -> (result: Result<(), CommandError>)
        ensures
            final(self).spec_config_path() == old(self).spec_config_path(),
            !command_well_formed(args@) ==> (result matches Err(CommandError::InvalidSyntax)
                && final(self).spec_config() == old(self).spec_config()),
            command_well_formed(args@) ==> match result {
                Ok(()) => property_set(
                    old(self).spec_config(),
                    args@[1]@,
                    args@[3]@,
                    final(self).spec_config(),
                    Ok(()),
                ),
                Err(CommandError::Rejected { property, reason }) => property@ == args@[1]@
                    && property_set(
                    old(self).spec_config(),
                    args@[1]@,
                    args@[3]@,
                    final(self).spec_config(),
                    Err(reason),
                ),
                Err(CommandError::InvalidSyntax) => false,
            },
    {
        if args.len() < 4 || !str_eq(args[2].as_str(), "->") {
            return Err(CommandError::InvalidSyntax);
        }
        match Self::set_property(&mut self.config, args[1].as_str(), args[3].as_str()) {
            Ok(()) => Ok(()),
            Err(reason) => Err(
                CommandError::Rejected { property: String::from_str(args[1].as_str()), reason },
            ),
        }
    }

    /// Reads a switch position from `value`, in any mix of upper and lower
    /// case: true/false, 1/0, yes/no, on/off, enable/disable, enabled/disabled.
    pub fn parse_bool(value: &str) -> (result: Result<bool, PropertyError>)
        ensures
            match spec_parse_bool(value@) {
                Some(on) => result matches Ok(switch) && switch == on,
                None => result matches Err(PropertyError::InvalidBoolean { value: rejected })
                    && rejected@ == value@,
            },
    {
        let lowered = to_lowercase(value);
        match switch_from_keyword(lowered.as_str()) {
            Some(on) => Ok(on),
            None => Err(PropertyError::InvalidBoolean { value: String::from_str(value) }),
        }
    }

    /// Sets the setting named `property` to what `value` writes.
    ///
    /// On any error `config` is left as it was.
    pub fn set_property(config: &mut HerculesConfig, property: &str, value: &str) -> (result:
        Result<(), PropertyError>)
        ensures
            property_set(*old(config), property@, value@, *final(config), result),
    {
        let known = match Property::from_name(property) {
            Some(known) => known,
            None => {
                return Err(PropertyError::UnknownProperty { name: String::from_str(property) });
            },
        };
        match known {
            Property::UpdateIntervalMs => match parse_u64(value) {
                Some(n) => {
                    *config = HerculesConfig { update_interval_ms: n, ..*config };
                },
                None => {
                    return Err(PropertyError::InvalidNumber { property: known });
                },
            },
            Property::MaxProcesses => match parse_usize(value) {
                Some(n) => {
                    *config = HerculesConfig { max_processes: n, ..*config };
                },
                None => {
                    return Err(PropertyError::InvalidNumber { property: known });
                },
            },
            Property::SensorUpdateIntervalMs => match parse_u64(value) {
                Some(n) => {
                    *config = HerculesConfig {
                        sensor_config: SensorConfig {
                            update_interval_ms: n,
                            ..config.sensor_config
                        },
                        ..*config
                    };
                },
                None => {
                    return Err(PropertyError::InvalidNumber { property: known });
                },
            },
            _ => match Self::parse_bool(value) {
                Ok(on) => {
                    *config = switched(*config, known, on);
                },
                Err(e) => {
                    return Err(e);
                },
            },
        }
        Ok(())
    }
}

} // verus!
