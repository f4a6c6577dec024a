use vstd::prelude::*;

verus! {

/// Separator drawn between a module's label and its value.
#[derive(Debug)]
pub struct SeparatorConfig {
    pub symbol: String,
    pub space_before: u8,
    pub space_after: u8,
    pub align_separator: bool,
}

/// The four colours of the output; their format is not interpreted here.
#[derive(Debug)]
pub struct ColorsConfig {
    pub title: String,
    pub module: String,
    pub info: String,
    pub separator: String,
}

/// Title and general appearance.
#[derive(Debug)]
pub struct GeneralConfig {
    pub show_title: bool,
    pub title: Option<String>,
    pub separator: SeparatorConfig,
    pub colors: ColorsConfig,
}

/// Target size of the image in character cells, and the pixel size of one cell.
#[derive(Debug)]
pub struct ImageSize {
    pub width: u32,
    pub height: u32,
    pub cell_width: u32,
    pub cell_height: u32,
}

/// One switch per information module.
#[derive(Debug)]
pub struct ModulesConfig {
    pub show_versions: bool,
    pub os: bool,
    pub kernel: bool,
    pub linux: bool,
    pub uptime: bool,
    pub os_age: bool,
    pub packages: bool,
    pub flatpak_packages: bool,
    pub packages_combined: bool,
    pub shell: bool,
    pub resolution: bool,
    pub network: bool,
    pub public_ip: bool,
    pub de: bool,
    pub wm: bool,
    pub theme: bool,
    pub icons: bool,
    pub terminal: bool,
    pub terminal_shell_combined: bool,
    pub font: bool,
    pub user: bool,
    pub hostname: bool,
    pub user_at_host: bool,
    pub cpu: bool,
    pub cpu_temp: bool,
    pub gpu: bool,
    pub gpu_temp: bool,
    pub temp_combined: bool,
    pub gpu_driver: bool,
    pub memory: bool,
    pub disk: bool,
    pub dysk: bool,
    pub battery: bool,
    pub locale: bool,
    pub display_names: ModuleDisplayConfig,
}

/// An optional label per module; `None` keeps the built-in label.
#[derive(Debug)]
pub struct ModuleDisplayConfig {
    pub user_at_host: Option<String>,
    pub os: Option<String>,
    pub kernel: Option<String>,
    pub linux: Option<String>,
    pub uptime: Option<String>,
    pub os_age: Option<String>,
    pub packages: Option<String>,
    pub shell: Option<String>,
    pub resolution: Option<String>,
    pub network: Option<String>,
    pub public_ip: Option<String>,
    pub de: Option<String>,
    pub wm: Option<String>,
    pub theme: Option<String>,
    pub icons: Option<String>,
    pub terminal: Option<String>,
    pub terminal_shell_combined: Option<String>,
    pub font: Option<String>,
    pub user: Option<String>,
    pub hostname: Option<String>,
    pub cpu: Option<String>,
    pub cpu_temp: Option<String>,
    pub gpu: Option<String>,
    pub gpu_temp: Option<String>,
    pub temp_combined: Option<String>,
    pub gpu_driver: Option<String>,
    pub memory: Option<String>,
    pub disk: Option<String>,
    pub dysk: Option<String>,
    pub battery: Option<String>,
    pub locale: Option<String>,
}

/// Message-of-the-day settings.
#[derive(Debug)]
pub struct MotdConfig {
    pub enabled: bool,
    pub messages: Vec<String>,
    pub random: bool,
    pub color: String,
}

/// Every module label left at its built-in value.
pub open spec fn all_labels_default(d: ModuleDisplayConfig) -> bool {
    d.user_at_host.is_none()
        && d.os.is_none()
        && d.kernel.is_none()
        && d.linux.is_none()
        && d.uptime.is_none()
        && d.os_age.is_none()
        && d.packages.is_none()
        && d.shell.is_none()
        && d.resolution.is_none()
        && d.network.is_none()
        && d.public_ip.is_none()
        && d.de.is_none()
        && d.wm.is_none()
        && d.theme.is_none()
        && d.icons.is_none()
        && d.terminal.is_none()
        && d.terminal_shell_combined.is_none()
        && d.font.is_none()
        && d.user.is_none()
        && d.hostname.is_none()
        && d.cpu.is_none()
        && d.cpu_temp.is_none()
        && d.gpu.is_none()
        && d.gpu_temp.is_none()
        && d.temp_combined.is_none()
        && d.gpu_driver.is_none()
        && d.memory.is_none()
        && d.disk.is_none()
        && d.dysk.is_none()
        && d.battery.is_none()
        && d.locale.is_none()
}

/// The module switches of a configuration made from defaults.
pub open spec fn default_switches(m: ModulesConfig) -> bool {
    m.show_versions
        && m.os
        && m.kernel
        && m.linux
        && m.uptime
        && m.os_age
        && !m.packages
        && !m.flatpak_packages
        && m.packages_combined
        && m.shell
        && m.resolution
        && m.network
        && !m.public_ip
        && m.de
        && m.wm
        && !m.theme
        && !m.icons
        && m.terminal
        && !m.terminal_shell_combined
        && m.font
        && m.user
        && m.hostname
        && m.user_at_host
        && m.cpu
        && m.cpu_temp
        && m.gpu
        && m.gpu_temp
        && !m.temp_combined
        && m.gpu_driver
        && m.memory
        && m.disk
        && m.dysk
        && m.battery
        && !m.locale
        && all_labels_default(m.display_names)
}

impl ModuleDisplayConfig {
    /// No label overridden.
    pub fn empty() -> (r: ModuleDisplayConfig)
        ensures
            all_labels_default(r),
    {
        ModuleDisplayConfig {
            user_at_host: None,
            os: None,
            kernel: None,
            linux: None,
            uptime: None,
            os_age: None,
            packages: None,
            shell: None,
            resolution: None,
            network: None,
            public_ip: None,
            de: None,
            wm: None,
            theme: None,
            icons: None,
            terminal: None,
            terminal_shell_combined: None,
            font: None,
            user: None,
            hostname: None,
            cpu: None,
            cpu_temp: None,
            gpu: None,
            gpu_temp: None,
            temp_combined: None,
            gpu_driver: None,
            memory: None,
            disk: None,
            dysk: None,
            battery: None,
            locale: None,
        }
    }
}

impl ModulesConfig {
    /// The default module set.
    pub fn standard() -> (r: ModulesConfig)
        ensures
            default_switches(r),
    {
        ModulesConfig {
            show_versions: true,
            os: true,
            kernel: true,
            linux: true,
            uptime: true,
            os_age: true,
            packages: false,
            flatpak_packages: false,
            packages_combined: true,
            shell: true,
            resolution: true,
            network: true,
            public_ip: false,
            de: true,
            wm: true,
            theme: false,
            icons: false,
            terminal: true,
            terminal_shell_combined: false,
            font: true,
            user: true,
            hostname: true,
            user_at_host: true,
            cpu: true,
            cpu_temp: true,
            gpu: true,
            gpu_temp: true,
            temp_combined: false,
            gpu_driver: true,
            memory: true,
            disk: true,
            dysk: true,
            battery: true,
            locale: false,
            display_names: ModuleDisplayConfig::empty(),
        }
    }
}

impl GeneralConfig {
    /// The default title, separator and colours.
    pub fn standard() -> (r: GeneralConfig)
        ensures
            r.show_title,
            r.title matches Some(t) && t@ == "System Information"@,
            r.separator.symbol@ == "->"@,
            r.separator.space_before == 1,
            r.separator.space_after == 1,
            !r.separator.align_separator,
            r.colors.title@ == "#00FFFF"@,
            r.colors.module@ == "#00FFFF"@,
            r.colors.info@ == "#FFFFFF"@,
            r.colors.separator@ == "#5555FF"@,
    {
        GeneralConfig {
            show_title: true,
            title: Some("System Information".to_string()),
            separator: SeparatorConfig {
                symbol: "->".to_string(),
                space_before: 1,
                space_after: 1,
                align_separator: false,
            },
            colors: ColorsConfig {
                title: "#00FFFF".to_string(),
                module: "#00FFFF".to_string(),
                info: "#FFFFFF".to_string(),
                separator: "#5555FF".to_string(),
            },
        }
    }
}

impl ImageSize {
    /// A 40 by 20 cell image, with cells of 10 by 20 pixels.
    pub fn standard() -> (r: ImageSize)
        ensures
            r.width == 40 && r.height == 20,
            r.cell_width == 10 && r.cell_height == 20,
    {
        ImageSize { width: 40, height: 20, cell_width: 10, cell_height: 20 }
    }
}

impl MotdConfig {
    /// Three greetings, picked at random, in bright green.
    pub fn standard() -> (r: MotdConfig)
        ensures
            r.enabled && r.random,
            r.messages@.len() == 3,
            r.messages@[0]@ == "Welcome to your system!"@,
            r.messages@[1]@ == "Have a great day!"@,
            r.messages@[2]@ == "Ready to code!"@,
            r.color@ == "#00FF00"@,
    {
        let messages = vec![
            "Welcome to your system!".to_string(),
            "Have a great day!".to_string(),
            "Ready to code!".to_string(),
        ];
        MotdConfig { enabled: true, messages, random: true, color: "#00FF00".to_string() }
    }
}

} // verus!
