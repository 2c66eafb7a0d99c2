use vstd::prelude::*;
use vstd::string::*;

verus! {

/// The command-line overrides the daemon launcher passes to the platform
/// runtime's init command.
pub struct DaemonOverrides {
    pub webui_listen_address: String,
    pub no_compile: bool,
    pub start_port: u16,
    pub skip_registration: bool,
    pub disable_template_auto_register: bool,
}

/// The configuration the daemon launcher hands to the platform runtime.
pub struct DaemonConfig {
    pub base_dir: String,
    pub start_port: u16,
    pub webserver_bind_address: String,
    pub force_compile: bool,
    pub skip_registration: bool,
    pub auto_register_previous_templates: bool,
}

/// Everything a daemon launch fixes before the process is spawned.
pub struct DaemonLaunchPlan {
    pub base_dir: String,
    pub config_path: String,
    pub overrides: DaemonOverrides,
    pub config: DaemonConfig,
}

/// Prepares the launch of the external platform runtime daemon: the init
/// command listens for its web UI on loopback port 18000 and hands out
/// process ports from 18000 up, while the runtime configuration binds its
/// webserver to loopback port 8080, starts with no managed processes, and
/// skips registration but re-registers previously seen templates.
pub fn swarm_daemon_settings(data_dir_path: String, config_file: String) -> (r: DaemonLaunchPlan)
    ensures
        r.base_dir@ == data_dir_path@,
        r.config_path@ == config_file@,
        r.overrides.webui_listen_address@ == "127.0.0.1:18000"@,
        !r.overrides.no_compile,
        r.overrides.start_port == 18000,
        !r.overrides.skip_registration,
        !r.overrides.disable_template_auto_register,
        r.config.base_dir@ == data_dir_path@,
        r.config.start_port == 18000,
        r.config.webserver_bind_address@ == "127.0.0.1:8080"@,
        !r.config.force_compile,
        r.config.skip_registration,
        r.config.auto_register_previous_templates,
{
    let base_for_config = data_dir_path.clone();
    DaemonLaunchPlan {
        base_dir: data_dir_path,
        config_path: config_file,
        overrides: DaemonOverrides {
            webui_listen_address: String::from_str("127.0.0.1:18000"),
            no_compile: false,
            start_port: 18000,
            skip_registration: false,
            disable_template_auto_register: false,
        },
        config: DaemonConfig {
            base_dir: base_for_config,
            start_port: 18000,
            webserver_bind_address: String::from_str("127.0.0.1:8080"),
            force_compile: false,
            skip_registration: true,
            auto_register_previous_templates: true,
        },
    }
}

} // verus!
