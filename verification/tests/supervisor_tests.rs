use tapplet_host::error::{Error, TappletServerError};
use tapplet_host::swarm_daemon::swarm_daemon_settings;
use tapplet_host::tapplet_server::{
    advance_phase, interpret_config_read, interpret_manifest_read, prepare_tapplet_server,
    serve_outcome, ServerEvent, ServerPhase, TappletConfig, TappletManifest,
};
use tapplet_host::Tokens;

#[test]
fn lifecycle_follows_the_design() {
    let p = ServerPhase::Allocating;
    let p = advance_phase(p, ServerEvent::PortAssigned);
    assert_eq!(p, ServerPhase::Binding);
    let p = advance_phase(p, ServerEvent::BindSucceeded);
    assert_eq!(p, ServerPhase::Running);
    let p = advance_phase(p, ServerEvent::CancelRequested);
    assert_eq!(p, ServerPhase::Draining);
    let p = advance_phase(p, ServerEvent::Drained);
    assert_eq!(p, ServerPhase::Stopped);
}

#[test]
fn failures_stop_the_server_directly() {
    assert_eq!(
        advance_phase(ServerPhase::Allocating, ServerEvent::AllocationFailed),
        ServerPhase::Stopped
    );
    assert_eq!(advance_phase(ServerPhase::Binding, ServerEvent::BindFailed), ServerPhase::Stopped);
    assert_eq!(advance_phase(ServerPhase::Running, ServerEvent::ServeFailed), ServerPhase::Stopped);
}

#[test]
fn only_cancellation_starts_draining() {
    let phases = [
        ServerPhase::Allocating,
        ServerPhase::Binding,
        ServerPhase::Running,
        ServerPhase::Stopped,
    ];
    let events = [
        ServerEvent::PortAssigned,
        ServerEvent::AllocationFailed,
        ServerEvent::BindSucceeded,
        ServerEvent::BindFailed,
        ServerEvent::CancelRequested,
        ServerEvent::ServeFailed,
        ServerEvent::Drained,
    ];
    for p in phases.iter() {
        for e in events.iter() {
            let next = advance_phase(*p, *e);
            if next == ServerPhase::Draining {
                assert_eq!(*p, ServerPhase::Running);
                assert_eq!(*e, ServerEvent::CancelRequested);
            }
        }
    }
}

#[test]
fn bind_failure_reports_the_requested_address() {
    let r = serve_outcome(false, String::from("127.0.0.1:18000"), None);
    match r {
        Err(Error::TappletServerError(TappletServerError::BindPortError { port })) => {
            assert_eq!(port, "127.0.0.1:18000");
        },
        _ => panic!("expected BindPortError"),
    }
}

#[test]
fn missing_local_address_is_reported() {
    let r = serve_outcome(true, String::from("127.0.0.1:0"), None);
    assert!(matches!(
        r,
        Err(Error::TappletServerError(TappletServerError::FailedToObtainLocalAddress))
    ));
}

#[test]
fn successful_bind_reports_the_actual_address() {
    // The caller sees the listener's local address, not the requested one.
    let r = serve_outcome(true, String::from("127.0.0.1:0"), Some(String::from("127.0.0.1:49123")));
    assert_eq!(r.unwrap(), "127.0.0.1:49123");
}

#[test]
fn launch_plan_fixes_address_and_csp() {
    let plan = prepare_tapplet_server("\"default-src 'self'\"", 18734);
    assert_eq!(plan.bind_addr, "127.0.0.1:18734");
    assert_eq!(plan.csp_header, "default-src 'self'");
}

#[test]
fn missing_config_file_is_its_own_error() {
    let r = interpret_config_read(false, Err(String::from("unused")));
    assert!(matches!(r, Err(Error::TappletConfigNotFound)));
}

#[test]
fn unparsable_config_surfaces_the_diagnostic() {
    let r = interpret_config_read(true, Err(String::from("expected value at line 1")));
    match r {
        Err(Error::JsonParsingError(detail)) => {
            assert_eq!(detail, "expected value at line 1");
        },
        _ => panic!("expected JsonParsingError"),
    }
}

#[test]
fn parsed_config_is_handed_through() {
    let config = TappletConfig {
        csp: String::from("default-src 'self'"),
        display_name: String::from("App"),
        permissions: vec![String::from("requiredPermission")],
    };
    let r = interpret_config_read(true, Ok(config)).unwrap();
    assert_eq!(r.csp, "default-src 'self'");
    assert_eq!(r.display_name, "App");
    assert_eq!(r.permissions.len(), 1);
}

#[test]
fn manifest_loading_follows_the_config_policy() {
    let r = interpret_manifest_read(false, Err(String::from("unused")));
    assert!(matches!(r, Err(Error::TappletConfigNotFound)));
    let manifest = TappletManifest {
        package_name: String::from("demo-tapplet"),
        version: String::from("1.0.0"),
    };
    let r = interpret_manifest_read(true, Ok(manifest)).unwrap();
    assert_eq!(r.package_name, "demo-tapplet");
    assert_eq!(r.version, "1.0.0");
}

#[test]
fn error_labels_are_stable() {
    assert_eq!(Error::TappletConfigNotFound.describe(), "tapplet config file not found");
    assert_eq!(
        Error::TappletServerError(TappletServerError::FailedToStart).describe(),
        "failed to start server"
    );
}

#[test]
fn daemon_settings_pin_the_runtime_endpoints() {
    let plan = swarm_daemon_settings(
        String::from("/data/tari"),
        String::from("/data/tari/swarm.toml"),
    );
    assert_eq!(plan.base_dir, "/data/tari");
    assert_eq!(plan.config_path, "/data/tari/swarm.toml");
    assert_eq!(plan.overrides.webui_listen_address, "127.0.0.1:18000");
    assert_eq!(plan.overrides.start_port, 18000);
    assert!(!plan.overrides.no_compile);
    assert!(!plan.overrides.skip_registration);
    assert!(!plan.overrides.disable_template_auto_register);
    assert_eq!(plan.config.base_dir, "/data/tari");
    assert_eq!(plan.config.start_port, 18000);
    assert_eq!(plan.config.webserver_bind_address, "127.0.0.1:8080");
    assert!(!plan.config.force_compile);
    assert!(plan.config.skip_registration);
    assert!(plan.config.auto_register_previous_templates);
}

#[test]
fn tokens_hold_their_material() {
    let t = Tokens { auth: String::from("auth-token"), permission: String::from("perm-token") };
    assert_eq!(t.auth, "auth-token");
    assert_eq!(t.permission, "perm-token");
}
