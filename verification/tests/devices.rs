use tapo_gateway::config::{TapoConnectionInfos, TapoCredentials};
use tapo_gateway::devices::{connect_error_message, ConnAccess, TapoDevice};
use tapo_gateway::logger::{level_color, Level, LevelFilter, LogColor, Logger};
use tapo_gateway::server::actions::TapoDeviceType;
use tapo_gateway::server::discovery::discover_devices;
use tapo_gateway::server::errors::ApiError;
use tapo_gateway::server::loader::build_devices;
use tapo_gateway::server::sessions::{plan_refresh, refresh_result, RefreshDeviceSessionParams};
use tapo_gateway::server::state::LoadedConfig;
use tapo_gateway::config::Config;

fn sample_device(name: &str) -> TapoDevice {
    TapoDevice::new(
        TapoConnectionInfos {
            name: name.to_string(),
            device_type: TapoDeviceType::P110,
            ip_addr: "10.0.0.9".to_string(),
        },
        TapoCredentials {
            email: "user@example.com".to_string(),
            password: "SECRET-REDACTED".to_string(),
        },
    )
}

#[test]
fn concurrent_accesses_log_in_exactly_once() {
    // N serialized accesses against an initially disconnected device: the
    // first one has to log in, every later one reuses the cached session.
    let mut device = sample_device("meter");
    let mut logins = 0;
    for _ in 0..10 {
        match device.access_plan() {
            ConnAccess::Login => {
                logins += 1;
                device.record_login(true);
            }
            ConnAccess::Reuse => {}
        }
    }
    assert_eq!(logins, 1);
}

#[test]
fn failed_login_is_never_cached() {
    let mut device = sample_device("meter");
    assert_eq!(device.access_plan(), ConnAccess::Login);
    device.record_login(false);
    // The failure was not cached: the next access retries from scratch.
    assert_eq!(device.access_plan(), ConnAccess::Login);
    device.record_login(true);
    assert_eq!(device.access_plan(), ConnAccess::Reuse);
}

#[test]
fn new_devices_start_disconnected() {
    let config = Config {
        tapo_credentials: TapoCredentials {
            email: "user@example.com".to_string(),
            password: "SECRET-REDACTED".to_string(),
        },
        devices: vec![
            TapoConnectionInfos {
                name: "a".to_string(),
                device_type: TapoDeviceType::L510,
                ip_addr: "10.0.0.1".to_string(),
            },
            TapoConnectionInfos {
                name: "b".to_string(),
                device_type: TapoDeviceType::P300,
                ip_addr: "10.0.0.2".to_string(),
            },
        ],
        server_password: "pw".to_string(),
    };
    let devices = build_devices(&config);
    assert_eq!(devices.len(), 2);
    for d in &devices {
        assert_eq!(d.access_plan(), ConnAccess::Login);
    }
    assert_eq!(devices[0].conn_infos().name, "a");
    assert_eq!(devices[1].conn_infos().device_type, TapoDeviceType::P300);

    let reg = LoadedConfig::new(config, devices);
    let found = discover_devices(&reg);
    assert_eq!(found.devices.len(), 2);
    assert_eq!(found.devices[0].name, "a");
    assert_eq!(found.devices[1].device_type, TapoDeviceType::P300);
}

#[test]
fn connect_error_names_the_device() {
    let msg = connect_error_message(TapoDeviceType::P110M, "meter", "timed out");
    assert_eq!(msg, "Failed to connect to P110M plug 'meter': timed out");
}

#[test]
fn refresh_keeps_the_connection_as_is() {
    let mut device = sample_device("meter");
    device.record_login(true);
    device.record_refresh(false);
    assert_eq!(device.access_plan(), ConnAccess::Reuse);
}

#[test]
fn refresh_route_reports_unknown_devices() {
    let config = Config {
        tapo_credentials: TapoCredentials {
            email: "user@example.com".to_string(),
            password: "SECRET-REDACTED".to_string(),
        },
        devices: vec![],
        server_password: "pw".to_string(),
    };
    let devices = build_devices(&config);
    let reg = LoadedConfig::new(config, devices);
    let params = RefreshDeviceSessionParams { device: "ghost".to_string() };
    let err = plan_refresh(&reg, &params).unwrap_err();
    assert_eq!(err.code(), 500);
    assert_eq!(err.message().as_str(), "Unkown device: ghost");
}

#[test]
fn refresh_failure_is_a_server_error() {
    assert!(refresh_result(Ok(())).is_ok());
    let err = refresh_result(Err("device gone".to_string())).unwrap_err();
    assert_eq!(err.code(), 500);
    assert_eq!(err.message().as_str(), "Failed to refresh device's session");
}

#[test]
fn reload_outcome_is_reported() {
    assert_eq!(LoadedConfig::reload_response(Ok(())), "OK");
    assert_eq!(
        LoadedConfig::reload_response(Err("config gone".to_string())),
        "Error: config gone"
    );
}

#[test]
fn api_errors_carry_code_and_message() {
    let e = ApiError::new(404, "nothing here".to_string());
    assert_eq!(e.code(), 404);
    assert_eq!(e.message().as_str(), "nothing here");
    let u = ApiError::from_upstream("driver said no".to_string());
    assert_eq!(u.code(), 500);
    assert_eq!(u.message().as_str(), "driver said no");
}

#[test]
fn logger_filters_by_severity() {
    let logger = Logger::new(LevelFilter::Info);
    assert!(logger.enabled(Level::Error));
    assert!(logger.enabled(Level::Warn));
    assert!(logger.enabled(Level::Info));
    assert!(!logger.enabled(Level::Debug));
    assert!(!logger.enabled(Level::Trace));
    let off = Logger::new(LevelFilter::Off);
    assert!(!off.enabled(Level::Error));
}

#[test]
fn log_colors_by_severity() {
    assert_eq!(level_color(Level::Error), LogColor::BrightRed);
    assert_eq!(level_color(Level::Warn), LogColor::BrightYellow);
    assert_eq!(level_color(Level::Info), LogColor::BrightBlue);
    assert_eq!(level_color(Level::Debug), LogColor::BrightMagenta);
    assert_eq!(level_color(Level::Trace), LogColor::BrightBlack);
}
