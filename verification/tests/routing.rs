use tapo_gateway::config::{Config, TapoConnectionInfos, TapoCredentials};
use tapo_gateway::server::actions::{
    action_uris, actions_index_text, dispatch, parse_color, parse_preset, resolve_route,
    ActionKind, CapabilityGroup, Color, Invocation, LightingEffectPreset, TapoDeviceType,
};
use tapo_gateway::server::dates::{parse_date, Date};
use tapo_gateway::server::loader::build_devices;
use tapo_gateway::server::state::LoadedConfig;

fn config_of(devices: Vec<(&str, TapoDeviceType, &str)>) -> Config {
    Config {
        tapo_credentials: TapoCredentials {
            email: "user@example.com".to_string(),
            password: "SECRET-REDACTED".to_string(),
        },
        devices: devices
            .into_iter()
            .map(|(name, device_type, ip_addr)| TapoConnectionInfos {
                name: name.to_string(),
                device_type,
                ip_addr: ip_addr.to_string(),
            })
            .collect(),
        server_password: "gateway-pass".to_string(),
    }
}

fn registry_of(devices: Vec<(&str, TapoDeviceType, &str)>) -> LoadedConfig {
    let config = config_of(devices);
    let built = build_devices(&config);
    LoadedConfig::new(config, built)
}

fn pairs(kv: &[(&str, &str)]) -> Vec<(String, String)> {
    kv.iter().map(|(k, v)| (k.to_string(), v.to_string())).collect()
}

#[test]
fn color_action_on_simple_plug_is_category_mismatch() {
    let reg = registry_of(vec![("socket", TapoDeviceType::P100, "10.0.0.2")]);
    let q = pairs(&[("device", "socket"), ("color", "AliceBlue")]);
    let err = dispatch(&reg, TapoDeviceType::L530, ActionKind::SetColor, &q).unwrap_err();
    assert_eq!(err.code(), 400);
    assert_eq!(
        err.message(),
        "This route is reserved to L530, L535, L630 devices, but the provided name refers to a P100 device"
    );
}

#[test]
fn alias_models_share_a_route() {
    // The route of one group member accepts a device of any member model.
    let reg = registry_of(vec![("bulb", TapoDeviceType::L610, "10.0.0.3")]);
    let q = pairs(&[("device", "bulb")]);
    let (idx, inv) = dispatch(&reg, TapoDeviceType::L510, ActionKind::On, &q).unwrap();
    assert_eq!(idx, 0);
    assert_eq!(inv, Invocation::On);
}

#[test]
fn unknown_device_is_not_found() {
    let reg = registry_of(vec![("socket", TapoDeviceType::P100, "10.0.0.2")]);
    let q = pairs(&[("device", "other")]);
    let err = dispatch(&reg, TapoDeviceType::P100, ActionKind::On, &q).unwrap_err();
    assert_eq!(err.code(), 404);
    assert_eq!(err.message().as_str(), "Provided device name was not found");
}

#[test]
fn missing_device_parameter_is_bad_request() {
    let reg = registry_of(vec![("socket", TapoDeviceType::P100, "10.0.0.2")]);
    let q = pairs(&[]);
    let err = dispatch(&reg, TapoDeviceType::P100, ActionKind::On, &q).unwrap_err();
    assert_eq!(err.code(), 400);
    assert_eq!(err.message().as_str(), "Invalid query parameters");
}

#[test]
fn hourly_energy_data_forwards_the_exact_range() {
    let reg = registry_of(vec![("meter", TapoDeviceType::P110, "10.0.0.4")]);
    let q = pairs(&[
        ("device", "meter"),
        ("start_date", "2024-01-01"),
        ("end_date", "2024-01-02"),
    ]);
    let (idx, inv) =
        dispatch(&reg, TapoDeviceType::P110, ActionKind::GetHourlyEnergyData, &q).unwrap();
    assert_eq!(idx, 0);
    assert_eq!(
        inv,
        Invocation::GetHourlyEnergyData {
            start: Date { year: 2024, month: 1, day: 1 },
            end: Date { year: 2024, month: 1, day: 2 },
        }
    );
}

#[test]
fn hourly_energy_data_end_defaults_to_start() {
    let reg = registry_of(vec![("meter", TapoDeviceType::P115, "10.0.0.4")]);
    let q = pairs(&[("device", "meter"), ("start_date", "2024-03-05")]);
    let (_, inv) =
        dispatch(&reg, TapoDeviceType::P110, ActionKind::GetHourlyEnergyData, &q).unwrap();
    assert_eq!(
        inv,
        Invocation::GetHourlyEnergyData {
            start: Date { year: 2024, month: 3, day: 5 },
            end: Date { year: 2024, month: 3, day: 5 },
        }
    );
}

#[test]
fn brightness_is_validated() {
    let reg = registry_of(vec![("lamp", TapoDeviceType::L510, "10.0.0.5")]);
    let ok = pairs(&[("device", "lamp"), ("level", "100")]);
    let (_, inv) = dispatch(&reg, TapoDeviceType::L510, ActionKind::SetBrightness, &ok).unwrap();
    assert_eq!(inv, Invocation::SetBrightness { level: 100 });

    let over = pairs(&[("device", "lamp"), ("level", "101")]);
    let err = dispatch(&reg, TapoDeviceType::L510, ActionKind::SetBrightness, &over).unwrap_err();
    assert_eq!(err.code(), 400);

    let junk = pairs(&[("device", "lamp"), ("level", "bright")]);
    let err = dispatch(&reg, TapoDeviceType::L510, ActionKind::SetBrightness, &junk).unwrap_err();
    assert_eq!(err.code(), 400);
}

#[test]
fn hue_and_saturation_are_validated() {
    let reg = registry_of(vec![("lamp", TapoDeviceType::L530, "10.0.0.5")]);
    let ok = pairs(&[("device", "lamp"), ("hue", "360"), ("saturation", "100")]);
    let (_, inv) =
        dispatch(&reg, TapoDeviceType::L530, ActionKind::SetHueSaturation, &ok).unwrap();
    assert_eq!(inv, Invocation::SetHueSaturation { hue: 360, saturation: 100 });

    let bad = pairs(&[("device", "lamp"), ("hue", "361"), ("saturation", "100")]);
    assert!(dispatch(&reg, TapoDeviceType::L530, ActionKind::SetHueSaturation, &bad).is_err());
}

#[test]
fn reload_drops_removed_devices_and_keeps_the_rest() {
    let reg = registry_of(vec![
        ("lamp", TapoDeviceType::L510, "10.0.0.5"),
        ("socket", TapoDeviceType::P100, "10.0.0.2"),
    ]);
    assert!(reg.find_device("lamp").is_some());
    assert!(reg.find_device("socket").is_some());

    // The configuration loses one device; the registry is rebuilt wholesale.
    let reloaded = registry_of(vec![("lamp", TapoDeviceType::L510, "10.0.0.5")]);
    assert!(reloaded.find_device("lamp").is_some());
    assert!(reloaded.find_device("socket").is_none());

    let q = pairs(&[("device", "socket")]);
    let err = dispatch(&reloaded, TapoDeviceType::P100, ActionKind::On, &q).unwrap_err();
    assert_eq!(err.code(), 404);

    let q = pairs(&[("device", "lamp")]);
    assert!(dispatch(&reloaded, TapoDeviceType::L510, ActionKind::On, &q).is_ok());
}

#[test]
fn duplicate_names_keep_the_last_configuration() {
    let reg = registry_of(vec![
        ("lamp", TapoDeviceType::L510, "10.0.0.5"),
        ("lamp", TapoDeviceType::L530, "10.0.0.6"),
    ]);
    let infos = reg.device_infos();
    assert_eq!(infos.len(), 1);
    assert_eq!(infos[0].ip_addr, "10.0.0.6");
}

#[test]
fn routes_resolve_exactly_when_the_group_declares_the_action() {
    assert_eq!(
        resolve_route("l510", "on"),
        Some((TapoDeviceType::L510, ActionKind::On))
    );
    assert_eq!(
        resolve_route("p110", "get-current-power"),
        Some((TapoDeviceType::P110, ActionKind::GetCurrentPower))
    );
    assert_eq!(resolve_route("l510", "set-color"), None);
    assert_eq!(resolve_route("p100", "get-energy-usage"), None);
    assert_eq!(resolve_route("p300", "on"), None);
    assert_eq!(resolve_route("x999", "on"), None);
    assert_eq!(resolve_route("l510", "explode"), None);
}

#[test]
fn route_listing_matches_the_table() {
    let uris = action_uris();
    assert_eq!(uris.len(), 108);
    assert_eq!(uris[0], "/l510/on");
    // Routes are listed model by model in table order: the three dimmable
    // bulbs first, five actions each, then the color bulbs.
    assert_eq!(uris[5], "/l520/on");
    assert_eq!(uris[15], "/l530/on");
    assert_eq!(uris[107], "/p316/get-child-device-list");
    assert!(uris.contains(&"/l920/set-lighting-effect".to_string()));
    assert!(uris.contains(&"/p110m/get-hourly-energy-data".to_string()));
    assert!(uris.contains(&"/p316/get-child-device-list".to_string()));
    assert!(!uris.contains(&"/p100/set-brightness".to_string()));
    let joined = actions_index_text(&uris);
    assert_eq!(joined.lines().count(), 108);
    assert!(joined.starts_with("/l510/on\n/l510/off"));
}

#[test]
fn model_vocabulary() {
    assert_eq!(TapoDeviceType::P110M.model_name(), "P110M");
    assert_eq!(TapoDeviceType::P110M.type_description(), "plug");
    assert_eq!(TapoDeviceType::L920.type_description(), "light strip");
    assert_eq!(TapoDeviceType::P110M.driver_model(), TapoDeviceType::P110);
    assert_eq!(TapoDeviceType::P304M.driver_model(), TapoDeviceType::P304);
    assert_eq!(TapoDeviceType::L535.driver_model(), TapoDeviceType::L535);
    assert_eq!(TapoDeviceType::L610.group(), CapabilityGroup::Bulb);
    assert_eq!(TapoDeviceType::P316.group(), CapabilityGroup::PowerStrip);
}

#[test]
fn date_parsing_follows_the_calendar() {
    assert_eq!(
        parse_date("2024-02-29"),
        Some(Date { year: 2024, month: 2, day: 29 })
    );
    assert_eq!(parse_date("2023-02-29"), None);
    assert_eq!(parse_date("1900-02-29"), None);
    assert_eq!(
        parse_date("2000-02-29"),
        Some(Date { year: 2000, month: 2, day: 29 })
    );
    assert_eq!(parse_date("2024-13-01"), None);
    assert_eq!(parse_date("2024-00-01"), None);
    assert_eq!(parse_date("2024-04-31"), None);
    assert_eq!(parse_date("2024-1-1"), None);
    assert_eq!(parse_date("20240101"), None);
    assert_eq!(parse_date(""), None);
}

#[test]
fn color_and_preset_names_parse() {
    assert_eq!(parse_color("AliceBlue"), Some(Color::AliceBlue));
    assert_eq!(parse_color("ForestGreen"), Some(Color::ForestGreen));
    assert_eq!(parse_color("aliceblue"), None);
    assert_eq!(parse_preset("Aurora"), Some(LightingEffectPreset::Aurora));
    assert_eq!(
        parse_preset("GrandmasChristmasLights"),
        Some(LightingEffectPreset::GrandmasChristmasLights)
    );
    assert_eq!(parse_preset("Disco"), None);
}
