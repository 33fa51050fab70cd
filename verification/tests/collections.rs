use mullvad_daemon::offline::MonitorHandle;
use mullvad_daemon::relay_constraints::{
    cipher_is_supported, resolve_location_constraint, validate_proxy_settings, Constraint,
    LocalProxySettings, LocationConstraint, ProxySettings, RelayConstraints,
    RelayConstraintsUpdate, RelaySettings, RelaySettingsUpdate, ShadowsocksProxySettings,
    ValidationError,
};
use mullvad_daemon::relay_list::{
    filter_bridge_relays, sort_cities_by_name, sort_countries_by_name,
    sort_relays_by_hostname, Relay, RelayBridges, RelayList, RelayListCity, RelayListCountry,
};
use mullvad_daemon::split_tunnel::{encode_utf16_units, Error, SplitTunnel, WinExcludeUpdateStatus};
use mullvad_daemon::tunnel_state_machine::TunnelCommand;

fn shadowsocks() -> ShadowsocksProxySettings {
    ShadowsocksProxySettings {
        peer_address: "185.65.134.2".to_string(),
        peer_port: 443,
        password: "mullvad".to_string(),
        cipher: "chacha20".to_string(),
    }
}

fn bridge_relay(hostname: &str) -> Relay {
    Relay {
        hostname: hostname.to_string(),
        ipv4_addr_in: "185.65.134.3".to_string(),
        active: true,
        bridges: Some(RelayBridges { shadowsocks: vec![shadowsocks()] }),
    }
}

fn plain_relay(hostname: &str) -> Relay {
    Relay {
        hostname: hostname.to_string(),
        ipv4_addr_in: "185.65.134.4".to_string(),
        active: true,
        bridges: None,
    }
}

fn city(code: &str, relays: Vec<Relay>) -> RelayListCity {
    RelayListCity { name: code.to_string(), code: code.to_string(), relays }
}

fn country(name: &str, cities: Vec<RelayListCity>) -> RelayListCountry {
    RelayListCountry { name: name.to_string(), code: name.to_string(), cities }
}

#[test]
fn ciphers_are_validated() {
    assert!(cipher_is_supported("chacha20"));
    assert!(cipher_is_supported("aes-256-cfb"));
    assert!(!cipher_is_supported("rot13"));
    let mut proxy = shadowsocks();
    proxy.cipher = "rot13".to_string();
    assert_eq!(
        validate_proxy_settings(&ProxySettings::Shadowsocks(proxy)),
        Err(ValidationError::UnsupportedCipher),
    );
    assert_eq!(
        validate_proxy_settings(&ProxySettings::Shadowsocks(shadowsocks())),
        Ok(()),
    );
}

#[test]
fn proxy_ports_and_addresses_are_validated() {
    let valid = LocalProxySettings {
        port: 1080,
        peer_address: "10.0.0.1".to_string(),
        peer_port: 1081,
    };
    assert_eq!(validate_proxy_settings(&ProxySettings::Local(valid.clone())), Ok(()));
    let mut no_port = valid.clone();
    no_port.port = 0;
    assert_eq!(
        validate_proxy_settings(&ProxySettings::Local(no_port)),
        Err(ValidationError::InvalidPort),
    );
    let mut no_peer = valid;
    no_peer.peer_address = String::new();
    assert_eq!(
        validate_proxy_settings(&ProxySettings::Local(no_peer)),
        Err(ValidationError::EmptyAddress),
    );
}

#[test]
fn location_lists_resolve_by_length() {
    assert_eq!(resolve_location_constraint(&vec![]), Ok(Constraint::Any));
    assert_eq!(
        resolve_location_constraint(&vec!["se".to_string()]),
        Ok(Constraint::Only(LocationConstraint::Country("se".to_string()))),
    );
    assert_eq!(
        resolve_location_constraint(&vec!["se".to_string(), "got".to_string()]),
        Ok(Constraint::Only(LocationConstraint::City("se".to_string(), "got".to_string()))),
    );
    assert_eq!(
        resolve_location_constraint(&vec![
            "se".to_string(),
            "got".to_string(),
            "se-got-101".to_string(),
        ]),
        Ok(Constraint::Only(LocationConstraint::Hostname(
            "se".to_string(),
            "got".to_string(),
            "se-got-101".to_string(),
        ))),
    );
    assert_eq!(
        resolve_location_constraint(&vec![
            "a".to_string(),
            "b".to_string(),
            "c".to_string(),
            "d".to_string(),
        ]),
        Err(ValidationError::TooManyLocationParts),
    );
}

#[test]
fn relay_settings_updates_replace_named_fields() {
    let settings = RelaySettings::Normal(RelayConstraints { location: Constraint::Any });
    let unchanged = settings.clone().updated(
        RelaySettingsUpdate::Normal(RelayConstraintsUpdate { location: None }),
    );
    assert_eq!(unchanged, settings);
    let updated = settings.updated(RelaySettingsUpdate::Normal(RelayConstraintsUpdate {
        location: Some(Constraint::Only(LocationConstraint::Country("se".to_string()))),
    }));
    assert_eq!(
        updated,
        RelaySettings::Normal(RelayConstraints {
            location: Constraint::Only(LocationConstraint::Country("se".to_string())),
        }),
    );
}

#[test]
fn bridge_filter_keeps_only_usable_relays() {
    let list = RelayList {
        countries: vec![
            country(
                "sweden",
                vec![
                    city("got", vec![bridge_relay("se-got-001"), plain_relay("se-got-002")]),
                    city("sto", vec![plain_relay("se-sto-001")]),
                ],
            ),
            country("germany", vec![city("ber", vec![plain_relay("de-ber-001")])]),
            country(
                "norway",
                vec![city("osl", vec![
                    Relay {
                        active: false,
                        ..bridge_relay("no-osl-001")
                    },
                    bridge_relay("no-osl-002"),
                ])],
            ),
        ],
    };
    let filtered = filter_bridge_relays(list);
    assert_eq!(filtered.countries.len(), 2);
    assert_eq!(filtered.countries[0].name, "sweden");
    assert_eq!(filtered.countries[0].cities.len(), 1);
    assert_eq!(filtered.countries[0].cities[0].code, "got");
    assert_eq!(filtered.countries[0].cities[0].relays.len(), 1);
    assert_eq!(filtered.countries[0].cities[0].relays[0].hostname, "se-got-001");
    assert_eq!(filtered.countries[1].name, "norway");
    assert_eq!(filtered.countries[1].cities[0].relays.len(), 1);
    assert_eq!(filtered.countries[1].cities[0].relays[0].hostname, "no-osl-002");
}

#[test]
fn countries_sort_in_natural_case_insensitive_order() {
    let mut countries = vec![
        country("B10", vec![]),
        country("b2", vec![]),
        country("a5", vec![]),
    ];
    sort_countries_by_name(&mut countries);
    let names: Vec<&str> = countries.iter().map(|c| c.name.as_str()).collect();
    assert_eq!(names, ["a5", "b2", "B10"]);
}

#[test]
fn utf16_encoding_handles_both_planes() {
    assert_eq!(encode_utf16_units("A"), vec![0x41u16]);
    assert_eq!(encode_utf16_units("AB"), vec![0x41u16, 0x42u16]);
    assert_eq!(encode_utf16_units(""), Vec::<u16>::new());
    // U+1D11E musical symbol G clef: a surrogate pair.
    assert_eq!(encode_utf16_units("\u{1D11E}"), vec![0xD834u16, 0xDD1Eu16]);
}

#[test]
fn split_tunnel_tracks_paths_and_pids() {
    let mut split_tunnel = SplitTunnel::new();
    assert!(split_tunnel.add_path("C:\\games\\steam.exe".to_string()));
    assert!(!split_tunnel.add_path("C:\\games\\steam.exe".to_string()));
    assert!(split_tunnel.has_path("C:\\games\\steam.exe"));
    assert!(split_tunnel.add_pid(1234));
    assert!(!split_tunnel.add_pid(1234));
    assert_eq!(split_tunnel.list_pids(), vec![1234]);
    assert!(split_tunnel.remove_pid(1234));
    assert!(!split_tunnel.remove_pid(1234));
    assert!(split_tunnel.remove_path("C:\\games\\steam.exe"));
    assert!(!split_tunnel.has_path("C:\\games\\steam.exe"));
    split_tunnel.add_pid(1);
    split_tunnel.add_path("p".to_string());
    split_tunnel.clear();
    assert_eq!(split_tunnel.list_pids(), Vec::<i32>::new());
    assert_eq!(split_tunnel.list_paths(), Vec::<String>::new());
}

#[test]
fn set_paths_encodes_for_the_driver() {
    let mut split_tunnel = SplitTunnel::new();
    let encoded = split_tunnel.set_paths(&vec!["AB".to_string()]);
    assert_eq!(encoded, vec![vec![0x41u16, 0x42u16, 0u16]]);
    assert_eq!(split_tunnel.list_paths(), vec!["AB".to_string()]);
}

#[test]
fn driver_status_maps_to_results() {
    assert_eq!(WinExcludeUpdateStatus::Success.to_result(), Ok(()));
    assert_eq!(
        WinExcludeUpdateStatus::NotFound.to_result(),
        Err(Error::UpdatePaths(WinExcludeUpdateStatus::NotFound)),
    );
    assert_eq!(WinExcludeUpdateStatus::Success.describe(), "Updated exclusions paths");
    assert_eq!(
        WinExcludeUpdateStatus::NotFound.describe(),
        "One or more paths were not found",
    );
    assert_eq!(WinExcludeUpdateStatus::InvalidArgument.describe(), "Invalid argument");
}

#[test]
fn connectivity_monitor_reports_only_edges() {
    let mut monitor = MonitorHandle::new(1);
    assert!(!monitor.is_offline());
    assert_eq!(monitor.path_update(2), None);
    assert_eq!(monitor.path_update(0), Some(TunnelCommand::IsOffline(true)));
    assert!(monitor.is_offline());
    assert_eq!(monitor.path_update(0), None);
    assert_eq!(monitor.path_update(3), Some(TunnelCommand::IsOffline(false)));
    assert!(!monitor.is_offline());
}

#[test]
fn cities_sort_in_natural_case_insensitive_order() {
    let mut cities = vec![
        city("Got10", vec![]),
        city("got2", vec![]),
        city("arn", vec![]),
    ];
    sort_cities_by_name(&mut cities);
    let names: Vec<&str> = cities.iter().map(|c| c.name.as_str()).collect();
    assert_eq!(names, ["arn", "got2", "Got10"]);
}

#[test]
fn relays_sort_in_natural_hostname_order() {
    let mut relays = vec![
        bridge_relay("SE-GOT-10"),
        bridge_relay("se-got-2"),
        bridge_relay("se-got-1"),
    ];
    sort_relays_by_hostname(&mut relays);
    let hostnames: Vec<&str> = relays.iter().map(|r| r.hostname.as_str()).collect();
    // digit runs compare as numbers and case is ignored: 1 < 2 < 10
    assert_eq!(hostnames, ["se-got-1", "se-got-2", "SE-GOT-10"]);
}

#[test]
fn set_paths_stores_the_given_list() {
    let mut split_tunnel = SplitTunnel::new();
    let encoded = split_tunnel.set_paths(&vec!["a".to_string(), "a".to_string()]);
    assert_eq!(encoded.len(), 2);
    assert_eq!(
        split_tunnel.list_paths(),
        vec!["a".to_string(), "a".to_string()],
    );
}
