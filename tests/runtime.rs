use minion::runtime::{
    bridge_gateway, exit_status, host_address_for, launch_spec, ContainerConfig, HostAddress,
    HostPlatform, IpamConfigEntry, NetworkIpam, RuntimeError,
};

#[test]
fn launch_spec_formats_environment() {
    let config = ContainerConfig {
        image: "img:1".to_string(),
        env_vars: vec![("A".to_string(), "1".to_string()), ("B".to_string(), "x=y".to_string())],
    };
    let spec = launch_spec(config);
    assert_eq!(spec.image, "img:1");
    assert_eq!(spec.env, vec!["A=1".to_string(), "B=x=y".to_string()]);
    assert_eq!(spec.extra_hosts, vec!["host.docker.internal:host-gateway".to_string()]);
    assert_eq!(spec.runtime.as_deref(), Some("sysbox-runc"));
}

#[test]
fn launch_spec_always_isolates() {
    let config = ContainerConfig { image: "img".to_string(), env_vars: vec![] };
    let spec = launch_spec(config);
    assert!(spec.env.is_empty());
    assert_eq!(spec.runtime.as_deref(), Some("sysbox-runc"));
}

#[test]
fn nonzero_exit_fails() {
    assert!(exit_status(0).is_ok());
    assert!(matches!(exit_status(1), Err(RuntimeError::ContainerFailed { code: 1 })));
    assert!(matches!(exit_status(-1), Err(RuntimeError::ContainerFailed { code: -1 })));
}

#[test]
fn loopback_on_windows_and_macos() {
    for p in [HostPlatform::Windows, HostPlatform::Macos] {
        match host_address_for(p) {
            HostAddress::Fixed(a) => assert_eq!(a, "127.0.0.1"),
            HostAddress::BridgeGateway => panic!("expected loopback"),
        }
    }
    assert!(matches!(host_address_for(HostPlatform::Other), HostAddress::BridgeGateway));
}

#[test]
fn gateway_of_first_ipam_config() {
    let ipam = NetworkIpam {
        config: Some(vec![
            IpamConfigEntry { gateway: Some("172.17.0.1".to_string()) },
            IpamConfigEntry { gateway: Some("10.0.0.1".to_string()) },
        ]),
    };
    assert_eq!(bridge_gateway(Some(ipam)).ok(), Some("172.17.0.1".to_string()));
}

#[test]
fn missing_ipam_parts_are_errors() {
    assert!(matches!(bridge_gateway(None), Err(RuntimeError::MissingIpam)));
    assert!(matches!(
        bridge_gateway(Some(NetworkIpam { config: None })),
        Err(RuntimeError::MissingIpamConfig)
    ));
    assert!(matches!(
        bridge_gateway(Some(NetworkIpam { config: Some(vec![]) })),
        Err(RuntimeError::EmptyIpamConfig)
    ));
    assert!(matches!(
        bridge_gateway(Some(NetworkIpam { config: Some(vec![IpamConfigEntry { gateway: None }]) })),
        Err(RuntimeError::MissingGateway)
    ));
}
