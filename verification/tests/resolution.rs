use wrpc_address::address::ContextualNetAddress;
use wrpc_address::address::IpAddress;
use wrpc_address::encoding::WrpcEncoding;
use wrpc_address::endpoint::WrpcNetAddress;
use wrpc_address::network::NetworkType;
use wrpc_address::network::default_port;

fn all_networks() -> [NetworkType; 4] {
    [NetworkType::Mainnet, NetworkType::Testnet, NetworkType::Simnet, NetworkType::Devnet]
}

fn all_encodings() -> [WrpcEncoding; 2] {
    [WrpcEncoding::Borsh, WrpcEncoding::SerdeJson]
}

#[test]
fn test_wrpc_net_address_from_str_custom() {
    // Addresses
    let addr = "1.2.3.4:8080".parse::<WrpcNetAddress>().unwrap();
    let addr_without_port = "1.2.3.4".parse::<WrpcNetAddress>().unwrap();
    // Network types
    let mainnet = NetworkType::Mainnet;
    let testnet = NetworkType::Testnet;
    let simnet = NetworkType::Simnet;
    let devnet = NetworkType::Devnet;
    // Encodings
    let borsh_encoding = WrpcEncoding::Borsh;
    let json_encoding = WrpcEncoding::SerdeJson;

    // Custom address with port, borsh, mainnet
    assert_eq!(
        addr.to_address(&mainnet, &borsh_encoding),
        ContextualNetAddress::new("1.2.3.4".parse::<IpAddress>().unwrap(), Some(8080 as u16))
    );

    // Custom address without port, borsh, mainnet
    assert_eq!(
        addr_without_port.to_address(&mainnet, &borsh_encoding),
        ContextualNetAddress::new(
            "1.2.3.4".parse::<IpAddress>().unwrap(),
            Some(mainnet.default_borsh_rpc_port())
        )
    );

    // Custom address without port, borsh, testnet
    assert_eq!(
        addr_without_port.to_address(&testnet, &borsh_encoding),
        ContextualNetAddress::new(
            "1.2.3.4".parse::<IpAddress>().unwrap(),
            Some(testnet.default_borsh_rpc_port())
        )
    );

    // Custom address without port, borsh, simnet
    assert_eq!(
        addr_without_port.to_address(&simnet, &borsh_encoding),
        ContextualNetAddress::new(
            "1.2.3.4".parse::<IpAddress>().unwrap(),
            Some(simnet.default_borsh_rpc_port())
        )
    );

    // Custom address without port, borsh, devnet
    assert_eq!(
        addr_without_port.to_address(&devnet, &borsh_encoding),
        ContextualNetAddress::new(
            "1.2.3.4".parse::<IpAddress>().unwrap(),
            Some(devnet.default_borsh_rpc_port())
        )
    );

    // Custom address without port, json, mainnet
    assert_eq!(
        addr_without_port.to_address(&mainnet, &json_encoding),
        ContextualNetAddress::new(
            "1.2.3.4".parse::<IpAddress>().unwrap(),
            Some(mainnet.default_json_rpc_port())
        )
    );

    // Custom address without port, json, testnet
    assert_eq!(
        addr_without_port.to_address(&testnet, &json_encoding),
        ContextualNetAddress::new(
            "1.2.3.4".parse::<IpAddress>().unwrap(),
            Some(testnet.default_json_rpc_port())
        )
    );

    // Custom address without port, json, simnet
    assert_eq!(
        addr_without_port.to_address(&simnet, &json_encoding),
        ContextualNetAddress::new(
            "1.2.3.4".parse::<IpAddress>().unwrap(),
            Some(simnet.default_json_rpc_port())
        )
    );

    // Custom address without port, json, devnet
    assert_eq!(
        addr_without_port.to_address(&devnet, &json_encoding),
        ContextualNetAddress::new(
            "1.2.3.4".parse::<IpAddress>().unwrap(),
            Some(devnet.default_json_rpc_port())
        )
    );
}

#[test]
fn default_port_table_exact_values() {
    assert_eq!(NetworkType::Mainnet.default_borsh_rpc_port(), 17110);
    assert_eq!(NetworkType::Testnet.default_borsh_rpc_port(), 17210);
    assert_eq!(NetworkType::Simnet.default_borsh_rpc_port(), 17510);
    assert_eq!(NetworkType::Devnet.default_borsh_rpc_port(), 17610);
    assert_eq!(NetworkType::Mainnet.default_json_rpc_port(), 18110);
    assert_eq!(NetworkType::Testnet.default_json_rpc_port(), 18210);
    assert_eq!(NetworkType::Simnet.default_json_rpc_port(), 18510);
    assert_eq!(NetworkType::Devnet.default_json_rpc_port(), 18610);
    assert_eq!(default_port(&NetworkType::Mainnet, &WrpcEncoding::Borsh), 17110);
    assert_eq!(default_port(&NetworkType::Mainnet, &WrpcEncoding::SerdeJson), 18110);
}

#[test]
fn resolve_default_yields_loopback_on_default_port() {
    let spec = WrpcNetAddress::parse("default").unwrap();
    for network in all_networks() {
        for encoding in all_encodings() {
            let resolved = spec.to_address(&network, &encoding);
            let expected = ContextualNetAddress::new(
                "127.0.0.1".parse::<IpAddress>().unwrap(),
                Some(default_port(&network, &encoding)),
            );
            assert_eq!(resolved, expected);
        }
    }
}

#[test]
fn resolve_public_yields_wildcard_on_default_port() {
    let spec = WrpcNetAddress::parse("public").unwrap();
    for network in all_networks() {
        for encoding in all_encodings() {
            let resolved = spec.to_address(&network, &encoding);
            let expected = ContextualNetAddress::new(
                "0.0.0.0".parse::<IpAddress>().unwrap(),
                Some(default_port(&network, &encoding)),
            );
            assert_eq!(resolved, expected);
        }
    }
}

#[test]
fn resolve_custom_explicit_port_wins_everywhere() {
    let spec = WrpcNetAddress::parse("9.8.7.6:1234").unwrap();
    let expected =
        ContextualNetAddress::new("9.8.7.6".parse::<IpAddress>().unwrap(), Some(1234));
    for network in all_networks() {
        for encoding in all_encodings() {
            assert_eq!(spec.to_address(&network, &encoding), expected);
        }
    }
}

#[test]
fn scenario_custom_with_port_mainnet_borsh() {
    let spec = WrpcNetAddress::parse("1.2.3.4:8080").unwrap();
    let resolved = spec.to_address(&NetworkType::Mainnet, &WrpcEncoding::Borsh);
    assert_eq!(resolved.ip().text().as_str(), "1.2.3.4");
    assert_eq!(resolved.port(), Some(8080));
}

#[test]
fn scenario_custom_without_port_testnet_json() {
    let spec = WrpcNetAddress::parse("1.2.3.4").unwrap();
    let resolved = spec.to_address(&NetworkType::Testnet, &WrpcEncoding::SerdeJson);
    assert_eq!(resolved.ip().text().as_str(), "1.2.3.4");
    assert_eq!(resolved.port(), Some(18210));
}

#[test]
fn scenario_default_simnet_borsh() {
    let spec = WrpcNetAddress::parse("default").unwrap();
    let resolved = spec.to_address(&NetworkType::Simnet, &WrpcEncoding::Borsh);
    assert_eq!(resolved.ip().text().as_str(), "127.0.0.1");
    assert_eq!(resolved.port(), Some(17510));
    assert_eq!(resolved.port(), Some(NetworkType::Simnet.default_borsh_rpc_port()));
}

#[test]
fn scenario_public_devnet_json() {
    let spec = WrpcNetAddress::parse("public").unwrap();
    let resolved = spec.to_address(&NetworkType::Devnet, &WrpcEncoding::SerdeJson);
    assert_eq!(resolved.ip().text().as_str(), "0.0.0.0");
    assert_eq!(resolved.port(), Some(18610));
    assert_eq!(resolved.port(), Some(NetworkType::Devnet.default_json_rpc_port()));
}

#[test]
fn resolve_never_mutates_the_specification() {
    let spec = WrpcNetAddress::parse("5.6.7.8").unwrap();
    let first = spec.to_address(&NetworkType::Mainnet, &WrpcEncoding::Borsh);
    let second = spec.to_address(&NetworkType::Devnet, &WrpcEncoding::SerdeJson);
    // The same specification resolves differently under different
    // environments, and is unchanged by earlier resolutions.
    assert_eq!(first.port(), Some(17110));
    assert_eq!(second.port(), Some(18610));
    assert_eq!(
        spec.to_address(&NetworkType::Mainnet, &WrpcEncoding::Borsh),
        first
    );
}
