use miner_scan::errors::{MinerError, SubnetFault};
use miner_scan::miner::DiscoveredMiner;
use miner_scan::net::{first_usable_subnet, Ipv4Octets};
use miner_scan::scan::{collect_discovered, host_address, parse_subnet, scan_addresses, split_dots};

#[test]
fn plan_covers_the_whole_range_once() {
    let addrs = scan_addresses("192.168.1", 10, 20).unwrap();
    assert_eq!(addrs.len(), 11);
    assert_eq!(addrs[0], "192.168.1.10");
    assert_eq!(addrs[5], "192.168.1.15");
    assert_eq!(addrs[10], "192.168.1.20");
}

#[test]
fn plan_single_address_range() {
    let addrs = scan_addresses("10.0.0", 7, 7).unwrap();
    assert_eq!(addrs, vec!["10.0.0.7".to_string()]);
}

#[test]
fn plan_empty_range_is_empty_not_an_error() {
    let addrs = scan_addresses("10.0.0", 9, 3).unwrap();
    assert!(addrs.is_empty());
}

#[test]
fn plan_full_octet_range() {
    let addrs = scan_addresses("10.0.0", 0, 255).unwrap();
    assert_eq!(addrs.len(), 256);
    assert_eq!(addrs[0], "10.0.0.0");
    assert_eq!(addrs[255], "10.0.0.255");
}

#[test]
fn wrong_part_count_is_rejected() {
    let e = scan_addresses("192.168", 0, 9).unwrap_err();
    assert!(matches!(
        e,
        MinerError::MalformedSubnet(SubnetFault::WrongPartCount)
    ));
    assert_eq!(
        e.message(),
        "Invalid subnet format. Expected format: 192.168.1"
    );

    let e = scan_addresses("192.168.1.0", 0, 9).unwrap_err();
    assert!(matches!(
        e,
        MinerError::MalformedSubnet(SubnetFault::WrongPartCount)
    ));
}

#[test]
fn non_numeric_octet_is_rejected_by_name() {
    let e = scan_addresses("192.168.abc", 0, 9).unwrap_err();
    match e {
        MinerError::MalformedSubnet(SubnetFault::BadOctet(ref p)) => assert_eq!(p, "abc"),
        ref other => panic!("unexpected error: {}", other.message()),
    }
    assert_eq!(e.message(), "Invalid subnet octet: abc");
}

#[test]
fn oversized_octet_is_rejected_by_name() {
    let e = parse_subnet("192.256.1").unwrap_err();
    match e {
        MinerError::MalformedSubnet(SubnetFault::BadOctet(p)) => assert_eq!(p, "256"),
        other => panic!("unexpected error: {}", other.message()),
    }
}

#[test]
fn empty_octet_is_rejected_by_name() {
    let e = parse_subnet("192..1").unwrap_err();
    match e {
        MinerError::MalformedSubnet(SubnetFault::BadOctet(p)) => assert_eq!(p, ""),
        other => panic!("unexpected error: {}", other.message()),
    }
}

#[test]
fn valid_subnet_passes() {
    assert!(parse_subnet("0.0.0").is_ok());
    assert!(parse_subnet("255.255.255").is_ok());
    assert!(parse_subnet("192.168.1").is_ok());
}

#[test]
fn split_keeps_empty_parts() {
    assert_eq!(split_dots(""), vec!["".to_string()]);
    assert_eq!(split_dots("a.b"), vec!["a".to_string(), "b".to_string()]);
    assert_eq!(
        split_dots("1.2.3."),
        vec![
            "1".to_string(),
            "2".to_string(),
            "3".to_string(),
            "".to_string()
        ]
    );
}

#[test]
fn host_address_appends_last_octet() {
    assert_eq!(host_address("192.168.1", 42), "192.168.1.42");
    assert_eq!(host_address("10.0.0", 0), "10.0.0.0");
}

#[test]
fn collecting_no_records_yields_empty_list() {
    let results: Vec<Option<DiscoveredMiner>> = vec![None, None, None];
    let found = collect_discovered(results);
    assert!(found.is_empty());
}

#[test]
fn collecting_keeps_records_in_address_order() {
    let a = DiscoveredMiner {
        ip: "10.0.0.1".to_string(),
        hostname: Some("one".to_string()),
        version: None,
        model: None,
    };
    let b = DiscoveredMiner {
        ip: "10.0.0.3".to_string(),
        hostname: Some("three".to_string()),
        version: None,
        model: None,
    };
    let results = vec![Some(a), None, Some(b), None];
    let found = collect_discovered(results);
    assert_eq!(found.len(), 2);
    assert_eq!(found[0].ip, "10.0.0.1");
    assert_eq!(found[1].ip, "10.0.0.3");
}

#[test]
fn first_usable_interface_wins() {
    let addrs = vec![
        Ipv4Octets { a: 127, b: 0, c: 0, d: 1 },
        Ipv4Octets { a: 169, b: 254, c: 1, d: 5 },
        Ipv4Octets { a: 192, b: 168, c: 1, d: 77 },
        Ipv4Octets { a: 10, b: 0, c: 0, d: 2 },
    ];
    assert_eq!(first_usable_subnet(&addrs), Some("192.168.1".to_string()));
}

#[test]
fn no_usable_interface_yields_none() {
    let addrs = vec![
        Ipv4Octets { a: 127, b: 0, c: 0, d: 1 },
        Ipv4Octets { a: 169, b: 254, c: 0, d: 9 },
    ];
    assert_eq!(first_usable_subnet(&addrs), None);
    assert_eq!(first_usable_subnet(&Vec::new()), None);
}
