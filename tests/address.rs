use mz_cluster::address::listen_address;

#[test]
fn port_suffix_binds_all_interfaces() {
    assert_eq!(listen_address("a0:7000"), "0.0.0.0:7000");
    assert_eq!(listen_address("host.example.com:2101"), "0.0.0.0:2101");
    assert_eq!(listen_address("[::1]:6876"), "0.0.0.0:6876");
    assert_eq!(listen_address(":1"), "0.0.0.0:1");
    assert_eq!(listen_address("h:65535"), "0.0.0.0:65535");
    assert_eq!(listen_address("a:1:2345"), "0.0.0.0:2345");
}

#[test]
fn address_without_port_is_kept() {
    assert_eq!(listen_address("/tmp/cluster.sock"), "/tmp/cluster.sock");
    assert_eq!(listen_address("host"), "host");
    assert_eq!(listen_address(""), "");
    assert_eq!(listen_address("host:"), "host:");
    assert_eq!(listen_address("host:123456"), "host:123456");
    assert_eq!(listen_address("host:12a"), "host:12a");
    assert_eq!(listen_address("12345"), "12345");
    assert_eq!(listen_address("host:١٢"), "host:١٢");
}
