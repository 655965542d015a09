use yandere_companion::ipv4::parse_ipv4;
use yandere_companion::phone::{tailscale_address_from_cli, tailscale_address_from_listing};
use yandere_companion::text::words_of;

#[test]
fn dotted_decimal_addresses_are_read() {
    assert_eq!(parse_ipv4("100.101.102.103"), Some([100, 101, 102, 103]));
    assert_eq!(parse_ipv4("0.0.0.0"), Some([0, 0, 0, 0]));
    assert_eq!(parse_ipv4("255.255.255.255"), Some([255, 255, 255, 255]));
    assert_eq!(parse_ipv4("10.0.200.9"), Some([10, 0, 200, 9]));
}

#[test]
fn malformed_addresses_are_refused() {
    assert_eq!(parse_ipv4(""), None);
    assert_eq!(parse_ipv4("1.2.3"), None);
    assert_eq!(parse_ipv4("1.2.3.4.5"), None);
    assert_eq!(parse_ipv4("256.1.1.1"), None);
    assert_eq!(parse_ipv4("01.2.3.4"), None);
    assert_eq!(parse_ipv4("1..3.4"), None);
    assert_eq!(parse_ipv4("1.2.3.4 "), None);
    assert_eq!(parse_ipv4("1.2.3.x"), None);
    assert_eq!(parse_ipv4("1000.2.3.4"), None);
    assert_eq!(parse_ipv4("+1.2.3.4"), None);
}

#[test]
fn words_split_on_any_white_space() {
    assert_eq!(words_of("  inet\t100.64.0.1 \n netmask "), vec!["inet", "100.64.0.1", "netmask"]);
    assert!(words_of(" \t\n").is_empty());
    assert_eq!(words_of("one"), vec!["one"]);
}

#[test]
fn the_cli_address_is_used_only_in_the_tailscale_range() {
    assert_eq!(tailscale_address_from_cli("100.100.1.2\n"), Some([100, 100, 1, 2]));
    assert_eq!(tailscale_address_from_cli("  100.127.255.1  "), Some([100, 127, 255, 1]));
    assert_eq!(tailscale_address_from_cli("192.168.1.2\n"), None);
    assert_eq!(tailscale_address_from_cli("100.128.0.1"), None);
    assert_eq!(tailscale_address_from_cli(""), None);
}

#[test]
fn the_interface_listing_yields_the_first_tailscale_inet_address() {
    let listing = "lo0: flags=8049<UP,LOOPBACK> mtu 16384\n\tinet 127.0.0.1 netmask 0xff000000\n\
                   en0: flags=8863<UP> mtu 1500\n\tinet 192.168.1.20 netmask 0xffffff00 broadcast 192.168.1.255\n\
                   utun4: flags=8051<UP> mtu 1280\n\tinet 100.88.1.5 --> 100.88.1.5 netmask 0xffffffff\n\
                   utun5: flags=8051<UP> mtu 1280\n\tinet 100.90.0.7 --> 100.90.0.7 netmask 0xffffffff\n";
    assert_eq!(tailscale_address_from_listing(listing), Some([100, 88, 1, 5]));
    assert_eq!(tailscale_address_from_listing("\tinet 10.0.0.1 netmask 0xff000000\n"), None);
    assert_eq!(tailscale_address_from_listing("destination 100.64.0.1 inet"), None);
}
