use echo_dispatch::select::{select_connection_type, ConnectionTypes};

#[test]
fn selects_tcp_lowercase() {
    assert_eq!(select_connection_type("tcp"), ConnectionTypes::TCP);
}

#[test]
fn selects_tcp_any_casing() {
    assert_eq!(select_connection_type("TCP"), ConnectionTypes::TCP);
    assert_eq!(select_connection_type("Tcp"), ConnectionTypes::TCP);
    assert_eq!(select_connection_type("tCp"), ConnectionTypes::TCP);
}

#[test]
fn selects_udp_any_casing() {
    assert_eq!(select_connection_type("udp"), ConnectionTypes::UDP);
    assert_eq!(select_connection_type("UDP"), ConnectionTypes::UDP);
    assert_eq!(select_connection_type("uDp"), ConnectionTypes::UDP);
}

#[test]
fn selects_serial_any_casing() {
    assert_eq!(select_connection_type("serial"), ConnectionTypes::SERIAL);
    assert_eq!(select_connection_type("SERIAL"), ConnectionTypes::SERIAL);
    assert_eq!(select_connection_type("SeRiAl"), ConnectionTypes::SERIAL);
}

#[test]
fn unrecognized_strings_are_unknown() {
    assert_eq!(select_connection_type("bluetooth"), ConnectionTypes::UNKNOWN);
    assert_eq!(select_connection_type(""), ConnectionTypes::UNKNOWN);
    assert_eq!(select_connection_type("tcp "), ConnectionTypes::UNKNOWN);
    assert_eq!(select_connection_type("tcpx"), ConnectionTypes::UNKNOWN);
    assert_eq!(select_connection_type("ud"), ConnectionTypes::UNKNOWN);
    assert_eq!(select_connection_type("tçp"), ConnectionTypes::UNKNOWN);
}
