use plantuml_server::config::{listen_port, parse_port, DEFAULT_PORT};

#[test]
fn default_port_is_used_without_a_setting() {
    assert_eq!(DEFAULT_PORT, 8080);
    assert_eq!(listen_port(None), Some(8080));
}

#[test]
fn setting_names_the_port() {
    assert_eq!(listen_port(Some("3000")), Some(3000));
    assert_eq!(listen_port(Some("8080")), Some(8080));
    assert_eq!(listen_port(Some("0")), Some(0));
    assert_eq!(listen_port(Some("65535")), Some(65535));
    assert_eq!(listen_port(Some("+443")), Some(443));
    assert_eq!(listen_port(Some("00080")), Some(80));
    assert_eq!(listen_port(Some("+000")), Some(0));
}

#[test]
fn setting_that_names_no_port_is_refused() {
    for text in [
        "", "+", "-", "-1", "-0", "++1", "+-1", "8+0", "80+", " 80", "80 ", "80\n", "0x50", "8080.0",
        "eighty", "65536", "70000", "655350", "99999999999999999999999999", "８０８０", "٨٠", "1_000",
        "1e3", "+ 1",
    ] {
        assert_eq!(listen_port(Some(text)), None, "{:?}", text);
        assert_eq!(parse_port(text), None, "{:?}", text);
    }
}

#[test]
fn ports_are_read_as_std_reads_them() {
    for n in 0..200_000u32 {
        for text in [
            format!("{}", n),
            format!("+{}", n),
            format!("0{}", n),
            format!("{}0", n),
            format!("-{}", n),
            format!("{} ", n),
            format!("{}a", n),
        ] {
            assert_eq!(parse_port(&text), text.parse::<u16>().ok(), "{:?}", text);
        }
    }
    for text in ["", "+", "0000000000000000000000000000000000000065535", "+0000000065536", "4294967296", "4294973376"] {
        assert_eq!(parse_port(text), text.parse::<u16>().ok(), "{:?}", text);
    }
}
