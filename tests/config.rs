use remote_control::config::{
    address_from_lines, config_text, filter_lines, grep, ipconfig_address, MyConfig, CONFIG_FILE,
};
use remote_control::message::MyError;

const IPCONFIG: &str = "Windows IP Configuration\r\n\r\nEthernet adapter vEthernet (WSL):\r\n   IPv4 Address. . . . . . . . . . . : 172.20.0.1\r\n\r\nWireless LAN adapter Wi-Fi:\r\n   IPv4 Address. . . . . . . . . . . : 192.168.1.23\r\n";

#[test]
fn config_text_is_read() {
    assert_eq!(
        MyConfig::from_configfile("127.0.0.1 1234\n"),
        Ok(MyConfig { ip: "127.0.0.1".to_string(), port: "1234".to_string() })
    );
    assert_eq!(
        MyConfig::from_configfile("  10.0.0.1\n\t80 ignored"),
        Ok(MyConfig { ip: "10.0.0.1".to_string(), port: "80".to_string() })
    );
}

#[test]
fn incomplete_config_text_is_refused() {
    let when = "parsing the config file".to_string();
    assert_eq!(
        MyConfig::from_configfile(""),
        Err(MyError { msg: "no IP address is given".to_string(), when: when.clone() })
    );
    assert_eq!(
        MyConfig::from_configfile("1.2.3.4"),
        Err(MyError { msg: "no port is given".to_string(), when })
    );
}

#[test]
fn written_config_names_default_port() {
    assert_eq!(CONFIG_FILE, "ip.ini");
    assert_eq!(config_text("192.168.0.5"), "192.168.0.5 1234");
}

#[test]
fn grep_keeps_matching_lines_in_order() {
    assert_eq!(grep("alpha\nbeta\nalphabet\r\ngamma", "alpha"), vec!["alpha", "alphabet"]);
    assert!(grep("", "x").is_empty());
    let ls = vec!["ab".to_string(), "b".to_string(), "cab".to_string()];
    assert_eq!(filter_lines(&ls, "ab"), vec!["ab", "cab"]);
}

#[test]
fn address_skips_wsl_adapter() {
    let ls: Vec<String> = IPCONFIG.lines().map(|l| l.to_string()).collect();
    assert_eq!(address_from_lines(&ls), Ok("192.168.1.23".to_string()));
    assert_eq!(ipconfig_address(IPCONFIG.as_bytes()), Ok("192.168.1.23".to_string()));
}

#[test]
fn address_without_wsl_is_first() {
    let text = "Ethernet:\n   IPv4 Address : 10.1.2.3\nOther:\n   IPv4 Address : 10.9.9.9\n";
    assert_eq!(ipconfig_address(text.as_bytes()), Ok("10.1.2.3".to_string()));
}

#[test]
fn missing_address_is_an_error() {
    let e = ipconfig_address(b"WSL only\n   IPv4 Address : 1.1.1.1\n").unwrap_err();
    assert_eq!(e.msg, "no matching IPv4 address is found");
    assert_eq!(e.when, "reading the output of ipconfig");
}
