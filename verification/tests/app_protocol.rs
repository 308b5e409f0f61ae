use sniffnet::{from_port_to_application_protocol, AppProtocol};

#[test]
fn from_port_to_application_protocol_ftp() {
    let result1 = from_port_to_application_protocol(Some(20));
    assert_eq!(AppProtocol::FTP, result1);
    let result2 = from_port_to_application_protocol(Some(21));
    assert_eq!(AppProtocol::FTP, result2);
}

#[test]
fn from_port_to_application_protocol_ssh() {
    let result = from_port_to_application_protocol(Some(22));
    assert_eq!(AppProtocol::SSH, result);
}

#[test]
fn from_port_to_application_protocol_unknown() {
    let result = from_port_to_application_protocol(Some(500));
    assert_eq!(AppProtocol::Unknown, result);
}

#[test]
fn from_port_to_application_protocol_not_applicable() {
    let result = from_port_to_application_protocol(None);
    assert_eq!(AppProtocol::NotApplicable, result);
}

#[test]
fn app_protocol_display_ftp() {
    let test_str = AppProtocol::FTP.label();
    assert_eq!(test_str, "FTP");
}

#[test]
fn app_protocol_display_unknown() {
    let test_str = AppProtocol::Unknown.label();
    assert_eq!(test_str, "?");
}

#[test]
fn app_protocol_display_not_applicable() {
    let test_str = AppProtocol::NotApplicable.label();
    assert_eq!(test_str, "-");
}

#[test]
fn app_protocol_source_port_takes_precedence() {
    assert_eq!(sniffnet::get_app_protocol(Some(443), Some(22)), AppProtocol::HTTPS);
    assert_eq!(sniffnet::get_app_protocol(Some(12345), Some(53)), AppProtocol::DNS);
    assert_eq!(sniffnet::get_app_protocol(Some(12345), Some(54321)), AppProtocol::Unknown);
    assert_eq!(sniffnet::get_app_protocol(None, None), AppProtocol::NotApplicable);
}
