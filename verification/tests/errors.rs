use porkbun::error::Error;
use porkbun::ipv4::Ipv4Address;
use porkbun::ipv6::Ipv6Address;

#[test]
fn messages_say_what_failed() {
    assert_eq!(Error::Io { message: "No such file".to_string() }.message(), "No such file");
    assert_eq!(Error::Request { message: "timed out".to_string() }.message(), "timed out");
    assert_eq!(Error::Json { message: "EOF at line 1".to_string() }.message(), "EOF at line 1");
    assert_eq!(
        Error::Api { message: "Invalid API key.".to_string() }.message(),
        "porkbun API returned an error: \"Invalid API key.\""
    );
    assert_eq!(
        Error::MalformedApi { response: "{}".to_string() }.message(),
        "porkbun API returned an unrecognized response ({})"
    );
    assert_eq!(
        Error::MalformedApiSerde { error: "expected value".to_string(), response: "<html>".to_string() }
            .message(),
        "porkbun API returned an unrecognized response (<html>): expected value"
    );
    assert_eq!(
        Error::UnexpectedIpv4(Ipv4Address::new(1, 2, 3, 4)).message(),
        "porkbun API returned an ipv4 address (1.2.3.4) when an ipv6 was expected"
    );
    assert_eq!(
        Error::UnexpectedIpv6(Ipv6Address::new([0x2001, 0xdb8, 0, 0, 0, 0, 0, 1])).message(),
        "porkbun API returned an ipv6 address (2001:db8::1) when an ipv4 was expected"
    );
}

#[test]
fn malformed_replies_are_told_from_other_failures() {
    assert!(Error::MalformedApi { response: String::new() }.is_malformed());
    assert!(Error::MalformedApiSerde { error: String::new(), response: String::new() }.is_malformed());
    assert!(!Error::Api { message: String::new() }.is_malformed());
    assert!(!Error::Io { message: String::new() }.is_malformed());
    assert!(!Error::Request { message: String::new() }.is_malformed());
    assert!(!Error::Json { message: String::new() }.is_malformed());
    assert!(!Error::UnexpectedIpv4(Ipv4Address::new(0, 0, 0, 0)).is_malformed());
    assert!(!Error::UnexpectedIpv6(Ipv6Address::new([0; 8])).is_malformed());
}
