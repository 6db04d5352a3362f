use porkbun::client::{Client, Request};
use porkbun::error::Error;
use porkbun::ipv4::Ipv4Address;
use porkbun::ipv6::Ipv6Address;
use porkbun::record::AddressRecord;
use porkbun::update::{
    after_create, after_edit, after_fetch, after_ping, begin, exit_code, resume, Config, Level,
    Line, Step, Waiting,
};

const KEYS: &str = r#"{"apikey":"ak","secretapikey":"sk"}"#;

fn client() -> Client {
    Client::open_keys(KEYS.to_string()).unwrap()
}

fn config(subdomain: Option<&str>, silent: bool) -> Config {
    Config {
        domain: "example.com".to_string(),
        subdomain: subdomain.map(|s| s.to_string()),
        silent,
    }
}

fn info(text: &str) -> Option<Line> {
    Some(Line { level: Level::Info, text: text.to_string() })
}

fn error(text: &str) -> Option<Line> {
    Some(Line { level: Level::Error, text: text.to_string() })
}

fn listing(name: &str, ty: &str, content: &str) -> String {
    format!(
        r#"{{"status":"SUCCESS","records":[{{"id":"1","name":"{}","type":"{}","content":"{}","ttl":"600","prio":"0","notes":null}}]}}"#,
        name, ty, content
    )
}

/// Runs one update against replies given in order, and returns the
/// requests that were sent with how the update ended.
fn run4(config: &Config, replies: Vec<Result<String, String>>) -> (Vec<Request>, bool, Option<Line>) {
    let client = client();
    let mut sent = Vec::new();
    let mut replies = replies.into_iter();
    let mut step = begin::<Ipv4Address>(&client);
    loop {
        match step {
            Step::Done { ok, line } => return (sent, ok, line),
            Step::Send { request, waiting } => {
                sent.push(request);
                let outcome = replies.next().expect("a reply for every request");
                step = resume(&client, config, waiting, outcome);
            },
        }
    }
}

fn is_write(request: &Request) -> bool {
    request.url.contains("/dns/create/") || request.url.contains("/dns/editByNameType/")
}

#[test]
fn matching_record_ends_the_update_without_a_write() {
    let (sent, ok, line) = run4(
        &config(None, false),
        vec![
            Ok(r#"{"status":"SUCCESS","yourIp":"1.2.3.4"}"#.to_string()),
            Ok(listing("example.com", "A", "1.2.3.4")),
        ],
    );
    assert!(ok);
    assert_eq!(line, info("current ipv4 record matches public ip address"));
    assert_eq!(sent.len(), 2);
    assert_eq!(sent[0].url, "https://api-ipv4.porkbun.com/api/json/v3/ping");
    assert_eq!(sent[0].body, KEYS);
    assert_eq!(sent[1].url, "https://api.porkbun.com/api/json/v3/dns/retrieveByNameType/example.com/A/");
    assert_eq!(sent[1].body, KEYS);
    assert_eq!(sent.iter().filter(|r| is_write(r)).count(), 0);
    assert_eq!(exit_code(Some(ok), None), 0);
}

#[test]
fn stale_record_is_edited_to_the_observed_address() {
    let (sent, ok, line) = run4(
        &config(None, false),
        vec![
            Ok(r#"{"status":"SUCCESS","yourIp":"9.9.9.9"}"#.to_string()),
            Ok(listing("example.com", "A", "1.2.3.4")),
            Ok(r#"{"status":"SUCCESS"}"#.to_string()),
        ],
    );
    assert!(ok);
    assert_eq!(line, info("successfully updated ipv4 record to 9.9.9.9"));
    assert_eq!(sent.len(), 3);
    assert_eq!(sent[2].url, "https://api.porkbun.com/api/json/v3/dns/editByNameType/example.com/A/");
    assert_eq!(sent[2].body, r#"{"secretapikey":"sk","apikey":"ak","type":"A","content":"9.9.9.9"}"#);
    assert_eq!(exit_code(Some(ok), None), 0);
}

#[test]
fn missing_record_is_created_with_the_observed_address() {
    let (sent, ok, line) = run4(
        &config(None, false),
        vec![
            Ok(r#"{"status":"SUCCESS","yourIp":"9.9.9.9"}"#.to_string()),
            Ok(r#"{"status":"SUCCESS","records":[]}"#.to_string()),
            Ok(r#"{"status":"SUCCESS","id":7}"#.to_string()),
        ],
    );
    assert!(ok);
    assert_eq!(line, info("successfully created ipv4 record: 9.9.9.9"));
    assert_eq!(sent.len(), 3);
    assert_eq!(sent[2].url, "https://api.porkbun.com/api/json/v3/dns/create/example.com");
    assert_eq!(sent[2].body, r#"{"secretapikey":"sk","apikey":"ak","type":"A","content":"9.9.9.9"}"#);
    assert_eq!(exit_code(Some(ok), None), 0);
}

#[test]
fn refused_create_counts_as_a_failure() {
    let (sent, ok, line) = run4(
        &config(None, false),
        vec![
            Ok(r#"{"status":"SUCCESS","yourIp":"9.9.9.9"}"#.to_string()),
            Ok(listing("other.example.com", "A", "9.9.9.9")),
            Ok(r#"{"status":"ERROR","message":"Invalid domain."}"#.to_string()),
        ],
    );
    assert!(!ok);
    assert_eq!(
        line,
        error("failed to create ipv4 record: porkbun API returned an error: \"Invalid domain.\"")
    );
    assert_eq!(sent.len(), 3);
    assert_eq!(exit_code(Some(ok), None), 1);
    assert_eq!(exit_code(Some(ok), Some(true)), 1);
    assert_eq!(exit_code(Some(ok), Some(false)), 2);
}

#[test]
fn subdomain_is_named_in_the_requests_and_matched_in_the_listing() {
    let with_subdomain = config(Some("www"), false);
    let (sent, ok, _) = run4(
        &with_subdomain,
        vec![
            Ok(r#"{"status":"SUCCESS","yourIp":"9.9.9.9"}"#.to_string()),
            Ok(listing("www", "A", "1.2.3.4")),
            Ok(r#"{"status":"SUCCESS"}"#.to_string()),
        ],
    );
    assert!(ok);
    assert_eq!(sent[1].url, "https://api.porkbun.com/api/json/v3/dns/retrieveByNameType/example.com/A/www");
    assert_eq!(sent[2].url, "https://api.porkbun.com/api/json/v3/dns/editByNameType/example.com/A/www");
    let (sent, ok, _) = run4(
        &with_subdomain,
        vec![
            Ok(r#"{"status":"SUCCESS","yourIp":"9.9.9.9"}"#.to_string()),
            Ok(listing("example.com", "A", "9.9.9.9")),
            Ok(r#"{"status":"SUCCESS"}"#.to_string()),
        ],
    );
    assert!(ok);
    assert_eq!(sent[2].url, "https://api.porkbun.com/api/json/v3/dns/create/example.com");
    assert_eq!(
        sent[2].body,
        r#"{"secretapikey":"sk","apikey":"ak","name":"www","type":"A","content":"9.9.9.9"}"#
    );
}

#[test]
fn silent_update_reports_failures_only() {
    let quiet = config(None, true);
    let (_, ok, line) = run4(
        &quiet,
        vec![
            Ok(r#"{"status":"SUCCESS","yourIp":"1.2.3.4"}"#.to_string()),
            Ok(listing("example.com", "A", "1.2.3.4")),
        ],
    );
    assert!(ok);
    assert_eq!(line, None);
    let (_, ok, line) = run4(&quiet, vec![Ok(r#"{"status":"SUCCESS"}"#.to_string())]);
    assert!(!ok);
    assert_eq!(line, error("ipv4 address is not present"));
}

#[test]
fn failed_ping_ends_the_update() {
    let (sent, ok, line) = run4(&config(None, false), vec![Err("connection refused".to_string())]);
    assert!(!ok);
    assert_eq!(sent.len(), 1);
    assert_eq!(line, error("failed to retrieve public ipv4 address: connection refused"));
    let (_, ok, line) = run4(
        &config(None, false),
        vec![Ok(r#"{"status":"SUCCESS","yourIp":"::1"}"#.to_string())],
    );
    assert!(!ok);
    assert_eq!(
        line,
        error("failed to retrieve public ipv4 address: porkbun API returned an ipv6 address (::1) when an ipv4 was expected")
    );
}

#[test]
fn failed_listing_ends_the_update() {
    let (sent, ok, line) = run4(
        &config(None, false),
        vec![Ok(r#"{"status":"SUCCESS","yourIp":"1.2.3.4"}"#.to_string()), Ok("{}".to_string())],
    );
    assert!(!ok);
    assert_eq!(sent.len(), 2);
    assert_eq!(
        line,
        error("failed to retrieve previous ipv4 address: porkbun API returned an unrecognized response ({})")
    );
}

#[test]
fn failed_edit_ends_the_update() {
    let (_, ok, line) = run4(
        &config(None, false),
        vec![
            Ok(r#"{"status":"SUCCESS","yourIp":"9.9.9.9"}"#.to_string()),
            Ok(listing("example.com", "A", "1.2.3.4")),
            Err("timed out".to_string()),
        ],
    );
    assert!(!ok);
    assert_eq!(line, error("failed to edit ipv4 address: timed out"));
}

#[test]
fn ipv6_update_uses_the_general_ping_and_aaaa_records() {
    let client = client();
    let config = config(None, false);
    let observed = Ipv6Address::new([0x2001, 0xdb8, 0, 0, 0, 0, 0, 1]);
    let first = begin::<Ipv6Address>(&client);
    let Step::Send { request, waiting } = first else { panic!("{:?}", first) };
    assert_eq!(request.url, "https://api.porkbun.com/api/json/v3/ping");
    assert_eq!(waiting, Waiting::Ping);
    let second = resume(&client, &config, waiting, Ok(r#"{"status":"SUCCESS","yourIp":"2001:db8::1"}"#.to_string()));
    let Step::Send { request, waiting } = second else { panic!("{:?}", second) };
    assert_eq!(request.url, "https://api.porkbun.com/api/json/v3/dns/retrieveByNameType/example.com/AAAA/");
    assert_eq!(waiting, Waiting::Fetch { address: observed });
    let third = resume(&client, &config, waiting, Ok(listing("example.com", "AAAA", "2001:db8::2")));
    let Step::Send { request, waiting } = third else { panic!("{:?}", third) };
    assert_eq!(request.url, "https://api.porkbun.com/api/json/v3/dns/editByNameType/example.com/AAAA/");
    assert_eq!(request.body, r#"{"secretapikey":"sk","apikey":"ak","type":"AAAA","content":"2001:db8::1"}"#);
    assert_eq!(waiting, Waiting::Edit { address: observed });
    let last = resume(&client, &config, waiting, Ok(r#"{"status":"SUCCESS"}"#.to_string()));
    assert_eq!(
        last,
        Step::Done { ok: true, line: info("successfully updated ipv6 record to 2001:db8::1") }
    );
    let created = resume(
        &client,
        &config,
        Waiting::Create { address: observed },
        Ok(r#"{"status":"SUCCESS","id":1}"#.to_string()),
    );
    assert_eq!(
        created,
        Step::Done { ok: true, line: info("successfully created ipv6 record: 2001:db8::1") }
    );
    let wrong_family = resume(
        &client,
        &config,
        Waiting::<Ipv6Address>::Ping,
        Ok(r#"{"status":"SUCCESS","yourIp":"1.2.3.4"}"#.to_string()),
    );
    assert_eq!(
        wrong_family,
        Step::Done {
            ok: false,
            line: error("failed to retrieve public ipv6 address: porkbun API returned an ipv4 address (1.2.3.4) when an ipv6 was expected"),
        }
    );
}

#[test]
fn steps_follow_what_was_read() {
    let client = client();
    let config = config(None, false);
    let address = Ipv4Address::new(9, 9, 9, 9);
    assert_eq!(
        after_ping::<Ipv4Address>(&client, &config, Ok(None)),
        Step::Done { ok: false, line: error("ipv4 address is not present") }
    );
    assert_eq!(
        after_ping::<Ipv4Address>(&client, &config, Ok(Some(address))),
        Step::Send {
            request: client.fetch_ipv4_records_request("example.com", None),
            waiting: Waiting::Fetch { address },
        }
    );
    let published = vec![AddressRecord {
        id: "1".to_string(),
        name: "example.com".to_string(),
        address: Ipv4Address::new(1, 2, 3, 4),
        ttl: "600".to_string(),
        prio: "0".to_string(),
        notes: None,
    }];
    assert_eq!(
        after_fetch(&client, &config, address, Ok(published.clone())),
        Step::Send {
            request: client.edit_ipv4_address_request("example.com", None, &address),
            waiting: Waiting::Edit { address },
        }
    );
    assert_eq!(
        after_fetch(&client, &config, Ipv4Address::new(1, 2, 3, 4), Ok(published)),
        Step::Done { ok: true, line: info("current ipv4 record matches public ip address") }
    );
    assert_eq!(
        after_fetch(&client, &config, address, Ok(vec![])),
        Step::Send {
            request: client.create_record_request(
                "example.com",
                None,
                porkbun::RecordType::A,
                "9.9.9.9",
                None,
                None,
            ),
            waiting: Waiting::Create { address },
        }
    );
    assert_eq!(
        after_fetch(&client, &config, address, Err(Error::Api { message: "no".to_string() })),
        Step::Done {
            ok: false,
            line: error("failed to retrieve previous ipv4 address: porkbun API returned an error: \"no\""),
        }
    );
    assert_eq!(
        after_edit(&config, address, Ok(())),
        Step::Done { ok: true, line: info("successfully updated ipv4 record to 9.9.9.9") }
    );
    assert_eq!(
        after_edit(&config, address, Err(Error::Api { message: "no".to_string() })),
        Step::Done {
            ok: false,
            line: error("failed to edit ipv4 address: porkbun API returned an error: \"no\""),
        }
    );
    assert_eq!(
        after_create(&config, address, Ok(None)),
        Step::Done { ok: true, line: info("successfully created ipv4 record: 9.9.9.9") }
    );
    assert_eq!(
        after_create(&config, address, Err(Error::Request { message: "reset".to_string() })),
        Step::Done { ok: false, line: error("failed to create ipv4 record: reset") }
    );
}

#[test]
fn exit_code_counts_the_families_that_failed() {
    assert_eq!(exit_code(None, None), 0);
    assert_eq!(exit_code(Some(true), None), 0);
    assert_eq!(exit_code(None, Some(true)), 0);
    assert_eq!(exit_code(Some(true), Some(true)), 0);
    assert_eq!(exit_code(Some(false), None), 1);
    assert_eq!(exit_code(None, Some(false)), 1);
    assert_eq!(exit_code(Some(false), Some(true)), 1);
    assert_eq!(exit_code(Some(true), Some(false)), 1);
    assert_eq!(exit_code(Some(false), Some(false)), 2);
}
