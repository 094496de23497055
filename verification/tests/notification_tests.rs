use feretto::config::Config;
use feretto::event;
use feretto::event::DescribeEvent;
use feretto::event::HTTP_OK;
use feretto::monitor::MonitorState;
use feretto::monitor::WatchAction;
use feretto::monitor::WatchEvent;
use feretto::pattern::Matcher;
use feretto::publish::ConfigFile;
use feretto::publish::Interface;
use feretto::publish::LogFile;
use feretto::publish::SystemInfo;
use feretto::text::to_decimal;

fn config(options: Option<&str>, name: Option<&str>) -> Config {
    Config {
        file: "/tmp/app.log".to_string(),
        string: "ERROR".to_string(),
        options: options.map(|s| s.to_string()),
        name: name.map(|s| s.to_string()),
    }
}

fn describe() -> DescribeEvent {
    event::new("consul.local", "8500", vec![config(Some("?dc=dc1&node=web"), Some("app-error"))])
}

fn interface(loopback: bool, address: &str) -> Interface {
    Interface { loopback, address: address.to_string() }
}

fn topic() -> ConfigFile {
    ConfigFile {
        target_arn: "arn:aws:sns:eu-west-1:1:alerts".to_string(),
        role_arn: "arn:aws:iam::1:role/notify".to_string(),
        region: "eu-west-1".to_string(),
    }
}

fn logfile() -> LogFile {
    LogFile { file: "/tmp/app.log".to_string(), string: "ERROR".to_string(), name: "app-error".to_string() }
}

#[test]
fn config_name_defaults_to_the_file() {
    assert_eq!(config(None, None).event_name(), "/tmp/app.log");
    assert_eq!(config(None, Some("app-error")).event_name(), "app-error");
}

#[test]
fn config_options_default_to_nothing() {
    assert_eq!(config(None, None).query(), "");
    assert_eq!(config(Some("?dc=dc1"), None).query(), "?dc=dc1");
}

#[test]
fn new_takes_the_first_record() {
    let other = Config {
        file: "/tmp/other.log".to_string(),
        string: "WARN".to_string(),
        options: None,
        name: None,
    };
    let ev = event::new("10.0.0.1", "8500", vec![config(None, None), other]);
    assert_eq!(
        ev,
        DescribeEvent {
            file: "/tmp/app.log".to_string(),
            string: "ERROR".to_string(),
            server: "10.0.0.1".to_string(),
            port: "8500".to_string(),
            options: String::new(),
            name: "/tmp/app.log".to_string(),
        }
    );
}

#[test]
fn describe_event_new_keeps_every_field_apart() {
    let ev = DescribeEvent::new(
        "server".to_string(),
        "port".to_string(),
        "file".to_string(),
        "options".to_string(),
        "name".to_string(),
        "string".to_string(),
    );
    assert_eq!(ev.server, "server");
    assert_eq!(ev.port, "port");
    assert_eq!(ev.file, "file");
    assert_eq!(ev.options, "options");
    assert_eq!(ev.name, "name");
    assert_eq!(ev.string, "string");
    assert_eq!(ev.file_name(), "file");
    assert_eq!(ev.search_string(), "string");
}

#[test]
fn fire_builds_the_event_address() {
    let request = describe().fire();
    assert_eq!(request.url, "http://consul.local:8500/v1/event/fire/app-error?dc=dc1&node=web");
    assert_eq!(request.body, "feretto");
    assert!(!request.body.is_empty());
}

#[test]
fn fire_without_options_ends_with_the_name() {
    let ev = event::new("h", "1", vec![config(None, Some("n"))]);
    assert_eq!(ev.fire().url, "http://h:1/v1/event/fire/n");
}

#[test]
fn only_status_200_is_a_success() {
    let ev = describe();
    assert_eq!(HTTP_OK, 200);
    let ok = ev.delivery(Ok(200));
    assert!(ok.success);
    assert_eq!(ok.detail, "Event fired for: app-error");
    for status in [0u32, 199, 201, 204, 301, 404, 500, 503, u32::MAX] {
        let outcome = ev.delivery(Ok(status));
        assert!(!outcome.success);
        assert_eq!(outcome.detail, format!("Unable to handle HTTP response code {}", status));
    }
}

#[test]
fn status_503_is_a_failure_and_the_next_match_fires_again() {
    let ev = describe();
    let mut handler = ev.open(0);
    assert_eq!(handler.matcher(), Matcher::Substring);
    assert_eq!(ev.monitor(&mut handler, WatchEvent::Start), WatchAction::Arm);
    ev.monitor(&mut handler, WatchEvent::Changed);
    let first = ev.monitor(&mut handler, WatchEvent::Read { chunk: "ERROR a\n".to_string(), at: 1 });
    assert!(matches!(first, WatchAction::Fire(_)));
    let outcome = ev.delivery(Ok(503));
    assert!(!outcome.success);
    assert_eq!(outcome.detail, "Unable to handle HTTP response code 503");
    let next = ev.monitor(&mut handler, WatchEvent::Dispatched { success: outcome.success });
    assert_eq!(next, WatchAction::Arm);
    assert_eq!(handler.state(), MonitorState::Armed);
    assert_eq!(ev.monitor(&mut handler, WatchEvent::Changed), WatchAction::Drain { offset: 8 });
    let second = ev.monitor(&mut handler, WatchEvent::Read { chunk: "ERROR b\n".to_string(), at: 2 });
    match second {
        WatchAction::Fire(m) => {
            assert_eq!(m.target.event_name, "app-error");
            assert_eq!(m.target.options, "?dc=dc1&node=web");
            assert_eq!(m.matched_text, "ERROR b");
        }
        other => panic!("expected a dispatch, got {:?}", other),
    }
}

#[test]
fn request_without_reply_is_a_failure() {
    let outcome = describe().delivery(Err("connection refused".to_string()));
    assert!(!outcome.success);
    assert_eq!(outcome.detail, "error putting k/v. connection refused");
}

#[test]
fn describe_event_target_carries_its_fields() {
    let target = describe().target();
    assert_eq!(target.path, "/tmp/app.log");
    assert_eq!(target.pattern, "ERROR");
    assert_eq!(target.event_name, "app-error");
    assert_eq!(target.options, "?dc=dc1&node=web");
}

#[test]
fn decimal_numerals() {
    assert_eq!(to_decimal(0), "0");
    assert_eq!(to_decimal(7), "7");
    assert_eq!(to_decimal(10), "10");
    assert_eq!(to_decimal(200), "200");
    assert_eq!(to_decimal(503), "503");
    assert_eq!(to_decimal(1234567890), "1234567890");
    assert_eq!(to_decimal(u32::MAX), "4294967295");
}

#[test]
fn hostname_is_trimmed() {
    let info = SystemInfo::gather(Some("  web-1.example \n"), &vec![]);
    assert_eq!(info.hostname, "web-1.example");
    let inner = SystemInfo::gather(Some("\tweb 1\u{a0}\r\n"), &vec![]);
    assert_eq!(inner.hostname, "web 1");
}

#[test]
fn hostname_defaults_to_localhost() {
    let info = SystemInfo::gather(None, &vec![]);
    assert_eq!(info.hostname, "localhost");
    let empty = SystemInfo::gather(Some("\n"), &vec![]);
    assert_eq!(empty.hostname, "");
}

#[test]
fn address_is_the_first_that_is_not_loopback() {
    let interfaces = vec![
        interface(true, "127.0.0.1"),
        interface(false, "10.0.0.5"),
        interface(true, "::1"),
        interface(false, "192.168.1.9"),
    ];
    assert_eq!(SystemInfo::primary(&interfaces), "10.0.0.5");
    assert_eq!(SystemInfo::gather(None, &interfaces).ipaddr, "10.0.0.5");
    assert_eq!(SystemInfo::primary(&vec![interface(false, "10.1.1.1")]), "10.1.1.1");
}

#[test]
fn address_is_empty_without_an_outside_interface() {
    assert_eq!(SystemInfo::primary(&vec![]), "");
    assert_eq!(SystemInfo::primary(&vec![interface(true, "127.0.0.1"), interface(true, "::1")]), "");
}

#[test]
fn publish_request_names_machine_pattern_and_event() {
    let interfaces = vec![interface(true, "127.0.0.1"), interface(false, "10.0.0.5")];
    let request = logfile().fire(&topic(), Some("web-1\n"), &interfaces);
    assert_eq!(request.message, "web-1:10.0.0.5::Triggered ERROR on app-error");
    assert_eq!(request.subject, "feretto: notification");
    assert_eq!(request.target_arn, "arn:aws:sns:eu-west-1:1:alerts");
    assert_eq!(request.role_arn, "arn:aws:iam::1:role/notify");
    assert_eq!(request.session_name, "feretto");
    assert_eq!(request.region, "eu-west-1");
}

#[test]
fn publish_request_without_identity() {
    let request = logfile().fire(&topic(), None, &vec![]);
    assert_eq!(request.message, "localhost:::Triggered ERROR on app-error");
}

#[test]
fn publish_outcomes() {
    let accepted = LogFile::delivery(Ok(Some("id-1".to_string())));
    assert!(accepted.success);
    assert_eq!(accepted.detail, "Successfully sent notification id-1");
    let anonymous = LogFile::delivery(Ok(None));
    assert!(anonymous.success);
    assert_eq!(anonymous.detail, "Successfully sent notification");
    let refused = LogFile::delivery(Err("AuthorizationError".to_string()));
    assert!(!refused.success);
    assert_eq!(refused.detail, "Failed to send notification AuthorizationError");
}

#[test]
fn logfile_monitors_with_the_regex_test() {
    let log = logfile();
    let target = log.target();
    assert_eq!(target.path, "/tmp/app.log");
    assert_eq!(target.options, "");
    let mut handler = log.open(12);
    assert_eq!(handler.matcher(), Matcher::Regex);
    assert_eq!(handler.position(), 12);
    assert_eq!(log.monitor(&mut handler, WatchEvent::Start), WatchAction::Arm);
    assert_eq!(log.monitor(&mut handler, WatchEvent::Changed), WatchAction::Drain { offset: 12 });
    let action = log.monitor(&mut handler, WatchEvent::Read { chunk: "xx error yy\n".to_string(), at: 5 });
    match action {
        WatchAction::Fire(m) => {
            assert_eq!(m.target, target);
            assert_eq!(m.matched_text, "xx error yy");
            assert_eq!(m.timestamp, 5);
        }
        other => panic!("expected a dispatch, got {:?}", other),
    }
}
