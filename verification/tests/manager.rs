use rustyfarian_mqtt::config::{
    contains_zero_byte, ConfigError, LwtConfig, MqttConfig, QoS, DEFAULT_CONNECTION_TIMEOUT_MS,
    DEFAULT_KEEP_ALIVE_SECS,
};
use rustyfarian_mqtt::error::MqttError;
use rustyfarian_mqtt::event::{Action, Event, EventLoop};
use rustyfarian_mqtt::manager::{
    ConnectPhase, MqttManager, PublishRequest, ShutdownPhase, CONNECTION_POLL_INTERVAL_MS,
};
use rustyfarian_mqtt::text::{push_decimal, str_eq};
use rustyfarian_mqtt::topic::SubscriptionSet;

fn dev1() -> MqttConfig<'static> {
    MqttConfig::new("10.0.0.5", 1883, "dev-1")
}

fn ready(topics: &[&str]) -> MqttManager {
    let mut m = MqttManager::new(dev1(), topics).unwrap();
    m.transport_opened(true).unwrap();
    assert!(!m.poll_connection(true));
    while m.next_subscription().is_some() {
        m.subscription_done(true).unwrap();
    }
    assert!(m.is_ready());
    m
}

#[test]
fn str_eq_compares_text() {
    assert!(str_eq("", ""));
    assert!(str_eq("cmd", "cmd"));
    assert!(!str_eq("cmd", "cmD"));
    assert!(!str_eq("cmd", "cmd "));
    assert!(!str_eq("", "a"));
    assert!(str_eq("gr\u{fc}n", "gr\u{fc}n"));
    assert!(!str_eq("gr\u{fc}n", "grun"));
}

#[test]
fn push_decimal_writes_digits() {
    for (n, text) in [
        (0u64, "0"),
        (7, "7"),
        (10, "10"),
        (1883, "1883"),
        (65535, "65535"),
        (1000000, "1000000"),
        (u64::MAX, "18446744073709551615"),
    ] {
        let mut out = String::from("p=");
        push_decimal(&mut out, n);
        assert_eq!(out, format!("p={}", text));
    }
}

#[test]
fn config_defaults() {
    let cfg = dev1();
    assert_eq!(cfg.host, "10.0.0.5");
    assert_eq!(cfg.port, 1883);
    assert_eq!(cfg.client_id, "dev-1");
    assert_eq!(cfg.host(), "10.0.0.5");
    assert_eq!(cfg.port(), 1883);
    assert_eq!(cfg.client_id(), "dev-1");
    assert_eq!(cfg.keep_alive_secs, None);
    assert_eq!(cfg.connection_timeout_ms, None);
    assert_eq!(cfg.keep_alive(), 30);
    assert_eq!(cfg.timeout_ms(), 5000);
    assert_eq!(DEFAULT_KEEP_ALIVE_SECS, 30);
    assert_eq!(DEFAULT_CONNECTION_TIMEOUT_MS, 5000);
    assert!(cfg.lwt().is_none());
    assert_eq!(cfg.username(), None);
    assert_eq!(cfg.password(), None);
    assert_eq!(cfg.validate(), Ok(()));
}

#[test]
fn config_builders_set_one_thing_each() {
    let cfg = dev1().with_keep_alive(60);
    assert_eq!(cfg.keep_alive(), 60);
    assert_eq!(cfg.timeout_ms(), 5000);
    let cfg = cfg.with_timeout(200);
    assert_eq!(cfg.keep_alive(), 60);
    assert_eq!(cfg.timeout_ms(), 200);
    let cfg = cfg.with_auth("user", "secret");
    assert_eq!(cfg.username(), Some("user"));
    assert_eq!(cfg.password(), Some("secret"));
    assert!(cfg.lwt().is_none());
    let cfg = cfg.with_lwt(LwtConfig::new("iot/dev-1/lost", b"gone", QoS::ExactlyOnce, true));
    let lwt = cfg.lwt().unwrap();
    assert_eq!(lwt.topic(), "iot/dev-1/lost");
    assert_eq!(lwt.payload(), b"gone");
    assert_eq!(lwt.qos(), QoS::ExactlyOnce);
    assert!(lwt.retain());
    assert_eq!(cfg.username(), Some("user"));
    assert_eq!(cfg.keep_alive(), 60);
    assert_eq!(cfg.host(), "10.0.0.5");
    assert_eq!(cfg.validate(), Ok(()));
}

#[test]
fn config_rules_in_order() {
    assert_eq!(MqttConfig::new("", 1883, "").validate(), Err(ConfigError::EmptyHost));
    assert_eq!(MqttConfig::new("h", 1883, "").validate(), Err(ConfigError::EmptyClientId));
    assert_eq!(
        MqttConfig::new("h", 1883, "c").with_auth("", "").validate(),
        Err(ConfigError::EmptyUsername)
    );
    assert_eq!(
        MqttConfig::new("h", 1883, "c").with_auth("u", "").validate(),
        Err(ConfigError::EmptyPassword)
    );
    let no_topic = LwtConfig::new("", b"gone", QoS::AtLeastOnce, false);
    assert_eq!(
        MqttConfig::new("h", 1883, "c").with_lwt(no_topic).validate(),
        Err(ConfigError::EmptyLwtTopic)
    );
    assert_eq!(
        MqttConfig::new("h", 1883, "c").with_auth("u", "").with_lwt(no_topic).validate(),
        Err(ConfigError::EmptyPassword)
    );
    let empty_payload = LwtConfig::new("t", b"", QoS::AtMostOnce, false);
    assert_eq!(MqttConfig::new("h", 0, "c").with_lwt(empty_payload).validate(), Ok(()));
}

#[test]
fn config_refuses_zero_bytes() {
    let ok = MqttConfig::new("h", 1883, "c");
    assert_eq!(MqttConfig::new("h\0", 1883, "c").validate(), Err(ConfigError::ZeroByte));
    assert_eq!(MqttConfig::new("h", 1883, "\0c").validate(), Err(ConfigError::ZeroByte));
    assert_eq!(ok.with_auth("u\0ser", "p").validate(), Err(ConfigError::ZeroByte));
    assert_eq!(ok.with_auth("u", "p\0").validate(), Err(ConfigError::ZeroByte));
    assert_eq!(
        ok.with_lwt(LwtConfig::new("a\0b", b"x", QoS::AtMostOnce, false)).validate(),
        Err(ConfigError::ZeroByte)
    );
    assert_eq!(
        ok.with_lwt(LwtConfig::new("t", b"\0", QoS::AtMostOnce, false)).validate(),
        Ok(())
    );
    assert_eq!(MqttConfig::new("", 1883, "\0").validate(), Err(ConfigError::EmptyHost));
    assert_eq!(
        MqttConfig::new("h\0", 1883, "c").with_auth("", "p").validate(),
        Err(ConfigError::EmptyUsername)
    );
    assert_eq!(
        MqttManager::new(MqttConfig::new("h", 1883, "c\0"), &["cmd"]).err(),
        Some(MqttError::Configuration(ConfigError::ZeroByte))
    );
    assert_eq!(
        MqttConfig::new("h", 1883, "c\0").client_settings().err(),
        Some(ConfigError::ZeroByte)
    );
}

#[test]
fn contains_zero_byte_looks_at_every_byte() {
    assert!(!contains_zero_byte(""));
    assert!(!contains_zero_byte("10.0.0.5"));
    assert!(!contains_zero_byte("k\u{fc}che \u{20ac} \u{1f600}"));
    assert!(contains_zero_byte("\0"));
    assert!(contains_zero_byte("abc\0"));
    assert!(contains_zero_byte("\u{fc}\0\u{fc}"));
}

#[test]
fn broker_url_is_scheme_host_port() {
    assert_eq!(dev1().broker_url(), "mqtt://10.0.0.5:1883");
    assert_eq!(MqttConfig::new("broker.local", 8883, "x").broker_url(), "mqtt://broker.local:8883");
    assert_eq!(MqttConfig::new("h", 0, "x").broker_url(), "mqtt://h:0");
    assert_eq!(MqttConfig::new("h", 65535, "x").broker_url(), "mqtt://h:65535");
}

#[test]
fn client_settings_carry_the_configuration() {
    let lwt = LwtConfig::new("iot/dev-1/lost", b"gone", QoS::AtLeastOnce, true);
    let cfg = dev1().with_keep_alive(45).with_auth("user", "secret").with_lwt(lwt);
    let settings = cfg.client_settings().unwrap();
    assert_eq!(settings.url, "mqtt://10.0.0.5:1883");
    assert_eq!(settings.client_id, "dev-1");
    assert_eq!(settings.keep_alive_secs, 45);
    assert_eq!(settings.username, Some("user"));
    assert_eq!(settings.password, Some("secret"));
    let will = settings.lwt.unwrap();
    assert_eq!(will.topic(), "iot/dev-1/lost");
    assert_eq!(will.payload(), b"gone");
    assert_eq!(will.qos(), QoS::AtLeastOnce);
    assert!(will.retain());

    let plain = dev1().client_settings().unwrap();
    assert_eq!(plain.keep_alive_secs, 30);
    assert!(plain.lwt.is_none());
    assert_eq!(plain.username, None);
    assert_eq!(plain.password, None);
}

#[test]
fn client_settings_refuse_invalid_configuration() {
    assert_eq!(MqttConfig::new("", 1883, "c").client_settings().err(), Some(ConfigError::EmptyHost));
    assert_eq!(
        MqttConfig::new("h", 1883, "").client_settings().err(),
        Some(ConfigError::EmptyClientId)
    );
}

#[test]
fn manager_refuses_invalid_configuration() {
    let built = MqttManager::new(MqttConfig::new("", 1883, "dev-1"), &["cmd"]);
    assert_eq!(built.err(), Some(MqttError::Configuration(ConfigError::EmptyHost)));
    let built = MqttManager::new(MqttConfig::new("h", 1883, ""), &["cmd"]);
    assert_eq!(built.err(), Some(MqttError::Configuration(ConfigError::EmptyClientId)));
    let built = MqttManager::new(dev1().with_auth("u", ""), &[]);
    assert_eq!(built.err(), Some(MqttError::Configuration(ConfigError::EmptyPassword)));
}

#[test]
fn manager_starts_opening_with_both_flags_clear() {
    let m = MqttManager::new(dev1(), &["cmd"]).unwrap();
    assert_eq!(m.client_id(), "dev-1");
    assert_eq!(m.topics().len(), 1);
    assert_eq!(m.topics().get(0), Some("cmd"));
    assert_eq!(m.connect_phase(), ConnectPhase::Opening { polls: 50 });
    assert_eq!(m.shutdown_phase(), ShutdownPhase::Active);
    assert!(!m.is_connected());
    assert!(!m.is_shutting_down());
    assert!(!m.is_ready());
    assert!(m.next_subscription().is_none());
}

#[test]
fn polls_are_the_timeout_in_tenths_of_a_second() {
    assert_eq!(CONNECTION_POLL_INTERVAL_MS, 100);
    for (ms, polls) in [(0u64, 0u64), (99, 0), (100, 1), (199, 1), (200, 2), (5000, 50)] {
        let m = MqttManager::new(dev1().with_timeout(ms), &[]).unwrap();
        assert_eq!(m.connect_phase(), ConnectPhase::Opening { polls });
    }
}

#[test]
fn failed_open_is_a_connect_error() {
    let mut m = MqttManager::new(dev1(), &["cmd"]).unwrap();
    assert_eq!(m.transport_opened(false), Err(MqttError::Connect));
    assert_eq!(m.connect_phase(), ConnectPhase::Failed(MqttError::Connect));
    assert_eq!(m.transport_opened(true), Err(MqttError::Connect));
    assert!(!m.poll_connection(true));
    assert!(m.next_subscription().is_none());
    assert_eq!(m.subscription_done(true), Err(MqttError::Connect));
    assert_eq!(m.connect_phase(), ConnectPhase::Failed(MqttError::Connect));
}

#[test]
fn scenario_construction_goes_on_after_the_timeout() {
    let mut m = MqttManager::new(dev1().with_timeout(200), &["cmd"]).unwrap();
    assert_eq!(m.transport_opened(true), Ok(()));
    assert_eq!(m.connect_phase(), ConnectPhase::AwaitingConnection { polls_left: 2 });
    let mut slept_ms = 0;
    while m.poll_connection(false) {
        slept_ms += CONNECTION_POLL_INTERVAL_MS;
    }
    assert_eq!(slept_ms, 200);
    assert!(!m.is_connected());
    assert_eq!(m.connect_phase(), ConnectPhase::Subscribing { next: 0 });
    let request = m.next_subscription().unwrap();
    assert_eq!(request.topic, "cmd");
    assert_eq!(request.qos, QoS::AtLeastOnce);
    assert_eq!(m.subscription_done(true), Ok(()));
    assert!(m.is_ready());
    assert!(!m.is_connected());
}

#[test]
fn confirmation_ends_the_wait_at_once() {
    let mut m = MqttManager::new(dev1(), &["cmd"]).unwrap();
    m.transport_opened(true).unwrap();
    assert!(m.poll_connection(false));
    assert!(m.poll_connection(false));
    assert_eq!(m.connect_phase(), ConnectPhase::AwaitingConnection { polls_left: 48 });
    assert!(!m.poll_connection(true));
    assert!(m.is_connected());
    assert_eq!(m.connect_phase(), ConnectPhase::Subscribing { next: 0 });
}

#[test]
fn zero_timeout_does_not_wait() {
    let mut m = MqttManager::new(dev1().with_timeout(0), &["cmd"]).unwrap();
    m.transport_opened(true).unwrap();
    assert!(!m.poll_connection(false));
    assert_eq!(m.connect_phase(), ConnectPhase::Subscribing { next: 0 });
}

#[test]
fn polling_before_the_transport_is_open_changes_nothing() {
    let mut m = MqttManager::new(dev1(), &["cmd"]).unwrap();
    assert!(!m.poll_connection(true));
    assert!(!m.is_connected());
    assert_eq!(m.connect_phase(), ConnectPhase::Opening { polls: 50 });
    assert_eq!(m.subscription_done(false), Ok(()));
    assert_eq!(m.connect_phase(), ConnectPhase::Opening { polls: 50 });
}

#[test]
fn every_filter_is_subscribed_in_order() {
    let mut m = MqttManager::new(dev1(), &["a", "b", "a"]).unwrap();
    m.transport_opened(true).unwrap();
    assert!(!m.poll_connection(true));
    let mut asked = Vec::new();
    while let Some(request) = m.next_subscription() {
        assert_eq!(request.qos, QoS::AtLeastOnce);
        asked.push(request.topic.to_string());
        assert_eq!(m.subscription_done(true), Ok(()));
    }
    assert_eq!(asked, vec!["a", "b", "a"]);
    assert!(m.is_ready());
    assert_eq!(m.subscription_done(false), Ok(()));
    assert!(m.is_ready());
}

#[test]
fn no_filters_means_ready_after_the_wait() {
    let mut m = MqttManager::new(dev1(), &[]).unwrap();
    m.transport_opened(true).unwrap();
    assert!(!m.poll_connection(true));
    assert!(m.is_ready());
    assert!(m.next_subscription().is_none());
}

#[test]
fn refused_subscription_is_fatal() {
    let mut m = MqttManager::new(dev1(), &["a", "b"]).unwrap();
    m.transport_opened(true).unwrap();
    m.poll_connection(true);
    assert_eq!(m.subscription_done(true), Ok(()));
    assert_eq!(m.next_subscription().unwrap().topic, "b");
    assert_eq!(m.subscription_done(false), Err(MqttError::Subscribe));
    assert_eq!(m.connect_phase(), ConnectPhase::Failed(MqttError::Subscribe));
    assert!(m.next_subscription().is_none());
    assert_eq!(m.subscription_done(true), Err(MqttError::Subscribe));
    assert!(!m.is_ready());
}

#[test]
fn publish_fixes_guarantee_and_retain() {
    let m = ready(&["cmd"]);
    let request = m.publish("status", "online");
    assert_eq!(
        request,
        PublishRequest {
            topic: "status".into(),
            payload: b"online".to_vec(),
            qos: QoS::AtLeastOnce,
            retain: false
        }
    );
    let request = m.publish("status", "gr\u{fc}n");
    assert_eq!(request.payload, "gr\u{fc}n".as_bytes());
}

#[test]
fn publish_with_passes_everything_on() {
    let m = ready(&[]);
    let request = m.publish_with("state", &[0, 255, 7], QoS::ExactlyOnce, true);
    assert_eq!(request.topic, "state");
    assert_eq!(request.payload, vec![0, 255, 7]);
    assert_eq!(request.qos, QoS::ExactlyOnce);
    assert!(request.retain);
    let request = m.publish_with("", &[], QoS::AtMostOnce, false);
    assert_eq!(request.topic, "");
    assert!(request.payload.is_empty());
    assert_eq!(request.qos, QoS::AtMostOnce);
    assert!(!request.retain);
}

#[test]
fn scenario_publish_fails_until_connected() {
    let mut lp = EventLoop::new(SubscriptionSet::new(&["cmd"]));
    let m = ready(&["cmd"]);
    let request = m.publish_with("status", b"up", QoS::AtLeastOnce, false);
    assert_eq!(request.topic, "status");
    assert!(!lp.is_connected());
    assert_eq!(MqttManager::publish_outcome(lp.is_connected()), Err(MqttError::Publish));
    assert!(matches!(lp.step(false, Event::Connected), Action::SetConnected(true)));
    let again = m.publish_with("status", b"up", QoS::AtLeastOnce, false);
    assert_eq!(again, request);
    assert_eq!(MqttManager::publish_outcome(lp.is_connected()), Ok(()));
}

#[test]
fn only_publish_errors_are_not_fatal() {
    assert!(MqttError::Configuration(ConfigError::EmptyHost).fatal());
    assert!(MqttError::Connect.fatal());
    assert!(MqttError::Subscribe.fatal());
    assert!(!MqttError::Publish.fatal());
}

#[test]
fn lifecycle_messages() {
    let m = ready(&[]);
    let start = m.send_startup_message();
    assert_eq!(start.topic, "iot/dev-1/startup");
    assert_eq!(start.payload, b"1");
    assert_eq!(start.qos, QoS::AtLeastOnce);
    assert!(!start.retain);
    let stop = m.send_shutdown_message();
    assert_eq!(stop.topic, "iot/dev-1/shutdown");
    assert_eq!(stop.payload, b"1");
    assert_eq!(stop.qos, QoS::AtLeastOnce);
    assert!(!stop.retain);
    assert_eq!(m.shutdown_phase(), ShutdownPhase::Active);
}

#[test]
fn scenario_release_publishes_once_then_sets_the_flag() {
    let mut m = ready(&["cmd"]);
    let mut attempts = Vec::new();
    for _release in 0..2 {
        if let Some(notice) = m.shutdown() {
            assert!(!m.is_shutting_down());
            attempts.push(notice);
            assert!(m.shutdown_notified(true));
        }
        assert!(m.is_shutting_down());
    }
    assert_eq!(
        attempts,
        vec![PublishRequest {
            topic: "iot/dev-1/shutdown".into(),
            payload: b"1".to_vec(),
            qos: QoS::AtLeastOnce,
            retain: false
        }]
    );
}

#[test]
fn shutdown_is_idempotent() {
    let mut m = ready(&["cmd"]);
    assert!(m.shutdown().is_some());
    assert_eq!(m.shutdown_phase(), ShutdownPhase::Notifying);
    assert!(m.shutdown().is_none());
    assert_eq!(m.shutdown_phase(), ShutdownPhase::Notifying);
    assert!(m.shutdown_notified(false));
    assert_eq!(m.shutdown_phase(), ShutdownPhase::Signalled);
    assert!(m.is_shutting_down());
    assert!(m.shutdown().is_none());
    assert!(!m.shutdown_notified(true));
    assert!(m.is_shutting_down());
    assert_eq!(m.shutdown_phase(), ShutdownPhase::Signalled);
}

#[test]
fn failed_notification_still_sets_the_flag() {
    let mut m = ready(&[]);
    assert!(m.shutdown().is_some());
    assert!(m.shutdown_notified(false));
    assert!(m.is_shutting_down());
}

#[test]
fn flag_is_not_set_without_a_notification() {
    let mut m = ready(&[]);
    assert!(!m.shutdown_notified(true));
    assert!(!m.is_shutting_down());
    assert_eq!(m.shutdown_phase(), ShutdownPhase::Active);
}

#[test]
fn shutdown_during_construction() {
    let mut m = MqttManager::new(dev1(), &["a"]).unwrap();
    m.transport_opened(true).unwrap();
    m.poll_connection(true);
    assert_eq!(m.subscription_done(false), Err(MqttError::Subscribe));
    let notice = m.shutdown().unwrap();
    assert_eq!(notice.topic, "iot/dev-1/shutdown");
    assert!(m.shutdown_notified(false));
    assert!(m.is_shutting_down());
    assert_eq!(m.connect_phase(), ConnectPhase::Failed(MqttError::Subscribe));
}

#[test]
fn loop_stops_only_after_the_flag_is_set() {
    let mut m = ready(&["cmd"]);
    let mut lp = EventLoop::new(SubscriptionSet::new(&["cmd"]));
    let cmd = Event::Received { topic: Some("cmd"), payload: b"x" };
    assert!(matches!(lp.step(m.is_shutting_down(), cmd), Action::Deliver { .. }));
    let notice = m.shutdown();
    assert!(notice.is_some());
    assert!(matches!(lp.step(m.is_shutting_down(), cmd), Action::Deliver { .. }));
    m.shutdown_notified(true);
    assert!(matches!(lp.step(m.is_shutting_down(), cmd), Action::Stop));
    assert!(lp.is_terminated());
}
