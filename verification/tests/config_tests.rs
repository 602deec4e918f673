use air_relay::config::{choose_source, source_is_selected, ConfigSource, DeviceConfig};
use air_relay::relay::SinkConfig;

fn store() -> SinkConfig {
    SinkConfig {
        host: "h".to_string(),
        database: "d".to_string(),
        username: "u".to_string(),
        password: "p".to_string(),
    }
}

#[test]
fn device_has_the_default_baud_rate() {
    let device = DeviceConfig::new("/dev/ttyUSB0".to_string());
    assert_eq!(device.path, "/dev/ttyUSB0");
    assert_eq!(device.baud_rate, 9600);
}

#[test]
fn device_and_store_without_a_file_are_taken_as_given() {
    let device = Some("/dev/ttyS1".to_string());
    let conn = Some(store());
    assert!(source_is_selected(&device, &conn, &None));
    match choose_source(device, conn, None) {
        ConfigSource::Inline(config) => {
            assert_eq!(config.device.path, "/dev/ttyS1");
            assert_eq!(config.device.baud_rate, 9600);
            assert_eq!(config.conn.host, "h");
            assert_eq!(config.conn.database, "d");
            assert_eq!(config.conn.username, "u");
            assert_eq!(config.conn.password, "p");
        }
        other => panic!("unexpected: {:?}", other),
    }
}

#[test]
fn file_alone_is_the_source() {
    let file = Some("/etc/air.json".to_string());
    assert!(source_is_selected(&None, &None, &file));
    match choose_source(None, None, file) {
        ConfigSource::File(path) => assert_eq!(path, "/etc/air.json"),
        other => panic!("unexpected: {:?}", other),
    }
}

#[test]
fn every_other_combination_selects_nothing() {
    let d = Some("/dev/ttyS1".to_string());
    let c = Some(store());
    let f = Some("/etc/air.json".to_string());
    assert!(!source_is_selected(&None, &None, &None));
    assert!(!source_is_selected(&d, &None, &None));
    assert!(!source_is_selected(&None, &c, &None));
    assert!(!source_is_selected(&d, &c, &f));
    assert!(!source_is_selected(&d, &None, &f));
    assert!(!source_is_selected(&None, &c, &f));
}
