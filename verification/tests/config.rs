use slados::config::{
    default_enabled, default_ip_version, default_port, default_s2id, select_mode,
    ConfigurationFile, IpVersion, Mode, ModeError, ServerConfig,
};

fn config(server: bool, kiosk: bool) -> ConfigurationFile {
    let section = ServerConfig { s2id: default_s2id() };
    ConfigurationFile {
        enabled: default_enabled(),
        ip_version: default_ip_version(),
        host: "127.0.0.1".to_string(),
        port: default_port(),
        server: if server { Some(section.clone()) } else { None },
        kiosk: if kiosk { Some(section) } else { None },
    }
}

#[test]
fn defaults() {
    assert_eq!(default_s2id(), "/var/lib/persistant_s2id.json");
    assert!(default_enabled());
    assert_eq!(default_ip_version(), IpVersion::V4);
    assert_eq!(default_port(), 7645);
}

#[test]
fn modes_need_their_sections() {
    assert_eq!(select_mode(Mode::Server, &config(true, false)), Ok(Mode::Server));
    assert_eq!(select_mode(Mode::Server, &config(false, true)), Err(ModeError::MissingServerSection));
    assert_eq!(select_mode(Mode::Kiosk, &config(false, true)), Ok(Mode::Kiosk));
    assert_eq!(select_mode(Mode::Kiosk, &config(true, false)), Err(ModeError::MissingKioskSection));
    assert_eq!(select_mode(Mode::Kiosk, &config(true, true)), Ok(Mode::Kiosk));
}
