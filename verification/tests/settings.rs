use server_status::format::Templates;
use server_status::settings::{Settings, SettingsError};

fn templates() -> Templates {
    Templates { online: "$ONLINE/$MAX".to_string(), offline: "offline".to_string() }
}

fn make(credential: &str, interval_secs: u64) -> Result<Settings, SettingsError> {
    Settings::new(
        credential.to_string(),
        1234567890123456789,
        "mc.example.org".to_string(),
        25565,
        interval_secs,
        templates(),
    )
}

#[test]
fn valid_settings_keep_every_value() {
    let settings = make("secret", 60).expect("the settings are valid");
    assert_eq!(settings.credential(), "secret");
    assert_eq!(settings.channel_id(), 1234567890123456789);
    assert_eq!(settings.host(), "mc.example.org");
    assert_eq!(settings.port(), 25565);
    assert_eq!(settings.interval_secs(), 60);
    assert_eq!(settings.templates(), &templates());
}

#[test]
fn empty_credential_is_turned_down() {
    assert_eq!(make("", 60), Err(SettingsError::EmptyCredential));
}

#[test]
fn zero_interval_is_turned_down() {
    assert_eq!(make("secret", 0), Err(SettingsError::ZeroInterval));
}

#[test]
fn empty_credential_is_named_first() {
    assert_eq!(make("", 0), Err(SettingsError::EmptyCredential));
}

#[test]
fn shortest_interval_and_credential_are_taken() {
    let settings = make("x", 1).expect("one second and one character are enough");
    assert_eq!(settings.interval_secs(), 1);
    assert_eq!(settings.credential(), "x");
}

#[test]
fn longest_interval_is_taken() {
    let settings = make("secret", u64::MAX).expect("any interval above zero is valid");
    assert_eq!(settings.interval_secs(), u64::MAX);
}

#[test]
fn every_port_and_channel_is_taken() {
    for port in [0u16, 1, 25565, u16::MAX] {
        for channel_id in [0u64, 1, u64::MAX] {
            let settings = Settings::new(
                "secret".to_string(),
                channel_id,
                String::new(),
                port,
                5,
                templates(),
            )
            .expect("port, channel and host are not restricted");
            assert_eq!(settings.port(), port);
            assert_eq!(settings.channel_id(), channel_id);
            assert_eq!(settings.host(), "");
        }
    }
}

#[test]
fn a_copy_holds_the_same_values() {
    let settings = make("secret", 60).expect("the settings are valid");
    let copy = settings.clone();
    assert_eq!(copy, settings);
    assert_eq!(copy.credential(), "secret");
    assert_eq!(copy.interval_secs(), 60);
    assert_eq!(copy.templates(), &templates());
}
