use ddns_updater::config::Config;
use ddns_updater::config::ConfigError;

fn s(x: &str) -> String {
    x.to_string()
}

#[test]
fn missing_api_token_is_fatal_before_any_network_call() {
    // The process must refuse to start without the API token: the very
    // first validation step fails, so no client is built and no network
    // call can follow.
    let r = Config::from_values(None, Some(s("zone")), Some(s("r4")), Some(s("r6")));
    match r {
        Ok(_) => panic!("configuration without a token must be rejected"),
        Err(e) => {
            assert_eq!(e, ConfigError::MissingApiToken);
            assert_eq!(e.variable_name(), "CLOUDFLARE_API_TOKEN");
        }
    }
}

#[test]
fn missing_zone_id_reported() {
    let r = Config::from_values(Some(s("tok")), None, Some(s("r4")), Some(s("r6")));
    match r {
        Ok(_) => panic!("expected an error"),
        Err(e) => {
            assert_eq!(e, ConfigError::MissingZoneId);
            assert_eq!(e.variable_name(), "CLOUDFLARE_ZONE_ID");
        }
    }
}

#[test]
fn missing_record_v4_id_reported() {
    let r = Config::from_values(Some(s("tok")), Some(s("zone")), None, Some(s("r6")));
    match r {
        Ok(_) => panic!("expected an error"),
        Err(e) => {
            assert_eq!(e, ConfigError::MissingRecordV4Id);
            assert_eq!(e.variable_name(), "CLOUDFLARE_RECORD_V4_ID");
        }
    }
}

#[test]
fn missing_record_v6_id_reported() {
    let r = Config::from_values(Some(s("tok")), Some(s("zone")), Some(s("r4")), None);
    match r {
        Ok(_) => panic!("expected an error"),
        Err(e) => {
            assert_eq!(e, ConfigError::MissingRecordV6Id);
            assert_eq!(e.variable_name(), "CLOUDFLARE_RECORD_V6_ID");
        }
    }
}

#[test]
fn token_checked_before_the_other_values() {
    // When several values are missing the first check decides the error.
    let r = Config::from_values(None, None, None, None);
    match r {
        Ok(_) => panic!("expected an error"),
        Err(e) => assert_eq!(e, ConfigError::MissingApiToken),
    }
}

#[test]
fn complete_configuration_is_kept_verbatim() {
    let r = Config::from_values(Some(s("tok")), Some(s("zone")), Some(s("r4")), Some(s("r6")));
    match r {
        Ok(c) => {
            assert_eq!(c.api_token, "tok");
            assert_eq!(c.zone_id, "zone");
            assert_eq!(c.record_v4_id, "r4");
            assert_eq!(c.record_v6_id, "r6");
        }
        Err(_) => panic!("a complete configuration must be accepted"),
    }
}
