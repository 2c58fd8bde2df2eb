//! Settings.
use energy_price::binary64::Binary64;
use energy_price::config::err;
use energy_price::{AxleConfig, MarketConfig, ProviderConfig};

fn b(value: f64) -> Binary64 {
    Binary64 {
        bits: value.to_bits(),
    }
}

fn enabled() -> AxleConfig {
    AxleConfig {
        enabled: true,
        api_key: "key".into(),
        ..AxleConfig::default()
    }
}

#[test]
fn legacy_snapshot_flags_require_enabled_self_dispatch() {
    for (enabled, self_dispatch, expected) in [
        (false, true, false),
        (true, false, false),
        (true, true, true),
    ] {
        let cfg = ProviderConfig {
            axle: AxleConfig {
                enabled,
                self_dispatch,
                ..Default::default()
            },
        };
        assert_eq!(cfg.self_dispatch(), expected);
    }
}

#[test]
fn bad_provider_settings_are_rejected() {
    let complaint = |axle: AxleConfig| ProviderConfig { axle }.validate().unwrap_err();
    assert_eq!(
        complaint(AxleConfig {
            api_key: String::new(),
            ..enabled()
        }),
        "axle.api_key is required when axle is enabled"
    );
    assert_eq!(
        complaint(AxleConfig {
            api_key: " \t\u{3000}".into(),
            ..enabled()
        }),
        "axle.api_key is required when axle is enabled"
    );
    for api_url in [
        "http://api.axle.energy",
        "http://localhost",
        "http://localhost.example/",
        "ftp://localhost/",
        "",
    ] {
        assert_eq!(
            complaint(AxleConfig {
                api_url: api_url.into(),
                ..enabled()
            }),
            "axle.api_url must use HTTPS (HTTP is allowed only for loopback development)"
        );
    }
    for value in [-1.0, f64::NAN, f64::INFINITY] {
        for axle in [
            AxleConfig {
                import_reward_p_per_kwh: b(value),
                ..AxleConfig::default()
            },
            AxleConfig {
                export_reward_p_per_kwh: b(value),
                ..AxleConfig::default()
            },
        ] {
            assert_eq!(
                complaint(axle),
                "Axle planning rewards must be finite and non-negative"
            );
        }
    }
    for api_url in [
        "https://api.axle.energy",
        "http://127.0.0.1:3000",
        "http://127.0.0.1/",
        "http://localhost:1",
        "http://localhost/x",
        "http://[::1]/",
        "http://[::1]:80",
    ] {
        let axle = AxleConfig {
            api_url: api_url.into(),
            import_reward_p_per_kwh: b(25.0),
            ..enabled()
        };
        ProviderConfig { axle }.validate().unwrap();
    }
    // A disabled provider needs no credentials.
    AxleConfig {
        api_url: String::new(),
        ..AxleConfig::default()
    }
    .validate()
    .unwrap();
}

#[test]
fn defaults_are_those_of_the_documentation() {
    let axle = ProviderConfig::default().clone().axle;
    assert!(!axle.enabled && !axle.self_dispatch);
    assert_eq!(axle.export_reward_p_per_kwh, b(100.0));
    assert_eq!(axle.import_reward_p_per_kwh, b(0.0));
    assert_eq!(axle.api_url, "https://api.axle.energy");
    assert_eq!(axle.api_key, "");
    let market = MarketConfig::default();
    assert_eq!(market.import_product, "AGILE-24-10-01");
    assert_eq!(market.import_tariff, "E-1R-AGILE-24-10-01-C");
    assert_eq!(market.export_product, "");
    assert_eq!(market.export_tariff, "");
    assert_eq!(market.standard_payment_method, "DIRECT_DEBIT");
    assert_eq!(market.standard_tariff_p, b(26.11));
}

#[test]
fn the_region_is_the_last_letter_of_the_tariff() {
    let region = |tariff: &str| {
        MarketConfig {
            import_tariff: tariff.into(),
            ..MarketConfig::default()
        }
        .gsp_region()
    };
    assert_eq!(MarketConfig::default().gsp_region(), Some('C'));
    for letter in "ABCDEFGHJKLMNP".chars() {
        assert_eq!(region(&format!("E-1R-AGILE-{letter}")), Some(letter));
    }
    assert_eq!(region("A"), Some('A'));
    for bad in ["", "-", "E-1R-AGILE-I", "E-1R-AGILE-O", "E-1R-AGILE-Q", "E-AB", "E-a", "E-\u{c9}"] {
        assert_eq!(region(bad), None, "{bad}");
    }
}

#[test]
fn failures_hold_their_message() {
    let failure: Result<u8, String> = err("no");
    assert_eq!(failure, Err("no".to_string()));
}
