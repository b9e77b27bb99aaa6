use pizza_freak::config::{Config, Location, User};
use pizza_freak::phone::PhoneNumber;

fn config(last_changed: u64, interval: usize) -> Config {
    Config {
        check_interval: interval,
        users: Vec::new(),
        locations: Vec::new(),
        consecutive_errors_limit: 3,
        from_addr: "from@example.com".to_string(),
        last_changed,
    }
}

fn user(carrier: &str, phone: &str) -> User {
    User {
        name: "Pat".to_string(),
        carrier: carrier.to_string(),
        phone_number: PhoneNumber::try_parse(phone).unwrap(),
    }
}

#[test]
fn configs_are_compared_by_fingerprint_only() {
    assert!(config(5, 100) == config(5, 999));
    assert!(config(5, 100) != config(6, 100));
}

#[test]
fn query_url_appends_the_dashed_number() {
    let location = Location {
        name: "Main St".to_string(),
        url: "https://example.com/track?phone=".to_string(),
    };
    let phone = PhoneNumber::try_parse("5551234567").unwrap();
    assert_eq!(location.query_url(&phone), "https://example.com/track?phone=555-123-4567");
}

#[test]
fn as_dest_for_a_known_carrier() {
    let dest = user("verizon", "555-123-4567").as_dest().unwrap();
    assert_eq!(dest.number, "5551234567");
    assert!(matches!(dest.carrier, cheap_alerts::Carrier::Verizon));
    assert_eq!(dest.address(), "5551234567@vtext.com");
}

#[test]
fn as_dest_knows_ten_carriers() {
    let expected = [
        ("att", "txt.att.net"),
        ("sprint", "messaging.sprintpcs.com"),
        ("tmobile", "tmomail.net"),
        ("verizon", "vtext.com"),
        ("boost", "myboostmobile.com"),
        ("cricket", "sms.mycricket.com"),
        ("metropcs", "mymetropcs.com"),
        ("tracfone", "mmst5.tracfone.com"),
        ("uscellular", "email.uscc.net"),
        ("virgin", "vmobl.com"),
    ];
    for (name, domain) in expected {
        let dest = user(name, "5551234567").as_dest().unwrap();
        assert!(!matches!(dest.carrier, cheap_alerts::Carrier::Other { .. }));
        assert_eq!(dest.address(), format!("5551234567@{}", domain));
    }
}

#[test]
fn as_dest_takes_another_carrier_as_its_domain() {
    let dest = user("sms.example.org", "5551234567").as_dest().unwrap();
    assert!(matches!(
        &dest.carrier,
        cheap_alerts::Carrier::Other { domain } if domain == "sms.example.org"
    ));
    assert_eq!(dest.address(), "5551234567@sms.example.org");
}

#[test]
fn as_dest_keeps_the_digits_only() {
    let dest = user("att", "55a-1b3-45c7").as_dest().unwrap();
    assert_eq!(dest.number, "5513457");
    let dest = user("att", "abc-def-ghij").as_dest().unwrap();
    assert_eq!(dest.number, "");
}
