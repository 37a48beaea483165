use smarthome_cli::cli::HmsArg;
use smarthome_cli::config::{validate_servers, HomescriptConfig, SmarthomeServer, ValidateError};
use smarthome_cli::errors::RemoteFailure;
use smarthome_cli::power::{
    classify_power_failure, peak_on_watts, power_summary, toggle_target, watt_minutes_total,
    ParsedDevice, ParsedPower, PowerDrawPoint, PowerError, TableDevice,
};

fn token_server(id: &str, token: &str) -> SmarthomeServer {
    SmarthomeServer {
        id: id.to_string(),
        url: "http://smarthome.box".to_string(),
        username: String::new(),
        password: String::new(),
        token: token.to_string(),
    }
}

fn good_token() -> String {
    "a".repeat(32)
}

#[test]
fn defaults_enable_linting_and_history() {
    let c = HomescriptConfig::default();
    assert!(c.lint_on_push);
    assert!(c.use_repl_history);
    let s = SmarthomeServer::default();
    assert_eq!(s.id, "default");
    assert_eq!(s.url, "http://smarthome.box");
    assert_eq!(s.token, "-".repeat(32));
    assert!(s.username.is_empty() && s.password.is_empty());
}

#[test]
fn a_config_without_servers_is_rejected() {
    assert_eq!(validate_servers(&Vec::new()), Err(ValidateError::NoServers));
}

#[test]
fn duplicate_ids_are_rejected() {
    let servers = vec![token_server("one", &good_token()), token_server("one", &good_token())];
    assert_eq!(validate_servers(&servers), Err(ValidateError::DuplicateID("one".to_string())));
}

#[test]
fn missing_authentication_is_rejected() {
    let servers = vec![token_server("one", "")];
    assert_eq!(validate_servers(&servers), Err(ValidateError::EmptyUserName("one".to_string())));
}

#[test]
fn malformed_tokens_are_rejected() {
    match validate_servers(&vec![token_server("one", "short")]) {
        Err(ValidateError::InvalidToken { server_id, token, message }) => {
            assert_eq!(server_id, "one");
            assert_eq!(token, "short");
            assert_eq!(message, "Token does not have the length of 32 characters.");
        },
        other => panic!("a short token is invalid, got {other:?}"),
    }
    let spaced = format!("{} {}", "a".repeat(16), "b".repeat(15));
    match validate_servers(&vec![token_server("one", &spaced)]) {
        Err(ValidateError::InvalidToken { message, .. }) => {
            assert_eq!(message, "Token may not contain whitespaces or non-ASCII characters");
        },
        other => panic!("a spaced token is invalid, got {other:?}"),
    }
    let umlauts = format!("{}ä", "a".repeat(31));
    match validate_servers(&vec![token_server("one", &umlauts)]) {
        Err(ValidateError::InvalidToken { message, .. }) => {
            assert_eq!(message, "Token may not contain whitespaces or non-ASCII characters");
        },
        other => panic!("a non-ASCII token is invalid, got {other:?}"),
    }
}

#[test]
fn ambiguous_authentication_is_rejected() {
    let mut server = token_server("one", &good_token());
    server.username = "user".to_string();
    assert_eq!(
        validate_servers(&vec![server]),
        Err(ValidateError::AmbiguousAuth("one".to_string()))
    );
}

#[test]
fn a_clean_config_passes() {
    let mut with_password = token_server("two", "");
    with_password.username = "user".to_string();
    with_password.password = "secret".to_string();
    let servers = vec![token_server("one", &good_token()), with_password];
    assert_eq!(validate_servers(&servers), Ok(()));
}

#[test]
fn validate_errors_render_their_subject() {
    assert_eq!(
        ValidateError::DuplicateID("x".to_string()).message(),
        "Duplicate server ID: the ID `x` must be unique"
    );
    assert_eq!(
        ValidateError::NoServers.message(),
        "No servers specified: at least one (default) server must be specified to use this CLI"
    );
}

fn device(id: &str, power: Option<ParsedPower>) -> ParsedDevice {
    ParsedDevice {
        id: id.to_string(),
        name: format!("device {id}"),
        room_id: "living".to_string(),
        power,
    }
}

#[test]
fn power_summary_splits_active_and_passive() {
    let devices = vec![
        device("a", Some(ParsedPower { status: true, watts: 60 })),
        device("b", Some(ParsedPower { status: false, watts: 40 })),
        device("c", None),
        device("d", Some(ParsedPower { status: true, watts: 5 })),
    ];
    let summary = power_summary(&devices).expect("fits");
    assert_eq!(summary.total, 105);
    assert_eq!(summary.active, 65);
    assert_eq!(summary.passive, 40);
}

#[test]
fn peak_needs_at_least_one_point() {
    assert!(matches!(
        peak_on_watts(&Vec::new()),
        Err(PowerError::NotEnoughPowerDrawData)
    ));
    let points = vec![
        PowerDrawPoint { time: 0, on_watts: 10 },
        PowerDrawPoint { time: 1, on_watts: 50 },
        PowerDrawPoint { time: 2, on_watts: 30 },
    ];
    assert_eq!(peak_on_watts(&points).unwrap(), 50);
}

#[test]
fn watt_minutes_weight_each_point_by_its_gap() {
    assert!(matches!(
        watt_minutes_total(&Vec::new()),
        Err(PowerError::NotEnoughPowerDrawData)
    ));
    let lone = vec![PowerDrawPoint { time: 0, on_watts: 99 }];
    assert_eq!(watt_minutes_total(&lone).unwrap(), 0);
    let points = vec![
        PowerDrawPoint { time: 0, on_watts: 10 },
        // ten minutes later, 60 watts switched on
        PowerDrawPoint { time: 10 * 60 * 1000, on_watts: 60 },
        // thirty more minutes, 100 watts switched on
        PowerDrawPoint { time: 40 * 60 * 1000, on_watts: 100 },
    ];
    assert_eq!(watt_minutes_total(&points).unwrap(), 60 * 10 + 100 * 30);
}

#[test]
fn toggling_inverts_the_current_state() {
    let devices = vec![
        device("lamp", Some(ParsedPower { status: true, watts: 60 })),
        device("sensor", None),
    ];
    assert_eq!(toggle_target(&devices, &"lamp".to_string()), Ok(false));
    match toggle_target(&devices, &"sensor".to_string()) {
        Err(PowerError::InvalidSwitch { id }) => assert_eq!(id, "device does not support power"),
        other => panic!("a powerless device cannot toggle, got {other:?}"),
    }
    match toggle_target(&devices, &"ghost".to_string()) {
        Err(PowerError::InvalidSwitch { id }) => assert_eq!(id, "ghost"),
        other => panic!("an unknown switch cannot toggle, got {other:?}"),
    }
}

#[test]
fn power_failures_classify_by_status() {
    let id = "lamp".to_string();
    assert!(matches!(
        classify_power_failure(&id, RemoteFailure::Status { code: 422 }),
        PowerError::InvalidSwitch { .. }
    ));
    match classify_power_failure(&id, RemoteFailure::Status { code: 403 }) {
        PowerError::PermissionDenied { id } => assert_eq!(id, "lamp"),
        other => panic!("403 denies permission, got {other:?}"),
    }
    assert!(matches!(
        classify_power_failure(&id, RemoteFailure::Status { code: 503 }),
        PowerError::ServerError
    ));
    match classify_power_failure(&id, RemoteFailure::Status { code: 500 }) {
        PowerError::Unknown { message } => assert_eq!(message, "unexpected server status 500"),
        other => panic!("other statuses are unknown errors, got {other:?}"),
    }
    match classify_power_failure(&id, RemoteFailure::Transport { message: "refused".to_string() }) {
        PowerError::Unknown { message } => assert_eq!(message, "refused"),
        other => panic!("transport failures are unknown errors, got {other:?}"),
    }
}

#[test]
fn device_table_columns() {
    assert_eq!(TableDevice::display_power(&Some(true)), "\x1b[1;32mON\x1b[1;0m");
    assert_eq!(TableDevice::display_power(&Some(false)), "\x1b[1;31mOFF\x1b[1;0m");
    assert_eq!(TableDevice::display_power(&None), "\x1b[1;30mN/A\x1b[1;0m");
    assert_eq!(TableDevice::display_watts(&Some(60)), "60");
    assert_eq!(TableDevice::display_watts(&None), "\x1b[1;30mN/A\x1b[1;0m");

    let row = TableDevice::from(device("lamp", Some(ParsedPower { status: true, watts: 60 })));
    assert_eq!(row.watts, Some(60));
    assert_eq!(row.power_on, Some(true));
    let bare = TableDevice::from(device("sensor", None));
    assert_eq!(bare.watts, None);
    assert_eq!(bare.power_on, None);
}

#[test]
fn merged_power_requires_the_capability() {
    let info = Some(ParsedPower { status: true, watts: 9 });
    assert_eq!(ParsedDevice::merge_power(true, info), info);
    assert_eq!(ParsedDevice::merge_power(false, info), None);
}

#[test]
fn hms_args_split_on_the_first_colons() {
    let arg = HmsArg::from_str("key:value").unwrap();
    assert_eq!(arg.key, "key");
    assert_eq!(arg.value, "value");

    let extra = HmsArg::from_str("a:b:c").unwrap();
    assert_eq!(extra.key, "a");
    assert_eq!(extra.value, "b");

    let empty_key = HmsArg::from_str(":v").unwrap();
    assert_eq!(empty_key.key, "");
    assert_eq!(empty_key.value, "v");

    assert_eq!(HmsArg::from_str("novalue"), Err("Could not parse argument value"));
}
