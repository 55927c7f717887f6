use ssh_host::ssh_host::SshHost;

#[test]
fn default_user_is_local_identity() {
    let val = SshHost::new(String::from("box"), String::from("10.0.0.1"), None, None, None);
    assert_eq!(val.get_user(), whoami::username());
}

#[test]
fn field_round_trip_identity() {
    let val = SshHost::new(
        String::from("edge-01"),
        String::from("gateway.example.org"),
        Some(String::from("deploy")),
        Some(65535),
        Some(String::from("/home/deploy/.ssh/id_ed25519")),
    );
    assert_eq!(val.get_name(), String::from("edge-01"));
    assert_eq!(val.get_address(), String::from("gateway.example.org"));
    assert_eq!(val.get_user(), String::from("deploy"));
    assert_eq!(val.get_port(), 65535);
    assert_eq!(
        val.get_private_key().unwrap(),
        String::from("/home/deploy/.ssh/id_ed25519")
    );
}

#[test]
fn setters_touch_only_their_field() {
    let mut val = SshHost::new(
        String::from("hello"),
        String::from("127.0.0.1"),
        Some(String::from("user")),
        Some(2222),
        Some(String::from("private_key")),
    );
    val.set_port(2222);
    assert_eq!(val.get_port(), 2222);
    val.set_reachable(false);
    assert_eq!(val.is_reachable(), false);
    assert_eq!(val.get_name(), String::from("hello"));
    assert_eq!(val.get_address(), String::from("127.0.0.1"));
    assert_eq!(val.get_user(), String::from("user"));
    assert_eq!(val.get_port(), 2222);
    assert_eq!(val.get_private_key().unwrap(), String::from("private_key"));
}

#[test]
fn set_address_after_default_construction() {
    let mut val = SshHost::new(String::from("hello"), String::from("127.0.0.2"), None, None, None);
    val.set_address(String::from("127.0.0.1"));
    assert_eq!(val.get_address(), String::from("127.0.0.1"));
}

#[test]
fn clear_private_key() {
    let mut val = SshHost::new(
        String::from("hello"),
        String::from("127.0.0.1"),
        None,
        None,
        Some(String::from("private_key")),
    );
    val.set_private_key(None);
    assert_eq!(val.get_private_key(), None);
}

#[test]
fn url_with_zero_port() {
    let mut val = SshHost::new(String::from("n"), String::from("host"), None, None, None);
    val.set_port(0);
    assert_eq!(val.get_url(), String::from("host:0"));
}

#[test]
fn url_with_negative_port() {
    let val = SshHost::new(String::from("n"), String::from("host"), None, Some(-55), None);
    assert_eq!(val.get_url(), String::from("host:-55"));
}

#[test]
fn url_with_extreme_ports() {
    let mut val = SshHost::new(String::from("n"), String::from("h"), None, Some(i64::MAX), None);
    assert_eq!(val.get_url(), String::from("h:9223372036854775807"));
    val.set_port(i64::MIN);
    assert_eq!(val.get_url(), String::from("h:-9223372036854775808"));
}

#[test]
fn url_with_empty_address() {
    let val = SshHost::new(String::from("n"), String::from(""), None, None, None);
    assert_eq!(val.get_url(), String::from(":22"));
}

#[test]
fn empty_strings_are_accepted() {
    let val = SshHost::new(
        String::from(""),
        String::from(""),
        Some(String::from("")),
        Some(0),
        Some(String::from("")),
    );
    assert_eq!(val.get_name(), String::from(""));
    assert_eq!(val.get_address(), String::from(""));
    assert_eq!(val.get_user(), String::from(""));
    assert_eq!(val.get_port(), 0);
    assert_eq!(val.get_private_key().unwrap(), String::from(""));
    assert_eq!(val.is_reachable(), true);
}

#[test]
fn reachable_starts_true_for_any_inputs() {
    let a = SshHost::new(String::from("a"), String::from("b"), None, None, None);
    let b = SshHost::new(
        String::from(""),
        String::from("::1"),
        Some(String::from("root")),
        Some(-1),
        Some(String::from("k")),
    );
    assert!(a.is_reachable());
    assert!(b.is_reachable());
}
