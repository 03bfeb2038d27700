use hikwatch::monitor::{without_name, KeepAliveLog, UserWatch};
use hikwatch::online_user::{ClientAddress, OnlineUser};

fn user(id: u32, name: &str, ip: &str) -> OnlineUser {
    OnlineUser {
        id,
        name: name.to_string(),
        user_type: "operator".to_string(),
        login_time: "2023-05-01 08:00:00".to_string(),
        client_address: ClientAddress {
            ip_address: ip.to_string(),
        },
    }
}

#[test]
fn own_account_is_left_out() {
    let users = vec![user(1, "me", "a"), user(2, "bob", "b"), user(3, "me", "c")];
    let r = without_name(&users, "me");
    assert_eq!(r.len(), 1);
    assert_eq!(r[0].name, "bob");
}

#[test]
fn polls_report_current_and_gone_users() {
    let mut w = UserWatch::new();
    let first = w.update(&vec![user(1, "me", "a"), user(2, "bob", "b")], "me");
    assert_eq!(first.current.len(), 1);
    assert!(first.history.is_empty());
    assert!(first.alert);

    let second = w.update(&vec![user(1, "me", "a"), user(3, "carol", "c")], "me");
    assert_eq!(second.current.len(), 1);
    assert_eq!(second.current[0].name, "carol");
    assert_eq!(second.history.len(), 1);
    assert_eq!(second.history[0].name, "bob");
    assert!(!second.alert);

    let third = w.update(&vec![user(1, "me", "a")], "me");
    assert!(third.current.is_empty());
    assert_eq!(third.history.len(), 2);
    assert!(third.alert);
}

#[test]
fn keep_alive_failures_are_counted() {
    let mut log = KeepAliveLog::new();
    log.record(true);
    log.record(false);
    log.record(false);
    assert_eq!(log.sent, 3);
    assert_eq!(log.failed, 2);
    let mut full = KeepAliveLog {
        sent: u64::MAX,
        failed: u64::MAX,
    };
    full.record(false);
    assert_eq!(full.sent, u64::MAX);
    assert_eq!(full.failed, u64::MAX);
}
