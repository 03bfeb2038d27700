use hikwatch::history::HistManager;
use hikwatch::online_user::{ClientAddress, Hashable, OnlineUser};

fn user(id: u32, name: &str, login_time: &str, ip: &str) -> OnlineUser {
    OnlineUser {
        id,
        name: name.to_string(),
        user_type: "operator".to_string(),
        login_time: login_time.to_string(),
        client_address: ClientAddress {
            ip_address: ip.to_string(),
        },
    }
}

#[test]
fn same_user_twice_is_stored_once() {
    let mut h = HistManager::new();
    let a = user(1, "alice", "2023-01-01T10:00:00", "10.0.0.5");
    h.add(a.clone());
    h.add(a.clone());
    assert_eq!(h.histories(&[]).len(), 1);
}

#[test]
fn id_takes_no_part_in_identity() {
    let a = user(1, "alice", "2023-01-01T10:00:00", "10.0.0.5");
    let b = user(9, "alice", "2023-01-01T10:00:00", "10.0.0.5");
    assert_eq!(a.hash_value(), b.hash_value());
    let mut h = HistManager::new();
    h.add_vec(&vec![a, b]);
    assert_eq!(h.histories(&[]).len(), 1);
}

#[test]
fn missing_from_current_gives_the_others() {
    let a = user(1, "alice", "2023-01-01T10:00:00", "10.0.0.5");
    let b = user(2, "bob", "2023-01-01T11:00:00", "10.0.0.6");
    assert_ne!(a.hash_value(), b.hash_value());
    let mut h = HistManager::new();
    h.add_vec(&vec![a.clone(), b.clone()]);
    let gone = h.histories(&[a]);
    assert_eq!(gone.len(), 1);
    assert_eq!(gone[0].name, "bob");
    assert_eq!(gone[0].id, 2);
}

#[test]
fn first_seen_record_is_kept() {
    let first = user(1, "alice", "2023-01-01T10:00:00", "10.0.0.5");
    let mut h = HistManager::new();
    h.add(first.clone());
    h.add(first.clone());
    let later = user(7, "alice", "2023-01-01T10:00:00", "10.0.0.5");
    h.add(later);
    let stored = h.histories(&[]);
    assert_eq!(stored.len(), 1);
    assert_eq!(stored[0].login_time, "2023-01-01T10:00:00");
    assert_eq!(stored[0].id, 1);
}

#[test]
fn new_login_time_is_a_new_record() {
    let mut h = HistManager::new();
    h.add(user(1, "alice", "2023-01-01T10:00:00", "10.0.0.5"));
    h.add(user(1, "alice", "2023-01-02T10:00:00", "10.0.0.5"));
    let stored = h.histories(&[]);
    assert_eq!(stored.len(), 2);
    assert_eq!(stored[0].login_time, "2023-01-01T10:00:00");
    assert_eq!(stored[1].login_time, "2023-01-02T10:00:00");
}

#[test]
fn clear_empties_the_history() {
    let mut h = HistManager::new();
    h.add(user(1, "alice", "t", "ip"));
    h.clear();
    assert!(h.histories(&[]).is_empty());
}

#[test]
fn users_equal_by_identity_fields() {
    let a = user(1, "alice", "t1", "ip1");
    let b = user(2, "alice", "t1", "ip1");
    let c = user(1, "carol", "t1", "ip1");
    let d = user(1, "alice", "t2", "ip1");
    let e = user(1, "alice", "t1", "ip2");
    assert!(a == b);
    assert!(a != c);
    assert!(a != d);
    assert!(a != e);
    assert_eq!(String::from(a.client_address.clone()), "ip1");
}
