use std::cmp::Ordering;

use hikwatch::online_user::{ClientAddress, OnlineUser};
use hikwatch::table::{column_text, compare_column, compare_text, UserColumn};

fn user(id: u32, name: &str, ip: &str) -> OnlineUser {
    OnlineUser {
        id,
        name: name.to_string(),
        user_type: "admin".to_string(),
        login_time: "2023-05-01 08:00:00".to_string(),
        client_address: ClientAddress {
            ip_address: ip.to_string(),
        },
    }
}

#[test]
fn column_titles() {
    assert_eq!(UserColumn::Id.as_str(), "Id");
    assert_eq!(UserColumn::Name.as_str(), "Name");
    assert_eq!(UserColumn::UserType.as_str(), "UserType");
    assert_eq!(UserColumn::LoginTime.as_str(), "Login");
    assert_eq!(UserColumn::ClientAddress.as_str(), "IP");
}

#[test]
fn column_texts() {
    let u = user(42, "bob", "10.1.1.1");
    assert_eq!(column_text(&u, UserColumn::Id), "42");
    assert_eq!(column_text(&u, UserColumn::Name), "bob");
    assert_eq!(column_text(&u, UserColumn::UserType), "admin");
    assert_eq!(column_text(&u, UserColumn::LoginTime), "2023-05-01 08:00:00");
    assert_eq!(column_text(&u, UserColumn::ClientAddress), "10.1.1.1");
}

#[test]
fn columns_order_rows() {
    let a = user(9, "alice", "10.0.0.9");
    let b = user(10, "bob", "10.0.0.10");
    assert_eq!(compare_column(&a, &b, UserColumn::Id), Ordering::Less);
    assert_eq!(compare_column(&a, &b, UserColumn::Name), Ordering::Less);
    assert_eq!(compare_column(&b, &a, UserColumn::Name), Ordering::Greater);
    assert_eq!(compare_column(&a, &b, UserColumn::ClientAddress), Ordering::Greater);
    assert_eq!(compare_column(&a, &b, UserColumn::LoginTime), Ordering::Equal);
}

#[test]
fn text_order_is_bytewise() {
    assert_eq!(compare_text("ab", "abc"), Ordering::Less);
    assert_eq!(compare_text("abc", "ab"), Ordering::Greater);
    assert_eq!(compare_text("", ""), Ordering::Equal);
    assert_eq!(compare_text("B", "a"), Ordering::Less);
    assert_eq!(compare_text("\u{e9}", "z"), Ordering::Greater);
    assert_eq!(compare_text("same", "same"), Ordering::Equal);
}
