use std::hash::BuildHasher;

use vstd::prelude::*;

verus! {

/// Where a user's session comes from.
#[derive(Debug)]
pub struct ClientAddress {
    pub ip_address: String,
}

/// A session that the device reports as online.
#[derive(Debug)]
pub struct OnlineUser {
    /// Assigned by the device; not stable across reconnections.
    pub id: u32,
    pub name: String,
    pub user_type: String,
    pub login_time: String,
    pub client_address: ClientAddress,
}

/// The device's answer to a query for the online users.
#[derive(Debug)]
pub struct OnlineUserList {
    pub users: Vec<OnlineUser>,
}

impl Clone for ClientAddress {
    fn clone(&self) -> (r: Self)
        ensures
            r == *self,
    {
        ClientAddress { ip_address: self.ip_address.clone() }
    }
}

impl Clone for OnlineUser {
    fn clone(&self) -> (r: Self)
        ensures
            r == *self,
    {
        OnlineUser {
            id: self.id,
            name: self.name.clone(),
            user_type: self.user_type.clone(),
            login_time: self.login_time.clone(),
            client_address: self.client_address.clone(),
        }
    }
}

/// Two users are the same session when they agree on the fields of the
/// session's identity: name, type, login time and address, the same fields
/// that `record_hash` covers. The id takes no part, and neither does equality
/// by name alone: a user who logs in again is a new session.
impl PartialEq for OnlineUser {
    fn eq(&self, other: &OnlineUser) -> (r: bool) {
        self.name == other.name && self.user_type == other.user_type && self.login_time
            == other.login_time && self.client_address.ip_address
            == other.client_address.ip_address
    }
}

impl vstd::std_specs::cmp::PartialEqSpecImpl for OnlineUser {
    open spec fn obeys_eq_spec() -> bool {
        true
    }

    open spec fn eq_spec(&self, other: &OnlineUser) -> bool {
        same_session(*self, *other)
    }
}

impl From<ClientAddress> for String {
    fn from(value: ClientAddress) -> (r: String) {
        value.ip_address
    }
}

impl vstd::std_specs::convert::FromSpecImpl<ClientAddress> for String {
    open spec fn obeys_from_spec() -> bool {
        true
    }

    open spec fn from_spec(v: ClientAddress) -> String {
        v.ip_address
    }
}

/// Whether `a` and `b` agree on name, type, login time and address.
pub open spec fn same_session(a: OnlineUser, b: OnlineUser) -> bool {
    &&& a.name@ == b.name@
    &&& a.user_type@ == b.user_type@
    &&& a.login_time@ == b.login_time@
    &&& a.client_address.ip_address@ == b.client_address.ip_address@
}

/// The 64-bit hash that std's default hasher gives to the tuple of the four
/// strings, hashed in this order.
pub uninterp spec fn content_hash(
    name: Seq<char>,
    user_type: Seq<char>,
    login_time: Seq<char>,
    ip_address: Seq<char>,
) -> u64;

/// Relies on `BuildHasher::hash_one` over `BuildHasherDefault<DefaultHasher>`:
/// std's default hasher starts from fixed keys, so the hash depends on the
/// strings alone.
#[verifier::external_body]
fn hash_fields(name: &str, user_type: &str, login_time: &str, ip_address: &str) -> (r: u64)
    ensures
        r == content_hash(name@, user_type@, login_time@, ip_address@),
{
    std::hash::BuildHasherDefault::<std::collections::hash_map::DefaultHasher>::default()
        .hash_one((name, user_type, login_time, ip_address))
}

/// The identity of a session record: a hash of its name, type, login time
/// and client address. The numeric id takes no part in it.
pub open spec fn record_hash(u: OnlineUser) -> u64 {
    content_hash(u.name@, u.user_type@, u.login_time@, u.client_address.ip_address@)
}

/// A value with a 64-bit content hash.
pub trait Hashable {
    spec fn spec_hash_value(&self) -> u64;

    fn hash_value(&self) -> (r: u64)
        ensures
            r == self.spec_hash_value(),
    ;
}

impl Hashable for OnlineUser {
    open spec fn spec_hash_value(&self) -> u64 {
        record_hash(*self)
    }

    fn hash_value(&self) -> (r: u64) {
        hash_fields(
            self.name.as_str(),
            self.user_type.as_str(),
            self.login_time.as_str(),
            self.client_address.ip_address.as_str(),
        )
    }
}

/// Equal users have equal hashes.
pub proof fn lemma_equal_users_hash_alike(a: OnlineUser, b: OnlineUser)
    requires
        same_session(a, b),
    ensures
        record_hash(a) == record_hash(b),
{
}

} // verus!
