use std::cmp::Ordering;

use vstd::prelude::*;
use vstd::string::*;
use vstd::utf8::encode_utf8;

use crate::endpoint::{decimal, decimal_string};
use crate::online_user::OnlineUser;

verus! {

/// The columns of a table of users.
#[derive(Debug, Clone, Copy, PartialEq, Eq, Structural, Hash)]
pub enum UserColumn {
    Id,
    Name,
    UserType,
    LoginTime,
    ClientAddress,
}

impl UserColumn {
    /// The column's title.
    pub fn as_str(&self) -> (r: &str)
        ensures
            r@ == match *self {
                UserColumn::Id => "Id"@,
                UserColumn::Name => "Name"@,
                UserColumn::UserType => "UserType"@,
                UserColumn::LoginTime => "Login"@,
                UserColumn::ClientAddress => "IP"@,
            },
    {
        match *self {
            UserColumn::Id => "Id",
            UserColumn::Name => "Name",
            UserColumn::UserType => "UserType",
            UserColumn::LoginTime => "Login",
            UserColumn::ClientAddress => "IP",
        }
    }
}

/// The text that `user` shows in `column`.
pub open spec fn column_view(user: OnlineUser, column: UserColumn) -> Seq<char> {
    match column {
        UserColumn::Id => decimal(user.id as nat),
        UserColumn::Name => user.name@,
        UserColumn::UserType => user.user_type@,
        UserColumn::LoginTime => user.login_time@,
        UserColumn::ClientAddress => user.client_address.ip_address@,
    }
}

/// The text that `user` shows in `column`.
pub fn column_text(user: &OnlineUser, column: UserColumn) -> (r: String)
    ensures
        r@ == column_view(*user, column),
{
    match column {
        UserColumn::Id => decimal_string(user.id as u64),
        UserColumn::Name => String::from_str(user.name.as_str()),
        UserColumn::UserType => String::from_str(user.user_type.as_str()),
        UserColumn::LoginTime => String::from_str(user.login_time.as_str()),
        UserColumn::ClientAddress => String::from_str(user.client_address.ip_address.as_str()),
    }
}

/// Lexicographic order of two byte strings.
pub open spec fn lex_cmp(a: Seq<u8>, b: Seq<u8>) -> Ordering
    decreases a.len(),
{
    if a.len() == 0 {
        if b.len() == 0 {
            Ordering::Equal
        } else {
            Ordering::Less
        }
    } else if b.len() == 0 {
        Ordering::Greater
    } else if a[0] < b[0] {
        Ordering::Less
    } else if a[0] > b[0] {
        Ordering::Greater
    } else {
        lex_cmp(a.drop_first(), b.drop_first())
    }
}

/// How two strings are ordered: lexicographically by their UTF-8 bytes.
pub fn compare_text(a: &str, b: &str) -> (r: Ordering)
    ensures
        r == lex_cmp(encode_utf8(a@), encode_utf8(b@)),
{
    let x = a.as_bytes_vec();
    let y = b.as_bytes_vec();
    let mut i: usize = 0;
    assert(x@.skip(0) =~= x@);
    assert(y@.skip(0) =~= y@);
    while i < x.len() && i < y.len()
        invariant
            x@ == encode_utf8(a@),
            y@ == encode_utf8(b@),
            i <= x@.len(),
            i <= y@.len(),
            lex_cmp(x@, y@) == lex_cmp(x@.skip(i as int), y@.skip(i as int)),
        decreases x@.len() - i,
    {
        let ghost xs = x@.skip(i as int);
        let ghost ys = y@.skip(i as int);
        assert(xs.len() > 0 && ys.len() > 0);
        assert(xs[0] == x@[i as int] && ys[0] == y@[i as int]);
        if x[i] < y[i] {
            return Ordering::Less;
        }
        if x[i] > y[i] {
            return Ordering::Greater;
        }
        assert(xs.drop_first() =~= x@.skip(i as int + 1));
        assert(ys.drop_first() =~= y@.skip(i as int + 1));
        i = i + 1;
    }
    let ghost xs = x@.skip(i as int);
    let ghost ys = y@.skip(i as int);
    assert(xs.len() == x@.len() - i && ys.len() == y@.len() - i);
    if x.len() == y.len() {
        Ordering::Equal
    } else if i == x.len() {
        Ordering::Less
    } else {
        Ordering::Greater
    }
}

/// How `a` and `b` are ordered by `column`: ids as numbers, other columns by
/// their text.
pub open spec fn column_order(a: OnlineUser, b: OnlineUser, column: UserColumn) -> Ordering {
    match column {
        UserColumn::Id => if a.id < b.id {
            Ordering::Less
        } else if a.id > b.id {
            Ordering::Greater
        } else {
            Ordering::Equal
        },
        _ => lex_cmp(encode_utf8(column_view(a, column)), encode_utf8(column_view(b, column))),
    }
}

/// How `a` and `b` are ordered by `column`.
pub fn compare_column(a: &OnlineUser, b: &OnlineUser, column: UserColumn) -> (r: Ordering)
    ensures
        r == column_order(*a, *b, column),
{
    match column {
        UserColumn::Id => if a.id < b.id {
            Ordering::Less
        } else if a.id > b.id {
            Ordering::Greater
        } else {
            Ordering::Equal
        },
        UserColumn::Name => compare_text(a.name.as_str(), b.name.as_str()),
        UserColumn::UserType => compare_text(a.user_type.as_str(), b.user_type.as_str()),
        UserColumn::LoginTime => compare_text(a.login_time.as_str(), b.login_time.as_str()),
        UserColumn::ClientAddress => compare_text(
            a.client_address.ip_address.as_str(),
            b.client_address.ip_address.as_str(),
        ),
    }
}

} // verus!
