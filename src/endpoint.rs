use rand::Rng;
use vstd::prelude::*;
use vstd::string::*;

use crate::session::{ClientError, HikAPI};

verus! {

/// The character of a decimal digit.
pub open spec fn digit_char(d: nat) -> char {
    seq!['0', '1', '2', '3', '4', '5', '6', '7', '8', '9'][d as int]
}

/// `n` written in decimal, with no leading zero.
pub open spec fn decimal(n: nat) -> Seq<char>
    decreases n,
{
    if n < 10 {
        seq![digit_char(n)]
    } else {
        decimal(n / 10) + seq![digit_char(n % 10)]
    }
}

/// The decimal digit `d` as a one-character string.
fn digit_str(d: u64) -> (r: &'static str)
    requires
        d < 10,
    ensures
        r@ == seq![digit_char(d as nat)],
{
    proof {
        reveal_strlit("0");
        reveal_strlit("1");
        reveal_strlit("2");
        reveal_strlit("3");
        reveal_strlit("4");
        reveal_strlit("5");
        reveal_strlit("6");
        reveal_strlit("7");
        reveal_strlit("8");
        reveal_strlit("9");
    }
    let r = match d {
        0 => "0",
        1 => "1",
        2 => "2",
        3 => "3",
        4 => "4",
        5 => "5",
        6 => "6",
        7 => "7",
        8 => "8",
        _ => "9",
    };
    assert(r@ =~= seq![digit_char(d as nat)]);
    r
}

/// `n` written in decimal.
pub(crate) fn decimal_string(n: u64) -> (r: String)
    ensures
        r@ == decimal(n as nat),
{
    let mut r = String::from_str(digit_str(n % 10));
    let mut m: u64 = n / 10;
    assert(r@ == seq![digit_char((n % 10) as nat)]);
    while m > 0
        invariant
            m == 0 ==> decimal(n as nat) == r@,
            m > 0 ==> decimal(n as nat) == decimal(m as nat) + r@,
        decreases m,
    {
        let d = digit_str(m % 10);
        proof {
            assert(decimal(m as nat) == if m < 10 {
                seq![digit_char(m as nat)]
            } else {
                decimal((m / 10) as nat) + seq![digit_char((m % 10) as nat)]
            });
            if m >= 10 {
                assert(decimal((m / 10) as nat) + seq![digit_char((m % 10) as nat)] + r@
                    =~= decimal((m / 10) as nat) + (d@ + r@));
            } else {
                assert(m % 10 == m);
            }
        }
        r = concat(d, r.as_str());
        m = m / 10;
    }
    r
}

/// Relies on `rand::thread_rng().gen::<u16>()`: any `u16`.
#[verifier::external_body]
fn random_u16() -> (r: u16) {
    rand::thread_rng().gen::<u16>()
}

/// Relies on `SystemTime::now().duration_since(UNIX_EPOCH)`: the whole seconds
/// since the Unix epoch, or `None` when the clock reads earlier.
#[verifier::external_body]
fn unix_seconds() -> (r: Option<u64>) {
    match std::time::SystemTime::now().duration_since(std::time::UNIX_EPOCH) {
        Ok(d) => Some(d.as_secs()),
        Err(_) => None,
    }
}

fn concat(a: &str, b: &str) -> (r: String)
    ensures
        r@ == a@ + b@,
{
    let mut s = String::from_str(a);
    s.append(b);
    s
}

pub open spec fn auth_setting_path() -> Seq<char> {
    "/ISAPI/Security/sessionLogin/capabilities?username="@
}

pub open spec fn random_param() -> Seq<char> {
    "&random="@
}

pub open spec fn login_path() -> Seq<char> {
    "/ISAPI/Security/sessionLogin?timeStamp="@
}

pub open spec fn heartbeat_path() -> Seq<char> {
    "/ISAPI/Security/sessionHeartbeat"@
}

pub open spec fn online_users_path() -> Seq<char> {
    "/ISAPI/Security/onlineUser"@
}

/// The address of the challenge for `username`, with `nonce` against caching.
pub fn auth_setting_url(endpoint: &str, username: &str, nonce: u16) -> (r: String)
    ensures
        r@ == endpoint@ + auth_setting_path() + username@ + random_param() + decimal(nonce as nat),
{
    let a = concat(endpoint, "/ISAPI/Security/sessionLogin/capabilities?username=");
    let b = concat(a.as_str(), username);
    let c = concat(b.as_str(), "&random=");
    let d = decimal_string(nonce as u64);
    concat(c.as_str(), d.as_str())
}

/// The address of the login request at `time_stamp` seconds since the epoch.
pub fn login_url(endpoint: &str, time_stamp: u64) -> (r: String)
    ensures
        r@ == endpoint@ + login_path() + decimal(time_stamp as nat),
{
    let a = concat(endpoint, "/ISAPI/Security/sessionLogin?timeStamp=");
    let d = decimal_string(time_stamp);
    concat(a.as_str(), d.as_str())
}

/// The address of the keep-alive request.
pub fn heartbeat_url(endpoint: &str) -> (r: String)
    ensures
        r@ == endpoint@ + heartbeat_path(),
{
    concat(endpoint, "/ISAPI/Security/sessionHeartbeat")
}

/// The address of the online users' list.
pub fn online_users_url(endpoint: &str) -> (r: String)
    ensures
        r@ == endpoint@ + online_users_path(),
{
    concat(endpoint, "/ISAPI/Security/onlineUser")
}

/// The device's web API at a base address.
pub struct WebEndpoint {
    url: String,
}

impl WebEndpoint {
    pub fn new(url: &str) -> (r: Self)
        ensures
            r.api_base() == url@,
    {
        WebEndpoint { url: String::from_str(url) }
    }
}

impl HikAPI for WebEndpoint {
    closed spec fn api_base(&self) -> Seq<char> {
        self.url@
    }

    fn endpoint(&self) -> &str {
        self.url.as_str()
    }

    fn auth_setting_api(&self, username: &str) -> String {
        auth_setting_url(self.url.as_str(), username, random_u16())
    }

    fn login_api(&self) -> Result<String, ClientError> {
        match unix_seconds() {
            Some(secs) => Ok(login_url(self.url.as_str(), secs)),
            None => Err(ClientError::ClockBeforeEpoch),
        }
    }

    fn heartbeat_api(&self) -> String {
        heartbeat_url(self.url.as_str())
    }

    fn online_users_api(&self) -> String {
        online_users_url(self.url.as_str())
    }
}

} // verus!
