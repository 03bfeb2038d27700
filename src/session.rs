use vstd::prelude::*;
use vstd::string::*;

use crate::credential::{derived_password, encode_password, AuthSetting};
use crate::endpoint::{
    auth_setting_path, decimal, heartbeat_path, login_path, online_users_path, random_param,
};

verus! {

#[verifier::external_type_specification]
#[verifier::external_body]
#[verifier::reject_recursive_types(T)]
pub struct ExJoinHandle<T>(tokio::task::JoinHandle<T>);

#[verifier::external_type_specification]
#[verifier::external_body]
pub struct ExJoinError(tokio::task::JoinError);

/// Relies on tokio's `JoinHandle::abort`: asks the runtime to cancel the task.
pub assume_specification<T>[ tokio::task::JoinHandle::<T>::abort ](
    handle: &tokio::task::JoinHandle<T>,
);

/// The ways in which a session operation fails.
#[derive(Debug, Clone, Copy, PartialEq, Eq, Structural)]
pub enum ClientError {
    /// The challenge could not be fetched.
    ChallengeUnavailable,
    /// The challenge response could not be read.
    MalformedChallenge,
    /// A login was attempted while a session is open.
    AlreadyConnected,
    /// The login response carried no session cookie.
    LoginRejected,
    /// An authenticated operation was attempted with no session open.
    NotLoggedIn,
    /// A request failed on its way to or from the device.
    TransportError,
    /// A response could not be read into the expected structure.
    DeserializationError,
    /// The system clock reads earlier than the Unix epoch.
    ClockBeforeEpoch,
}

/// The login request's body.
#[derive(Debug)]
pub struct SessionLogin {
    pub username: String,
    pub password: String,
    pub session_id: String,
    pub is_session_id_valid_long_term: bool,
    pub session_id_version: u32,
}

/// Where a session cookie ends: the index of the first `;` of `v`, or its length.
pub open spec fn cookie_end(v: Seq<char>, k: int) -> bool {
    &&& 0 <= k <= v.len()
    &&& k == v.len() || v[k] == ';'
    &&& forall|j: int| 0 <= j < k ==> v[j] != ';'
}

/// The token carried by a `Set-Cookie` value: all that comes before its
/// first `;`.
pub fn extract_cookie(value: &str) -> (r: Result<String, ClientError>)
    ensures
        r matches Ok(t) && exists|k: int| cookie_end(value@, k) && t@ == value@.take(k),
{
    let n = value.unicode_len();
    let mut i: usize = 0;
    while i < n
        invariant
            n == value@.len(),
            i <= n,
            forall|j: int| 0 <= j < i ==> value@[j] != ';',
        ensures
            i == n || (i < n && value@[i as int] == ';'),
            forall|j: int| 0 <= j < i ==> value@[j] != ';',
        decreases n - i,
    {
        if value.get_char(i) == ';' {
            break;
        }
        i = i + 1;
    }
    let token = String::from_str(value.substring_char(0, i));
    assert(cookie_end(value@, i as int));
    assert(token@ =~= value@.take(i as int));
    Ok(token)
}

/// The session token that a login response gives: its cookie's token, or
/// `LoginRejected` when it set no cookie.
pub fn login_token(set_cookie: Option<&str>) -> (r: Result<String, ClientError>)
    ensures
        set_cookie is None ==> r == Err::<String, ClientError>(ClientError::LoginRejected),
        set_cookie matches Some(v) ==> (r matches Ok(t) && exists|k: int|
            cookie_end(v@, k) && t@ == v@.take(k)),
{
    match set_cookie {
        Some(v) => extract_cookie(v),
        None => Err(ClientError::LoginRejected),
    }
}

/// Builds the addresses of the device's session API under a base address.
pub trait HikAPI {
    /// The base address of the device.
    spec fn api_base(&self) -> Seq<char>;

    /// The base address.
    fn endpoint(&self) -> (r: &str)
        ensures
            r@ == self.api_base(),
    ;

    /// The address of the challenge for `username`, with some number against
    /// caching.
    fn auth_setting_api(&self, username: &str) -> (r: String)
        ensures
            exists|n: u16|
                r@ == self.api_base() + auth_setting_path() + username@ + random_param() + decimal(
                    n as nat,
                ),
    ;

    /// The address of the login request, stamped with the seconds since the
    /// epoch; fails only when the clock reads earlier than the epoch.
    fn login_api(&self) -> (r: Result<String, ClientError>)
        ensures
            match r {
                Ok(s) => exists|n: u64| s@ == self.api_base() + login_path() + decimal(n as nat),
                Err(e) => e == ClientError::ClockBeforeEpoch,
            },
    ;

    /// The address of the keep-alive request.
    fn heartbeat_api(&self) -> (r: String)
        ensures
            r@ == self.api_base() + heartbeat_path(),
    ;

    /// The address of the online users' list.
    fn online_users_api(&self) -> (r: String)
        ensures
            r@ == self.api_base() + online_users_path(),
    ;
}

/// The state of a client's session.
pub enum ClientStatus {
    NotConnected,
    Connected {
        auth_setting: AuthSetting,
        heart_beat_handle: tokio::task::JoinHandle<()>,
        token: String,
    },
}

/// Connection state after a login attempt that obtained `token`, from the
/// token held before it: a client already connected refuses and keeps its own.
pub open spec fn login_transition(before: Option<Seq<char>>, token: Seq<char>) -> (
    Result<(), ClientError>,
    Option<Seq<char>>,
) {
    match before {
        Some(t) => (Err(ClientError::AlreadyConnected), Some(t)),
        None => (Ok(()), Some(token)),
    }
}

/// A client of one device account, with at most one open session.
///
/// The session's keep-alive task is cancelled by `logout`; a client that is
/// dropped while connected does not cancel it, so call `logout` before
/// letting the client go (or hold it in a guard whose drop does).
pub struct HikClient<T: HikAPI> {
    pub username: String,
    pub password: String,
    pub api_provider: T,
    connection: ClientStatus,
}

impl<T: HikAPI> HikClient<T> {
    /// The account's name.
    pub closed spec fn user(&self) -> Seq<char> {
        self.username@
    }

    /// The account's password.
    pub closed spec fn pass(&self) -> Seq<char> {
        self.password@
    }

    /// The provider of the device's addresses.
    pub closed spec fn provider(&self) -> T {
        self.api_provider
    }

    /// The challenge parameters of the open session.
    pub closed spec fn challenge(&self) -> Option<AuthSetting> {
        match self.connection {
            ClientStatus::Connected { auth_setting, .. } => Some(auth_setting),
            ClientStatus::NotConnected => None,
        }
    }

    /// The session token while connected.
    pub closed spec fn token(&self) -> Option<Seq<char>> {
        match self.connection {
            ClientStatus::Connected { token, .. } => Some(token@),
            ClientStatus::NotConnected => None,
        }
    }

    /// A client that is not connected.
    pub fn new(username: &str, password: &str, api_provider: T) -> (r: Self)
        ensures
            r.user() == username@,
            r.pass() == password@,
            r.provider() == api_provider,
            r.token() is None,
    {
        HikClient {
            username: String::from_str(username),
            password: String::from_str(password),
            api_provider,
            connection: ClientStatus::NotConnected,
        }
    }

    /// Whether a session is open.
    pub fn is_connected(&self) -> (r: bool)
        ensures
            r == self.token() is Some,
    {
        match &self.connection {
            ClientStatus::Connected { .. } => true,
            ClientStatus::NotConnected => false,
        }
    }

    /// Closes the session, if one is open, and stops its keep-alive task.
    pub fn logout(&mut self)
        ensures
            final(self).token() is None,
            final(self).challenge() is None,
            final(self).user() == old(self).user(),
            final(self).pass() == old(self).pass(),
            final(self).provider() == old(self).provider(),
    {
        self.disconnect();
    }

    fn disconnect(&mut self)
        ensures
            final(self).token() is None,
            final(self).challenge() is None,
            final(self).user() == old(self).user(),
            final(self).pass() == old(self).pass(),
            final(self).provider() == old(self).provider(),
    {
        match &self.connection {
            ClientStatus::NotConnected => {},
            ClientStatus::Connected { heart_beat_handle, .. } => {
                heart_beat_handle.abort();
                self.connection = ClientStatus::NotConnected;
            },
        }
    }

    /// The address to fetch the login challenge from, unless a session is
    /// already open.
    pub fn begin_login(&self) -> (r: Result<String, ClientError>)
        ensures
            self.token() is Some <==> r == Err::<String, ClientError>(ClientError::AlreadyConnected),
            self.token() is None ==> (r matches Ok(url) && exists|n: u16|
                url@ == self.provider().api_base() + auth_setting_path() + self.user()
                    + random_param() + decimal(n as nat)),
    {
        if self.is_connected() {
            return Err(ClientError::AlreadyConnected);
        }
        Ok(self.api_provider.auth_setting_api(self.username.as_str()))
    }

    /// The login request for the challenge `setting`, unless a session is
    /// already open.
    pub fn login_payload(&self, setting: &AuthSetting) -> (r: Result<SessionLogin, ClientError>)
        ensures
            self.token() is Some <==> (r matches Err(e) && e == ClientError::AlreadyConnected),
            self.token() is None ==> (r matches Ok(p) && p.username@ == self.user()
                && p.password@ == derived_password(self.user(), self.pass(), *setting)
                && p.session_id@ == setting.session_id@
                && p.is_session_id_valid_long_term == setting.is_session_id_valid_long_term
                && p.session_id_version == setting.session_id_version),
    {
        if self.is_connected() {
            return Err(ClientError::AlreadyConnected);
        }
        Ok(
            SessionLogin {
                username: self.username.clone(),
                password: encode_password(self.username.as_str(), self.password.as_str(), setting),
                session_id: self.session_id_of(setting),
                is_session_id_valid_long_term: setting.is_session_id_valid_long_term,
                session_id_version: setting.session_id_version,
            },
        )
    }

    fn session_id_of(&self, setting: &AuthSetting) -> (r: String)
        ensures
            r@ == setting.session_id@,
    {
        setting.session_id.clone()
    }

    /// Opens the session with `token`, whose keep-alive task is
    /// `heart_beat_handle`. A client already connected keeps its session and
    /// cancels the new task.
    pub fn complete_login(
        &mut self,
        auth_setting: AuthSetting,
        token: String,
        heart_beat_handle: tokio::task::JoinHandle<()>,
    ) -> (r: Result<(), ClientError>)
        ensures
            (r, final(self).token()) == login_transition(old(self).token(), token@),
            r is Ok ==> final(self).challenge() == Some(auth_setting),
            r is Err ==> final(self).challenge() == old(self).challenge(),
            final(self).user() == old(self).user(),
            final(self).pass() == old(self).pass(),
            final(self).provider() == old(self).provider(),
    {
        if self.is_connected() {
            heart_beat_handle.abort();
            return Err(ClientError::AlreadyConnected);
        }
        self.connection = ClientStatus::Connected { auth_setting, heart_beat_handle, token };
        Ok(())
    }

    /// The address and the cookie of a query for the online users, or
    /// `NotLoggedIn` when no session is open.
    pub fn online_users_request(&self) -> (r: Result<(String, String), ClientError>)
        ensures
            self.token() is None <==> r == Err::<(String, String), ClientError>(ClientError::NotLoggedIn),
            self.token() matches Some(t) ==> (r matches Ok(q) && q.1@ == t && q.0@
                == self.provider().api_base() + online_users_path()),
    {
        match &self.connection {
            ClientStatus::NotConnected => Err(ClientError::NotLoggedIn),
            ClientStatus::Connected { token, .. } => {
                Ok((self.api_provider.online_users_api(), token.clone()))
            },
        }
    }
}

/// A second login on the same client is refused and leaves the first
/// session's token in place.
pub proof fn lemma_login_twice(first: Seq<char>, second: Seq<char>)
    ensures
        login_transition(None, first) == (Ok::<(), ClientError>(()), Some(first)),
        login_transition(login_transition(None, first).1, second) == (
            Err::<(), ClientError>(ClientError::AlreadyConnected),
            Some(first),
        ),
{
}

} // verus!
