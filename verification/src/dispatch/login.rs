//! Logging in: credentials, the register that follows them, and how each failure
//! is answered.

use crate::dispatch::forward::{register_after_hop, BoundSession, MetadataSubmitError};
use crate::dispatch::status::{EvictionReason, Status};
use vstd::prelude::*;

verus! {

/// The text whose hash stands in for the password hash of an unknown user.
pub const DUMMY_PASSWORD: &'static str = "http-login-timing-guard";

/// Why a session operation was refused.
#[derive(Clone, Copy, Debug, PartialEq, Eq, Structural)]
pub enum SessionError {
    /// No connection is known under this transport id.
    ConnectionNotFound(u128),
    /// The connection is not in a state that allows the operation.
    InvalidTransition,
}

/// Why a login failed.
#[derive(Clone, Copy, Debug, PartialEq, Eq, Structural)]
pub enum LoginRegisterError {
    InvalidCredentials,
    InvalidToken,
    UserInactive,
    Session(SessionError),
    /// The register did not commit.
    Transient(MetadataSubmitError),
}

/// The lengths, in bytes, that a username and a password may have.
#[derive(Clone, Copy, Debug, PartialEq, Eq, Structural)]
pub struct CredentialBounds {
    pub min_username: usize,
    pub max_username: usize,
    pub min_password: usize,
    pub max_password: usize,
}

/// What a login reads of a user.
pub struct UserRecord {
    pub id: u32,
    pub password_hash: String,
    pub is_active: bool,
}

/// What a login reads of a personal access token.
#[derive(Clone, Copy, Debug, PartialEq, Eq, Structural)]
pub struct TokenRecord {
    /// Whether it has expired by the clock of this request.
    pub is_expired: bool,
    /// When it expires, in unix seconds. A token without one never does.
    pub expiry_secs: Option<u64>,
}

/// The hash that stands in for that of an unknown user, once it has been computed.
pub struct DummyPasswordHash {
    hash: Option<String>,
}

/// What is to be done with a password before its login is decided.
pub enum PasswordCheck<'a> {
    /// Nothing: the lengths alone refuse it.
    Refuse,
    /// Verify it against the stand-in hash, for the time that takes.
    VerifyDummy,
    /// Verify it against the hash of this user.
    VerifyUser(&'a UserRecord),
}

impl LoginRegisterError {
    /// Whether the login failed for good.
    pub open spec fn spec_is_terminal(self) -> bool {
        match self {
            LoginRegisterError::Transient(error) => !error.spec_is_transient(),
            _ => true,
        }
    }

    /// Whether the login failed for good: everything but a register that may
    /// commit when it is tried again.
    pub fn is_terminal(&self) -> (terminal: bool)
        ensures
            terminal == self.spec_is_terminal(),
    {
        match self {
            LoginRegisterError::Transient(error) => !error.is_transient(),
            _ => true,
        }
    }
}

impl CredentialBounds {
    /// Whether a username and a password of these lengths are looked at.
    pub open spec fn admits(self, username_len: nat, password_len: nat) -> bool {
        &&& self.min_username <= username_len <= self.max_username
        &&& self.min_password <= password_len <= self.max_password
    }
}

impl DummyPasswordHash {
    /// The computed hash, if it has been.
    pub closed spec fn view(&self) -> Option<Seq<char>> {
        match self.hash {
            Some(hash) => Some(hash@),
            None => None,
        }
    }

    /// A hash that has not been computed.
    pub fn cold() -> (cell: DummyPasswordHash)
        ensures
            cell@ is None,
    {
        DummyPasswordHash { hash: None }
    }

    /// The text to hash, or `None` once a hash is kept.
    pub fn text_to_hash(&self) -> (text: Option<&'static str>)
        ensures
            text is Some <==> self@ is None,
            text matches Some(text) ==> text@ == DUMMY_PASSWORD@,
    {
        match self.hash {
            Some(_) => None,
            None => Some(DUMMY_PASSWORD),
        }
    }

    /// The kept hash.
    pub fn hash(&self) -> (hash: Option<&str>)
        ensures
            hash is Some <==> self@ is Some,
            hash matches Some(hash) ==> self@ == Some(hash@),
    {
        match &self.hash {
            Some(hash) => Some(hash.as_str()),
            None => None,
        }
    }
}

/// Keeps the hash of the stand-in text, so that the first login of an unknown user
/// does not pay for computing it. The first hash stays.
pub fn warm_dummy_password_hash(cell: &mut DummyPasswordHash, hashed: String)
    ensures
        final(cell)@ == match old(cell)@ {
            Some(kept) => Some(kept),
            None => Some(hashed@),
        },
{
    if cell.hash.is_none() {
        cell.hash = Some(hashed);
    }
}

/// What is to be done with a password, given the lengths of the credentials and
/// the user that the username names.
pub open spec fn password_check<'a>(
    bounds: CredentialBounds,
    username_len: nat,
    password_len: nat,
    user: Option<&'a UserRecord>,
) -> PasswordCheck<'a> {
    if !bounds.admits(username_len, password_len) {
        PasswordCheck::Refuse
    } else {
        match user {
            Some(known) => PasswordCheck::VerifyUser(known),
            None => PasswordCheck::VerifyDummy,
        }
    }
}

/// What a password login comes to, given whether the password matched.
pub open spec fn password_verdict(check: PasswordCheck<'_>, matched: bool) -> Result<
    u32,
    LoginRegisterError,
> {
    match check {
        PasswordCheck::VerifyUser(user) if matched && user.is_active => Ok(user.id),
        _ => Err(LoginRegisterError::InvalidCredentials),
    }
}

/// What is to be done with a presented password. Lengths out of bounds are refused
/// before any lookup or hashing; every other login costs one verification, of a
/// known and of an unknown user alike.
pub fn check_password<'a>(
    bounds: &CredentialBounds,
    username: &str,
    password: &str,
    user: Option<&'a UserRecord>,
) -> (check: PasswordCheck<'a>)
    ensures
        check == password_check(*bounds, username.len() as nat, password.len() as nat, user),
{
    let username_len: usize = username.len();
    let password_len: usize = password.len();
    if username_len < bounds.min_username || username_len > bounds.max_username || password_len
        < bounds.min_password || password_len > bounds.max_password {
        return PasswordCheck::Refuse;
    }
    match user {
        Some(known) => PasswordCheck::VerifyUser(known),
        None => PasswordCheck::VerifyDummy,
    }
}

/// What a password login comes to, given whether the password matched the hash it
/// was verified against. Against the stand-in hash even a match is refused, and an
/// inactive user is answered like a wrong password.
pub fn verify_login_credentials(check: &PasswordCheck<'_>, matched: bool) -> (result: Result<
    u32,
    LoginRegisterError,
>)
    ensures
        result == password_verdict(*check, matched),
{
    match check {
        PasswordCheck::Refuse => Err(LoginRegisterError::InvalidCredentials),
        PasswordCheck::VerifyDummy => Err(LoginRegisterError::InvalidCredentials),
        PasswordCheck::VerifyUser(user) => {
            if matched && user.is_active {
                Ok(user.id)
            } else {
                Err(LoginRegisterError::InvalidCredentials)
            }
        },
    }
}

/// The user that a personal access token stands for, and when it expires in unix
/// seconds, `u64::MAX` where it never does. `token` is what the token's hash is
/// indexed under, `user` the user it belongs to.
pub fn verify_pat_credentials_with_expiry(
    token: &Option<TokenRecord>,
    user: Option<&UserRecord>,
) -> (result: Result<(u32, u64), LoginRegisterError>)
    ensures
        ({
            let usable = token is Some && !token->0.is_expired && user is Some;
            &&& !usable ==> (result matches Err(error) && error == LoginRegisterError::InvalidToken)
            &&& usable && !user->0.is_active ==> (result matches Err(error) && error
                == LoginRegisterError::UserInactive)
            &&& usable && user->0.is_active ==> (result matches Ok(accepted) && accepted == (
                user->0.id,
                match token->0.expiry_secs {
                    Some(secs) => secs,
                    None => u64::MAX,
                },
            ))
        }),
{
    match token {
        None => Err(LoginRegisterError::InvalidToken),
        Some(record) => {
            if record.is_expired {
                return Err(LoginRegisterError::InvalidToken);
            }
            match user {
                None => Err(LoginRegisterError::InvalidToken),
                Some(owner) => {
                    if !owner.is_active {
                        return Err(LoginRegisterError::UserInactive);
                    }
                    let expiry: u64 = match record.expiry_secs {
                        Some(secs) => secs,
                        None => u64::MAX,
                    };
                    Ok((owner.id, expiry))
                },
            }
        },
    }
}

/// The user that a personal access token stands for.
pub fn verify_pat_credentials(token: &Option<TokenRecord>, user: Option<&UserRecord>) -> (result:
    Result<u32, LoginRegisterError>)
    ensures
        ({
            let usable = token is Some && !token->0.is_expired && user is Some;
            &&& !usable ==> (result matches Err(error) && error == LoginRegisterError::InvalidToken)
            &&& usable && !user->0.is_active ==> (result matches Err(error) && error
                == LoginRegisterError::UserInactive)
            &&& usable && user->0.is_active ==> (result matches Ok(user_id) && user_id
                == user->0.id)
        }),
{
    match verify_pat_credentials_with_expiry(token, user) {
        Ok((user_id, _)) => Ok(user_id),
        Err(error) => Err(error),
    }
}

/// What the version prefix of a login body says.
#[derive(Clone, Copy, Debug, PartialEq, Eq, Structural)]
pub enum VersionPrefix {
    Undecodable,
    Incompatible,
    Compatible,
}

/// What one of the two body shapes came to: `None` where the body does not have
/// that shape, else the verdict on the credentials it carries.
pub type LoginAttempt = Option<Result<u32, LoginRegisterError>>;

/// What a login request comes to before consensus is asked.
#[derive(Clone, Copy, Debug, PartialEq, Eq, Structural)]
pub enum LoginDecision {
    /// The credentials hold: register this user's session.
    Register(u32),
    /// Answer a failed login.
    Surface(LoginRegisterError),
    /// End the session.
    Evict(EvictionReason),
}

/// Where a login request stands.
#[derive(Clone, Copy, Debug, PartialEq, Eq, Structural)]
pub enum LoginStage {
    Decided(LoginDecision),
    /// Read the body as username and password.
    TryPassword,
    /// Read the body as a personal access token.
    TryToken { credentials_rejected: bool },
}

/// What a login request comes to, given its prefix and both readings of its body.
///
/// The prefix is judged before any credential. A body that reads as username and
/// password and is accepted, or fails otherwise than by its credentials, is
/// decided; one with wrong credentials still gets its chance as a token. A body
/// that reads as neither is malformed, and one that only read as wrong
/// credentials is that.
pub open spec fn login_decision(
    prefix: VersionPrefix,
    password: LoginAttempt,
    token: LoginAttempt,
) -> LoginDecision {
    match prefix {
        VersionPrefix::Undecodable => LoginDecision::Evict(EvictionReason::MalformedLogin),
        VersionPrefix::Incompatible => LoginDecision::Evict(EvictionReason::IncompatibleProtocol),
        VersionPrefix::Compatible => match (password, token) {
            (Some(Ok(user_id)), _) => LoginDecision::Register(user_id),
            (Some(Err(error)), _) if error != LoginRegisterError::InvalidCredentials => {
                LoginDecision::Surface(error)
            },
            (_, Some(Ok(user_id))) => LoginDecision::Register(user_id),
            (_, Some(Err(error))) => LoginDecision::Surface(error),
            (Some(_), None) => LoginDecision::Evict(EvictionReason::InvalidCredentials),
            (None, None) => LoginDecision::Evict(EvictionReason::MalformedLogin),
        },
    }
}

impl LoginStage {
    /// Whether this stage follows from what is known of a login so far: it decides
    /// what every continuation would, or asks for the reading that is missing.
    pub open spec fn follows_prefix(self, prefix: VersionPrefix) -> bool {
        match self {
            LoginStage::Decided(decision) => forall|password: LoginAttempt, token: LoginAttempt|
                #[trigger] login_decision(prefix, password, token) == decision,
            LoginStage::TryPassword => prefix == VersionPrefix::Compatible,
            LoginStage::TryToken { .. } => false,
        }
    }

    /// Whether this stage follows from the password reading of a login whose
    /// prefix is compatible.
    pub open spec fn follows_password(self, password: LoginAttempt) -> bool {
        match self {
            LoginStage::Decided(decision) => forall|token: LoginAttempt| #[trigger]
                login_decision(VersionPrefix::Compatible, password, token) == decision,
            LoginStage::TryPassword => false,
            LoginStage::TryToken { credentials_rejected } => {
                &&& credentials_rejected ==> password == Some(
                    Result::<u32, LoginRegisterError>::Err(LoginRegisterError::InvalidCredentials),
                )
                &&& !credentials_rejected ==> password is None
            },
        }
    }
}

/// Judges the version prefix of a login, before any credential is looked at.
pub fn gate_login(prefix: VersionPrefix) -> (stage: LoginStage)
    ensures
        stage.follows_prefix(prefix),
        stage is TryPassword <==> prefix == VersionPrefix::Compatible,
{
    match prefix {
        VersionPrefix::Undecodable => LoginStage::Decided(
            LoginDecision::Evict(EvictionReason::MalformedLogin),
        ),
        VersionPrefix::Incompatible => LoginStage::Decided(
            LoginDecision::Evict(EvictionReason::IncompatibleProtocol),
        ),
        VersionPrefix::Compatible => LoginStage::TryPassword,
    }
}

/// Judges the username-and-password reading of a login body.
pub fn judge_password_attempt(attempt: &LoginAttempt) -> (stage: LoginStage)
    ensures
        stage.follows_password(*attempt),
        stage is TryToken <==> (*attempt is None || *attempt == Some(
            Result::<u32, LoginRegisterError>::Err(LoginRegisterError::InvalidCredentials),
        )),
{
    match attempt {
        Some(Ok(user_id)) => LoginStage::Decided(LoginDecision::Register(*user_id)),
        Some(Err(LoginRegisterError::InvalidCredentials)) => LoginStage::TryToken {
            credentials_rejected: true,
        },
        Some(Err(error)) => LoginStage::Decided(LoginDecision::Surface(*error)),
        None => LoginStage::TryToken { credentials_rejected: false },
    }
}

/// Judges the token reading of a login body, the last there is.
pub fn judge_token_attempt(credentials_rejected: bool, attempt: &LoginAttempt) -> (decision:
    LoginDecision)
    ensures
        forall|password: LoginAttempt|
            (LoginStage::TryToken { credentials_rejected }).follows_password(password)
                ==> #[trigger] login_decision(VersionPrefix::Compatible, password, *attempt)
                == decision,
        decision == match *attempt {
            Some(Ok(user_id)) => LoginDecision::Register(user_id),
            Some(Err(error)) => LoginDecision::Surface(error),
            None => LoginDecision::Evict(
                if credentials_rejected {
                    EvictionReason::InvalidCredentials
                } else {
                    EvictionReason::MalformedLogin
                },
            ),
        },
{
    match attempt {
        Some(Ok(user_id)) => LoginDecision::Register(*user_id),
        Some(Err(error)) => LoginDecision::Surface(*error),
        None => {
            if credentials_rejected {
                LoginDecision::Evict(EvictionReason::InvalidCredentials)
            } else {
                LoginDecision::Evict(EvictionReason::MalformedLogin)
            }
        },
    }
}

/// The frame that answers a login that failed.
#[derive(Clone, Copy, Debug, PartialEq, Eq, Structural)]
pub enum LoginFailureFrame {
    /// End the session under this client id.
    Evict { client: u128, reason: EvictionReason },
    /// Tell the client how it may try again.
    Reject(Status),
}

/// The wire code of a login that may succeed when it is tried again.
pub fn transient_login_code(error: &LoginRegisterError) -> (status: Status)
    ensures
        status == match *error {
            LoginRegisterError::Transient(submit_error) => submit_error.retry_status(),
            _ => Status::TransientNotAccepted,
        },
{
    match error {
        LoginRegisterError::Transient(
            MetadataSubmitError::ForwardTimedOut
            | MetadataSubmitError::InProgress
            | MetadataSubmitError::Canceled,
        ) => Status::TransientNotCommitted,
        _ => Status::TransientNotAccepted,
    }
}

/// The reason given for a login that failed for good.
pub open spec fn eviction_reason(error: LoginRegisterError) -> EvictionReason {
    match error {
        LoginRegisterError::InvalidCredentials => EvictionReason::InvalidCredentials,
        LoginRegisterError::InvalidToken => EvictionReason::InvalidToken,
        LoginRegisterError::UserInactive => EvictionReason::UserInactive,
        LoginRegisterError::Session(_) => EvictionReason::SessionError,
        LoginRegisterError::Transient(_) => EvictionReason::SessionError,
    }
}

/// The reason given for a login that failed for good. What is wrong with the
/// session itself, an id that belongs to another user included, is one reason.
pub fn eviction_reason_for(error: &LoginRegisterError) -> (reason: EvictionReason)
    ensures
        reason == eviction_reason(*error),
{
    match error {
        LoginRegisterError::InvalidCredentials => EvictionReason::InvalidCredentials,
        LoginRegisterError::InvalidToken => EvictionReason::InvalidToken,
        LoginRegisterError::UserInactive => EvictionReason::UserInactive,
        _ => EvictionReason::SessionError,
    }
}

/// The frame that answers a failed login.
pub open spec fn login_failure_frame(client: u128, error: LoginRegisterError) -> LoginFailureFrame {
    match error {
        LoginRegisterError::Transient(submit_error) if submit_error.spec_is_transient() => {
            LoginFailureFrame::Reject(submit_error.retry_status())
        },
        _ => LoginFailureFrame::Evict { client, reason: eviction_reason(error) },
    }
}

/// The frame that answers a failed login: an eviction where it failed for good,
/// else a hint to try again.
pub fn surface_login_failure(client: u128, error: &LoginRegisterError) -> (frame: LoginFailureFrame)
    ensures
        frame == login_failure_frame(client, *error),
        error.spec_is_terminal() <==> frame is Evict,
{
    if error.is_terminal() {
        LoginFailureFrame::Evict { client, reason: eviction_reason_for(error) }
    } else {
        LoginFailureFrame::Reject(transient_login_code(error))
    }
}

/// The reply to a login that holds.
#[derive(Clone, Copy, Debug, PartialEq, Eq, Structural)]
pub struct LoginReply {
    pub client: u128,
    pub session: u64,
    pub commit: u64,
    pub user_id: u32,
}

/// How the registration of an accepted login starts.
#[derive(Clone, Copy, Debug, PartialEq, Eq, Structural)]
pub enum RegisterStart {
    /// The connection has a session: answer with it again.
    Replay(LoginReply),
    /// Propose a register and bind what comes of it.
    Submit { client: u128, user_id: u32 },
}

/// The commit a login reply reports: never behind the session it opens.
pub open spec fn reported_commit(current_commit: u64, session: u64) -> u64 {
    if current_commit < session {
        session
    } else {
        current_commit
    }
}

/// The reply to a login, with a commit that its session does not outrun.
pub fn login_reply(client: u128, session: u64, user_id: u32, current_commit: u64) -> (reply:
    LoginReply)
    ensures
        reply == (LoginReply {
            client,
            session,
            commit: reported_commit(current_commit, session),
            user_id,
        }),
        reply.commit >= reply.session,
        reply.commit >= current_commit,
{
    let commit: u64 = if current_commit < session { session } else { current_commit };
    LoginReply { client, session, commit, user_id }
}

/// Starts the registration of an accepted login. A connection that is bound
/// already keeps its session.
pub fn start_register(
    client: u128,
    user_id: u32,
    existing_session: Option<u64>,
    current_commit: u64,
) -> (start: RegisterStart)
    ensures
        start == match existing_session {
            Some(session) => RegisterStart::Replay(
                LoginReply {
                    client,
                    session,
                    commit: reported_commit(current_commit, session),
                    user_id,
                },
            ),
            None => RegisterStart::Submit { client, user_id },
        },
{
    match existing_session {
        Some(session) => RegisterStart::Replay(
            login_reply(client, session, user_id, current_commit),
        ),
        None => RegisterStart::Submit { client, user_id },
    }
}

/// The session to bind after a register, or the transient failure of the login.
/// Nothing was bound before it committed, so nothing is undone.
pub fn registered_session(submitted: &Result<BoundSession, MetadataSubmitError>) -> (session:
    Result<u64, LoginRegisterError>)
    ensures
        session == match *submitted {
            Ok(bound) => Ok(bound.epoch),
            Err(error) => Err(LoginRegisterError::Transient(error)),
        },
{
    match submitted {
        Ok(bound) => Ok(bound.epoch),
        Err(error) => Err(LoginRegisterError::Transient(*error)),
    }
}

/// Completes a login whose register committed as `session`, given what the
/// connection's login and bind said. The first refusal is the one reported.
pub fn complete_login_register(
    client: u128,
    user_id: u32,
    session: u64,
    logged_in: &Result<(), SessionError>,
    bound: &Result<(), SessionError>,
    current_commit: u64,
) -> (reply: Result<LoginReply, LoginRegisterError>)
    ensures
        reply == match (*logged_in, *bound) {
            (Err(error), _) => Err(LoginRegisterError::Session(error)),
            (Ok(_), Err(error)) => Err(LoginRegisterError::Session(error)),
            (Ok(_), Ok(_)) => Ok(
                LoginReply {
                    client,
                    session,
                    commit: reported_commit(current_commit, session),
                    user_id,
                },
            ),
        },
{
    match logged_in {
        Err(error) => Err(LoginRegisterError::Session(*error)),
        Ok(_) => match bound {
            Err(error) => Err(LoginRegisterError::Session(*error)),
            Ok(_) => Ok(login_reply(client, session, user_id, current_commit)),
        },
    }
}

/// A login does not tell an unknown user from a wrong password, nor either from a
/// disabled account: each costs one verification and ends in the same error, for
/// any credentials of admissible length.
pub proof fn law_refused_passwords_look_alike(
    bounds: CredentialBounds,
    username_len: nat,
    password_len: nat,
    user: UserRecord,
    matched: bool,
)
    requires
        bounds.admits(username_len, password_len),
    ensures
        !(password_check(bounds, username_len, password_len, None) is Refuse),
        !(password_check(bounds, username_len, password_len, Some(&user)) is Refuse),
        password_verdict(password_check(bounds, username_len, password_len, None), matched)
            == password_verdict(
            password_check(bounds, username_len, password_len, Some(&user)),
            false,
        ),
        !user.is_active ==> password_verdict(
            password_check(bounds, username_len, password_len, None),
            matched,
        ) == password_verdict(
            password_check(bounds, username_len, password_len, Some(&user)),
            matched,
        ),
{
}

/// A client id that belongs to another user is refused for good, with an
/// eviction; a register whose outcome is unknown is only ever retried under the
/// identity it was proposed with.
pub proof fn law_register_failures_are_answered_apart(client: u128, error: MetadataSubmitError)
    ensures
        error == MetadataSubmitError::ClientIdOwnedByAnotherUser <==> login_failure_frame(
            client,
            LoginRegisterError::Transient(error),
        ) is Evict,
        error.has_unknown_outcome() <==> login_failure_frame(
            client,
            LoginRegisterError::Transient(error),
        ) == LoginFailureFrame::Reject(Status::TransientNotCommitted),
{
}

/// A login at a backup is answered like one at the primary: every failure that a
/// proposal in process can have gives the client the same frame after the hop.
pub proof fn law_backups_answer_like_the_primary(client: u128, error: MetadataSubmitError)
    requires
        error != MetadataSubmitError::PrimaryUnreachable,
        error != MetadataSubmitError::ForwardTimedOut,
    ensures
        register_after_hop(Err(error)) matches Err(arrived) && login_failure_frame(
            client,
            LoginRegisterError::Transient(arrived),
        ) == login_failure_frame(client, LoginRegisterError::Transient(error)),
{
}

/// A password is verified against the hash of the user it names, and against the
/// stand-in for an unknown one; it is refused unverified exactly where a length is out
/// of bounds.
pub proof fn law_passwords_are_verified_within_bounds<'a>(
    bounds: CredentialBounds,
    username: &'a str,
    password: &'a str,
    user: Option<&'a UserRecord>,
    check: PasswordCheck<'a>,
)
    requires
        call_ensures(check_password, (&bounds, username, password, user), check),
    ensures
        check is Refuse <==> username.len() < bounds.min_username || username.len()
            > bounds.max_username || password.len() < bounds.min_password || password.len()
            > bounds.max_password,
        check matches PasswordCheck::VerifyUser(known) ==> user == Some(known),
        check is VerifyDummy ==> user is None,
{
}

/// A password login succeeds exactly for an active user whose own hash it matches, as
/// that user. Every other is refused as wrong credentials.
pub proof fn law_only_the_users_own_password_logs_in<'a>(
    check: PasswordCheck<'a>,
    matched: bool,
    result: Result<u32, LoginRegisterError>,
)
    requires
        call_ensures(verify_login_credentials, (&check, matched), result),
    ensures
        result matches Ok(user_id) ==> (check matches PasswordCheck::VerifyUser(user)
            && user.is_active && user.id == user_id) && matched,
        (check matches PasswordCheck::VerifyUser(user) && user.is_active) && matched ==> result
            is Ok,
        result matches Err(error) ==> error == LoginRegisterError::InvalidCredentials,
{
}

/// A token logs its user in exactly where it is known and has not expired, and its
/// user is known and active; with when it expires, and never where it does not. A
/// token that is not usable is invalid, and a user that is not active is told so. Both
/// readings of a token agree.
pub proof fn law_only_a_live_token_logs_in(
    token: Option<TokenRecord>,
    user: Option<&UserRecord>,
    result: Result<(u32, u64), LoginRegisterError>,
    without_expiry: Result<u32, LoginRegisterError>,
)
    requires
        call_ensures(verify_pat_credentials_with_expiry, (&token, user), result),
        call_ensures(verify_pat_credentials, (&token, user), without_expiry),
    ensures
        result is Ok <==> token is Some && !token->0.is_expired && user is Some
            && user->0.is_active,
        result matches Ok(accepted) ==> {
            &&& accepted.0 == user->0.id
            &&& token->0.expiry_secs matches Some(secs) ==> accepted.1 == secs
            &&& token->0.expiry_secs is None ==> accepted.1 == u64::MAX
            &&& without_expiry matches Ok(user_id) && user_id == accepted.0
        },
        result matches Err(error) ==> {
            &&& error == LoginRegisterError::UserInactive <==> token is Some
                && !token->0.is_expired && user is Some && !user->0.is_active
            &&& error == LoginRegisterError::UserInactive || error
                == LoginRegisterError::InvalidToken
            &&& without_expiry matches Err(same) && same == error
        },
{
}

/// A login is read in order: the version first, then as username and password, and as
/// a token only where that reading is missing or its credentials are wrong. An
/// accepted reading registers its user. What is wrong with the last reading is what
/// the client is told: a protocol that does not fit, a body that reads as neither,
/// credentials that are wrong, or the failure of the reading itself.
pub proof fn law_a_login_is_decided_by_its_readings(
    prefix: VersionPrefix,
    gate: LoginStage,
    password: LoginAttempt,
    stage: LoginStage,
    token: LoginAttempt,
    decision: LoginDecision,
)
    requires
        call_ensures(gate_login, (prefix,), gate),
        call_ensures(judge_password_attempt, (&password,), stage),
        stage matches LoginStage::TryToken { credentials_rejected } ==> call_ensures(
            judge_token_attempt,
            (credentials_rejected, &token),
            decision,
        ),
    ensures
        match prefix {
            VersionPrefix::Undecodable => gate == LoginStage::Decided(
                LoginDecision::Evict(EvictionReason::MalformedLogin),
            ),
            VersionPrefix::Incompatible => gate == LoginStage::Decided(
                LoginDecision::Evict(EvictionReason::IncompatibleProtocol),
            ),
            VersionPrefix::Compatible => gate == LoginStage::TryPassword,
        },
        match password {
            Some(Ok(user_id)) => stage == LoginStage::Decided(LoginDecision::Register(user_id)),
            Some(Err(LoginRegisterError::InvalidCredentials)) => stage == (LoginStage::TryToken {
                credentials_rejected: true,
            }),
            Some(Err(error)) => stage == LoginStage::Decided(LoginDecision::Surface(error)),
            None => stage == (LoginStage::TryToken { credentials_rejected: false }),
        },
        stage is TryToken ==> match token {
            Some(Ok(user_id)) => decision == LoginDecision::Register(user_id),
            Some(Err(error)) => decision == LoginDecision::Surface(error),
            None => decision == LoginDecision::Evict(
                if password is Some {
                    EvictionReason::InvalidCredentials
                } else {
                    EvictionReason::MalformedLogin
                },
            ),
        },
{
    let none: LoginAttempt = None;
    if let LoginStage::Decided(decided) = gate {
        assert(login_decision(prefix, none, none) == decided);
    }
    if let LoginStage::Decided(decided) = stage {
        assert(login_decision(VersionPrefix::Compatible, password, none) == decided);
    }
}

/// A login that failed for good ends its session under the client's id, with the
/// reason of its failure; a register that may still commit is answered with a hint,
/// to try again on this connection exactly where its outcome is not known.
pub proof fn law_failed_logins_are_answered_by_their_failure(
    client: u128,
    error: LoginRegisterError,
    frame: LoginFailureFrame,
    terminal: bool,
    reason: EvictionReason,
)
    requires
        call_ensures(surface_login_failure, (client, &error), frame),
        call_ensures(LoginRegisterError::is_terminal, (&error,), terminal),
        call_ensures(eviction_reason_for, (&error,), reason),
    ensures
        terminal <==> frame is Evict,
        terminal <==> !(error is Transient) || error == LoginRegisterError::Transient(
            MetadataSubmitError::ClientIdOwnedByAnotherUser,
        ),
        frame matches LoginFailureFrame::Evict { client: ended, reason: given } ==> ended == client
            && given == reason,
        frame matches LoginFailureFrame::Reject(status) ==> match error {
            LoginRegisterError::Transient(MetadataSubmitError::ForwardTimedOut) => status
                == Status::TransientNotCommitted,
            LoginRegisterError::Transient(MetadataSubmitError::InProgress) => status
                == Status::TransientNotCommitted,
            LoginRegisterError::Transient(MetadataSubmitError::Canceled) => status
                == Status::TransientNotCommitted,
            _ => status == Status::TransientNotAccepted,
        },
        match error {
            LoginRegisterError::InvalidCredentials => reason == EvictionReason::InvalidCredentials,
            LoginRegisterError::InvalidToken => reason == EvictionReason::InvalidToken,
            LoginRegisterError::UserInactive => reason == EvictionReason::UserInactive,
            LoginRegisterError::Session(_) => reason == EvictionReason::SessionError,
            LoginRegisterError::Transient(_) => reason == EvictionReason::SessionError,
        },
{
}

/// The hint for a failed login is to try again on this connection exactly where a
/// register's outcome is not known.
pub proof fn law_login_hints_follow_the_register(error: LoginRegisterError, status: Status)
    requires
        call_ensures(transient_login_code, (&error,), status),
    ensures
        status == Status::TransientNotCommitted <==> {
            ||| error == LoginRegisterError::Transient(MetadataSubmitError::ForwardTimedOut)
            ||| error == LoginRegisterError::Transient(MetadataSubmitError::InProgress)
            ||| error == LoginRegisterError::Transient(MetadataSubmitError::Canceled)
        },
        status == Status::TransientNotCommitted || status == Status::TransientNotAccepted,
{
}

/// A login reply names the client, its session and its user, and reports the later of
/// the current commit and the session.
pub proof fn law_a_login_reply_is_never_behind_its_session(
    client: u128,
    session: u64,
    user_id: u32,
    current_commit: u64,
    reply: LoginReply,
)
    requires
        call_ensures(login_reply, (client, session, user_id, current_commit), reply),
    ensures
        reply.client == client,
        reply.session == session,
        reply.user_id == user_id,
        reply.commit >= session && reply.commit >= current_commit,
        reply.commit == session || reply.commit == current_commit,
{
}

/// A login registers a session once. A connection that has one gets the reply of that
/// session again; any other proposes a register for its client and user, binds the
/// epoch that it committed as, and gets the reply of that, unless the connection
/// refuses, first the login and then the session.
pub proof fn law_a_login_registers_one_session(
    client: u128,
    user_id: u32,
    existing_session: Option<u64>,
    current_commit: u64,
    start: RegisterStart,
    submitted: Result<BoundSession, MetadataSubmitError>,
    session: Result<u64, LoginRegisterError>,
    logged_in: Result<(), SessionError>,
    bound: Result<(), SessionError>,
    completed: Result<LoginReply, LoginRegisterError>,
    number: u64,
    reply: LoginReply,
)
    requires
        call_ensures(start_register, (client, user_id, existing_session, current_commit), start),
        call_ensures(registered_session, (&submitted,), session),
        call_ensures(
            complete_login_register,
            (client, user_id, number, &logged_in, &bound, current_commit),
            completed,
        ),
        call_ensures(login_reply, (client, number, user_id, current_commit), reply),
    ensures
        existing_session is None ==> start == (RegisterStart::Submit { client, user_id }),
        existing_session == Some(number) ==> start == RegisterStart::Replay(reply),
        submitted matches Ok(committed) ==> (session matches Ok(epoch) && epoch
            == committed.epoch),
        submitted matches Err(error) ==> (session matches Err(failed) && failed
            == LoginRegisterError::Transient(error)),
        logged_in is Ok && bound is Ok ==> (completed matches Ok(sent) && sent == reply),
        logged_in matches Err(error) ==> (completed matches Err(failed) && failed
            == LoginRegisterError::Session(error)),
        logged_in is Ok ==> (bound matches Err(error) ==> (completed matches Err(failed) && failed
            == LoginRegisterError::Session(error))),
{
}

/// The stand-in hash is computed once: a cold one asks for the guard's text, the first
/// hash it is given stays, and a warm one asks for nothing more.
pub proof fn law_the_stand_in_hash_is_computed_once(
    cold: DummyPasswordHash,
    cell: &mut DummyPasswordHash,
    hashed: String,
    text: Option<&'static str>,
    hash: Option<&str>,
    kept: DummyPasswordHash,
)
    requires
        call_ensures(DummyPasswordHash::cold, (), cold),
        call_ensures(warm_dummy_password_hash, (cell, hashed), ()),
        call_ensures(DummyPasswordHash::text_to_hash, (&kept,), text),
        call_ensures(DummyPasswordHash::hash, (&kept,), hash),
    ensures
        cold@ is None,
        old(cell)@ is None ==> final(cell)@ == Some(hashed@),
        old(cell)@ is Some ==> final(cell)@ == old(cell)@,
        text is Some <==> hash is None,
        hash matches Some(known) ==> kept@ == Some(known@),
        kept@ is None ==> hash is None,
{
}

} // verus!
