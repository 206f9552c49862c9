//! Sessions: how a new one is made, and how a request's session cookie is
//! turned into the user it authenticates.
use vstd::prelude::*;
use rand_core::RngCore;
use rand_chacha::ChaCha8Rng;
use crate::models::AuthUser;
use crate::ids::{is_random_uuid, new_uuid};
use crate::time::{Timestamp, MAX_TIMESTAMP_SECS, spec_seconds_since, current_time, seconds_since,
    add_days};
use crate::token::{le_bytes, le_value, token_key, token_from_le_bytes, decimal_digits};
use crate::cookies::{spec_session_token, find_session_token, session_cookie_name, ascii_bytes,
    law_session_cookie_roundtrip, is_visible_ascii_char};

verus! {

/// How long a session lasts, in days.
pub const SESSION_LIFETIME_DAYS: i64 = 1i64;

#[verifier::external_type_specification]
#[verifier::external_body]
pub struct ExChaCha8Rng(ChaCha8Rng);

/// Calls `RngCore::fill_bytes` of `rand_core` on the server's ChaCha8
/// generator. The bytes depend on the generator's hidden state, so nothing
/// is stated of them.
#[verifier::external_body]
fn random_token_bytes(rng: &mut ChaCha8Rng) -> (bytes: [u8; 16]) {
    let mut bytes = [0u8; 16];
    rng.fill_bytes(&mut bytes);
    bytes
}

/// A session to be stored: its row id, the user, the secret token (whose
/// little-endian bytes are the stored key) and when it expires.
#[derive(Clone, Copy, Debug, PartialEq, Eq, Structural)]
pub struct NewSession {
    pub id: u128,
    pub user_id: u128,
    pub token: u128,
    pub expires_at: Timestamp,
}

/// When a session started at `now` expires: `SESSION_LIFETIME_DAYS` days
/// later, if `chrono` can represent that time.
pub open spec fn spec_session_expiry(now: Timestamp) -> Option<Timestamp> {
    if now.secs + SESSION_LIFETIME_DAYS * 86_400 <= MAX_TIMESTAMP_SECS {
        Some(Timestamp { secs: (now.secs + SESSION_LIFETIME_DAYS * 86_400) as i64, nanos: now.nanos })
    } else {
        None
    }
}

/// The expiry of a session started at `now` (`now + Duration::days(1)`);
/// none where that addition would overflow, on which the server panics.
pub fn session_expiry(now: Timestamp) -> (expires_at: Option<Timestamp>)
    requires
        now.valid(),
    ensures
        expires_at == spec_session_expiry(now),
{
    if now.secs <= MAX_TIMESTAMP_SECS - SESSION_LIFETIME_DAYS * 86_400 {
        Some(add_days(now, SESSION_LIFETIME_DAYS))
    } else {
        None
    }
}

/// The session made from 16 drawn bytes, a row id and the time it starts:
/// the token is the bytes read little-endian; none when the expiry is out
/// of range.
pub open spec fn spec_session_from(bytes: Seq<u8>, id: u128, user_id: u128, now: Timestamp) -> Option<
    NewSession,
> {
    match spec_session_expiry(now) {
        Some(expires_at) => Some(
            NewSession { id, user_id, token: le_value(bytes) as u128, expires_at },
        ),
        None => None,
    }
}

/// Assembles a session from drawn bytes, a row id and the starting time.
pub fn session_from(bytes: [u8; 16], id: u128, user_id: u128, now: Timestamp) -> (session: Option<
    NewSession,
>)
    requires
        now.valid(),
    ensures
        session == spec_session_from(bytes@, id, user_id, now),
        session is None <==> now.secs + 86_400 > MAX_TIMESTAMP_SECS,
        session matches Some(s) ==> s.id == id && s.user_id == user_id && s.token == le_value(
            bytes@,
        ) && s.expires_at.secs == now.secs + 86_400 && s.expires_at.nanos == now.nanos,
{
    proof {
        lemma_le_value_fits(bytes@);
    }
    let token = token_from_le_bytes(bytes);
    match session_expiry(now) {
        Some(expires_at) => Some(NewSession { id, user_id, token, expires_at }),
        None => None,
    }
}

/// Makes a new session for `user_id`: 16 bytes drawn from the generator,
/// a fresh random row id, and the current time, assembled by
/// `session_from`. None only when the expiry is out of range.
pub fn prepare_session(rng: &mut ChaCha8Rng, user_id: u128) -> (session: Option<NewSession>)
    ensures
        exists|bytes: Seq<u8>, id: u128, now: Timestamp|
            #![trigger spec_session_from(bytes, id, user_id, now)]
            bytes.len() == 16 && is_random_uuid(id) && now.valid() && now.secs >= 0 && session
                == spec_session_from(bytes, id, user_id, now),
        session matches Some(s) ==> s.user_id == user_id && is_random_uuid(s.id)
            && s.expires_at.valid() && s.expires_at.secs >= 86_400,
{
    let bytes = random_token_bytes(rng);
    let id = new_uuid();
    let now = current_time();
    session_from(bytes, id, user_id, now)
}

/// Sixteen bytes read little-endian give a number that fits in 128 bits.
proof fn lemma_le_value_fits(bytes: Seq<u8>)
    requires
        bytes.len() == 16,
    ensures
        le_value(bytes) <= u128::MAX,
{
    crate::token::lemma_le_value_bound(bytes);
    crate::token::lemma_pow256_16();
}

/// A session made for a user records exactly that user, the given row id
/// and the token read from the drawn bytes, and expires one day (86 400
/// seconds) after it starts, at the same nanosecond; it fails only when
/// that day lies beyond `chrono`'s range.
pub proof fn law_session_records_its_user(bytes: Seq<u8>, id: u128, user_id: u128, now: Timestamp)
    requires
        bytes.len() == 16,
        now.valid(),
    ensures
        spec_session_from(bytes, id, user_id, now) is None <==> now.secs + 86_400
            > MAX_TIMESTAMP_SECS,
        spec_session_from(bytes, id, user_id, now) matches Some(s) ==> {
            &&& s.id == id
            &&& s.user_id == user_id
            &&& s.token == le_value(bytes)
            &&& s.expires_at.total_nanos() == now.total_nanos() + 86_400_000_000_000
            &&& s.expires_at.valid()
        },
{
    lemma_le_value_fits(bytes);
}

/// A session row as looked up by token, joined with its user.
pub struct SessionRecord {
    pub user_id: u128,
    pub name: String,
    pub expires_at: Timestamp,
}

/// A session row as a value.
pub struct SessionRecordView {
    pub user_id: u128,
    pub name: Seq<char>,
    pub expires_at: Timestamp,
}

impl View for SessionRecord {
    type V = SessionRecordView;

    open spec fn view(&self) -> SessionRecordView {
        SessionRecordView { user_id: self.user_id, name: self.name@, expires_at: self.expires_at }
    }
}

/// Whether a session row is still good at a given time.
pub enum SessionVerdict {
    Valid(AuthUser),
    Expired,
}

/// A session has expired once a whole second has passed since its expiry:
/// the seconds from now to the expiry, rounded toward zero, are negative.
pub open spec fn session_expired(expires_at: Timestamp, now: Timestamp) -> bool {
    spec_seconds_since(expires_at, now) < 0
}

/// Judges a session row at time `now`: expired rows are refused, the others
/// authenticate their user.
pub fn session_verdict(record: SessionRecord, now: Timestamp) -> (verdict: SessionVerdict)
    requires
        record.expires_at.valid(),
        now.valid(),
    ensures
        session_expired(record.expires_at, now) ==> verdict is Expired,
        !session_expired(record.expires_at, now) ==> (verdict matches SessionVerdict::Valid(user)
            && user.id == record.user_id && user.name@ == record.name@),
{
    if seconds_since(record.expires_at, now) < 0 {
        SessionVerdict::Expired
    } else {
        SessionVerdict::Valid(AuthUser { id: record.user_id, name: record.name })
    }
}

/// Progress of authenticating a request.
#[derive(Clone, Copy, Debug, PartialEq, Eq, Structural)]
pub enum SessionState {
    /// Waiting for the session row of this token.
    LookingUp(u128),
    /// Waiting for the expired session of this token to be deleted.
    Deleting(u128),
    Finished,
}

/// What the server is to do next to authenticate a request.
pub enum SessionAction {
    /// Look up the session stored under these key bytes, with its user.
    LookUpSession(Vec<u8>),
    /// Delete the session stored under these key bytes.
    DeleteSession(Vec<u8>),
    /// The request runs on behalf of this user.
    Authenticate(AuthUser),
    /// Refuse the request and send the client to `/login`.
    RedirectToLogin,
}

/// A session action as a value.
pub enum SessionActionView {
    LookUpSession(Seq<u8>),
    DeleteSession(Seq<u8>),
    /// User id and name.
    Authenticate(u128, Seq<char>),
    RedirectToLogin,
}

impl View for SessionAction {
    type V = SessionActionView;

    open spec fn view(&self) -> SessionActionView {
        match self {
            SessionAction::LookUpSession(key) => SessionActionView::LookUpSession(key@),
            SessionAction::DeleteSession(key) => SessionActionView::DeleteSession(key@),
            SessionAction::Authenticate(user) => SessionActionView::Authenticate(user.id, user.name@),
            SessionAction::RedirectToLogin => SessionActionView::RedirectToLogin,
        }
    }
}

/// What the server reports back after a session action.
pub enum SessionEvent {
    SessionFound(Option<SessionRecord>),
    SessionDeleted,
}

/// A session event as a value.
pub enum SessionEventView {
    SessionFound(Option<SessionRecordView>),
    SessionDeleted,
}

impl View for SessionEvent {
    type V = SessionEventView;

    open spec fn view(&self) -> SessionEventView {
        match self {
            SessionEvent::SessionFound(Some(record)) => SessionEventView::SessionFound(Some(record@)),
            SessionEvent::SessionFound(None) => SessionEventView::SessionFound(None),
            SessionEvent::SessionDeleted => SessionEventView::SessionDeleted,
        }
    }
}

/// How authentication starts for a request with these `Cookie` header
/// values: without a session token the client is sent to log in, otherwise
/// the session stored under the token's bytes is looked up.
pub open spec fn spec_authenticate_begin(headers: Seq<Seq<u8>>) -> (SessionState, SessionActionView) {
    match spec_session_token(headers) {
        None => (SessionState::Finished, SessionActionView::RedirectToLogin),
        Some(token) => (
            SessionState::LookingUp(token),
            SessionActionView::LookUpSession(le_bytes(token as nat, 16)),
        ),
    }
}

/// How authentication goes on at time `now`: no session row sends the
/// client to log in; an expired row is deleted (under the same key) before
/// the client is sent to log in; any other row authenticates its user.
pub open spec fn spec_authenticate_at(state: SessionState, event: SessionEventView, now: Timestamp) -> (
    SessionState,
    SessionActionView,
) {
    match (state, event) {
        (SessionState::LookingUp(token), SessionEventView::SessionFound(Some(record))) => {
            if session_expired(record.expires_at, now) {
                (
                    SessionState::Deleting(token),
                    SessionActionView::DeleteSession(le_bytes(token as nat, 16)),
                )
            } else {
                (
                    SessionState::Finished,
                    SessionActionView::Authenticate(record.user_id, record.name),
                )
            }
        },
        _ => (SessionState::Finished, SessionActionView::RedirectToLogin),
    }
}

/// Starts authenticating a request from the values of its `Cookie` headers.
pub fn authenticate_begin(cookie_headers: &Vec<Vec<u8>>) -> (next: (SessionState, SessionAction))
    ensures
        (next.0, next.1@) == spec_authenticate_begin(cookie_headers@.map_values(|h: Vec<u8>| h@)),
{
    match find_session_token(cookie_headers) {
        None => (SessionState::Finished, SessionAction::RedirectToLogin),
        Some(token) => (SessionState::LookingUp(token), SessionAction::LookUpSession(token_key(token))),
    }
}

/// The events that authentication in `state` waits for; a found session
/// row must carry a valid expiry.
pub open spec fn authenticate_expects(state: SessionState, event: SessionEvent) -> bool {
    match (state, event) {
        (SessionState::LookingUp(_), SessionEvent::SessionFound(found)) => match found {
            Some(record) => record.expires_at.valid(),
            None => true,
        },
        (SessionState::Deleting(_), SessionEvent::SessionDeleted) => true,
        _ => false,
    }
}

/// Advances authentication as of time `now`.
pub fn authenticate_at(state: SessionState, event: SessionEvent, now: Timestamp) -> (next: (
    SessionState,
    SessionAction,
))
    requires
        authenticate_expects(state, event),
        now.valid(),
    ensures
        (next.0, next.1@) == spec_authenticate_at(state, event@, now),
{
    match state {
        SessionState::LookingUp(token) => match event {
            SessionEvent::SessionFound(None) => (SessionState::Finished, SessionAction::RedirectToLogin),
            SessionEvent::SessionFound(Some(record)) => {
                match session_verdict(record, now) {
                    SessionVerdict::Expired => (
                        SessionState::Deleting(token),
                        SessionAction::DeleteSession(token_key(token)),
                    ),
                    SessionVerdict::Valid(user) => (
                        SessionState::Finished,
                        SessionAction::Authenticate(user),
                    ),
                }
            },
            SessionEvent::SessionDeleted => (SessionState::Finished, SessionAction::RedirectToLogin),
        },
        SessionState::Deleting(_) => (SessionState::Finished, SessionAction::RedirectToLogin),
        SessionState::Finished => (SessionState::Finished, SessionAction::RedirectToLogin),
    }
}

/// Advances authentication as of the current time (read from the clock).
pub fn authenticate_step(state: SessionState, event: SessionEvent) -> (next: (SessionState, SessionAction))
    requires
        authenticate_expects(state, event),
    ensures
        exists|now: Timestamp|
            #![trigger spec_authenticate_at(state, event@, now)]
            now.valid() && now.secs >= 0 && (next.0, next.1@) == spec_authenticate_at(
                state,
                event@,
                now,
            ),
{
    let now = current_time();
    authenticate_at(state, event, now)
}

/// How a looked-up session is judged, stated by the clock arithmetic itself:
/// a row whose expiry lies a whole second or more before `now` is refused
/// and deleted under the request's own token key; any other row runs the
/// request as its user; a missing row, and a finished deletion, send the
/// client to log in.
pub proof fn law_session_judgement(t: u128, record: SessionRecordView, now: Timestamp)
    requires
        record.expires_at.valid(),
        now.valid(),
    ensures
        now.total_nanos() >= record.expires_at.total_nanos() + 1_000_000_000 ==> spec_authenticate_at(
            SessionState::LookingUp(t),
            SessionEventView::SessionFound(Some(record)),
            now,
        ) == (SessionState::Deleting(t), SessionActionView::DeleteSession(le_bytes(t as nat, 16))),
        now.total_nanos() < record.expires_at.total_nanos() + 1_000_000_000 ==> spec_authenticate_at(
            SessionState::LookingUp(t),
            SessionEventView::SessionFound(Some(record)),
            now,
        ) == (SessionState::Finished, SessionActionView::Authenticate(record.user_id, record.name)),
        spec_authenticate_at(SessionState::LookingUp(t), SessionEventView::SessionFound(None), now)
            == (SessionState::Finished, SessionActionView::RedirectToLogin),
        spec_authenticate_at(SessionState::Deleting(t), SessionEventView::SessionDeleted, now) == (
            SessionState::Finished,
            SessionActionView::RedirectToLogin,
        ),
{
    let d = record.expires_at.total_nanos() - now.total_nanos();
    if d >= 0 {
        assert(d / 1_000_000_000 >= 0);
    } else {
        assert(((-d) / 1_000_000_000 > 0) <==> (-d >= 1_000_000_000));
    }
}

/// Authentication begins from the request's session token: without one the
/// client is sent to log in; with token `t` the session stored under `t`'s
/// 16 little-endian bytes (the key `token_key` gives) is looked up.
pub proof fn law_authentication_begins_with_the_token(headers: Seq<Seq<u8>>, t: u128)
    ensures
        spec_session_token(headers) is None ==> spec_authenticate_begin(headers) == (
            SessionState::Finished,
            SessionActionView::RedirectToLogin,
        ),
        spec_session_token(headers) == Some(t) ==> spec_authenticate_begin(headers) == (
            SessionState::LookingUp(t),
            SessionActionView::LookUpSession(le_bytes(t as nat, 16)),
        ) && le_value(le_bytes(t as nat, 16)) == t,
{
    crate::token::law_token_key_roundtrip(t, t);
}

/// A session is accepted from the moment it is made until a whole second
/// after its expiry, one day later, and refused from then on.
pub proof fn law_fresh_session_lasts_a_day(started: Timestamp, now: Timestamp)
    requires
        started.valid(),
        now.valid(),
        started.secs + 86_400 <= MAX_TIMESTAMP_SECS,
    ensures
        spec_session_expiry(started) matches Some(expires_at) && (session_expired(expires_at, now)
            <==> now.total_nanos() >= started.total_nanos() + 86_401_000_000_000),
{
    let expires_at = Timestamp { secs: (started.secs + 86_400) as i64, nanos: started.nanos };
    assert(expires_at.total_nanos() == started.total_nanos() + 86_400_000_000_000);
    let d = expires_at.total_nanos() - now.total_nanos();
    if d >= 0 {
        assert(d / 1_000_000_000 >= 0);
    } else {
        assert(((-d) / 1_000_000_000 > 0) <==> (-d >= 1_000_000_000));
    }
}

/// A login's session cookie authenticates its user: a request that sends
/// back `session_token=<token>` looks up the session under the very key the
/// new session was stored with, and the stored row (with the user's id and
/// name and the session's expiry) authenticates that user at any time
/// before a whole second past the expiry.
pub proof fn law_session_cookie_authenticates(
    bytes: Seq<u8>,
    id: u128,
    user_id: u128,
    name: Seq<char>,
    started: Timestamp,
    now: Timestamp,
)
    requires
        bytes.len() == 16,
        started.valid(),
        now.valid(),
        started.secs + 86_400 <= MAX_TIMESTAMP_SECS,
        now.total_nanos() < started.total_nanos() + 86_401_000_000_000,
    ensures
        spec_session_from(bytes, id, user_id, started) matches Some(session) && ({
            let headers = seq![
                ascii_bytes(session_cookie_name() + seq!['='] + decimal_digits(session.token as nat)),
            ];
            let record = SessionRecordView { user_id, name, expires_at: session.expires_at };
            &&& spec_authenticate_begin(headers) == (
                SessionState::LookingUp(session.token),
                SessionActionView::LookUpSession(le_bytes(session.token as nat, 16)),
            )
            &&& spec_authenticate_at(
                SessionState::LookingUp(session.token),
                SessionEventView::SessionFound(Some(record)),
                now,
            ) == (SessionState::Finished, SessionActionView::Authenticate(user_id, name))
        }),
{
    let session = spec_session_from(bytes, id, user_id, started).unwrap();
    let empty = Seq::<char>::empty();
    assert forall|i: int| 0 <= i < empty.len() implies #[trigger] is_visible_ascii_char(empty[i]) by {}
    law_session_cookie_roundtrip(session.token, empty);
    assert(session_cookie_name() + seq!['='] + decimal_digits(session.token as nat) + empty
        =~= session_cookie_name() + seq!['='] + decimal_digits(session.token as nat));
    law_fresh_session_lasts_a_day(started, now);
}

/// Authentication touches no session but the request's own: without a
/// token it goes straight to the login page; otherwise it looks up the
/// token's key, deletes only under that same key, and only on the way to
/// the login page, never before authenticating.
pub proof fn law_authentication_deletes_only_its_own_session(
    headers: Seq<Seq<u8>>,
    found: Option<SessionRecordView>,
    now: Timestamp,
    later: Timestamp,
)
    ensures
        match spec_session_token(headers) {
            None => spec_authenticate_begin(headers) == (
                SessionState::Finished,
                SessionActionView::RedirectToLogin,
            ),
            Some(token) => {
                let first = spec_authenticate_begin(headers);
                let second = spec_authenticate_at(
                    first.0,
                    SessionEventView::SessionFound(found),
                    now,
                );
                &&& first.1 == SessionActionView::LookUpSession(le_bytes(token as nat, 16))
                &&& second.1 is DeleteSession ==> second.1 == SessionActionView::DeleteSession(
                    le_bytes(token as nat, 16),
                ) && spec_authenticate_at(second.0, SessionEventView::SessionDeleted, later) == (
                    SessionState::Finished,
                    SessionActionView::RedirectToLogin,
                )
                &&& !(second.1 is DeleteSession) ==> second.0 is Finished
            },
        },
{
}

} // verus!
