//! The four calls of the service as step-by-step decisions. A call starts
//! with `login`, `logout` or `try_luck`, which either ends it at once or names
//! a store command to send; `advance` takes the store's answer and decides
//! what comes next. The caller owns the connection and does the sending.

use vstd::prelude::*;
use vstd::string::*;
use crate::chance::{Odds, WIN_QUOTA};
use crate::clock::{local_now, wins_key, wins_key_of, ClockReading};
use crate::models::{LoginRequest, LoginResponse, TryLuckResponse};
use crate::redis_store::{
    get_wins_today, increment_wins, wins_incremented, wins_read, CommandView, StoreCommand,
    StoreOutcome,
};
use crate::session::{
    authenticate, check, checked, credentials_accepted, is_token_text, issue, issued, new_token,
    revoke, revoked, ApiError, ACTIVE_TOKENS,
};
use crate::state::AppState;

verus! {

/// What an `Authorization` header must start with to carry a token.
pub const BEARER_PREFIX: &'static str = "Bearer ";

/// What a draw gives at each of the two odds tiers. A round consults the
/// entry of the tier that applies to it and no other.
#[derive(Clone, Copy, Debug, PartialEq, Eq, Structural)]
pub struct Draws {
    pub at_high: bool,
    pub at_reduced: bool,
}

impl Draws {
    /// The draw that counts after `wins` wins today.
    pub open spec fn spec_outcome(&self, wins: u64) -> bool {
        if Odds::spec_for_wins(wins) == Odds::spec_reduced() {
            self.at_reduced
        } else {
            self.at_high
        }
    }

    #[verifier::when_used_as_spec(spec_outcome)]
    pub fn outcome(&self, wins: u64) -> (win: bool)
        ensures
            win == self.spec_outcome(wins),
    {
        if wins >= WIN_QUOTA {
            self.at_reduced
        } else {
            self.at_high
        }
    }
}

/// Where a call stands while it waits for the store.
#[derive(Clone, Debug, PartialEq, Eq)]
pub enum Phase {
    /// Login: the new token is being inserted.
    AddingToken { token: String },
    /// Logout: the token is being removed.
    RemovingToken,
    /// Game: the bearer's token is being looked up.
    CheckingToken,
    /// Game: the day's counter is being read.
    ReadingWins { key: String },
    /// Game: a win is being added to the day's counter.
    RecordingWin { key: String },
    /// Game: the counter's expiry is being armed; the round is decided.
    ArmingExpiry { win: bool },
}

/// A `Phase` with its texts as character sequences.
pub enum PhaseView {
    AddingToken { token: Seq<char> },
    RemovingToken,
    CheckingToken,
    ReadingWins { key: Seq<char> },
    RecordingWin { key: Seq<char> },
    ArmingExpiry { win: bool },
}

impl View for Phase {
    type V = PhaseView;

    open spec fn view(&self) -> PhaseView {
        match *self {
            Phase::AddingToken { token } => PhaseView::AddingToken { token: token@ },
            Phase::RemovingToken => PhaseView::RemovingToken,
            Phase::CheckingToken => PhaseView::CheckingToken,
            Phase::ReadingWins { key } => PhaseView::ReadingWins { key: key@ },
            Phase::RecordingWin { key } => PhaseView::RecordingWin { key: key@ },
            Phase::ArmingExpiry { win } => PhaseView::ArmingExpiry { win },
        }
    }
}

/// How a call ended.
#[derive(Clone, Debug, PartialEq, Eq)]
pub enum Reply {
    /// The service is up.
    Healthy,
    /// Login succeeded; the token is now in force.
    LoggedIn(LoginResponse),
    /// Logout succeeded; the token is no longer in force.
    LoggedOut,
    /// A round was played.
    Played(TryLuckResponse),
    /// The call was turned down.
    Failed(ApiError),
}

/// A `Reply` with its texts as character sequences.
pub enum ReplyView {
    Healthy,
    LoggedIn { token: Seq<char> },
    LoggedOut,
    Played { win: bool },
    Failed(ApiError),
}

impl View for Reply {
    type V = ReplyView;

    open spec fn view(&self) -> ReplyView {
        match *self {
            Reply::Healthy => ReplyView::Healthy,
            Reply::LoggedIn(body) => ReplyView::LoggedIn { token: body.token@ },
            Reply::LoggedOut => ReplyView::LoggedOut,
            Reply::Played(body) => ReplyView::Played { win: body.win },
            Reply::Failed(failure) => ReplyView::Failed(failure),
        }
    }
}

impl ReplyView {
    /// The status a reply is sent with: 200 unless the call was turned down.
    pub open spec fn status_code(self) -> u16 {
        match self {
            ReplyView::Failed(failure) => failure.spec_status_code(),
            _ => 200,
        }
    }
}

impl Reply {
    /// The status this reply is sent with.
    pub fn status_code(&self) -> (status: u16)
        ensures
            status == self@.status_code(),
    {
        match self {
            Reply::Failed(failure) => failure.status_code(),
            _ => 200,
        }
    }
}

/// What the caller does next.
#[derive(Clone, Debug, PartialEq, Eq)]
pub enum Step {
    /// Send `command` to the store, then call `advance` with `phase` and
    /// the outcome.
    Send { command: StoreCommand, phase: Phase },
    /// Answer with the reply; the call is over.
    Finish(Reply),
}

/// A `Step` with its texts as character sequences.
pub enum StepView {
    Send { command: CommandView, phase: PhaseView },
    Finish(ReplyView),
}

impl View for Step {
    type V = StepView;

    open spec fn view(&self) -> StepView {
        match *self {
            Step::Send { command, phase } => StepView::Send { command: command@, phase: phase@ },
            Step::Finish(reply) => StepView::Finish(reply@),
        }
    }
}

/// The token a header value carries: what follows the bearer prefix, where
/// the value starts with it.
pub open spec fn bearer_token(header: Seq<char>) -> Option<Seq<char>> {
    let n = BEARER_PREFIX@.len() as int;
    if header.len() >= n && header.subrange(0, n) == BEARER_PREFIX@ {
        Some(header.subrange(n, header.len() as int))
    } else {
        None
    }
}

/// A header made of the bearer prefix and a token presents that token.
pub proof fn lemma_bearer_header_presents_token(token: Seq<char>)
    ensures
        bearer_token(BEARER_PREFIX@ + token) == Some(token),
{
    let header = BEARER_PREFIX@ + token;
    let n = BEARER_PREFIX@.len() as int;
    assert(header.subrange(0, n) =~= BEARER_PREFIX@);
    assert(header.subrange(n, header.len() as int) =~= token);
}

/// The token a request presents, if any.
pub open spec fn presented_token(authorization: Option<&str>) -> Option<Seq<char>> {
    match authorization {
        Some(header) => bearer_token(header@),
        None => None,
    }
}

/// The password of a login payload; `None` stands for a payload that could
/// not be read.
pub open spec fn presented_password(payload: Option<LoginRequest>) -> Option<Seq<char>> {
    match payload {
        Some(request) => Some(request.password@),
        None => None,
    }
}

/// Whether a login may go ahead: the payload must have been readable and the
/// password must be the secret.
pub open spec fn login_verdict(secret: Seq<char>, password: Option<Seq<char>>) -> Result<
    (),
    ApiError,
> {
    match password {
        None => Err(ApiError::InvalidInput),
        Some(text) => if credentials_accepted(secret, text) {
            Ok(())
        } else {
            Err(ApiError::InvalidCredentials)
        },
    }
}

/// The insertion of `token` into the active-token set.
pub open spec fn issue_step(token: Seq<char>) -> StepView {
    StepView::Send {
        command: CommandView::AddMember { set_key: ACTIVE_TOKENS@, value: token },
        phase: PhaseView::AddingToken { token },
    }
}

/// First step of a login that would issue `token`.
pub open spec fn login_step(
    secret: Seq<char>,
    password: Option<Seq<char>>,
    token: Seq<char>,
) -> StepView {
    match login_verdict(secret, password) {
        Ok(()) => issue_step(token),
        Err(failure) => StepView::Finish(ReplyView::Failed(failure)),
    }
}

/// First step of a logout.
pub open spec fn logout_step(token: Option<Seq<char>>) -> StepView {
    match token {
        Some(token) => StepView::Send {
            command: CommandView::RemoveMember { set_key: ACTIVE_TOKENS@, value: token },
            phase: PhaseView::RemovingToken,
        },
        None => StepView::Finish(ReplyView::Failed(ApiError::InvalidToken)),
    }
}

/// First step of a game round.
pub open spec fn try_luck_step(token: Option<Seq<char>>) -> StepView {
    match token {
        Some(token) => StepView::Send {
            command: CommandView::IsMember { set_key: ACTIVE_TOKENS@, value: token },
            phase: PhaseView::CheckingToken,
        },
        None => StepView::Finish(ReplyView::Failed(ApiError::InvalidToken)),
    }
}

/// The end of a decided round: the expiry of the counter `key` is set to the
/// seconds left in the day where any are left, else the round is over.
pub open spec fn expiry_step(key: Seq<char>, win: bool, clock: ClockReading) -> StepView {
    let seconds = clock.spec_seconds_until_midnight();
    if seconds > 0 {
        StepView::Send {
            command: CommandView::SetTtl { key, seconds: seconds as i64 },
            phase: PhaseView::ArmingExpiry { win },
        }
    } else {
        StepView::Finish(ReplyView::Played { win })
    }
}

/// Whether the store's answer alone settles what follows a phase. The other
/// phases, those of a game round before it is decided, look at the clock,
/// and one of them at a draw.
pub open spec fn settled_by_answer(phase: PhaseView) -> bool {
    phase is AddingToken || phase is RemovingToken || phase is ArmingExpiry
}

/// What follows the store's answer in each phase, at a given clock reading
/// and with given draws.
pub open spec fn advance_step(
    phase: PhaseView,
    outcome: StoreOutcome,
    clock: ClockReading,
    draws: Draws,
) -> StepView {
    match phase {
        PhaseView::AddingToken { token } => match issued(outcome) {
            Ok(()) => StepView::Finish(ReplyView::LoggedIn { token }),
            Err(failure) => StepView::Finish(ReplyView::Failed(failure)),
        },
        PhaseView::RemovingToken => match revoked(outcome) {
            Ok(()) => StepView::Finish(ReplyView::LoggedOut),
            Err(failure) => StepView::Finish(ReplyView::Failed(failure)),
        },
        PhaseView::CheckingToken => match checked(outcome) {
            Ok(()) => {
                let key = wins_key_of(clock.spec_today().text());
                StepView::Send {
                    command: CommandView::ReadInteger { key },
                    phase: PhaseView::ReadingWins { key },
                }
            },
            Err(failure) => StepView::Finish(ReplyView::Failed(failure)),
        },
        PhaseView::ReadingWins { key } => match wins_read(outcome) {
            Ok(wins) => if draws.spec_outcome(wins) {
                StepView::Send {
                    command: CommandView::Increment { key, by: 1 },
                    phase: PhaseView::RecordingWin { key },
                }
            } else {
                expiry_step(key, false, clock)
            },
            Err(e) => StepView::Finish(ReplyView::Failed(ApiError::spec_from_store(e))),
        },
        PhaseView::RecordingWin { key } => match wins_incremented(outcome) {
            Ok(()) => expiry_step(key, true, clock),
            Err(e) => StepView::Finish(ReplyView::Failed(ApiError::spec_from_store(e))),
        },
        PhaseView::ArmingExpiry { win } => StepView::Finish(ReplyView::Played { win }),
    }
}

/// Takes the token out of an `Authorization` header value: the text after
/// the bearer prefix, or nothing where the header is absent or does not
/// start with the prefix.
pub fn extract_token(authorization: Option<&str>) -> (token: Option<String>)
    ensures
        match presented_token(authorization) {
            Some(text) => token is Some && token.unwrap()@ == text,
            None => token is None,
        },
{
    match authorization {
        None => None,
        Some(header) => {
            let n = BEARER_PREFIX.unicode_len();
            let len = header.unicode_len();
            if len < n {
                return None;
            }
            let head = String::from_str(header.substring_char(0, n));
            if head == String::from_str(BEARER_PREFIX) {
                Some(String::from_str(header.substring_char(n, len)))
            } else {
                None
            }
        },
    }
}

/// Liveness probe: always healthy.
pub fn health() -> (reply: Reply)
    ensures
        reply@ == ReplyView::Healthy,
{
    Reply::Healthy
}

fn send_token(token: String) -> (step: Step)
    ensures
        step@ == issue_step(token@),
{
    let value = token.clone();
    Step::Send {
        command: StoreCommand::AddMember { set_key: String::from_str(ACTIVE_TOKENS), value },
        phase: Phase::AddingToken { token },
    }
}

fn judge_login(state: &AppState, payload: &Option<LoginRequest>) -> (verdict: Result<
    (),
    ApiError,
>)
    ensures
        verdict == login_verdict(state.password@, presented_password(*payload)),
{
    match payload {
        None => Err(ApiError::InvalidInput),
        Some(request) => authenticate(state.password.as_str(), request.password.as_str()),
    }
}

/// Starts a login that issues the given token. `payload` is the request
/// body, or `None` where it could not be read as credentials with a valid
/// e-mail address. The token is put to the store only if the password is the
/// configured secret.
pub fn login_with_token(state: &AppState, payload: Option<LoginRequest>, token: String) -> (step:
    Step)
    ensures
        step@ == login_step(state.password@, presented_password(payload), token@),
{
    match judge_login(state, &payload) {
        Ok(()) => send_token(token),
        Err(failure) => Step::Finish(Reply::Failed(failure)),
    }
}

/// Starts a login. Where the credentials are accepted a fresh random token
/// is made and put to the store; otherwise the call ends with the reason and
/// nothing is sent.
pub fn login(state: &AppState, payload: Option<LoginRequest>) -> (step: Step)
    ensures
        match login_verdict(state.password@, presented_password(payload)) {
            Ok(()) => exists|token: Seq<char>|
                is_token_text(token) && step@ == #[trigger] issue_step(token),
            Err(failure) => step@ == StepView::Finish(ReplyView::Failed(failure)),
        },
{
    match judge_login(state, &payload) {
        Ok(()) => {
            let token = new_token();
            let step = send_token(token);
            assert(is_token_text(token@) && step@ == issue_step(token@));
            step
        },
        Err(failure) => Step::Finish(Reply::Failed(failure)),
    }
}

/// Starts a logout: the presented token is removed from the store. A request
/// that presents no token is turned down at once.
pub fn logout(authorization: Option<&str>) -> (step: Step)
    ensures
        step@ == logout_step(presented_token(authorization)),
{
    match extract_token(authorization) {
        Some(token) => Step::Send {
            command: StoreCommand::RemoveMember {
                set_key: String::from_str(ACTIVE_TOKENS),
                value: token,
            },
            phase: Phase::RemovingToken,
        },
        None => Step::Finish(Reply::Failed(ApiError::InvalidToken)),
    }
}

/// Starts a game round: the presented token is looked up in the store. A
/// request that presents no token is turned down at once.
pub fn try_luck(authorization: Option<&str>) -> (step: Step)
    ensures
        step@ == try_luck_step(presented_token(authorization)),
{
    match extract_token(authorization) {
        Some(token) => Step::Send {
            command: StoreCommand::IsMember {
                set_key: String::from_str(ACTIVE_TOKENS),
                value: token,
            },
            phase: Phase::CheckingToken,
        },
        None => Step::Finish(Reply::Failed(ApiError::InvalidToken)),
    }
}

fn finish_login(token: String, outcome: StoreOutcome) -> (step: Step)
    ensures
        forall|clock: ClockReading, draws: Draws|
            step@ == #[trigger] advance_step(
                PhaseView::AddingToken { token: token@ },
                outcome,
                clock,
                draws,
            ),
{
    match issue(outcome) {
        Ok(()) => Step::Finish(Reply::LoggedIn(LoginResponse { token })),
        Err(failure) => Step::Finish(Reply::Failed(failure)),
    }
}

fn finish_logout(outcome: StoreOutcome) -> (step: Step)
    ensures
        forall|clock: ClockReading, draws: Draws|
            step@ == #[trigger] advance_step(PhaseView::RemovingToken, outcome, clock, draws),
{
    match revoke(outcome) {
        Ok(()) => Step::Finish(Reply::LoggedOut),
        Err(failure) => Step::Finish(Reply::Failed(failure)),
    }
}

fn arm_expiry(key: String, win: bool, clock: &ClockReading) -> (step: Step)
    ensures
        step@ == expiry_step(key@, win, *clock),
{
    let seconds = clock.seconds_until_midnight();
    if seconds > 0 {
        Step::Send {
            command: StoreCommand::SetTtl { key, seconds },
            phase: Phase::ArmingExpiry { win },
        }
    } else {
        Step::Finish(Reply::Played(TryLuckResponse { win }))
    }
}

/// Decides what follows the store's answer, with the clock reading and the
/// draws handed in. Game rounds read the day from `clock` when they name the
/// counter and the time of day when they arm its expiry; the draw that
/// counts is the one of the tier that the wins just read select. A failure
/// to arm the expiry does not change the round's result.
pub fn advance_with(phase: Phase, outcome: StoreOutcome, clock: &ClockReading, draws: Draws) -> (step:
    Step)
    ensures
        step@ == advance_step(phase@, outcome, *clock, draws),
{
    match phase {
        Phase::AddingToken { token } => finish_login(token, outcome),
        Phase::RemovingToken => finish_logout(outcome),
        Phase::CheckingToken => match check(outcome) {
            Ok(()) => {
                let today = clock.today();
                let key = wins_key(&today);
                let name = key.clone();
                Step::Send {
                    command: StoreCommand::ReadInteger { key: name },
                    phase: Phase::ReadingWins { key },
                }
            },
            Err(failure) => Step::Finish(Reply::Failed(failure)),
        },
        Phase::ReadingWins { key } => match get_wins_today(outcome) {
            Ok(wins) => if draws.outcome(wins) {
                let name = key.clone();
                Step::Send {
                    command: StoreCommand::Increment { key: name, by: 1 },
                    phase: Phase::RecordingWin { key },
                }
            } else {
                arm_expiry(key, false, clock)
            },
            Err(e) => Step::Finish(Reply::Failed(ApiError::from_store(e))),
        },
        Phase::RecordingWin { key } => match increment_wins(outcome) {
            Ok(()) => arm_expiry(key, true, clock),
            Err(e) => Step::Finish(Reply::Failed(ApiError::from_store(e))),
        },
        Phase::ArmingExpiry { win } => Step::Finish(Reply::Played(TryLuckResponse { win })),
    }
}

/// Decides what follows the store's answer. The phases of a login and of a
/// logout, and the last one of a game round, are settled by the answer alone.
/// In the others the clock is read, and where the day's wins have just been
/// read one draw is made at the odds they select; whatever the clock and the
/// draw say, the step is the one `advance_with` takes for them.
pub fn advance(phase: Phase, outcome: StoreOutcome) -> (step: Step)
    ensures
        settled_by_answer(phase@) ==> forall|clock: ClockReading, draws: Draws|
            step@ == #[trigger] advance_step(phase@, outcome, clock, draws),
        !settled_by_answer(phase@) ==> exists|clock: ClockReading, draws: Draws|
            clock.is_valid() && step@ == #[trigger] advance_step(phase@, outcome, clock, draws),
{
    match phase {
        Phase::AddingToken { token } => finish_login(token, outcome),
        Phase::RemovingToken => finish_logout(outcome),
        Phase::ArmingExpiry { win } => Step::Finish(Reply::Played(TryLuckResponse { win })),
        round => {
            let win = match (&round, get_wins_today(outcome)) {
                (Phase::ReadingWins { .. }, Ok(wins)) => Odds::for_wins(wins).draw(),
                _ => false,
            };
            let clock = local_now();
            let draws = Draws { at_high: win, at_reduced: win };
            let step = advance_with(round, outcome, &clock, draws);
            assert(clock.is_valid() && step@ == advance_step(phase@, outcome, clock, draws));
            step
        },
    }
}

} // verus!
