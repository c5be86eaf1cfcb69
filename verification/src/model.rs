//! A store that is always reachable and answers every command as a set
//! store with integer counters does, and what the calls of the service
//! amount to when they are run against it.

use vstd::prelude::*;
use crate::clock::{wins_key_of, ClockReading};
use crate::chance::WIN_QUOTA;
use crate::handlers::{
    advance_step, login_step, logout_step, try_luck_step, Draws, PhaseView, ReplyView, StepView,
};
use crate::redis_store::{CommandView, RedisError, StoreOutcome, StoreReply};
use crate::session::{ApiError, ACTIVE_TOKENS};

verus! {

/// The largest value the store lets a counter reach.
pub const COUNTER_LIMIT: u64 = 0x7fff_ffff_ffff_ffff;

/// The contents of the store: its sets, its integer counters and the
/// seconds each counter was last given to live, by key.
pub struct StoreModel {
    pub sets: Map<Seq<char>, Set<Seq<char>>>,
    pub integers: Map<Seq<char>, u64>,
    pub expiries: Map<Seq<char>, i64>,
}

/// The clock reading and the draws that one step of a call meets.
pub struct Moment {
    pub clock: ClockReading,
    pub draws: Draws,
}

impl StoreModel {
    /// The members of the set at `set_key`; a missing set has none.
    pub open spec fn members(self, set_key: Seq<char>) -> Set<Seq<char>> {
        if self.sets.contains_key(set_key) {
            self.sets[set_key]
        } else {
            Set::empty()
        }
    }

    /// The tokens in force.
    pub open spec fn active_tokens(self) -> Set<Seq<char>> {
        self.members(ACTIVE_TOKENS@)
    }

    /// The value of the counter at `key`, if there is one.
    pub open spec fn integer(self, key: Seq<char>) -> Option<u64> {
        if self.integers.contains_key(key) {
            Some(self.integers[key])
        } else {
            None
        }
    }

    /// The wins counted under `key`: a missing counter means none.
    pub open spec fn wins(self, key: Seq<char>) -> u64 {
        match self.integer(key) {
            Some(value) => value,
            None => 0,
        }
    }

    /// The store after `command`, and the answer to it. Adding and removing
    /// report how many members changed, a counter is created by its first
    /// increment, and an increment past the limit is refused. A time to live
    /// is taken by a counter that exists and ignored otherwise; one that is
    /// not positive deletes the counter.
    pub open spec fn serve(self, command: CommandView) -> (StoreModel, StoreOutcome) {
        match command {
            CommandView::AddMember { set_key, value } => (
                StoreModel {
                    sets: self.sets.insert(set_key, self.members(set_key).insert(value)),
                    ..self
                },
                Ok(
                    StoreReply::Added(
                        if self.members(set_key).contains(value) {
                            0i32
                        } else {
                            1i32
                        },
                    ),
                ),
            ),
            CommandView::RemoveMember { set_key, value } => (
                StoreModel {
                    sets: self.sets.insert(set_key, self.members(set_key).remove(value)),
                    ..self
                },
                Ok(
                    StoreReply::Removed(
                        if self.members(set_key).contains(value) {
                            1i32
                        } else {
                            0i32
                        },
                    ),
                ),
            ),
            CommandView::IsMember { set_key, value } => (
                self,
                Ok(StoreReply::Member(self.members(set_key).contains(value))),
            ),
            CommandView::ReadInteger { key } => (self, Ok(StoreReply::Integer(self.integer(key)))),
            CommandView::Increment { key, by } => if self.wins(key) + by <= COUNTER_LIMIT {
                let value = (self.wins(key) + by) as u64;
                (
                    StoreModel { integers: self.integers.insert(key, value), ..self },
                    Ok(StoreReply::Incremented(value)),
                )
            } else {
                (self, Err(RedisError::Command))
            },
            CommandView::SetTtl { key, seconds } => (
                if !self.integers.contains_key(key) {
                    self
                } else if seconds > 0 {
                    StoreModel { expiries: self.expiries.insert(key, seconds), ..self }
                } else {
                    StoreModel {
                        integers: self.integers.remove(key),
                        expiries: self.expiries.remove(key),
                        ..self
                    }
                },
                Ok(StoreReply::TtlSet),
            ),
        }
    }
}

/// Runs a call to its end against the store: every command the call sends is
/// served, and the answer is fed back together with the next moment. Gives
/// the reply and the store the call leaves behind; there is no reply where
/// the moments run out first.
pub open spec fn run(step: StepView, store: StoreModel, moments: Seq<Moment>) -> (
    Option<ReplyView>,
    StoreModel,
)
    decreases moments.len(),
{
    match step {
        StepView::Finish(reply) => (Some(reply), store),
        StepView::Send { command, phase } => if moments.len() == 0 {
            (None, store)
        } else {
            let (served, outcome) = store.serve(command);
            run(
                advance_step(phase, outcome, moments[0].clock, moments[0].draws),
                served,
                moments.skip(1),
            )
        },
    }
}

/// A login with the configured secret succeeds, returns the token it was to
/// issue and leaves that token in force: a membership test on the store it
/// leaves behind finds the token.
pub proof fn lemma_login_issues_token(
    store: StoreModel,
    secret: Seq<char>,
    token: Seq<char>,
    moments: Seq<Moment>,
)
    requires
        moments.len() >= 1,
    ensures
        ({
            let (reply, after) = run(login_step(secret, Some(secret), token), store, moments);
            &&& reply == Some(ReplyView::LoggedIn { token })
            &&& after.active_tokens() == store.active_tokens().insert(token)
            &&& after.integers == store.integers
            &&& after.expiries == store.expiries
            &&& after.serve(CommandView::IsMember { set_key: ACTIVE_TOKENS@, value: token }).1
                == Ok::<StoreReply, RedisError>(StoreReply::Member(true))
        }),
{
    reveal_with_fuel(run, 3);
}

/// A login with any other password fails as invalid credentials and leaves
/// the store as it was.
pub proof fn lemma_login_rejects_wrong_password(
    store: StoreModel,
    secret: Seq<char>,
    password: Seq<char>,
    token: Seq<char>,
    moments: Seq<Moment>,
)
    requires
        password != secret,
    ensures
        run(login_step(secret, Some(password), token), store, moments) == (
            Some(ReplyView::Failed(ApiError::InvalidCredentials)),
            store,
        ),
{
    reveal_with_fuel(run, 2);
}

/// A logout with a token in force succeeds and takes exactly that token out
/// of force; a second logout with the same token then fails as an invalid
/// token and changes nothing.
pub proof fn lemma_logout_succeeds_once(
    store: StoreModel,
    token: Seq<char>,
    first: Seq<Moment>,
    second: Seq<Moment>,
)
    requires
        store.active_tokens().contains(token),
        first.len() >= 1,
        second.len() >= 1,
    ensures
        ({
            let (reply, after) = run(logout_step(Some(token)), store, first);
            let (again, last) = run(logout_step(Some(token)), after, second);
            &&& reply == Some(ReplyView::LoggedOut)
            &&& after.active_tokens() == store.active_tokens().remove(token)
            &&& after.integers == store.integers
            &&& again == Some(ReplyView::Failed(ApiError::InvalidToken))
            &&& last.active_tokens() == after.active_tokens()
        }),
{
    reveal_with_fuel(run, 3);
    let (reply, after) = run(logout_step(Some(token)), store, first);
    assert(after.active_tokens() =~= store.active_tokens().remove(token));
    let (again, last) = run(logout_step(Some(token)), after, second);
    assert(last.active_tokens() =~= after.active_tokens());
}

/// A logout with a token that is not in force fails as an invalid token.
pub proof fn lemma_logout_rejects_unknown_token(
    store: StoreModel,
    token: Seq<char>,
    moments: Seq<Moment>,
)
    requires
        !store.active_tokens().contains(token),
        moments.len() >= 1,
    ensures
        run(logout_step(Some(token)), store, moments).0 == Some(
            ReplyView::Failed(ApiError::InvalidToken),
        ),
{
    reveal_with_fuel(run, 3);
}

/// A game round with a token that is not in force fails as an invalid token
/// and leaves the store as it was. After a logout this is the case of the
/// token that was logged out.
pub proof fn lemma_play_rejects_unknown_token(
    store: StoreModel,
    token: Seq<char>,
    moments: Seq<Moment>,
)
    requires
        !store.active_tokens().contains(token),
        moments.len() >= 1,
    ensures
        run(try_luck_step(Some(token)), store, moments) == (
            Some(ReplyView::Failed(ApiError::InvalidToken)),
            store,
        ),
{
    reveal_with_fuel(run, 3);
}

/// After a logout, a game round with the same token fails as an invalid
/// token.
pub proof fn lemma_play_after_logout_fails(
    store: StoreModel,
    token: Seq<char>,
    leaving: Seq<Moment>,
    playing: Seq<Moment>,
)
    requires
        leaving.len() >= 1,
        playing.len() >= 1,
    ensures
        ({
            let after = run(logout_step(Some(token)), store, leaving).1;
            run(try_luck_step(Some(token)), after, playing).0 == Some(
                ReplyView::Failed(ApiError::InvalidToken),
            )
        }),
{
    reveal_with_fuel(run, 3);
    let after = run(logout_step(Some(token)), store, leaving).1;
    assert(!after.active_tokens().contains(token));
    lemma_play_rejects_unknown_token(after, token, playing);
}

/// The counter a round works on: the one of the day read at the round's
/// first step.
pub open spec fn round_key(moments: Seq<Moment>) -> Seq<char> {
    wins_key_of(moments[0].clock.spec_today().text())
}

/// The store after the expiry of the counter `key` has been armed at
/// `clock`: the counter, if it exists, is given the seconds left in the day
/// to live, unless none is left.
pub open spec fn armed(store: StoreModel, key: Seq<char>, clock: ClockReading) -> StoreModel {
    let seconds = clock.spec_seconds_until_midnight();
    if seconds > 0 && store.integers.contains_key(key) {
        StoreModel { expiries: store.expiries.insert(key, seconds as i64), ..store }
    } else {
        store
    }
}

/// Whether a round wins: the draw of its second step, at the tier selected
/// by the wins counted so far.
pub open spec fn round_wins(store: StoreModel, moments: Seq<Moment>) -> bool {
    moments[1].draws.spec_outcome(store.wins(round_key(moments)))
}

/// A game round with a token in force is played. A lost round leaves the
/// counters as they were; a won round raises the day's counter by one,
/// creating it at one where it was missing, and is reported only if the
/// store took the increment. Either way the day's counter, if it exists by
/// then, is given the seconds left in the day to live, as the clock says
/// once the round is decided. No round touches the tokens.
pub proof fn lemma_play_with_valid_token(
    store: StoreModel,
    token: Seq<char>,
    moments: Seq<Moment>,
)
    requires
        store.active_tokens().contains(token),
        moments.len() >= 4,
    ensures
        ({
            let key = round_key(moments);
            let (reply, after) = run(try_luck_step(Some(token)), store, moments);
            &&& after.sets == store.sets
            &&& if !round_wins(store, moments) {
                &&& reply == Some(ReplyView::Played { win: false })
                &&& after == armed(store, key, moments[1].clock)
            } else if store.wins(key) < COUNTER_LIMIT {
                let raised = StoreModel {
                    integers: store.integers.insert(key, (store.wins(key) + 1) as u64),
                    ..store
                };
                &&& reply == Some(ReplyView::Played { win: true })
                &&& after.wins(key) == store.wins(key) + 1
                &&& after == armed(raised, key, moments[2].clock)
            } else {
                reply == Some(ReplyView::Failed(ApiError::StoreCommandFailed)) && after == store
            }
        }),
{
    reveal_with_fuel(run, 6);
}

/// No game round changes which tokens are in force, whoever plays it and
/// however it ends.
pub proof fn lemma_play_keeps_tokens(
    store: StoreModel,
    token: Option<Seq<char>>,
    moments: Seq<Moment>,
)
    ensures
        run(try_luck_step(token), store, moments).1.sets == store.sets,
{
    reveal_with_fuel(run, 6);
}

/// The store after a sequence of game rounds by one bearer.
pub open spec fn after_rounds(
    store: StoreModel,
    token: Seq<char>,
    rounds: Seq<Seq<Moment>>,
) -> StoreModel
    decreases rounds.len(),
{
    if rounds.len() == 0 {
        store
    } else {
        after_rounds(
            run(try_luck_step(Some(token)), store, rounds[0]).1,
            token,
            rounds.skip(1),
        )
    }
}

/// A token in force stays in force over any number of game rounds, and the
/// round after them is not turned down for its token.
pub proof fn lemma_token_survives_rounds(
    store: StoreModel,
    token: Seq<char>,
    rounds: Seq<Seq<Moment>>,
    next: Seq<Moment>,
)
    requires
        store.active_tokens().contains(token),
        next.len() >= 4,
    ensures
        after_rounds(store, token, rounds).sets == store.sets,
        after_rounds(store, token, rounds).active_tokens().contains(token),
        ({
            let reply = run(try_luck_step(Some(token)), after_rounds(store, token, rounds), next).0;
            reply is Some && reply != Some(ReplyView::Failed(ApiError::InvalidToken))
        }),
    decreases rounds.len(),
{
    if rounds.len() == 0 {
        lemma_play_with_valid_token(store, token, next);
    } else {
        let served = run(try_luck_step(Some(token)), store, rounds[0]).1;
        lemma_play_keeps_tokens(store, Some(token), rounds[0]);
        lemma_token_survives_rounds(served, token, rounds.skip(1), next);
    }
}

/// The token of a successful login is accepted by the game: the round
/// played with it right after the login is not turned down for its token.
pub proof fn lemma_issued_token_is_accepted(
    store: StoreModel,
    secret: Seq<char>,
    token: Seq<char>,
    entering: Seq<Moment>,
    playing: Seq<Moment>,
)
    requires
        entering.len() >= 1,
        playing.len() >= 4,
    ensures
        ({
            let after = run(login_step(secret, Some(secret), token), store, entering).1;
            let reply = run(try_luck_step(Some(token)), after, playing).0;
            &&& reply is Some
            &&& reply != Some(ReplyView::Failed(ApiError::InvalidToken))
            &&& after.wins(round_key(playing)) < COUNTER_LIMIT ==> reply == Some(
                ReplyView::Played { win: round_wins(after, playing) },
            )
        }),
{
    lemma_login_issues_token(store, secret, token, entering);
    let after = run(login_step(secret, Some(secret), token), store, entering).1;
    assert(after.active_tokens().contains(token));
    lemma_play_with_valid_token(after, token, playing);
}

/// The tier of a round is selected by the count it read, not by the count
/// at the time of its increment: two rounds that both read the counter one
/// win short of the quota before either has recorded its win both play at
/// the high odds, and when both win the counter ends above the quota.
pub proof fn lemma_rounds_in_flight_share_a_tier(
    store: StoreModel,
    key: Seq<char>,
    clock: ClockReading,
    first: Draws,
    second: Draws,
)
    requires
        store.wins(key) == WIN_QUOTA - 1,
        first.at_high,
        second.at_high,
    ensures
        ({
            let read = store.serve(CommandView::ReadInteger { key }).1;
            let record = StepView::Send {
                command: CommandView::Increment { key, by: 1 },
                phase: PhaseView::RecordingWin { key },
            };
            let raised = store.serve(CommandView::Increment { key, by: 1 }).0;
            &&& advance_step(PhaseView::ReadingWins { key }, read, clock, first) == record
            &&& advance_step(PhaseView::ReadingWins { key }, read, clock, second) == record
            &&& raised.serve(CommandView::Increment { key, by: 1 }).0.wins(key) == WIN_QUOTA + 1
        }),
{
}

/// Two tokens in force are revoked independently: logging one out leaves
/// the other in force.
pub proof fn lemma_logout_spares_other_tokens(
    store: StoreModel,
    token: Seq<char>,
    other: Seq<char>,
    moments: Seq<Moment>,
)
    requires
        other != token,
        moments.len() >= 1,
    ensures
        ({
            let after = run(logout_step(Some(token)), store, moments).1;
            after.active_tokens().contains(other) == store.active_tokens().contains(other)
        }),
{
    reveal_with_fuel(run, 3);
}

} // verus!
