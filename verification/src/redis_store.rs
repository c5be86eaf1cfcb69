//! The vocabulary spoken with the key-value store: the commands this service
//! sends, the replies it understands, and how each reply is read.

use vstd::prelude::*;

verus! {

/// Why a store operation produced no usable reply.
#[derive(Clone, Copy, Debug, PartialEq, Eq, Structural)]
pub enum RedisError {
    /// No connection to the store could be obtained.
    Unavailable,
    /// The store was reached but the operation itself failed.
    Command,
}

/// One self-contained operation on the store.
#[derive(Clone, Debug, PartialEq, Eq)]
pub enum StoreCommand {
    AddMember { set_key: String, value: String },
    RemoveMember { set_key: String, value: String },
    IsMember { set_key: String, value: String },
    ReadInteger { key: String },
    Increment { key: String, by: u64 },
    SetTtl { key: String, seconds: i64 },
}

/// A `StoreCommand` with its texts as character sequences.
pub enum CommandView {
    AddMember { set_key: Seq<char>, value: Seq<char> },
    RemoveMember { set_key: Seq<char>, value: Seq<char> },
    IsMember { set_key: Seq<char>, value: Seq<char> },
    ReadInteger { key: Seq<char> },
    Increment { key: Seq<char>, by: u64 },
    SetTtl { key: Seq<char>, seconds: i64 },
}

impl View for StoreCommand {
    type V = CommandView;

    open spec fn view(&self) -> CommandView {
        match *self {
            StoreCommand::AddMember { set_key, value } => CommandView::AddMember {
                set_key: set_key@,
                value: value@,
            },
            StoreCommand::RemoveMember { set_key, value } => CommandView::RemoveMember {
                set_key: set_key@,
                value: value@,
            },
            StoreCommand::IsMember { set_key, value } => CommandView::IsMember {
                set_key: set_key@,
                value: value@,
            },
            StoreCommand::ReadInteger { key } => CommandView::ReadInteger { key: key@ },
            StoreCommand::Increment { key, by } => CommandView::Increment { key: key@, by },
            StoreCommand::SetTtl { key, seconds } => CommandView::SetTtl { key: key@, seconds },
        }
    }
}

/// What the store answers to a command that succeeded.
#[derive(Clone, Copy, Debug, PartialEq, Eq, Structural)]
pub enum StoreReply {
    /// Answer to `AddMember`: how many members were new.
    Added(i32),
    /// Answer to `RemoveMember`: how many members were taken out.
    Removed(i32),
    /// Answer to `IsMember`.
    Member(bool),
    /// Answer to `ReadInteger`: the value, or nothing where the key is absent.
    Integer(Option<u64>),
    /// Answer to `Increment`: the value after the increment.
    Incremented(u64),
    /// Answer to `SetTtl`.
    TtlSet,
}

/// How one store operation ended.
pub type StoreOutcome = Result<StoreReply, RedisError>;

/// The outcome of adding a token, as `add_active_token` reads it.
pub open spec fn token_added(outcome: StoreOutcome) -> Result<(), RedisError> {
    match outcome {
        Ok(StoreReply::Added(_)) => Ok(()),
        Ok(_) => Err(RedisError::Command),
        Err(e) => Err(e),
    }
}

/// The outcome of removing a token, as `remove_active_token` reads it.
pub open spec fn tokens_removed(outcome: StoreOutcome) -> Result<i32, RedisError> {
    match outcome {
        Ok(StoreReply::Removed(count)) => Ok(count),
        Ok(_) => Err(RedisError::Command),
        Err(e) => Err(e),
    }
}

/// The outcome of a membership test, as `is_active_token` reads it.
pub open spec fn token_active(outcome: StoreOutcome) -> Result<bool, RedisError> {
    match outcome {
        Ok(StoreReply::Member(present)) => Ok(present),
        Ok(_) => Err(RedisError::Command),
        Err(e) => Err(e),
    }
}

/// The outcome of reading the day's counter, as `get_wins_today` reads it:
/// an absent key counts as zero wins.
pub open spec fn wins_read(outcome: StoreOutcome) -> Result<u64, RedisError> {
    match outcome {
        Ok(StoreReply::Integer(Some(wins))) => Ok(wins),
        Ok(StoreReply::Integer(None)) => Ok(0),
        Ok(_) => Err(RedisError::Command),
        Err(e) => Err(e),
    }
}

/// The outcome of advancing the day's counter, as `increment_wins` reads it.
pub open spec fn wins_incremented(outcome: StoreOutcome) -> Result<(), RedisError> {
    match outcome {
        Ok(StoreReply::Incremented(_)) => Ok(()),
        Ok(_) => Err(RedisError::Command),
        Err(e) => Err(e),
    }
}

/// The outcome of arming the expiry, as `set_expiry` reads it.
pub open spec fn expiry_set(outcome: StoreOutcome) -> Result<(), RedisError> {
    match outcome {
        Ok(StoreReply::TtlSet) => Ok(()),
        Ok(_) => Err(RedisError::Command),
        Err(e) => Err(e),
    }
}

/// Reads the outcome of an `AddMember` on the active-token set. A reply of
/// any other shape counts as a failed command.
pub fn add_active_token(outcome: StoreOutcome) -> (result: Result<(), RedisError>)
    ensures
        result == token_added(outcome),
{
    match outcome {
        Ok(StoreReply::Added(_)) => Ok(()),
        Ok(_) => Err(RedisError::Command),
        Err(e) => Err(e),
    }
}

/// Reads the outcome of a `RemoveMember` on the active-token set: the number
/// of members that were taken out.
pub fn remove_active_token(outcome: StoreOutcome) -> (result: Result<i32, RedisError>)
    ensures
        result == tokens_removed(outcome),
{
    match outcome {
        Ok(StoreReply::Removed(count)) => Ok(count),
        Ok(_) => Err(RedisError::Command),
        Err(e) => Err(e),
    }
}

/// Reads the outcome of an `IsMember` on the active-token set.
pub fn is_active_token(outcome: StoreOutcome) -> (result: Result<bool, RedisError>)
    ensures
        result == token_active(outcome),
{
    match outcome {
        Ok(StoreReply::Member(present)) => Ok(present),
        Ok(_) => Err(RedisError::Command),
        Err(e) => Err(e),
    }
}

/// Reads the outcome of a `ReadInteger` on the day's counter. A day without a
/// counter has seen no win.
pub fn get_wins_today(outcome: StoreOutcome) -> (result: Result<u64, RedisError>)
    ensures
        result == wins_read(outcome),
{
    match outcome {
        Ok(StoreReply::Integer(Some(wins))) => Ok(wins),
        Ok(StoreReply::Integer(None)) => Ok(0),
        Ok(_) => Err(RedisError::Command),
        Err(e) => Err(e),
    }
}

/// Reads the outcome of an `Increment` on the day's counter.
pub fn increment_wins(outcome: StoreOutcome) -> (result: Result<(), RedisError>)
    ensures
        result == wins_incremented(outcome),
{
    match outcome {
        Ok(StoreReply::Incremented(_)) => Ok(()),
        Ok(_) => Err(RedisError::Command),
        Err(e) => Err(e),
    }
}

/// Reads the outcome of a `SetTtl` on the day's counter.
pub fn set_expiry(outcome: StoreOutcome) -> (result: Result<(), RedisError>)
    ensures
        result == expiry_set(outcome),
{
    match outcome {
        Ok(StoreReply::TtlSet) => Ok(()),
        Ok(_) => Err(RedisError::Command),
        Err(e) => Err(e),
    }
}

} // verus!
