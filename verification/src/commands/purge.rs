use vstd::prelude::*;

use crate::command::CommandHandler;
use crate::text::{decimal, decimal_reads_back, decimal_text, is_numeral, numeral_value};
use crate::ui::{CommandSpec, OptionKind, OptionSpec};

verus! {

/// The `/purge` command: deletes the most recent messages of a channel.
pub struct PurgeCommand;

/// How `/purge` is registered: one required integer option, `messages`,
/// between 1 and 100.
pub open spec fn purge_command() -> (
    Seq<char>,
    Seq<char>,
    Seq<(OptionKind, Seq<char>, Seq<char>, Option<u64>, Option<u64>, bool)>,
    Option<bool>,
) {
    (
        "purge"@,
        "Delete a mass number of messages at a time. Can't delete messages older than 2 weeks."@,
        seq![
            (
                OptionKind::Integer,
                "messages"@,
                "Number of messages to delete"@,
                Some(1u64),
                Some(100u64),
                true,
            ),
        ],
        Some(false),
    )
}

/// What `/purge` does next.
#[derive(Clone, Copy, Debug, PartialEq, Eq, Structural)]
pub enum PurgeStep {
    /// Fetch up to `limit` messages older than the message `before`, then
    /// delete them together with `before`.
    Fetch { before: u64, limit: u8 },
    /// The channel has no message: nothing is deleted.
    NothingToPurge,
    /// The first option is not an integer: nothing is deleted.
    IncorrectArgument,
}

/// The step `/purge` takes, given the integer value of its first option (if
/// that option is an integer) and the id of the channel's newest message.
pub open spec fn purge_step(count: Option<i64>, last_message_id: Option<u64>) -> PurgeStep {
    match count {
        None => PurgeStep::IncorrectArgument,
        Some(c) => match last_message_id {
            None => PurgeStep::NothingToPurge,
            Some(id) => PurgeStep::Fetch { before: id, limit: (c - 1) as u8 },
        },
    }
}

/// Within the bounds `/purge` registers for its option (1 to 100), the
/// number of older messages fetched is exactly one less than the count asked
/// for, so with the newest message at most 100 messages are deleted.
pub proof fn purge_limit_within_bounds(count: i64, last_message_id: u64)
    requires
        1 <= count <= 100,
    ensures
        purge_step(Some(count), Some(last_message_id)) matches PurgeStep::Fetch { before, limit }
            && before == last_message_id && limit == count - 1 && limit + 1 <= 100,
{
}

/// The part of a guild channel that `/purge` reads.
#[derive(Clone, Copy, Debug, PartialEq, Eq, Structural)]
pub struct GuildChannelInfo {
    pub last_message_id: Option<u64>,
}

/// A channel: one of a guild, or another kind.
#[derive(Clone, Copy, Debug, PartialEq, Eq, Structural)]
pub enum ChannelInfo {
    Guild(GuildChannelInfo),
    Other,
}

/// The guild channel that `channel` is.
pub fn unwrap_guild_channel(channel: ChannelInfo) -> (g: GuildChannelInfo)
    requires
        channel is Guild,
    ensures
        channel == ChannelInfo::Guild(g),
{
    match channel {
        ChannelInfo::Guild(g) => g,
        ChannelInfo::Other => GuildChannelInfo { last_message_id: None },
    }
}

impl CommandHandler for PurgeCommand {
    fn register(&self) -> (spec: CommandSpec)
        ensures
            spec@ == purge_command(),
    {
        let mut options: Vec<OptionSpec> = Vec::new();
        options.push(
            OptionSpec {
                kind: OptionKind::Integer,
                name: String::from_str("messages"),
                description: String::from_str("Number of messages to delete"),
                min_int: Some(1),
                max_int: Some(100),
                required: true,
            },
        );
        let spec = CommandSpec {
            name: String::from_str("purge"),
            description: String::from_str(
                "Delete a mass number of messages at a time. Can't delete messages older than 2 weeks.",
            ),
            options,
            dm_permission: Some(false),
        };
        assert(spec@.2 =~= purge_command().2);
        spec
    }
}

impl PurgeCommand {
    /// Decides what `/purge` does: `count` is the value of its first option
    /// where that option is an integer, `last_message_id` the id of the
    /// channel's newest message.
    pub fn plan(&self, count: Option<i64>, last_message_id: Option<u64>) -> (step: PurgeStep)
        requires
            last_message_id is Some ==> (count matches Some(c) ==> c > i64::MIN),
        ensures
            step == purge_step(count, last_message_id),
    {
        match count {
            Some(c) => match last_message_id {
                Some(id) => PurgeStep::Fetch { before: id, limit: (c - 1) as u8 },
                None => PurgeStep::NothingToPurge,
            },
            None => PurgeStep::IncorrectArgument,
        }
    }

    /// The messages to delete: those fetched, then the newest one.
    pub fn targets(&self, fetched: Vec<u64>, newest: u64) -> (ids: Vec<u64>)
        ensures
            ids@ == fetched@.push(newest),
    {
        let mut ids = fetched;
        ids.push(newest);
        ids
    }

    /// The reply once `deleted` messages are deleted.
    pub fn reply(&self, deleted: usize) -> (text: String)
        ensures
            text@ == "Deleted "@ + decimal(deleted as nat) + " messages"@,
    {
        let mut text = String::from_str("Deleted ");
        let count = decimal_text(deleted as u64);
        text.append(count.as_str());
        text.append(" messages");
        text
    }
}


/// The reply of `/purge` states how many messages were deleted: the number
/// between "Deleted " and " messages" reads back as `deleted`.
pub proof fn purge_reply_states_the_count(deleted: usize)
    ensures
        exists|digits: Seq<char>|
            #![trigger is_numeral(digits)]
            is_numeral(digits) && numeral_value(digits) == deleted && "Deleted "@ + decimal(
                deleted as nat,
            ) + " messages"@ == "Deleted "@ + digits + " messages"@,
{
    decimal_reads_back(deleted as nat);
    assert(is_numeral(decimal(deleted as nat)));
}

} // verus!
