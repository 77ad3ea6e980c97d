//! Chat: channels, messages and the bounded message log.

use vstd::prelude::*;
use crate::clock::unix_seconds_now;

verus! {

/// Chat channels.
#[derive(Debug, Clone, Copy, PartialEq, Eq, Structural)]
pub enum ChatChannel {
    Global,
    Local,
    Whisper,
    Team,
}

/// One chat message.
#[derive(Debug, Clone)]
pub struct ChatMessage {
    pub sender: String,
    pub content: String,
    /// Seconds since the Unix epoch when the message was logged.
    pub timestamp: u64,
    pub channel: ChatChannel,
}

/// The chat log: the latest messages, oldest first, at most `max_messages`.
#[derive(Debug, Clone)]
pub struct ChatManager {
    pub messages: Vec<ChatMessage>,
    pub max_messages: usize,
}

/// How many of the oldest messages give way when one more joins `len`
/// messages under a limit of `max`.
pub open spec fn dropped(len: int, max: int) -> int {
    if len + 1 > max { len + 1 - max } else { 0 }
}

/// The log `after` is the log `before` with one message added whose sender,
/// text and channel are given, the oldest dropped until at most `max` remain.
pub open spec fn logged(
    before: Seq<ChatMessage>,
    after: Seq<ChatMessage>,
    max: int,
    sender: Seq<char>,
    content: Seq<char>,
    channel: ChatChannel,
) -> bool {
    let d = dropped(before.len() as int, max);
    &&& after.len() == before.len() + 1 - d
    &&& forall|i: int| 0 <= i < after.len() && i + d < before.len() ==> #[trigger] after[i] == before[i + d]
    &&& after.len() > 0 ==> {
        let m = after.last();
        &&& m.sender@ == sender
        &&& m.content@ == content
        &&& m.channel == channel
    }
}

impl ChatManager {
    /// An empty log keeping the latest 100 messages.
    pub fn new() -> (c: Self)
        ensures
            c.messages@.len() == 0,
            c.max_messages == 100,
    {
        ChatManager { messages: Vec::new(), max_messages: 100 }
    }

    /// Logs a message stamped with the current time, dropping the oldest
    /// messages until at most `max_messages` remain.
    pub fn add_message(&mut self, sender: &str, content: &str, channel: ChatChannel)
        ensures
            final(self).max_messages == old(self).max_messages,
            logged(old(self).messages@, final(self).messages@, old(self).max_messages as int, sender@, content@, channel),
    {
        let now = unix_seconds_now();
        self.add_message_at(sender, content, channel, now);
    }

    /// Logs a message with the given timestamp, dropping the oldest messages
    /// until at most `max_messages` remain.
    pub fn add_message_at(&mut self, sender: &str, content: &str, channel: ChatChannel, timestamp: u64)
        ensures
            final(self).max_messages == old(self).max_messages,
            logged(old(self).messages@, final(self).messages@, old(self).max_messages as int, sender@, content@, channel),
            final(self).messages@.len() > 0 ==> final(self).messages@.last().timestamp == timestamp,
    {
        let message = ChatMessage {
            sender: sender.to_owned(),
            content: content.to_owned(),
            timestamp,
            channel,
        };
        let ghost before = self.messages@;
        self.messages.push(message);
        let ghost pushed = self.messages@;
        let ghost mut k: int = 0;
        while self.messages.len() > self.max_messages
            invariant
                self.max_messages == old(self).max_messages,
                before == old(self).messages@,
                pushed == before.push(message),
                0 <= k <= pushed.len(),
                self.messages@ == pushed.skip(k),
                k <= dropped(before.len() as int, self.max_messages as int),
            decreases self.messages@.len(),
        {
            self.messages.remove(0);
            proof {
                k = k + 1;
                assert(self.messages@ =~= pushed.skip(k));
            }
        }
        proof {
            let d = dropped(before.len() as int, self.max_messages as int);
            assert(k == d);
        }
    }
}

impl Default for ChatManager {
    fn default() -> (c: Self)
        ensures
            c.messages@.len() == 0,
            c.max_messages == 100,
    {
        ChatManager::new()
    }
}

/// The log never outgrows its limit: after a message is added, at most
/// `max_messages` remain, and when the limit is not zero the new message is
/// the last one.
pub proof fn law_chat_log_bounded(
    before: Seq<ChatMessage>,
    after: Seq<ChatMessage>,
    max: usize,
    sender: Seq<char>,
    content: Seq<char>,
    channel: ChatChannel,
)
    requires
        logged(before, after, max as int, sender, content, channel),
    ensures
        after.len() <= max,
        after.len() == (if before.len() + 1 <= max { before.len() + 1 } else { max as nat }),
        max > 0 ==> after.len() > 0 && after.last().sender@ == sender && after.last().content@ == content,
{
}

} // verus!
