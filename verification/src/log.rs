//! The message log: the most recent narrated events, oldest first.

use vstd::prelude::*;

verus! {

/// The number of messages that the log keeps.
pub const LOG_CAPACITY: usize = 10;

/// The texts of a sequence of strings.
pub open spec fn lines(entries: Seq<String>) -> Seq<Seq<char>> {
    entries.map_values(|entry: String| entry@)
}

/// A log after a message was appended: the message comes last, and only the
/// most recent `LOG_CAPACITY` messages are kept.
pub open spec fn appended(log: Seq<Seq<char>>, message: Seq<char>) -> Seq<Seq<char>> {
    let all = log.push(message);
    if all.len() > LOG_CAPACITY {
        all.subrange(all.len() - LOG_CAPACITY, all.len() as int)
    } else {
        all
    }
}

/// A bounded log of messages. It only ever grows at its end, and once it is
/// full the oldest message leaves as a new one arrives.
#[derive(Debug)]
pub struct MessageLog {
    entries: Vec<String>,
}

impl View for MessageLog {
    type V = Seq<Seq<char>>;

    /// The texts of the messages, oldest first.
    closed spec fn view(&self) -> Seq<Seq<char>> {
        lines(self.entries@)
    }
}

impl Clone for MessageLog {
    /// A copy of the log with the same messages.
    fn clone(&self) -> (copy: MessageLog)
        ensures
            copy@ == self@,
    {
        proof {
            use_type_invariant(self);
        }
        MessageLog { entries: self.entries.clone() }
    }
}

impl MessageLog {
    /// A log never holds more than `LOG_CAPACITY` messages.
    #[verifier::type_invariant]
    pub open spec fn within_capacity(self) -> bool {
        self@.len() <= LOG_CAPACITY
    }

    /// Creates an empty log.
    pub fn new() -> (log: MessageLog)
        ensures
            log@ == Seq::<Seq<char>>::empty(),
    {
        MessageLog { entries: Vec::new() }
    }

    /// Appends a message, evicting the oldest one from a full log.
    pub fn push(&mut self, message: String)
        ensures
            final(self)@ == appended(old(self)@, message@),
            final(self)@.len() <= LOG_CAPACITY,
            final(self)@.last() == message@,
    {
        proof {
            use_type_invariant(&*self);
        }
        let mut entries: Vec<String> = Vec::new();
        core::mem::swap(&mut self.entries, &mut entries);
        if entries.len() >= LOG_CAPACITY {
            entries.remove(0);
        }
        entries.push(message);
        self.entries = entries;
    }

    /// The number of messages in the log.
    pub fn len(&self) -> (count: usize)
        ensures
            count == self@.len(),
            count <= LOG_CAPACITY,
    {
        proof {
            use_type_invariant(self);
        }
        self.entries.len()
    }

    /// The messages, oldest first.
    pub fn entries(&self) -> (entries: &Vec<String>)
        ensures
            lines(entries@) == self@,
            entries@.len() <= LOG_CAPACITY,
    {
        proof {
            use_type_invariant(self);
        }
        &self.entries
    }
}

/// The log after a sequence of messages was appended to it, one by one.
pub open spec fn appended_all(log: Seq<Seq<char>>, messages: Seq<Seq<char>>) -> Seq<Seq<char>>
    decreases messages.len(),
{
    if messages.len() == 0 {
        log
    } else {
        appended(appended_all(log, messages.drop_last()), messages.last())
    }
}

/// The most recent `LOG_CAPACITY` of a sequence of messages.
pub open spec fn latest(messages: Seq<Seq<char>>) -> Seq<Seq<char>> {
    if messages.len() > LOG_CAPACITY {
        messages.subrange(messages.len() - LOG_CAPACITY, messages.len() as int)
    } else {
        messages
    }
}

/// Appending never lets a log grow past `LOG_CAPACITY`, and the message
/// appended is its last.
pub proof fn lemma_appended_bounded(log: Seq<Seq<char>>, message: Seq<char>)
    ensures
        appended(log, message).len() <= LOG_CAPACITY,
        appended(log, message).len() >= 1,
        appended(log, message).last() == message,
        log.len() < LOG_CAPACITY ==> appended(log, message).len() == log.len() + 1,
{
}

/// The oldest message is the first to go: a log with room keeps everything,
/// a full log loses its first message and nothing else, and the order stays.
pub proof fn lemma_appended_evicts_oldest(log: Seq<Seq<char>>, message: Seq<char>)
    requires
        log.len() <= LOG_CAPACITY,
    ensures
        log.len() < LOG_CAPACITY ==> appended(log, message) == log.push(message),
        log.len() == LOG_CAPACITY ==> appended(log, message) == log.drop_first().push(message),
{
}

/// After any sequence of messages, an empty log holds the most recent
/// `LOG_CAPACITY` of them, in the order in which they came.
pub proof fn lemma_log_keeps_latest(messages: Seq<Seq<char>>)
    ensures
        appended_all(Seq::empty(), messages) == latest(messages),
        appended_all(Seq::empty(), messages).len() <= LOG_CAPACITY,
    decreases messages.len(),
{
    if messages.len() > 0 {
        lemma_log_keeps_latest(messages.drop_last());
    }
}

} // verus!
