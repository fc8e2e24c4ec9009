//! Direct messages to the bot.

use vstd::prelude::*;
use vstd::string::*;
use crate::errors::Error;
use crate::manager::{reply_text, work_delivered, Delivery, Manager};
use crate::queue::item::QueueItem;
use crate::queue::rules::{work_requested, EngineView, Fresh};
use crate::slack::app_mentions::{only_said, Response};
use crate::slack::events::{ChannelType, Event, File};
use crate::text::{
    contains, holds_text, lowercase_text, same_text, to_lowercase, trim, trimmed_text,
};

verus! {

pub const HELLO: &'static str =
    ":wave: Hi! I'm ShereeBot. Sheree's brother built me to help her manage your film assignments!\nFor a list of my commands, type `help`";

pub const HELP: &'static str =
    "\nTo request work, message me and say `request-work`.\nTo deliver your work, message me and say `deliver-work`.\n\nAs soon as there's work ready to be picked up, I'll let you know!";

/// A direct message to the bot.
#[derive(Debug)]
pub struct Message {
    pub user: String,
    pub text: String,
    pub channel_type: ChannelType,
    pub subtype: Option<String>,
    pub files: Option<Vec<File>>,
}

/// What an uploaded file is taken for, going by its name.
#[derive(Debug, Clone, Copy, PartialEq, Eq, Structural)]
pub enum FileKind {
    Films,
    Students,
    Other,
}

/// What a file of the given name is taken for: a film list where the name
/// holds "film", else a class list where it holds "student".
pub open spec fn kind_of(name: Seq<char>) -> FileKind {
    if holds_text(name, "film"@) {
        FileKind::Films
    } else if holds_text(name, "student"@) {
        FileKind::Students
    } else {
        FileKind::Other
    }
}

/// What a file of the given name is taken for.
pub fn file_kind(name: &str) -> (kind: FileKind)
    ensures
        kind == kind_of(name@),
{
    if contains(name, "film") {
        FileKind::Films
    } else if contains(name, "student") {
        FileKind::Students
    } else {
        FileKind::Other
    }
}

/// The messages one after the other, each followed by a line feed.
pub open spec fn lines_text(messages: Seq<Seq<char>>) -> Seq<char>
    decreases messages.len(),
{
    if messages.len() == 0 {
        Seq::empty()
    } else {
        lines_text(messages.drop_last()) + messages.last() + "\n"@
    }
}

/// The messages one after the other, each followed by a line feed.
pub fn join_messages(messages: &Vec<String>) -> (joined: String)
    ensures
        joined@ == lines_text(crate::text::texts(messages@)),
{
    let mut joined = String::new();
    let mut i: usize = 0;
    let ghost all = crate::text::texts(messages@);
    assert(all.take(0) =~= Seq::<Seq<char>>::empty());
    while i < messages.len()
        invariant
            i <= messages@.len(),
            all == crate::text::texts(messages@),
            joined@ == lines_text(all.take(i as int)),
        decreases messages@.len() - i,
    {
        assert(all.take(i + 1).drop_last() =~= all.take(i as int));
        joined = joined.concat(messages[i].as_str()).concat("\n");
        i += 1;
    }
    assert(all.take(i as int) =~= all);
    joined
}

/// What the text of a direct message does: `out` is what comes back and
/// `post` the engine afterwards.
///
/// The text, trimmed and in lower case, is `request-work`, `deliver-work`
/// or `help`; to any other text the answer is empty. A request made in a
/// direct message is answered in the channel of the user, under the time
/// stamp "0".
pub open spec fn message_run(
    message: Message,
    pre: EngineView,
    out: Delivery,
    post: EngineView,
) -> bool {
    let text = lowercase_text(trimmed_text(message.text@));
    if text == "request-work"@ {
        out.notices@.len() == 0 && exists|
            fresh: Fresh,
            outcome: Result<Option<QueueItem>, Error>,
        | #[trigger]
            work_requested(pre, message.user@, "0"@, message.user@, fresh, outcome, post)
                && out.reply@ == reply_text(message.user@, outcome)
    } else if text == "deliver-work"@ {
        exists|fresh: Fresh| #[trigger] work_delivered(pre, message.user@, fresh, out, post)
    } else if text == "help"@ {
        only_said(HELP@, pre, out, post)
    } else {
        only_said(Seq::empty(), pre, out, post)
    }
}

impl Message {
    pub fn new(
        user: String,
        text: String,
        channel_type: ChannelType,
        subtype: Option<String>,
        files: Option<Vec<File>>,
    ) -> (message: Message)
        ensures
            message == (Message { user, text, channel_type, subtype, files }),
    {
        Message { user, text, channel_type, subtype, files }
    }

    /// The direct message that an event is. Any other event is `Unreachable`.
    pub fn from_event(event: Event) -> (r: Result<Message, Error>)
        ensures
            match event {
                Event::Message { user, text, channel_type, subtype, files } => r == Ok::<
                    Message,
                    Error,
                >(Message { user, text, channel_type, subtype, files }),
                Event::AppMention { .. } => r == Err::<Message, Error>(Error::Unreachable),
            },
    {
        match event {
            Event::Message { user, text, channel_type, subtype, files } => Ok(
                Message { user, text, channel_type, subtype, files },
            ),
            Event::AppMention { .. } => Err(Error::Unreachable),
        }
    }

    /// Does what the text of the message asks for; see `message_run`.
    pub fn run_text(&self, manager: &mut Manager) -> (out: Delivery)
        requires
            old(manager).state@.wf(),
        ensures
            final(manager).state@.wf(),
            message_run(*self, old(manager).state@, out, final(manager).state@),
            old(manager).state@.in_sync() ==> final(manager).state@.in_sync(),
            old(manager).state@.db.roles_consistent()
                ==> final(manager).state@.db.roles_consistent(),
    {
        let text = to_lowercase(trim(self.text.as_str()).as_str());
        if same_text(text.as_str(), "request-work") {
            let reply = manager.request_work(self.user.as_str(), "0", self.user.as_str());
            Delivery { reply, notices: Vec::new() }
        } else if same_text(text.as_str(), "deliver-work") {
            manager.deliver_work(self.user.as_str())
        } else if same_text(text.as_str(), "help") {
            Delivery { reply: String::from_str(HELP), notices: Vec::new() }
        } else {
            Delivery { reply: String::new(), notices: Vec::new() }
        }
    }

    /// The answer to the message, addressed to the user: the given text, or
    /// the greeting where the text is empty.
    pub fn send_response(&self, msg: String) -> (response: Response)
        ensures
            response.channel == self.user,
            response.thread_ts is None,
            msg@.len() == 0 ==> response.text@ == HELLO@,
            msg@.len() > 0 ==> response.text == msg,
    {
        let text = if msg.as_str().unicode_len() == 0 {
            String::from_str(HELLO)
        } else {
            msg
        };
        Response::new(self.user.clone(), text, None)
    }
}

} // verus!
