//! Mentions of the bot in a channel: reading the command and running it.

use vstd::prelude::*;
use vstd::string::*;
use crate::errors::Error;
use crate::manager::{films_added, reply_text, work_delivered, Delivery, Manager};
use crate::models::films::Film;
use crate::models::shared::Priority;
use crate::queue::item::QueueItem;
use crate::queue::rules::{work_requested, EngineView, Fresh};
use crate::slack::events::Event;
use crate::text::{
    eq_ignore_ascii_case, join_with, joined_text, parse_i32, parsed_i32, same_text_but_case,
    split_at_char, split_text, split_words, texts, to_uppercase, trim, trimmed_text,
    uppercase_text, whitespace_words,
};

verus! {

pub const HELLO: &'static str =
    ":wave: Hi! I'm ShereeBot. Sheree's brother built me to help her manage your film assignments!\nFor a list of my commands, type @ShereeBot help";

pub const HELP: &'static str =
    "Sheree commands:\n`add-films [HIGH or LOW] [film1, film2, film3...]`\n\nTo deliver your work, type `@ShereeBot deliver`.\nOnce you're ready to move on to the next step, type `@ShereeBot request-work`.\nAs soon as there's work ready to be picked up, I'll let you know!";

pub const CMD_ERR: &'static str =
    "I couldn't read your command :cry:\nValid commands include `deliver-work`, and `request-work`!\nSheree can also run the `add-films` command!";

pub const PRI_ERR: &'static str =
    "I couldn't read your command :cry:\nValid priority weights are `HIGH` and `LOW`.\nEx: `add-films HIGH 1 film1, film2, film3`";

/// A message to post: the channel, the text, and the thread to reply in.
#[derive(Debug, PartialEq, Eq)]
pub struct Response {
    pub channel: String,
    pub text: String,
    pub thread_ts: Option<String>,
}

impl Response {
    pub fn new(channel: String, text: String, thread_ts: Option<String>) -> (response: Response)
        ensures
            response == (Response { channel, text, thread_ts }),
    {
        Response { channel, text, thread_ts }
    }
}

/// What the bot can be told to do.
#[derive(Debug, Clone, Copy, PartialEq, Eq, Structural)]
pub enum Command {
    AddFilms,
    RequestWork,
    DeliverWork,
    Help,
}

/// The command that a word names. The case of ASCII letters does not count.
pub open spec fn command_named(word: Seq<char>) -> Option<Command> {
    if same_text_but_case(word, "addfilms"@) || same_text_but_case(word, "add-films"@)
        || same_text_but_case(word, "addfilm"@) {
        Some(Command::AddFilms)
    } else if same_text_but_case(word, "requestwork"@) || same_text_but_case(
        word,
        "request-work"@,
    ) {
        Some(Command::RequestWork)
    } else if same_text_but_case(word, "deliverwork"@) || same_text_but_case(
        word,
        "deliver-work"@,
    ) {
        Some(Command::DeliverWork)
    } else if same_text_but_case(word, "Help"@) {
        Some(Command::Help)
    } else {
        None
    }
}

impl Command {
    /// Reads a command from its name; an unknown name is a `ParseError`.
    pub fn from_str(word: &str) -> (r: Result<Command, Error>)
        ensures
            r == (match command_named(word@) {
                Some(cmd) => Ok::<Command, Error>(cmd),
                None => Err::<Command, Error>(Error::ParseError),
            }),
    {
        if eq_ignore_ascii_case(word, "addfilms") || eq_ignore_ascii_case(word, "add-films")
            || eq_ignore_ascii_case(word, "addfilm") {
            Ok(Command::AddFilms)
        } else if eq_ignore_ascii_case(word, "requestwork") || eq_ignore_ascii_case(
            word,
            "request-work",
        ) {
            Ok(Command::RequestWork)
        } else if eq_ignore_ascii_case(word, "deliverwork") || eq_ignore_ascii_case(
            word,
            "deliver-work",
        ) {
            Ok(Command::DeliverWork)
        } else if eq_ignore_ascii_case(word, "Help") {
            Ok(Command::Help)
        } else {
            Err(Error::ParseError)
        }
    }
}

/// The text asks for something that could not be read.
pub open spec fn unreadable<T>(r: Result<T, Error>) -> bool {
    r matches Err(Error::InvalidArg(m)) && m@ == CMD_ERR@
}

/// What reading the command of a mention gives: the second word of the
/// text, in upper case, names the command.
pub open spec fn command_read(text: Seq<char>, r: Result<Command, Error>) -> bool {
    let words = whitespace_words(text);
    if words.len() < 2 {
        unreadable(r)
    } else {
        r == (match command_named(uppercase_text(words[1])) {
            Some(cmd) => Ok::<Command, Error>(cmd),
            None => Err::<Command, Error>(Error::ParseError),
        })
    }
}

/// What reading the films of an `add-films` mention gives.
///
/// The words after the command are the priority, the group and the film
/// names, which are separated by commas. With fewer than three words after
/// the command the text is unreadable; a priority that is none is an
/// invalid argument; a group that is no number counts as 0. Every name is
/// trimmed and becomes a blank film of that priority and group.
pub open spec fn films_read(text: Seq<char>, r: Result<Vec<Film>, Error>) -> bool {
    let words = whitespace_words(text);
    if words.len() < 5 {
        unreadable(r)
    } else {
        let names = split_text(joined_text(words.skip(4), " "@), ',');
        let group = match parsed_i32(words[3]) {
            Some(n) => n,
            None => 0i32,
        };
        match Priority::named(uppercase_text(words[2])) {
            None => r matches Err(Error::InvalidArg(m)) && m@ == PRI_ERR@,
            Some(p) => {
                &&& r matches Ok(films)
                &&& films@.len() == names.len()
                &&& forall|k: int|
                    0 <= k < names.len() ==> {
                        &&& (#[trigger] films@[k]).name@ == trimmed_text(names[k])
                        &&& films@[k].priority == p
                        &&& films@[k].group_number == group
                        &&& films@[k].is_blank()
                    }
            },
        }
    }
}

/// Reads the films of an `add-films` mention; see `films_read`.
pub fn parse_add_films(text: &str) -> (r: Result<Vec<Film>, Error>)
    ensures
        films_read(text@, r),
{
    let words = split_words(text);
    if words.len() < 5 {
        return Err(Error::InvalidArg(String::from_str(CMD_ERR)));
    }
    let priority = match Priority::from_str(to_uppercase(words[2].as_str()).as_str()) {
        Ok(p) => p,
        Err(_) => {
            return Err(Error::InvalidArg(String::from_str(PRI_ERR)));
        },
    };
    let group = match parse_i32(words[3].as_str()) {
        Some(n) => n,
        None => 0,
    };
    let mut rest: Vec<String> = Vec::new();
    let mut i: usize = 4;
    while i < words.len()
        invariant
            4 <= i <= words@.len(),
            texts(rest@) == texts(words@).subrange(4, i as int),
        decreases words@.len() - i,
    {
        let ghost before = rest@;
        rest.push(words[i].clone());
        assert(texts(rest@) =~= texts(before).push(words@[i as int]@));
        assert(texts(words@).subrange(4, i + 1) =~= texts(words@).subrange(4, i as int).push(
            words@[i as int]@,
        ));
        i += 1;
    }
    assert(texts(words@).subrange(4, i as int) =~= texts(words@).skip(4));
    let names = split_at_char(join_with(&rest, " ").as_str(), ',');
    let mut films: Vec<Film> = Vec::new();
    let mut k: usize = 0;
    while k < names.len()
        invariant
            k <= names@.len(),
            films@.len() == k,
            forall|j: int|
                0 <= j < k ==> {
                    &&& (#[trigger] films@[j]).name@ == trimmed_text(texts(names@)[j])
                    &&& films@[j].priority == priority
                    &&& films@[j].group_number == group
                    &&& films@[j].is_blank()
                },
        decreases names@.len() - k,
    {
        let name = trim(names[k].as_str());
        films.push(Film::new(name.as_str(), priority, group));
        k += 1;
    }
    Ok(films)
}

/// A mention of the bot: the text, its time stamp, the channel and the
/// user who wrote it.
#[derive(Debug)]
pub struct AppMention {
    pub text: String,
    pub ts: String,
    pub channel: String,
    pub user: String,
}

/// What is to be posted after an event: the answer, and the notices for
/// the waiters who got a job.
#[derive(Debug)]
pub struct Posts {
    pub response: Response,
    pub notices: Vec<Response>,
}

/// Nothing happened but an answer: `msg` is the text, no one is notified
/// and the engine is as before.
pub open spec fn only_said(
    msg: Seq<char>,
    pre: EngineView,
    out: Delivery,
    post: EngineView,
) -> bool {
    out.reply@ == msg && out.notices@.len() == 0 && post == pre
}

/// What running a command of a mention does: `out` is what comes back and
/// `post` the engine afterwards.
pub open spec fn command_run(
    mention: AppMention,
    cmd: Command,
    pre: EngineView,
    out: Delivery,
    post: EngineView,
) -> bool {
    match cmd {
        Command::Help => only_said(HELP@, pre, out, post),
        Command::RequestWork => out.notices@.len() == 0 && exists|
            fresh: Fresh,
            outcome: Result<Option<QueueItem>, Error>,
        | #[trigger]
            work_requested(pre, mention.user@, mention.ts@, mention.channel@, fresh, outcome, post)
                && out.reply@ == reply_text(mention.user@, outcome),
        Command::DeliverWork => exists|fresh: Fresh| #[trigger]
            work_delivered(pre, mention.user@, fresh, out, post),
        Command::AddFilms => out.notices@.len() == 0 && exists|read: Result<Vec<Film>, Error>|
            #[trigger] films_read(mention.text@, read) && (match read {
                Err(e) => out.reply@ == e.text() && post == pre,
                Ok(films) => films_added(pre, films@, out.reply@, post),
            }),
    }
}

/// What a mention does: `out` is what comes back and `post` the engine
/// afterwards.
///
/// A mention without a second word is greeted. A second word that names no
/// command is answered with the error. Otherwise the command is run.
pub open spec fn mention_run(
    mention: AppMention,
    pre: EngineView,
    out: Delivery,
    post: EngineView,
) -> bool {
    let words = whitespace_words(mention.text@);
    if words.len() < 2 {
        only_said(HELLO@, pre, out, post)
    } else {
        match command_named(uppercase_text(words[1])) {
            None => only_said(Error::ParseError.text(), pre, out, post),
            Some(cmd) => command_run(mention, cmd, pre, out, post),
        }
    }
}

impl AppMention {
    pub fn new(text: String, ts: String, channel: String, user: String) -> (mention: AppMention)
        ensures
            mention == (AppMention { text, ts, channel, user }),
    {
        AppMention { text, ts, channel, user }
    }

    /// The mention that an event is. Any other event is `Unreachable`.
    pub fn from_event(event: Event) -> (r: Result<AppMention, Error>)
        ensures
            match event {
                Event::AppMention { user, text, ts, channel, event_ts } => r == Ok::<
                    AppMention,
                    Error,
                >(AppMention { text, ts, channel, user }),
                Event::Message { .. } => r == Err::<AppMention, Error>(Error::Unreachable),
            },
    {
        match event {
            Event::AppMention { user, text, ts, channel, event_ts } => Ok(
                AppMention { text, ts, channel, user },
            ),
            Event::Message { .. } => Err(Error::Unreachable),
        }
    }

    /// Reads the command of the mention: the second word of the text. The
    /// text has the form "<USER_ID> COMMAND MESSAGE".
    pub fn parse_command(&self) -> (r: Result<Command, Error>)
        ensures
            command_read(self.text@, r),
    {
        let words = split_words(self.text.as_str());
        if words.len() < 2 {
            return Err(Error::InvalidArg(String::from_str(CMD_ERR)));
        }
        let cmd = to_uppercase(words[1].as_str());
        Command::from_str(cmd.as_str())
    }

    /// Runs a command of the mention; see `command_run`.
    pub fn run_command(&self, cmd: Command, manager: &mut Manager) -> (out: Delivery)
        requires
            old(manager).state@.wf(),
        ensures
            final(manager).state@.wf(),
            command_run(*self, cmd, old(manager).state@, out, final(manager).state@),
            old(manager).state@.in_sync() ==> final(manager).state@.in_sync(),
            old(manager).state@.db.roles_consistent()
                ==> final(manager).state@.db.roles_consistent(),
    {
        match cmd {
            Command::AddFilms => {
                let read = parse_add_films(self.text.as_str());
                let reply = match read {
                    Ok(films) => {
                        let ghost given = films;
                        let reply = manager.insert_films(films);
                        proof {
                            assert(films_read(self.text@, Ok::<Vec<Film>, Error>(given)));
                        }
                        reply
                    },
                    Err(e) => {
                        let reply = e.message();
                        proof {
                            assert(films_read(self.text@, Err::<Vec<Film>, Error>(e)));
                        }
                        reply
                    },
                };
                Delivery { reply, notices: Vec::new() }
            },
            Command::Help => Delivery { reply: String::from_str(HELP), notices: Vec::new() },
            Command::RequestWork => {
                let reply = manager.request_work(
                    self.user.as_str(),
                    self.ts.as_str(),
                    self.channel.as_str(),
                );
                Delivery { reply, notices: Vec::new() }
            },
            Command::DeliverWork => manager.deliver_work(self.user.as_str()),
        }
    }

    /// Reads the mention and runs what it asks for; see `mention_run`.
    pub fn run_event(&self, manager: &mut Manager) -> (out: Delivery)
        requires
            old(manager).state@.wf(),
        ensures
            final(manager).state@.wf(),
            mention_run(*self, old(manager).state@, out, final(manager).state@),
            old(manager).state@.in_sync() ==> final(manager).state@.in_sync(),
            old(manager).state@.db.roles_consistent()
                ==> final(manager).state@.db.roles_consistent(),
    {
        let cmd = match self.parse_command() {
            Ok(cmd) => cmd,
            Err(Error::InvalidArg(_)) => {
                return Delivery { reply: String::from_str(HELLO), notices: Vec::new() };
            },
            Err(e) => {
                return Delivery { reply: e.message(), notices: Vec::new() };
            },
        };
        self.run_command(cmd, manager)
    }

    /// Handles the mention: runs it and addresses the answer to the channel
    /// and the thread of the mention.
    pub fn handle_event(&self, manager: &mut Manager) -> (posts: Posts)
        requires
            old(manager).state@.wf(),
        ensures
            final(manager).state@.wf(),
            posts.response.channel == self.channel,
            posts.response.thread_ts == Some(self.ts),
            exists|out: Delivery| #[trigger]
                mention_run(*self, old(manager).state@, out, final(manager).state@)
                    && posts.response.text == out.reply && posts.notices == out.notices,
            old(manager).state@.in_sync() ==> final(manager).state@.in_sync(),
            old(manager).state@.db.roles_consistent()
                ==> final(manager).state@.db.roles_consistent(),
    {
        let out = self.run_event(manager);
        let ghost seen = out;
        let response = Response::new(self.channel.clone(), out.reply, Some(self.ts.clone()));
        let posts = Posts { response, notices: out.notices };
        assert(mention_run(*self, old(manager).state@, seen, manager.state@)
            && posts.response.text == seen.reply && posts.notices == seen.notices);
        posts
    }
}

} // verus!
