//! The menu session: which line it waits for, and what each line does.
use crate::list::{
    add_result, after_add, after_delete, delete_result, listing_of, valid_items, AddError,
    DeleteError, Listing, ListingView, TodoList,
};
use crate::text::{chars_of, text_of, trim, trimmed};
use vstd::prelude::*;

verus! {

/// A command of the menu.
#[derive(Clone, Copy, Debug, PartialEq, Eq)]
pub enum Command {
    /// `1`: add an item.
    Add,
    /// `2`: show the list.
    List,
    /// `3`: delete an item.
    Delete,
    /// `4`: end the session.
    Quit,
}

/// The command that the line `line` gives: its text without the white space
/// that surrounds it is exactly `1`, `2`, `3` or `4`, or it is no command.
pub open spec fn command_of(line: Seq<char>) -> Option<Command> {
    let text = trimmed(line);
    if text == seq!['1'] {
        Some(Command::Add)
    } else if text == seq!['2'] {
        Some(Command::List)
    } else if text == seq!['3'] {
        Some(Command::Delete)
    } else if text == seq!['4'] {
        Some(Command::Quit)
    } else {
        None
    }
}

/// Reads `line` as a command of the menu.
pub fn parse_command(line: &str) -> (c: Option<Command>)
    ensures
        c == command_of(line@),
{
    let chars = chars_of(trim(line));
    if chars.len() != 1 {
        return None;
    }
    assert(chars@ =~= seq![chars@[0]]);
    let c = chars[0];
    if c == '1' {
        Some(Command::Add)
    } else if c == '2' {
        Some(Command::List)
    } else if c == '3' {
        Some(Command::Delete)
    } else if c == '4' {
        Some(Command::Quit)
    } else {
        assert(seq!['1'][0] == '1');
        assert(seq!['2'][0] == '2');
        assert(seq!['3'][0] == '3');
        assert(seq!['4'][0] == '4');
        None
    }
}

/// What the session waits for.
#[derive(Clone, Copy, Debug, PartialEq, Eq)]
pub enum Phase {
    /// A command of the menu.
    AwaitingCommand,
    /// The text of the item to add.
    AwaitingText,
    /// The number of the item to delete.
    AwaitingNumber,
    /// Nothing: the session has ended.
    Terminated,
}

/// What the session answers to a line.
#[derive(Debug, PartialEq, Eq)]
pub enum Reply {
    /// The next line is taken as the text of a new item.
    AskText,
    /// What adding the line answered.
    Added(Result<String, AddError>),
    /// The list.
    Shown(Listing),
    /// The list; the next line is taken as the number of the item to delete.
    AskNumber(Listing),
    /// What deleting by the line answered.
    Deleted(Result<String, DeleteError>),
    /// The session has ended.
    Farewell,
    /// The line is no command of the menu.
    UnknownCommand,
}

/// A `Reply` with each text as its characters.
pub enum ReplyView {
    AskText,
    Added(Result<Seq<char>, AddError>),
    Shown(ListingView),
    AskNumber(ListingView),
    Deleted(Result<Seq<char>, DeleteError>),
    Farewell,
    UnknownCommand,
}

impl View for Reply {
    type V = ReplyView;

    open spec fn view(&self) -> ReplyView {
        match self {
            Reply::AskText => ReplyView::AskText,
            Reply::Added(r) => ReplyView::Added(text_of(*r)),
            Reply::Shown(l) => ReplyView::Shown(l@),
            Reply::AskNumber(l) => ReplyView::AskNumber(l@),
            Reply::Deleted(r) => ReplyView::Deleted(text_of(*r)),
            Reply::Farewell => ReplyView::Farewell,
            Reply::UnknownCommand => ReplyView::UnknownCommand,
        }
    }
}

/// A session as a value: what it waits for, and the items of its list.
pub struct SessionView {
    pub phase: Phase,
    pub items: Seq<Seq<char>>,
}

/// What one line does: the session after it, and the answer.
pub struct Step {
    pub next: SessionView,
    pub reply: ReplyView,
}

/// What holds of every session: each item of its list holds at least one
/// character, and it asks for the number of an item only while there is one.
pub open spec fn valid_session(s: SessionView) -> bool {
    &&& valid_items(s.items)
    &&& s.phase == Phase::AwaitingNumber ==> s.items.len() > 0
}

/// What the line `line` does to the session `s`.
pub open spec fn step_of(s: SessionView, line: Seq<char>) -> Step {
    match s.phase {
        Phase::AwaitingCommand => match command_of(line) {
            Some(Command::Add) => Step {
                next: SessionView { phase: Phase::AwaitingText, items: s.items },
                reply: ReplyView::AskText,
            },
            Some(Command::List) => Step { next: s, reply: ReplyView::Shown(listing_of(s.items)) },
            Some(Command::Delete) => if s.items.len() == 0 {
                Step { next: s, reply: ReplyView::Deleted(Err(DeleteError::EmptyList)) }
            } else {
                Step {
                    next: SessionView { phase: Phase::AwaitingNumber, items: s.items },
                    reply: ReplyView::AskNumber(listing_of(s.items)),
                }
            },
            Some(Command::Quit) => Step {
                next: SessionView { phase: Phase::Terminated, items: s.items },
                reply: ReplyView::Farewell,
            },
            None => Step { next: s, reply: ReplyView::UnknownCommand },
        },
        Phase::AwaitingText => Step {
            next: SessionView { phase: Phase::AwaitingCommand, items: after_add(s.items, line) },
            reply: ReplyView::Added(add_result(line)),
        },
        Phase::AwaitingNumber => Step {
            next: SessionView {
                phase: Phase::AwaitingCommand,
                items: after_delete(s.items, line),
            },
            reply: ReplyView::Deleted(delete_result(s.items, line)),
        },
        Phase::Terminated => Step { next: s, reply: ReplyView::Farewell },
    }
}

/// A to-do list behind its menu. It takes the lines that the user enters,
/// one at a time, and answers each.
pub struct Session {
    list: TodoList,
    phase: Phase,
}

impl View for Session {
    type V = SessionView;

    closed spec fn view(&self) -> SessionView {
        SessionView { phase: self.phase, items: self.list@ }
    }
}

impl Session {
    /// Holds of every session.
    #[verifier::type_invariant]
    pub open spec fn well_formed(&self) -> bool {
        valid_session(self@)
    }

    /// A session with an empty list, waiting for a command.
    pub fn new() -> (session: Session)
        ensures
            session@ == (SessionView {
                phase: Phase::AwaitingCommand,
                items: Seq::<Seq<char>>::empty(),
            }),
    {
        Session { list: TodoList::new(), phase: Phase::AwaitingCommand }
    }

    /// What the session waits for.
    pub fn phase(&self) -> (phase: Phase)
        ensures
            phase == self@.phase,
    {
        self.phase
    }

    /// Whether the session has ended.
    pub fn is_terminated(&self) -> (b: bool)
        ensures
            b == (self@.phase == Phase::Terminated),
    {
        match self.phase {
            Phase::Terminated => true,
            _ => false,
        }
    }

    /// The list of the session.
    pub fn list(&self) -> (list: &TodoList)
        ensures
            list@ == self@.items,
    {
        &self.list
    }

    /// Takes one line of input and answers it.
    pub fn step(&mut self, line: &str) -> (reply: Reply)
        ensures
            final(self)@ == step_of(old(self)@, line@).next,
            reply@ == step_of(old(self)@, line@).reply,
    {
        proof {
            use_type_invariant(&*self);
        }
        match self.phase {
            Phase::AwaitingCommand => match parse_command(line) {
                Some(Command::Add) => {
                    self.phase = Phase::AwaitingText;
                    Reply::AskText
                },
                Some(Command::List) => Reply::Shown(self.list.show_todo()),
                Some(Command::Delete) => {
                    if self.list.is_empty() {
                        Reply::Deleted(Err(DeleteError::EmptyList))
                    } else {
                        self.phase = Phase::AwaitingNumber;
                        Reply::AskNumber(self.list.show_todo())
                    }
                },
                Some(Command::Quit) => {
                    self.phase = Phase::Terminated;
                    Reply::Farewell
                },
                None => Reply::UnknownCommand,
            },
            Phase::AwaitingText => {
                self.phase = Phase::AwaitingCommand;
                let mut list = TodoList::new();
                std::mem::swap(&mut list, &mut self.list);
                let added = list.add_todo(line);
                self.list = list;
                Reply::Added(added)
            },
            Phase::AwaitingNumber => {
                self.phase = Phase::AwaitingCommand;
                let mut list = TodoList::new();
                std::mem::swap(&mut list, &mut self.list);
                let deleted = list.delete_todo(line);
                self.list = list;
                Reply::Deleted(deleted)
            },
            Phase::Terminated => Reply::Farewell,
        }
    }
}

} // verus!
