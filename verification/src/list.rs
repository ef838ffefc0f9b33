//! The list of to-do items and its three operations.
use crate::number::{decimal, decimal_text, parse_number, parsed};
use crate::text::{text_of, texts_of, trim, trimmed};
use vstd::prelude::*;

verus! {

/// Why nothing was added.
#[derive(Clone, Copy, Debug, PartialEq, Eq)]
pub enum AddError {
    /// The line held nothing but white space.
    EmptyText,
}

/// Why nothing was deleted.
#[derive(Clone, Copy, Debug, PartialEq, Eq)]
pub enum DeleteError {
    /// The list holds no item.
    EmptyList,
    /// The line is not a numeral that fits a machine word.
    NotANumber,
    /// The list has no item of that number.
    OutOfRange,
}

/// What the list shows.
#[derive(Debug, PartialEq, Eq)]
pub enum Listing {
    /// The list holds no item.
    NoItems,
    /// One numbered line for each item, in the order of the list.
    Items(Vec<String>),
}

/// A `Listing` with each line as its characters.
pub enum ListingView {
    NoItems,
    Items(Seq<Seq<char>>),
}

impl View for Listing {
    type V = ListingView;

    open spec fn view(&self) -> ListingView {
        match self {
            Listing::NoItems => ListingView::NoItems,
            Listing::Items(lines) => ListingView::Items(texts_of(lines@)),
        }
    }
}

/// Every item holds at least one character.
pub open spec fn valid_items(items: Seq<Seq<char>>) -> bool {
    forall|i: int| 0 <= i < items.len() ==> (#[trigger] items[i]).len() > 0
}

/// What adding the line `line` answers: the text that becomes an item, or why
/// there is none.
pub open spec fn add_result(line: Seq<char>) -> Result<Seq<char>, AddError> {
    if trimmed(line).len() == 0 {
        Err(AddError::EmptyText)
    } else {
        Ok(trimmed(line))
    }
}

/// The items after adding the line `line` to `items`.
pub open spec fn after_add(items: Seq<Seq<char>>, line: Seq<char>) -> Seq<Seq<char>> {
    match add_result(line) {
        Ok(text) => items.push(text),
        Err(_) => items,
    }
}

/// The line that shows the item `item` at position `i`, counted from 0: its
/// number, which is `i + 1`, a full stop, a blank, and the item.
pub open spec fn numbered_line(i: nat, item: Seq<char>) -> Seq<char> {
    decimal_text(i + 1) + seq!['.', ' '] + item
}

/// The lines that show `items`, one for each and in their order.
pub open spec fn numbered(items: Seq<Seq<char>>) -> Seq<Seq<char>> {
    Seq::new(items.len(), |i: int| numbered_line(i as nat, items[i]))
}

/// What `items` show.
pub open spec fn listing_of(items: Seq<Seq<char>>) -> ListingView {
    if items.len() == 0 {
        ListingView::NoItems
    } else {
        ListingView::Items(numbered(items))
    }
}

/// The position, counted from 0, of the item that the line `line` asks to
/// delete from `items`, or why there is none. The line is read without the
/// white space that surrounds it, as a number: the first item has the
/// number 1.
pub open spec fn delete_position(items: Seq<Seq<char>>, line: Seq<char>) -> Result<
    int,
    DeleteError,
> {
    if items.len() == 0 {
        Err(DeleteError::EmptyList)
    } else {
        match parsed(trimmed(line)) {
            None => Err(DeleteError::NotANumber),
            Some(n) => if 1 <= n <= items.len() {
                Ok(n - 1)
            } else {
                Err(DeleteError::OutOfRange)
            },
        }
    }
}

/// What deleting by the line `line` answers on `items`: the item that
/// leaves, or why none does.
pub open spec fn delete_result(items: Seq<Seq<char>>, line: Seq<char>) -> Result<
    Seq<char>,
    DeleteError,
> {
    match delete_position(items, line) {
        Ok(position) => Ok(items[position]),
        Err(e) => Err(e),
    }
}

/// The items after deleting by the line `line` from `items`.
pub open spec fn after_delete(items: Seq<Seq<char>>, line: Seq<char>) -> Seq<Seq<char>> {
    match delete_position(items, line) {
        Ok(position) => items.remove(position),
        Err(_) => items,
    }
}

/// An ordered list of to-do items. Each item is a text of at least one
/// character; the same text may occur more than once.
pub struct TodoList {
    items: Vec<String>,
}

impl View for TodoList {
    type V = Seq<Seq<char>>;

    closed spec fn view(&self) -> Seq<Seq<char>> {
        texts_of(self.items@)
    }
}

impl TodoList {
    /// Holds of every list.
    #[verifier::type_invariant]
    pub open spec fn well_formed(&self) -> bool {
        valid_items(self@)
    }

    /// The empty list.
    pub fn new() -> (list: TodoList)
        ensures
            list@ == Seq::<Seq<char>>::empty(),
    {
        let list = TodoList { items: Vec::new() };
        assert(list@ =~= Seq::<Seq<char>>::empty());
        list
    }

    /// The number of items.
    pub fn len(&self) -> (n: usize)
        ensures
            n == self@.len(),
    {
        self.items.len()
    }

    /// Whether the list holds no item.
    pub fn is_empty(&self) -> (b: bool)
        ensures
            b == (self@.len() == 0),
    {
        self.items.len() == 0
    }

    /// The item at position `i`, counted from 0, if there is one.
    pub fn get(&self, i: usize) -> (item: Option<&str>)
        ensures
            match item {
                Some(text) => i < self@.len() && text@ == self@[i as int],
                None => i >= self@.len(),
            },
    {
        if i < self.items.len() {
            Some(self.items[i].as_str())
        } else {
            None
        }
    }

    /// Adds the text of `line`, without the white space that surrounds it, as
    /// the last item, and hands that text back. A line of nothing but white
    /// space adds nothing.
    pub fn add_todo(&mut self, line: &str) -> (r: Result<String, AddError>)
        ensures
            final(self)@ == after_add(old(self)@, line@),
            text_of(r) == add_result(line@),
    {
        proof {
            use_type_invariant(&*self);
        }
        let text = trim(line);
        if text.is_empty() {
            return Err(AddError::EmptyText);
        }
        let item = text.to_owned();
        let echo = item.clone();
        // The items leave the list while they change, so that the list is
        // well formed at every step.
        let mut items: Vec<String> = Vec::new();
        std::mem::swap(&mut items, &mut self.items);
        items.push(item);
        assert(texts_of(items@) =~= old(self)@.push(text@));
        self.items = items;
        Ok(echo)
    }

    /// Shows the list: each item on a line of its own behind its number,
    /// where the first item has the number 1.
    pub fn show_todo(&self) -> (shown: Listing)
        ensures
            shown@ == listing_of(self@),
    {
        let n: usize = self.items.len();
        if n == 0 {
            return Listing::NoItems;
        }
        let mut lines: Vec<String> = Vec::new();
        let mut i: usize = 0;
        while i < n
            invariant
                i <= n,
                n == self.items.len(),
                lines.len() == i,
                forall|j: int|
                    0 <= j < i ==> (#[trigger] lines@[j])@ == numbered_line(j as nat, self@[j]),
            decreases n - i,
        {
            let mut line = decimal(i + 1);
            proof {
                reveal_strlit(". ");
            }
            line.append(". ");
            line.append(self.items[i].as_str());
            assert(line@ =~= numbered_line(i as nat, self@[i as int]));
            lines.push(line);
            i += 1;
        }
        assert(texts_of(lines@) =~= numbered(self@));
        Listing::Items(lines)
    }

    /// Deletes the item whose number `line` writes, where the first item has
    /// the number 1, and hands its text back. Nothing is deleted from an
    /// empty list, nor where `line` is no number or the number of no item.
    pub fn delete_todo(&mut self, line: &str) -> (r: Result<String, DeleteError>)
        ensures
            final(self)@ == after_delete(old(self)@, line@),
            text_of(r) == delete_result(old(self)@, line@),
    {
        proof {
            use_type_invariant(&*self);
        }
        if self.items.len() == 0 {
            return Err(DeleteError::EmptyList);
        }
        let number: usize = match parse_number(trim(line)) {
            Some(n) => n,
            None => {
                return Err(DeleteError::NotANumber);
            },
        };
        // The number 0 has no position before it: it is the number of no item.
        let position: usize = match number.checked_sub(1) {
            Some(p) => p,
            None => {
                return Err(DeleteError::OutOfRange);
            },
        };
        if position >= self.items.len() {
            return Err(DeleteError::OutOfRange);
        }
        let mut items: Vec<String> = Vec::new();
        std::mem::swap(&mut items, &mut self.items);
        let removed = items.remove(position);
        assert(texts_of(items@) =~= old(self)@.remove(position as int));
        self.items = items;
        Ok(removed)
    }
}

} // verus!
