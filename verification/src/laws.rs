//! What holds of the list and of the session, whatever the lines are.
use crate::list::{
    add_result, after_add, after_delete, delete_result, listing_of, valid_items, AddError,
    DeleteError, ListingView,
};
use crate::number::{
    decimal_text, is_digit, is_numeral, lemma_decimal_text, lemma_parse_decimal_text, parsed,
    unsigned_part,
};
use crate::session::{command_of, step_of, valid_session, Phase, ReplyView, SessionView};
use crate::text::{
    is_blank, is_space, lemma_blank_trims_to_nothing, lemma_trimmed_fixed, lemma_trimmed_keeps,
    trimmed,
};
use vstd::prelude::*;

verus! {

/// The numeral for `n` has no white space around it: trimming leaves it as
/// it is.
pub proof fn lemma_numeral_is_trimmed(n: nat)
    ensures
        trimmed(decimal_text(n)) == decimal_text(n),
{
    lemma_decimal_text(n);
    let s = decimal_text(n);
    assert(is_digit(s.first()));
    assert(is_digit(s.last()));
    lemma_trimmed_fixed(s);
}

/// A line that holds a character which is neither a digit, nor a plus sign,
/// nor white space is no numeral, with or without the white space around it.
pub proof fn lemma_stray_character(line: Seq<char>, i: int)
    requires
        0 <= i < line.len(),
        !is_digit(line[i]),
        !is_space(line[i]),
        line[i] != '+',
    ensures
        !is_numeral(trimmed(line)),
        parsed(trimmed(line)) is None,
{
    lemma_trimmed_keeps(line, i);
    let text = trimmed(line);
    let j: int = choose|j: int| 0 <= j < text.len() && text[j] == line[i];
    let digits = unsigned_part(text);
    if digits.len() == text.len() {
        assert(!is_digit(digits[j]));
    } else {
        assert(!is_digit(digits[j - 1]));
    }
}

/// Adding is refused exactly for the blank lines: the empty line and the
/// lines of nothing but white space. A refused line leaves the list as it
/// was.
pub proof fn law_add_refuses_blank(items: Seq<Seq<char>>, line: Seq<char>)
    ensures
        is_blank(line) <==> add_result(line) == Err::<Seq<char>, AddError>(AddError::EmptyText),
        is_blank(line) <==> add_result(line) is Err,
        is_blank(line) ==> after_add(items, line) == items,
{
    lemma_blank_trims_to_nothing(line);
}

/// A line that is not blank is added: the list grows by exactly one item, the
/// last, which is the line without the white space around it; the items
/// before it stay.
pub proof fn law_add_appends(items: Seq<Seq<char>>, line: Seq<char>)
    requires
        !is_blank(line),
    ensures
        add_result(line) == Ok::<Seq<char>, AddError>(trimmed(line)),
        after_add(items, line).len() == items.len() + 1,
        after_add(items, line).last() == trimmed(line),
        after_add(items, line).drop_last() == items,
{
    lemma_blank_trims_to_nothing(line);
    assert(items.push(trimmed(line)).drop_last() =~= items);
}

/// On a list that is not empty, deleting by `0` or by the number after the
/// last item's deletes nothing and answers that there is no such item. The
/// second holds as long as that number fits a machine word; where it does
/// not, the line is no number.
pub proof fn law_delete_refuses_just_out_of_range(items: Seq<Seq<char>>)
    requires
        items.len() > 0,
    ensures
        delete_result(items, seq!['0']) == Err::<Seq<char>, DeleteError>(DeleteError::OutOfRange),
        after_delete(items, seq!['0']) == items,
        items.len() < usize::MAX ==> delete_result(items, decimal_text(items.len() + 1)) == Err::<
            Seq<char>,
            DeleteError,
        >(DeleteError::OutOfRange),
        items.len() >= usize::MAX ==> delete_result(items, decimal_text(items.len() + 1)) == Err::<
            Seq<char>,
            DeleteError,
        >(DeleteError::NotANumber),
        after_delete(items, decimal_text(items.len() + 1)) == items,
{
    assert(decimal_text(0) =~= seq!['0']);
    lemma_numeral_is_trimmed(0);
    lemma_parse_decimal_text(0);
    lemma_numeral_is_trimmed(items.len() + 1);
    lemma_parse_decimal_text(items.len() + 1);
}

/// On a list that is not empty, deleting by the numeral of a number that is
/// the number of no item deletes nothing and answers that there is no such
/// item.
pub proof fn law_delete_refuses_out_of_range(items: Seq<Seq<char>>, n: nat)
    requires
        items.len() > 0,
        n == 0 || n > items.len(),
        n <= usize::MAX,
    ensures
        delete_result(items, decimal_text(n)) == Err::<Seq<char>, DeleteError>(
            DeleteError::OutOfRange,
        ),
        after_delete(items, decimal_text(n)) == items,
{
    lemma_numeral_is_trimmed(n);
    lemma_parse_decimal_text(n);
}

/// On a list that is not empty, deleting by a line that is no numeral
/// deletes nothing and answers that the line is no number.
pub proof fn law_delete_refuses_no_numeral(items: Seq<Seq<char>>, line: Seq<char>)
    requires
        items.len() > 0,
        !is_numeral(trimmed(line)),
    ensures
        delete_result(items, line) == Err::<Seq<char>, DeleteError>(DeleteError::NotANumber),
        after_delete(items, line) == items,
{
}

/// On a list that is not empty, deleting by a line that holds a character
/// which is neither a digit, nor a plus sign, nor white space (a letter,
/// say) deletes nothing and answers that the line is no number.
pub proof fn law_delete_refuses_stray_character(items: Seq<Seq<char>>, line: Seq<char>, i: int)
    requires
        items.len() > 0,
        0 <= i < line.len(),
        !is_digit(line[i]),
        !is_space(line[i]),
        line[i] != '+',
    ensures
        delete_result(items, line) == Err::<Seq<char>, DeleteError>(DeleteError::NotANumber),
        after_delete(items, line) == items,
{
    lemma_stray_character(line, i);
}

/// Deleting by the numeral of `k`, the number of an item, removes exactly
/// that item, the one at position `k - 1`, and answers with it: the items
/// before it stay where they were, each item after it moves one position
/// down, and the list is one item shorter.
pub proof fn law_delete_removes_one(items: Seq<Seq<char>>, k: nat)
    requires
        items.len() <= usize::MAX,
        1 <= k <= items.len(),
    ensures
        delete_result(items, decimal_text(k)) == Ok::<Seq<char>, DeleteError>(items[k - 1]),
        after_delete(items, decimal_text(k)).len() == items.len() - 1,
        forall|i: int|
            0 <= i < k - 1 ==> #[trigger] after_delete(items, decimal_text(k))[i] == items[i],
        forall|i: int|
            k - 1 <= i < items.len() - 1 ==> #[trigger] after_delete(items, decimal_text(k))[i]
                == items[i + 1],
{
    lemma_numeral_is_trimmed(k);
    lemma_parse_decimal_text(k);
}

/// A deletion that answers with a reason deletes nothing; one that answers
/// with an item makes the list exactly one item shorter.
pub proof fn law_refused_delete_changes_nothing(items: Seq<Seq<char>>, line: Seq<char>)
    ensures
        delete_result(items, line) is Err ==> after_delete(items, line) == items,
        delete_result(items, line) is Ok ==> after_delete(items, line).len() == items.len() - 1,
{
}

/// Adding a line and then deleting the item with the last number gives the
/// list back as it was, and the deletion answers with the text that was
/// added.
pub proof fn law_add_then_delete(items: Seq<Seq<char>>, line: Seq<char>)
    requires
        items.len() < usize::MAX,
        !is_blank(line),
    ensures
        delete_result(after_add(items, line), decimal_text(items.len() + 1)) == Ok::<
            Seq<char>,
            DeleteError,
        >(trimmed(line)),
        after_delete(after_add(items, line), decimal_text(items.len() + 1)) == items,
{
    lemma_blank_trims_to_nothing(line);
    lemma_numeral_is_trimmed(items.len() + 1);
    lemma_parse_decimal_text(items.len() + 1);
    let added = after_add(items, line);
    assert(added.remove(items.len() as int) =~= items);
}

/// Adding a line to the empty list and then deleting by `1` leaves the empty
/// list, which shows no items.
pub proof fn law_add_then_delete_only_item(line: Seq<char>)
    ensures
        after_delete(after_add(Seq::empty(), line), seq!['1']) == Seq::<Seq<char>>::empty(),
        listing_of(after_delete(after_add(Seq::empty(), line), seq!['1'])) == ListingView::NoItems,
        !is_blank(line) ==> delete_result(after_add(Seq::empty(), line), seq!['1']) == Ok::<
            Seq<char>,
            DeleteError,
        >(trimmed(line)),
{
    assert(decimal_text(1) =~= seq!['1']);
    lemma_blank_trims_to_nothing(line);
    if !is_blank(line) {
        law_add_then_delete(Seq::empty(), line);
    }
}

/// Every item of a list holds at least one character: adding and deleting
/// keep it so.
pub proof fn law_items_stay_valid(items: Seq<Seq<char>>, line: Seq<char>)
    requires
        valid_items(items),
    ensures
        valid_items(after_add(items, line)),
        valid_items(after_delete(items, line)),
{
}

/// A line that is none of the four commands, entered where a command is
/// awaited, changes nothing: the list stays as it is, the session goes on
/// waiting for a command, and the answer says that the line is no command.
pub proof fn law_unknown_command(s: SessionView, line: Seq<char>)
    requires
        s.phase == Phase::AwaitingCommand,
        trimmed(line) != seq!['1'],
        trimmed(line) != seq!['2'],
        trimmed(line) != seq!['3'],
        trimmed(line) != seq!['4'],
    ensures
        command_of(line) is None,
        step_of(s, line).next == s,
        step_of(s, line).reply == ReplyView::UnknownCommand,
{
}

/// A line changes the list only where a text or a number is awaited; a
/// command never does.
pub proof fn law_commands_keep_the_list(s: SessionView, line: Seq<char>)
    requires
        s.phase == Phase::AwaitingCommand || s.phase == Phase::Terminated,
    ensures
        step_of(s, line).next.items == s.items,
{
}

/// A session that has ended stays ended, and its list stays as it is.
pub proof fn law_terminated_stays(s: SessionView, line: Seq<char>)
    requires
        s.phase == Phase::Terminated,
    ensures
        step_of(s, line).next == s,
        step_of(s, line).reply == ReplyView::Farewell,
{
}

/// A session ends on the command `4` alone.
pub proof fn law_only_quit_terminates(s: SessionView, line: Seq<char>)
    requires
        s.phase != Phase::Terminated,
    ensures
        step_of(s, line).next.phase == Phase::Terminated <==> s.phase == Phase::AwaitingCommand
            && trimmed(line) == seq!['4'],
{
    assert(seq!['1'][0] != seq!['4'][0]);
    assert(seq!['2'][0] != seq!['4'][0]);
    assert(seq!['3'][0] != seq!['4'][0]);
}

/// In a session every item holds at least one character, and the number of
/// an item is asked for only while the list holds one: each line keeps it
/// so.
pub proof fn law_session_stays_valid(s: SessionView, line: Seq<char>)
    requires
        valid_session(s),
    ensures
        valid_session(step_of(s, line).next),
{
}

} // verus!
