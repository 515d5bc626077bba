//! The game played over lines of text: a line names a row and a column, and
//! the reply says what became of the move.

use vstd::prelude::*;
use crate::game::{after_move, move_error, outcome_of, Game, GameView, MoveError, Outcome};

verus! {

/// The words of a line: its pieces between runs of white space, in order, as
/// `str::split_whitespace` of the standard library yields them.
pub uninterp spec fn words_of(line: Seq<char>) -> Seq<Seq<char>>;

/// Whether `c` is one of the digits `0` to `9`.
pub open spec fn is_digit(c: char) -> bool {
    '0' as u32 <= c as u32 <= '9' as u32
}

/// The number that a run of digits spells in base ten.
pub open spec fn decimal_value(digits: Seq<char>) -> nat
    decreases digits.len(),
{
    if digits.len() == 0 {
        0
    } else {
        decimal_value(digits.drop_last()) * 10 + (digits.last() as u32 - '0' as u32) as nat
    }
}

/// A word without the plus sign that may stand at its head.
pub open spec fn unsigned_part(word: Seq<char>) -> Seq<char> {
    if word.len() > 0 && word[0] == '+' {
        word.skip(1)
    } else {
        word
    }
}

/// The number that a word spells: the word is one digit or more, with or
/// without a plus sign before them, and the number fits a `usize`. Any
/// other word spells none.
pub open spec fn number_of(word: Seq<char>) -> Option<usize> {
    let digits = unsigned_part(word);
    if digits.len() > 0 && (forall|i: int| 0 <= i < digits.len() ==> is_digit(#[trigger] digits[i]))
        && decimal_value(digits) <= usize::MAX {
        Some(decimal_value(digits) as usize)
    } else {
        None
    }
}

/// Splits a line by `str::split_whitespace` of the standard library. The
/// result holds the words of the line, in order, each as a string of its own.
#[verifier::external_body]
fn split_words(line: &str) -> (words: Vec<String>)
    ensures
        words@.len() == words_of(line@).len(),
        forall|i: int| 0 <= i < words@.len() ==> (#[trigger] words@[i])@ == words_of(line@)[i],
{
    line.split_whitespace().map(|word| word.to_string()).collect()
}

/// Reads a word as a `usize` by `str::parse` of the standard library, which
/// takes an optional plus sign followed by digits only and fails on anything
/// else, on the empty word and on a number too large: the result is the
/// number that the word spells, or `None` where the parse fails.
#[verifier::external_body]
fn parse_number(word: &str) -> (number: Option<usize>)
    ensures
        number == number_of(word@),
{
    word.parse::<usize>().ok()
}

/// The numbers among `words`, in order; words that spell no number are
/// passed over.
pub open spec fn numbers_in(words: Seq<Seq<char>>) -> Seq<usize>
    decreases words.len(),
{
    if words.len() == 0 {
        Seq::empty()
    } else {
        let earlier = numbers_in(words.drop_last());
        match number_of(words.last()) {
            Some(n) => earlier.push(n),
            None => earlier,
        }
    }
}

/// The move that a list of numbers gives: exactly two numbers, a row and a
/// column, neither above 2.
pub open spec fn move_from(numbers: Seq<usize>) -> Option<(usize, usize)> {
    if numbers.len() == 2 && numbers[0] <= 2 && numbers[1] <= 2 {
        Some((numbers[0], numbers[1]))
    } else {
        None
    }
}

/// What the game answers to a line.
#[derive(Clone, Copy, Debug, PartialEq, Eq, Structural)]
pub enum Reply {
    /// The line does not name a row and a column between 0 and 2.
    Invalid,
    /// The game refused the move.
    Refused(MoveError),
    /// The move was made and the game goes on.
    Continue,
    /// The move won the game for the mark given.
    Won(char),
    /// The move filled the board without a winner.
    Draw,
}

/// The reply owed when the move `mv` is asked of the game `v`.
pub open spec fn reply_to(v: GameView, mv: Option<(usize, usize)>) -> Reply {
    match mv {
        None => Reply::Invalid,
        Some((row, col)) => match move_error(v, row as int, col as int) {
            Some(e) => Reply::Refused(e),
            None => match outcome_of(after_move(v, row as int, col as int).board) {
                Outcome::InProgress => Reply::Continue,
                Outcome::Won(mark) => Reply::Won(mark),
                Outcome::Draw => Reply::Draw,
            },
        },
    }
}

/// The game after the move `mv` was asked of it.
pub open spec fn after_reply(v: GameView, mv: Option<(usize, usize)>) -> GameView {
    match mv {
        None => v,
        Some((row, col)) => after_move(v, row as int, col as int),
    }
}

/// The move that a list of numbers gives, if it gives one.
pub fn move_from_numbers(numbers: &Vec<usize>) -> (mv: Option<(usize, usize)>)
    ensures
        mv == move_from(numbers@),
{
    if numbers.len() != 2 || numbers[0] > 2 || numbers[1] > 2 {
        None
    } else {
        Some((numbers[0], numbers[1]))
    }
}

/// Reads a move from a line: the numbers among its words must be exactly a
/// row and a column, each between 0 and 2.
pub fn parse_move(line: &str) -> (mv: Option<(usize, usize)>)
    ensures
        mv == move_from(numbers_in(words_of(line@))),
{
    let words = split_words(line);
    let mut numbers: Vec<usize> = Vec::new();
    let mut i: usize = 0;
    while i < words.len()
        invariant
            i <= words@.len(),
            words@.len() == words_of(line@).len(),
            forall|k: int| 0 <= k < words@.len() ==> (#[trigger] words@[k])@ == words_of(line@)[k],
            numbers@ == numbers_in(words_of(line@).take(i as int)),
        decreases words@.len() - i,
    {
        proof {
            let all = words_of(line@);
            assert(all.take(i + 1).drop_last() == all.take(i as int));
            assert(all.take(i + 1).last() == all[i as int]);
        }
        match parse_number(words[i].as_str()) {
            Some(n) => numbers.push(n),
            None => {},
        }
        i += 1;
    }
    proof {
        let all = words_of(line@);
        assert(all.take(all.len() as int) == all);
    }
    move_from_numbers(&numbers)
}

/// Asks the move `mv` of the game and says what became of it.
pub fn play_move(game: &mut Game, mv: Option<(usize, usize)>) -> (reply: Reply)
    ensures
        final(game)@ == after_reply(old(game)@, mv),
        reply == reply_to(old(game)@, mv),
{
    match mv {
        None => Reply::Invalid,
        Some((row, col)) => match game.place(row, col) {
            Err(e) => Reply::Refused(e),
            Ok(()) => match game.outcome() {
                Outcome::InProgress => Reply::Continue,
                Outcome::Won(mark) => Reply::Won(mark),
                Outcome::Draw => Reply::Draw,
            },
        },
    }
}

/// Plays the move that a line of input names.
pub fn play_line(game: &mut Game, line: &str) -> (reply: Reply)
    ensures
        final(game)@ == after_reply(old(game)@, move_from(numbers_in(words_of(line@)))),
        reply == reply_to(old(game)@, move_from(numbers_in(words_of(line@)))),
{
    let mv = parse_move(line);
    play_move(game, mv)
}

} // verus!
