//! Choosing one server among those found: the first, or the one a person
//! picks from a numbered list.

use vstd::prelude::*;
use vstd::string::*;
use crate::error::Error;
use crate::text::{decimal_digits, is_blank, is_space, push_decimal, spec_trimmed};

verus! {

/// The question put to the person who picks.
pub const PROMPT: &'static str = "Enter a number from the list above: ";

/// The line that offers a candidate under the number `n`.
pub open spec fn spec_line(n: nat, candidate: (Seq<char>, Seq<char>)) -> Seq<char> {
    decimal_digits(n) + ". "@ + candidate.0 + " ("@ + candidate.1 + ")"@
}

/// The numbered list: the candidates in the order found, counted from one.
pub open spec fn spec_lines(candidates: Seq<(Seq<char>, Seq<char>)>) -> Seq<Seq<char>> {
    Seq::new(candidates.len(), |i: int| spec_line((i + 1) as nat, candidates[i]))
}

/// Writes the numbered list of the candidates.
pub fn candidate_lines(candidates: &Vec<(String, String)>) -> (r: Vec<String>)
    ensures
        r.deep_view() == spec_lines(candidates.deep_view()),
{
    let mut out: Vec<String> = Vec::new();
    let mut i: usize = 0;
    while i < candidates.len()
        invariant
            i <= candidates.len(),
            out.len() == i,
            forall|j: int|
                0 <= j < i ==> (#[trigger] out@[j])@ == spec_line(
                    (j + 1) as nat,
                    candidates@[j].deep_view(),
                ),
        decreases candidates.len() - i,
    {
        let mut line = String::new();
        push_decimal(&mut line, i as u64 + 1);
        line.append(". ");
        line.append(candidates[i].0.as_str());
        line.append(" (");
        line.append(candidates[i].1.as_str());
        line.append(")");
        out.push(line);
        i += 1;
    }
    assert(out.deep_view() =~= spec_lines(candidates.deep_view()));
    out
}

/// How the choice among the candidates goes on.
#[derive(Debug, Clone, PartialEq, Eq)]
pub enum Selection {
    /// The address to connect to.
    Address(String),
    /// Somebody has to pick: these are the lines to show.
    Prompt(Vec<String>),
}

/// Whether somebody has to pick: only when asked to, and only among
/// several.
pub open spec fn spec_asks(count: nat, interactive: bool) -> bool {
    interactive && count > 1
}

/// Chooses among the candidates. Without any there is nothing to choose.
/// Unless somebody is to pick among several, the first candidate is taken.
pub fn select(candidates: &Vec<(String, String)>, interactive: bool) -> (r: Result<Selection, Error>)
    ensures
        match r {
            Ok(Selection::Address(ip)) => {
                &&& candidates.len() > 0
                &&& !spec_asks(candidates.len() as nat, interactive)
                &&& ip == candidates[0].1
            },
            Ok(Selection::Prompt(lines)) => {
                &&& spec_asks(candidates.len() as nat, interactive)
                &&& lines.deep_view() == spec_lines(candidates.deep_view())
            },
            Err(error) => candidates.len() == 0 && error == Error::NoCandidates,
        },
        candidates.len() == 0 ==> r == Err::<Selection, Error>(Error::NoCandidates),
        candidates.len() > 0 && !interactive ==> r == Ok::<Selection, Error>(
            Selection::Address(candidates[0].1),
        ),
{
    if candidates.len() == 0 {
        Err(Error::NoCandidates)
    } else if interactive && candidates.len() > 1 {
        Ok(Selection::Prompt(candidate_lines(candidates)))
    } else {
        Ok(Selection::Address(candidates[0].1.clone()))
    }
}

/// Whether a character is one of the ten digits.
pub open spec fn is_digit(c: char) -> bool {
    '0' <= c <= '9'
}

/// The number that a run of digits writes in base ten.
pub open spec fn spec_value(digits: Seq<char>) -> nat
    decreases digits.len(),
{
    if digits.len() == 0 {
        0
    } else {
        spec_value(digits.drop_last()) * 10 + (digits.last() as u32 - '0' as u32) as nat
    }
}

/// The number written by one digit or more; nothing else is a number.
pub open spec fn spec_unsigned(digits: Seq<char>) -> Option<nat> {
    if digits.len() > 0 && forall|i: int| 0 <= i < digits.len() ==> is_digit(#[trigger] digits[i]) {
        Some(spec_value(digits))
    } else {
        None
    }
}

/// The number written by `s`: digits, after at most one `+`.
pub open spec fn spec_number(s: Seq<char>) -> Option<nat> {
    if s.len() > 0 && s[0] == '+' {
        spec_unsigned(s.skip(1))
    } else {
        spec_unsigned(s)
    }
}

/// The position that an answer picks in a list of `count` lines: the answer,
/// blanks at its ends aside, has to be the number of a line. The lines
/// count from one, the positions from zero.
pub open spec fn spec_index(answer: Seq<char>, count: nat) -> Option<nat> {
    match spec_number(spec_trimmed(answer)) {
        Some(n) => if 1 <= n <= count {
            Some((n - 1) as nat)
        } else {
            None
        },
        None => None,
    }
}

fn chars_of(s: &str) -> (r: Vec<char>)
    ensures
        r@ == s@,
{
    let mut out: Vec<char> = Vec::new();
    for c in it: s.chars()
        invariant
            it.seq() == s@,
            out@ == s@.take(it.index() as int),
    {
        out.push(c);
    }
    assert(s@.take(s@.len() as int) == s@);
    out
}

/// Finds where a text begins and ends once the blanks at its ends are left
/// out.
fn trimmed_range(chars: &Vec<char>) -> (r: (usize, usize))
    ensures
        r.0 <= r.1 <= chars.len(),
        chars@.subrange(r.0 as int, r.1 as int) == spec_trimmed(chars@),
{
    let mut start: usize = 0;
    let mut end: usize = chars.len();
    assert(chars@.subrange(0, end as int) =~= chars@);
    while start < end && is_blank(chars[start])
        invariant
            start <= end == chars.len(),
            spec_trimmed(chars@) == spec_trimmed(chars@.subrange(start as int, end as int)),
        decreases end - start,
    {
        assert(chars@.subrange(start as int, end as int).skip(1) =~= chars@.subrange(
            start + 1,
            end as int,
        ));
        start += 1;
    }
    while start < end && is_blank(chars[end - 1])
        invariant
            start <= end <= chars.len(),
            start < end ==> !is_space(chars@[start as int]),
            spec_trimmed(chars@) == spec_trimmed(chars@.subrange(start as int, end as int)),
        decreases end - start,
    {
        assert(chars@.subrange(start as int, end as int).drop_last() =~= chars@.subrange(
            start as int,
            end - 1,
        ));
        end -= 1;
    }
    (start, end)
}

/// Reads the digits between two positions as a number, as long as it does
/// not pass `max`.
fn read_number(chars: &Vec<char>, start: usize, end: usize, max: usize) -> (r: Option<usize>)
    requires
        start <= end <= chars.len(),
    ensures
        match spec_unsigned(chars@.subrange(start as int, end as int)) {
            Some(n) => if n <= max {
                r == Some(n as usize)
            } else {
                r is None
            },
            None => r is None,
        },
{
    if start == end {
        return None;
    }
    let ghost digits = chars@.subrange(start as int, end as int);
    let mut value: usize = 0;
    let mut too_big = false;
    let mut i: usize = start;
    while i < end
        invariant
            start <= i <= end <= chars.len(),
            digits == chars@.subrange(start as int, end as int),
            forall|j: int| 0 <= j < i - start ==> is_digit(#[trigger] digits[j]),
            !too_big ==> value == spec_value(digits.take(i - start)) && value <= max,
            too_big ==> spec_value(digits.take(i - start)) > max,
        decreases end - i,
    {
        let c = chars[i];
        if !(c >= '0' && c <= '9') {
            assert(!is_digit(digits[i - start]));
            return None;
        }
        let d: usize = (c as u32 - '0' as u32) as usize;
        proof {
            assert(digits.take(i - start + 1).drop_last() =~= digits.take(i - start));
            assert(digits.take(i - start + 1).last() == c);
        }
        if too_big || value > max / 10 {
            too_big = true;
        } else {
            let tens = value * 10;
            if d > max - tens {
                too_big = true;
            } else {
                value = tens + d;
            }
        }
        i += 1;
    }
    proof {
        assert(digits.take(end - start) =~= digits);
    }
    if too_big {
        None
    } else {
        Some(value)
    }
}

/// Reads the answer to the prompt for a list of `max` lines. `None` means
/// that the answer picks no line, and the question is to be put again.
pub fn get_index(answer: &str, max: usize) -> (r: Option<usize>)
    ensures
        match r {
            Some(i) => spec_index(answer@, max as nat) == Some(i as nat),
            None => spec_index(answer@, max as nat) is None,
        },
{
    let chars = chars_of(answer);
    let (start, end) = trimmed_range(&chars);
    let ghost trimmed = chars@.subrange(start as int, end as int);
    let from = if start < end && chars[start] == '+' {
        start + 1
    } else {
        start
    };
    assert(chars@.subrange(from as int, end as int) =~= if trimmed.len() > 0 && trimmed[0] == '+' {
        trimmed.skip(1)
    } else {
        trimmed
    });
    match read_number(&chars, from, end, max) {
        Some(n) => if n >= 1 {
            Some(n - 1)
        } else {
            None
        },
        None => None,
    }
}

/// The address that an answer to the prompt picks among the candidates, or
/// `None` where it picks none.
pub fn pick_ip(candidates: &Vec<(String, String)>, answer: &str) -> (r: Option<String>)
    ensures
        match spec_index(answer@, candidates.len() as nat) {
            Some(i) => r == Some(candidates[i as int].1),
            None => r is None,
        },
{
    match get_index(answer, candidates.len()) {
        Some(i) => Some(candidates[i].1.clone()),
        None => None,
    }
}

} // verus!
