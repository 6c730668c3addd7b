//! Reading the kind of a record from the keyword that names it.

use crate::transaction::Type;
use vstd::prelude::*;

verus! {

/// Whether `c` is ASCII white space.
pub open spec fn is_blank(c: char) -> bool {
    c == ' ' || c == '\t' || c == '\n' || c == '\r' || c == '\x0C'
}

/// Whether `c` is the lower-case letter `letter` or its upper-case form.
pub open spec fn same_letter(c: char, letter: char) -> bool {
    c == letter || ('A' <= c <= 'Z' && c as int + 32 == letter as int)
}

/// `text` without the white space it starts with.
pub open spec fn trim_start(text: Seq<char>) -> Seq<char>
    decreases text.len(),
{
    if text.len() > 0 && is_blank(text[0]) {
        trim_start(text.drop_first())
    } else {
        text
    }
}

/// `text` without the white space it ends with.
pub open spec fn trim_end(text: Seq<char>) -> Seq<char>
    decreases text.len(),
{
    if text.len() > 0 && is_blank(text.last()) {
        trim_end(text.drop_last())
    } else {
        text
    }
}

/// Whether `text`, white space around it and the case of its letters set
/// aside, is the lower-case word `word`.
pub open spec fn reads(text: Seq<char>, word: Seq<char>) -> bool {
    let trimmed = trim_end(trim_start(text));
    &&& trimmed.len() == word.len()
    &&& forall|i: int| 0 <= i < word.len() ==> same_letter(#[trigger] trimmed[i], word[i])
}

impl Type {
    /// The kind of record that `text` names, if it names one: `deposit`,
    /// `withdrawal` (or `withdraw`), `dispute`, `resolve` or `chargeback`,
    /// in any case and with any white space around it.
    pub open spec fn named(text: Seq<char>) -> Option<Type> {
        if reads(text, "chargeback"@) {
            Some(Type::Chargeback)
        } else if reads(text, "deposit"@) {
            Some(Type::Deposit)
        } else if reads(text, "dispute"@) {
            Some(Type::Dispute)
        } else if reads(text, "resolve"@) {
            Some(Type::Resolve)
        } else if reads(text, "withdraw"@) {
            Some(Type::Withdraw)
        } else if reads(text, "withdrawal"@) {
            Some(Type::Withdrawal)
        } else {
            None
        }
    }

    /// The kind of record that `text` names, if it names one.
    pub fn from_keyword(text: &str) -> (kind: Option<Type>)
        ensures
            kind == Type::named(text@),
    {
        let len = text.unicode_len();
        let mut start: usize = 0;
        assert(text@.skip(0) == text@);
        while start < len && is_blank_char(text.get_char(start))
            invariant
                start <= len == text@.len(),
                trim_start(text@) == trim_start(text@.skip(start as int)),
            decreases len - start,
        {
            assert(text@.skip(start as int).drop_first() == text@.skip(start + 1));
            start += 1;
        }
        let mut end: usize = len;
        while end > start && is_blank_char(text.get_char(end - 1))
            invariant
                start <= end <= len == text@.len(),
                trim_end(text@.skip(start as int)) == trim_end(
                    text@.subrange(start as int, end as int),
                ),
            decreases end - start,
        {
            assert(text@.subrange(start as int, end as int).drop_last() == text@.subrange(
                start as int,
                end - 1,
            ));
            end -= 1;
        }
        assert(text@.skip(start as int) == text@.subrange(start as int, len as int));
        assert(trim_end(trim_start(text@)) == text@.subrange(start as int, end as int));
        if spells(text, start, end, "chargeback") {
            Some(Type::Chargeback)
        } else if spells(text, start, end, "deposit") {
            Some(Type::Deposit)
        } else if spells(text, start, end, "dispute") {
            Some(Type::Dispute)
        } else if spells(text, start, end, "resolve") {
            Some(Type::Resolve)
        } else if spells(text, start, end, "withdraw") {
            Some(Type::Withdraw)
        } else if spells(text, start, end, "withdrawal") {
            Some(Type::Withdrawal)
        } else {
            None
        }
    }
}

/// Whether `c` is ASCII white space.
fn is_blank_char(c: char) -> (blank: bool)
    ensures
        blank == is_blank(c),
{
    c == ' ' || c == '\t' || c == '\n' || c == '\r' || c == '\x0C'
}

/// Whether the characters of `text` from `start` up to `end` are the letters
/// of `word`, in either case.
fn spells(text: &str, start: usize, end: usize, word: &str) -> (same: bool)
    requires
        start <= end <= text@.len(),
    ensures
        same == {
            let part = text@.subrange(start as int, end as int);
            &&& part.len() == word@.len()
            &&& forall|i: int| 0 <= i < word@.len() ==> same_letter(#[trigger] part[i], word@[i])
        },
{
    let ghost part = text@.subrange(start as int, end as int);
    let len = word.unicode_len();
    if end - start != len {
        return false;
    }
    let mut i: usize = 0;
    while i < len
        invariant
            i <= len == word@.len(),
            start + len == end <= text@.len(),
            part == text@.subrange(start as int, end as int),
            forall|j: int| 0 <= j < i ==> same_letter(#[trigger] part[j], word@[j]),
        decreases len - i,
    {
        let c = text.get_char(start + i);
        let letter = word.get_char(i);
        let upper = 'A' <= c && c <= 'Z' && (c as u32) + 32 == (letter as u32);
        if !(c == letter || upper) {
            assert(!same_letter(part[i as int], word@[i as int]));
            return false;
        }
        i += 1;
    }
    true
}

} // verus!
