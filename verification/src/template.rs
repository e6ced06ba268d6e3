//! Templates: texts in which the token `{}` stands for a value.

use vstd::prelude::*;
use vstd::std_specs::iter::IteratorSpec;
use vstd::string::*;

verus! {

/// True when the two-character token `{}` starts at position `k` of `text`.
pub open spec fn token_at(text: Seq<char>, k: int) -> bool {
    0 <= k && k + 1 < text.len() && text[k] == '{' && text[k + 1] == '}'
}

/// `text` with every occurrence of the token `{}` replaced by `value`,
/// reading from the left.
pub open spec fn substitute(text: Seq<char>, value: Seq<char>) -> Seq<char>
    decreases text.len(),
{
    if text.len() == 0 {
        text
    } else if token_at(text, 0) {
        value + substitute(text.skip(2), value)
    } else {
        seq![text[0]] + substitute(text.skip(1), value)
    }
}

/// Between two positions with no token starting in between, substitution
/// copies the text unchanged.
pub proof fn lemma_substitute_plain(text: Seq<char>, value: Seq<char>, from: int, to: int)
    requires
        0 <= from <= to <= text.len(),
        forall|k: int| from <= k < to ==> !token_at(text, k),
    ensures
        substitute(text.skip(from), value) == text.subrange(from, to) + substitute(
            text.skip(to),
            value,
        ),
    decreases to - from,
{
    if from == to {
        assert(text.subrange(from, to) + substitute(text.skip(to), value) =~= substitute(
            text.skip(to),
            value,
        ));
    } else {
        let rest = text.skip(from);
        assert(!token_at(text, from));
        assert(!token_at(rest, 0));
        assert(rest.skip(1) =~= text.skip(from + 1));
        lemma_substitute_plain(text, value, from + 1, to);
        assert(text.subrange(from, to) =~= seq![text[from]] + text.subrange(from + 1, to));
        assert(seq![rest[0]] + (text.subrange(from + 1, to) + substitute(text.skip(to), value))
            =~= text.subrange(from, to) + substitute(text.skip(to), value));
    }
}

/// Where a token starts, substitution writes the value and goes on behind
/// the token.
pub proof fn lemma_substitute_token(text: Seq<char>, value: Seq<char>, at: int)
    requires
        token_at(text, at),
    ensures
        substitute(text.skip(at), value) == value + substitute(text.skip(at + 2), value),
{
    let rest = text.skip(at);
    assert(token_at(rest, 0));
    assert(rest.skip(2) =~= text.skip(at + 2));
}

/// A text that holds no token is its own substitution.
pub proof fn lemma_substitute_without_token(text: Seq<char>, value: Seq<char>)
    requires
        forall|k: int| !token_at(text, k),
    ensures
        substitute(text, value) == text,
{
    lemma_substitute_plain(text, value, 0, text.len() as int);
    assert(text.skip(0) =~= text);
    assert(text.skip(text.len() as int) =~= Seq::<char>::empty());
    assert(text.subrange(0, text.len() as int) + Seq::<char>::empty() =~= text);
}

/// In a text that holds the token once, substitution puts the value in its
/// place and leaves the rest as it is.
pub proof fn lemma_substitute_one_token(text: Seq<char>, value: Seq<char>, at: int)
    requires
        token_at(text, at),
        forall|k: int| k != at ==> !token_at(text, k),
    ensures
        substitute(text, value) == text.subrange(0, at) + value + text.skip(at + 2),
{
    let end = text.len() as int;
    lemma_substitute_plain(text, value, 0, at);
    lemma_substitute_token(text, value, at);
    lemma_substitute_plain(text, value, at + 2, end);
    assert(text.skip(0) =~= text);
    assert(text.skip(end) =~= Seq::<char>::empty());
    assert(text.subrange(at + 2, end) + Seq::<char>::empty() =~= text.skip(at + 2));
    assert(text.subrange(0, at) + (value + text.skip(at + 2)) =~= text.subrange(0, at) + value
        + text.skip(at + 2));
}

/// Replaces every occurrence of the token `{}` in `template` by `value`.
pub fn render(template: &str, value: &str) -> (out: String)
    ensures
        out@ == substitute(template@, value@),
{
    let total = template.unicode_len();
    let mut out = String::new();
    // The first character that is not copied yet.
    let mut start: usize = 0;
    // The number of characters read.
    let mut i: usize = 0;
    // Whether the last character read is a `{` that may open a token.
    let mut open = false;
    assert(template@.skip(0) =~= template@);
    assert(out@ + substitute(template@, value@) =~= substitute(template@, value@));
    for c in it: template.chars()
        invariant
            it.seq() == template@,
            total == template@.len(),
            i == it.index(),
            start <= i,
            open <==> (start < i && template@[i - 1] == '{'),
            forall|k: int| start <= k < i - 1 ==> !token_at(template@, k),
            substitute(template@, value@) == out@ + substitute(
                template@.skip(start as int),
                value@,
            ),
    {
        if open && c == '}' {
            proof {
                lemma_substitute_plain(template@, value@, start as int, i - 1);
                lemma_substitute_token(template@, value@, i - 1);
                assert(out@ + (template@.subrange(start as int, i - 1) + (value@ + substitute(
                    template@.skip(i + 1),
                    value@,
                ))) =~= out@ + template@.subrange(start as int, i - 1) + value@ + substitute(
                    template@.skip(i + 1),
                    value@,
                ));
            }
            out.append(template.substring_char(start, i - 1));
            out.append(value);
            start = i + 1;
            open = false;
        } else {
            open = c == '{';
        }
        i = i + 1;
    }
    proof {
        lemma_substitute_plain(template@, value@, start as int, total as int);
        assert(template@.skip(total as int) =~= Seq::<char>::empty());
        assert(out@ + (template@.subrange(start as int, total as int) + Seq::<char>::empty())
            =~= out@ + template@.subrange(start as int, total as int));
    }
    out.append(template.substring_char(start, total));
    out
}

} // verus!
