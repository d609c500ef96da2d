//! How many columns a piece of text takes on the display.

use unicode_width::UnicodeWidthStr;
use vstd::prelude::*;

verus! {

/// The number of columns that `text` takes on a display, by the Unicode
/// rules for wide, narrow and zero-width characters. The rules fill pages;
/// the library only needs that the width is a function of the text.
pub uninterp spec fn display_width(text: Seq<char>) -> nat;

/// Measures `s` with `UnicodeWidthStr::width` of the crate `unicode-width`.
/// Trusted: the result is the display width of the characters of `s`, the
/// same for the same characters wherever it is computed.
#[verifier::external_body]
pub(crate) fn str_width(s: &str) -> (w: usize)
    ensures
        w == display_width(s@),
{
    UnicodeWidthStr::width(s)
}

/// The texts of a list of strings.
pub open spec fn texts(labels: Seq<String>) -> Seq<Seq<char>> {
    Seq::new(labels.len(), |i: int| labels[i]@)
}

/// The display widths of `labels`, one for each.
pub open spec fn widths(labels: Seq<Seq<char>>) -> Seq<nat> {
    Seq::new(labels.len(), |i: int| display_width(labels[i]))
}

/// Measured widths as natural numbers.
pub open spec fn as_nats(measured: Seq<usize>) -> Seq<nat> {
    Seq::new(measured.len(), |i: int| measured[i] as nat)
}

/// The greatest of `widths`, zero where there is none.
pub open spec fn greatest(widths: Seq<nat>) -> nat
    decreases widths.len(),
{
    if widths.len() == 0 {
        0
    } else {
        let rest = greatest(widths.drop_last());
        if widths.last() > rest {
            widths.last()
        } else {
            rest
        }
    }
}

/// `widths` added up.
pub open spec fn total(widths: Seq<nat>) -> nat
    decreases widths.len(),
{
    if widths.len() == 0 {
        0
    } else {
        total(widths.drop_last()) + widths.last()
    }
}

/// The width of the widest of `labels`, zero where there is none.
pub open spec fn max_width(labels: Seq<Seq<char>>) -> nat {
    greatest(widths(labels))
}

/// The widths of `labels` added up.
pub open spec fn total_width(labels: Seq<Seq<char>>) -> nat {
    total(widths(labels))
}

/// The first `n` widths are never more, together or alone, than all of
/// them.
pub proof fn lemma_widths_grow(widths: Seq<nat>, n: int)
    requires
        0 <= n <= widths.len(),
    ensures
        total(widths.take(n)) <= total(widths),
        greatest(widths.take(n)) <= greatest(widths),
    decreases widths.len(),
{
    if n == widths.len() {
        assert(widths.take(n) =~= widths);
    } else {
        assert(widths.drop_last().take(n) =~= widths.take(n));
        lemma_widths_grow(widths.drop_last(), n);
    }
}

/// The display width of each of `labels`.
pub fn measure(labels: &Vec<String>) -> (measured: Vec<usize>)
    ensures
        measured.len() == labels.len(),
        as_nats(measured@) == widths(texts(labels@)),
{
    let mut measured: Vec<usize> = Vec::new();
    let mut i: usize = 0;
    while i < labels.len()
        invariant
            i <= labels.len(),
            measured.len() == i,
            forall|k: int| 0 <= k < i ==> measured[k] == display_width(#[trigger] labels[k]@),
        decreases labels.len() - i,
    {
        measured.push(str_width(labels[i].as_str()));
        i += 1;
    }
    assert(as_nats(measured@) =~= widths(texts(labels@)));
    measured
}

/// The greatest of `widths`, zero where there is none.
pub fn greatest_of(widths: &Vec<usize>) -> (w: usize)
    ensures
        w == greatest(as_nats(widths@)),
{
    let ghost all = as_nats(widths@);
    let mut w: usize = 0;
    let mut i: usize = 0;
    while i < widths.len()
        invariant
            i <= widths.len(),
            all == as_nats(widths@),
            w == greatest(all.take(i as int)),
        decreases widths.len() - i,
    {
        proof {
            assert(all.take(i + 1).drop_last() =~= all.take(i as int));
        }
        if widths[i] > w {
            w = widths[i];
        }
        i += 1;
    }
    assert(all.take(i as int) =~= all);
    w
}

/// Whether `widths`, added up, stay below `limit`.
pub fn total_below(widths: &Vec<usize>, limit: u16) -> (b: bool)
    ensures
        b == (total(as_nats(widths@)) < limit),
{
    let ghost all = as_nats(widths@);
    if limit == 0 {
        return false;
    }
    let mut sum: u16 = 0;
    let mut i: usize = 0;
    while i < widths.len()
        invariant
            i <= widths.len(),
            all == as_nats(widths@),
            sum == total(all.take(i as int)),
            sum < limit,
        decreases widths.len() - i,
    {
        proof {
            assert(all.take(i + 1).drop_last() =~= all.take(i as int));
        }
        if widths[i] >= (limit - sum) as usize {
            proof {
                lemma_widths_grow(all, i + 1);
            }
            return false;
        }
        sum = sum + widths[i] as u16;
        i += 1;
    }
    assert(all.take(i as int) =~= all);
    true
}

/// The width of the widest of `labels`.
pub fn widest(labels: &Vec<String>) -> (w: usize)
    ensures
        w == max_width(texts(labels@)),
{
    let measured = measure(labels);
    greatest_of(&measured)
}

/// Whether the widths of `labels`, added up, stay below `limit`.
pub fn narrower_than(labels: &Vec<String>, limit: u16) -> (b: bool)
    ensures
        b == (total_width(texts(labels@)) < limit),
{
    let measured = measure(labels);
    total_below(&measured, limit)
}

} // verus!
