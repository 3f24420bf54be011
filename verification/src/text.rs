//! Text: comparing, joining and counting.

use vstd::prelude::*;
use vstd::string::{StrSliceExecFns, StringExecFns};

verus! {

/// Whether two texts hold the same characters.
pub fn text_eq(a: &str, b: &str) -> (same: bool)
    ensures
        same == (a@ == b@),
{
    let left = String::from_str(a);
    let right = String::from_str(b);
    left == right
}

/// The `parts` in order, with `separator` between each two.
pub open spec fn join(parts: Seq<Seq<char>>, separator: Seq<char>) -> Seq<char>
    decreases parts.len(),
{
    if parts.len() == 0 {
        Seq::empty()
    } else if parts.len() == 1 {
        parts[0]
    } else {
        join(parts.drop_last(), separator) + separator + parts.last()
    }
}

/// The texts that `parts` hold.
pub open spec fn texts(parts: Seq<String>) -> Seq<Seq<char>> {
    Seq::new(parts.len(), |i: int| parts[i]@)
}

/// Joins `parts` with `separator` between each two.
pub fn join_texts(parts: &Vec<String>, separator: &str) -> (joined: String)
    ensures
        joined@ == join(texts(parts@), separator@),
{
    let mut joined = String::new();
    let mut i: usize = 0;
    while i < parts.len()
        invariant
            i <= parts.len(),
            joined@ == join(texts(parts@).take(i as int), separator@),
        decreases parts.len() - i,
    {
        let ghost before = texts(parts@).take(i as int);
        let ghost after = texts(parts@).take(i + 1);
        assert(after.drop_last() =~= before);
        assert(after.last() == parts@[i as int]@);
        if i > 0 {
            joined.append(separator);
        }
        joined.append(parts[i].as_str());
        assert(joined@ =~= join(after, separator@));
        i = i + 1;
    }
    assert(texts(parts@).take(parts.len() as int) =~= texts(parts@));
    joined
}

/// How often `c` occurs in `s`.
pub open spec fn count_char(s: Seq<char>, c: char) -> nat
    decreases s.len(),
{
    if s.len() == 0 {
        0
    } else {
        count_char(s.drop_last(), c) + if s.last() == c {
            1nat
        } else {
            0nat
        }
    }
}

/// Whether `c` does not occur in `s`.
pub open spec fn free_of(s: Seq<char>, c: char) -> bool {
    forall|i: int| 0 <= i < s.len() ==> s[i] != c
}

/// Whether `c` occurs in none of `parts`.
pub open spec fn all_free_of(parts: Seq<Seq<char>>, c: char) -> bool {
    forall|i: int| 0 <= i < parts.len() ==> free_of(#[trigger] parts[i], c)
}

/// A text without `c` counts none.
pub proof fn lemma_count_free(s: Seq<char>, c: char)
    requires
        free_of(s, c),
    ensures
        count_char(s, c) == 0,
    decreases s.len(),
{
    if s.len() > 0 {
        lemma_count_free(s.drop_last(), c);
    }
}

/// Counting over a concatenation adds up.
pub proof fn lemma_count_add(a: Seq<char>, b: Seq<char>, c: char)
    ensures
        count_char(a + b, c) == count_char(a, c) + count_char(b, c),
    decreases b.len(),
{
    if b.len() == 0 {
        assert(a + b =~= a);
    } else {
        assert((a + b).drop_last() =~= a + b.drop_last());
        lemma_count_add(a, b.drop_last(), c);
    }
}

/// Whether `separator` stands in `s` at position `i`.
pub open spec fn stands_at(s: Seq<char>, separator: Seq<char>, i: int) -> bool {
    0 <= i && i + separator.len() <= s.len() && s.subrange(i, i + separator.len()) == separator
}

/// The pieces of `s` from `start` on, where no separator begins between
/// `start` and `i`.
pub open spec fn split_from(s: Seq<char>, separator: Seq<char>, start: int, i: int) -> Seq<
    Seq<char>,
>
    decreases s.len() - i,
{
    if separator.len() == 0 || i < start || start < 0 || i + separator.len() > s.len() {
        seq![s.subrange(start, s.len() as int)]
    } else if stands_at(s, separator, i) {
        seq![s.subrange(start, i)] + split_from(
            s,
            separator,
            i + separator.len(),
            i + separator.len(),
        )
    } else {
        split_from(s, separator, start, i + 1)
    }
}

/// The pieces of `s` between the occurrences of `separator`, which are found
/// from the left and do not overlap.
pub open spec fn split(s: Seq<char>, separator: Seq<char>) -> Seq<Seq<char>> {
    split_from(s, separator, 0, 0)
}

/// The characters of `s`.
fn chars_of(s: &str) -> (chars: Vec<char>)
    ensures
        chars@ == s@,
{
    let n = s.unicode_len();
    let mut chars: Vec<char> = Vec::new();
    let mut i: usize = 0;
    while i < n
        invariant
            i <= n,
            n == s@.len(),
            chars@ == s@.take(i as int),
        decreases n - i,
    {
        chars.push(s.get_char(i));
        assert(chars@ =~= s@.take(i + 1));
        i = i + 1;
    }
    assert(s@.take(n as int) =~= s@);
    chars
}

/// Whether `separator` stands in `s` at position `i`.
fn stands_at_exec(s: &Vec<char>, separator: &Vec<char>, i: usize) -> (found: bool)
    requires
        i + separator@.len() <= s@.len(),
    ensures
        found == stands_at(s@, separator@, i as int),
{
    let n = s.len();
    let mut k: usize = 0;
    while k < separator.len()
        invariant
            k <= separator.len(),
            n == s@.len(),
            i + separator@.len() <= s@.len(),
            forall|j: int| 0 <= j < k ==> s@[i + j] == separator@[j],
        decreases separator.len() - k,
    {
        if s[i + k] != separator[k] {
            assert(s@.subrange(i as int, i + separator@.len())[k as int] != separator@[k as int]);
            return false;
        }
        k = k + 1;
    }
    assert(s@.subrange(i as int, i + separator@.len()) =~= separator@);
    true
}

/// The pieces of `s` between the occurrences of `separator`.
pub fn split_text(s: &str, separator: &str) -> (pieces: Vec<String>)
    ensures
        texts(pieces@) == split(s@, separator@),
{
    let chars = chars_of(s);
    let mark = chars_of(separator);
    let n = chars.len();
    let mut pieces: Vec<String> = Vec::new();
    if mark.len() == 0 || mark.len() > n {
        pieces.push(String::from_str(s));
        assert(s@.subrange(0, s@.len() as int) =~= s@);
        assert(texts(pieces@) =~= seq![s@]);
        return pieces;
    }
    let last = n - mark.len();
    let mut start: usize = 0;
    let mut i: usize = 0;
    assert(texts(pieces@) =~= Seq::<Seq<char>>::empty());
    while i <= last
        invariant
            chars@ == s@,
            mark@ == separator@,
            n == s@.len(),
            0 < mark@.len() <= n,
            last == n - mark@.len(),
            start <= i,
            i <= n,
            split(s@, separator@) == texts(pieces@) + split_from(
                s@,
                separator@,
                start as int,
                i as int,
            ),
        decreases n - i,
    {
        if stands_at_exec(&chars, &mark, i) {
            let ghost before = texts(pieces@);
            pieces.push(String::from_str(s.substring_char(start, i)));
            assert(texts(pieces@) =~= before.push(s@.subrange(start as int, i as int)));
            i = i + mark.len();
            start = i;
        } else {
            i = i + 1;
        }
    }
    let ghost before = texts(pieces@);
    pieces.push(String::from_str(s.substring_char(start, n)));
    assert(texts(pieces@) =~= before.push(s@.subrange(start as int, n as int)));
    pieces
}

/// Joining from the left: the first part, then the separator and the rest.
pub proof fn lemma_join_first(parts: Seq<Seq<char>>, separator: Seq<char>)
    requires
        parts.len() > 1,
    ensures
        join(parts, separator) == parts[0] + separator + join(parts.skip(1), separator),
    decreases parts.len(),
{
    let rest = parts.skip(1);
    if parts.len() == 2 {
        assert(parts.drop_last() =~= seq![parts[0]]);
        assert(rest =~= seq![parts[1]]);
        assert(join(parts.drop_last(), separator) == parts[0]);
        assert(join(rest, separator) == parts[1]);
    } else {
        lemma_join_first(parts.drop_last(), separator);
        assert(parts.drop_last().skip(1) =~= rest.drop_last());
        assert(rest.last() == parts.last());
        assert(parts.drop_last()[0] == parts[0]);
        assert(join(parts, separator) =~= parts[0] + separator + join(rest, separator));
    }
}

/// A text in which the separator cannot begin is one piece.
pub proof fn lemma_split_one(s: Seq<char>, separator: Seq<char>, i: int)
    requires
        separator.len() > 0,
        free_of(s, separator[0]),
        0 <= i,
    ensures
        split_from(s, separator, 0, i) == seq![s],
    decreases s.len() - i,
{
    assert(s.subrange(0, s.len() as int) =~= s);
    if i + separator.len() <= s.len() {
        assert(s.subrange(i, i + separator.len())[0] == s[i]);
        lemma_split_one(s, separator, i + 1);
    }
}

/// What stands before the text that is split does not change its pieces.
pub proof fn lemma_split_shift(
    before: Seq<char>,
    s: Seq<char>,
    separator: Seq<char>,
    start: int,
    i: int,
)
    requires
        0 <= start <= i <= s.len(),
    ensures
        split_from(before + s, separator, before.len() + start, before.len() + i) == split_from(
            s,
            separator,
            start,
            i,
        ),
    decreases s.len() - i,
{
    let whole = before + s;
    let n = before.len() as int;
    if separator.len() == 0 || i + separator.len() > s.len() {
        assert(whole.subrange(n + start, whole.len() as int) =~= s.subrange(
            start,
            s.len() as int,
        ));
    } else {
        assert(whole.subrange(n + i, n + i + separator.len()) =~= s.subrange(
            i,
            i + separator.len(),
        ));
        if stands_at(s, separator, i) {
            assert(whole.subrange(n + start, n + i) =~= s.subrange(start, i));
            lemma_split_shift(before, s, separator, i + separator.len(), i + separator.len());
        } else {
            lemma_split_shift(before, s, separator, start, i + 1);
        }
    }
}

/// A first part in which the separator cannot begin is the first piece, and
/// the rest is split by itself.
pub proof fn lemma_split_first(
    first: Seq<char>,
    rest: Seq<char>,
    separator: Seq<char>,
    i: int,
)
    requires
        separator.len() > 0,
        free_of(first, separator[0]),
        0 <= i <= first.len(),
    ensures
        split_from(first + separator + rest, separator, 0, i) == seq![first] + split(
            rest,
            separator,
        ),
    decreases first.len() - i,
{
    let s = first + separator + rest;
    if i < first.len() {
        assert(s.subrange(i, i + separator.len())[0] == first[i]);
        lemma_split_first(first, rest, separator, i + 1);
    } else {
        assert(s.subrange(i, i + separator.len()) =~= separator);
        assert(s.subrange(0, i) =~= first);
        lemma_split_shift(first + separator, rest, separator, 0, 0);
    }
}

/// Splitting what was joined gives the parts back, where the first character
/// of the separator occurs in none of them.
pub proof fn lemma_split_join(parts: Seq<Seq<char>>, separator: Seq<char>)
    requires
        parts.len() > 0,
        separator.len() > 0,
        all_free_of(parts, separator[0]),
    ensures
        split(join(parts, separator), separator) == parts,
    decreases parts.len(),
{
    if parts.len() == 1 {
        lemma_split_one(parts[0], separator, 0);
        assert(parts =~= seq![parts[0]]);
    } else {
        let rest = parts.skip(1);
        assert(all_free_of(rest, separator[0])) by {
            assert forall|i: int| 0 <= i < rest.len() implies free_of(
                #[trigger] rest[i],
                separator[0],
            ) by {
                assert(rest[i] == parts[i + 1]);
            }
        }
        lemma_join_first(parts, separator);
        lemma_split_join(rest, separator);
        lemma_split_first(parts[0], join(rest, separator), separator, 0);
        assert(seq![parts[0]] + rest =~= parts);
    }
}

} // verus!
