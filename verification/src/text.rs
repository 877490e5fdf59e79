//! Verified helpers on strings, stated over their views as sequences of characters.

use vstd::prelude::*;
use vstd::string::StrSliceExecFns;
use vstd::string::StringExecFns;

verus! {

/// The separator of the comma-separated lists that travel in configuration values.
pub open spec fn comma() -> char {
    ','
}

/// The decimal digit that stands for `d`, for `0 <= d < 10`.
pub open spec fn digit_char(d: int) -> char {
    if d == 0 {
        '0'
    } else if d == 1 {
        '1'
    } else if d == 2 {
        '2'
    } else if d == 3 {
        '3'
    } else if d == 4 {
        '4'
    } else if d == 5 {
        '5'
    } else if d == 6 {
        '6'
    } else if d == 7 {
        '7'
    } else if d == 8 {
        '8'
    } else {
        '9'
    }
}

/// Whether `c` is one of the ten decimal digits.
pub open spec fn is_digit(c: char) -> bool {
    c == '0' || c == '1' || c == '2' || c == '3' || c == '4' || c == '5' || c == '6' || c == '7'
        || c == '8' || c == '9'
}

/// The decimal numeral of `n`, without sign or leading zeros.
pub open spec fn decimal(n: nat) -> Seq<char>
    decreases n,
{
    if n < 10 {
        seq![digit_char(n as int)]
    } else {
        decimal(n / 10).push(digit_char((n % 10) as int))
    }
}

/// The number that a sequence of decimal digits denotes.
pub open spec fn decimal_value(s: Seq<char>) -> nat
    decreases s.len(),
{
    if s.len() == 0 {
        0
    } else {
        10 * decimal_value(s.drop_last()) + digit_value(s.last())
    }
}

/// The value of one decimal digit; 0 for any other character.
pub open spec fn digit_value(c: char) -> nat {
    if c == '1' {
        1
    } else if c == '2' {
        2
    } else if c == '3' {
        3
    } else if c == '4' {
        4
    } else if c == '5' {
        5
    } else if c == '6' {
        6
    } else if c == '7' {
        7
    } else if c == '8' {
        8
    } else if c == '9' {
        9
    } else {
        0
    }
}

/// A decimal numeral is never empty and holds digits only.
pub proof fn lemma_decimal_digits(n: nat)
    ensures
        decimal(n).len() >= 1,
        forall|i: int| 0 <= i < decimal(n).len() ==> is_digit(#[trigger] decimal(n)[i]),
    decreases n,
{
    if n >= 10 {
        lemma_decimal_digits(n / 10);
    }
}

/// Reading a decimal numeral back gives the number it was written from.
pub proof fn lemma_decimal_value(n: nat)
    ensures
        decimal_value(decimal(n)) == n,
    decreases n,
{
    if n < 10 {
        let s = decimal(n);
        assert(s.drop_last() =~= Seq::<char>::empty());
        assert(decimal_value(s.drop_last()) == 0);
        assert(s.last() == digit_char(n as int));
    } else {
        lemma_decimal_value(n / 10);
        let s = decimal(n);
        assert(s.drop_last() =~= decimal(n / 10));
        assert(s.last() == digit_char((n % 10) as int));
    }
}

/// Two numbers with the same decimal numeral are the same number.
pub proof fn lemma_decimal_injective(a: nat, b: nat)
    requires
        decimal(a) == decimal(b),
    ensures
        a == b,
{
    lemma_decimal_value(a);
    lemma_decimal_value(b);
}

/// The pieces into which the separator `sep` cuts `s`: one more than there are
/// separators, each piece free of `sep`, in order. The empty string is one empty piece.
pub open spec fn split(s: Seq<char>, sep: char) -> Seq<Seq<char>>
    decreases s.len(),
{
    if s.len() == 0 {
        seq![Seq::<char>::empty()]
    } else {
        let before = split(s.drop_last(), sep);
        if s.last() == sep {
            before.push(Seq::<char>::empty())
        } else {
            before.drop_last().push(before.last().push(s.last()))
        }
    }
}

/// The pieces written one after another with `sep` between neighbours.
pub open spec fn join(parts: Seq<Seq<char>>, sep: char) -> Seq<char>
    decreases parts.len(),
{
    if parts.len() == 0 {
        Seq::<char>::empty()
    } else if parts.len() == 1 {
        parts[0]
    } else {
        join(parts.drop_last(), sep).push(sep) + parts.last()
    }
}

/// Whether no piece holds the separator.
pub open spec fn free_of(parts: Seq<Seq<char>>, sep: char) -> bool {
    forall|i: int, j: int|
        0 <= i < parts.len() && 0 <= j < parts[i].len() ==> #[trigger] parts[i][j] != sep
}

/// Cutting never yields an empty list, and no piece holds the separator.
pub proof fn lemma_split_pieces(s: Seq<char>, sep: char)
    ensures
        split(s, sep).len() >= 1,
        free_of(split(s, sep), sep),
    decreases s.len(),
{
    if s.len() > 0 {
        lemma_split_pieces(s.drop_last(), sep);
    }
}

/// Joining the pieces of a string with the separator that cut it gives the string back.
pub proof fn lemma_join_split(s: Seq<char>, sep: char)
    ensures
        join(split(s, sep), sep) == s,
    decreases s.len(),
{
    if s.len() == 0 {
        assert(join(split(s, sep), sep) =~= s);
    } else {
        let before = split(s.drop_last(), sep);
        lemma_split_pieces(s.drop_last(), sep);
        lemma_join_split(s.drop_last(), sep);
        if s.last() == sep {
            let parts = before.push(Seq::<char>::empty());
            assert(parts.drop_last() =~= before);
            assert(join(parts, sep) =~= s.drop_last().push(sep));
            assert(s.drop_last().push(sep) =~= s);
        } else {
            let grown = before.last().push(s.last());
            let parts = before.drop_last().push(grown);
            assert(parts.drop_last() =~= before.drop_last());
            if before.len() == 1 {
                assert(join(before, sep) == before[0]);
                assert(join(parts, sep) =~= s.drop_last().push(s.last()));
            } else {
                assert(join(before, sep) == join(before.drop_last(), sep).push(sep)
                    + before.last());
                assert(join(parts, sep) =~= (join(before.drop_last(), sep).push(sep)
                    + before.last()).push(s.last()));
            }
            assert(s.drop_last().push(s.last()) =~= s);
        }
    }
}

/// Cutting a string that was joined from separator-free pieces gives those pieces back.
pub proof fn lemma_split_join(parts: Seq<Seq<char>>, sep: char)
    requires
        parts.len() >= 1,
        free_of(parts, sep),
    ensures
        split(join(parts, sep), sep) == parts,
    decreases parts.len(), parts.last().len(),
{
    let s = join(parts, sep);
    let tail = parts.last();
    if tail.len() > 0 {
        // The last character of the text belongs to the last piece.
        let shorter = parts.drop_last().push(tail.drop_last());
        assert(shorter.last() == tail.drop_last());
        assert(shorter.drop_last() =~= parts.drop_last());
        assert forall|i: int, j: int|
            0 <= i < shorter.len() && 0 <= j < shorter[i].len() implies #[trigger] shorter[i][j]
            != sep by {
            if i < parts.len() - 1 {
                assert(shorter[i][j] == parts[i][j]);
            } else {
                assert(shorter[i][j] == parts[i][j]);
            }
        }
        lemma_split_join(shorter, sep);
        if parts.len() == 1 {
            assert(join(shorter, sep) == tail.drop_last());
            assert(s == tail);
        } else {
            assert(join(shorter, sep) == join(parts.drop_last(), sep).push(sep)
                + tail.drop_last());
            assert(s == join(parts.drop_last(), sep).push(sep) + tail);
        }
        assert(s.len() > 0);
        assert(s.last() == tail.last());
        assert(s.drop_last() =~= join(shorter, sep));
        assert(tail.last() == parts[parts.len() - 1][tail.len() - 1]);
        assert(s.last() != sep);
        assert(shorter.last().push(s.last()) =~= tail);
        assert(split(s, sep) =~= parts);
    } else if parts.len() == 1 {
        assert(parts[0] =~= Seq::<char>::empty());
        assert(split(s, sep) =~= parts);
    } else {
        // The text ends with the separator that stands before the empty last piece.
        let init = parts.drop_last();
        assert forall|i: int, j: int|
            0 <= i < init.len() && 0 <= j < init[i].len() implies #[trigger] init[i][j]
            != sep by {
            assert(init[i][j] == parts[i][j]);
        }
        lemma_split_join(init, sep);
        assert(s =~= join(init, sep).push(sep));
        assert(s.last() == sep);
        assert(s.drop_last() =~= join(init, sep));
        assert(tail =~= Seq::<char>::empty());
        assert(parts =~= init.push(tail));
        assert(split(s, sep) == split(s.drop_last(), sep).push(Seq::<char>::empty()));
    }
}

/// What is left of `s` once its last `n` characters are taken away.
pub open spec fn without_last(s: Seq<char>, n: nat) -> Seq<char>
    recommends
        n <= s.len(),
{
    s.subrange(0, s.len() - n)
}

/// The views of a list of strings, in order.
pub open spec fn views(items: Seq<String>) -> Seq<Seq<char>> {
    items.map_values(|s: String| s@)
}

/// What `char::is_whitespace` says of a character: whether Unicode classes it
/// as `White_Space`.
pub uninterp spec fn whitespace(c: char) -> bool;

/// What `str::to_lowercase` gives: the text with every character replaced by
/// its lowercase form in Unicode.
pub uninterp spec fn lowercase(s: Seq<char>) -> Seq<char>;

/// The contract of `char::is_whitespace` only names its result.
pub assume_specification[ char::is_whitespace ](c: char) -> (r: bool)
    ensures
        r == whitespace(c),
;

/// Calls `str::to_lowercase`. The contract only names the result.
#[verifier::external_body]
pub(crate) fn to_lowercase(s: &str) -> (r: String)
    ensures
        r@ == lowercase(s@),
{
    s.to_lowercase()
}

/// The test that keeps the characters that are no whitespace.
pub open spec fn visible() -> spec_fn(char) -> bool {
    |c: char| !whitespace(c)
}

/// The text without its whitespace characters.
pub open spec fn without_whitespace(s: Seq<char>) -> Seq<char> {
    s.filter(visible())
}

/// Whether two strings hold the same characters.
pub fn text_eq(a: &str, b: &str) -> (r: bool)
    ensures
        r == (a@ == b@),
{
    let left: String = String::from_str(a);
    let right: String = String::from_str(b);
    left == right
}

/// An owned copy of `s`.
pub fn owned(s: &str) -> (r: String)
    ensures
        r@ == s@,
{
    String::from_str(s)
}

/// `a` followed by `b`.
pub fn glue(a: &str, b: &str) -> (r: String)
    ensures
        r@ == a@ + b@,
{
    let mut out: String = String::from_str(a);
    out.append(b);
    out
}

/// Whether `s` begins with the character `c`.
pub fn starts_with_char(s: &str, c: char) -> (r: bool)
    ensures
        r == (s@.len() > 0 && s@[0] == c),
{
    s.unicode_len() > 0 && s.get_char(0) == c
}

/// Whether `s` begins with `prefix`.
pub fn has_prefix(s: &str, prefix: &str) -> (r: bool)
    ensures
        r == prefix@.is_prefix_of(s@),
{
    let n: usize = prefix.unicode_len();
    let m: usize = s.unicode_len();
    if n > m {
        false
    } else {
        let head: &str = s.substring_char(0, n);
        text_eq(head, prefix)
    }
}

/// `s` without its last `n` characters.
pub fn strip_last(s: &str, n: usize) -> (r: String)
    requires
        n <= s@.len(),
    ensures
        r@ == without_last(s@, n as nat),
{
    let m: usize = s.unicode_len();
    String::from_str(s.substring_char(0, m - n))
}

/// Whether one of `items` equals `needle`.
pub fn contains_text(items: &Vec<String>, needle: &str) -> (r: bool)
    ensures
        r == views(items@).contains(needle@),
{
    let mut i: usize = 0;
    while i < items.len()
        invariant
            i <= items.len(),
            forall|j: int| 0 <= j < i ==> views(items@)[j] != needle@,
        decreases items.len() - i,
    {
        if text_eq(items[i].as_str(), needle) {
            assert(views(items@)[i as int] == needle@);
            return true;
        }
        assert(views(items@)[i as int] == items@[i as int]@);
        i += 1;
    }
    false
}

fn digit_text(d: u64) -> (r: &'static str)
    requires
        d < 10,
    ensures
        r@ == seq![digit_char(d as int)],
{
    proof {
        reveal_strlit("0");
        reveal_strlit("1");
        reveal_strlit("2");
        reveal_strlit("3");
        reveal_strlit("4");
        reveal_strlit("5");
        reveal_strlit("6");
        reveal_strlit("7");
        reveal_strlit("8");
        reveal_strlit("9");
    }
    let r: &'static str = if d == 0 {
        "0"
    } else if d == 1 {
        "1"
    } else if d == 2 {
        "2"
    } else if d == 3 {
        "3"
    } else if d == 4 {
        "4"
    } else if d == 5 {
        "5"
    } else if d == 6 {
        "6"
    } else if d == 7 {
        "7"
    } else if d == 8 {
        "8"
    } else {
        "9"
    };
    assert(r@ =~= seq![digit_char(d as int)]);
    r
}

/// The decimal numeral of `n`.
pub fn decimal_string(n: u64) -> (r: String)
    ensures
        r@ == decimal(n as nat),
    decreases n,
{
    if n < 10 {
        String::from_str(digit_text(n))
    } else {
        let mut out: String = decimal_string(n / 10);
        let last: &'static str = digit_text(n % 10);
        out.append(last);
        assert(out@ =~= decimal((n / 10) as nat).push(digit_char((n % 10) as int)));
        out
    }
}

/// Cuts `s` at every comma.
pub fn split_commas(s: &str) -> (r: Vec<String>)
    ensures
        views(r@) == split(s@, comma()),
{
    let n: usize = s.unicode_len();
    let mut done: Vec<String> = Vec::new();
    let mut start: usize = 0;
    let mut i: usize = 0;
    proof {
        assert(s@.subrange(0, 0) =~= Seq::<char>::empty());
        assert(views(done@).push(s@.subrange(0, 0)) =~= split(s@.subrange(0, 0), comma()));
    }
    while i < n
        invariant
            n == s@.len(),
            start <= i <= n,
            views(done@).push(s@.subrange(start as int, i as int)) == split(
                s@.subrange(0, i as int),
                comma(),
            ),
        decreases n - i,
    {
        let c: char = s.get_char(i);
        let ghost seen = s@.subrange(0, i as int);
        let ghost next = s@.subrange(0, i + 1);
        proof {
            assert(next.drop_last() =~= seen);
            assert(next.last() == c);
        }
        if c == ',' {
            let piece: String = String::from_str(s.substring_char(start, i));
            let ghost before = views(done@);
            done.push(piece);
            proof {
                assert(views(done@) =~= before.push(s@.subrange(start as int, i as int)));
                assert(s@.subrange(i + 1, i + 1) =~= Seq::<char>::empty());
            }
            start = i + 1;
        } else {
            proof {
                let whole = views(done@).push(s@.subrange(start as int, i as int));
                assert(whole.drop_last() =~= views(done@));
                assert(whole.last().push(c) =~= s@.subrange(start as int, i + 1));
            }
        }
        i += 1;
    }
    let piece: String = String::from_str(s.substring_char(start, n));
    let ghost before = views(done@);
    done.push(piece);
    proof {
        assert(views(done@) =~= before.push(s@.subrange(start as int, n as int)));
        assert(s@.subrange(0, n as int) =~= s@);
    }
    done
}

/// Writes `parts` one after another with a comma between neighbours.
pub fn join_commas(parts: &Vec<String>) -> (r: String)
    ensures
        r@ == join(views(parts@), comma()),
{
    let mut out: String = String::new();
    let mut i: usize = 0;
    proof {
        assert(views(parts@).subrange(0, 0) =~= Seq::<Seq<char>>::empty());
    }
    while i < parts.len()
        invariant
            i <= parts.len(),
            out@ == join(views(parts@).subrange(0, i as int), comma()),
        decreases parts.len() - i,
    {
        let ghost seen = views(parts@).subrange(0, i as int);
        let ghost next = views(parts@).subrange(0, i + 1);
        proof {
            assert(next.drop_last() =~= seen);
            assert(next.last() == parts@[i as int]@);
            reveal_strlit(",");
            assert(","@ =~= seq![comma()]);
        }
        if i > 0 {
            out.append(",");
            out.append(parts[i].as_str());
            proof {
                assert(out@ =~= join(seen, comma()).push(comma()) + parts@[i as int]@);
            }
        } else {
            out.append(parts[i].as_str());
            proof {
                assert(seen =~= Seq::<Seq<char>>::empty());
                assert(out@ =~= parts@[i as int]@);
                assert(next[0] == parts@[i as int]@);
            }
        }
        i += 1;
    }
    proof {
        assert(views(parts@).subrange(0, parts.len() as int) =~= views(parts@));
    }
    out
}

/// Takes the whitespace out of a text.
pub fn remove_whitespace(s: &str) -> (r: String)
    ensures
        r@ == without_whitespace(s@),
{
    let n: usize = s.unicode_len();
    let mut out: String = String::new();
    let mut i: usize = 0;
    proof {
        reveal(Seq::filter);
        assert(s@.take(0) =~= Seq::<char>::empty());
    }
    while i < n
        invariant
            n == s@.len(),
            i <= n,
            out@ == without_whitespace(s@.take(i as int)),
        decreases n - i,
    {
        let c: char = s.get_char(i);
        proof {
            reveal(Seq::filter);
            assert(s@.take(i + 1).drop_last() =~= s@.take(i as int));
            assert(s@.take(i + 1).last() == c);
        }
        if !c.is_whitespace() {
            let one: &str = s.substring_char(i, i + 1);
            proof {
                assert(one@ =~= seq![c]);
            }
            out.append(one);
            proof {
                assert(out@ =~= without_whitespace(s@.take(i as int)).push(c));
            }
        }
        i += 1;
    }
    proof {
        assert(s@.take(n as int) =~= s@);
    }
    out
}

} // verus!
