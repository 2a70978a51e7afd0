//! Text operations with exact contracts: concatenation, splitting and joining.

use vstd::prelude::*;
use vstd::string::*;
use vstd::utf8::*;

verus! {

/// The pieces of `s` between occurrences of `sep`: one more piece than there are
/// separators, empty pieces included.
pub open spec fn split(s: Seq<char>, sep: char) -> Seq<Seq<char>>
    decreases s.len(),
{
    if s.len() == 0 {
        seq![Seq::empty()]
    } else {
        let init = split(s.drop_last(), sep);
        if s.last() == sep {
            init.push(Seq::empty())
        } else {
            init.drop_last().push(init.last().push(s.last()))
        }
    }
}

/// The pieces of `parts` in order, with `sep` between neighbours.
pub open spec fn join(parts: Seq<Seq<char>>, sep: Seq<char>) -> Seq<char>
    decreases parts.len(),
{
    if parts.len() == 0 {
        Seq::empty()
    } else if parts.len() == 1 {
        parts[0]
    } else {
        join(parts.drop_last(), sep) + sep + parts.last()
    }
}

/// The views of the strings of `v`, in order.
pub open spec fn views(v: Seq<String>) -> Seq<Seq<char>> {
    Seq::new(v.len(), |i: int| v[i]@)
}

/// Appends one character with `String::push`, which puts the character at the
/// end of the string and changes nothing else.
#[verifier::external_body]
pub(crate) fn push_char(s: &mut String, c: char)
    ensures
        final(s)@ == old(s)@.push(c),
{
    s.push(c);
}

/// The text of `a` followed by the text of `b`.
pub fn concat_str(a: &str, b: &str) -> (r: String)
    ensures
        r@ == a@ + b@,
{
    let mut out = String::from_str(a);
    out.append(b);
    out
}

/// Splits `s` at every occurrence of `sep`.
pub fn split_char(s: &str, sep: char) -> (r: Vec<String>)
    ensures
        views(r@) == split(s@, sep),
{
    let mut done: Vec<String> = Vec::new();
    let mut current = String::new();
    for c in it: s.chars()
        invariant
            it.seq() == s@,
            views(done@).push(current@) == split(s@.take(it.index() as int), sep),
    {
        assert(s@.take(it.index() + 1).drop_last() == s@.take(it.index() as int));
        if c == sep {
            done.push(current);
            current = String::new();
        } else {
            push_char(&mut current, c);
        }
    }
    assert(s@.take(s@.len() as int) == s@);
    done.push(current);
    assert(views(done@) == views(done@.drop_last()).push(done@.last()@));
    done
}

/// Joins the strings of `parts` with `sep` between neighbours.
pub fn join_strings(parts: &Vec<String>, sep: &str) -> (r: String)
    ensures
        r@ == join(views(parts@), sep@),
{
    let mut out = String::new();
    let mut i: usize = 0;
    while i < parts.len()
        invariant
            i <= parts.len(),
            out@ == join(views(parts@).take(i as int), sep@),
        decreases parts.len() - i,
    {
        let ghost before = views(parts@).take(i as int);
        let ghost after = views(parts@).take(i + 1);
        assert(after.drop_last() == before);
        assert(after.last() == parts@[i as int]@);
        if i > 0 {
            out.append(sep);
        }
        out.append(parts[i].as_str());
        i += 1;
    }
    assert(views(parts@).take(parts.len() as int) == views(parts@));
    out
}

/// Whether two string slices hold the same text.
pub fn str_eq(a: &str, b: &str) -> (r: bool)
    ensures
        r == (a@ == b@),
{
    let x = a.as_bytes();
    let y = b.as_bytes();
    proof {
        encode_utf8_decode_utf8(a@);
        encode_utf8_decode_utf8(b@);
    }
    if x.len() != y.len() {
        return false;
    }
    let mut i: usize = 0;
    while i < x.len()
        invariant
            i <= x.len(),
            x.len() == y.len(),
            x@.take(i as int) == y@.take(i as int),
            x@ == encode_utf8(a@),
            y@ == encode_utf8(b@),
            decode_utf8(encode_utf8(a@)) == a@,
            decode_utf8(encode_utf8(b@)) == b@,
        decreases x.len() - i,
    {
        if x[i] != y[i] {
            assert(x@[i as int] != y@[i as int]);
            return false;
        }
        assert(x@.take(i + 1) == x@.take(i as int).push(x@[i as int]));
        assert(y@.take(i + 1) == y@.take(i as int).push(y@[i as int]));
        i += 1;
    }
    assert(x@.take(x.len() as int) == x@);
    assert(y@.take(y.len() as int) == y@);
    true
}

/// Whether `s` begins with the character `c`.
pub fn starts_with_char(s: &str, c: char) -> (r: bool)
    ensures
        r == (s@.len() > 0 && s@[0] == c),
{
    let mut it = s.chars();
    match it.next() {
        Some(first) => first == c,
        None => false,
    }
}

/// Splitting at a separator and joining with it again gives the text back.
pub proof fn lemma_join_split(s: Seq<char>, sep: char)
    ensures
        join(split(s, sep), seq![sep]) == s,
        split(s, sep).len() >= 1,
    decreases s.len(),
{
    if s.len() > 0 {
        let init = split(s.drop_last(), sep);
        lemma_join_split(s.drop_last(), sep);
        lemma_join_push_last(init.drop_last(), init.last(), s.last(), seq![sep]);
        if s.last() == sep {
            assert(init.push(Seq::empty()).drop_last() == init);
            assert(join(init, seq![sep]) + seq![sep] + Seq::<char>::empty() == s.drop_last().push(sep));
        } else {
            assert(init == init.drop_last().push(init.last()));
        }
        assert(s.drop_last().push(s.last()) == s);
    }
}

/// Appending a character to the last piece appends it to the joined text.
proof fn lemma_join_push_last(head: Seq<Seq<char>>, last: Seq<char>, c: char, sep: Seq<char>)
    ensures
        join(head.push(last.push(c)), sep) == join(head.push(last), sep).push(c),
{
    assert(head.push(last.push(c)).drop_last() == head);
    assert(head.push(last).drop_last() == head);
    if head.len() > 0 {
        assert(join(head, sep) + sep + last.push(c) == (join(head, sep) + sep + last).push(c));
    }
}

/// No piece of a split holds the separator.
pub proof fn lemma_split_pieces(s: Seq<char>, sep: char)
    ensures
        forall|i: int| 0 <= i < split(s, sep).len() ==> !(#[trigger] split(s, sep)[i]).contains(sep),
    decreases s.len(),
{
    if s.len() > 0 {
        lemma_split_pieces(s.drop_last(), sep);
        let init = split(s.drop_last(), sep);
        if s.last() != sep {
            let last = init.last().push(s.last());
            assert forall|k: int| 0 <= k < last.len() implies last[k] != sep by {
                if k < init.last().len() {
                    assert(init.last().contains(last[k]));
                }
            }
        }
    }
}

/// Joining pieces that are free of the separator and splitting the result gives
/// the pieces back.
pub proof fn lemma_split_join(parts: Seq<Seq<char>>, sep: char)
    requires
        parts.len() >= 1,
        forall|i: int| 0 <= i < parts.len() ==> !(#[trigger] parts[i]).contains(sep),
    ensures
        split(join(parts, seq![sep]), sep) == parts,
    decreases parts.len(),
{
    let last = parts.last();
    if parts.len() == 1 {
        lemma_split_append(Seq::empty(), last, sep);
        assert(Seq::<char>::empty() + last == last);
        assert(seq![Seq::<char>::empty()].drop_last().push(Seq::<char>::empty() + last) == parts);
    } else {
        let head = parts.drop_last();
        lemma_split_join(head, sep);
        let joined = join(head, seq![sep]);
        assert((joined + seq![sep]).drop_last() == joined);
        lemma_split_append(joined + seq![sep], last, sep);
        assert(joined + seq![sep] + last == join(parts, seq![sep]));
        assert(head.push(Seq::empty()).drop_last().push(Seq::<char>::empty() + last) == parts);
    }
}

/// Text free of the separator, appended to `s`, extends the last piece of `s`.
proof fn lemma_split_append(s: Seq<char>, tail: Seq<char>, sep: char)
    requires
        !tail.contains(sep),
    ensures
        split(s + tail, sep) == split(s, sep).drop_last().push(split(s, sep).last() + tail),
    decreases tail.len(),
{
    lemma_join_split(s, sep);
    let pieces = split(s, sep);
    if tail.len() == 0 {
        assert(s + tail == s);
        assert(pieces.last() + tail == pieces.last());
        assert(pieces.drop_last().push(pieces.last()) == pieces);
    } else {
        let init = tail.drop_last();
        assert forall|k: int| 0 <= k < init.len() implies init[k] != sep by {
            assert(tail.contains(tail[k]));
        }
        lemma_split_append(s, init, sep);
        assert((s + tail).drop_last() == s + init);
        assert(tail.contains(tail.last()));
        let grown = pieces.drop_last().push(pieces.last() + init);
        assert(grown.drop_last() == pieces.drop_last());
        assert((pieces.last() + init).push(tail.last()) == pieces.last() + tail);
    }
}

/// The character of a decimal digit.
pub open spec fn digit(d: nat) -> char {
    ((48 + d) as u8) as char
}

/// The decimal digits of a natural number, without leading zeros.
pub open spec fn decimal(n: nat) -> Seq<char>
    decreases n,
{
    if n < 10 {
        seq![digit(n)]
    } else {
        decimal(n / 10).push(digit(n % 10))
    }
}

/// The decimal digits of an integer, after a minus sign where it is negative.
pub open spec fn signed_decimal(n: int) -> Seq<char> {
    if n < 0 {
        seq!['-'] + decimal((-n) as nat)
    } else {
        decimal(n as nat)
    }
}

/// Writes a number in decimal digits.
pub fn to_decimal(n: u64) -> (r: String)
    ensures
        r@ == decimal(n as nat),
    decreases n,
{
    if n < 10 {
        let mut out = String::new();
        push_char(&mut out, (48 + n as u8) as char);
        assert(out@ =~= seq![digit(n as nat)]);
        out
    } else {
        let mut out = to_decimal(n / 10);
        push_char(&mut out, (48 + (n % 10) as u8) as char);
        out
    }
}

/// Writes an integer in decimal digits, after a minus sign where it is
/// negative.
pub fn to_signed_decimal(n: i64) -> (r: String)
    ensures
        r@ == signed_decimal(n as int),
{
    if n < 0 {
        let magnitude: u64 = (-(n + 1)) as u64 + 1;
        proof {
            reveal_strlit("-");
            assert("-"@ == seq!['-']);
        }
        let digits = to_decimal(magnitude);
        concat_str("-", digits.as_str())
    } else {
        to_decimal(n as u64)
    }
}

/// `to` before every character of `s` and after the last: what replacing the
/// empty text by `to` yields, since the empty text occurs at every position.
pub open spec fn interleaved(s: Seq<char>, to: Seq<char>) -> Seq<char>
    decreases s.len(),
{
    if s.len() == 0 {
        to
    } else {
        to + seq![s[0]] + interleaved(s.skip(1), to)
    }
}

/// `s` with every occurrence of `from` replaced by `to`. Occurrences are found
/// from the front and do not overlap.
pub open spec fn replaced(s: Seq<char>, from: Seq<char>, to: Seq<char>) -> Seq<char>
    decreases s.len(),
{
    if from.len() == 0 {
        interleaved(s, to)
    } else if s.len() < from.len() {
        s
    } else if s.take(from.len() as int) == from {
        to + replaced(s.skip(from.len() as int), from, to)
    } else {
        seq![s[0]] + replaced(s.skip(1), from, to)
    }
}

/// The characters of a string.
fn chars_of(s: &str) -> (r: Vec<char>)
    ensures
        r@ == s@,
{
    let mut out: Vec<char> = Vec::new();
    for c in it: s.chars()
        invariant
            it.seq() == s@,
            out@ == s@.take(it.index() as int),
    {
        out.push(c);
        assert(s@.take(it.index() + 1) == s@.take(it.index() as int).push(c));
    }
    assert(s@.take(s@.len() as int) == s@);
    out
}

/// Whether `pattern` stands in `text` at position `at`.
fn occurs_at(text: &Vec<char>, at: usize, pattern: &Vec<char>) -> (r: bool)
    requires
        at + pattern.len() <= text.len(),
    ensures
        r == (text@.skip(at as int).take(pattern.len() as int) == pattern@),
{
    let ghost window = text@.skip(at as int).take(pattern.len() as int);
    let mut k: usize = 0;
    while k < pattern.len()
        invariant
            k <= pattern.len(),
            at + pattern.len() <= text.len(),
            window == text@.skip(at as int).take(pattern.len() as int),
            forall|j: int| 0 <= j < k ==> window[j] == pattern@[j],
        decreases pattern.len() - k,
    {
        if text[at + k] != pattern[k] {
            assert(window[k as int] != pattern@[k as int]);
            return false;
        }
        k += 1;
    }
    assert(window =~= pattern@);
    true
}

/// Replaces every occurrence of `from` in `text` by `to`.
pub fn replace_all(text: &str, from: &str, to: &str) -> (r: String)
    ensures
        r@ == replaced(text@, from@, to@),
{
    let pattern = chars_of(from);
    let all = chars_of(text);
    let mut out = String::new();
    let mut i: usize = 0;
    proof {
        assert(all@.skip(0) == all@);
    }
    if pattern.len() == 0 {
        while i < all.len()
            invariant
                i <= all.len(),
                interleaved(all@, to@) == out@ + interleaved(all@.skip(i as int), to@),
            decreases all.len() - i,
        {
            let ghost rest = all@.skip(i as int);
            let ghost before = out@;
            out.append(to);
            push_char(&mut out, all[i]);
            proof {
                assert(rest[0] == all@[i as int]);
                assert(rest.skip(1) == all@.skip(i + 1));
                assert(before + (to@ + seq![rest[0]] + interleaved(rest.skip(1), to@)) =~= (before
                    + to@).push(rest[0]) + interleaved(rest.skip(1), to@));
            }
            i += 1;
        }
        out.append(to);
        return out;
    }
    while i < all.len()
        invariant
            i <= all.len(),
            all@ == text@,
            pattern@ == from@,
            pattern.len() > 0,
            replaced(text@, from@, to@) == out@ + replaced(all@.skip(i as int), from@, to@),
        decreases all.len() - i,
    {
        let ghost rest = all@.skip(i as int);
        let ghost before = out@;
        if pattern.len() <= all.len() - i && occurs_at(&all, i, &pattern) {
            out.append(to);
            proof {
                assert(rest.skip(pattern.len() as int) == all@.skip(i + pattern.len()));
                assert(before + (to@ + replaced(rest.skip(pattern.len() as int), from@, to@)) =~= (before
                    + to@) + replaced(rest.skip(pattern.len() as int), from@, to@));
            }
            i += pattern.len();
        } else {
            push_char(&mut out, all[i]);
            proof {
                assert(rest[0] == all@[i as int]);
                assert(rest.skip(1) == all@.skip(i + 1));
                if rest.len() >= from@.len() {
                    assert(before + (seq![rest[0]] + replaced(rest.skip(1), from@, to@)) =~= before.push(
                        rest[0],
                    ) + replaced(rest.skip(1), from@, to@));
                } else {
                    // The rest is shorter than the pattern: it stays as it is, and so
                    // does what is left of it after one character.
                    assert(replaced(rest, from@, to@) == rest);
                    assert(replaced(rest.skip(1), from@, to@) == rest.skip(1));
                    assert(before + rest =~= before.push(rest[0]) + rest.skip(1));
                }
            }
            i += 1;
        }
    }
    proof {
        assert(all@.skip(all.len() as int) =~= Seq::<char>::empty());
        assert(out@ + Seq::<char>::empty() =~= out@);
    }
    out
}

} // verus!
