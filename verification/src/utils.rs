//! Texts as sequences of characters: decimal notation, joining and counting.

use vstd::prelude::*;

verus! {

/// The character that writes the decimal digit `d`.
pub open spec fn digit_char(d: int) -> char {
    if d == 0 {
        '0'
    } else if d == 1 {
        '1'
    } else if d == 2 {
        '2'
    } else if d == 3 {
        '3'
    } else if d == 4 {
        '4'
    } else if d == 5 {
        '5'
    } else if d == 6 {
        '6'
    } else if d == 7 {
        '7'
    } else if d == 8 {
        '8'
    } else {
        '9'
    }
}

/// Decimal notation of a natural number, without leading zeros.
pub open spec fn nat_text(n: nat) -> Seq<char>
    decreases n,
{
    if n < 10 {
        seq![digit_char(n as int)]
    } else {
        nat_text(n / 10).push(digit_char((n % 10) as int))
    }
}

/// Decimal notation of an integer, with a leading minus sign below zero.
pub open spec fn int_text(i: int) -> Seq<char> {
    if i < 0 {
        seq!['-'] + nat_text((-i) as nat)
    } else {
        nat_text(i as nat)
    }
}

/// The parts written one after another, with `sep` between neighbours.
pub open spec fn join(parts: Seq<Seq<char>>, sep: Seq<char>) -> Seq<char>
    decreases parts.len(),
{
    if parts.len() == 0 {
        Seq::empty()
    } else if parts.len() == 1 {
        parts[0]
    } else {
        join(parts.drop_last(), sep) + sep + parts.last()
    }
}

/// The parts written one after another.
pub open spec fn concat_all<T>(parts: Seq<Seq<T>>) -> Seq<T>
    decreases parts.len(),
{
    if parts.len() == 0 {
        Seq::empty()
    } else {
        concat_all(parts.drop_last()) + parts.last()
    }
}

/// How often `c` occurs in `s`.
pub open spec fn count_char(s: Seq<char>, c: char) -> nat
    decreases s.len(),
{
    if s.len() == 0 {
        0
    } else {
        count_char(s.drop_last(), c) + if s.last() == c {
            1nat
        } else {
            0nat
        }
    }
}

/// Joining after one more part has been appended.
pub proof fn lemma_join_push(parts: Seq<Seq<char>>, sep: Seq<char>, part: Seq<char>)
    ensures
        parts.len() == 0 ==> join(parts.push(part), sep) == part,
        parts.len() > 0 ==> join(parts.push(part), sep) == join(parts, sep) + sep + part,
{
    assert(parts.push(part).drop_last() =~= parts);
}

/// Joining one more part of a list to the parts before it.
pub proof fn lemma_join_take(parts: Seq<Seq<char>>, sep: Seq<char>, i: int)
    requires
        0 <= i < parts.len(),
    ensures
        i == 0 ==> join(parts.take(i + 1), sep) == parts[i],
        i > 0 ==> join(parts.take(i + 1), sep) == join(parts.take(i), sep) + sep + parts[i],
        join(parts.take(0), sep) == Seq::<char>::empty(),
{
    assert(parts.take(i + 1) =~= parts.take(i).push(parts[i]));
    lemma_join_push(parts.take(i), sep, parts[i]);
}

/// Where the part at position `i` begins in the joined text.
pub open spec fn join_offset(parts: Seq<Seq<char>>, sep: Seq<char>, i: int) -> int {
    if i <= 0 {
        0
    } else {
        (join(parts.take(i), sep).len() + sep.len()) as int
    }
}

/// The first `k` parts, joined, begin the joined text.
pub proof fn lemma_join_prefix(parts: Seq<Seq<char>>, sep: Seq<char>, k: int)
    requires
        0 <= k <= parts.len(),
    ensures
        join(parts.take(k), sep).len() <= join(parts, sep).len(),
        join(parts, sep).subrange(0, join(parts.take(k), sep).len() as int) == join(
            parts.take(k),
            sep,
        ),
    decreases parts.len() - k,
{
    if k == parts.len() {
        assert(parts.take(k) =~= parts);
    } else {
        lemma_join_prefix(parts, sep, k + 1);
        lemma_join_take(parts, sep, k);
    }
}

/// Each part stands in the joined text, in its place, and the separator
/// stands before each part but the first.
pub proof fn lemma_join_part(parts: Seq<Seq<char>>, sep: Seq<char>, i: int)
    requires
        0 <= i < parts.len(),
    ensures
        join_offset(parts, sep, i) + parts[i].len() <= join(parts, sep).len(),
        join(parts, sep).subrange(
            join_offset(parts, sep, i),
            join_offset(parts, sep, i) + parts[i].len(),
        ) == parts[i],
        i > 0 ==> join(parts, sep).subrange(
            join_offset(parts, sep, i) - sep.len(),
            join_offset(parts, sep, i),
        ) == sep,
        i + 1 == parts.len() ==> join_offset(parts, sep, i) + parts[i].len() == join(
            parts,
            sep,
        ).len(),
{
    lemma_join_prefix(parts, sep, i + 1);
    lemma_join_take(parts, sep, i);
    let upto = join(parts.take(i + 1), sep);
    let offset = join_offset(parts, sep, i);
    assert(upto.subrange(offset, offset + parts[i].len()) =~= parts[i]);
    if i > 0 {
        assert(upto.subrange(offset - sep.len(), offset) =~= sep);
    }
}

/// Concatenating after one more part has been appended.
pub proof fn lemma_concat_all_push<T>(parts: Seq<Seq<T>>, part: Seq<T>)
    ensures
        concat_all(parts.push(part)) == concat_all(parts) + part,
{
    assert(parts.push(part).drop_last() =~= parts);
}

/// Occurrences add up over concatenation.
pub proof fn lemma_count_char_add(a: Seq<char>, b: Seq<char>, c: char)
    ensures
        count_char(a + b, c) == count_char(a, c) + count_char(b, c),
    decreases b.len(),
{
    if b.len() > 0 {
        assert((a + b).drop_last() =~= a + b.drop_last());
        lemma_count_char_add(a, b.drop_last(), c);
    }
}

/// How often `c` occurs in all of `parts` together.
pub open spec fn count_in_parts(parts: Seq<Seq<char>>, c: char) -> nat
    decreases parts.len(),
{
    if parts.len() == 0 {
        0
    } else {
        count_in_parts(parts.drop_last(), c) + count_char(parts.last(), c)
    }
}

/// Joining with a separator that is free of `c` adds no occurrence of it.
pub proof fn lemma_join_count(parts: Seq<Seq<char>>, sep: Seq<char>, c: char)
    requires
        count_char(sep, c) == 0,
    ensures
        count_char(join(parts, sep), c) == count_in_parts(parts, c),
    decreases parts.len(),
{
    if parts.len() == 1 {
        assert(count_in_parts(parts.drop_last(), c) == 0);
    } else if parts.len() > 1 {
        lemma_join_count(parts.drop_last(), sep, c);
        lemma_count_char_add(join(parts.drop_last(), sep), sep, c);
        lemma_count_char_add(join(parts.drop_last(), sep) + sep, parts.last(), c);
    }
}

/// Parts that are all free of `c` hold none of it together.
pub proof fn lemma_count_in_parts_absent(parts: Seq<Seq<char>>, c: char)
    requires
        forall|i: int| 0 <= i < parts.len() ==> !(#[trigger] parts[i]).contains(c),
    ensures
        count_in_parts(parts, c) == 0,
    decreases parts.len(),
{
    if parts.len() > 0 {
        lemma_count_in_parts_absent(parts.drop_last(), c);
        lemma_count_char_absent(parts.last(), c);
    }
}

/// The decimal notation of a number holds digits only.
pub proof fn lemma_nat_text_digits(n: nat, c: char)
    requires
        forall|d: int| 0 <= d < 10 ==> digit_char(d) != c,
    ensures
        count_char(nat_text(n), c) == 0,
    decreases n,
{
    if n < 10 {
        assert(count_char(nat_text(n).drop_last(), c) == 0);
    } else {
        lemma_nat_text_digits(n / 10, c);
        assert(nat_text(n).drop_last() =~= nat_text(n / 10));
    }
}

/// A text in which `c` stands nowhere counts none of it.
pub proof fn lemma_count_char_absent(s: Seq<char>, c: char)
    requires
        !s.contains(c),
    ensures
        count_char(s, c) == 0,
    decreases s.len(),
{
    if s.len() > 0 {
        assert forall|i: int| 0 <= i < s.drop_last().len() implies s.drop_last()[i] != c by {
        }
        lemma_count_char_absent(s.drop_last(), c);
    }
}

/// `text` with each occurrence of `mark` replaced by one of `literals`: the
/// first occurrence by the first literal, and so on from left to right. An
/// occurrence for which no literal is left stays as it is.
pub open spec fn substituted(text: Seq<char>, mark: char, literals: Seq<Seq<char>>) -> Seq<char>
    decreases text.len(),
{
    if text.len() == 0 {
        Seq::empty()
    } else if text.last() == mark {
        substituted(text.drop_last(), mark, literals) + if count_char(text.drop_last(), mark)
            < literals.len() {
            literals[count_char(text.drop_last(), mark) as int]
        } else {
            seq![mark]
        }
    } else {
        substituted(text.drop_last(), mark, literals).push(text.last())
    }
}

/// Substituting in a concatenation: the second part takes up the literals
/// where the first part has left off.
pub proof fn lemma_substituted_add(a: Seq<char>, b: Seq<char>, mark: char, literals: Seq<Seq<char>>)
    requires
        count_char(a, mark) <= literals.len(),
    ensures
        substituted(a + b, mark, literals) == substituted(a, mark, literals) + substituted(
            b,
            mark,
            literals.skip(count_char(a, mark) as int),
        ),
    decreases b.len(),
{
    if b.len() > 0 {
        assert((a + b).drop_last() =~= a + b.drop_last());
        lemma_substituted_add(a, b.drop_last(), mark, literals);
        lemma_count_char_add(a, b.drop_last(), mark);
    }
}

/// A text without the mark is left as it is.
pub proof fn lemma_substituted_absent(text: Seq<char>, mark: char, literals: Seq<Seq<char>>)
    requires
        count_char(text, mark) == 0,
    ensures
        substituted(text, mark, literals) == text,
    decreases text.len(),
{
    if text.len() > 0 {
        lemma_substituted_absent(text.drop_last(), mark, literals);
    }
}

/// Substituting between two texts without the mark leaves both as they are.
pub proof fn lemma_substituted_between(
    before: Seq<char>,
    text: Seq<char>,
    after: Seq<char>,
    mark: char,
    literals: Seq<Seq<char>>,
)
    requires
        count_char(before, mark) == 0,
        count_char(after, mark) == 0,
        count_char(text, mark) <= literals.len(),
    ensures
        substituted(before + text + after, mark, literals) == before + substituted(
            text,
            mark,
            literals,
        ) + after,
        count_char(before + text + after, mark) == count_char(text, mark),
{
    lemma_count_char_add(before, text, mark);
    lemma_count_char_add(before + text, after, mark);
    lemma_substituted_add(before + text, after, mark, literals);
    lemma_substituted_add(before, text, mark, literals);
    lemma_substituted_absent(before, mark, literals);
    lemma_substituted_absent(after, mark, literals.skip(count_char(before + text, mark) as int));
    assert(literals.skip(0) =~= literals);
}

/// Literals beyond the occurrences of the mark make no difference.
pub proof fn lemma_substituted_spare(
    text: Seq<char>,
    mark: char,
    literals: Seq<Seq<char>>,
    spare: Seq<Seq<char>>,
)
    requires
        count_char(text, mark) <= literals.len(),
    ensures
        substituted(text, mark, literals + spare) == substituted(text, mark, literals),
    decreases text.len(),
{
    if text.len() > 0 {
        lemma_substituted_spare(text.drop_last(), mark, literals, spare);
    }
}

/// The mark alone becomes the first literal.
pub proof fn lemma_substituted_mark(mark: char, literals: Seq<Seq<char>>)
    requires
        literals.len() > 0,
    ensures
        substituted(seq![mark], mark, literals) == literals[0],
{
    let none = Seq::<char>::empty();
    assert(seq![mark].drop_last() =~= none);
    assert(substituted(none, mark, literals) =~= none);
}

/// Substituting in joined parts, where each part has its own literals: each
/// part takes its own, as long as it holds as many marks as it has literals
/// and the separator holds none.
pub proof fn lemma_substituted_join(
    parts: Seq<Seq<char>>,
    sep: Seq<char>,
    mark: char,
    found: Seq<Seq<Seq<char>>>,
)
    requires
        parts.len() == found.len(),
        count_char(sep, mark) == 0,
        forall|i: int|
            0 <= i < parts.len() ==> count_char(#[trigger] parts[i], mark) == found[i].len(),
    ensures
        substituted(join(parts, sep), mark, concat_all(found)) == join(
            Seq::new(parts.len(), |i: int| substituted(parts[i], mark, found[i])),
            sep,
        ),
        count_char(join(parts, sep), mark) == concat_all(found).len(),
    decreases parts.len(),
{
    let done = Seq::new(parts.len(), |i: int| substituted(parts[i], mark, found[i]));
    if parts.len() > 0 {
        let n = parts.len() - 1;
        let before = parts.drop_last();
        let found_before = found.drop_last();
        let done_before = Seq::new(
            before.len(),
            |i: int| substituted(before[i], mark, found_before[i]),
        );
        lemma_substituted_join(before, sep, mark, found_before);
        assert(done.drop_last() =~= done_before);
        let all = concat_all(found);
        let earlier = concat_all(found_before);
        if parts.len() > 1 {
            let joined = join(before, sep);
            lemma_count_char_add(joined, sep, mark);
            lemma_count_char_add(joined + sep, parts[n], mark);
            lemma_substituted_add(joined + sep, parts[n], mark, all);
            lemma_substituted_add(joined, sep, mark, all);
            lemma_substituted_spare(joined, mark, earlier, found[n]);
            lemma_substituted_absent(sep, mark, all.skip(earlier.len() as int));
            assert(all.skip(earlier.len() as int) =~= found[n]);
        }
    }
}

fn digit_str(d: u64) -> (r: &'static str)
    requires
        d < 10,
    ensures
        r@ == seq![digit_char(d as int)],
{
    proof {
        reveal_strlit("0");
        reveal_strlit("1");
        reveal_strlit("2");
        reveal_strlit("3");
        reveal_strlit("4");
        reveal_strlit("5");
        reveal_strlit("6");
        reveal_strlit("7");
        reveal_strlit("8");
        reveal_strlit("9");
    }
    if d == 0 {
        "0"
    } else if d == 1 {
        "1"
    } else if d == 2 {
        "2"
    } else if d == 3 {
        "3"
    } else if d == 4 {
        "4"
    } else if d == 5 {
        "5"
    } else if d == 6 {
        "6"
    } else if d == 7 {
        "7"
    } else if d == 8 {
        "8"
    } else {
        "9"
    }
}

/// Appends the decimal notation of `n` to `out`.
pub fn push_nat(out: &mut String, n: u64)
    ensures
        final(out)@ == old(out)@ + nat_text(n as nat),
    decreases n,
{
    if n >= 10 {
        push_nat(out, n / 10);
    }
    out.append(digit_str(n % 10));
}

/// Appends the decimal notation of `v` to `out`.
pub fn push_int(out: &mut String, v: i64)
    ensures
        final(out)@ == old(out)@ + int_text(v as int),
{
    if v < 0 {
        proof {
            reveal_strlit("-");
        }
        out.append("-");
        let magnitude: u64 = if v == i64::MIN {
            9223372036854775808u64
        } else {
            (-v) as u64
        };
        push_nat(out, magnitude);
    } else {
        push_nat(out, v as u64);
    }
}

} // verus!
