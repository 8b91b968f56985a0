//! Writing text: numbers in decimal and in hexadecimal appended to a string, and lines put in order and
//! joined.
use vstd::prelude::*;
use vstd::relations::{sorted_by, total_ordering};
use vstd::seq_lib::{lemma_sorted_unique, to_multiset_build, to_multiset_insert, to_multiset_len};

verus! {

/// The standard library's [`String::push`] appends one character.
pub assume_specification[ String::push ](s: &mut String, c: char)
    ensures
        final(s)@ == old(s)@.push(c),
;

/// A digit below sixteen, in lower case.
pub open spec fn digit(d: int) -> char {
    if d == 0 {
        '0'
    } else if d == 1 {
        '1'
    } else if d == 2 {
        '2'
    } else if d == 3 {
        '3'
    } else if d == 4 {
        '4'
    } else if d == 5 {
        '5'
    } else if d == 6 {
        '6'
    } else if d == 7 {
        '7'
    } else if d == 8 {
        '8'
    } else if d == 9 {
        '9'
    } else if d == 10 {
        'a'
    } else if d == 11 {
        'b'
    } else if d == 12 {
        'c'
    } else if d == 13 {
        'd'
    } else if d == 14 {
        'e'
    } else {
        'f'
    }
}

fn digit_char(d: u64) -> (c: char)
    requires
        d < 16,
    ensures
        c == digit(d as int),
{
    match d {
        0 => '0',
        1 => '1',
        2 => '2',
        3 => '3',
        4 => '4',
        5 => '5',
        6 => '6',
        7 => '7',
        8 => '8',
        9 => '9',
        10 => 'a',
        11 => 'b',
        12 => 'c',
        13 => 'd',
        14 => 'e',
        _ => 'f',
    }
}

/// A number in a base, most significant digit first, without leading zeros.
pub open spec fn numeral(n: nat, base: nat) -> Seq<char>
    decreases n,
{
    if base < 2 || n < base {
        seq![digit(n as int)]
    } else {
        proof {
            assert(n / base < n) by (nonlinear_arith)
                requires
                    n >= base,
                    base >= 2,
            ;
        }
        numeral(n / base, base).push(digit((n % base) as int))
    }
}

/// A number in decimal.
pub open spec fn decimal(n: nat) -> Seq<char> {
    numeral(n, 10)
}

/// A number in hexadecimal after `0x`, with at least two digits.
pub open spec fn hex_byte(n: nat) -> Seq<char> {
    seq!['0', 'x'] + (if n < 16 {
        seq!['0']
    } else {
        seq![]
    }) + numeral(n, 16)
}

fn push_numeral(out: &mut String, n: u64, base: u64)
    requires
        2 <= base <= 16,
    ensures
        final(out)@ == old(out)@ + numeral(n as nat, base as nat),
    decreases n,
{
    if n >= base {
        assert(n / base < n) by (nonlinear_arith)
            requires
                n >= base,
                base >= 2,
        ;
        push_numeral(out, n / base, base);
    }
    let low: u64 = if n >= base {
        n % base
    } else {
        n
    };
    out.push(digit_char(low));
}

/// Append a number in decimal.
pub fn push_decimal(out: &mut String, n: u64)
    ensures
        final(out)@ == old(out)@ + decimal(n as nat),
{
    push_numeral(out, n, 10);
}

/// Append a number in hexadecimal after `0x`, with at least two digits.
pub fn push_hex_byte(out: &mut String, n: u64)
    ensures
        final(out)@ == old(out)@ + hex_byte(n as nat),
{
    out.push('0');
    out.push('x');
    if n < 16 {
        out.push('0');
    }
    push_numeral(out, n, 16);
}

/// A signed number in decimal.
pub open spec fn signed(n: int) -> Seq<char> {
    if n < 0 {
        seq!['-'] + decimal((-n) as nat)
    } else {
        decimal(n as nat)
    }
}

/// Append a signed number in decimal.
pub fn push_signed(out: &mut String, n: i32)
    ensures
        final(out)@ == old(out)@ + signed(n as int),
{
    if n < 0 {
        out.push('-');
        push_decimal(out, (-(n as i64)) as u64);
    } else {
        push_decimal(out, n as u64);
    }
}

/// The characters of a text.
pub fn chars_of(text: &str) -> (chars: Vec<char>)
    ensures
        chars@ == text@,
{
    let mut chars: Vec<char> = Vec::new();
    for c in it: text.chars()
        invariant
            chars@ == it.seq().take(it.index() as int),
            it.seq() == text@,
    {
        chars.push(c);
    }
    chars
}

/// The texts of some strings.
pub open spec fn texts(lines: Seq<String>) -> Seq<Seq<char>> {
    lines.map_values(|line: String| line@)
}

/// Texts one after the other, with a separator between every two.
pub open spec fn joined(lines: Seq<Seq<char>>, separator: Seq<char>) -> Seq<char>
    decreases lines.len(),
{
    if lines.len() == 0 {
        Seq::empty()
    } else if lines.len() == 1 {
        lines[0]
    } else {
        joined(lines.drop_last(), separator) + separator + lines.last()
    }
}

/// Texts one after the other, with a separator between every two.
pub fn join(lines: &Vec<String>, separator: &str) -> (out: String)
    ensures
        out@ == joined(texts(lines@), separator@),
{
    let mut out: String = String::new();
    for i in 0..lines.len()
        invariant
            out@ == joined(texts(lines@.take(i as int)), separator@),
    {
        if i > 0 {
            out.append(separator);
        }
        out.append(lines[i].as_str());
        proof {
            let upto = texts(lines@.take(i + 1));
            assert(upto.drop_last() == texts(lines@.take(i as int)));
            assert(upto.last() == lines@[i as int]@);
            if i == 0 {
                assert(texts(lines@.take(0)) == Seq::<Seq<char>>::empty());
                assert(out@ == lines@[0]@);
            }
        }
    }
    assert(lines@.take(lines@.len() as int) == lines@);
    out
}

/// `a` comes no later than `b` in the dictionary.
pub open spec fn not_after(a: Seq<char>, b: Seq<char>) -> bool
    decreases a.len(),
{
    a.len() == 0 || b.len() > 0 && (a[0] < b[0] || a[0] == b[0] && not_after(
        a.drop_first(),
        b.drop_first(),
    ))
}

/// The order of the dictionary.
pub open spec fn dictionary() -> spec_fn(Seq<char>, Seq<char>) -> bool {
    |a: Seq<char>, b: Seq<char>| not_after(a, b)
}

/// Texts in the order of the dictionary.
pub open spec fn alphabetical(lines: Seq<Seq<char>>) -> Seq<Seq<char>> {
    lines.sort_by(dictionary())
}

proof fn every_text_is_its_own_place(a: Seq<char>)
    ensures
        not_after(a, a),
    decreases a.len(),
{
    if a.len() > 0 {
        every_text_is_its_own_place(a.drop_first());
    }
}

proof fn one_text_has_one_place(a: Seq<char>, b: Seq<char>)
    requires
        not_after(a, b),
        not_after(b, a),
    ensures
        a == b,
    decreases a.len(),
{
    if a.len() > 0 {
        one_text_has_one_place(a.drop_first(), b.drop_first());
        assert(a == seq![a[0]] + a.drop_first());
        assert(b == seq![b[0]] + b.drop_first());
    }
}

proof fn places_follow_on(a: Seq<char>, b: Seq<char>, c: Seq<char>)
    requires
        not_after(a, b),
        not_after(b, c),
    ensures
        not_after(a, c),
    decreases a.len(),
{
    if a.len() > 0 && a[0] == b[0] && b[0] == c[0] {
        places_follow_on(a.drop_first(), b.drop_first(), c.drop_first());
    }
}

proof fn two_texts_have_an_order(a: Seq<char>, b: Seq<char>)
    ensures
        not_after(a, b) || not_after(b, a),
    decreases a.len(),
{
    if a.len() > 0 && b.len() > 0 && a[0] == b[0] {
        two_texts_have_an_order(a.drop_first(), b.drop_first());
    }
}

/// The dictionary ranks every two texts, and puts only equal ones in one place.
pub proof fn the_dictionary_is_total()
    ensures
        total_ordering(dictionary()),
{
    assert forall|a: Seq<char>| #[trigger] dictionary()(a, a) by {
        every_text_is_its_own_place(a);
    }
    assert forall|a: Seq<char>, b: Seq<char>| #[trigger]
        dictionary()(a, b) && #[trigger] dictionary()(b, a) implies a == b by {
        one_text_has_one_place(a, b);
    }
    assert forall|a: Seq<char>, b: Seq<char>, c: Seq<char>| #[trigger]
        dictionary()(a, b) && #[trigger] dictionary()(b, c) implies dictionary()(a, c) by {
        places_follow_on(a, b, c);
    }
    assert forall|a: Seq<char>, b: Seq<char>| #[trigger]
        dictionary()(a, b) || #[trigger] dictionary()(b, a) by {
        two_texts_have_an_order(a, b);
    }
}

/// Ordering moves texts about and neither adds nor drops one.
pub proof fn the_dictionary_permutes(lines: Seq<Seq<char>>)
    ensures
        alphabetical(lines).to_multiset() == lines.to_multiset(),
        alphabetical(lines).len() == lines.len(),
        sorted_by(alphabetical(lines), dictionary()),
{
    the_dictionary_is_total();
    lines.lemma_sort_by_ensures(dictionary());
    to_multiset_len(lines);
    to_multiset_len(alphabetical(lines));
}

/// Does `a` come no later than `b` in the dictionary?
pub fn comes_first(a: &str, b: &str) -> (r: bool)
    ensures
        r == not_after(a@, b@),
{
    let left = chars_of(a);
    let right = chars_of(b);
    let mut i: usize = 0;
    assert(a@.skip(0) == a@ && b@.skip(0) == b@);
    while i < left.len() && i < right.len() && left[i] == right[i]
        invariant
            i <= left.len(),
            i <= right.len(),
            left@ == a@,
            right@ == b@,
            not_after(a@, b@) == not_after(a@.skip(i as int), b@.skip(i as int)),
        decreases left.len() - i,
    {
        assert(a@.skip(i as int).drop_first() == a@.skip(i + 1));
        assert(b@.skip(i as int).drop_first() == b@.skip(i + 1));
        i = i + 1;
    }
    if i >= left.len() {
        true
    } else if i >= right.len() {
        false
    } else {
        left[i] < right[i]
    }
}

/// The lines in the order of the dictionary.
pub fn sort_lines(lines: Vec<String>) -> (sorted: Vec<String>)
    ensures
        texts(sorted@) == alphabetical(texts(lines@)),
{
    let mut sorted: Vec<String> = Vec::new();
    proof {
        the_dictionary_is_total();
        assert(texts(sorted@) == texts(lines@.take(0)));
    }
    for line in it: lines
        invariant
            it.seq() == lines@,
            total_ordering(dictionary()),
            texts(sorted@).to_multiset() == texts(lines@.take(it.index() as int)).to_multiset(),
            sorted.len() == it.index(),
            sorted_by(texts(sorted@), dictionary()),
    {
        let mut at: usize = sorted.len();
        while at > 0 && !comes_first(sorted[at - 1].as_str(), line.as_str())
            invariant
                at <= sorted.len(),
                total_ordering(dictionary()),
                forall|k: int|
                    at <= k < sorted.len() ==> dictionary()(line@, #[trigger] texts(sorted@)[k]),
            decreases at,
        {
            proof {
                assert(!dictionary()(sorted@[at - 1]@, line@));
                assert(dictionary()(line@, sorted@[at - 1]@));
            }
            at = at - 1;
        }
        let ghost before = texts(sorted@);
        let ghost text = line@;
        let ghost done = it.index() as int;
        assert(at > 0 ==> dictionary()(before[at - 1], text));
        assert(texts(lines@.take(done + 1)) == texts(lines@.take(done)).push(text));
        sorted.insert(at, line);
        proof {
            let after = texts(sorted@);
            assert(after == before.insert(at as int, text));
            to_multiset_insert(before, at as int, text);
            to_multiset_build(texts(lines@.take(done)), text);
            assert forall|j: int, k: int| 0 <= j < k < after.len() implies #[trigger] dictionary()(
                after[j],
                after[k],
            ) by {
                let j0 = if j < at {
                    j
                } else {
                    j - 1
                };
                let k0 = if k < at {
                    k
                } else {
                    k - 1
                };
                if j != at && k != at {
                    assert(dictionary()(before[j0], before[k0]));
                }
                if k == at && j < at - 1 {
                    assert(dictionary()(before[j], before[at - 1]));
                    assert(dictionary()(before[at - 1], text));
                }
            }
        }
    }
    proof {
        assert(lines@.take(lines@.len() as int) == lines@);
        the_dictionary_permutes(texts(lines@));
        lemma_sorted_unique(texts(sorted@), alphabetical(texts(lines@)), dictionary());
    }
    sorted
}

/// What a digit stands for.
pub open spec fn digit_value(c: char) -> nat {
    if '0' <= c && c <= '9' {
        (c as nat - '0' as nat) as nat
    } else {
        (c as nat - 'a' as nat + 10) as nat
    }
}

/// What a numeral stands for.
pub open spec fn numeral_value(s: Seq<char>, base: nat) -> nat
    decreases s.len(),
{
    if s.len() == 0 {
        0
    } else {
        numeral_value(s.drop_last(), base) * base + digit_value(s.last())
    }
}

/// A numeral stands for the number it was written from.
pub proof fn numerals_read_back(n: nat, base: nat)
    requires
        2 <= base <= 16,
    ensures
        numeral_value(numeral(n, base), base) == n,
    decreases n,
{
    let s = numeral(n, base);
    if n < base {
        assert(s.drop_last() == Seq::<char>::empty());
        assert(numeral_value(s.drop_last(), base) == 0);
        assert(0 * base == 0) by (nonlinear_arith);
    } else {
        assert(n / base < n) by (nonlinear_arith)
            requires
                n >= base,
                base >= 2,
        ;
        numerals_read_back(n / base, base);
        assert(s.drop_last() == numeral(n / base, base));
        assert((n / base) * base + n % base == n) by (nonlinear_arith)
            requires
                base >= 2,
        ;
        assert(n % base < base) by (nonlinear_arith)
            requires
                base >= 2,
        ;
    }
}

/// The digits follow one another: the first ten from the nought on, and six more from the letter a on.
pub proof fn digits_follow_one_another(d: int)
    ensures
        0 <= d < 10 ==> digit(d) as int == 48 + d,
        10 <= d < 16 ==> digit(d) as int == 97 + d - 10,
{
}

/// A numeral has no nought in front of it, and one digit for a number below its base.
pub proof fn numerals_lead_with_a_digit(n: nat, base: nat)
    requires
        2 <= base <= 16,
    ensures
        numeral(n, base).len() >= 1,
        n > 0 ==> numeral(n, base)[0] != '0',
        n < base ==> numeral(n, base) == seq![digit(n as int)],
    decreases n,
{
    if n >= base {
        assert(n / base < n && n / base > 0) by (nonlinear_arith)
            requires
                n >= base,
                base >= 2,
        ;
        numerals_lead_with_a_digit(n / base, base);
        assert(numeral(n, base)[0] == numeral(n / base, base)[0]);
    }
}

/// A number in decimal reads back in tens, and a byte in hexadecimal, after its mark, in sixteens; that
/// one has two digits at least.
pub proof fn numbers_read_back(n: nat)
    ensures
        numeral_value(decimal(n), 10) == n,
        hex_byte(n).len() >= 4,
        hex_byte(n)[0] == '0' && hex_byte(n)[1] == 'x',
        numeral_value(hex_byte(n).skip(2), 16) == n,
        hex_byte(n).len() > 4 ==> hex_byte(n)[2] != '0',
{
    numerals_read_back(n, 10);
    numerals_read_back(n, 16);
    numerals_lead_with_a_digit(n, 16);
    let rest = hex_byte(n).skip(2);
    if n < 16 {
        assert(rest =~= seq!['0', digit(n as int)]);
        assert(rest.drop_last() =~= seq!['0']);
        assert(rest.drop_last().drop_last() =~= Seq::<char>::empty());
        assert(numeral_value(rest.drop_last().drop_last(), 16) == 0);
        assert(numeral_value(rest.drop_last(), 16) == 0);
        assert(numeral(n, 16).drop_last() =~= Seq::<char>::empty());
        assert(numeral_value(numeral(n, 16).drop_last(), 16) == 0);
    } else {
        numerals_lead_with_a_digit(n / 16, 16);
        assert(rest =~= numeral(n, 16));
        assert(hex_byte(n)[2] == numeral(n, 16)[0]);
    }
}

/// A number below nought is written as its size behind a minus; any other as it is.
pub proof fn signs_stand_in_front(n: int)
    ensures
        n >= 0 ==> signed(n) == decimal(n as nat),
        n < 0 ==> signed(n)[0] == '-' && signed(n).skip(1) == decimal((-n) as nat),
{
    if n < 0 {
        assert(signed(n).skip(1) =~= decimal((-n) as nat));
    }
}

/// Joining two runs of texts is joining each and putting the separator between; one text alone stays as
/// it is, and none is nothing.
pub proof fn runs_join(a: Seq<Seq<char>>, b: Seq<Seq<char>>, separator: Seq<char>)
    requires
        a.len() > 0,
        b.len() > 0,
    ensures
        joined(a + b, separator) == joined(a, separator) + separator + joined(b, separator),
        joined(seq![], separator).len() == 0,
        joined(seq![a[0]], separator) == a[0],
    decreases b.len(),
{
    let whole = a + b;
    assert(whole.last() == b.last());
    if b.len() == 1 {
        assert(whole.drop_last() =~= a);
    } else {
        assert(whole.drop_last() =~= a + b.drop_last());
        runs_join(a, b.drop_last(), separator);
        assert(joined(whole, separator) =~= joined(a, separator) + separator + joined(
            b,
            separator,
        ));
    }
}

/// In the dictionary a text comes before those that it begins, and of two that part somewhere the one
/// with the lesser character there comes first.
pub proof fn the_first_difference_decides(a: Seq<char>, b: Seq<char>, at: int)
    requires
        0 <= at <= a.len(),
        at <= b.len(),
        a.take(at) == b.take(at),
    ensures
        at == a.len() ==> not_after(a, b),
        at == a.len() && at < b.len() ==> !not_after(b, a),
        at < a.len() && at < b.len() && a[at] < b[at] ==> not_after(a, b) && !not_after(b, a),
    decreases at,
{
    if at > 0 {
        assert(a[0] == a.take(at)[0]);
        assert(b[0] == b.take(at)[0]);
        assert(a.drop_first().take(at - 1) =~= a.take(at).drop_first());
        assert(b.drop_first().take(at - 1) =~= b.take(at).drop_first());
        the_first_difference_decides(a.drop_first(), b.drop_first(), at - 1);
    }
}

/// The texts of some strings are theirs, in their order.
pub proof fn texts_are_those_of_the_strings(lines: Seq<String>, i: int)
    requires
        0 <= i < lines.len(),
    ensures
        texts(lines).len() == lines.len(),
        texts(lines)[i] == lines[i]@,
{
}

} // verus!
