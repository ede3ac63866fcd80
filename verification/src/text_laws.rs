//! What holds of the text operations.
#[allow(unused_imports)]
use crate::text::{
    after_prefix, decimal_of, digit, has_line, is_line, is_space, line_or_empty, occurs, occurs_at,
    replaced, trim_end, trim_end_of, trim_start, trimmed,
};
#[allow(unused_imports)]
use crate::text_lemmas::{is_blank, lemma_trim_within};
use vstd::prelude::*;

verus! {

proof fn lemma_trim_start_cut(s: Seq<char>) -> (i: int)
    ensures
        0 <= i <= s.len(),
        trim_start(s) == s.skip(i),
        is_blank(s.take(i)),
    decreases s.len(),
{
    if s.len() > 0 && is_space(s.first()) {
        let t = s.drop_first();
        let i = lemma_trim_start_cut(t);
        assert(t.skip(i) =~= s.skip(i + 1));
        assert forall|k: int| 0 <= k < s.take(i + 1).len() implies is_space(
            #[trigger] s.take(i + 1)[k],
        ) by {
            if k > 0 {
                assert(t.take(i)[k - 1] == s.take(i + 1)[k]);
            }
        }
        i + 1
    } else {
        assert(s.skip(0) =~= s);
        0
    }
}

/// Trimming the end keeps a prefix and cuts off white space.
pub proof fn lemma_trim_end_cut(s: Seq<char>) -> (j: int)
    ensures
        0 <= j <= s.len(),
        trim_end(s) == s.take(j),
        is_blank(s.skip(j)),
    decreases s.len(),
{
    if s.len() > 0 && is_space(s.last()) {
        let t = s.drop_last();
        let j = lemma_trim_end_cut(t);
        assert(t.take(j) =~= s.take(j));
        assert forall|k: int| 0 <= k < s.skip(j).len() implies is_space(
            #[trigger] s.skip(j)[k],
        ) by {
            if k < t.skip(j).len() {
                assert(t.skip(j)[k] == s.skip(j)[k]);
            }
        }
        j
    } else {
        assert(s.take(s.len() as int) =~= s);
        s.len() as int
    }
}

/// Trimming cuts white space off the ends and nothing else: what is left is the part between two
/// positions, and what stands before and behind it is blank.
pub proof fn law_trim_cuts_only_space(s: Seq<char>) -> (r: (int, int))
    ensures
        0 <= r.0 <= r.1 <= s.len(),
        trimmed(s) == s.subrange(r.0, r.1),
        is_blank(s.take(r.0)),
        is_blank(s.skip(r.1)),
{
    let i = lemma_trim_start_cut(s);
    let t = s.skip(i);
    let j = lemma_trim_end_cut(t);
    assert(t.take(j) =~= s.subrange(i, i + j));
    assert(t.skip(j) =~= s.skip(i + j));
    (i, i + j)
}

/// What is cut off the end is a run of the character, and what is left does not end in it.
pub proof fn law_trim_end_of_cuts_a_run(s: Seq<char>, c: char) -> (n: int)
    ensures
        0 <= n <= s.len(),
        trim_end_of(s, c) == s.take(n),
        forall|i: int| n <= i < s.len() ==> #[trigger] s[i] == c,
        n > 0 ==> s[n - 1] != c,
    decreases s.len(),
{
    if s.len() > 0 && s.last() == c {
        let n = law_trim_end_of_cuts_a_run(s.drop_last(), c);
        assert(s.drop_last().take(n) =~= s.take(n));
        assert forall|i: int| n <= i < s.len() implies #[trigger] s[i] == c by {
            if i < s.len() - 1 {
                assert(s.drop_last()[i] == s[i]);
            }
        }
        n
    } else {
        assert(s.take(s.len() as int) =~= s);
        s.len() as int
    }
}

/// A prefix is taken off where it stands, and nowhere else.
pub proof fn law_prefix_is_taken_off(p: Seq<char>, t: Seq<char>, s: Seq<char>)
    ensures
        after_prefix(p + t, p) == Some(t),
        after_prefix(s, p) is Some <==> p.is_prefix_of(s),
        after_prefix(s, p) matches Some(rest) ==> p + rest == s,
{
    assert((p + t).take(p.len() as int) =~= p);
    assert((p + t).skip(p.len() as int) =~= t);
    if p.is_prefix_of(s) {
        assert(p + s.skip(p.len() as int) =~= s);
    }
}

/// The number that a run of decimal digits stands for.
pub open spec fn value_of(s: Seq<char>) -> int
    decreases s.len(),
{
    if s.len() == 0 {
        0
    } else {
        10 * value_of(s.drop_last()) + (s.last() as int - 48)
    }
}

/// A number that is written out reads back as itself, and has a leading zero only where it is
/// zero.
pub proof fn law_decimal_reads_back(n: nat)
    ensures
        value_of(decimal_of(n)) == n,
        decimal_of(n).len() > 0,
        decimal_of(n)[0] == '0' ==> n == 0 && decimal_of(n).len() == 1,
        forall|i: int| 0 <= i < decimal_of(n).len() ==> '0' <= #[trigger] decimal_of(n)[i] <= '9',
    decreases n,
{
    assert(digit(n % 10) as int == 48 + n % 10);
    if n < 10 {
        assert(seq![digit(n)].drop_last() =~= Seq::<char>::empty());
        assert(value_of(Seq::<char>::empty()) == 0);
    } else {
        law_decimal_reads_back(n / 10);
        let s = decimal_of(n / 10).push(digit(n % 10));
        assert(s.drop_last() =~= decimal_of(n / 10));
    }
}

/// What is put between two texts stands somewhere in the whole.
pub proof fn law_occurs_between(a: Seq<char>, b: Seq<char>, c: Seq<char>)
    ensures
        occurs(a + b + c, b),
{
    let s = a + b + c;
    assert(s.subrange(a.len() as int, (a.len() + b.len()) as int) =~= b);
    assert(occurs_at(s, b, a.len() as int));
}

/// What is found somewhere in a text stands between two parts of it.
pub proof fn law_found_text_is_there(s: Seq<char>, p: Seq<char>)
    requires
        occurs(s, p),
    ensures
        exists|a: Seq<char>, c: Seq<char>| s == #[trigger] (a + p + c),
{
    let i = choose|i: int| occurs_at(s, p, i);
    let a = s.take(i);
    let c = s.skip(i + p.len());
    assert(s =~= a + s.subrange(i, i + p.len()) + c);
}

/// The end of input is read as a blank line, and a line as it stands.
pub proof fn law_end_of_input_is_blank(line: String)
    ensures
        line_or_empty(None).len() == 0,
        line_or_empty(Some(line)) == line@,
{
}

/// A line that is there is found, whatever lines stand around it and whatever white space around
/// it; and what is found stands somewhere in the text.
pub proof fn law_line_is_found(
    before: Seq<char>,
    line: Seq<char>,
    after: Seq<char>,
    s: Seq<char>,
    p: Seq<char>,
)
    requires
        forall|i: int| 0 <= i < line.len() ==> #[trigger] line[i] != '\n',
    ensures
        has_line(before + seq!['\n'] + line + seq!['\n'] + after, trimmed(line)),
        has_line(line + seq!['\n'] + after, trimmed(line)),
        has_line(before + seq!['\n'] + line, trimmed(line)),
        has_line(line, trimmed(line)),
        has_line(s, p) ==> occurs(s, p),
{
    let n = line.len() as int;
    let m = before.len() as int + 1;
    let x = before + seq!['\n'] + line + seq!['\n'] + after;
    assert forall|k: int| m <= k < m + n implies x[k] != '\n' by {
        assert(x[k] == line[k - m]);
    }
    assert(is_line(x, m, m + n));
    assert(x.subrange(m, m + n) =~= line);
    let y = line + seq!['\n'] + after;
    assert forall|k: int| 0 <= k < n implies y[k] != '\n' by {
        assert(y[k] == line[k]);
    }
    assert(is_line(y, 0, n));
    assert(y.subrange(0, n) =~= line);
    let z = before + seq!['\n'] + line;
    assert forall|k: int| m <= k < m + n implies z[k] != '\n' by {
        assert(z[k] == line[k - m]);
    }
    assert(is_line(z, m, m + n));
    assert(z.subrange(m, m + n) =~= line);
    assert(is_line(line, 0, n));
    assert(line.subrange(0, n) =~= line);
    if has_line(s, p) {
        let (i, j) = choose|i: int, j: int|
            #[trigger] is_line(s, i, j) && trimmed(s.subrange(i, j)) == p;
        let (a, b) = lemma_trim_within(s.subrange(i, j));
        assert(s.subrange(i, j).subrange(a, b) =~= s.subrange(i + a, i + b));
        assert(p.len() == b - a);
        assert(occurs_at(s, p, i + a));
    }
}

/// The first occurrence is replaced, what stands before it stays as it is, and what follows it is
/// replaced by itself. (A text without an occurrence is left alone: see `lemma_replaced_absent`.)
pub proof fn law_replace_goes_left_to_right(
    a: Seq<char>,
    from: Seq<char>,
    to: Seq<char>,
    t: Seq<char>,
)
    requires
        from.len() > 0,
        forall|i: int| 0 <= i < a.len() ==> !occurs_at(a + from + t, from, i),
    ensures
        replaced(a + from + t, from, to) == a + to + replaced(t, from, to),
    decreases a.len(),
{
    let s = a + from + t;
    if a.len() == 0 {
        assert(s =~= from + t);
        law_replace_at_the_start(from, to, t);
        assert(a + to + replaced(t, from, to) =~= to + replaced(t, from, to));
    } else {
        let b = a.drop_first();
        assert(s.drop_first() =~= b + from + t);
        assert(!from.is_prefix_of(s)) by {
            if from.is_prefix_of(s) {
                assert(s.subrange(0, from.len() as int) =~= s.take(from.len() as int));
                assert(occurs_at(s, from, 0));
            }
        }
        assert forall|i: int| 0 <= i < b.len() implies !occurs_at(b + from + t, from, i) by {
            if occurs_at(b + from + t, from, i) {
                assert((b + from + t).subrange(i, i + from.len()) =~= s.subrange(
                    i + 1,
                    i + 1 + from.len(),
                ));
                assert(occurs_at(s, from, i + 1));
            }
        }
        law_replace_goes_left_to_right(b, from, to, t);
        assert(seq![s.first()] + (b + to + replaced(t, from, to)) =~= a + to + replaced(
            t,
            from,
            to,
        ));
    }
}

/// An occurrence is replaced where the text begins with it, and what follows is replaced by itself.
pub proof fn law_replace_at_the_start(from: Seq<char>, to: Seq<char>, t: Seq<char>)
    requires
        from.len() > 0,
    ensures
        replaced(from + t, from, to) == to + replaced(t, from, to),
{
    let s = from + t;
    assert(s.take(from.len() as int) =~= from);
    assert(from.is_prefix_of(s));
    assert(s.skip(from.len() as int) =~= t);
}

} // verus!
