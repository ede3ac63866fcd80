//! Facts about trimming and replacing.
#[allow(unused_imports)]
use crate::text::{
    after_prefix, is_space, occurs, occurs_at, replaced, trim_end, trim_start, trimmed,
};
use vstd::prelude::*;

verus! {

/// What is left of a text that ends in a visible character still ends in it.
proof fn lemma_trim_start_last(s: Seq<char>)
    requires
        s.len() > 0,
        !is_space(s.last()),
    ensures
        trim_start(s).len() > 0,
        trim_start(s).last() == s.last(),
    decreases s.len(),
{
    if is_space(s.first()) {
        assert(s.drop_first().len() > 0);
        assert(s.drop_first().last() == s.last());
        lemma_trim_start_last(s.drop_first());
    }
}

/// White space at the end of a text does not matter to its trimming.
proof fn lemma_trim_start_push(s: Seq<char>, c: char)
    requires
        is_space(c),
    ensures
        trim_end(trim_start(s.push(c))) == trim_end(trim_start(s)),
    decreases s.len(),
{
    let t = s.push(c);
    if s.len() == 0 {
        assert(t.drop_first() == Seq::<char>::empty());
        assert(trim_start(t) == trim_start(Seq::<char>::empty()));
    } else if is_space(s.first()) {
        assert(t.first() == s.first());
        assert(t.drop_first() == s.drop_first().push(c));
        lemma_trim_start_push(s.drop_first(), c);
    } else {
        assert(t.first() == s.first());
        assert(t.drop_last() == s);
    }
}

/// It does not matter which end is trimmed first.
pub proof fn lemma_trim_commutes(s: Seq<char>)
    ensures
        trim_start(trim_end(s)) == trim_end(trim_start(s)),
    decreases s.len(),
{
    if s.len() > 0 {
        if is_space(s.last()) {
            lemma_trim_commutes(s.drop_last());
            assert(s == s.drop_last().push(s.last()));
            lemma_trim_start_push(s.drop_last(), s.last());
        } else {
            lemma_trim_start_last(s);
        }
    }
}

pub proof fn lemma_trim_end_idempotent(s: Seq<char>)
    ensures
        trim_end(trim_end(s)) == trim_end(s),
    decreases s.len(),
{
    if s.len() > 0 && is_space(s.last()) {
        lemma_trim_end_idempotent(s.drop_last());
    }
}

pub proof fn lemma_trim_start_idempotent(s: Seq<char>)
    ensures
        trim_start(trim_start(s)) == trim_start(s),
    decreases s.len(),
{
    if s.len() > 0 && is_space(s.first()) {
        lemma_trim_start_idempotent(s.drop_first());
    }
}

/// Trimming a trimmed text changes nothing.
pub proof fn law_trim_idempotent(s: Seq<char>)
    ensures
        trimmed(trimmed(s)) == trimmed(s),
{
    lemma_trim_commutes(s);
    lemma_trim_start_idempotent(trim_end(s));
    lemma_trim_end_idempotent(trim_start(s));
}

/// A trimmed text is empty, or it begins and ends with a visible character.
pub proof fn law_trimmed_ends(s: Seq<char>)
    ensures
        trimmed(s).len() > 0 ==> !is_space(trimmed(s).first()) && !is_space(trimmed(s).last()),
{
    lemma_trim_commutes(s);
    lemma_trim_end_last(trim_start(s));
    lemma_trim_start_first(trim_end(s));
}

proof fn lemma_trim_end_last(s: Seq<char>)
    ensures
        trim_end(s).len() > 0 ==> !is_space(trim_end(s).last()),
    decreases s.len(),
{
    if s.len() > 0 && is_space(s.last()) {
        lemma_trim_end_last(s.drop_last());
    }
}

proof fn lemma_trim_start_first(s: Seq<char>)
    ensures
        trim_start(s).len() > 0 ==> !is_space(trim_start(s).first()),
    decreases s.len(),
{
    if s.len() > 0 && is_space(s.first()) {
        lemma_trim_start_first(s.drop_first());
    }
}

/// Trimming the end of a text leaves what stands before a visible character alone.
pub proof fn lemma_trim_end_concat(p: Seq<char>, s: Seq<char>)
    requires
        p.len() > 0,
        !is_space(p.last()),
    ensures
        trim_end(p + s) == p + trim_end(s),
    decreases s.len(),
{
    if s.len() == 0 {
        assert(p + s == p);
    } else {
        assert((p + s).last() == s.last());
        if is_space(s.last()) {
            assert((p + s).drop_last() == p + s.drop_last());
            lemma_trim_end_concat(p, s.drop_last());
        }
    }
}

/// A text of one visible prefix and a rest, trimmed, is the prefix and a rest that trims to the
/// same.
pub proof fn lemma_trim_prefixed(p: Seq<char>, s: Seq<char>)
    requires
        p.len() > 0,
        !is_space(p.first()),
        !is_space(p.last()),
    ensures
        after_prefix(trimmed(p + s), p) == Some(trim_end(s)),
        trimmed(trim_end(s)) == trimmed(s),
{
    assert((p + s).first() == p.first());
    assert(trim_start(p + s) == p + s);
    lemma_trim_end_concat(p, s);
    assert((p + trim_end(s)).take(p.len() as int) == p);
    assert(p.is_prefix_of(p + trim_end(s)));
    assert((p + trim_end(s)).skip(p.len() as int) == trim_end(s));
    lemma_trim_commutes(s);
    lemma_trim_commutes(trim_end(s));
    lemma_trim_end_idempotent(s);
    lemma_trim_end_idempotent(trim_start(s));
}

/// A text that begins and ends with a visible character is trimmed.
pub proof fn lemma_trim_fixed(s: Seq<char>)
    requires
        s.len() > 0,
        !is_space(s.first()),
        !is_space(s.last()),
    ensures
        trimmed(s) == s,
{
}

/// Whether a text is white space throughout.
pub open spec fn is_blank(s: Seq<char>) -> bool {
    forall|i: int| 0 <= i < s.len() ==> is_space(#[trigger] s[i])
}

/// White space put around a text does not matter to its trimming.
pub proof fn law_padding_is_trimmed(before: Seq<char>, s: Seq<char>, after: Seq<char>)
    requires
        is_blank(before),
        is_blank(after),
    ensures
        trimmed(before + s + after) == trimmed(s),
    decreases before.len(), after.len(),
{
    let t = before + s + after;
    if before.len() > 0 {
        assert(t.first() == before[0]);
        assert(t.drop_first() =~= before.drop_first() + s + after);
        law_padding_is_trimmed(before.drop_first(), s, after);
    } else if after.len() > 0 {
        assert(t =~= (before + s + after.drop_last()).push(after.last()));
        lemma_trim_start_push(before + s + after.drop_last(), after.last());
        law_padding_is_trimmed(before, s, after.drop_last());
    } else {
        assert(t =~= s);
    }
}

/// The trimmed text is a part of the text.
pub proof fn lemma_trim_within(s: Seq<char>) -> (r: (int, int))
    ensures
        0 <= r.0 <= r.1 <= s.len(),
        trimmed(s) == s.subrange(r.0, r.1),
{
    let a = lemma_trim_start_within(s);
    let t = trim_start(s);
    let b = lemma_trim_end_within(t);
    assert(t.subrange(0, b) =~= s.subrange(a, a + b));
    (a, a + b)
}

proof fn lemma_trim_start_within(s: Seq<char>) -> (a: int)
    ensures
        0 <= a <= s.len(),
        trim_start(s) == s.subrange(a, s.len() as int),
    decreases s.len(),
{
    if s.len() > 0 && is_space(s.first()) {
        let t = s.drop_first();
        let a = lemma_trim_start_within(t);
        assert(t.subrange(a, t.len() as int) =~= s.subrange(a + 1, s.len() as int));
        a + 1
    } else {
        assert(s.subrange(0, s.len() as int) =~= s);
        0
    }
}

proof fn lemma_trim_end_within(s: Seq<char>) -> (b: int)
    ensures
        0 <= b <= s.len(),
        trim_end(s) == s.subrange(0, b),
    decreases s.len(),
{
    if s.len() > 0 && is_space(s.last()) {
        let t = s.drop_last();
        let b = lemma_trim_end_within(t);
        assert(t.subrange(0, b) =~= s.subrange(0, b));
        b
    } else {
        assert(s.subrange(0, s.len() as int) =~= s);
        s.len() as int
    }
}

/// Where there is nothing to replace, nothing changes.
pub proof fn lemma_replaced_absent(s: Seq<char>, from: Seq<char>, to: Seq<char>)
    requires
        forall|i: int| !occurs_at(s, from, i),
    ensures
        replaced(s, from, to) == s,
    decreases s.len(),
{
    if from.len() > 0 && s.len() >= from.len() {
        assert(s.subrange(0, from.len() as int) =~= s.take(from.len() as int));
        assert(!occurs_at(s, from, 0));
        assert(!from.is_prefix_of(s));
        let t = s.drop_first();
        assert forall|i: int| !occurs_at(t, from, i) by {
            if occurs_at(t, from, i) {
                assert(t.subrange(i, i + from.len()) =~= s.subrange(i + 1, i + 1 + from.len()));
                assert(occurs_at(s, from, i + 1));
            }
        }
        lemma_replaced_absent(t, from, to);
        assert(seq![s.first()] + t =~= s);
    }
}

/// Where the only thing to replace stands at the end, only the end changes.
pub proof fn lemma_replaced_at_end(s: Seq<char>, from: Seq<char>, to: Seq<char>)
    requires
        from.len() > 0,
        forall|i: int| 0 <= i < s.len() ==> !occurs_at(s + from, from, i),
    ensures
        replaced(s + from, from, to) == s + to,
    decreases s.len(),
{
    let all = s + from;
    if s.len() == 0 {
        assert(all =~= from);
        assert(from.take(from.len() as int) =~= from);
        assert(from.skip(from.len() as int) =~= Seq::<char>::empty());
        assert(replaced(Seq::<char>::empty(), from, to) == Seq::<char>::empty());
        assert(to + Seq::<char>::empty() =~= s + to);
    } else {
        assert(all.subrange(0, from.len() as int) =~= all.take(from.len() as int));
        assert(!occurs_at(all, from, 0));
        assert(!from.is_prefix_of(all));
        let t = s.drop_first();
        assert(all.drop_first() =~= t + from);
        assert forall|i: int| 0 <= i < t.len() implies !occurs_at(t + from, from, i) by {
            if occurs_at(t + from, from, i) {
                assert((t + from).subrange(i, i + from.len()) =~= all.subrange(
                    i + 1,
                    i + 1 + from.len(),
                ));
                assert(occurs_at(all, from, i + 1));
            }
        }
        lemma_replaced_at_end(t, from, to);
        assert(seq![all.first()] + (t + to) =~= s + to);
    }
}

/// The number of `c` characters that `s` begins with.
spec fn lead(s: Seq<char>, c: char) -> nat
    decreases s.len(),
{
    if s.len() > 0 && s.first() == c {
        1 + lead(s.drop_first(), c)
    } else {
        0
    }
}

proof fn lemma_lead_run(s: Seq<char>, c: char, n: nat)
    ensures
        lead(s, c) >= n <==> (n <= s.len() && forall|i: int| 0 <= i < n ==> s[i] == c),
    decreases n,
{
    if n > 0 && s.len() > 0 && s.first() == c {
        let t = s.drop_first();
        lemma_lead_run(t, c, (n - 1) as nat);
        if lead(s, c) >= n {
            assert forall|i: int| 0 <= i < n implies s[i] == c by {
                if i > 0 {
                    assert(t[i - 1] == c);
                }
            }
        }
        if n <= s.len() && (forall|i: int| 0 <= i < n ==> s[i] == c) {
            assert forall|i: int| 0 <= i < n - 1 implies t[i] == c by {
                assert(s[i + 1] == c);
            }
        }
    } else if n > 0 && s.len() > 0 {
        assert(s[0] != c);
    }
}

/// Taking out every run of three leaves fewer than three at the front.
proof fn lemma_lead_removed(s: Seq<char>, c: char)
    ensures
        lead(replaced(s, seq![c, c, c], Seq::empty()), c) == lead(s, c) % 3,
    decreases s.len(),
{
    let p = seq![c, c, c];
    let e = Seq::<char>::empty();
    lemma_lead_run(s, c, 3);
    if s.len() < 3 {
        assert(replaced(s, p, e) == s);
    } else if p.is_prefix_of(s) {
        let t = s.skip(3);
        lemma_lead_removed(t, c);
        assert(e + replaced(t, p, e) == replaced(t, p, e));
        assert(s[0] == p[0] && s[1] == p[1] && s[2] == p[2]);
        assert(s.drop_first().drop_first().drop_first() == t);
        assert(s.drop_first().first() == c);
        assert(s.drop_first().drop_first().first() == c);
        assert(lead(s, c) == 1 + lead(s.drop_first(), c));
        assert(lead(s.drop_first(), c) == 1 + lead(s.drop_first().drop_first(), c));
        assert(lead(s.drop_first().drop_first(), c) == 1 + lead(t, c));
    } else {
        if lead(s, c) >= 3 {
            assert(s.take(3) == p);
        }
        let t = s.drop_first();
        lemma_lead_removed(t, c);
        let r = seq![s.first()] + replaced(t, p, e);
        assert(r.drop_first() == replaced(t, p, e));
        assert(r.first() == s.first());
    }
}

/// Once every run of three equal characters has been taken out, none is left.
pub proof fn lemma_removed_run(s: Seq<char>, c: char)
    ensures
        !occurs(replaced(s, seq![c, c, c], Seq::empty()), seq![c, c, c]),
    decreases s.len(),
{
    let p = seq![c, c, c];
    let e = Seq::<char>::empty();
    let r = replaced(s, p, e);
    if occurs(r, p) {
        let i = choose|i: int| occurs_at(r, p, i);
        assert(r.subrange(i, i + 3)[0] == p[0]);
        assert(r.subrange(i, i + 3)[1] == p[1]);
        assert(r.subrange(i, i + 3)[2] == p[2]);
        if s.len() < 3 {
        } else if p.is_prefix_of(s) {
            lemma_removed_run(s.skip(3), c);
            assert(e + replaced(s.skip(3), p, e) == replaced(s.skip(3), p, e));
        } else if i > 0 {
            let q = replaced(s.drop_first(), p, e);
            lemma_removed_run(s.drop_first(), c);
            assert(r == seq![s.first()] + q);
            assert(q.subrange(i - 1, i + 2) == r.subrange(i, i + 3));
            assert(occurs_at(q, p, i - 1));
        } else {
            lemma_lead_removed(s, c);
            lemma_lead_run(r, c, 3);
        }
    }
}

} // verus!
