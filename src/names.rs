use vstd::prelude::*;

use crate::model::Organizer;

verus! {

broadcast use vstd::seq_lib::group_to_multiset_ensures;

/// Lexicographic order on code points, which is the order of the UTF-8
/// bytes that the store's binary collation compares.
pub open spec fn lex_le(a: Seq<char>, b: Seq<char>) -> bool
    decreases a.len(),
{
    if a.len() == 0 {
        true
    } else if b.len() == 0 {
        false
    } else if a[0] != b[0] {
        (a[0] as int) < (b[0] as int)
    } else {
        lex_le(a.drop_first(), b.drop_first())
    }
}

pub proof fn lemma_lex_total(a: Seq<char>, b: Seq<char>)
    ensures
        lex_le(a, b) || lex_le(b, a),
    decreases a.len(),
{
    if a.len() > 0 && b.len() > 0 {
        if a[0] == b[0] {
            lemma_lex_total(a.drop_first(), b.drop_first());
        } else {
            assert((a[0] as int) != (b[0] as int));
        }
    }
}

pub proof fn lemma_lex_transitive(a: Seq<char>, b: Seq<char>, c: Seq<char>)
    requires
        lex_le(a, b),
        lex_le(b, c),
    ensures
        lex_le(a, c),
    decreases a.len(),
{
    if a.len() > 0 && b.len() > 0 && c.len() > 0 && a[0] == b[0] && b[0] == c[0] {
        lemma_lex_transitive(a.drop_first(), b.drop_first(), c.drop_first());
    }
}

/// Whether `a` comes no later than `b` by name.
pub fn name_le(a: &str, b: &str) -> (r: bool)
    ensures
        r == lex_le(a@, b@),
{
    let n = a.unicode_len();
    let m = b.unicode_len();
    let mut i: usize = 0;
    assert(a@.skip(0) =~= a@);
    assert(b@.skip(0) =~= b@);
    while i < n && i < m
        invariant
            n == a@.len(),
            m == b@.len(),
            i <= n,
            i <= m,
            lex_le(a@, b@) == lex_le(a@.skip(i as int), b@.skip(i as int)),
        decreases n - i,
    {
        let ca = a.get_char(i);
        let cb = b.get_char(i);
        assert(a@.skip(i as int)[0] == ca);
        assert(b@.skip(i as int)[0] == cb);
        if ca != cb {
            return ca < cb;
        }
        assert(a@.skip(i as int).drop_first() =~= a@.skip(i + 1));
        assert(b@.skip(i as int).drop_first() =~= b@.skip(i + 1));
        i = i + 1;
    }
    i == n
}

pub open spec fn by_name(s: Seq<Organizer>) -> bool {
    forall|i: int, j: int| 0 <= i < j < s.len() ==> lex_le((#[trigger] s[i]).name@, (#[trigger] s[j]).name@)
}

fn insert_by_name(r: &mut Vec<Organizer>, o: Organizer)
    requires
        by_name(old(r)@),
    ensures
        by_name(final(r)@),
        final(r)@.to_multiset() == old(r)@.to_multiset().insert(o),
{
    let mut k: usize = 0;
    while k < r.len() && name_le(r[k].name.as_str(), o.name.as_str())
        invariant
            k <= r@.len(),
            by_name(r@),
            forall|j: int| 0 <= j < k ==> lex_le((#[trigger] r@[j]).name@, o.name@),
        decreases r@.len() - k,
    {
        k = k + 1;
    }
    let ghost before = r@;
    proof {
        if k < before.len() {
            lemma_lex_total(before[k as int].name@, o.name@);
            assert forall|j: int| k <= j < before.len() implies lex_le(
                o.name@,
                (#[trigger] before[j]).name@,
            ) by {
                if j > k {
                    lemma_lex_transitive(o.name@, before[k as int].name@, before[j].name@);
                }
            }
        }
    }
    r.insert(k, o);
    proof {
        assert(r@ == before.insert(k as int, o));
        assert forall|i: int, j: int| 0 <= i < j < r@.len() implies lex_le(
            (#[trigger] r@[i]).name@,
            (#[trigger] r@[j]).name@,
        ) by {
            if j < k {
                assert(lex_le(before[i].name@, before[j].name@));
            } else if i > k {
                assert(lex_le(before[i - 1].name@, before[j - 1].name@));
            } else if i < k && j > k {
                lemma_lex_transitive(before[i].name@, o.name@, before[j - 1].name@);
            }
        }
    }
}

/// The organizers ordered by name; equal names in any order.
pub fn sort_by_name(organizers: &Vec<Organizer>) -> (r: Vec<Organizer>)
    ensures
        by_name(r@),
        r@.to_multiset() == organizers@.to_multiset(),
{
    let mut r: Vec<Organizer> = Vec::new();
    let mut i: usize = 0;
    while i < organizers.len()
        invariant
            i <= organizers@.len(),
            by_name(r@),
            r@.to_multiset() == organizers@.take(i as int).to_multiset(),
        decreases organizers@.len() - i,
    {
        assert(organizers@.take(i + 1) == organizers@.take(i as int).push(organizers@[i as int]));
        insert_by_name(&mut r, organizers[i].copy());
        i = i + 1;
    }
    assert(organizers@.take(organizers@.len() as int) == organizers@);
    r
}

} // verus!
