//! Text as a sequence of characters: where one text occurs in another, and
//! the order of texts by code point.

use vstd::prelude::*;

verus! {

/// Whether `part` stands in `whole` from position `at` on.
pub open spec fn occurs_at(part: Seq<char>, whole: Seq<char>, at: int) -> bool {
    &&& 0 <= at
    &&& at + part.len() <= whole.len()
    &&& whole.subrange(at, at + part.len()) == part
}

/// Whether `part` stands somewhere in `whole`. The empty text stands in
/// every text.
pub open spec fn occurs_in(part: Seq<char>, whole: Seq<char>) -> bool {
    exists|at: int| occurs_at(part, whole, at)
}

/// Whether `whole` begins with `part`.
pub open spec fn begins_with(whole: Seq<char>, part: Seq<char>) -> bool {
    occurs_at(part, whole, 0)
}

/// The characters of `text`, one by one.
pub fn chars_of(text: &str) -> (chars: Vec<char>)
    ensures
        chars@ == text@,
{
    let mut chars: Vec<char> = Vec::new();
    for c in iter: text.chars()
        invariant
            iter.seq() == text@,
            chars@ == text@.take(iter.index() as int),
    {
        proof {
            assert(text@.take(iter.index() + 1) =~= text@.take(iter.index() as int).push(c));
        }
        chars.push(c);
    }
    proof {
        assert(text@.take(text@.len() as int) =~= text@);
    }
    chars
}

/// Whether `part` stands in `whole` from position `at` on.
pub fn stands_at(whole: &Vec<char>, part: &Vec<char>, at: usize) -> (found: bool)
    ensures
        found == occurs_at(part@, whole@, at as int),
{
    if part.len() > whole.len() || at > whole.len() - part.len() {
        return false;
    }
    let mut i: usize = 0;
    while i < part.len()
        invariant
            at + part.len() <= whole.len(),
            i <= part.len(),
            forall|j: int| 0 <= j < i ==> whole[at + j] == part[j],
        decreases part.len() - i,
    {
        if whole[at + i] != part[i] {
            proof {
                let window = whole@.subrange(at as int, at + part.len());
                assert(window[i as int] == whole[at + i]);
            }
            return false;
        }
        i = i + 1;
    }
    proof {
        assert(whole@.subrange(at as int, at + part.len()) =~= part@);
    }
    true
}

/// Whether `whole` begins with `part`.
pub fn starts_with(whole: &Vec<char>, part: &Vec<char>) -> (found: bool)
    ensures
        found == begins_with(whole@, part@),
{
    stands_at(whole, part, 0)
}

/// Whether `part` stands somewhere in `whole`.
pub fn contains(whole: &Vec<char>, part: &Vec<char>) -> (found: bool)
    ensures
        found == occurs_in(part@, whole@),
{
    if part.len() > whole.len() {
        return false;
    }
    let last = whole.len() - part.len();
    let mut at: usize = 0;
    loop
        invariant
            last == whole.len() - part.len(),
            at <= last,
            forall|j: int| 0 <= j < at ==> !occurs_at(part@, whole@, j),
        decreases last - at,
    {
        if stands_at(whole, part, at) {
            return true;
        }
        if at == last {
            return false;
        }
        at = at + 1;
    }
}

/// Whether `a` and `b` agree on their first `k` characters and part ways
/// there in favour of `a`: `a` ends and `b` goes on, or the next character
/// of `a` has the lower code point.
pub open spec fn parts_ways_before(a: Seq<char>, b: Seq<char>, k: int) -> bool {
    &&& 0 <= k <= a.len()
    &&& k < b.len()
    &&& a.take(k) == b.take(k)
    &&& (k < a.len() ==> (a[k] as u32) < (b[k] as u32))
}

/// The order of texts by code point: `a` comes before `b` if, where the
/// two first differ, `a` has ended or has the lower code point.
pub open spec fn sorts_before(a: Seq<char>, b: Seq<char>) -> bool {
    exists|k: int| parts_ways_before(a, b, k)
}

/// Where one text stands relative to another in the order by code point.
#[derive(Clone, Copy, Debug, PartialEq, Eq, Structural)]
pub enum Placement {
    Before,
    Same,
    After,
}

/// Two texts that agree on their first `i` characters can part ways
/// nowhere before `i`, and if they differ at `i`, nowhere after it.
proof fn lemma_parting_point(a: Seq<char>, b: Seq<char>, i: int, k: int)
    requires
        0 <= i <= a.len(),
        i <= b.len(),
        a.take(i) == b.take(i),
        parts_ways_before(a, b, k) || parts_ways_before(b, a, k),
    ensures
        i <= k,
        (i < a.len() && i < b.len() && a[i] != b[i]) ==> k == i,
        (i == a.len() || i == b.len()) ==> k == i,
{
    if k < i {
        assert(a.take(i)[k] == a[k]);
        assert(b.take(i)[k] == b[k]);
    }
    if i < k {
        assert(a.take(k)[i] == a[i]);
        assert(b.take(k)[i] == b[i]);
    }
}

/// The order by code point is transitive.
pub proof fn lemma_sorts_before_is_transitive(a: Seq<char>, b: Seq<char>, c: Seq<char>)
    requires
        sorts_before(a, b),
        sorts_before(b, c),
    ensures
        sorts_before(a, c),
{
    let k1 = choose|k: int| parts_ways_before(a, b, k);
    let k2 = choose|k: int| parts_ways_before(b, c, k);
    let k = if k1 <= k2 { k1 } else { k2 };
    assert(a.take(k) =~= a.take(k1).take(k));
    assert(b.take(k) =~= b.take(k1).take(k));
    assert(b.take(k) =~= b.take(k2).take(k));
    assert(c.take(k) =~= c.take(k2).take(k));
    if k1 < k2 {
        assert(b.take(k2)[k1] == b[k1]);
        assert(c.take(k2)[k1] == c[k1]);
    }
    if k2 < k1 {
        assert(a.take(k1)[k2] == a[k2]);
        assert(b.take(k1)[k2] == b[k2]);
    }
    assert(parts_ways_before(a, c, k));
}

/// No text comes before itself, and of two texts at most one comes before
/// the other.
pub proof fn lemma_sorts_before_is_asymmetric(a: Seq<char>, b: Seq<char>)
    ensures
        !(sorts_before(a, b) && sorts_before(b, a)),
        !sorts_before(a, a),
{
    if sorts_before(a, b) && sorts_before(b, a) {
        let k1 = choose|k: int| parts_ways_before(a, b, k);
        let k2 = choose|k: int| parts_ways_before(b, a, k);
        lemma_parting_point(a, b, k1, k2);
        lemma_parting_point(a, b, k2, k1);
    }
    if sorts_before(a, a) {
        let k = choose|k: int| parts_ways_before(a, a, k);
        assert(false);
    }
}

/// Places `a` relative to `b` in the order by code point.
pub fn place(a: &Vec<char>, b: &Vec<char>) -> (placement: Placement)
    ensures
        placement == Placement::Before <==> sorts_before(a@, b@),
        placement == Placement::Same <==> a@ == b@,
        placement == Placement::After <==> sorts_before(b@, a@),
{
    let mut i: usize = 0;
    while i < a.len() && i < b.len() && a[i] == b[i]
        invariant
            i <= a.len(),
            i <= b.len(),
            a@.take(i as int) == b@.take(i as int),
        decreases a.len() - i,
    {
        proof {
            assert(a@.take(i + 1) =~= a@.take(i as int).push(a[i as int]));
            assert(b@.take(i + 1) =~= b@.take(i as int).push(b[i as int]));
        }
        i = i + 1;
    }
    proof {
        assert forall|k: int| parts_ways_before(a@, b@, k) || parts_ways_before(b@, a@, k) implies k
            == i by {
            lemma_parting_point(a@, b@, i as int, k);
        }
        assert(a@.take(a@.len() as int) =~= a@);
        assert(b@.take(b@.len() as int) =~= b@);
    }
    if i == a.len() && i == b.len() {
        Placement::Same
    } else if i == a.len() {
        proof {
            assert(parts_ways_before(a@, b@, i as int));
        }
        Placement::Before
    } else if i == b.len() {
        proof {
            assert(parts_ways_before(b@, a@, i as int));
        }
        Placement::After
    } else if code_point(a[i]) < code_point(b[i]) {
        proof {
            assert(parts_ways_before(a@, b@, i as int));
        }
        Placement::Before
    } else {
        proof {
            let x = a[i as int];
            let y = b[i as int];
            vstd::utf8::char_u32_cast(x, x as u32);
            vstd::utf8::char_u32_cast(y, y as u32);
            assert(parts_ways_before(b@, a@, i as int));
        }
        Placement::After
    }
}

/// The code point of a character.
fn code_point(c: char) -> (point: u32)
    ensures
        point == c as u32,
{
    c as u32
}

} // verus!
