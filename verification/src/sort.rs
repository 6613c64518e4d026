//! Ordering keys and a stable selection sort over them.
//!
//! A key is a sequence of parts compared left to right: numbers ascending, texts ascending or
//! descending by code point, as `Ord` on integers and `String` does.

use vstd::prelude::*;

verus! {

broadcast use vstd::seq_lib::group_to_multiset_ensures;

/// One part of an ordering key.
pub enum KeyPart {
    Int(i128),
    Text(String),
    TextRev(String),
}

/// The mathematical value of a key part.
pub enum KeyV {
    Int(int),
    Text(Seq<char>),
    TextRev(Seq<char>),
}

impl KeyPart {
    pub open spec fn view_part(&self) -> KeyV {
        match self {
            KeyPart::Int(n) => KeyV::Int(*n as int),
            KeyPart::Text(s) => KeyV::Text(s@),
            KeyPart::TextRev(s) => KeyV::TextRev(s@),
        }
    }
}

pub open spec fn key_view(k: Seq<KeyPart>) -> Seq<KeyV> {
    k.map_values(|p: KeyPart| p.view_part())
}

/// Lexicographic order on texts, as `str::cmp` orders them.
pub open spec fn text_lt(a: Seq<char>, b: Seq<char>) -> bool
    decreases a.len(),
{
    if a.len() == 0 {
        b.len() > 0
    } else if b.len() == 0 {
        false
    } else if a[0] != b[0] {
        a[0] < b[0]
    } else {
        text_lt(a.drop_first(), b.drop_first())
    }
}

pub open spec fn variant_rank(p: KeyV) -> int {
    match p {
        KeyV::Int(_) => 0,
        KeyV::Text(_) => 1,
        KeyV::TextRev(_) => 2,
    }
}

pub open spec fn part_lt(a: KeyV, b: KeyV) -> bool {
    match (a, b) {
        (KeyV::Int(x), KeyV::Int(y)) => x < y,
        (KeyV::Text(x), KeyV::Text(y)) => text_lt(x, y),
        (KeyV::TextRev(x), KeyV::TextRev(y)) => text_lt(y, x),
        _ => variant_rank(a) < variant_rank(b),
    }
}

/// Lexicographic order on keys.
pub open spec fn key_lt(a: Seq<KeyV>, b: Seq<KeyV>) -> bool
    decreases a.len(),
{
    if a.len() == 0 {
        b.len() > 0
    } else if b.len() == 0 {
        false
    } else if a[0] != b[0] {
        part_lt(a[0], b[0])
    } else {
        key_lt(a.drop_first(), b.drop_first())
    }
}

pub open spec fn key_le(a: Seq<KeyV>, b: Seq<KeyV>) -> bool {
    !key_lt(b, a)
}

/// Items sorted by their keys.
pub open spec fn sorted_by<T>(s: Seq<T>, key_of: spec_fn(T) -> Seq<KeyV>) -> bool {
    forall|i: int, j: int| 0 <= i < j < s.len() ==> key_le(key_of(s[i]), key_of(s[j]))
}

pub proof fn lemma_text_lt_irreflexive(a: Seq<char>)
    ensures
        !text_lt(a, a),
    decreases a.len(),
{
    if a.len() > 0 {
        lemma_text_lt_irreflexive(a.drop_first());
    }
}

pub proof fn lemma_text_lt_trans(a: Seq<char>, b: Seq<char>, c: Seq<char>)
    requires
        text_lt(a, b),
        text_lt(b, c),
    ensures
        text_lt(a, c),
    decreases a.len(),
{
    if a.len() > 0 && b.len() > 0 && c.len() > 0 && a[0] == b[0] && b[0] == c[0] {
        lemma_text_lt_trans(a.drop_first(), b.drop_first(), c.drop_first());
    }
}

pub proof fn lemma_text_lt_total(a: Seq<char>, b: Seq<char>)
    ensures
        a == b || text_lt(a, b) || text_lt(b, a),
    decreases a.len(),
{
    if a.len() > 0 && b.len() > 0 {
        if a[0] == b[0] {
            lemma_text_lt_total(a.drop_first(), b.drop_first());
            if a.drop_first() == b.drop_first() {
                assert(a =~= seq![a[0]] + a.drop_first());
                assert(b =~= seq![b[0]] + b.drop_first());
            }
        }
    } else if a.len() == 0 && b.len() == 0 {
        assert(a =~= b);
    }
}

pub proof fn lemma_part_lt_irreflexive(a: KeyV)
    ensures
        !part_lt(a, a),
{
    match a {
        KeyV::Text(x) => lemma_text_lt_irreflexive(x),
        KeyV::TextRev(x) => lemma_text_lt_irreflexive(x),
        _ => {},
    }
}

pub proof fn lemma_part_lt_trans(a: KeyV, b: KeyV, c: KeyV)
    requires
        part_lt(a, b),
        part_lt(b, c),
    ensures
        part_lt(a, c),
{
    match (a, b, c) {
        (KeyV::Text(x), KeyV::Text(y), KeyV::Text(z)) => lemma_text_lt_trans(x, y, z),
        (KeyV::TextRev(x), KeyV::TextRev(y), KeyV::TextRev(z)) => lemma_text_lt_trans(z, y, x),
        _ => {},
    }
}

pub proof fn lemma_part_lt_total(a: KeyV, b: KeyV)
    ensures
        a == b || part_lt(a, b) || part_lt(b, a),
{
    match (a, b) {
        (KeyV::Text(x), KeyV::Text(y)) => lemma_text_lt_total(x, y),
        (KeyV::TextRev(x), KeyV::TextRev(y)) => lemma_text_lt_total(x, y),
        _ => {},
    }
}

pub proof fn lemma_key_lt_irreflexive(a: Seq<KeyV>)
    ensures
        !key_lt(a, a),
    decreases a.len(),
{
    if a.len() > 0 {
        lemma_key_lt_irreflexive(a.drop_first());
    }
}

pub proof fn lemma_key_lt_trans(a: Seq<KeyV>, b: Seq<KeyV>, c: Seq<KeyV>)
    requires
        key_lt(a, b),
        key_lt(b, c),
    ensures
        key_lt(a, c),
    decreases a.len(),
{
    if a.len() > 0 && b.len() > 0 && c.len() > 0 {
        if a[0] == b[0] && b[0] == c[0] {
            lemma_key_lt_trans(a.drop_first(), b.drop_first(), c.drop_first());
        } else if a[0] != b[0] && b[0] != c[0] {
            lemma_part_lt_trans(a[0], b[0], c[0]);
            if a[0] == c[0] {
                lemma_part_lt_irreflexive(a[0]);
            }
        }
    }
}

pub proof fn lemma_key_lt_total(a: Seq<KeyV>, b: Seq<KeyV>)
    ensures
        a == b || key_lt(a, b) || key_lt(b, a),
    decreases a.len(),
{
    if a.len() > 0 && b.len() > 0 {
        if a[0] == b[0] {
            lemma_key_lt_total(a.drop_first(), b.drop_first());
            if a.drop_first() == b.drop_first() {
                assert(a =~= seq![a[0]] + a.drop_first());
                assert(b =~= seq![b[0]] + b.drop_first());
            }
        } else {
            lemma_part_lt_total(a[0], b[0]);
        }
    } else if a.len() == 0 && b.len() == 0 {
        assert(a =~= b);
    }
}

/// `key_le` is a total preorder.
pub proof fn lemma_key_le_trans(a: Seq<KeyV>, b: Seq<KeyV>, c: Seq<KeyV>)
    requires
        key_le(a, b),
        key_le(b, c),
    ensures
        key_le(a, c),
{
    if key_lt(c, a) {
        lemma_key_lt_total(a, b);
        lemma_key_lt_total(b, c);
        if a == b {
        } else if key_lt(a, b) {
            lemma_key_lt_trans(c, a, b);
        } else {
        }
    }
}

/// Three-way comparison of two texts by code points.
pub fn compare_text(a: &str, b: &str) -> (res: i8)
    ensures
        res < 0 <==> text_lt(a@, b@),
        res == 0 <==> a@ == b@,
        res > 0 <==> text_lt(b@, a@),
{
    let x = crate::text::chars_of(a);
    let y = crate::text::chars_of(b);
    let mut i: usize = 0;
    while i < x.len() && i < y.len() && x[i] == y[i]
        invariant
            i <= x@.len(),
            i <= y@.len(),
            x@.take(i as int) == y@.take(i as int),
        decreases x.len() - i,
    {
        proof {
            assert(x@.take(i + 1) =~= x@.take(i as int).push(x@[i as int]));
            assert(y@.take(i + 1) =~= y@.take(i as int).push(y@[i as int]));
        }
        i = i + 1;
    }
    proof {
        lemma_text_lt_skip(x@, y@, i as int);
        lemma_text_lt_skip(y@, x@, i as int);
        lemma_text_lt_irreflexive(x@);
        lemma_text_lt_total(x@, y@);
        if i < x.len() && i < y.len() {
            assert(x@ != y@) by {
                assert(x@[i as int] != y@[i as int]);
            }
        }
        if i == x.len() && i < y.len() {
            assert(x@.len() != y@.len());
        }
        if i < x.len() && i == y.len() {
            assert(x@.len() != y@.len());
        }
        if i == x.len() && i == y.len() {
            assert(x@ =~= x@.take(i as int));
            assert(y@ =~= y@.take(i as int));
        }
    }
    if i < x.len() && i < y.len() {
        if x[i] < y[i] {
            -1
        } else {
            1
        }
    } else if x.len() == y.len() {
        0
    } else if x.len() < y.len() {
        -1
    } else {
        1
    }
}

proof fn lemma_text_lt_skip(a: Seq<char>, b: Seq<char>, k: int)
    requires
        0 <= k <= a.len(),
        k <= b.len(),
        a.take(k) == b.take(k),
    ensures
        text_lt(a, b) == text_lt(a.skip(k), b.skip(k)),
    decreases k,
{
    if k > 0 {
        assert(a[0] == a.take(k)[0]);
        assert(b[0] == b.take(k)[0]);
        assert(a.drop_first().take(k - 1) =~= a.take(k).drop_first());
        assert(b.drop_first().take(k - 1) =~= b.take(k).drop_first());
        lemma_text_lt_skip(a.drop_first(), b.drop_first(), k - 1);
        assert(a.drop_first().skip(k - 1) =~= a.skip(k));
        assert(b.drop_first().skip(k - 1) =~= b.skip(k));
    } else {
        assert(a.skip(0) =~= a);
        assert(b.skip(0) =~= b);
    }
}

/// Three-way comparison of two key parts.
pub fn compare_parts(a: &KeyPart, b: &KeyPart) -> (res: i8)
    ensures
        res < 0 <==> part_lt(a.view_part(), b.view_part()),
        res == 0 <==> a.view_part() == b.view_part(),
        res > 0 <==> part_lt(b.view_part(), a.view_part()),
{
    proof {
        lemma_part_lt_irreflexive(a.view_part());
        lemma_part_lt_total(a.view_part(), b.view_part());
    }
    match (a, b) {
        (KeyPart::Int(x), KeyPart::Int(y)) => {
            if *x < *y {
                -1
            } else if *x == *y {
                0
            } else {
                1
            }
        },
        (KeyPart::Text(x), KeyPart::Text(y)) => compare_text(x.as_str(), y.as_str()),
        (KeyPart::TextRev(x), KeyPart::TextRev(y)) => compare_text(y.as_str(), x.as_str()),
        (KeyPart::Int(_), _) => -1,
        (KeyPart::Text(_), KeyPart::Int(_)) => 1,
        (KeyPart::Text(_), KeyPart::TextRev(_)) => -1,
        (KeyPart::TextRev(_), _) => 1,
    }
}

/// Whether key `a` orders strictly before key `b`.
pub fn key_less(a: &Vec<KeyPart>, b: &Vec<KeyPart>) -> (res: bool)
    ensures
        res == key_lt(key_view(a@), key_view(b@)),
{
    let mut i: usize = 0;
    while i < a.len() && i < b.len()
        invariant
            i <= a@.len(),
            i <= b@.len(),
            key_view(a@).take(i as int) == key_view(b@).take(i as int),
        decreases a.len() - i,
    {
        let c = compare_parts(&a[i], &b[i]);
        if c != 0 {
            proof {
                lemma_key_lt_skip(key_view(a@), key_view(b@), i as int);
                assert(key_view(a@).skip(i as int)[0] == a@[i as int].view_part());
                assert(key_view(b@).skip(i as int)[0] == b@[i as int].view_part());
            }
            return c < 0;
        }
        proof {
            assert(key_view(a@).take(i + 1) =~= key_view(a@).take(i as int).push(a@[i as int].view_part()));
            assert(key_view(b@).take(i + 1) =~= key_view(b@).take(i as int).push(b@[i as int].view_part()));
        }
        i = i + 1;
    }
    proof {
        lemma_key_lt_skip(key_view(a@), key_view(b@), i as int);
    }
    a.len() < b.len()
}

proof fn lemma_key_lt_skip(a: Seq<KeyV>, b: Seq<KeyV>, k: int)
    requires
        0 <= k <= a.len(),
        k <= b.len(),
        a.take(k) == b.take(k),
    ensures
        key_lt(a, b) == key_lt(a.skip(k), b.skip(k)),
    decreases k,
{
    if k > 0 {
        assert(a[0] == a.take(k)[0]);
        assert(b[0] == b.take(k)[0]);
        assert(a.drop_first().take(k - 1) =~= a.take(k).drop_first());
        assert(b.drop_first().take(k - 1) =~= b.take(k).drop_first());
        lemma_key_lt_skip(a.drop_first(), b.drop_first(), k - 1);
        assert(a.drop_first().skip(k - 1) =~= a.skip(k));
        assert(b.drop_first().skip(k - 1) =~= b.skip(k));
    } else {
        assert(a.skip(0) =~= a);
        assert(b.skip(0) =~= b);
    }
}

/// `res` is `orig` rearranged by the positions `p` (`res[k]` is `orig[p[k]]`, each position
/// used once), and items with equal keys keep their order.
pub open spec fn stably_rearranged<T>(orig: Seq<T>, res: Seq<T>, p: Seq<int>, key_of: spec_fn(T) -> Seq<KeyV>) -> bool {
    &&& p.len() == res.len()
    &&& res.len() == orig.len()
    &&& forall|k: int| 0 <= k < p.len() ==> 0 <= #[trigger] p[k] < orig.len() && res[k] == orig[p[k]]
    &&& forall|a: int, b: int| 0 <= a < b < p.len() ==> #[trigger] p[a] != #[trigger] p[b]
    &&& forall|a: int, b: int|
        0 <= a < b < p.len() && key_of(res[a]) == key_of(res[b]) ==> #[trigger] p[a] < #[trigger] p[b]
}

/// `res` is `orig` stably sorted into place: some rearrangement of positions takes one to the
/// other, keeping items with equal keys in their order (see `stably_rearranged`).
pub open spec fn stable_order<T>(orig: Seq<T>, res: Seq<T>, key_of: spec_fn(T) -> Seq<KeyV>) -> bool {
    exists|p: Seq<int>| #[trigger] stably_rearranged(orig, res, p, key_of)
}

/// A stable sort stays one when every item is replaced by its view, the keys being read
/// through the view.
pub proof fn lemma_stable_order_views<T, V>(
    orig: Seq<T>,
    res: Seq<T>,
    key_of: spec_fn(T) -> Seq<KeyV>,
    view_of: spec_fn(T) -> V,
    key_v: spec_fn(V) -> Seq<KeyV>,
)
    requires
        stable_order(orig, res, key_of),
        forall|t: T| #[trigger] key_of(t) == key_v(view_of(t)),
    ensures
        stable_order(orig.map_values(view_of), res.map_values(view_of), key_v),
{
    let p = choose|p: Seq<int>| #[trigger] stably_rearranged(orig, res, p, key_of);
    let o = orig.map_values(view_of);
    let r = res.map_values(view_of);
    assert forall|k: int| 0 <= k < p.len() implies 0 <= #[trigger] p[k] < o.len() && r[k] == o[p[k]] by {}
    assert forall|a: int, b: int| 0 <= a < b < p.len() && key_v(r[a]) == key_v(r[b]) implies #[trigger] p[a] < #[trigger] p[b] by {
        assert(key_of(res[a]) == key_v(view_of(res[a])));
        assert(key_of(res[b]) == key_v(view_of(res[b])));
    }
    assert(stably_rearranged(o, r, p, key_v));
}

/// Sorts the items by their keys (`keys[i]` is the key of `items[i]`). The result holds the
/// same items, each key no greater than the keys after it, and items with equal keys in the
/// order they came in.
pub fn sort_by_keys<T>(items: Vec<T>, keys: Vec<Vec<KeyPart>>, key_of: Ghost<
    spec_fn(T) -> Seq<KeyV>,
>) -> (res: Vec<T>)
    requires
        items.len() == keys.len(),
        forall|i: int| 0 <= i < items.len() ==> key_view(#[trigger] keys@[i]@) == key_of@(items@[i]),
    ensures
        res@.to_multiset() == items@.to_multiset(),
        res.len() == items.len(),
        sorted_by(res@, key_of@),
        stable_order(items@, res@, key_of@),
{
    let ghost original = items@;
    let ghost mut idx: Seq<int> = Seq::new(items@.len(), |i: int| i);
    let ghost mut pos: Seq<int> = Seq::empty();
    let mut rest = items;
    let mut rest_keys = keys;
    let mut res: Vec<T> = Vec::new();
    while rest.len() > 0
        invariant
            rest.len() == rest_keys.len(),
            forall|i: int| 0 <= i < rest.len() ==> key_view(#[trigger] rest_keys@[i]@) == key_of@(rest@[i]),
            res@.to_multiset().add(rest@.to_multiset()) == original.to_multiset(),
            sorted_by(res@, key_of@),
            forall|i: int, j: int| 0 <= i < res.len() && 0 <= j < rest.len() ==>
                key_le(key_of@(#[trigger] res@[i]), key_of@(#[trigger] rest@[j])),
            idx.len() == rest.len(),
            pos.len() == res.len(),
            forall|i: int| 0 <= i < idx.len() ==> 0 <= #[trigger] idx[i] < original.len() && rest@[i] == original[idx[i]],
            forall|a: int, b: int| 0 <= a < b < idx.len() ==> #[trigger] idx[a] < #[trigger] idx[b],
            forall|k: int| 0 <= k < pos.len() ==> 0 <= #[trigger] pos[k] < original.len() && res@[k] == original[pos[k]],
            forall|a: int, b: int| 0 <= a < b < pos.len() ==> #[trigger] pos[a] != #[trigger] pos[b],
            forall|a: int, b: int| 0 <= a < pos.len() && 0 <= b < idx.len() ==> #[trigger] pos[a] != #[trigger] idx[b],
            forall|a: int, b: int|
                0 <= a < b < pos.len() && key_of@(res@[a]) == key_of@(res@[b]) ==> #[trigger] pos[a] < #[trigger] pos[b],
            forall|a: int, b: int|
                0 <= a < pos.len() && 0 <= b < idx.len() && key_of@(res@[a]) == key_of@(rest@[b]) ==> #[trigger] pos[a] < #[trigger] idx[b],
        decreases rest.len(),
    {
        let mut best: usize = 0;
        let mut j: usize = 1;
        proof {
            lemma_key_lt_irreflexive(key_of@(rest@[0]));
        }
        while j < rest.len()
            invariant
                rest.len() == rest_keys.len(),
                forall|i: int| 0 <= i < rest.len() ==> key_view(#[trigger] rest_keys@[i]@) == key_of@(rest@[i]),
                best < j <= rest.len(),
                forall|k: int| 0 <= k < j ==> key_le(key_of@(rest@[best as int]), key_of@(#[trigger] rest@[k])),
                forall|k: int| 0 <= k < best ==> key_of@(#[trigger] rest@[k]) != key_of@(rest@[best as int]),
            decreases rest.len() - j,
        {
            if key_less(&rest_keys[j], &rest_keys[best]) {
                proof {
                    assert forall|k: int| 0 <= k < j + 1 implies key_le(key_of@(rest@[j as int]), key_of@(#[trigger] rest@[k])) by {
                        if k < j {
                            lemma_key_lt_total(key_of@(rest@[j as int]), key_of@(rest@[best as int]));
                            lemma_key_lt_irreflexive(key_of@(rest@[best as int]));
                            lemma_key_lt_irreflexive(key_of@(rest@[j as int]));
                            if key_lt(key_of@(rest@[best as int]), key_of@(rest@[j as int])) {
                                lemma_key_lt_trans(key_of@(rest@[j as int]), key_of@(rest@[best as int]), key_of@(rest@[j as int]));
                            }
                            assert(key_le(key_of@(rest@[j as int]), key_of@(rest@[best as int])));
                            lemma_key_le_trans(key_of@(rest@[j as int]), key_of@(rest@[best as int]), key_of@(rest@[k]));
                        } else {
                            lemma_key_lt_irreflexive(key_of@(rest@[j as int]));
                        }
                    }
                    assert forall|k: int| 0 <= k < j implies key_of@(#[trigger] rest@[k]) != key_of@(rest@[j as int]) by {
                        if key_of@(rest@[k]) == key_of@(rest@[j as int]) {
                            assert(key_le(key_of@(rest@[best as int]), key_of@(rest@[k])));
                        }
                    }
                }
                best = j;
            } else {
                proof {
                    lemma_key_lt_total(key_of@(rest@[j as int]), key_of@(rest@[best as int]));
                }
            }
            j = j + 1;
        }
        let ghost old_rest = rest@;
        let ghost old_res = res@;
        let ghost old_idx = idx;
        let ghost old_pos = pos;
        let item = rest.remove(best);
        let _k = rest_keys.remove(best);
        proof {
            idx = old_idx.remove(best as int);
            pos = old_pos.push(old_idx[best as int]);
            vstd::seq_lib::to_multiset_remove(old_rest, best as int);
            vstd::seq_lib::to_multiset_build(old_res, item);
            assert forall|i: int| 0 <= i < rest.len() implies key_view(#[trigger] rest_keys@[i]@) == key_of@(rest@[i]) by {
                if i < best {
                    assert(rest@[i] == old_rest[i]);
                } else {
                    assert(rest@[i] == old_rest[i + 1]);
                }
            }
        }
        res.push(item);
        proof {
            assert forall|a: int, b: int| 0 <= a < b < res.len() implies key_le(key_of@(res@[a]), key_of@(res@[b])) by {
                if b < res.len() - 1 {
                    assert(res@[a] == old_res[a]);
                    assert(res@[b] == old_res[b]);
                } else {
                    assert(res@[a] == old_res[a]);
                    assert(res@[b] == old_rest[best as int]);
                }
            }
            assert forall|a: int, b: int| 0 <= a < res.len() && 0 <= b < rest.len() implies
                key_le(key_of@(#[trigger] res@[a]), key_of@(#[trigger] rest@[b])) by {
                let ob = if b < best { b } else { b + 1 };
                assert(rest@[b] == old_rest[ob]);
                if a < res.len() - 1 {
                    assert(res@[a] == old_res[a]);
                } else {
                    assert(res@[a] == old_rest[best as int]);
                }
            }
            let last = res.len() - 1;
            assert forall|i: int| 0 <= i < idx.len() implies 0 <= #[trigger] idx[i] < original.len() && rest@[i] == original[idx[i]] by {
                let oi = if i < best { i } else { i + 1 };
                assert(idx[i] == old_idx[oi]);
                assert(rest@[i] == old_rest[oi]);
            }
            assert forall|a: int, b: int| 0 <= a < b < idx.len() implies #[trigger] idx[a] < #[trigger] idx[b] by {
                let oa = if a < best { a } else { a + 1 };
                let ob = if b < best { b } else { b + 1 };
                assert(idx[a] == old_idx[oa]);
                assert(idx[b] == old_idx[ob]);
            }
            assert forall|k: int| 0 <= k < pos.len() implies 0 <= #[trigger] pos[k] < original.len() && res@[k] == original[pos[k]] by {
                if k < last {
                    assert(pos[k] == old_pos[k]);
                    assert(res@[k] == old_res[k]);
                }
            }
            assert forall|a: int, b: int| 0 <= a < b < pos.len() implies #[trigger] pos[a] != #[trigger] pos[b] by {
                assert(pos[a] == old_pos[a]);
                if b < last {
                    assert(pos[b] == old_pos[b]);
                }
            }
            assert forall|a: int, b: int| 0 <= a < pos.len() && 0 <= b < idx.len() implies #[trigger] pos[a] != #[trigger] idx[b] by {
                let ob = if b < best { b } else { b + 1 };
                assert(idx[b] == old_idx[ob]);
                if a < last {
                    assert(pos[a] == old_pos[a]);
                }
            }
            assert forall|a: int, b: int|
                0 <= a < b < pos.len() && key_of@(res@[a]) == key_of@(res@[b]) implies #[trigger] pos[a] < #[trigger] pos[b] by {
                assert(pos[a] == old_pos[a]);
                assert(res@[a] == old_res[a]);
                if b < last {
                    assert(pos[b] == old_pos[b]);
                    assert(res@[b] == old_res[b]);
                } else {
                    assert(res@[b] == old_rest[best as int]);
                }
            }
            assert forall|a: int, b: int|
                0 <= a < pos.len() && 0 <= b < idx.len() && key_of@(res@[a]) == key_of@(rest@[b]) implies #[trigger] pos[a] < #[trigger] idx[b] by {
                let ob = if b < best { b } else { b + 1 };
                assert(idx[b] == old_idx[ob]);
                assert(rest@[b] == old_rest[ob]);
                if a < last {
                    assert(pos[a] == old_pos[a]);
                    assert(res@[a] == old_res[a]);
                } else {
                    assert(res@[a] == old_rest[best as int]);
                    if ob < best {
                        assert(key_of@(old_rest[ob]) != key_of@(old_rest[best as int]));
                    }
                }
            }
        }
    }
    proof {
        assert(rest@.to_multiset() =~= vstd::multiset::Multiset::empty());
        vstd::seq_lib::to_multiset_len(res@);
        vstd::seq_lib::to_multiset_len(original);
        assert(stably_rearranged(original, res@, pos, key_of@));
    }
    res
}


/// Sequences holding the same items still do after mapping each item.
pub proof fn lemma_map_multiset<A, B>(s1: Seq<A>, s2: Seq<A>, f: spec_fn(A) -> B)
    requires
        s1.to_multiset() == s2.to_multiset(),
    ensures
        s1.map_values(f).to_multiset() == s2.map_values(f).to_multiset(),
    decreases s1.len(),
{
    broadcast use vstd::multiset::group_multiset_axioms;
    vstd::seq_lib::to_multiset_len(s1);
    vstd::seq_lib::to_multiset_len(s2);
    if s1.len() == 0 {
        assert(s1.map_values(f) =~= Seq::<B>::empty());
        assert(s2.map_values(f) =~= Seq::<B>::empty());
    } else {
        let x = s1.last();
        let s1p = s1.drop_last();
        assert(s1 =~= s1p.push(x));
        vstd::seq_lib::to_multiset_build(s1p, x);
        assert(s2.to_multiset().count(x) > 0);
        vstd::seq_lib::to_multiset_contains(s2, x);
        let k = choose|k: int| 0 <= k < s2.len() && s2[k] == x;
        let s2p = s2.remove(k);
        vstd::seq_lib::to_multiset_remove(s2, k);
        assert(s1p.to_multiset() =~= s2p.to_multiset());
        lemma_map_multiset(s1p, s2p, f);
        assert(s1.map_values(f) =~= s1p.map_values(f).push(f(x)));
        vstd::seq_lib::to_multiset_build(s1p.map_values(f), f(x));
        assert(s2p.map_values(f) =~= s2.map_values(f).remove(k));
        vstd::seq_lib::to_multiset_remove(s2.map_values(f), k);
        assert(s2.map_values(f)[k] == f(x));
        assert(s1.map_values(f).to_multiset() =~= s2.map_values(f).to_multiset());
    }
}

} // verus!
