//! Flat Cartesian coordinate sequences and their per-atom (x, y, z) triples.
use vstd::prelude::*;

verus! {

/// The atoms of a flat sequence `[x0, y0, z0, x1, y1, z1, ...]`, one triple each.
pub open spec fn chunk_spec<T>(flat: Seq<T>) -> Seq<(T, T, T)> {
    Seq::new(flat.len() / 3, |i: int| (flat[3 * i], flat[3 * i + 1], flat[3 * i + 2]))
}

/// The flat sequence of the coordinates of `triples`, in atom order.
pub open spec fn flatten_spec<T>(triples: Seq<(T, T, T)>) -> Seq<T> {
    Seq::new(
        3 * triples.len(),
        |j: int|
            if j % 3 == 0 {
                triples[j / 3].0
            } else if j % 3 == 1 {
                triples[j / 3].1
            } else {
                triples[j / 3].2
            },
    )
}

/// Groups a flat coordinate sequence into one triple per atom.
pub fn chunk_triples<T: Copy>(flat: &Vec<T>) -> (r: Vec<(T, T, T)>)
    requires
        flat@.len() % 3 == 0,
    ensures
        r@ == chunk_spec(flat@),
{
    let n: usize = flat.len() / 3;
    let mut r: Vec<(T, T, T)> = Vec::with_capacity(n);
    let mut i: usize = 0;
    assert(3 * n == flat@.len());
    while i < n
        invariant
            n == flat@.len() / 3,
            3 * n == flat@.len(),
            flat@.len() <= usize::MAX,
            i <= n,
            r@ =~= chunk_spec(flat@).take(i as int),
        decreases n - i,
    {
        let b: usize = 3 * i;
        r.push((flat[b], flat[b + 1], flat[b + 2]));
        i = i + 1;
    }
    r
}

/// Flattens per-atom triples into `[x0, y0, z0, x1, ...]`.
pub fn flatten_triples<T: Copy>(triples: &Vec<(T, T, T)>) -> (r: Vec<T>)
    requires
        triples@.len() * 3 <= usize::MAX,
    ensures
        r@ == flatten_spec(triples@),
{
    let mut r: Vec<T> = Vec::with_capacity(3 * triples.len());
    let mut i: usize = 0;
    while i < triples.len()
        invariant
            i <= triples@.len(),
            triples@.len() * 3 <= usize::MAX,
            r@ =~= flatten_spec(triples@).take(3 * i),
        decreases triples@.len() - i,
    {
        let t = triples[i];
        assert(flatten_spec(triples@).take(3 * i + 3) =~= r@.push(t.0).push(t.1).push(t.2)) by {
            assert forall|j: int| 3 * i <= j < 3 * i + 3 implies #[trigger] (j / 3) == i
                && j % 3 == j - 3 * i by {}
        }
        r.push(t.0);
        r.push(t.1);
        r.push(t.2);
        i = i + 1;
    }
    assert(flatten_spec(triples@).take(3 * i) =~= flatten_spec(triples@));
    r
}

/// Grouping a flat sequence of whole triples and flattening the groups gives
/// back the sequence, element for element.
pub proof fn lemma_flatten_chunk<T>(flat: Seq<T>)
    requires
        flat.len() % 3 == 0,
    ensures
        flatten_spec(chunk_spec(flat)) == flat,
{
    assert(flatten_spec(chunk_spec(flat)) =~= flat) by {
        assert forall|j: int| 0 <= j < flat.len() implies #[trigger] flatten_spec(
            chunk_spec(flat),
        )[j] == flat[j] by {
            assert(0 <= j / 3 < flat.len() / 3);
            assert(3 * (j / 3) + j % 3 == j);
        }
    }
}

/// Flattening triples and grouping the result gives back the triples.
pub proof fn lemma_chunk_flatten<T>(triples: Seq<(T, T, T)>)
    ensures
        chunk_spec(flatten_spec(triples)) == triples,
{
    assert(chunk_spec(flatten_spec(triples)) =~= triples) by {
        assert forall|i: int| 0 <= i < triples.len() implies #[trigger] chunk_spec(
            flatten_spec(triples),
        )[i] == triples[i] by {
            assert((3 * i) / 3 == i && (3 * i) % 3 == 0);
            assert((3 * i + 1) / 3 == i && (3 * i + 1) % 3 == 1);
            assert((3 * i + 2) / 3 == i && (3 * i + 2) % 3 == 2);
        }
    }
}

} // verus!
