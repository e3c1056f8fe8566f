//! Permutation tables and lattice indexing for the Perlin noise field.
//!
//! The noise generator keeps three independent permutations of `0..256`,
//! one per axis, built by a Fisher–Yates shuffle, plus 256 random unit
//! vectors kept by the caller. Evaluating the field at a point selects the
//! eight lattice-corner vectors by XOR-combining the three tables at the
//! masked corner coordinates; the smoothed interpolation of those vectors
//! is floating-point work done by the caller.

use vstd::prelude::*;
use rand::Rng;

verus! {

/// A permutation table: 256 entries, each below 256, no entry twice, and
/// every value below 256 present.
pub open spec fn is_perm_table(s: Seq<usize>) -> bool {
    &&& s.len() == 256
    &&& forall|i: int| 0 <= i < s.len() ==> s[i] < 256
    &&& s.no_duplicates()
    &&& forall|v: usize| v < 256 ==> s.contains(v)
}

/// Relies on rand::Rng::gen_range over `0..bound`: it panics on an empty
/// range, and otherwise returns a uniform draw that lies in the range.
#[verifier::external_body]
fn random_index(bound: usize) -> (r: usize)
    requires
        bound >= 1,
    ensures
        r < bound,
{
    rand::thread_rng().gen_range(0..bound)
}

/// Swapping two entries of a sequence rearranges it: the multiset of
/// entries is unchanged.
proof fn lemma_swap_to_multiset(s: Seq<usize>, i: int, j: int)
    requires
        0 <= i < s.len(),
        0 <= j < s.len(),
    ensures
        s.update(i, s[j]).update(j, s[i]).to_multiset() == s.to_multiset(),
{
    broadcast use vstd::seq_lib::group_to_multiset_ensures;
    broadcast use vstd::multiset::group_multiset_axioms;

    if i == j {
        assert(s.update(i, s[j]).update(j, s[i]) =~= s);
    } else {
        assert(s.contains(s[i]));
        assert(s.update(i, s[j]).update(j, s[i]).to_multiset() =~= s.to_multiset());
    }
}

/// A sequence of the same length holding the same entries (as a multiset)
/// as a permutation table is itself a permutation table.
proof fn lemma_perm_table_rearranged(s: Seq<usize>, t: Seq<usize>)
    requires
        is_perm_table(s),
        t.len() == s.len(),
        t.to_multiset() == s.to_multiset(),
    ensures
        is_perm_table(t),
{
    broadcast use vstd::seq_lib::group_to_multiset_ensures;

    s.lemma_multiset_has_no_duplicates();
    t.lemma_multiset_has_no_duplicates_conv();
    assert forall|v: usize| v < 256 implies t.contains(v) by {
        assert(s.contains(v));
        assert(s.to_multiset().count(v) > 0);
    }
    assert forall|i: int| 0 <= i < t.len() implies t[i] < 256 by {
        assert(t.contains(t[i]));
        assert(s.to_multiset().count(t[i]) > 0);
        assert(s.contains(t[i]));
        let w = choose|w: int| 0 <= w < s.len() && s[w] == t[i];
        assert(s[w] < 256);
    }
}

/// Each value below 256 appears exactly once in a permutation table: the
/// table is a bijection on `0..256`.
pub proof fn lemma_perm_table_each_value_once(s: Seq<usize>, v: usize)
    requires
        is_perm_table(s),
        v < 256,
    ensures
        s.to_multiset().count(v) == 1,
{
    broadcast use vstd::seq_lib::group_to_multiset_ensures;

    s.lemma_multiset_has_no_duplicates();
    assert(s.contains(v));
    assert(s.to_multiset().count(v) > 0);
}

/// Fisher–Yates shuffle of the first `n` entries: walk `i` downward and
/// swap entry `i` with a random entry at or below it. The entries are
/// rearranged — none is lost, none appears anew — and those at `n` and
/// beyond stay put.
pub fn permute(p: &mut Vec<usize>, n: usize)
    requires
        n <= old(p)@.len(),
    ensures
        final(p)@.len() == old(p)@.len(),
        final(p)@.to_multiset() == old(p)@.to_multiset(),
        forall|t: int| n <= t < old(p)@.len() ==> final(p)@[t] == old(p)@[t],
{
    let ghost p0 = p@;
    let mut i: usize = n;
    while i > 0
        invariant
            i <= n,
            n <= p@.len(),
            p@.len() == p0.len(),
            p@.to_multiset() == p0.to_multiset(),
            forall|t: int| n <= t < p0.len() ==> p@[t] == p0[t],
        decreases i,
    {
        i = i - 1;
        let target: usize = random_index(i + 1);
        let ghost before = p@;
        let a: usize = p[i];
        let b: usize = p[target];
        p[i] = b;
        p[target] = a;
        proof {
            lemma_swap_to_multiset(before, i as int, target as int);
        }
    }
}

/// Builds one permutation table: the identity on `0..256`, shuffled.
pub fn generate_perm() -> (r: Vec<usize>)
    ensures
        is_perm_table(r@),
{
    let mut v: Vec<usize> = Vec::with_capacity(256);
    let mut i: usize = 0;
    while i < 256
        invariant
            i <= 256,
            v@.len() == i,
            forall|k: int| 0 <= k < i ==> v@[k] == k,
        decreases 256 - i,
    {
        v.push(i);
        i = i + 1;
    }
    proof {
        assert forall|x: usize| x < 256 implies v@.contains(x) by {
            assert(v@[x as int] == x);
        }
        assert(is_perm_table(v@));
    }
    let ghost id = v@;
    permute(&mut v, 256);
    proof {
        lemma_perm_table_rearranged(id, v@);
    }
    v
}

/// Each of the three permutation tables of a well-formed noise generator
/// holds every value in 0..256 exactly once.
pub proof fn lemma_perlin_tables_bijective(p: Perlin, v: usize)
    requires
        p.wf(),
        v < 256,
    ensures
        p.perm_x@.to_multiset().count(v) == 1,
        p.perm_y@.to_multiset().count(v) == 1,
        p.perm_z@.to_multiset().count(v) == 1,
{
    lemma_perm_table_each_value_once(p.perm_x@, v);
    lemma_perm_table_each_value_once(p.perm_y@, v);
    lemma_perm_table_each_value_once(p.perm_z@, v);
}

/// The three per-axis permutation tables of the noise generator. The 256
/// random unit lattice vectors they index are floating-point data held by
/// the caller.
#[derive(Clone)]
pub struct Perlin {
    pub perm_x: Vec<usize>,
    pub perm_y: Vec<usize>,
    pub perm_z: Vec<usize>,
}

/// The lattice coordinate one cell further along an axis, modulo the table
/// size.
pub open spec fn next_cell(c: usize) -> usize {
    ((c & 255) + 1) as usize
}

impl Perlin {
    /// Each axis table is a permutation of `0..256`.
    pub open spec fn wf(self) -> bool {
        &&& is_perm_table(self.perm_x@)
        &&& is_perm_table(self.perm_y@)
        &&& is_perm_table(self.perm_z@)
    }

    /// The index of the lattice vector at corner `(x, y, z)`: the XOR of
    /// the three tables at the masked coordinates.
    pub open spec fn lattice_spec(self, x: usize, y: usize, z: usize) -> usize {
        (self.perm_x@[(x & 255) as int] ^ self.perm_y@[(y & 255) as int]) ^ self.perm_z@[(z & 255)
            as int]
    }

    /// Builds the generator: three independently shuffled tables.
    pub fn new() -> (r: Perlin)
        ensures
            r.wf(),
    {
        Perlin { perm_x: generate_perm(), perm_y: generate_perm(), perm_z: generate_perm() }
    }

    /// Looks up the lattice-vector index for corner `(x, y, z)`. The result
    /// is below 256, so it indexes the caller's vector table.
    pub fn lattice_index(&self, x: usize, y: usize, z: usize) -> (r: usize)
        requires
            self.wf(),
        ensures
            r == self.lattice_spec(x, y, z),
            r < 256,
    {
        let xi: usize = x & 255;
        let yi: usize = y & 255;
        let zi: usize = z & 255;
        proof {
            assert(xi < 256 && yi < 256 && zi < 256) by (bit_vector)
                requires
                    xi == x & 255,
                    yi == y & 255,
                    zi == z & 255,
            ;
        }
        let a: usize = self.perm_x[xi];
        let b: usize = self.perm_y[yi];
        let c: usize = self.perm_z[zi];
        let r: usize = (a ^ b) ^ c;
        proof {
            assert(r < 256) by (bit_vector)
                requires
                    a < 256,
                    b < 256,
                    c < 256,
                    r == (a ^ b) ^ c,
            ;
        }
        r
    }

    /// The eight lattice-vector indices around the cell whose low corner is
    /// `(i, j, k)`, ordered with the x offset outermost; entry `4*dx + 2*dy
    /// + dz` belongs to the corner offset by `(dx, dy, dz)`.
    pub fn corner_indices(&self, i: usize, j: usize, k: usize) -> (r: Vec<usize>)
        requires
            self.wf(),
        ensures
            r@.len() == 8,
            forall|q: int| 0 <= q < 8 ==> r@[q] < 256,
            r@[0] == self.lattice_spec(i, j, k),
            r@[1] == self.lattice_spec(i, j, next_cell(k)),
            r@[2] == self.lattice_spec(i, next_cell(j), k),
            r@[3] == self.lattice_spec(i, next_cell(j), next_cell(k)),
            r@[4] == self.lattice_spec(next_cell(i), j, k),
            r@[5] == self.lattice_spec(next_cell(i), j, next_cell(k)),
            r@[6] == self.lattice_spec(next_cell(i), next_cell(j), k),
            r@[7] == self.lattice_spec(next_cell(i), next_cell(j), next_cell(k)),
    {
        proof {
            assert((i & 255) < 256 && (j & 255) < 256 && (k & 255) < 256) by (bit_vector);
        }
        let i1: usize = (i & 255) + 1;
        let j1: usize = (j & 255) + 1;
        let k1: usize = (k & 255) + 1;
        let mut out: Vec<usize> = Vec::with_capacity(8);
        out.push(self.lattice_index(i, j, k));
        out.push(self.lattice_index(i, j, k1));
        out.push(self.lattice_index(i, j1, k));
        out.push(self.lattice_index(i, j1, k1));
        out.push(self.lattice_index(i1, j, k));
        out.push(self.lattice_index(i1, j, k1));
        out.push(self.lattice_index(i1, j1, k));
        out.push(self.lattice_index(i1, j1, k1));
        out
    }
}

} // verus!
