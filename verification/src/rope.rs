//! Rotary position embedding: which grid coordinate and which frequency turn
//! each channel pair, and the cache of computed ranges.
use crate::arith::{imax, lemma_sat_mul, max_usize, sat, saturating_add, saturating_mul};
use crate::cache::{distinct_keys, entries_map, lemma_entries_map, lemma_replace_entry};
use std::sync::Arc;
use vstd::arithmetic::div_mod::{
    lemma_basic_div, lemma_fundamental_div_mod, lemma_fundamental_div_mod_converse, lemma_small_mod,
};
use vstd::prelude::*;

verus! {

// ---------------------------------------------------------------------------
// Grid tokens
// ---------------------------------------------------------------------------

/// Grid position of a token in the dense order: `x` slowest, `z` fastest.
pub open spec fn token_position(token: int, resolution: int) -> (int, int, int) {
    let plane = resolution * resolution;
    (token / plane, (token % plane) / resolution, (token % plane) % resolution)
}

/// Number of the token at a grid position.
pub open spec fn token_number(x: int, y: int, z: int, resolution: int) -> int {
    (x * resolution + y) * resolution + z
}

/// A token number gives back the position it was made from.
pub proof fn token_position_inverts_number(x: int, y: int, z: int, resolution: int)
    requires
        resolution > 0,
        0 <= x < resolution,
        0 <= y < resolution,
        0 <= z < resolution,
    ensures
        token_position(token_number(x, y, z, resolution), resolution) == (x, y, z),
        0 <= token_number(x, y, z, resolution) < resolution * resolution * resolution,
{
    let r = resolution;
    let plane = r * r;
    let yz = y * r + z;
    let t = token_number(x, y, z, r);
    assert(0 <= yz < plane) by (nonlinear_arith)
        requires
            0 <= y < r,
            0 <= z < r,
            yz == y * r + z,
            plane == r * r,
    ;
    assert(t == x * plane + yz) by (nonlinear_arith)
        requires
            t == (x * r + y) * r + z,
            yz == y * r + z,
            plane == r * r,
    ;
    lemma_fundamental_div_mod_converse(t, plane, x, yz);
    lemma_fundamental_div_mod_converse(yz, r, y, z);
    assert(0 <= t < r * r * r) by (nonlinear_arith)
        requires
            t == x * plane + yz,
            0 <= x < r,
            0 <= yz < plane,
            plane == r * r,
    ;
}

/// A position gives back the token number it was taken from.
pub proof fn token_number_inverts_position(token: int, resolution: int)
    requires
        resolution > 0,
        token >= 0,
    ensures
        ({
            let p = token_position(token, resolution);
            token_number(p.0, p.1, p.2, resolution) == token
        }),
{
    let r = resolution;
    let plane = r * r;
    let p = token_position(token, r);
    assert(plane > 0) by (nonlinear_arith)
        requires
            r > 0,
            plane == r * r,
    ;
    lemma_fundamental_div_mod(token, plane);
    lemma_fundamental_div_mod(token % plane, r);
    assert((p.0 * r + p.1) * r + p.2 == token) by (nonlinear_arith)
        requires
            token == plane * p.0 + token % plane,
            token % plane == r * p.1 + p.2,
            plane == r * r,
    ;
}

/// Positions of all tokens of a dense grid, three numbers per token, with the
/// dimensions of the list.
pub fn dense_grid_token_coords(resolution: usize) -> (r: (Vec<i64>, [usize; 2]))
    requires
        resolution * resolution * resolution * 3 <= usize::MAX,
        resolution <= i64::MAX,
    ensures
        r.1@ == seq![(resolution * resolution * resolution) as usize, 3usize],
        r.0@.len() == resolution * resolution * resolution * 3,
        forall|token: int|
            #![trigger token_position(token, resolution as int)]
            0 <= token < resolution * resolution * resolution ==> (
                r.0@[3 * token] as int,
                r.0@[3 * token + 1] as int,
                r.0@[3 * token + 2] as int,
            ) == token_position(token, resolution as int),
{
    let ghost n = resolution as int;
    proof {
        assert(0 <= n * n && 0 <= n * n * n <= n * n * n * 3) by (nonlinear_arith)
            requires
                n >= 0,
        ;
        lemma_sat_mul(n * n, n);
        assert(n * n <= n * n * n || n == 0) by (nonlinear_arith)
            requires
                n >= 0,
        ;
    }
    let tokens: usize = saturating_mul(saturating_mul(resolution, resolution), resolution);
    assert(tokens == n * n * n);
    let mut coords: Vec<i64> = Vec::new();
    let mut x: usize = 0;
    while x < resolution
        invariant
            x <= resolution,
            resolution <= i64::MAX,
            n == resolution,
            coords@.len() == 3 * (x * n * n),
            forall|a: int, b: int, c: int|
                #![trigger token_number(a, b, c, n)]
                0 <= a < x && 0 <= b < n && 0 <= c < n ==> holds_position(coords@, a, b, c, n),
        decreases resolution - x,
    {
        let mut y: usize = 0;
        proof {
            assert(3 * (x * n * n) == 3 * ((x * n + 0) * n)) by (nonlinear_arith);
        }
        while y < resolution
            invariant
                x < resolution,
                y <= resolution,
                resolution <= i64::MAX,
                n == resolution,
                coords@.len() == 3 * ((x * n + y) * n),
                forall|a: int, b: int, c: int|
                    #![trigger token_number(a, b, c, n)]
                    (0 <= a < x && 0 <= b < n || a == x && 0 <= b < y) && 0 <= c < n
                        ==> holds_position(coords@, a, b, c, n),
            decreases resolution - y,
        {
            let mut z: usize = 0;
            while z < resolution
                invariant
                    x < resolution,
                    y < resolution,
                    z <= resolution,
                    resolution <= i64::MAX,
                    n == resolution,
                    coords@.len() == 3 * token_number(x as int, y as int, z as int, n),
                    forall|a: int, b: int, c: int|
                        #![trigger token_number(a, b, c, n)]
                        (0 <= a < x && 0 <= b < n || a == x && 0 <= b < y) && 0 <= c < n || a == x
                            && b == y && 0 <= c < z ==> holds_position(coords@, a, b, c, n),
                decreases resolution - z,
            {
                let ghost before = coords@;
                coords.push(x as i64);
                coords.push(y as i64);
                coords.push(z as i64);
                proof {
                    let t = token_number(x as int, y as int, z as int, n);
                    assert(before.len() == 3 * t);
                    assert forall|a: int, b: int, c: int|
                        #![trigger token_number(a, b, c, n)]
                        (0 <= a < x && 0 <= b < n || a == x && 0 <= b < y) && 0 <= c < n || a == x
                            && b == y && 0 <= c < z + 1 implies holds_position(
                        coords@,
                        a,
                        b,
                        c,
                        n,
                    ) by {
                        if !(a == x && b == y && c == z) {
                            assert(holds_position(before, a, b, c, n));
                        }
                    }
                }
                z = z + 1;
            }
            proof {
                assert(token_number(x as int, y as int, n, n) == (x * n + (y + 1)) * n)
                    by (nonlinear_arith);
            }
            y = y + 1;
        }
        proof {
            assert((x * n + n) * n == (x + 1) * n * n) by (nonlinear_arith);
        }
        x = x + 1;
    }
    proof {
        assert(n * n * n * 3 == 3 * (n * n * n)) by (nonlinear_arith);
        assert forall|token: int|
            #![trigger token_position(token, n)]
            0 <= token < n * n * n implies (
            coords@[3 * token] as int,
            coords@[3 * token + 1] as int,
            coords@[3 * token + 2] as int,
        ) == token_position(token, n) by {
            let p = token_position(token, n);
            assert(n > 0) by (nonlinear_arith)
                requires
                    0 <= token < n * n * n,
                    n >= 0,
            ;
            lemma_position_in_grid(token, n);
            token_number_inverts_position(token, n);
            assert(holds_position(coords@, p.0, p.1, p.2, n));
        }
    }
    let dims: [usize; 2] = [tokens, 3];
    assert(dims@ =~= seq![(resolution * resolution * resolution) as usize, 3usize]);
    (coords, dims)
}

/// The list holds position `(x, y, z)` where its token stands.
spec fn holds_position(coords: Seq<i64>, x: int, y: int, z: int, resolution: int) -> bool {
    let t = 3 * token_number(x, y, z, resolution);
    0 <= t && t + 2 < coords.len() && coords[t] == x && coords[t + 1] == y && coords[t + 2] == z
}

/// Tokens of the grid have positions inside it.
proof fn lemma_position_in_grid(token: int, resolution: int)
    requires
        resolution > 0,
        0 <= token < resolution * resolution * resolution,
    ensures
        ({
            let p = token_position(token, resolution);
            0 <= p.0 < resolution && 0 <= p.1 < resolution && 0 <= p.2 < resolution
        }),
{
    let r = resolution;
    let plane = r * r;
    let yz = token % plane;
    assert(plane > 0) by (nonlinear_arith)
        requires
            r > 0,
            plane == r * r,
    ;
    assert(0 <= yz < plane && 0 <= token / plane < r) by (nonlinear_arith)
        requires
            plane > 0,
            yz == token % plane,
            0 <= token < plane * r,
    ;
    assert(0 <= yz / r < r && 0 <= yz % r < r) by (nonlinear_arith)
        requires
            r > 0,
            0 <= yz < r * r,
    ;
}

// ---------------------------------------------------------------------------
// Turned pairs
// ---------------------------------------------------------------------------

/// What turns one channel pair: a grid coordinate times a frequency.
#[derive(Clone, Copy, Debug, PartialEq, Eq, Structural)]
pub struct RopeAngle {
    /// Grid coordinate.
    pub coord: usize,
    /// Number of the frequency.
    pub freq: usize,
}

/// Frequencies per grid axis.
pub open spec fn freq_dim_of(pairs: int) -> int {
    imax(pairs / 3, 1)
}

/// Frequencies per grid axis.
pub fn rope_freq_dim(pairs: usize) -> (r: usize)
    ensures
        r == freq_dim_of(pairs as int),
        r >= 1,
{
    max_usize(pairs / 3, 1)
}

/// Number of tokens of the grid, saturating.
pub open spec fn grid_tokens(resolution: int) -> int {
    sat(resolution * resolution * resolution)
}

/// Angle of one channel pair of one token; pairs beyond the three axes and
/// tokens beyond the grid are not turned.
pub open spec fn rope_angle(resolution: int, token: int, pair: int, pairs: int) -> Option<
    RopeAngle,
> {
    let freq_dim = freq_dim_of(pairs);
    let p = token_position(token, resolution);
    let axis = pair / freq_dim;
    if token >= grid_tokens(resolution) || axis >= 3 {
        None
    } else {
        let coord = if axis == 0 {
            p.0
        } else if axis == 1 {
            p.1
        } else {
            p.2
        };
        Some(RopeAngle { coord: coord as usize, freq: (pair % freq_dim) as usize })
    }
}

/// Angle of one channel pair of one token.
fn pair_angle(
    resolution: usize,
    plane: usize,
    max_tokens: usize,
    token: usize,
    pair: usize,
    freq_dim: usize,
) -> (r: Option<RopeAngle>)
    requires
        resolution > 0,
        plane == sat(resolution * resolution),
        max_tokens == grid_tokens(resolution as int),
        freq_dim >= 1,
    ensures
        forall|pairs: int|
            #[trigger] freq_dim_of(pairs) == freq_dim ==> r == rope_angle(
                resolution as int,
                token as int,
                pair as int,
                pairs,
            ),
{
    let ghost n = resolution as int;
    let axis: usize = pair / freq_dim;
    if token >= max_tokens || axis >= 3 {
        return None;
    }
    proof {
        assert(n * n > 0) by (nonlinear_arith)
            requires
                n > 0,
        ;
        if n * n > usize::MAX {
            // A plane larger than the machine's range holds every token there is.
            assert(token as int / (n * n) == 0 && token as int % (n * n) == token) by {
                lemma_basic_div(token as int, n * n);
                lemma_small_mod(token as nat, (n * n) as nat);
            }
            assert(token < plane);
            lemma_basic_div(token as int, plane as int);
            lemma_small_mod(token as nat, plane as nat);
        }
    }
    let x: usize = token / plane;
    let yz: usize = token % plane;
    let y: usize = yz / resolution;
    let z: usize = yz % resolution;
    let coord: usize = if axis == 0 {
        x
    } else if axis == 1 {
        y
    } else {
        z
    };
    Some(RopeAngle { coord, freq: pair % freq_dim })
}

/// The pairs of a token fall into three equal groups, one for each grid axis in
/// the order `x`, `y`, `z`; pair `f` of a group is turned by the coordinate of
/// its axis, with frequency `f`. Pairs behind the groups and tokens behind the
/// grid are not turned.
pub proof fn pairs_turn_by_their_own_axis(
    resolution: int,
    x: int,
    y: int,
    z: int,
    pairs: int,
    group: int,
    axis: int,
    f: int,
)
    requires
        0 <= x < resolution,
        0 <= y < resolution,
        0 <= z < resolution,
        resolution * resolution * resolution <= usize::MAX,
        0 <= pairs <= usize::MAX,
        group == (if pairs < 3 {
            1
        } else {
            pairs / 3
        }),
        0 <= axis,
        0 <= f < group,
    ensures
        token_position((x * resolution + y) * resolution + z, resolution) == (x, y, z),
        axis < 3 ==> rope_angle(
            resolution,
            (x * resolution + y) * resolution + z,
            axis * group + f,
            pairs,
        ) == Some(
            RopeAngle {
                coord: (if axis == 0 {
                    x
                } else if axis == 1 {
                    y
                } else {
                    z
                }) as usize,
                freq: f as usize,
            },
        ),
        axis >= 3 ==> rope_angle(
            resolution,
            (x * resolution + y) * resolution + z,
            axis * group + f,
            pairs,
        ) is None,
        forall|token: int, pair: int|
            token >= resolution * resolution * resolution ==> (#[trigger] rope_angle(
                resolution,
                token,
                pair,
                pairs,
            )) is None,
{
    token_position_inverts_number(x, y, z, resolution);
    lemma_fundamental_div_mod_converse(axis * group + f, group, axis, f);
}

/// Angles of a run of tokens, pair by pair; unturned pairs have none.
///
/// Without a grid, tokens or pairs there is nothing to turn.
pub fn rope_angles(
    resolution: usize,
    token_start: usize,
    tokens: usize,
    pairs: usize,
) -> (r: Vec<Option<RopeAngle>>)
    requires
        tokens * pairs <= usize::MAX,
    ensures
        r@.len() == tokens * pairs,
        forall|local: int, pair: int|
            0 <= local < tokens && 0 <= pair < pairs ==> #[trigger] r@[local * pairs + pair] == (
            if resolution == 0 {
                None
            } else {
                rope_angle(resolution as int, sat(token_start + local), pair, pairs as int)
            }),
{
    let mut out: Vec<Option<RopeAngle>> = Vec::new();
    let freq_dim: usize = rope_freq_dim(pairs);
    proof {
        let n = resolution as int;
        assert(0 <= n * n) by (nonlinear_arith);
        lemma_sat_mul(n * n, n);
        if n > 0 {
            assert(n * n >= 1) by (nonlinear_arith)
                requires
                    n > 0,
            ;
        }
    }
    let plane: usize = max_usize(saturating_mul(resolution, resolution), 1);
    let max_tokens: usize = saturating_mul(plane, resolution);
    let mut local: usize = 0;
    while local < tokens
        invariant
            local <= tokens,
            tokens * pairs <= usize::MAX,
            freq_dim == freq_dim_of(pairs as int),
            freq_dim >= 1,
            resolution > 0 ==> plane == sat(resolution * resolution) && max_tokens == grid_tokens(
                resolution as int,
            ),
            out@.len() == local * pairs,
            forall|l: int, pair: int|
                0 <= l < local && 0 <= pair < pairs ==> #[trigger] out@[l * pairs + pair] == (
                if resolution == 0 {
                    None
                } else {
                    rope_angle(resolution as int, sat(token_start + l), pair, pairs as int)
                }),
        decreases tokens - local,
    {
        let token: usize = saturating_add(token_start, local);
        let ghost done = out@;
        let mut pair: usize = 0;
        while pair < pairs
            invariant
                local < tokens,
                pair <= pairs,
                tokens * pairs <= usize::MAX,
                freq_dim == freq_dim_of(pairs as int),
                freq_dim >= 1,
                token == sat(token_start + local),
                resolution > 0 ==> plane == sat(resolution * resolution) && max_tokens
                    == grid_tokens(resolution as int),
                done.len() == local * pairs,
                out@.len() == local * pairs + pair,
                out@.take(done.len() as int) == done,
                forall|p: int|
                    0 <= p < pair ==> #[trigger] out@[local * pairs + p] == (if resolution == 0 {
                        None
                    } else {
                        rope_angle(resolution as int, token as int, p, pairs as int)
                    }),
            decreases pairs - pair,
        {
            let angle: Option<RopeAngle> = if resolution == 0 {
                None
            } else {
                pair_angle(resolution, plane, max_tokens, token, pair, freq_dim)
            };
            let ghost before = out@;
            out.push(angle);
            proof {
                assert(out@.take(done.len() as int) =~= before.take(done.len() as int));
                assert forall|p: int| 0 <= p < pair + 1 implies #[trigger] out@[local * pairs + p]
                    == (if resolution == 0 {
                    None
                } else {
                    rope_angle(resolution as int, token as int, p, pairs as int)
                }) by {
                    if p < pair {
                        assert(out@[local * pairs + p] == before[local * pairs + p]);
                    }
                }
            }
            pair = pair + 1;
        }
        proof {
            assert((local + 1) * pairs == local * pairs + pairs) by (nonlinear_arith);
            assert forall|l: int, p: int|
                0 <= l < local + 1 && 0 <= p < pairs implies #[trigger] out@[l * pairs + p] == (if resolution
                == 0 {
                None
            } else {
                rope_angle(resolution as int, sat(token_start + l), p, pairs as int)
            }) by {
                if l < local {
                    assert(0 <= l * pairs + p < local * pairs) by (nonlinear_arith)
                        requires
                            0 <= l < local,
                            0 <= p < pairs,
                    ;
                    assert(out@.take(done.len() as int)[l * pairs + p] == done[l * pairs + p]);
                }
            }
        }
        local = local + 1;
    }
    out
}

/// How a phase of three axes is fitted to the number of channel pairs.
#[derive(Clone, Copy, Debug, PartialEq, Eq, Structural)]
pub enum PhaseFit {
    Exact,
    /// Pairs that are filled with zero phase.
    Pad(usize),
    /// Pairs that are kept.
    Trim(usize),
}

/// How the phases of three axes are fitted to `pairs` channel pairs.
pub fn rope_phase_fit(pairs: usize) -> (r: PhaseFit)
    ensures
        ({
            let width = 3 * freq_dim_of(pairs as int);
            r == (if width < pairs {
                PhaseFit::Pad((pairs - width) as usize)
            } else if width > pairs {
                PhaseFit::Trim(pairs)
            } else {
                PhaseFit::Exact
            })
        }),
{
    let freq_dim: usize = rope_freq_dim(pairs);
    let width: usize = 3 * freq_dim;
    if width < pairs {
        PhaseFit::Pad(pairs - width)
    } else if width > pairs {
        PhaseFit::Trim(pairs)
    } else {
        PhaseFit::Exact
    }
}

/// Coordinate rows of a run of tokens, where coordinates are given as rows of
/// three columns.
pub fn rope_coord_range(
    coord_rows: usize,
    coord_cols: usize,
    token_start: usize,
    tokens: usize,
) -> (r: core::ops::Range<usize>)
    requires
        coord_cols == 3,
        token_start + tokens <= coord_rows,
    ensures
        r.start == token_start,
        r.end == token_start + tokens,
{
    token_start..token_start + tokens
}

/// Whether queries and keys may be normalized and rotated by one kernel.
pub fn fused_norm_rope_applies(
    use_rope: bool,
    has_q_norm: bool,
    has_k_norm: bool,
    has_coords: bool,
    head_dim: usize,
) -> (r: bool)
    ensures
        r == (use_rope && has_q_norm && has_k_norm && has_coords && head_dim == 128),
{
    use_rope && has_q_norm && has_k_norm && has_coords && head_dim == 128
}

// ---------------------------------------------------------------------------
// Cache
// ---------------------------------------------------------------------------

/// Ranges that the cache holds at most.
pub const ROPE_CACHE_MAX_ENTRIES: usize = 256;

/// What a cached range was computed for; frequencies by their bits.
#[derive(Clone, Copy, Debug, PartialEq, Eq, Structural)]
pub struct RopeCacheKey {
    pub resolution: usize,
    pub token_start: usize,
    pub tokens: usize,
    pub pairs: usize,
    pub rope_freq_0_bits: u32,
    pub rope_freq_1_bits: u32,
}

/// Computed ranges by what they were computed for.
#[derive(Debug)]
pub struct RopeCache<V> {
    entries: Vec<(RopeCacheKey, V)>,
}

impl<V> RopeCache<V> {
    /// Cached ranges by key.
    pub closed spec fn view(self) -> Map<RopeCacheKey, V> {
        entries_map(self.entries@)
    }

    /// Keys are distinct, and the cache is not over its limit.
    #[verifier::type_invariant]
    closed spec fn inv(self) -> bool {
        distinct_keys(self.entries@) && self.entries@.len() <= ROPE_CACHE_MAX_ENTRIES
    }

    /// An empty cache.
    pub fn new() -> (r: Self)
        ensures
            r@ == Map::<RopeCacheKey, V>::empty(),
    {
        RopeCache { entries: Vec::new() }
    }

    /// Number of cached ranges.
    pub fn len(&self) -> (r: usize)
        ensures
            r == self@.dom().len(),
            self@.dom().finite(),
            r <= ROPE_CACHE_MAX_ENTRIES,
    {
        proof {
            use_type_invariant(self);
            lemma_entries_map(self.entries@);
        }
        self.entries.len()
    }

    /// The range cached for a key.
    pub fn get(&self, key: &RopeCacheKey) -> (r: Option<&V>)
        ensures
            match r {
                Some(v) => self@.dom().contains(*key) && self@[*key] == *v,
                None => !self@.dom().contains(*key),
            },
    {
        proof {
            use_type_invariant(self);
            lemma_entries_map(self.entries@);
        }
        match self.position(key) {
            Some(i) => {
                assert(self.entries@[i as int].0 == *key);
                Some(&self.entries[i].1)
            },
            None => None,
        }
    }

    /// Position of the pair with a key.
    fn position(&self, key: &RopeCacheKey) -> (r: Option<usize>)
        ensures
            match r {
                Some(i) => i < self.entries@.len() && self.entries@[i as int].0 == *key,
                None => forall|j: int|
                    0 <= j < self.entries@.len() ==> (#[trigger] self.entries@[j]).0 != *key,
            },
    {
        let mut i: usize = 0;
        while i < self.entries.len()
            invariant
                i <= self.entries.len(),
                forall|j: int| 0 <= j < i ==> (#[trigger] self.entries@[j]).0 != *key,
            decreases self.entries.len() - i,
        {
            if self.entries[i].0 == *key {
                return Some(i);
            }
            i = i + 1;
        }
        None
    }

    /// Caches a range; a full cache is emptied first.
    pub fn insert(&mut self, key: RopeCacheKey, value: V)
        ensures
            final(self)@ == (if old(self)@.dom().len() >= ROPE_CACHE_MAX_ENTRIES {
                Map::<RopeCacheKey, V>::empty()
            } else {
                old(self)@
            }).insert(key, value),
    {
        proof {
            use_type_invariant(&*self);
            lemma_entries_map(self.entries@);
        }
        let ghost before = self.entries@;
        let full: bool = self.entries.len() >= ROPE_CACHE_MAX_ENTRIES;
        let found: Option<usize> = self.position(&key);
        let mut entries: Vec<(RopeCacheKey, V)> = Vec::new();
        core::mem::swap(&mut entries, &mut self.entries);
        if full {
            entries.clear();
            entries.push((key, value));
            proof {
                let none = Seq::<(RopeCacheKey, V)>::empty();
                assert(entries@.drop_last() =~= none);
                assert(entries_map(none) == Map::<RopeCacheKey, V>::empty());
                assert(entries_map(entries@) == entries_map(none).insert(key, value));
            }
        } else {
            match found {
                Some(i) => {
                    entries[i] = (key, value);
                    proof {
                        lemma_replace_entry(before, i as int, key, value);
                        assert(entries@ =~= before.update(i as int, (key, value)));
                    }
                },
                None => {
                    entries.push((key, value));
                    proof {
                        assert(entries@.drop_last() =~= before);
                        assert forall|i: int, j: int|
                            0 <= i < entries@.len() && 0 <= j < entries@.len() && (
                            #[trigger] entries@[i]).0 == (#[trigger] entries@[j]).0 implies i
                            == j by {
                            if i < before.len() {
                                assert(entries@[i] == before[i]);
                            }
                            if j < before.len() {
                                assert(entries@[j] == before[j]);
                            }
                        }
                    }
                },
            }
        }
        *self = RopeCache { entries };
    }
}

/// Nothing is turned: there is no grid, no token or no pair.
pub open spec fn rope_range_is_trivial(key: RopeCacheKey) -> bool {
    key.resolution == 0 || key.tokens == 0 || key.pairs == 0
}

/// The range for a key: from the cache where it is there, otherwise computed
/// and cached. Trivial ranges are computed and not cached.
pub fn rope_cos_sin_cached<V, G: FnOnce() -> V>(
    cache: &mut RopeCache<Arc<V>>,
    key: RopeCacheKey,
    generate: G,
) -> (r: Arc<V>)
    requires
        call_requires(generate, ()),
    ensures
        rope_range_is_trivial(key) ==> call_ensures(generate, (), *r) && final(cache)@
            == old(cache)@,
        !rope_range_is_trivial(key) && old(cache)@.dom().contains(key) ==> r == old(cache)@[key]
            && final(cache)@ == old(cache)@,
        !rope_range_is_trivial(key) && !old(cache)@.dom().contains(key) ==> call_ensures(
            generate,
            (),
            *r,
        ) && final(cache)@ == (if old(cache)@.dom().len() >= ROPE_CACHE_MAX_ENTRIES {
            Map::<RopeCacheKey, Arc<V>>::empty()
        } else {
            old(cache)@
        }).insert(key, r),
{
    if key.resolution == 0 || key.tokens == 0 || key.pairs == 0 {
        return Arc::new(generate());
    }
    if let Some(hit) = cache.get(&key) {
        return hit.clone();
    }
    let generated: Arc<V> = Arc::new(generate());
    cache.insert(key, generated.clone());
    generated
}

} // verus!
