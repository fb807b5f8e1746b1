//! Deterministic modulus sharding: a wrapper that filters an upstream
//! command sequence down to one of `n` disjoint partitions.
//!
//! Element `i` of the upstream sequence belongs to shard `i mod n`. Running
//! all shards `0..n` and interleaving by original index reconstructs the
//! upstream sequence exactly once per element: no duplication, no omission.

use vstd::arithmetic::div_mod::lemma_div_is_ordered;
use vstd::arithmetic::div_mod::lemma_fundamental_div_mod;
use vstd::arithmetic::div_mod::lemma_fundamental_div_mod_converse;
use vstd::arithmetic::div_mod::lemma_fundamental_div_mod_converse_mod;
use vstd::arithmetic::div_mod::lemma_mod_bound;
use vstd::prelude::*;

use crate::command::Command;
use crate::generator::CommandGenerator;

verus! {

/// Why a sharder could not be configured.
#[derive(Copy, Clone, Eq, PartialEq, Structural, Debug)]
pub enum ShardConfigError {
    /// The total shard count was zero; a sharder must never silently yield
    /// an empty or undefined sequence.
    ZeroShardCount,
}

/// How many elements of an upstream of length `len` fall to shard `k` of
/// `n`: the indices `k`, `k + n`, `k + 2n`, ... below `len`.
pub open spec fn shard_count(len: int, k: int, n: int) -> int {
    if len <= k {
        0
    } else {
        (len - k - 1) / n + 1
    }
}

/// The subsequence of `s` that shard `k` of `n` retains: element `i` is
/// retained exactly when `i % n == k`, order kept.
pub open spec fn shard_seq(s: Seq<Command>, k: int, n: int) -> Seq<Command> {
    if 0 <= k < n {
        Seq::new(shard_count(s.len() as int, k, n) as nat, |j: int| s[k + j * n])
    } else {
        Seq::empty()
    }
}

/// A retained element's source index lies in the upstream sequence.
proof fn lemma_shard_index_bound(len: int, k: int, n: int, j: int)
    requires
        0 <= k < n,
        0 <= j < shard_count(len, k, n),
    ensures
        k + j * n < len,
{
    let q = (len - k - 1) / n;
    lemma_fundamental_div_mod(len - k - 1, n);
    lemma_mod_bound(len - k - 1, n);
    assert(n * q <= len - k - 1);
    assert(j * n <= q * n) by (nonlinear_arith)
        requires j <= q && n > 0;
    assert(q * n == n * q) by (nonlinear_arith);
}

/// One step of sharding: extending the upstream by one element appends it
/// to its own shard and leaves the shard unchanged otherwise.
proof fn lemma_shard_step(s: Seq<Command>, i: int, k: int, n: int)
    requires
        0 <= i < s.len(),
        0 <= k < n,
    ensures
        i % n == k ==> shard_seq(s.take(i + 1), k, n) == shard_seq(s.take(i), k, n).push(s[i]),
        i % n != k ==> shard_seq(s.take(i + 1), k, n) == shard_seq(s.take(i), k, n),
{
    let t0 = s.take(i);
    let t1 = s.take(i + 1);
    assert forall|j: int| 0 <= j < shard_count(i, k, n) implies t0[#[trigger] (k + j * n)]
        == t1[k + j * n] && k + j * n < i by {
        lemma_shard_index_bound(i, k, n, j);
    }
    if i < k {
        vstd::arithmetic::div_mod::lemma_small_mod(i as nat, n as nat);
        assert(i % n == i);
        assert(shard_count(i + 1, k, n) == 0 && shard_count(i, k, n) == 0);
        assert(shard_seq(t1, k, n) =~= shard_seq(t0, k, n));
    } else {
        let q = (i - k) / n;
        let r = (i - k) % n;
        lemma_fundamental_div_mod(i - k, n);
        lemma_mod_bound(i - k, n);
        lemma_fundamental_div_mod(i, n);
        lemma_mod_bound(i, n);
        if r == 0 {
            assert(i == n * q + k);
            assert(n * q == q * n) by (nonlinear_arith);
            assert(i == q * n + k);
            lemma_fundamental_div_mod_converse_mod(i, n, q, k);
            assert(i % n == k);
            if i > k {
                assert(q > 0) by (nonlinear_arith)
                    requires n >= 1 && n * q == i - k && i - k > 0;
                assert((q - 1) * n == n * q - n) by (nonlinear_arith);
                lemma_fundamental_div_mod_converse(i - k - 1, n, q - 1, n - 1);
            }
            assert(shard_count(i + 1, k, n) == q + 1);
            assert(shard_count(i, k, n) == q);
            assert forall|j: int| 0 <= j < q + 1 implies shard_seq(t1, k, n)[j] == shard_seq(
                t0,
                k,
                n,
            ).push(s[i])[j] by {
                lemma_shard_index_bound(i + 1, k, n, j);
                if j == q {
                    assert(k + j * n == i) by (nonlinear_arith)
                        requires i == n * q + k && j == q;
                }
            }
            assert(shard_seq(t1, k, n) =~= shard_seq(t0, k, n).push(s[i]));
        } else {
            assert(i % n != k) by {
                if i % n == k {
                    assert(i == n * (i / n) + k);
                    assert((i / n) * n == n * (i / n)) by (nonlinear_arith);
                    lemma_fundamental_div_mod_converse(i - k, n, i / n, 0);
                }
            }
            assert(q * n == n * q) by (nonlinear_arith);
            lemma_fundamental_div_mod_converse(i - k - 1, n, q, r - 1);
            assert(shard_count(i + 1, k, n) == q + 1);
            assert(shard_count(i, k, n) == q + 1);
            assert(shard_seq(t1, k, n) =~= shard_seq(t0, k, n));
        }
    }
}

/// Exact cover, one half: every upstream element is retained by exactly
/// the shard of its own index, at position `i / n` — interleaving the
/// shards `0..n` by original index yields each element at least once.
pub proof fn lemma_shard_exact_cover(s: Seq<Command>, n: int, i: int)
    requires
        1 <= n,
        0 <= i < s.len(),
    ensures
        0 <= i % n < n,
        0 <= i / n < shard_seq(s, i % n, n).len(),
        shard_seq(s, i % n, n)[i / n] == s[i],
{
    let len = s.len() as int;
    let k = i % n;
    let j = i / n;
    lemma_fundamental_div_mod(i, n);
    lemma_mod_bound(i, n);
    vstd::arithmetic::div_mod::lemma_div_pos_is_pos(i, n);
    assert(i == n * j + k);
    assert(n * j == j * n) by (nonlinear_arith);
    assert(k + j * n == i);
    assert(i - k == j * n);
    lemma_fundamental_div_mod_converse(i - k, n, j, 0);
    assert((i - k) / n == j);
    lemma_div_is_ordered(i - k, len - k - 1, n);
    assert(shard_count(len, k, n) == (len - k - 1) / n + 1 > j);
    assert(shard_seq(s, k, n)[j] == s[k + j * n]);
}

/// Exact cover, the other half: element `j` of shard `k` comes from
/// upstream index `k + j * n`, a distinct index for each distinct
/// `(k, j)` — interleaving yields no element twice and nothing else.
pub proof fn lemma_shard_element_origin(s: Seq<Command>, n: int, k: int, j: int)
    requires
        1 <= n,
        0 <= k < n,
        0 <= j < shard_seq(s, k, n).len(),
    ensures
        k + j * n < s.len(),
        shard_seq(s, k, n)[j] == s[k + j * n],
{
    lemma_shard_index_bound(s.len() as int, k, n, j);
}

/// A generator wrapper that retains shard `shard` of `num_shards`.
pub struct Shard<G> {
    pub generator: G,
    pub shard: usize,
    pub num_shards: usize,
}

impl<G: CommandGenerator> Shard<G> {
    /// Wrap a generator; fails fast exactly when the total shard count is
    /// zero.
    pub fn new(generator: G, shard: usize, num_shards: usize) -> (r: Result<
        Shard<G>,
        ShardConfigError,
    >)
        ensures
            match r {
                Ok(s) => num_shards >= 1 && s == (Shard { generator, shard, num_shards }),
                Err(e) => num_shards == 0 && e == ShardConfigError::ZeroShardCount,
            },
    {
        if num_shards == 0 {
            Err(ShardConfigError::ZeroShardCount)
        } else {
            Ok(Shard { generator, shard, num_shards })
        }
    }
}

impl<G: CommandGenerator> CommandGenerator for Shard<G> {
    open spec fn wf(&self) -> bool {
        self.generator.wf() && self.num_shards >= 1
    }

    open spec fn command_seq(&self) -> Seq<Command> {
        shard_seq(self.generator.command_seq(), self.shard as int, self.num_shards as int)
    }

    fn commands(&self) -> (r: Vec<Command>) {
        let upstream = self.generator.commands();
        let total = upstream.len();
        let k = self.shard;
        let n = self.num_shards;
        let mut out: Vec<Command> = Vec::new();
        let mut c: usize = 0;
        let mut i: usize = 0;
        while i < total
            invariant
                upstream@ == self.generator.command_seq(),
                total == upstream@.len(),
                n == self.num_shards >= 1 && k == self.shard,
                0 <= i <= total,
                0 <= c < n,
                c as int == i as int % n as int,
                out@ == shard_seq(upstream@.take(i as int), k as int, n as int),
            decreases total - i,
        {
            if c == k {
                out.push(upstream[i]);
            }
            proof {
                if (k as int) < n as int {
                    lemma_shard_step(upstream@, i as int, k as int, n as int);
                } else {
                    assert(shard_seq(upstream@.take(i as int), k as int, n as int)
                        == Seq::<Command>::empty());
                    assert(c as int != k as int);
                }
                lemma_fundamental_div_mod(i as int, n as int);
                let ghost q = i as int / n as int;
                let ghost m = n as int;
                assert(q * m == m * q) by (nonlinear_arith);
                if c as int + 1 < m {
                    lemma_fundamental_div_mod_converse_mod(i as int + 1, m, q, c as int + 1);
                } else {
                    assert((q + 1) * m == q * m + m) by (nonlinear_arith);
                    lemma_fundamental_div_mod_converse_mod(i as int + 1, m, q + 1, 0);
                }
            }
            i = i + 1;
            c = c + 1;
            if c == n {
                c = 0;
            }
        }
        proof {
            assert(upstream@.take(total as int) =~= upstream@);
        }
        out
    }
}

} // verus!
