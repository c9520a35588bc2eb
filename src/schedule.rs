use vstd::prelude::*;

verus! {

/// The size of each batch when `n` entries are shared among `p` workers:
/// `n / p` rounded up, with `p` taken as at least one.
pub open spec fn batch_size(n: nat, p: nat) -> nat {
    let q: nat = if p == 0 { 1 } else { p };
    n / q + if n % q == 0 { 0nat } else { 1nat }
}

/// `r` cuts `0..n` into consecutive non-empty half-open ranges, each of
/// `s` entries but the last, which holds at most `s`.
pub open spec fn is_partition(r: Seq<(usize, usize)>, n: nat, s: nat) -> bool {
    &&& (n == 0 <==> r.len() == 0)
    &&& r.len() > 0 ==> r[0].0 == 0 && r.last().1 == n
    &&& forall|k: int| 0 <= k < r.len() ==> r[k].0 < r[k].1 && r[k].1 - r[k].0 <= s
    &&& forall|k: int| 0 <= k < r.len() - 1 ==> r[k].1 == r[k + 1].0 && r[k].1 - r[k].0 == s
}

/// The batch size for `n` entries over `p` workers.
pub fn chunk_size(n: usize, p: usize) -> (r: usize)
    ensures
        r == batch_size(n as nat, p as nat),
{
    let q: usize = if p == 0 { 1 } else { p };
    if n % q == 0 {
        n / q
    } else {
        assert(n / q < n) by (nonlinear_arith)
            requires q >= 1, n % q != 0;
        n / q + 1
    }
}

/// The batches for `n` entries over `p` workers, as ranges of entry indices.
pub fn chunk_ranges(n: usize, p: usize) -> (r: Vec<(usize, usize)>)
    ensures
        is_partition(r@, n as nat, batch_size(n as nat, p as nat)),
{
    let s = chunk_size(n, p);
    assert(n > 0 ==> s > 0) by (nonlinear_arith)
        requires s == batch_size(n as nat, p as nat);
    let mut r: Vec<(usize, usize)> = Vec::new();
    let mut start: usize = 0;
    while start < n
        invariant
            n > 0 ==> s > 0,
            start <= n,
            r@.len() == 0 <==> start == 0,
            r@.len() > 0 ==> r@[0].0 == 0 && r@.last().1 == start,
            forall|k: int| 0 <= k < r@.len() ==> r@[k].0 < r@[k].1 && r@[k].1 - r@[k].0 <= s,
            forall|k: int| 0 <= k < r@.len() - 1 ==> r@[k].1 == r@[k + 1].0 && r@[k].1 - r@[k].0 == s,
            r@.len() > 0 && start < n ==> r@.last().1 - r@.last().0 == s,
        decreases n - start,
    {
        let end: usize = if n - start > s { start + s } else { n };
        r.push((start, end));
        start = end;
    }
    r
}

/// Index `i` lies in the `k`-th range of `r`.
pub open spec fn in_range(r: Seq<(usize, usize)>, k: int, i: int) -> bool {
    0 <= k < r.len() && r[k].0 <= i < r[k].1
}

/// Index `i` lies in some range of `r`.
pub open spec fn covered(r: Seq<(usize, usize)>, i: int) -> bool {
    exists|k: int| #[trigger] in_range(r, k, i)
}

proof fn lemma_ranges_ordered(r: Seq<(usize, usize)>, n: nat, s: nat, k1: int, k2: int)
    requires
        is_partition(r, n, s),
        0 <= k1 < k2 < r.len(),
    ensures
        r[k1].1 <= r[k2].0,
    decreases k2 - k1,
{
    if k2 > k1 + 1 {
        lemma_ranges_ordered(r, n, s, k1, k2 - 1);
    }
}

proof fn lemma_index_found(r: Seq<(usize, usize)>, n: nat, s: nat, i: int, k: int)
    requires
        is_partition(r, n, s),
        0 <= k < r.len(),
        r[k].0 <= i < n,
    ensures
        covered(r, i),
    decreases r.len() - k,
{
    if i < r[k].1 {
        assert(in_range(r, k, i));
    } else {
        lemma_index_found(r, n, s, i, k + 1);
    }
}

/// Every index below `n` lies in exactly one range of a partition of `0..n`.
pub proof fn lemma_partition_covers(r: Seq<(usize, usize)>, n: nat, s: nat)
    requires
        is_partition(r, n, s),
    ensures
        forall|i: int| 0 <= i < n ==> #[trigger] covered(r, i),
        forall|k1: int, k2: int, i: int| #[trigger] in_range(r, k1, i) && #[trigger] in_range(r, k2, i) ==> k1 == k2,
{
    assert forall|i: int| 0 <= i < n implies #[trigger] covered(r, i) by {
        lemma_index_found(r, n, s, i, 0);
    }
    assert forall|k1: int, k2: int, i: int| #[trigger] in_range(r, k1, i) && #[trigger] in_range(r, k2, i) implies k1 == k2 by {
        if k1 < k2 {
            lemma_ranges_ordered(r, n, s, k1, k2);
        } else if k2 < k1 {
            lemma_ranges_ordered(r, n, s, k2, k1);
        }
    }
}

/// What the walker makes of one directory entry.
#[derive(Clone, Copy, Debug, PartialEq, Eq, Structural)]
pub enum TaskKind {
    /// A directory: walked by a task of its own.
    Walk,
    /// Any other entry: evaluated against the query.
    Evaluate,
}

/// The task for an entry that the file system reports as a directory or not.
pub fn task_kind(is_dir: bool) -> (r: TaskKind)
    ensures
        r == (if is_dir { TaskKind::Walk } else { TaskKind::Evaluate }),
{
    if is_dir { TaskKind::Walk } else { TaskKind::Evaluate }
}

/// Relies on `rayon::current_num_threads`: the number of worker threads of
/// the current pool. Nothing is assumed of the value.
#[verifier::external_body]
fn pool_width() -> (r: usize) {
    rayon::current_num_threads()
}

/// The batches for a directory of `n` entries, sized by the worker pool.
pub fn plan_chunks(n: usize) -> (r: Vec<(usize, usize)>)
    ensures
        exists|p: nat| is_partition(r@, n as nat, batch_size(n as nat, p)),
{
    let p = pool_width();
    chunk_ranges(n, p)
}

} // verus!
