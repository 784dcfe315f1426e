//! The data-parallel by tensor-parallel grid of model replicas.
//!
//! Replicas are created in rank order: for each data-parallel index `dp`,
//! for each tensor-parallel index `tp`, the replica of rank
//! `dp * tensor_parallelism + tp`. After loading, consecutive replicas are
//! grouped `tensor_parallelism` at a time, one group per trainer.
use vstd::prelude::*;

verus! {

/// One replica slot of the grid.
#[derive(Clone, Copy, Debug, PartialEq, Eq, Structural)]
pub struct RankSlot {
    pub dp: usize,
    pub tp: usize,
    pub rank: usize,
}

/// The slot at position `i` of a grid whose rows hold `tp_size` replicas.
pub open spec fn slot_at(tp_size: nat, i: nat) -> RankSlot {
    RankSlot { dp: (i / tp_size) as usize, tp: (i % tp_size) as usize, rank: i as usize }
}

/// The index range `[start, end)` of group `g` when `n` items are cut into
/// groups of `size`.
pub open spec fn group_start(size: nat, g: nat) -> nat {
    g * size
}

pub open spec fn group_end(size: nat, n: nat, g: nat) -> nat {
    if g * size + size <= n { g * size + size } else { n }
}

/// The number of groups that `n` items fill when cut into groups of `size`
/// (`size > 0`): the last one may be short.
pub open spec fn group_count(size: nat, n: nat) -> nat
    recommends size > 0,
{
    ((n + size - 1) / (size as int)) as nat
}

proof fn lemma_grid_position(tp_size: int, d: int, t: int)
    requires
        0 <= t < tp_size,
    ensures
        (d * tp_size + t) / tp_size == d,
        (d * tp_size + t) % tp_size == t,
{
    vstd::arithmetic::div_mod::lemma_fundamental_div_mod_converse(d * tp_size + t, tp_size, d, t);
}

/// The replica slots of a `dp_size` by `tp_size` grid, in the order in which
/// they are created: slot `i` has rank `i`, data-parallel index
/// `i / tp_size` and tensor-parallel index `i % tp_size`.
pub fn rank_slots(dp_size: usize, tp_size: usize) -> (slots: Vec<RankSlot>)
    requires
        dp_size * tp_size <= usize::MAX,
    ensures
        slots.len() == dp_size * tp_size,
        forall|i: int| 0 <= i < slots.len() ==> #[trigger] slots[i] == slot_at(tp_size as nat, i as nat),
{
    let mut slots: Vec<RankSlot> = Vec::new();
    let mut d: usize = 0;
    while d < dp_size
        invariant
            d <= dp_size,
            dp_size * tp_size <= usize::MAX,
            slots.len() == d * tp_size,
            forall|i: int| 0 <= i < slots.len() ==> #[trigger] slots[i] == slot_at(tp_size as nat, i as nat),
        decreases dp_size - d,
    {
        let mut t: usize = 0;
        assert((d + 1) * tp_size <= dp_size * tp_size) by (nonlinear_arith)
            requires d + 1 <= dp_size;
        assert((d + 1) * tp_size == d * tp_size + tp_size) by (nonlinear_arith);
        while t < tp_size
            invariant
                d < dp_size,
                t <= tp_size,
                (d + 1) * tp_size <= usize::MAX,
                (d + 1) * tp_size == d * tp_size + tp_size,
                slots.len() == d * tp_size + t,
                forall|i: int| 0 <= i < slots.len() ==> #[trigger] slots[i] == slot_at(tp_size as nat, i as nat),
            decreases tp_size - t,
        {
            let rank = d * tp_size + t;
            proof {
                lemma_grid_position(tp_size as int, d as int, t as int);
            }
            slots.push(RankSlot { dp: d, tp: t, rank });
            t = t + 1;
        }
        d = d + 1;
    }
    slots
}

/// `groups` cuts `items` into consecutive groups of `size`, the last one
/// holding what is left; with `size == 0`, all items form a single group.
pub open spec fn is_grouping<T>(items: Seq<T>, size: nat, groups: Seq<Seq<T>>) -> bool {
    &&& items.len() == 0 ==> groups.len() == 0
    &&& size == 0 && items.len() > 0 ==> groups.len() == 1 && groups[0] == items
    &&& size > 0 ==> groups.len() == group_count(size, items.len())
    &&& size > 0 ==> forall|g: int|
        0 <= g < groups.len() ==> #[trigger] groups[g] == items.subrange(
            group_start(size, g as nat) as int,
            group_end(size, items.len(), g as nat) as int,
        )
}

/// The contents of each vector of `v`.
pub open spec fn contents<T>(v: Seq<Vec<T>>) -> Seq<Seq<T>> {
    v.map_values(|g: Vec<T>| g@)
}

/// Cuts `models` into consecutive groups of `tensor_parallelism`, one group
/// per trainer; the last group holds what is left. With
/// `tensor_parallelism == 0` all models form a single group.
pub fn group_models<T>(models: Vec<T>, tensor_parallelism: usize) -> (groups: Vec<Vec<T>>)
    ensures
        is_grouping(models@, tensor_parallelism as nat, contents(groups@)),
{
    let n = models.len();
    let ghost all = models@;
    let mut groups: Vec<Vec<T>> = Vec::new();
    if n == 0 {
        proof {
            if tensor_parallelism > 0 {
                vstd::arithmetic::div_mod::lemma_fundamental_div_mod_converse(
                    tensor_parallelism - 1,
                    tensor_parallelism as int,
                    0,
                    tensor_parallelism - 1,
                );
            }
        }
        return groups;
    }
    if tensor_parallelism == 0 {
        groups.push(models);
        return groups;
    }
    let tp = tensor_parallelism;
    let mut current: Vec<T> = Vec::new();
    let mut k: usize = 0;
    assert(groups.len() * tp == 0) by (nonlinear_arith)
        requires groups.len() == 0;
    for m in it: models.into_iter()
        invariant
            tp > 0,
            n == all.len(),
            it.seq() == all,
            k == it.index(),
            groups.len() * tp + current.len() == k,
            current.len() <= tp,
            k > 0 ==> current.len() >= 1,
            current@ == all.subrange(groups.len() * tp, k as int),
            forall|g: int|
                0 <= g < groups.len() ==> #[trigger] groups[g]@ == all.subrange(g * tp, g * tp + tp),
    {
        if current.len() == tp {
            let ghost before = groups.len();
            groups.push(current);
            current = Vec::new();
            assert((before + 1) * tp == before * tp + tp) by (nonlinear_arith);
        }
        current.push(m);
        k = k + 1;
    }
    groups.push(current);
    proof {
        let c = groups.len() - 1;
        assert(c * tp + groups[c].len() == n);
        lemma_group_count(tp as int, c, n as int);
        assert forall|g: int| 0 <= g < groups.len() implies #[trigger] groups[g]@ == all.subrange(
            group_start(tp as nat, g as nat) as int,
            group_end(tp as nat, n as nat, g as nat) as int,
        ) by {
            if g < c {
                assert(g * tp + tp <= c * tp) by (nonlinear_arith) requires g < c, tp > 0;
            }
        }
    }
    groups
}

/// The replica slots of a `dp_size` by `tp_size` grid, in creation order.
pub open spec fn grid_slots(dp_size: nat, tp_size: nat) -> Seq<RankSlot> {
    Seq::new(dp_size * tp_size, |i: int| slot_at(tp_size, i as nat))
}

/// The row of data-parallel index `g`: its replicas in tensor-parallel order.
pub open spec fn grid_row(tp_size: nat, g: nat) -> Seq<RankSlot> {
    Seq::new(tp_size, |j: int| RankSlot { dp: g as usize, tp: j as usize, rank: (g * tp_size + j) as usize })
}

/// Grouping the replicas of a `dp_size` by `tp_size` grid (with
/// `tp_size > 0`) `tp_size` at a time gives exactly `dp_size` full groups,
/// and group `g` is the row of data-parallel index `g`: each trainer gets
/// the replicas of one data-parallel rank, in tensor-parallel order.
pub proof fn lemma_groups_are_data_parallel_rows(dp_size: nat, tp_size: nat)
    requires
        tp_size > 0,
    ensures
        group_count(tp_size, dp_size * tp_size) == dp_size,
        forall|g: nat|
            g < dp_size ==> #[trigger] group_end(tp_size, dp_size * tp_size, g) == group_start(tp_size, g) + tp_size,
        forall|g: nat|
            g < dp_size ==> #[trigger] grid_slots(dp_size, tp_size).subrange(
                group_start(tp_size, g) as int,
                group_end(tp_size, dp_size * tp_size, g) as int,
            ) == grid_row(tp_size, g),
{
    let n = dp_size * tp_size;
    if dp_size > 0 {
        assert((dp_size - 1) * tp_size + tp_size == n) by (nonlinear_arith)
            requires n == dp_size * tp_size;
        assert((dp_size - 1) * tp_size < n) by (nonlinear_arith)
            requires n == dp_size * tp_size, tp_size > 0, dp_size > 0;
        lemma_group_count(tp_size as int, dp_size - 1, n as int);
    } else {
        assert(n == 0) by (nonlinear_arith) requires n == dp_size * tp_size, dp_size == 0;
        vstd::arithmetic::div_mod::lemma_fundamental_div_mod_converse(
            tp_size - 1,
            tp_size as int,
            0,
            tp_size - 1,
        );
    }
    assert forall|g: nat| g < dp_size implies #[trigger] group_end(tp_size, dp_size * tp_size, g)
        == group_start(tp_size, g) + tp_size by {
        lemma_row_of_grid(dp_size, tp_size, g);
    }
    assert forall|g: nat| g < dp_size implies #[trigger] grid_slots(dp_size, tp_size).subrange(
        group_start(tp_size, g) as int,
        group_end(tp_size, dp_size * tp_size, g) as int,
    ) == grid_row(tp_size, g) by {
        lemma_row_of_grid(dp_size, tp_size, g);
    }
}

proof fn lemma_row_of_grid(dp_size: nat, tp_size: nat, g: nat)
    requires
        tp_size > 0,
        g < dp_size,
    ensures
        group_end(tp_size, dp_size * tp_size, g) == group_start(tp_size, g) + tp_size,
        grid_slots(dp_size, tp_size).subrange(
            group_start(tp_size, g) as int,
            group_end(tp_size, dp_size * tp_size, g) as int,
        ) == grid_row(tp_size, g),
{
    let n = dp_size * tp_size;
    assert(g * tp_size + tp_size <= n) by (nonlinear_arith)
        requires n == dp_size * tp_size, g < dp_size;
    let lhs = grid_slots(dp_size, tp_size).subrange((g * tp_size) as int, (g * tp_size + tp_size) as int);
    assert forall|j: int| 0 <= j < tp_size implies lhs[j] == grid_row(tp_size, g)[j] by {
        lemma_grid_position(tp_size as int, g as int, j);
    }
    assert(lhs =~= grid_row(tp_size, g));
}

proof fn lemma_group_count(tp: int, c: int, n: int)
    requires
        tp > 0,
        c >= 0,
        c * tp < n <= c * tp + tp,
    ensures
        (n + tp - 1) / tp == c + 1,
{
    assert((c + 1) * tp == c * tp + tp) by (nonlinear_arith);
    vstd::arithmetic::div_mod::lemma_fundamental_div_mod_converse(n + tp - 1, tp, c + 1, n - 1 - c * tp);
}

} // verus!
