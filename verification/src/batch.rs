//! Splitting a list into consecutive batches of a fixed size, up to a limit
//! on their number.

use vstd::prelude::*;
use vstd::slice::slice_subrange;

verus! {

/// The least number of batches of `chunk` items that hold `len` items:
/// `len / chunk`, rounded up.
pub open spec fn ceil_div(len: nat, chunk: nat) -> nat
    recommends
        chunk > 0,
{
    if len % chunk == 0 {
        len / chunk
    } else {
        len / chunk + 1
    }
}

/// How many batches are made of `len` items: as many as are needed to hold
/// them all, but no more than `cap`.
pub open spec fn batch_total(len: nat, chunk: nat, cap: nat) -> nat
    recommends
        chunk > 0,
{
    if ceil_div(len, chunk) <= cap {
        ceil_div(len, chunk)
    } else {
        cap
    }
}

/// Where the batch with the given index ends in a list of `len` items.
pub open spec fn batch_end(len: nat, chunk: nat, index: nat) -> nat {
    if (index + 1) * chunk <= len {
        (index + 1) * chunk
    } else {
        len
    }
}

/// The items of the batch with the given index: those from `index * chunk`
/// on, `chunk` of them or as many as are left.
pub open spec fn batch_items<T>(items: Seq<T>, chunk: nat, index: nat) -> Seq<T> {
    items.subrange((index * chunk) as int, batch_end(items.len(), chunk, index) as int)
}

/// The first `count` batches of `items`, in their order.
pub open spec fn leading_batches<T>(items: Seq<T>, chunk: nat, count: nat) -> Seq<Seq<T>> {
    Seq::new(count, |index: int| batch_items(items, chunk, index as nat))
}

/// The batches that are made of `items`.
pub open spec fn batch_list<T>(items: Seq<T>, chunk: nat, cap: nat) -> Seq<Seq<T>> {
    leading_batches(items, chunk, batch_total(items.len(), chunk, cap))
}

/// What a list of batches holds.
pub open spec fn batch_views<T>(groups: Seq<&[T]>) -> Seq<Seq<T>> {
    Seq::new(groups.len(), |index: int| groups[index]@)
}

/// `count` batches hold `len` items if and only if `count` is at least
/// `ceil_div(len, chunk)`.
pub proof fn ceil_div_is_least(len: nat, chunk: nat, count: nat)
    requires
        chunk > 0,
    ensures
        count * chunk >= len <==> count >= ceil_div(len, chunk),
{
    let q = len / chunk;
    let r = len % chunk;
    vstd::arithmetic::div_mod::lemma_fundamental_div_mod(len as int, chunk as int);
    assert(len == chunk * q + r);
    if count >= ceil_div(len, chunk) {
        assert(count * chunk >= len) by (nonlinear_arith)
            requires
                len == chunk * q + r,
                r < chunk,
                count >= q,
                r != 0 ==> count >= q + 1,
        ;
    } else {
        assert(count * chunk < len) by (nonlinear_arith)
            requires
                len == chunk * q + r,
                chunk > 0,
                r == 0 ==> count + 1 <= q,
                count <= q,
                r == 0 || r > 0,
        ;
    }
}

/// The number of batches is the lesser of `ceil_div(len, chunk)` and `cap`.
pub proof fn batch_total_is_capped_ceiling(len: nat, chunk: nat, cap: nat)
    requires
        chunk > 0,
    ensures
        batch_total(len, chunk, cap) <= cap,
        batch_total(len, chunk, cap) <= ceil_div(len, chunk),
        batch_total(len, chunk, cap) == cap || batch_total(len, chunk, cap) == ceil_div(
            len,
            chunk,
        ),
{
}

/// Of no items no batch is made.
pub proof fn no_items_no_batches<T>(items: Seq<T>, chunk: nat, cap: nat)
    requires
        chunk > 0,
        items.len() == 0,
    ensures
        batch_total(0, chunk, cap) == 0,
        batch_list(items, chunk, cap) == Seq::<Seq<T>>::empty(),
{
    assert(0nat % chunk == 0 && 0nat / chunk == 0) by (nonlinear_arith)
        requires
            chunk > 0,
    ;
    assert(batch_list(items, chunk, cap) =~= Seq::<Seq<T>>::empty());
}

/// Where the chunk size is at least the number of items, and there is at
/// least one item and room for one batch, the one batch holds them all.
pub proof fn short_list_is_one_batch<T>(items: Seq<T>, chunk: nat, cap: nat)
    requires
        0 < items.len() <= chunk,
        cap > 0,
    ensures
        batch_list(items, chunk, cap) == seq![items],
{
    let len = items.len();
    ceil_div_is_least(len, chunk, 1);
    ceil_div_is_least(len, chunk, 0);
    assert(1 * chunk == chunk && 0 * chunk == 0) by (nonlinear_arith);
    assert(ceil_div(len, chunk) == 1);
    assert(batch_items(items, chunk, 0) =~= items);
    assert(batch_list(items, chunk, cap) =~= seq![items]);
}

/// Every batch starts inside the list and is not empty; every batch but the
/// last of a list that is taken whole has exactly `chunk` items, and none
/// has more.
pub proof fn batch_sizes<T>(items: Seq<T>, chunk: nat, cap: nat, index: nat)
    requires
        chunk > 0,
        index < batch_total(items.len(), chunk, cap),
    ensures
        index * chunk < items.len(),
        0 < batch_items(items, chunk, index).len() <= chunk,
        index + 1 < ceil_div(items.len(), chunk) ==> batch_items(items, chunk, index).len()
            == chunk,
        index + 1 < batch_total(items.len(), chunk, cap) ==> batch_items(
            items,
            chunk,
            index,
        ).len() == chunk,
{
    let len = items.len();
    ceil_div_is_least(len, chunk, index);
    ceil_div_is_least(len, chunk, index + 1);
    assert((index + 1) * chunk == index * chunk + chunk) by (nonlinear_arith);
}

/// The batches, one after the other, are the first items of the list: all
/// of them where the limit allows, else the first `cap * chunk`.
pub proof fn batches_cover_prefix<T>(items: Seq<T>, chunk: nat, cap: nat)
    requires
        chunk > 0,
    ensures
        batch_list(items, chunk, cap).flatten() == items.take(
            covered(items.len(), chunk, cap) as int,
        ),
        covered(items.len(), chunk, cap) <= items.len(),
{
    let total = batch_total(items.len(), chunk, cap);
    leading_batches_cover(items, chunk, total);
    ceil_div_is_least(items.len(), chunk, total);
    ceil_div_is_least(items.len(), chunk, cap);
}

/// How many items the batches hold together.
pub open spec fn covered(len: nat, chunk: nat, cap: nat) -> nat {
    if cap * chunk <= len {
        cap * chunk
    } else {
        len
    }
}

proof fn leading_batches_cover<T>(items: Seq<T>, chunk: nat, count: nat)
    requires
        chunk > 0,
        count <= ceil_div(items.len(), chunk),
    ensures
        leading_batches(items, chunk, count).flatten() == items.take(
            if count * chunk <= items.len() {
                (count * chunk) as int
            } else {
                items.len() as int
            },
        ),
    decreases count,
{
    let len = items.len();
    if count == 0 {
        assert(0 * chunk == 0) by (nonlinear_arith);
        assert(leading_batches(items, chunk, 0) =~= Seq::<Seq<T>>::empty());
        assert(items.take(0) =~= Seq::<T>::empty());
    } else {
        let before = (count - 1) as nat;
        leading_batches_cover(items, chunk, before);
        ceil_div_is_least(len, chunk, before);
        assert(count * chunk == before * chunk + chunk) by (nonlinear_arith)
            requires
                count == before + 1,
        ;
        let head = leading_batches(items, chunk, before);
        let last = batch_items(items, chunk, before);
        assert(leading_batches(items, chunk, count) =~= head.push(last));
        head.lemma_flatten_push(last);
        assert(head.flatten() + last =~= items.take(batch_end(len, chunk, before) as int));
    }
}

/// Counts the batches that are made of `len` items.
pub fn batch_count(len: usize, chunk_size: usize, max_batches: usize) -> (count: usize)
    requires
        chunk_size > 0,
    ensures
        count == batch_total(len as nat, chunk_size as nat, max_batches as nat),
{
    let full: usize = len / chunk_size;
    if full >= max_batches {
        max_batches
    } else if len % chunk_size == 0 {
        full
    } else {
        full + 1
    }
}

/// Hands out the batch with the given index, or nothing where the list ends
/// before it.
pub fn batch<'a, T>(items: &'a [T], chunk_size: usize, index: usize) -> (group: Option<&'a [T]>)
    requires
        chunk_size > 0,
    ensures
        group is Some <==> index < ceil_div(items@.len(), chunk_size as nat),
        group is Some ==> group.unwrap()@ == batch_items(items@, chunk_size as nat, index as nat),
{
    let len: usize = items.len();
    proof {
        ceil_div_is_least(len as nat, chunk_size as nat, index as nat);
        ceil_div_is_least(len as nat, chunk_size as nat, (index + 1) as nat);
        assert((index + 1) * chunk_size == index * chunk_size + chunk_size) by (nonlinear_arith);
    }
    match index.checked_mul(chunk_size) {
        Some(start) => {
            if start < len {
                let end: usize = if len - start > chunk_size {
                    start + chunk_size
                } else {
                    len
                };
                Some(slice_subrange(items, start, end))
            } else {
                None
            }
        },
        None => None,
    }
}

/// Splits `items` into consecutive batches of `chunk_size` items, the last
/// one of fewer where the list ends, and stops after `max_batches` of them.
pub fn batches<'a, T>(items: &'a [T], chunk_size: usize, max_batches: usize) -> (groups: Vec<
    &'a [T],
>)
    requires
        chunk_size > 0,
    ensures
        batch_views(groups@) == batch_list(items@, chunk_size as nat, max_batches as nat),
{
    let len: usize = items.len();
    let mut groups: Vec<&'a [T]> = Vec::new();
    let mut start: usize = 0;
    proof {
        assert(0 * chunk_size == 0) by (nonlinear_arith);
    }
    while groups.len() < max_batches && start < len
        invariant
            chunk_size > 0,
            len == items@.len(),
            groups@.len() <= max_batches,
            groups@.len() <= ceil_div(len as nat, chunk_size as nat),
            start <= len,
            start == if groups@.len() * chunk_size <= len {
                groups@.len() * chunk_size
            } else {
                len as int
            },
            forall|index: int|
                0 <= index < groups@.len() ==> (#[trigger] groups@[index])@ == batch_items(
                    items@,
                    chunk_size as nat,
                    index as nat,
                ),
        decreases len - start,
    {
        let end: usize = if len - start > chunk_size {
            start + chunk_size
        } else {
            len
        };
        let ghost count = groups@.len();
        proof {
            ceil_div_is_least(len as nat, chunk_size as nat, count);
            assert((count + 1) * chunk_size == count * chunk_size + chunk_size)
                by (nonlinear_arith);
        }
        let group = slice_subrange(items, start, end);
        assert(group@ == batch_items(items@, chunk_size as nat, count));
        groups.push(group);
        start = end;
    }
    proof {
        ceil_div_is_least(len as nat, chunk_size as nat, groups@.len() as nat);
        assert(batch_views(groups@) =~= batch_list(
            items@,
            chunk_size as nat,
            max_batches as nat,
        ));
    }
    groups
}

} // verus!
