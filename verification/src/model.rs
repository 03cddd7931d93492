//! Ghost model of the buffer subsystem.
//!
//! `TableView` is the abstract state a `BufferManager` denotes: the next
//! handle to issue, the live objects with their stores, the set of handles
//! deleted forever, and the binding-point table. The spec functions here are
//! the transitions the operations perform on that state; the executable code
//! is specified, and the laws of the subsystem proved, against them.

use vstd::prelude::*;
use crate::binding::BufferUsage;
use crate::binding::NUM_TARGETS;

verus! {

/// Abstract contents of one object's data store: the usage hint and the
/// committed bytes. A live object without a store is `None` in the table.
#[verifier::ext_equal]
pub ghost struct BufView {
    pub usage: BufferUsage,
    pub bytes: Seq<u8>,
}

/// Abstract state of the buffer subsystem.
#[verifier::ext_equal]
pub ghost struct TableView {
    /// The next handle to issue; handles count up from 1 and are never
    /// reused.
    pub next: int,
    /// The live objects: handle to optional store.
    pub live: Map<u32, Option<BufView>>,
    /// Handles deleted forever.
    pub deleted: Set<u32>,
    /// The binding-point table, one entry per bind target, 0 for unbound.
    pub bound: Seq<u32>,
}

/// Well-formedness of the abstract state: handles are positive and below
/// `next`, a handle is never both live and deleted, and the binding table
/// has one entry per target.
pub open spec fn view_wf(v: TableView) -> bool {
    &&& 1 <= v.next <= u32::MAX + 1
    &&& forall|k: u32| #[trigger] v.live.contains_key(k) ==> 1 <= k < v.next
    &&& forall|k: u32| #[trigger] v.deleted.contains(k) ==> 1 <= k < v.next
    &&& forall|k: u32| !(#[trigger] v.live.contains_key(k) && v.deleted.contains(k))
    &&& v.bound.len() == NUM_TARGETS
    &&& forall|i: int| 0 <= i < v.bound.len() ==> #[trigger] v.bound[i] < v.next
}

/// The state a fresh subsystem denotes.
pub open spec fn empty_table() -> TableView {
    TableView {
        next: 1,
        live: Map::empty(),
        deleted: Set::empty(),
        bound: Seq::new(NUM_TARGETS as nat, |i: int| 0u32),
    }
}

/// Issuing one fresh handle: it becomes live with no store.
pub open spec fn gen_one(v: TableView) -> TableView {
    TableView { next: v.next + 1, live: v.live.insert(v.next as u32, None), ..v }
}

/// Issuing `n` fresh handles in order.
pub open spec fn gen_many(v: TableView, n: nat) -> TableView
    decreases n,
{
    if n == 0 {
        v
    } else {
        gen_one(gen_many(v, (n - 1) as nat))
    }
}

/// The handles `gen_many` issues from a state whose next handle is `next`.
pub open spec fn gen_ids(next: int, n: nat) -> Seq<u32> {
    Seq::new(n, |i: int| (next + i) as u32)
}

/// Index of the first binding-table entry holding `id`, or -1.
pub open spec fn find_first(b: Seq<u32>, id: u32) -> int
    decreases b.len(),
{
    if b.len() == 0 {
        -1
    } else if b[0] == id {
        0
    } else {
        let r = find_first(b.drop_first(), id);
        if r < 0 {
            -1
        } else {
            r + 1
        }
    }
}

/// Clearing the first binding-table entry holding `id`, if any.
pub open spec fn clear_first(b: Seq<u32>, id: u32) -> Seq<u32> {
    if find_first(b, id) >= 0 {
        b.update(find_first(b, id), 0u32)
    } else {
        b
    }
}

/// Deleting one handle is a double free (the handle was deleted before);
/// a non-fatal warning, and no state change.
pub open spec fn free_is_double(v: TableView, id: u32) -> bool {
    v.deleted.contains(id)
}

/// Deleting one handle refers to a handle never allocated; an invalid-value
/// condition, and no state change.
pub open spec fn free_is_unalloc(v: TableView, id: u32) -> bool {
    !v.deleted.contains(id) && !v.live.contains_key(id)
}

/// Deleting one handle: a live handle leaves the live set, joins the deleted
/// set forever, and the first binding point holding it is forced back to 0;
/// any other handle changes nothing.
pub open spec fn free_one(v: TableView, id: u32) -> TableView {
    if v.live.contains_key(id) && !v.deleted.contains(id) {
        TableView {
            live: v.live.remove(id),
            deleted: v.deleted.insert(id),
            bound: clear_first(v.bound, id),
            ..v
        }
    } else {
        v
    }
}

/// Deleting handles in the order given, each evaluated independently.
pub open spec fn free_many(v: TableView, ids: Seq<u32>) -> TableView
    decreases ids.len(),
{
    if ids.len() == 0 {
        v
    } else {
        free_many(free_one(v, ids[0]), ids.drop_first())
    }
}

/// Some step of the deletion hit a never-allocated handle.
pub open spec fn free_many_unalloc(v: TableView, ids: Seq<u32>) -> bool
    decreases ids.len(),
{
    if ids.len() == 0 {
        false
    } else {
        free_is_unalloc(v, ids[0]) || free_many_unalloc(free_one(v, ids[0]), ids.drop_first())
    }
}

/// Some step of the deletion was a double free.
pub open spec fn free_many_double(v: TableView, ids: Seq<u32>) -> bool
    decreases ids.len(),
{
    if ids.len() == 0 {
        false
    } else {
        free_is_double(v, ids[0]) || free_many_double(free_one(v, ids[0]), ids.drop_first())
    }
}

/// The store a commit without a source produces: `n` zero bytes.
pub open spec fn zero_bytes(n: nat) -> Seq<u8> {
    Seq::new(n, |i: int| 0u8)
}

/// Setting the binding point of target index `t` to `id` (0 clears it).
pub open spec fn bind_target(v: TableView, t: int, id: u32) -> TableView {
    TableView { bound: v.bound.update(t, id), ..v }
}

/// Replacing the store of live handle `id` wholesale.
pub open spec fn commit_store(v: TableView, id: u32, usage: BufferUsage, bytes: Seq<u8>) -> TableView {
    TableView { live: v.live.insert(id, Some(BufView { usage, bytes })), ..v }
}

/// `find_first` is the least index holding `id` if one exists, and -1
/// exactly when no entry holds `id`.
pub proof fn lemma_find_first(b: Seq<u32>, id: u32)
    ensures
        (forall|k: int| 0 <= k < b.len() ==> b[k] != id) ==> find_first(b, id) == -1,
        (exists|k: int| 0 <= k < b.len() && b[k] == id) ==> {
            let r = find_first(b, id);
            &&& 0 <= r < b.len()
            &&& b[r] == id
            &&& forall|k: int| 0 <= k < r ==> b[k] != id
        },
    decreases b.len(),
{
    if b.len() > 0 && b[0] != id {
        lemma_find_first(b.drop_first(), id);
        assert forall|k: int| 0 <= k < b.len() && b[k] == id implies b.drop_first()[k - 1] == id
            && 0 <= k - 1 < b.drop_first().len() by {}
    }
}

/// `find_first` equals a given index that holds `id` and is preceded by no
/// other entry holding it.
pub proof fn lemma_find_first_at(b: Seq<u32>, id: u32, j: int)
    requires
        0 <= j < b.len(),
        b[j] == id,
        forall|k: int| 0 <= k < j ==> b[k] != id,
    ensures
        find_first(b, id) == j,
{
    lemma_find_first(b, id);
}

/// What issuing `n` handles does to the abstract state: the counter moves
/// up by `n`, the issued handles are live with no store, and nothing else
/// changes.
pub proof fn lemma_gen_many_facts(v: TableView, n: nat)
    requires
        view_wf(v),
        v.next + n <= u32::MAX + 1,
    ensures
        gen_many(v, n).next == v.next + n,
        gen_many(v, n).deleted == v.deleted,
        gen_many(v, n).bound == v.bound,
        forall|k: u32|
            #[trigger] gen_many(v, n).live.contains_key(k) <==> (v.live.contains_key(k) || (v.next
                <= k < v.next + n)),
        forall|k: u32|
            v.live.contains_key(k) ==> #[trigger] gen_many(v, n).live[k] == v.live[k],
        forall|k: u32| v.next <= k < v.next + n ==> #[trigger] gen_many(v, n).live[k] is None,
        view_wf(gen_many(v, n)),
    decreases n,
{
    if n > 0 {
        lemma_gen_many_facts(v, (n - 1) as nat);
    }
}

/// Deleting a batch of distinct, live, never-deleted, nowhere-bound handles
/// removes exactly those handles from the live set and adds exactly them to
/// the deleted set; the binding table and the counter do not move.
pub proof fn lemma_free_batch(v: TableView, base: int, n: nat)
    requires
        1 <= base,
        base + n <= u32::MAX + 1,
        forall|k: u32| base <= k < base + n ==> #[trigger] v.live.contains_key(k),
        forall|k: u32| base <= k < base + n ==> !(#[trigger] v.deleted.contains(k)),
        forall|i: int| 0 <= i < v.bound.len() ==> !(base <= #[trigger] v.bound[i] < base + n),
    ensures
        free_many(v, gen_ids(base, n)).next == v.next,
        free_many(v, gen_ids(base, n)).bound == v.bound,
        forall|k: u32|
            #[trigger] free_many(v, gen_ids(base, n)).live.contains_key(k) <==> (
            v.live.contains_key(k) && !(base <= k < base + n)),
        forall|k: u32|
            #[trigger] free_many(v, gen_ids(base, n)).deleted.contains(k) <==> (v.deleted.contains(
                k,
            ) || (base <= k < base + n)),
    decreases n,
{
    if n > 0 {
        let ids = gen_ids(base, n);
        assert(ids[0] == base as u32);
        assert(base as u32 == base);
        let v1 = free_one(v, base as u32);
        assert forall|i: int| 0 <= i < v.bound.len() implies v.bound[i] != base as u32 by {}
        lemma_find_first(v.bound, base as u32);
        assert(v1.bound == v.bound);
        assert(ids.drop_first() =~= gen_ids(base + 1, (n - 1) as nat));
        lemma_free_batch(v1, base + 1, (n - 1) as nat);
        assert(free_many(v, ids) == free_many(v1, ids.drop_first()));
    }
}

/// Generating `n` handles and then deleting exactly those handles restores
/// the live set: in particular, from a state with no live object the live
/// set ends empty, so teardown finds no leak.
pub proof fn lemma_generate_then_delete(v: TableView, n: nat)
    requires
        view_wf(v),
        v.next + n <= u32::MAX + 1,
    ensures
        ({
            let w = free_many(gen_many(v, n), gen_ids(v.next, n));
            &&& w.next == v.next + n
            &&& w.bound == v.bound
            &&& forall|k: u32| #[trigger] w.live.contains_key(k) <==> v.live.contains_key(k)
        }),
        v.live == Map::<u32, Option<BufView>>::empty() ==> free_many(
            gen_many(v, n),
            gen_ids(v.next, n),
        ).live =~= Map::<u32, Option<BufView>>::empty(),
{
    let g = gen_many(v, n);
    lemma_gen_many_facts(v, n);
    lemma_free_batch(g, v.next, n);
    let w = free_many(g, gen_ids(v.next, n));
    assert forall|k: u32| #[trigger] w.live.contains_key(k) implies v.live.contains_key(k) by {}
    assert forall|k: u32| v.live.contains_key(k) implies #[trigger] w.live.contains_key(k) by {}
    if v.live == Map::<u32, Option<BufView>>::empty() {
        assert forall|k: u32| !(#[trigger] w.live.contains_key(k)) by {
            assert(!v.live.contains_key(k));
        }
    }
}

/// Deleting an already-deleted handle is a double-free warning on that
/// call, and removes and changes nothing.
pub proof fn lemma_double_free(v: TableView, id: u32)
    requires
        v.deleted.contains(id),
    ensures
        free_is_double(v, id),
        free_one(v, id) == v,
{
}

/// Deleting a never-allocated handle is an invalid-value condition, and
/// leaves the state, in particular the live set, unchanged.
pub proof fn lemma_free_unallocated(v: TableView, id: u32)
    requires
        !v.live.contains_key(id),
        !v.deleted.contains(id),
    ensures
        free_is_unalloc(v, id),
        free_one(v, id) == v,
{
}

/// Committing data replaces exactly the addressed handle's store with
/// exactly the given bytes; every other store, the lifecycle sets and the
/// binding table are untouched.
pub proof fn lemma_commit_exact(v: TableView, id: u32, usage: BufferUsage, bytes: Seq<u8>)
    ensures
        commit_store(v, id, usage, bytes).live[id] == Some(BufView { usage, bytes }),
        forall|k: u32|
            k != id ==> #[trigger] commit_store(v, id, usage, bytes).live.contains_key(k)
                == v.live.contains_key(k),
        forall|k: u32|
            k != id && v.live.contains_key(k) ==> #[trigger] commit_store(
                v,
                id,
                usage,
                bytes,
            ).live[k] == v.live[k],
        commit_store(v, id, usage, bytes).deleted == v.deleted,
        commit_store(v, id, usage, bytes).bound == v.bound,
        commit_store(v, id, usage, bytes).next == v.next,
{
}

/// Binding handle 0 to a target clears that target's binding point,
/// whatever it previously held.
pub proof fn lemma_bind_zero_clears(v: TableView, t: int)
    requires
        0 <= t < v.bound.len(),
    ensures
        bind_target(v, t, 0).bound[t] == 0,
{
}

/// Binding a live handle to a target and then deleting that handle leaves
/// the target reading back as unbound. The handle must not be bound to an
/// earlier target as well: deletion clears only the first binding point
/// holding it.
pub proof fn lemma_bind_then_free_clears(v: TableView, t: int, id: u32)
    requires
        0 <= t < v.bound.len(),
        id != 0,
        v.live.contains_key(id),
        !v.deleted.contains(id),
        forall|j: int| 0 <= j < t ==> v.bound[j] != id,
    ensures
        free_one(bind_target(v, t, id), id).bound[t] == 0,
{
    let b = v.bound.update(t, id);
    lemma_find_first_at(b, id, t);
}

/// Deleting one more handle after a batch is the batch followed by the one.
pub proof fn lemma_free_many_snoc(v: TableView, ids: Seq<u32>, x: u32)
    ensures
        free_many(v, ids.push(x)) == free_one(free_many(v, ids), x),
        free_many_unalloc(v, ids.push(x)) == (free_many_unalloc(v, ids) || free_is_unalloc(
            free_many(v, ids),
            x,
        )),
        free_many_double(v, ids.push(x)) == (free_many_double(v, ids) || free_is_double(
            free_many(v, ids),
            x,
        )),
    decreases ids.len(),
{
    if ids.len() == 0 {
        assert(ids.push(x)[0] == x);
        assert(ids.push(x).drop_first() =~= Seq::<u32>::empty());
        assert(free_many(v, ids.push(x)) == free_many(free_one(v, x), Seq::<u32>::empty()));
        assert(free_many(free_one(v, x), Seq::<u32>::empty()) == free_one(v, x));
        assert(free_many_unalloc(v, ids.push(x)) == (free_is_unalloc(v, x) || free_many_unalloc(
            free_one(v, x),
            Seq::<u32>::empty(),
        )));
        assert(!free_many_unalloc(free_one(v, x), Seq::<u32>::empty()));
        assert(free_many_double(v, ids.push(x)) == (free_is_double(v, x) || free_many_double(
            free_one(v, x),
            Seq::<u32>::empty(),
        )));
        assert(!free_many_double(free_one(v, x), Seq::<u32>::empty()));
    } else {
        assert(ids.push(x)[0] == ids[0]);
        assert(ids.push(x).drop_first() =~= ids.drop_first().push(x));
        lemma_free_many_snoc(free_one(v, ids[0]), ids.drop_first(), x);
    }
}

} // verus!
