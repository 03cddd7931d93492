//! The buffer subsystem: a handle allocator and lifecycle tracker combined
//! with the binding-point table and the validation rules for data commits.
//!
//! The concrete state is a table of live entries kept sorted by handle (a
//! fresh handle is always the largest issued so far), the handles deleted
//! forever, and one binding point per target. Its abstract state is the
//! `TableView` of the model module; every operation's contract says which
//! model transition it performs and which condition it reports.

use vstd::prelude::*;
use crate::binding::BufferBinding;
use crate::binding::BufferUsage;
use crate::binding::NUM_TARGETS;
use crate::codes::FALSE;
use crate::codes::INVALID_ENUM;
use crate::codes::INVALID_OPERATION;
use crate::codes::INVALID_VALUE;
use crate::codes::TRUE;
use crate::model::BufView;
use crate::model::TableView;
use crate::model::bind_target;
use crate::model::clear_first;
use crate::model::commit_store;
use crate::model::empty_table;
use crate::model::free_many;
use crate::model::free_many_double;
use crate::model::free_many_unalloc;
use crate::model::free_one;
use crate::model::gen_ids;
use crate::model::gen_many;
use crate::model::gen_one;
use crate::model::lemma_find_first;
use crate::model::lemma_find_first_at;
use crate::model::lemma_free_many_snoc;
use crate::model::view_wf;
use crate::model::zero_bytes;
use crate::version::GlVersion;

verus! {

/// A buffer object's committed data store: its usage hint and bytes.
pub struct Buffer {
    pub usage: BufferUsage,
    pub memory: Vec<u8>,
}

/// One live entry of the resource table.
pub struct BufferEntry {
    pub id: u32,
    pub data: Option<Buffer>,
}

/// The abstract store an entry's data denotes.
pub open spec fn buf_view(b: Option<Buffer>) -> Option<BufView> {
    match b {
        None => None,
        Some(buf) => Some(BufView { usage: buf.usage, bytes: buf.memory@ }),
    }
}

/// The map from handle to store a sequence of entries denotes.
pub open spec fn entries_map(s: Seq<BufferEntry>) -> Map<u32, Option<BufView>>
    decreases s.len(),
{
    if s.len() == 0 {
        Map::empty()
    } else {
        entries_map(s.drop_last()).insert(s.last().id, buf_view(s.last().data))
    }
}

/// No two entries share a handle.
pub open spec fn unique_ids(s: Seq<BufferEntry>) -> bool {
    forall|i: int, j: int|
        0 <= i < j < s.len() ==> #[trigger] s[i].id != #[trigger] s[j].id
}

proof fn lemma_entries_map_contains(s: Seq<BufferEntry>, k: u32)
    ensures
        entries_map(s).contains_key(k) <==> exists|i: int| 0 <= i < s.len() && s[i].id == k,
    decreases s.len(),
{
    if s.len() > 0 {
        lemma_entries_map_contains(s.drop_last(), k);
        if s.last().id == k {
            assert(s[s.len() - 1].id == k);
        } else if entries_map(s).contains_key(k) {
            let i = choose|i: int| 0 <= i < s.drop_last().len() && s.drop_last()[i].id == k;
            assert(s[i].id == k);
        } else if exists|i: int| 0 <= i < s.len() && s[i].id == k {
            let i = choose|i: int| 0 <= i < s.len() && s[i].id == k;
            assert(i < s.len() - 1);
            assert(s.drop_last()[i].id == k);
        }
    }
}

proof fn lemma_entries_map_remove(s: Seq<BufferEntry>, i: int)
    requires
        unique_ids(s),
        0 <= i < s.len(),
    ensures
        entries_map(s.remove(i)) =~= entries_map(s).remove(s[i].id),
    decreases s.len(),
{
    if i == s.len() - 1 {
        assert(s.remove(i) =~= s.drop_last());
        lemma_entries_map_contains(s.drop_last(), s[i].id);
        assert(forall|j: int|
            0 <= j < s.drop_last().len() ==> #[trigger] s.drop_last()[j].id != s[i].id);
        assert(!entries_map(s.drop_last()).contains_key(s[i].id));
        assert(entries_map(s).remove(s[i].id) =~= entries_map(s.drop_last()));
    } else {
        let t = s.remove(i);
        assert(t.drop_last() =~= s.drop_last().remove(i));
        assert(t.last() == s.last());
        lemma_entries_map_remove(s.drop_last(), i);
        assert(s.drop_last()[i] == s[i]);
        assert(entries_map(t) =~= entries_map(s.drop_last()).remove(s[i].id).insert(
            s.last().id,
            buf_view(s.last().data),
        ));
        assert(s.last().id != s[i].id);
    }
}

proof fn lemma_entries_map_update(s: Seq<BufferEntry>, i: int, d: Option<Buffer>)
    requires
        unique_ids(s),
        0 <= i < s.len(),
    ensures
        entries_map(s.update(i, BufferEntry { id: s[i].id, data: d })) =~= entries_map(s).insert(
            s[i].id,
            buf_view(d),
        ),
    decreases s.len(),
{
    let e = BufferEntry { id: s[i].id, data: d };
    let t = s.update(i, e);
    if i == s.len() - 1 {
        assert(t.drop_last() =~= s.drop_last());
        assert(t.last() == e);
    } else {
        assert(t.drop_last() =~= s.drop_last().update(i, e));
        assert(t.last() == s.last());
        assert(s.drop_last()[i] == s[i]);
        lemma_entries_map_update(s.drop_last(), i, d);
        assert(s.last().id != s[i].id);
    }
}

proof fn lemma_to_set_push(s: Seq<u32>, x: u32)
    ensures
        s.push(x).to_set() =~= s.to_set().insert(x),
{
    assert forall|y: u32| s.push(x).to_set().contains(y) implies s.to_set().insert(x).contains(
        y,
    ) by {
        let i = choose|i: int| 0 <= i < s.push(x).len() && s.push(x)[i] == y;
        if i < s.len() {
            assert(s[i] == y);
        }
    }
    assert forall|y: u32| s.to_set().insert(x).contains(y) implies s.push(x).to_set().contains(
        y,
    ) by {
        if y == x {
            assert(s.push(x)[s.len() as int] == y);
        } else {
            let i = choose|i: int| 0 <= i < s.len() && s[i] == y;
            assert(s.push(x)[i] == y);
        }
    }
}

/// The handle allocator, lifecycle tracker and binding-point table for the
/// one object kind modeled.
pub struct BufferManager {
    buffer_index: u32,
    active_buffers: Vec<BufferEntry>,
    deleted_buffers: Vec<u32>,
    bound_buffers: Vec<u32>,
}

impl View for BufferManager {
    type V = TableView;

    closed spec fn view(&self) -> TableView {
        TableView {
            next: self.buffer_index as int,
            live: entries_map(self.active_buffers@),
            deleted: self.deleted_buffers@.to_set(),
            bound: self.bound_buffers@,
        }
    }
}

impl BufferManager {
    /// Representation invariant: live entries are sorted by handle, all
    /// handles ever issued are positive and below `buffer_index`, deleted
    /// handles are recorded once and never live, and there is one binding
    /// point per target.
    pub closed spec fn wf(self) -> bool {
        &&& 1 <= self.buffer_index
        &&& forall|i: int|
            0 <= i < self.active_buffers@.len() ==> 1 <= #[trigger] self.active_buffers@[i].id
                < self.buffer_index
        &&& forall|i: int, j: int|
            0 <= i < j < self.active_buffers@.len() ==> #[trigger] self.active_buffers@[i].id
                < #[trigger] self.active_buffers@[j].id
        &&& forall|i: int|
            0 <= i < self.deleted_buffers@.len() ==> 1 <= #[trigger] self.deleted_buffers@[i]
                < self.buffer_index
        &&& forall|i: int, j: int|
            0 <= i < j < self.deleted_buffers@.len() ==> #[trigger] self.deleted_buffers@[i]
                != #[trigger] self.deleted_buffers@[j]
        &&& forall|i: int, j: int|
            0 <= i < self.active_buffers@.len() && 0 <= j < self.deleted_buffers@.len()
                ==> #[trigger] self.active_buffers@[i].id != #[trigger] self.deleted_buffers@[j]
        &&& self.bound_buffers@.len() == NUM_TARGETS
        &&& forall|i: int|
            0 <= i < self.bound_buffers@.len() ==> #[trigger] self.bound_buffers@[i]
                < self.buffer_index
    }

    /// A well-formed manager denotes a well-formed abstract state.
    pub proof fn lemma_view_wf(self)
        requires
            self.wf(),
        ensures
            view_wf(self@),
    {
        assert forall|k: u32| #[trigger] self@.live.contains_key(k) implies 1 <= k
            < self@.next by {
            lemma_entries_map_contains(self.active_buffers@, k);
        }
        assert forall|k: u32| #[trigger] self@.deleted.contains(k) implies 1 <= k
            < self@.next by {
            let i = choose|i: int|
                0 <= i < self.deleted_buffers@.len() && self.deleted_buffers@[i] == k;
        }
        assert forall|k: u32| !(#[trigger] self@.live.contains_key(k) && self@.deleted.contains(
            k,
        )) by {
            lemma_entries_map_contains(self.active_buffers@, k);
        }
    }

    /// Whether the handle was deleted before.
    fn deleted_contains(&self, id: u32) -> (r: bool)
        ensures
            r == self@.deleted.contains(id),
    {
        let mut i: usize = 0;
        while i < self.deleted_buffers.len()
            invariant
                0 <= i <= self.deleted_buffers@.len(),
                forall|j: int| 0 <= j < i ==> #[trigger] self.deleted_buffers@[j] != id,
            decreases self.deleted_buffers@.len() - i,
        {
            if self.deleted_buffers[i] == id {
                return true;
            }
            i += 1;
        }
        false
    }

    /// Position of the handle's live entry, if the handle is live.
    fn find_active(&self, id: u32) -> (r: Option<usize>)
        ensures
            match r {
                Some(i) => i < self.active_buffers@.len() && self.active_buffers@[i as int].id
                    == id && self@.live.contains_key(id),
                None => !self@.live.contains_key(id),
            },
    {
        proof {
            lemma_entries_map_contains(self.active_buffers@, id);
        }
        let mut i: usize = 0;
        while i < self.active_buffers.len()
            invariant
                0 <= i <= self.active_buffers@.len(),
                forall|j: int| 0 <= j < i ==> #[trigger] self.active_buffers@[j].id != id,
            decreases self.active_buffers@.len() - i,
        {
            if self.active_buffers[i].id == id {
                proof {
                    lemma_entries_map_contains(self.active_buffers@, id);
                }
                return Some(i);
            }
            i += 1;
        }
        proof {
            lemma_entries_map_contains(self.active_buffers@, id);
        }
        None
    }

    /// A fresh subsystem: no object ever issued, every target unbound.
    pub fn new() -> (m: BufferManager)
        ensures
            m.wf(),
            m@ == empty_table(),
    {
        let mut bound: Vec<u32> = Vec::new();
        let mut i: usize = 0;
        while i < NUM_TARGETS
            invariant
                bound@.len() == i,
                0 <= i <= NUM_TARGETS,
                forall|j: int| 0 <= j < i ==> #[trigger] bound@[j] == 0,
            decreases NUM_TARGETS - i,
        {
            bound.push(0);
            i += 1;
        }
        let m = BufferManager {
            buffer_index: 1,
            active_buffers: Vec::new(),
            deleted_buffers: Vec::new(),
            bound_buffers: bound,
        };
        proof {
            assert(m@.bound =~= empty_table().bound);
            assert(m@.deleted =~= empty_table().deleted);
            assert(m@ =~= empty_table());
        }
        m
    }

    /// Whether the handle space still has room for `buffer_count` fresh
    /// handles.
    pub fn can_issue(&self, buffer_count: i32) -> (r: bool)
        requires
            buffer_count >= 0,
        ensures
            r == (self@.next + buffer_count <= u32::MAX),
    {
        u32::MAX - self.buffer_index >= (buffer_count as u32)
    }

    /// Issues `buffer_count` fresh handles and returns them in order; a
    /// negative count allocates nothing and records invalid-value.
    pub fn gen_buffers(&mut self, error: &mut u32, buffer_count: i32) -> (ids: Vec<u32>)
        requires
            old(self).wf(),
            buffer_count >= 0 ==> old(self)@.next + buffer_count <= u32::MAX,
        ensures
            final(self).wf(),
            buffer_count < 0 ==> ({
                &&& *final(error) == INVALID_VALUE
                &&& final(self)@ == old(self)@
                &&& ids@.len() == 0
            }),
            buffer_count >= 0 ==> ({
                &&& *final(error) == *old(error)
                &&& final(self)@ == gen_many(old(self)@, buffer_count as nat)
                &&& ids@ == gen_ids(old(self)@.next, buffer_count as nat)
            }),
    {
        if buffer_count < 0 {
            *error = INVALID_VALUE;
            return Vec::new();
        }
        let ghost v0 = self@;
        let n = buffer_count as usize;
        let mut ids: Vec<u32> = Vec::new();
        let mut k: usize = 0;
        while k < n
            invariant
                0 <= k <= n,
                self.wf(),
                v0.next + n <= u32::MAX,
                self.buffer_index == v0.next + k,
                self@ == gen_many(v0, k as nat),
                ids@.len() == k,
                forall|j: int| 0 <= j < k ==> #[trigger] ids@[j] == (v0.next + j) as u32,
            decreases n - k,
        {
            let ghost v_before = self@;
            let ghost active_before = self.active_buffers@;
            let id = self.buffer_index;
            ids.push(id);
            self.buffer_index = self.buffer_index + 1;
            self.active_buffers.push(BufferEntry { id, data: None });
            proof {
                assert(self.active_buffers@.drop_last() =~= active_before);
                assert(self@.live =~= v_before.live.insert(id, None));
                assert(self@ =~= gen_one(v_before));
                assert(gen_many(v0, (k + 1) as nat) == gen_one(gen_many(v0, k as nat)));
            }
            k += 1;
        }
        proof {
            assert(ids@ =~= gen_ids(v0.next, buffer_count as nat));
        }
        ids
    }

    /// Clears the first binding point holding `id`, if any.
    fn unbind_first(&mut self, id: u32)
        requires
            old(self).wf(),
        ensures
            final(self).wf(),
            final(self).buffer_index == old(self).buffer_index,
            final(self).active_buffers@ == old(self).active_buffers@,
            final(self).deleted_buffers@ == old(self).deleted_buffers@,
            final(self).bound_buffers@ == clear_first(old(self).bound_buffers@, id),
    {
        let ghost b0 = self.bound_buffers@;
        let mut j: usize = 0;
        while j < self.bound_buffers.len()
            invariant
                0 <= j <= self.bound_buffers@.len(),
                self.wf(),
                *self == *old(self),
                b0 == self.bound_buffers@,
                forall|k: int| 0 <= k < j ==> #[trigger] b0[k] != id,
            decreases self.bound_buffers@.len() - j,
        {
            if self.bound_buffers[j] == id {
                self.bound_buffers.set(j, 0);
                proof {
                    lemma_find_first_at(b0, id, j as int);
                    assert(self.bound_buffers@ == clear_first(b0, id));
                }
                return;
            }
            j += 1;
        }
        proof {
            lemma_find_first(b0, id);
            assert(clear_first(b0, id) == b0);
        }
    }

    /// Deletes the given handles, each evaluated independently in order: a
    /// live handle leaves the live set forever and its binding point (if
    /// any) is cleared; an already-deleted handle records a double-free
    /// warning; a never-allocated handle records invalid-value. A negative
    /// count deletes nothing and records invalid-value.
    pub fn free_buffers(&mut self, error: &mut u32, buffer_count: i32, buffers: &[u32]) -> (warned:
        bool)
        requires
            old(self).wf(),
            buffer_count >= 0 ==> buffers@.len() == buffer_count,
        ensures
            final(self).wf(),
            buffer_count < 0 ==> ({
                &&& *final(error) == INVALID_VALUE
                &&& final(self)@ == old(self)@
                &&& !warned
            }),
            buffer_count >= 0 ==> ({
                &&& final(self)@ == free_many(old(self)@, buffers@)
                &&& *final(error) == (if free_many_unalloc(old(self)@, buffers@) {
                    INVALID_VALUE
                } else {
                    *old(error)
                })
                &&& warned == free_many_double(old(self)@, buffers@)
            }),
    {
        if buffer_count < 0 {
            *error = INVALID_VALUE;
            return false;
        }
        let ghost v0 = self@;
        let mut warned = false;
        let mut unalloc = false;
        let mut i: usize = 0;
        while i < buffers.len()
            invariant
                0 <= i <= buffers@.len(),
                self.wf(),
                self@ == free_many(v0, buffers@.take(i as int)),
                warned == free_many_double(v0, buffers@.take(i as int)),
                unalloc == free_many_unalloc(v0, buffers@.take(i as int)),
            decreases buffers@.len() - i,
        {
            let id = buffers[i];
            let ghost v = self@;
            if self.deleted_contains(id) {
                warned = true;
                proof {
                    assert(free_one(v, id) == v);
                }
            } else {
                let found = self.find_active(id);
                match found {
                    Some(idx) => {
                        let ghost a0 = self.active_buffers@;
                        let ghost d0 = self.deleted_buffers@;
                        let _removed = self.active_buffers.remove(idx);
                        self.deleted_buffers.push(id);
                        proof {
                            assert(unique_ids(a0));
                            lemma_entries_map_remove(a0, idx as int);
                            lemma_to_set_push(d0, id);
                            assert(forall|k: int|
                                0 <= k < d0.len() ==> #[trigger] d0[k] != id) by {
                                assert(!d0.to_set().contains(id));
                            }
                            assert(forall|k: int, l: int|
                                0 <= k < a0.remove(idx as int).len() && 0 <= l < d0.push(
                                    id,
                                ).len() ==> #[trigger] a0.remove(idx as int)[k].id
                                    != #[trigger] d0.push(id)[l]) by {
                                assert forall|k: int|
                                    0 <= k < a0.remove(idx as int).len() implies a0.remove(
                                    idx as int,
                                )[k].id != id by {
                                    if k < idx {
                                        assert(a0.remove(idx as int)[k] == a0[k]);
                                    } else {
                                        assert(a0.remove(idx as int)[k] == a0[k + 1]);
                                    }
                                }
                            }
                            assert(self.wf());
                        }
                        self.unbind_first(id);
                        proof {
                            assert(self@.live =~= v.live.remove(id));
                            assert(self@.deleted =~= v.deleted.insert(id));
                            assert(self@ =~= free_one(v, id));
                        }
                    },
                    None => {
                        unalloc = true;
                        proof {
                            assert(free_one(v, id) == v);
                        }
                    },
                }
            }
            proof {
                lemma_free_many_snoc(v0, buffers@.take(i as int), id);
                assert(buffers@.take(i as int).push(id) =~= buffers@.take(i + 1));
            }
            i += 1;
        }
        proof {
            assert(buffers@.take(buffers@.len() as int) =~= buffers@);
        }
        if unalloc {
            *error = INVALID_VALUE;
        }
        warned
    }

    /// Whether the handle is currently live.
    pub fn is_buffer(&mut self, buffer: u32) -> (r: u8)
        requires
            old(self).wf(),
        ensures
            *final(self) == *old(self),
            r == (if old(self)@.live.contains_key(buffer) {
                TRUE
            } else {
                FALSE
            }),
    {
        match self.find_active(buffer) {
            Some(_) => TRUE,
            None => FALSE,
        }
    }

    /// Binds a handle to a target: handle 0 clears the target's binding
    /// point; a live handle becomes the target's binding; a deleted or
    /// never-allocated handle records invalid-value and changes nothing. An
    /// unrecognized target records invalid-enum and changes nothing. The
    /// result reports whether a recognized target is unavailable under the
    /// version (a capability condition for the caller to record).
    pub fn bind_buffer(
        &mut self,
        gl_version: &GlVersion,
        error: &mut u32,
        target: u32,
        buffer_id: u32,
    ) -> (cap_err: bool)
        requires
            old(self).wf(),
        ensures
            final(self).wf(),
            BufferBinding::spec_from_gl(target) is None ==> final(self)@ == old(self)@ && *final(error) == INVALID_ENUM && !cap_err,
            (match BufferBinding::spec_from_gl(target) {
                Some(t) => ({
                    &&& cap_err == t.spec_version_err(*gl_version)
                    &&& (buffer_id == 0 ==> final(self)@ == bind_target(
                        old(self)@,
                        t.spec_index(),
                        0,
                    ) && *final(error) == *old(error))
                    &&& (buffer_id != 0 && old(self)@.live.contains_key(buffer_id) ==> final(self)@ == bind_target(old(self)@, t.spec_index(), buffer_id) && *final(error)
                        == *old(error))
                    &&& (buffer_id != 0 && !old(self)@.live.contains_key(buffer_id) ==> final(self)@ == old(self)@ && *final(error) == INVALID_VALUE)
                }),
                None => true,
            }),
    {
        let t = match BufferBinding::from_gl(target) {
            None => {
                *error = INVALID_ENUM;
                return false;
            },
            Some(t) => t,
        };
        let cap_err = t.check_version(gl_version);
        if buffer_id == 0 {
            self.bound_buffers.set(t.index(), 0);
            proof {
                assert(self@ =~= bind_target(old(self)@, t.spec_index(), 0));
            }
        } else if self.find_active(buffer_id).is_some() {
            self.bound_buffers.set(t.index(), buffer_id);
            proof {
                old(self).lemma_view_wf();
                assert(self@ =~= bind_target(old(self)@, t.spec_index(), buffer_id));
            }
        } else {
            // The handle is deleted or was never allocated; the two differ
            // only in diagnostics.
            *error = INVALID_VALUE;
        }
        cap_err
    }

    /// Replaces the store of a live handle: `size` zero bytes without a
    /// source, else a copy of exactly the given bytes. An unrecognized usage
    /// records invalid-enum, a negative size invalid-value; either leaves
    /// every store unchanged.
    fn buffer_data(
        &mut self,
        gl_version: &GlVersion,
        error: &mut u32,
        buffer_id: u32,
        size: isize,
        data: Option<&[u8]>,
        usage: u32,
    ) -> (cap_err: bool)
        requires
            old(self).wf(),
            old(self)@.live.contains_key(buffer_id),
            size >= 0 && data is Some ==> data->Some_0@.len() == size,
        ensures
            final(self).wf(),
            BufferUsage::spec_from_gl(usage) is None ==> final(self)@ == old(self)@ && *final(error) == INVALID_ENUM && !cap_err,
            (match BufferUsage::spec_from_gl(usage) {
                Some(u) => ({
                    &&& cap_err == u.spec_version_err(*gl_version)
                    &&& (size < 0 ==> final(self)@ == old(self)@ && *final(error) == INVALID_VALUE)
                    &&& (size >= 0 && data is None ==> final(self)@ == commit_store(
                        old(self)@,
                        buffer_id,
                        u,
                        zero_bytes(size as nat),
                    ) && *final(error) == *old(error))
                    &&& (size >= 0 && data is Some ==> final(self)@ == commit_store(
                        old(self)@,
                        buffer_id,
                        u,
                        data->Some_0@,
                    ) && *final(error) == *old(error))
                }),
                None => true,
            }),
    {
        let u = match BufferUsage::from_gl(usage) {
            None => {
                *error = INVALID_ENUM;
                return false;
            },
            Some(u) => u,
        };
        let cap_err = u.check_version(gl_version);
        if size < 0 {
            *error = INVALID_VALUE;
            return cap_err;
        }
        let memory: Vec<u8> = match data {
            Some(d) => vstd::slice::slice_to_vec(d),
            None => {
                let n = size as usize;
                let mut zeroes: Vec<u8> = Vec::new();
                let mut k: usize = 0;
                while k < n
                    invariant
                        0 <= k <= n,
                        zeroes@ =~= zero_bytes(k as nat),
                    decreases n - k,
                {
                    zeroes.push(0);
                    proof {
                        assert(zeroes@ =~= zero_bytes(k as nat).push(0u8));
                        assert(zero_bytes(k as nat).push(0u8) =~= zero_bytes((k + 1) as nat));
                    }
                    k += 1;
                }
                zeroes
            },
        };
        let idx = match self.find_active(buffer_id) {
            Some(idx) => idx,
            None => {
                // Unreachable: the handle is live by the precondition.
                *error = INVALID_OPERATION;
                return cap_err;
            },
        };
        let ghost a0 = self.active_buffers@;
        let entry_id = self.active_buffers[idx].id;
        self.active_buffers.set(
            idx,
            BufferEntry { id: entry_id, data: Some(Buffer { usage: u, memory }) },
        );
        proof {
            assert(unique_ids(a0));
            lemma_entries_map_update(a0, idx as int, self.active_buffers@[idx as int].data);
            assert forall|k: int| 0 <= k < self.active_buffers@.len() implies #[trigger] self
                .active_buffers@[k].id == a0[k].id by {}
            assert(self@ =~= commit_store(
                old(self)@,
                buffer_id,
                u,
                match data {
                    Some(d) => d@,
                    None => zero_bytes(size as nat),
                },
            ));
        }
        cap_err
    }

    /// Commits data through a target's current binding: the target must be
    /// recognized (invalid-enum otherwise) and bound to a live handle
    /// (invalid-operation otherwise); then the bound object's store is
    /// replaced as `buffer_data` describes.
    pub fn buffer_data_target(
        &mut self,
        gl_version: &GlVersion,
        error: &mut u32,
        target: u32,
        size: isize,
        data: Option<&[u8]>,
        usage: u32,
    ) -> (cap_err: bool)
        requires
            old(self).wf(),
            size >= 0 && data is Some ==> data->Some_0@.len() == size,
        ensures
            final(self).wf(),
            BufferBinding::spec_from_gl(target) is None ==> final(self)@ == old(self)@ && *final(error) == INVALID_ENUM && !cap_err,
            (match BufferBinding::spec_from_gl(target) {
                Some(t) => ({
                    let h = old(self)@.bound[t.spec_index()];
                    &&& (h == 0 ==> final(self)@ == old(self)@ && *final(error)
                        == INVALID_OPERATION && cap_err == t.spec_version_err(*gl_version))
                    &&& (h != 0 && !old(self)@.live.contains_key(h) ==> final(self)@ == old(self)@ && *final(error) == INVALID_OPERATION && cap_err == t.spec_version_err(
                        *gl_version,
                    ))
                    &&& (h != 0 && old(self)@.live.contains_key(h) ==> ({
                        &&& (BufferUsage::spec_from_gl(usage) is None ==> final(self)@ == old(self)@ && *final(error) == INVALID_ENUM && cap_err == t.spec_version_err(
                            *gl_version,
                        ))
                        &&& (match BufferUsage::spec_from_gl(usage) {
                            Some(u) => ({
                                &&& cap_err == (t.spec_version_err(*gl_version)
                                    || u.spec_version_err(*gl_version))
                                &&& (size < 0 ==> final(self)@ == old(self)@ && *final(error)
                                    == INVALID_VALUE)
                                &&& (size >= 0 && data is None ==> final(self)@ == commit_store(
                                    old(self)@,
                                    h,
                                    u,
                                    zero_bytes(size as nat),
                                ) && *final(error) == *old(error))
                                &&& (size >= 0 && data is Some ==> final(self)@ == commit_store(
                                    old(self)@,
                                    h,
                                    u,
                                    data->Some_0@,
                                ) && *final(error) == *old(error))
                            }),
                            None => true,
                        })
                    }))
                }),
                None => true,
            }),
    {
        let t = match BufferBinding::from_gl(target) {
            None => {
                *error = INVALID_ENUM;
                return false;
            },
            Some(t) => t,
        };
        let target_err = t.check_version(gl_version);
        let buffer_id = self.bound_buffers[t.index()];
        if buffer_id == 0 {
            *error = INVALID_OPERATION;
            return target_err;
        }
        if self.find_active(buffer_id).is_none() {
            // A stale binding: the bound handle is no longer live. A bind
            // overwrites rather than appends, so deleting a handle clears
            // only the first target holding it; a handle bound to two
            // targets at once can leave the later one stale.
            *error = INVALID_OPERATION;
            return target_err;
        }
        let usage_err = self.buffer_data(gl_version, error, buffer_id, size, data, usage);
        target_err || usage_err
    }

    /// Commits data to a handle directly: the handle must be live
    /// (invalid-operation otherwise); then its store is replaced as
    /// `buffer_data` describes.
    pub fn buffer_data_named(
        &mut self,
        gl_version: &GlVersion,
        error: &mut u32,
        buffer_id: u32,
        size: isize,
        data: Option<&[u8]>,
        usage: u32,
    ) -> (cap_err: bool)
        requires
            old(self).wf(),
            size >= 0 && data is Some ==> data->Some_0@.len() == size,
        ensures
            final(self).wf(),
            !old(self)@.live.contains_key(buffer_id) ==> final(self)@ == old(self)@ && *final(error) == INVALID_OPERATION && !cap_err,
            old(self)@.live.contains_key(buffer_id) ==> ({
                &&& (BufferUsage::spec_from_gl(usage) is None ==> final(self)@ == old(self)@
                    && *final(error) == INVALID_ENUM && !cap_err)
                &&& (match BufferUsage::spec_from_gl(usage) {
                    Some(u) => ({
                        &&& cap_err == u.spec_version_err(*gl_version)
                        &&& (size < 0 ==> final(self)@ == old(self)@ && *final(error)
                            == INVALID_VALUE)
                        &&& (size >= 0 && data is None ==> final(self)@ == commit_store(
                            old(self)@,
                            buffer_id,
                            u,
                            zero_bytes(size as nat),
                        ) && *final(error) == *old(error))
                        &&& (size >= 0 && data is Some ==> final(self)@ == commit_store(
                            old(self)@,
                            buffer_id,
                            u,
                            data->Some_0@,
                        ) && *final(error) == *old(error))
                    }),
                    None => true,
                })
            }),
    {
        if self.find_active(buffer_id).is_none() {
            *error = INVALID_OPERATION;
            return false;
        }
        self.buffer_data(gl_version, error, buffer_id, size, data, usage)
    }

    /// Answers an integer-state query: a recognized binding-point query
    /// reads the target's current binding (with a capability condition if
    /// the version does not recognize the target); any other query key
    /// produces nothing, for the caller to record invalid-enum.
    pub fn get_int(&self, gl_version: &GlVersion, pname: u32) -> (r: (Option<i32>, bool))
        requires
            self.wf(),
        ensures
            BufferBinding::spec_from_query(pname) is None ==> r.0 is None && !r.1,
            (match BufferBinding::spec_from_query(pname) {
                Some(t) => r.0 == Some(self@.bound[t.spec_index()] as i32) && r.1
                    == t.spec_version_err(*gl_version),
                None => true,
            }),
    {
        match BufferBinding::from_query(pname) {
            None => (None, false),
            Some(t) => {
                let cap_err = t.check_version(gl_version);
                #[verifier::truncate]
                let v = self.bound_buffers[t.index()] as i32;
                (Some(v), cap_err)
            },
        }
    }

    /// The live set: every handle issued and not yet deleted, in issue
    /// order. Used by the context's teardown leak check.
    pub fn leaked(&self) -> (r: Vec<u32>)
        requires
            self.wf(),
        ensures
            forall|k: u32| #[trigger] r@.contains(k) <==> self@.live.contains_key(k),
            forall|i: int, j: int| 0 <= i < j < r@.len() ==> #[trigger] r@[i] < #[trigger] r@[j],
            (r@.len() == 0 <==> self@.live =~= Map::<u32, Option<BufView>>::empty()),
    {
        let mut r: Vec<u32> = Vec::new();
        let mut i: usize = 0;
        while i < self.active_buffers.len()
            invariant
                0 <= i <= self.active_buffers@.len(),
                r@.len() == i,
                forall|j: int| 0 <= j < i ==> #[trigger] r@[j] == self.active_buffers@[j].id,
            decreases self.active_buffers@.len() - i,
        {
            r.push(self.active_buffers[i].id);
            i += 1;
        }
        proof {
            assert forall|k: u32| #[trigger] r@.contains(k) implies self@.live.contains_key(k) by {
                let j = choose|j: int| 0 <= j < r@.len() && r@[j] == k;
                lemma_entries_map_contains(self.active_buffers@, k);
            }
            assert forall|k: u32| self@.live.contains_key(k) implies #[trigger] r@.contains(k) by {
                lemma_entries_map_contains(self.active_buffers@, k);
                let j = choose|j: int|
                    0 <= j < self.active_buffers@.len() && self.active_buffers@[j].id == k;
                assert(r@[j] == k);
            }
            if r@.len() == 0 {
                assert forall|k: u32| !self@.live.contains_key(k) by {
                    lemma_entries_map_contains(self.active_buffers@, k);
                }
                assert(self@.live =~= Map::<u32, Option<BufView>>::empty());
            } else {
                assert(r@.contains(r@[0]));
            }
        }
        r
    }

    /// Consumes the subsystem at teardown, handing back the handles still
    /// live; a nonempty result is the dangling-resource condition.
    pub fn finalize(self) -> (leaked: Vec<u32>)
        requires
            self.wf(),
        ensures
            forall|k: u32| #[trigger] leaked@.contains(k) <==> self@.live.contains_key(k),
            forall|i: int, j: int|
                0 <= i < j < leaked@.len() ==> #[trigger] leaked@[i] < #[trigger] leaked@[j],
            (leaked@.len() == 0 <==> self@.live =~= Map::<u32, Option<BufView>>::empty()),
    {
        self.leaked()
    }
}

} // verus!
