//! The tiered buffer pool: small and medium slots are pre-allocated and
//! recycled, large buffers are tracked individually, and the sum of
//! outstanding bytes never passes the pool's budget.
use vstd::prelude::*;
use crate::error::ZipError;

verus! {

/// A byte buffer on loan from the pool.
#[derive(Debug, Clone)]
pub enum Buffer {
    /// A small-tier buffer.
    Small(Vec<u8>),
    /// A medium-tier buffer.
    Medium(Vec<u8>),
    /// A large buffer, tracked in the pool under this ticket.
    Large(usize),
}

/// The bytes a small or medium buffer holds.
pub open spec fn buf_bytes(b: Buffer) -> Seq<u8> {
    match b {
        Buffer::Small(v) => v@,
        Buffer::Medium(v) => v@,
        Buffer::Large(_) => Seq::empty(),
    }
}

impl Buffer {
    /// Read access to the buffer's bytes. Large buffers live in the
    /// pool and are not read through this handle.
    pub fn as_slice(&self) -> (r: &[u8])
        requires
            !(self is Large),
        ensures
            r@ == buf_bytes(*self),
    {
        match self {
            Buffer::Small(v) => v.as_slice(),
            Buffer::Medium(v) => v.as_slice(),
            Buffer::Large(_) => unreached(),
        }
    }

    /// Write access to the buffer's bytes; handed out as the owning
    /// vector, which derefs to the slice.
    pub fn as_mut_slice(&mut self) -> (r: &mut Vec<u8>)
        requires
            !(*old(self) is Large),
        ensures
            r@ == buf_bytes(*old(self)),
            buf_bytes(*final(self)) == final(r)@,
            *old(self) is Small ==> *final(self) is Small,
            *old(self) is Medium ==> *final(self) is Medium,
    {
        match self {
            Buffer::Small(v) => v,
            Buffer::Medium(v) => v,
            Buffer::Large(_) => unreached(),
        }
    }

    /// Replaces the buffer's contents with a copy of `data`.
    pub fn copy_from_slice(&mut self, data: &[u8])
        requires
            !(*old(self) is Large),
        ensures
            buf_bytes(*final(self)) == data@,
            *old(self) is Small ==> *final(self) is Small,
            *old(self) is Medium ==> *final(self) is Medium,
    {
        match self {
            Buffer::Small(v) => {
                v.clear();
                v.extend_from_slice(data);
                proof {
                    assert(v@ =~= data@);
                }
            },
            Buffer::Medium(v) => {
                v.clear();
                v.extend_from_slice(data);
                proof {
                    assert(v@ =~= data@);
                }
            },
            Buffer::Large(_) => {
                unreached()
            },
        }
    }

    /// Checks that the buffer still has usable backing memory: a small
    /// or medium buffer must hold bytes, and a bare large ticket cannot
    /// be validated away from its pool.
    pub fn validate_memory(&self) -> (r: Result<(), ZipError>)
        ensures
            match *self {
                Buffer::Small(v) => r is Ok <==> v@.len() > 0,
                Buffer::Medium(v) => r is Ok <==> v@.len() > 0,
                Buffer::Large(_) => r is Err,
            },
    {
        match self {
            Buffer::Small(v) => {
                if v.len() == 0 {
                    Err(ZipError::Memory("zero capacity buffer".to_owned()))
                } else {
                    Ok(())
                }
            },
            Buffer::Medium(v) => {
                if v.len() == 0 {
                    Err(ZipError::Memory("zero capacity buffer".to_owned()))
                } else {
                    Ok(())
                }
            },
            Buffer::Large(_) => Err(ZipError::Memory("buffer pool not initialized".to_owned())),
        }
    }
}

/// Tier sizes and slot counts for a pool.
#[derive(Debug, Clone)]
pub struct BufferConfig {
    /// Bytes per small buffer.
    pub small_size: usize,
    /// Bytes per medium buffer.
    pub medium_size: usize,
    /// Small slots.
    pub small_count: usize,
    /// Medium slots.
    pub medium_count: usize,
}

impl Default for BufferConfig {
    /// Sixty-four KiB small buffers and one MiB medium buffers.
    fn default() -> (c: BufferConfig)
        ensures
            c.small_size == 65536,
            c.medium_size == 1048576,
            c.small_count == 32,
            c.medium_count == 16,
    {
        BufferConfig { small_size: 65536, medium_size: 1048576, small_count: 32, medium_count: 16 }
    }
}

/// The tiered pool itself.
#[derive(Debug)]
pub struct BufferPool {
    /// Free small buffers.
    pub small_pool: Vec<Vec<u8>>,
    /// Free medium buffers.
    pub medium_pool: Vec<Vec<u8>>,
    /// Outstanding large buffers: ticket and size.
    pub large: Vec<(usize, usize)>,
    /// The tier layout.
    pub config: BufferConfig,
    /// Next large-buffer ticket.
    pub next_map_id: usize,
    /// Bytes currently on loan, every tier counted.
    pub outstanding: usize,
    /// The cap on `outstanding`.
    pub budget: usize,
}

impl BufferPool {
    /// Bytes currently on loan.
    pub fn outstanding(&self) -> (r: usize)
        ensures
            r == self.outstanding,
    {
        self.outstanding
    }

    /// The pool's total-bytes budget.
    pub fn budget(&self) -> (r: usize)
        ensures
            r == self.budget,
    {
        self.budget
    }

    /// Bytes sitting free in the recycled tiers.
    pub open spec fn pooled_bytes(&self) -> int {
        self.small_pool@.len() * self.config.small_size + self.medium_pool@.len()
            * self.config.medium_size
    }

    /// The pool's accounting invariant: what is on loan plus what sits
    /// free in the slots never passes the budget — so outstanding bytes
    /// alone never do either.
    pub open spec fn wf(&self) -> bool {
        &&& self.outstanding + self.small_pool@.len() * self.config.small_size
            + self.medium_pool@.len() * self.config.medium_size <= self.budget
        &&& self.config.small_size <= self.config.medium_size
        &&& forall|i: int|
            0 <= i < self.small_pool@.len() ==> (#[trigger] self.small_pool@[i])@.len()
                == self.config.small_size
        &&& forall|i: int|
            0 <= i < self.medium_pool@.len() ==> (#[trigger] self.medium_pool@[i])@.len()
                == self.config.medium_size
    }

    /// Builds a pool with every slot pre-allocated; the budget is the
    /// total capacity of the two recycled tiers, leaving no headroom
    /// for the large tier.
    pub fn new(config: BufferConfig) -> (r: Result<BufferPool, ZipError>)
        requires
            config.small_size <= config.medium_size,
            config.small_size * config.small_count + config.medium_size * config.medium_count
                <= usize::MAX,
        ensures
            (r matches Ok(p) ==> {
                &&& p.wf()
                &&& p.outstanding == 0
                &&& p.budget == config.small_size * config.small_count + config.medium_size
                    * config.medium_count
                &&& p.config == config
                &&& p.small_pool@.len() == config.small_count
                &&& p.medium_pool@.len() == config.medium_count
                &&& p.large@ == Seq::<(usize, usize)>::empty()
                &&& p.next_map_id == 0
            }),
            r is Ok,
    {
        let budget = config.small_size * config.small_count + config.medium_size
            * config.medium_count;
        BufferPool::with_budget(config, budget)
    }

    /// Builds a pool under an explicit total-bytes budget, the run's
    /// memory cap; what the budget leaves above the recycled tiers is
    /// headroom for large buffers.
    pub fn with_budget(config: BufferConfig, budget: usize) -> (r: Result<BufferPool, ZipError>)
        requires
            config.small_size <= config.medium_size,
            config.small_size * config.small_count + config.medium_size * config.medium_count
                <= budget,
        ensures
            (r matches Ok(p) ==> {
                &&& p.wf()
                &&& p.outstanding == 0
                &&& p.budget == budget
                &&& p.config == config
                &&& p.small_pool@.len() == config.small_count
                &&& p.medium_pool@.len() == config.medium_count
                &&& p.large@ == Seq::<(usize, usize)>::empty()
                &&& p.next_map_id == 0
            }),
            r is Ok,
    {
        let mut small_pool: Vec<Vec<u8>> = Vec::new();
        let mut i: usize = 0;
        while i < config.small_count
            invariant
                0 <= i <= config.small_count,
                small_pool@.len() == i,
                config.small_size * config.small_count + config.medium_size * config.medium_count
                    <= usize::MAX,
                forall|j: int|
                    0 <= j < small_pool@.len() ==> (#[trigger] small_pool@[j])@.len()
                        == config.small_size,
            decreases config.small_count - i,
        {
            small_pool.push(vec![0u8; config.small_size]);
            i = i + 1;
        }
        let mut medium_pool: Vec<Vec<u8>> = Vec::new();
        let mut j: usize = 0;
        while j < config.medium_count
            invariant
                0 <= j <= config.medium_count,
                medium_pool@.len() == j,
                config.small_size * config.small_count + config.medium_size * config.medium_count
                    <= usize::MAX,
                forall|k: int|
                    0 <= k < medium_pool@.len() ==> (#[trigger] medium_pool@[k])@.len()
                        == config.medium_size,
            decreases config.medium_count - j,
        {
            medium_pool.push(vec![0u8; config.medium_size]);
            j = j + 1;
        }
        proof {
            assert(small_pool@.len() * config.small_size == config.small_size * config.small_count)
                by (nonlinear_arith)
                requires
                    small_pool@.len() == config.small_count,
            ;
            assert(medium_pool@.len() * config.medium_size == config.medium_size
                * config.medium_count) by (nonlinear_arith)
                requires
                    medium_pool@.len() == config.medium_count,
            ;
        }
        let large: Vec<(usize, usize)> = Vec::new();
        proof {
            assert(large@ =~= Seq::<(usize, usize)>::empty());
        }
        Ok(
            BufferPool {
                small_pool,
                medium_pool,
                large,
                config,
                next_map_id: 0,
                outstanding: 0,
                budget,
            },
        )
    }

    /// The dispatcher's backpressure rule: new work is admitted only
    /// while the pool's free budget exceeds one medium-tier buffer.
    pub fn can_admit(&self) -> (r: bool)
        ensures
            r == (self.budget - self.outstanding > self.config.medium_size),
    {
        self.outstanding < self.budget && self.budget - self.outstanding
            > self.config.medium_size
    }

    /// Hands out a buffer from the smallest tier that can hold `size`
    /// bytes, within budget; outstanding bytes never pass the budget.
    pub fn acquire(&mut self, size: usize) -> (r: Result<Buffer, ZipError>)
        requires
            old(self).wf(),
        ensures
            final(self).wf(),
            final(self).budget == old(self).budget,
            final(self).config == old(self).config,
            // The memory bound: what is on loan stays within budget.
            final(self).outstanding <= final(self).budget,
            (r matches Ok(b) ==> match b {
                Buffer::Small(v) => {
                    &&& size <= old(self).config.small_size
                    &&& v@.len() == old(self).config.small_size
                    &&& final(self).outstanding == old(self).outstanding
                        + old(self).config.small_size
                    &&& final(self).small_pool@ == old(self).small_pool@.drop_last()
                    &&& final(self).medium_pool@ == old(self).medium_pool@
                    &&& final(self).large@ == old(self).large@
                    &&& final(self).next_map_id == old(self).next_map_id
                },
                Buffer::Medium(v) => {
                    &&& old(self).config.small_size < size
                    &&& size <= old(self).config.medium_size
                    &&& v@.len() == old(self).config.medium_size
                    &&& final(self).outstanding == old(self).outstanding
                        + old(self).config.medium_size
                    &&& final(self).medium_pool@ == old(self).medium_pool@.drop_last()
                    &&& final(self).small_pool@ == old(self).small_pool@
                    &&& final(self).large@ == old(self).large@
                    &&& final(self).next_map_id == old(self).next_map_id
                },
                Buffer::Large(id) => {
                    &&& old(self).config.medium_size < size
                    &&& final(self).outstanding == old(self).outstanding + size
                    &&& id == old(self).next_map_id
                    &&& final(self).large@ == old(self).large@.push(
                        (old(self).next_map_id, size),
                    )
                    &&& final(self).next_map_id == old(self).next_map_id + 1
                    &&& final(self).small_pool@ == old(self).small_pool@
                    &&& final(self).medium_pool@ == old(self).medium_pool@
                },
            }),
            r is Err ==> {
                &&& final(self).outstanding == old(self).outstanding
                &&& final(self).small_pool@ == old(self).small_pool@
                &&& final(self).medium_pool@ == old(self).medium_pool@
                &&& final(self).large@ == old(self).large@
                &&& final(self).next_map_id == old(self).next_map_id
            },
            size <= old(self).config.small_size ==> ((r is Err <==> old(self).small_pool@.len()
                == 0) && (r is Err ==> r matches Err(ZipError::NoBufferAvailable))),
            (old(self).config.small_size < size && size <= old(self).config.medium_size) ==> ((
            r is Err <==> old(self).medium_pool@.len() == 0) && (r is Err ==> r matches Err(
                ZipError::NoBufferAvailable,
            ))),
            old(self).config.medium_size < size ==> (r is Err <==> (old(self).outstanding + old(
                self,
            ).pooled_bytes() + size > old(self).budget || old(self).next_map_id == usize::MAX)),
    {
        if size <= self.config.small_size {
            match self.small_pool.pop() {
                Some(v) => {
                    proof {
                        assert((self.small_pool@.len() + 1) * self.config.small_size
                            == self.small_pool@.len() * self.config.small_size
                            + self.config.small_size) by (nonlinear_arith);
                    }
                    self.outstanding = self.outstanding + self.config.small_size;
                    Ok(Buffer::Small(v))
                },
                None => Err(ZipError::NoBufferAvailable),
            }
        } else if size <= self.config.medium_size {
            match self.medium_pool.pop() {
                Some(v) => {
                    proof {
                        assert((self.medium_pool@.len() + 1) * self.config.medium_size
                            == self.medium_pool@.len() * self.config.medium_size
                            + self.config.medium_size) by (nonlinear_arith);
                    }
                    self.outstanding = self.outstanding + self.config.medium_size;
                    Ok(Buffer::Medium(v))
                },
                None => Err(ZipError::NoBufferAvailable),
            }
        } else {
            let pooled = self.small_pool.len() * self.config.small_size + self.medium_pool.len()
                * self.config.medium_size;
            if self.outstanding + pooled > self.budget || self.budget - self.outstanding - pooled
                < size {
                return Err(ZipError::MemoryLimit("buffer budget exceeded".to_owned()));
            }
            if self.next_map_id == usize::MAX {
                return Err(ZipError::Memory("buffer tickets exhausted".to_owned()));
            }
            let id = self.next_map_id;
            self.next_map_id = self.next_map_id + 1;
            self.large.push((id, size));
            self.outstanding = self.outstanding + size;
            proof {
                assert(self.outstanding + self.small_pool@.len() * self.config.small_size
                    + self.medium_pool@.len() * self.config.medium_size <= self.budget);
            }
            Ok(Buffer::Large(id))
        }
    }

    /// Takes a buffer back, consuming the lease, so a lease cannot be
    /// returned twice. A fresh zeroed slot replaces a small or medium
    /// buffer in its tier (unless the tier is full) and the bytes come
    /// off the loan count; a large buffer is reclaimed by its ticket.
    pub fn release(&mut self, buffer: Buffer)
        requires
            old(self).wf(),
            buffer is Small ==> old(self).outstanding >= old(self).config.small_size,
            buffer is Medium ==> old(self).outstanding >= old(self).config.medium_size,
        ensures
            final(self).wf(),
            final(self).budget == old(self).budget,
            final(self).config == old(self).config,
            buffer is Small ==> {
                &&& final(self).outstanding == old(self).outstanding - old(
                    self,
                ).config.small_size
                &&& final(self).small_pool@.len() == (if old(self).small_pool@.len() < old(
                    self,
                ).config.small_count {
                    old(self).small_pool@.len() + 1int
                } else {
                    old(self).small_pool@.len() as int
                })
                &&& (old(self).small_pool@.len() < old(self).config.small_count ==> {
                    let fresh = (final(self).small_pool@.last())@;
                    &&& final(self).small_pool@.drop_last() == old(self).small_pool@
                    &&& forall|k: int| 0 <= k < fresh.len() ==> fresh[k] == 0
                })
                &&& final(self).medium_pool@ == old(self).medium_pool@
                &&& final(self).large@ == old(self).large@
                &&& final(self).next_map_id == old(self).next_map_id
            },
            buffer is Medium ==> {
                &&& final(self).outstanding == old(self).outstanding - old(
                    self,
                ).config.medium_size
                &&& final(self).medium_pool@.len() == (if old(self).medium_pool@.len() < old(
                    self,
                ).config.medium_count {
                    old(self).medium_pool@.len() + 1int
                } else {
                    old(self).medium_pool@.len() as int
                })
                &&& (old(self).medium_pool@.len() < old(self).config.medium_count ==> {
                    let fresh = (final(self).medium_pool@.last())@;
                    &&& final(self).medium_pool@.drop_last() == old(self).medium_pool@
                    &&& forall|k: int| 0 <= k < fresh.len() ==> fresh[k] == 0
                })
                &&& final(self).small_pool@ == old(self).small_pool@
                &&& final(self).large@ == old(self).large@
                &&& final(self).next_map_id == old(self).next_map_id
            },
            (buffer matches Buffer::Large(id) ==> released_large(*old(self), *final(self), id)),
    {
        match buffer {
            Buffer::Small(_) => {
                self.outstanding = self.outstanding - self.config.small_size;
                if self.small_pool.len() < self.config.small_count {
                    proof {
                        assert((self.small_pool@.len() + 1) * self.config.small_size
                            == self.small_pool@.len() * self.config.small_size
                            + self.config.small_size) by (nonlinear_arith);
                    }
                    self.small_pool.push(vec![0u8; self.config.small_size]);
                    proof {
                        assert(self.small_pool@.drop_last() =~= old(self).small_pool@);
                    }
                }
            },
            Buffer::Medium(_) => {
                self.outstanding = self.outstanding - self.config.medium_size;
                if self.medium_pool.len() < self.config.medium_count {
                    proof {
                        assert((self.medium_pool@.len() + 1) * self.config.medium_size
                            == self.medium_pool@.len() * self.config.medium_size
                            + self.config.medium_size) by (nonlinear_arith);
                    }
                    self.medium_pool.push(vec![0u8; self.config.medium_size]);
                    proof {
                        assert(self.medium_pool@.drop_last() =~= old(self).medium_pool@);
                    }
                }
            },
            Buffer::Large(id) => {
                self.release_large_buffer(id);
            },
        }
    }

    /// Takes a large buffer back by ticket: the first matching ticket
    /// is removed and its bytes come off the loan count; an unknown
    /// ticket changes nothing, so returning a ticket twice is harmless.
    pub fn release_large_buffer(&mut self, id: usize)
        requires
            old(self).wf(),
        ensures
            final(self).wf(),
            released_large(*old(self), *final(self), id),
    {
        let mut i: usize = 0;
        while i < self.large.len()
            invariant
                *self == *old(self),
                old(self).wf(),
                0 <= i <= self.large@.len(),
                forall|k: int| 0 <= k < i ==> (#[trigger] self.large@[k]).0 != id,
            decreases self.large@.len() - i,
        {
            if self.large[i].0 == id {
                proof {
                    lemma_large_find_props(self.large@, id);
                    assert(large_find(self.large@, id) == i as int);
                }
                let size = self.large[i].1;
                self.large.remove(i);
                if size <= self.outstanding {
                    self.outstanding = self.outstanding - size;
                } else {
                    self.outstanding = 0;
                }
                return ;
            }
            i = i + 1;
        }
        proof {
            lemma_large_find_props(self.large@, id);
        }
    }
}

/// What releasing the large ticket `id` does to the pool: the first
/// ticket carrying `id` leaves and its size comes off the loan count
/// (never below zero); with no such ticket the pool stands unchanged.
/// The recycled tiers, the budget, the layout and the ticket counter
/// are untouched either way.
pub open spec fn released_large(p0: BufferPool, p1: BufferPool, id: usize) -> bool {
    &&& p1.budget == p0.budget
    &&& p1.config == p0.config
    &&& p1.small_pool@ == p0.small_pool@
    &&& p1.medium_pool@ == p0.medium_pool@
    &&& p1.next_map_id == p0.next_map_id
    &&& (large_find(p0.large@, id) == p0.large@.len() ==> (p1.large@ == p0.large@
        && p1.outstanding == p0.outstanding))
    &&& (large_find(p0.large@, id) < p0.large@.len() ==> {
        let j = large_find(p0.large@, id);
        &&& p1.large@ == p0.large@.remove(j)
        &&& p1.outstanding == (if p0.large@[j].1 <= p0.outstanding {
            p0.outstanding - p0.large@[j].1
        } else {
            0int
        })
    })
}

/// The index of the first ticket carrying `id`; the length where none
/// does.
pub open spec fn large_find(ls: Seq<(usize, usize)>, id: usize) -> int
    decreases ls.len(),
{
    if ls.len() == 0 {
        0
    } else if ls[0].0 == id {
        0
    } else {
        1 + large_find(ls.drop_first(), id)
    }
}

/// The defining facts of `large_find`: it stays in range, lands on a
/// matching ticket when one exists, and nothing before it matches.
pub proof fn lemma_large_find_props(ls: Seq<(usize, usize)>, id: usize)
    ensures
        0 <= large_find(ls, id) <= ls.len(),
        large_find(ls, id) < ls.len() ==> ls[large_find(ls, id)].0 == id,
        forall|k: int| 0 <= k < large_find(ls, id) ==> (#[trigger] ls[k]).0 != id,
        (large_find(ls, id) == ls.len() <==> forall|k: int|
            0 <= k < ls.len() ==> (#[trigger] ls[k]).0 != id),
    decreases ls.len(),
{
    if ls.len() == 0 {
    } else if ls[0].0 == id {
    } else {
        lemma_large_find_props(ls.drop_first(), id);
        assert forall|k: int|
            0 <= k < large_find(ls, id) implies (#[trigger] ls[k]).0 != id by {
            if k > 0 {
                assert(ls[k] == ls.drop_first()[k - 1]);
            }
        }
        if large_find(ls, id) == ls.len() {
            assert forall|k: int|
                0 <= k < ls.len() implies (#[trigger] ls[k]).0 != id by {
                if k > 0 {
                    assert(ls[k] == ls.drop_first()[k - 1]);
                }
            }
        }
        if forall|k: int| 0 <= k < ls.len() ==> (#[trigger] ls[k]).0 != id {
            assert forall|k: int|
                0 <= k < ls.drop_first().len() implies (#[trigger] ls.drop_first()[k]).0
                != id by {
                assert(ls.drop_first()[k] == ls[k + 1]);
            }
            assert(large_find(ls.drop_first(), id) == ls.drop_first().len());
        }
    }
}

} // verus!

