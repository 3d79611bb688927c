use vstd::prelude::*;
use std::collections::HashMap;
use crate::accumulator::{AccessResult, MissRatioAccumulator};
use crate::profile::{ConfigurationError, LeaseProfile};

verus! {

broadcast use vstd::std_specs::hash::group_hash_axioms;

/// An access `(tag, object)`: the tag is a reference id in a trace, and a lease
/// once the access is handed to the eviction engine.
#[derive(Debug, Clone, Copy, PartialEq, Eq)]
pub struct TaggedObjectId<Tag, Obj>(pub Tag, pub Obj);

/// One access as the engine received it, with the verdict it gave.
pub type EngineEntry<Obj> = (TaggedObjectId<usize, Obj>, AccessResult);

/// A lease-based eviction engine: it takes an object together with the lease
/// assigned to this access and decides whether the access hits. Its model is
/// the log of the accesses it has handled, each with its verdict, and the
/// capacity it was last given. An engine checked by Verus defines both; the
/// default bodies only let engines written in plain Rust leave them out.
pub trait LeaseEngine<Obj> {
    open spec fn log(&self) -> Seq<EngineEntry<Obj>> {
        Seq::empty()
    }

    open spec fn capacity(&self) -> usize {
        0
    }

    /// Handles one access and reports whether it hit.
    fn cache_access(&mut self, access: TaggedObjectId<usize, Obj>) -> (r: AccessResult)
        ensures
            final(self).log() == old(self).log().push((access, r)),
            final(self).capacity() == old(self).capacity(),
    ;

    /// Sets the number of objects the engine may hold.
    fn set_capacity(&mut self, cache_size: usize)
        ensures
            final(self).log() == old(self).log(),
            final(self).capacity() == cache_size,
    ;
}

/// A trace access whose reference has no lease profile.
#[derive(Debug, Clone, Copy, PartialEq, Eq, Structural)]
pub struct UnknownReferenceError {
    pub reference: u64,
    /// Position of the access in the trace.
    pub index: usize,
}

/// Every reference of `trace[..n]` has a profile in `table`.
pub open spec fn all_known<Obj>(
    table: Map<u64, LeaseProfile>,
    trace: Seq<TaggedObjectId<u64, Obj>>,
    n: int,
) -> bool {
    forall|j: int| 0 <= j < n ==> #[trigger] table.contains_key(trace[j].0)
}

/// Each draw lies in `[0, short_den)` of the profile of its trace access.
pub open spec fn draws_fit<Obj>(
    table: Map<u64, LeaseProfile>,
    trace: Seq<TaggedObjectId<u64, Obj>>,
    draws: Seq<u64>,
) -> bool {
    &&& draws.len() == trace.len()
    &&& forall|k: int|
        0 <= k < trace.len() && #[trigger] table.contains_key(trace[k].0) ==> draws[k]
            < table[trace[k].0].short_den_spec()
}

/// `after` is `before` followed by `n` more entries.
pub open spec fn extends<Obj>(before: Seq<EngineEntry<Obj>>, after: Seq<EngineEntry<Obj>>, n: int) -> bool {
    &&& after.len() == before.len() + n
    &&& after.subrange(0, before.len() as int) == before
}

/// The entries that `after` adds to `before`.
pub open spec fn added<Obj>(before: Seq<EngineEntry<Obj>>, after: Seq<EngineEntry<Obj>>) -> Seq<
    EngineEntry<Obj>,
> {
    after.subrange(before.len() as int, after.len() as int)
}

/// The number of entries whose verdict is a miss.
pub open spec fn count_misses<Obj>(entries: Seq<EngineEntry<Obj>>) -> nat
    decreases entries.len(),
{
    if entries.len() == 0 {
        0
    } else {
        count_misses(entries.drop_last()) + if entries.last().1 == AccessResult::Miss {
            1nat
        } else {
            0nat
        }
    }
}

/// Assigns each access a lease sampled from its reference's profile and hands
/// it to the eviction engine `cache`.
pub struct ClamCache<E> {
    pub cache: E,
    pub lease_table: HashMap<u64, LeaseProfile>,
}

impl<E> ClamCache<E> {
    pub fn new(cache: E, lease_table: HashMap<u64, LeaseProfile>) -> (r: ClamCache<E>)
        ensures
            r.cache == cache,
            r.lease_table@ == lease_table@,
    {
        ClamCache { cache, lease_table }
    }

    /// Samples a lease from the profile of `reference`; `None` when it has none.
    pub fn sample_lease(&mut self, reference: u64) -> (r: Option<usize>)
        ensures
            *final(self) == *old(self),
            r is None <==> !old(self).lease_table@.contains_key(reference),
            r matches Some(lease) ==> {
                let p = old(self).lease_table@[reference];
                &&& p.may_select(lease)
                &&& lease == p.short_lease_spec() || lease == p.long_lease_spec()
                &&& p.short_num_spec() == p.short_den_spec() ==> lease == p.short_lease_spec()
                &&& p.short_num_spec() == 0 ==> lease == p.long_lease_spec()
            },
    {
        match self.lease_table.get(&reference) {
            Some(p) => Some(p.sample()),
            None => None,
        }
    }

    /// The access that goes to the engine: the object of `access`, with a lease
    /// sampled from the profile of its reference.
    pub fn annotate<Obj: Copy>(&self, access: TaggedObjectId<u64, Obj>) -> (r: Option<
        TaggedObjectId<usize, Obj>,
    >)
        ensures
            r is None <==> !self.lease_table@.contains_key(access.0),
            r matches Some(a) ==> {
                let p = self.lease_table@[access.0];
                &&& a.1 == access.1
                &&& p.may_select(a.0)
                &&& p.short_num_spec() == p.short_den_spec() ==> a.0 == p.short_lease_spec()
                &&& p.short_num_spec() == 0 ==> a.0 == p.long_lease_spec()
            },
    {
        let TaggedObjectId(reference, object) = access;
        match self.lease_table.get(&reference) {
            Some(p) => Some(TaggedObjectId(p.sample(), object)),
            None => None,
        }
    }

    /// Hands the engine the object of `access` with the lease that `draw` selects
    /// from the profile of its reference, and returns the engine's verdict; `None`,
    /// with nothing handed over, when the reference has no profile.
    pub fn cache_access_with_draw<Obj: Copy>(
        &mut self,
        access: TaggedObjectId<u64, Obj>,
        draw: u64,
    ) -> (r: Option<AccessResult>) where E: LeaseEngine<Obj>
        requires
            old(self).lease_table@.contains_key(access.0) ==> draw < old(
                self,
            ).lease_table@[access.0].short_den_spec(),
        ensures
            final(self).lease_table@ == old(self).lease_table@,
            final(self).cache.capacity() == old(self).cache.capacity(),
            r is None <==> !old(self).lease_table@.contains_key(access.0),
            r is None ==> *final(self) == *old(self),
            r matches Some(v) ==> final(self).cache.log() == old(self).cache.log().push(
                (
                    TaggedObjectId(
                        old(self).lease_table@[access.0].lease_for_draw(draw as int),
                        access.1,
                    ),
                    v,
                ),
            ),
    {
        let TaggedObjectId(reference, object) = access;
        let lease = match self.lease_table.get(&reference) {
            Some(p) => p.choose_lease(draw),
            None => {
                return None;
            },
        };
        Some(self.cache.cache_access(TaggedObjectId(lease, object)))
    }

    /// Hands `access`, with a lease sampled from the profile of its reference, to
    /// the engine and returns its verdict; `None`, with nothing handed over, when
    /// the reference has no profile.
    pub fn cache_access<Obj: Copy>(&mut self, access: TaggedObjectId<u64, Obj>) -> (r: Option<
        AccessResult,
    >) where E: LeaseEngine<Obj>
        ensures
            final(self).lease_table@ == old(self).lease_table@,
            final(self).cache.capacity() == old(self).cache.capacity(),
            r is None <==> !old(self).lease_table@.contains_key(access.0),
            r is None ==> *final(self) == *old(self),
            r matches Some(v) ==> {
                let p = old(self).lease_table@[access.0];
                let a = final(self).cache.log().last().0;
                &&& final(self).cache.log() == old(self).cache.log().push((a, v))
                &&& a.1 == access.1
                &&& p.may_select(a.0)
                &&& p.short_num_spec() == p.short_den_spec() ==> a.0 == p.short_lease_spec()
                &&& p.short_num_spec() == 0 ==> a.0 == p.long_lease_spec()
            },
    {
        let draw = match self.lease_table.get(&access.0) {
            Some(p) => p.draw(),
            None => {
                return None;
            },
        };
        let ghost p = self.lease_table@[access.0];
        let r = self.cache_access_with_draw(access, draw);
        proof {
            assert(p.may_select(p.lease_for_draw(draw as int)));
        }
        r
    }

    /// Passes a positive capacity on to the engine.
    pub fn set_capacity<Obj>(&mut self, cache_size: usize) -> (r: Result<(), ConfigurationError>) where
        E: LeaseEngine<Obj>,
        ensures
            final(self).lease_table@ == old(self).lease_table@,
            final(self).cache.log() == old(self).cache.log(),
            r is Err <==> cache_size == 0,
            r is Err ==> r == Err::<(), ConfigurationError>(ConfigurationError::ZeroCapacity)
                && *final(self) == *old(self),
            r is Ok ==> final(self).cache.capacity() == cache_size,
    {
        if cache_size == 0 {
            return Err(ConfigurationError::ZeroCapacity);
        }
        self.cache.set_capacity(cache_size);
        Ok(())
    }

    /// The first access of `trace` whose reference has no profile, if any.
    pub fn first_unknown_reference<Obj>(&self, trace: &[TaggedObjectId<u64, Obj>]) -> (r: Option<
        UnknownReferenceError,
    >)
        ensures
            r is None <==> all_known(self.lease_table@, trace@, trace@.len() as int),
            r matches Some(e) ==> {
                &&& e.index < trace@.len()
                &&& e.reference == trace@[e.index as int].0
                &&& !self.lease_table@.contains_key(e.reference)
                &&& all_known(self.lease_table@, trace@, e.index as int)
            },
    {
        let mut i: usize = 0;
        while i < trace.len()
            invariant
                i <= trace@.len(),
                all_known(self.lease_table@, trace@, i as int),
            decreases trace@.len() - i,
        {
            let reference = trace[i].0;
            if !self.lease_table.contains_key(&reference) {
                return Some(UnknownReferenceError { reference, index: i });
            }
            i = i + 1;
        }
        None
    }

    /// Replays `trace` in order, handing the engine each access with the lease
    /// that the matching entry of `draws` selects, and counts accesses and misses.
    /// A trace with a reference that has no profile is refused as a whole, naming
    /// its first such access, before anything reaches the engine.
    pub fn get_mr_with_draws<Obj: Copy>(
        &mut self,
        trace: &[TaggedObjectId<u64, Obj>],
        draws: &[u64],
    ) -> (r: Result<MissRatioAccumulator, UnknownReferenceError>) where E: LeaseEngine<Obj>
        requires
            draws_fit(old(self).lease_table@, trace@, draws@),
        ensures
            final(self).lease_table@ == old(self).lease_table@,
            final(self).cache.capacity() == old(self).cache.capacity(),
            r is Err <==> !all_known(old(self).lease_table@, trace@, trace@.len() as int),
            r matches Err(e) ==> {
                &&& e.index < trace@.len()
                &&& e.reference == trace@[e.index as int].0
                &&& !old(self).lease_table@.contains_key(e.reference)
                &&& all_known(old(self).lease_table@, trace@, e.index as int)
                &&& *final(self) == *old(self)
            },
            trace@.len() == 0 ==> *final(self) == *old(self) && r == Ok::<
                MissRatioAccumulator,
                UnknownReferenceError,
            >((MissRatioAccumulator { total_accesses: 0, total_misses: 0 })),
            r matches Ok(acc) ==> {
                let log = added(old(self).cache.log(), final(self).cache.log());
                &&& acc.is_valid()
                &&& acc.total_accesses == trace@.len()
                &&& extends(old(self).cache.log(), final(self).cache.log(), trace@.len() as int)
                &&& forall|k: int|
                    0 <= k < trace@.len() ==> (#[trigger] log[k]).0 == TaggedObjectId(
                        old(self).lease_table@[trace@[k].0].lease_for_draw(draws@[k] as int),
                        trace@[k].1,
                    )
                &&& acc.total_misses == count_misses(log)
            },
    {
        if let Some(e) = self.first_unknown_reference(trace) {
            return Err(e);
        }
        let mut acc = MissRatioAccumulator::new();
        let ghost log0 = self.cache.log();
        proof {
            assert(log0.subrange(0, log0.len() as int) =~= log0);
            assert(added(log0, log0) =~= Seq::<EngineEntry<Obj>>::empty());
        }
        if trace.len() == 0 {
            return Ok(acc);
        }
        let ghost table = self.lease_table@;
        let ghost cap0 = self.cache.capacity();
        let mut i: usize = 0;
        while i < trace.len()
            invariant
                i <= trace@.len(),
                self.lease_table@ == table,
                self.cache.capacity() == cap0,
                all_known(table, trace@, trace@.len() as int),
                draws_fit(table, trace@, draws@),
                acc.is_valid(),
                acc.total_accesses == i,
                extends(log0, self.cache.log(), i as int),
                forall|k: int|
                    0 <= k < i ==> (#[trigger] added(log0, self.cache.log())[k]).0
                        == TaggedObjectId(
                        table[trace@[k].0].lease_for_draw(draws@[k] as int),
                        trace@[k].1,
                    ),
                acc.total_misses == count_misses(added(log0, self.cache.log())),
            decreases trace@.len() - i,
        {
            assert(table.contains_key(trace@[i as int].0));
            let ghost before = self.cache.log();
            match self.cache_access_with_draw(trace[i], draws[i]) {
                Some(v) => {
                    proof {
                        let after = self.cache.log();
                        let entry = after.last();
                        assert(after == before.push(entry));
                        assert(added(log0, after) =~= added(log0, before).push(entry));
                        assert(added(log0, after).drop_last() =~= added(log0, before));
                        assert(after.subrange(0, log0.len() as int) =~= log0);
                    }
                    acc.record(v);
                },
                None => {},
            }
            i = i + 1;
        }
        Ok(acc)
    }

    /// Replays `trace` in order through the engine, each access with a lease
    /// sampled from the profile of its reference, and counts accesses and misses.
    /// A trace with a reference that has no profile is refused as a whole, naming
    /// its first such access, before anything reaches the engine.
    pub fn get_mr<Obj: Copy>(&mut self, trace: &[TaggedObjectId<u64, Obj>]) -> (r: Result<
        MissRatioAccumulator,
        UnknownReferenceError,
    >) where E: LeaseEngine<Obj>
        ensures
            final(self).lease_table@ == old(self).lease_table@,
            final(self).cache.capacity() == old(self).cache.capacity(),
            r is Err <==> !all_known(old(self).lease_table@, trace@, trace@.len() as int),
            r matches Err(e) ==> {
                &&& e.index < trace@.len()
                &&& e.reference == trace@[e.index as int].0
                &&& !old(self).lease_table@.contains_key(e.reference)
                &&& all_known(old(self).lease_table@, trace@, e.index as int)
                &&& *final(self) == *old(self)
            },
            trace@.len() == 0 ==> *final(self) == *old(self) && r == Ok::<
                MissRatioAccumulator,
                UnknownReferenceError,
            >((MissRatioAccumulator { total_accesses: 0, total_misses: 0 })),
            r matches Ok(acc) ==> {
                let log = added(old(self).cache.log(), final(self).cache.log());
                &&& acc.is_valid()
                &&& acc.total_accesses == trace@.len()
                &&& extends(old(self).cache.log(), final(self).cache.log(), trace@.len() as int)
                &&& forall|k: int|
                    0 <= k < trace@.len() ==> (#[trigger] log[k]).0.1 == trace@[k].1
                        && old(self).lease_table@[trace@[k].0].may_select(log[k].0.0)
                &&& acc.total_misses == count_misses(log)
            },
    {
        if let Some(e) = self.first_unknown_reference(trace) {
            return Err(e);
        }
        let mut draws: Vec<u64> = Vec::new();
        let mut i: usize = 0;
        while i < trace.len()
            invariant
                i <= trace@.len(),
                draws@.len() == i,
                all_known(self.lease_table@, trace@, trace@.len() as int),
                forall|k: int|
                    0 <= k < i ==> #[trigger] draws@[k] < self.lease_table@[trace@[k].0].short_den_spec(),
            decreases trace@.len() - i,
        {
            assert(self.lease_table@.contains_key(trace@[i as int].0));
            match self.lease_table.get(&trace[i].0) {
                Some(p) => draws.push(p.draw()),
                None => {},
            }
            i = i + 1;
        }
        let ghost table = self.lease_table@;
        let ghost log0 = self.cache.log();
        let r = self.get_mr_with_draws(trace, draws.as_slice());
        proof {
            if r is Ok {
                let log = added(log0, self.cache.log());
                assert forall|k: int| 0 <= k < trace@.len() implies (#[trigger] log[k]).0.1
                    == trace@[k].1 && table[trace@[k].0].may_select(log[k].0.0) by {
                    assert(draws@[k] < table[trace@[k].0].short_den_spec());
                    assert(log[k].0.0 == table[trace@[k].0].lease_for_draw(draws@[k] as int));
                }
            }
        }
        r
    }
}

} // verus!
