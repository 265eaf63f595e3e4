//! The reader of a local resource: memory first, then disk. For a local
//! resource the disk is the source of truth: a file that belongs to the
//! resource and parses is fresh, whatever its age.

use std::sync::Arc;
use vstd::prelude::*;

use crate::base::{ResourceState, ResourceView};
use crate::time::{is_fresh, Timestamp};
use crate::traits::{
    failed, fresh, stale, DataResult, ReadOutcome, ResourceError, ResourceReader,
};
use crate::utilities::{first_file_value, parse_file, starts_with, DiskCandidate};

verus! {

/// Where a read stands after the memory tier was consulted.
#[derive(Debug)]
pub enum LocalStep<T> {
    /// Memory holds a fresh value: the read is over.
    Fresh(Arc<T>),
    /// Memory holds no fresh value, or the slot is marked stale: the disk is
    /// consulted next. The payload is the stale value of memory, if memory
    /// was consulted and holds one.
    ReadDisk { stale_memory: Option<Arc<T>> },
}

/// The first step of a read at `now`.
pub open spec fn local_begin<T>(resource: ResourceView<T>, now: int) -> LocalStep<T> {
    if resource.cache.is_stale {
        LocalStep::ReadDisk { stale_memory: None }
    } else {
        match resource.memory_probe(now) {
            Some((value, true, _)) => LocalStep::Fresh(value),
            Some((value, false, _)) => LocalStep::ReadDisk { stale_memory: Some(value) },
            None => LocalStep::ReadDisk { stale_memory: None },
        }
    }
}

/// The end of a read at `now`, after the files `candidates` were read: the
/// result, and the resource as it is left.
///
/// The value of the first file that belongs to the resource and was decoded
/// is installed in memory and handed back as fresh. Where no file yields a
/// value, the stale value of memory is handed back if there is one and the
/// caller allows it; else the read fails with `StaleInternalNone`.
pub open spec fn local_after_disk<T>(
    resource: ResourceView<T>,
    stale_memory: Option<Arc<T>>,
    candidates: Seq<DiskCandidate<T>>,
    allow_stale: bool,
    now: int,
) -> (ReadOutcome<T>, ResourceView<T>) {
    match first_file_value(candidates, resource.file_name, resource.file_type, 0) {
        Some(value) => (Ok(DataResult::Fresh(value)), resource.refreshed(value, now)),
        None => (
            match stale_memory {
                Some(value) if allow_stale => Ok(DataResult::Stale(value)),
                _ => Err(ResourceError::StaleInternalNone),
            },
            resource,
        ),
    }
}

/// One whole read of a local resource at `now`: the result, and the resource
/// as it is left.
pub open spec fn local_read<T>(
    resource: ResourceView<T>,
    allow_stale: bool,
    now: int,
    candidates: Seq<DiskCandidate<T>>,
) -> (ReadOutcome<T>, ResourceView<T>) {
    match local_begin(resource, now) {
        LocalStep::Fresh(value) => (Ok(DataResult::Fresh(value)), resource),
        LocalStep::ReadDisk { stale_memory } => local_after_disk(
            resource,
            stale_memory,
            candidates,
            allow_stale,
            now,
        ),
    }
}

/// A value in memory that is not marked stale is handed back as fresh, and
/// nothing changes, exactly while its age is below the time-to-live. From
/// that age on a read goes to the disk, and where the disk has nothing, the
/// value is handed back as stale if the caller allows it.
pub proof fn lemma_local_read_under_ttl<T>(
    resource: ResourceView<T>,
    value: Arc<T>,
    ttl: nat,
    allow_stale: bool,
    now: int,
    candidates: Seq<DiskCandidate<T>>,
)
    requires
        resource.cache.data == Some(value),
        !resource.cache.is_stale,
        resource.timeout == Some(ttl),
        now >= resource.cache.timestamp,
    ensures
        now - resource.cache.timestamp < ttl ==> local_read(resource, allow_stale, now, candidates)
            == (fresh(value), resource),
        now - resource.cache.timestamp >= ttl ==> local_read(resource, allow_stale, now, candidates)
            == local_after_disk(resource, Some(value), candidates, allow_stale, now),
        now - resource.cache.timestamp >= ttl && first_file_value(
            candidates,
            resource.file_name,
            resource.file_type,
            0,
        ) is None ==> local_read(resource, allow_stale, now, candidates) == (
            if allow_stale {
                stale(value)
            } else {
                failed(ResourceError::StaleInternalNone)
            },
            resource,
        ),
{
}

/// Without a time-to-live, a value in memory that is not marked stale is
/// handed back as fresh at every age, and nothing changes.
pub proof fn lemma_local_read_without_ttl<T>(
    resource: ResourceView<T>,
    value: Arc<T>,
    allow_stale: bool,
    now: int,
    candidates: Seq<DiskCandidate<T>>,
)
    requires
        resource.cache.data == Some(value),
        !resource.cache.is_stale,
        resource.timeout is None,
        now >= resource.cache.timestamp,
    ensures
        local_read(resource, allow_stale, now, candidates) == (fresh(value), resource),
{
}

/// Once the slot is marked stale, a read hands back nothing that memory
/// holds, whether the caller allows stale values or not: it hands back the
/// value of the disk, freshly installed, or fails with `StaleInternalNone`.
pub proof fn lemma_local_read_after_mark<T>(
    resource: ResourceView<T>,
    allow_stale: bool,
    now: int,
    candidates: Seq<DiskCandidate<T>>,
)
    ensures
        local_read(resource.marked_stale(), allow_stale, now, candidates) == (match first_file_value(
            candidates,
            resource.file_name,
            resource.file_type,
            0,
        ) {
            Some(value) => (fresh(value), resource.refreshed(value, now)),
            None => (failed(ResourceError::StaleInternalNone), resource.marked_stale()),
        }),
{
}

/// A read that installs a value clears the stale mark, and the next read
/// within the time-to-live hands the value back from memory, whatever the
/// disk holds by then.
pub proof fn lemma_local_read_again<T>(
    resource: ResourceView<T>,
    allow_stale: bool,
    now: int,
    candidates: Seq<DiskCandidate<T>>,
    later: int,
    later_candidates: Seq<DiskCandidate<T>>,
)
    requires
        local_begin(resource, now) is ReadDisk,
        first_file_value(candidates, resource.file_name, resource.file_type, 0) is Some,
        is_fresh(now, later, resource.timeout),
    ensures
        ({
            let first = local_read(resource, allow_stale, now, candidates);
            let second = local_read(first.1, allow_stale, later, later_candidates);
            &&& first.0 is Ok
            &&& !first.1.cache.is_stale
            &&& second == first
        }),
{
}

/// The reader of a local resource.
#[derive(Debug)]
pub struct DefaultLocalResourceReader<T> {
    state: ResourceState<T>,
}

impl<T> View for DefaultLocalResourceReader<T> {
    type V = ResourceView<T>;

    closed spec fn view(&self) -> ResourceView<T> {
        self.state@
    }
}

impl<T> DefaultLocalResourceReader<T> {
    /// A reader of the resource whose state is `state`.
    pub fn new(state: ResourceState<T>) -> (reader: DefaultLocalResourceReader<T>)
        ensures
            reader@ == state@,
    {
        DefaultLocalResourceReader { state }
    }

    /// Begins a read at `now` by consulting memory.
    pub fn begin(&self, now: Timestamp) -> (step: LocalStep<T>)
        ensures
            step == local_begin(self@, now@),
    {
        if self.state.is_marked_stale() {
            return LocalStep::ReadDisk { stale_memory: None };
        }
        match self.state.get_internal_data(now) {
            Some((value, fresh, _)) => {
                if fresh {
                    LocalStep::Fresh(value)
                } else {
                    LocalStep::ReadDisk { stale_memory: Some(value) }
                }
            },
            None => LocalStep::ReadDisk { stale_memory: None },
        }
    }

    /// The value of the first file that belongs to the resource and was
    /// decoded.
    fn read_first_file(&self, candidates: Vec<DiskCandidate<T>>) -> (value: Option<Arc<T>>)
        ensures
            value == first_file_value(candidates@, self@.file_name, self@.file_type, 0),
    {
        let mut rest = candidates;
        let mut found: Option<Arc<T>> = None;
        while rest.len() > 0
            invariant
                rest.len() <= candidates.len(),
                rest@ == candidates@.take(rest.len() as int),
                found == first_file_value(
                    candidates@,
                    self@.file_name,
                    self@.file_type,
                    rest.len() as int,
                ),
            decreases rest.len(),
        {
            let candidate = rest.pop().unwrap();
            assert(candidate == candidates@[rest.len() as int]);
            if starts_with(candidate.file_name.as_str(), self.state.get_file_name()) {
                match parse_file(self.state.get_file_type(), candidate.read) {
                    Ok(value) => {
                        found = Some(Arc::new(value));
                    },
                    Err(_) => {},
                }
            }
        }
        found
    }

    /// Ends a read at `now`, given the files of the storage directory in
    /// directory order and the stale value that `begin` handed out.
    pub fn after_disk(
        &mut self,
        stale_memory: Option<Arc<T>>,
        candidates: Vec<DiskCandidate<T>>,
        allow_stale: bool,
        now: Timestamp,
    ) -> (result: ReadOutcome<T>)
        ensures
            (result, final(self)@) == local_after_disk(
                old(self)@,
                stale_memory,
                candidates@,
                allow_stale,
                now@,
            ),
    {
        match self.read_first_file(candidates) {
            Some(value) => {
                self.state.set_internal_cache(Arc::clone(&value), now);
                Ok(DataResult::Fresh(value))
            },
            None => match stale_memory {
                Some(value) => {
                    if allow_stale {
                        Ok(DataResult::Stale(value))
                    } else {
                        Err(ResourceError::StaleInternalNone)
                    }
                },
                None => Err(ResourceError::StaleInternalNone),
            },
        }
    }
}

impl<T: Default> ResourceReader<T> for DefaultLocalResourceReader<T> {
    /// The files of the storage directory, in directory order.
    type Sources = Vec<DiskCandidate<T>>;

    open spec fn resource(&self) -> ResourceView<T> {
        self@
    }

    open spec fn read(
        resource: ResourceView<T>,
        allow_stale: bool,
        now: int,
        sources: Vec<DiskCandidate<T>>,
    ) -> (ReadOutcome<T>, ResourceView<T>) {
        local_read(resource, allow_stale, now, sources@)
    }

    fn get_state(&self) -> (state: &ResourceState<T>) {
        &self.state
    }

    fn mark_as_stale(&mut self) {
        self.state.mark_as_stale();
    }

    /// One whole read at `now`, given the files of the storage directory in
    /// directory order. The files are not looked at where memory holds a
    /// fresh value.
    fn get_data_or_error(
        &mut self,
        allow_stale: bool,
        now: Timestamp,
        sources: Vec<DiskCandidate<T>>,
    ) -> (result: ReadOutcome<T>) {
        match self.begin(now) {
            LocalStep::Fresh(value) => Ok(DataResult::Fresh(value)),
            LocalStep::ReadDisk { stale_memory } => self.after_disk(
                stale_memory,
                sources,
                allow_stale,
                now,
            ),
        }
    }
}

} // verus!
