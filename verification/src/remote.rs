//! The reader of a remote resource: memory first, then disk, then the origin.
//!
//! One read is a walk through up to four steps. Between two steps the caller
//! does what the step asks for (it lists the storage directory, fetches the
//! origin, writes the file) and hands back what came of it.

use std::sync::Arc;
use vstd::prelude::*;

use crate::base::{offer_view, ResourceState, ResourceView};
use crate::time::Timestamp;
use crate::traits::{
    failed, fresh, stale, DataResult, ReadOutcome, ResourceError, ResourceReader,
};
use crate::utilities::{
    parse_file, read_value, save_result, save_to_disk_override, DiskCandidate, FileWrite,
    SourceRead,
};

verus! {

/// The value of a probe that found a fresh value.
pub open spec fn fresh_value<T>(probe: Option<(Arc<T>, bool, int)>) -> Option<Arc<T>> {
    match probe {
        Some((value, true, _)) => Some(value),
        _ => None,
    }
}

/// The value of a probe that found a stale value, with the time at which it
/// was recorded.
pub open spec fn stale_value<T>(probe: Option<(Arc<T>, bool, int)>) -> Option<(Arc<T>, int)> {
    match probe {
        Some((value, false, recorded)) => Some((value, recorded)),
        _ => None,
    }
}

/// The stale value to hand back where memory and disk offer `memory` and
/// `disk`, each with the time at which it was recorded: the one recorded
/// later, the one of memory where both were recorded at the same time, and
/// the only one where only one tier offers any.
pub open spec fn newest_stale<T>(
    memory: Option<(Arc<T>, int)>,
    disk: Option<(Arc<T>, int)>,
) -> Option<Arc<T>> {
    match (memory, disk) {
        (Some(m), Some(d)) => if d.1 > m.1 {
            Some(d.0)
        } else {
            Some(m.0)
        },
        (Some(m), None) => Some(m.0),
        (None, Some(d)) => Some(d.0),
        (None, None) => None,
    }
}

/// What a read ends with where no fresh value could be obtained: the newest
/// stale value if the caller allows stale ones and there is one,
/// `StaleInternalNone` if the caller allows them and there is none, and
/// `FreshingData` if the caller does not allow them.
pub open spec fn without_fresh<T>(
    memory: Option<(Arc<T>, int)>,
    disk: Option<(Arc<T>, int)>,
    allow_stale: bool,
) -> ReadOutcome<T> {
    if allow_stale {
        match newest_stale(memory, disk) {
            Some(value) => Ok(DataResult::Stale(value)),
            None => Err(ResourceError::StaleInternalNone),
        }
    } else {
        Err(ResourceError::FreshingData)
    }
}

/// Where a read stands after the memory tier was consulted.
#[derive(Debug)]
pub enum MemoryStep<T> {
    /// Memory holds a fresh value: the read is over.
    Fresh(Arc<T>),
    /// Memory holds no fresh value: the disk is consulted next. The payload
    /// is the stale value of memory, if it holds one.
    ReadDisk { stale_memory: Option<(Arc<T>, Timestamp)> },
    /// The slot is marked stale: neither memory nor disk is consulted, and
    /// the origin is fetched next.
    Fetch,
}

/// A `MemoryStep` with its time as a number.
pub enum MemoryStepView<T> {
    Fresh(Arc<T>),
    ReadDisk { stale_memory: Option<(Arc<T>, int)> },
    Fetch,
}

impl<T> View for MemoryStep<T> {
    type V = MemoryStepView<T>;

    open spec fn view(&self) -> MemoryStepView<T> {
        match *self {
            MemoryStep::Fresh(value) => MemoryStepView::Fresh(value),
            MemoryStep::ReadDisk { stale_memory } => MemoryStepView::ReadDisk {
                stale_memory: offer_view(stale_memory),
            },
            MemoryStep::Fetch => MemoryStepView::Fetch,
        }
    }
}

/// Where a read stands after the disk tier was consulted.
#[derive(Debug)]
pub enum DiskStep<T> {
    /// The disk holds a fresh value: the read is over.
    Fresh(Arc<T>),
    /// The disk holds no fresh value: the origin is fetched next. The payload
    /// is the stale value of the disk, if it holds one.
    Fetch { stale_disk: Option<(Arc<T>, Timestamp)> },
}

/// A `DiskStep` with its time as a number.
pub enum DiskStepView<T> {
    Fresh(Arc<T>),
    Fetch { stale_disk: Option<(Arc<T>, int)> },
}

impl<T> View for DiskStep<T> {
    type V = DiskStepView<T>;

    open spec fn view(&self) -> DiskStepView<T> {
        match *self {
            DiskStep::Fresh(value) => DiskStepView::Fresh(value),
            DiskStep::Fetch { stale_disk } => DiskStepView::Fetch {
                stale_disk: offer_view(stale_disk),
            },
        }
    }
}

/// Where a read stands after the origin was fetched.
#[derive(Debug)]
pub enum FetchStep<T> {
    /// The origin gave no value: the read is over, with a stale value or an
    /// error.
    Done(ReadOutcome<T>),
    /// The origin gave this value: it is written to disk next.
    Persist(Arc<T>),
}

/// What the tiers beyond memory answer during one read of a remote resource.
#[derive(Debug)]
pub struct RemoteSources<T> {
    /// The files of the storage directory, in directory order.
    pub disk: Vec<DiskCandidate<T>>,
    /// What came of fetching the origin and decoding the body.
    pub fetched: SourceRead<T>,
    /// What came of writing the fetched value to disk.
    pub written: FileWrite,
}

/// The first step of a read at `now`.
pub open spec fn remote_begin<T>(resource: ResourceView<T>, now: int) -> MemoryStepView<T> {
    if resource.cache.is_stale {
        MemoryStepView::Fetch
    } else {
        match resource.memory_probe(now) {
            Some((value, true, _)) => MemoryStepView::Fresh(value),
            probe => MemoryStepView::ReadDisk { stale_memory: stale_value(probe) },
        }
    }
}

/// The step after the files `candidates` were read at `now`.
pub open spec fn remote_after_disk<T>(
    resource: ResourceView<T>,
    candidates: Seq<DiskCandidate<T>>,
    now: int,
) -> DiskStepView<T> {
    match resource.disk_probe(candidates, now) {
        Some((value, true, _)) => DiskStepView::Fresh(value),
        probe => DiskStepView::Fetch { stale_disk: stale_value(probe) },
    }
}

/// The step after the origin answered `fetched`, with the stale values that
/// memory and disk offered.
pub open spec fn remote_after_fetch<T>(
    resource: ResourceView<T>,
    stale_memory: Option<(Arc<T>, int)>,
    stale_disk: Option<(Arc<T>, int)>,
    fetched: SourceRead<T>,
    allow_stale: bool,
) -> FetchStep<T> {
    match read_value(resource.file_type, fetched) {
        Some(value) => FetchStep::Persist(Arc::new(value)),
        None => FetchStep::Done(without_fresh(stale_memory, stale_disk, allow_stale)),
    }
}

/// The end of a read that fetched `value`, after the write to disk came to
/// `written`: the result, and the resource as it is left. Only a value that
/// was written is installed in memory.
pub open spec fn remote_after_persist<T>(
    resource: ResourceView<T>,
    value: Arc<T>,
    written: FileWrite,
    now: int,
) -> (ReadOutcome<T>, ResourceView<T>) {
    match save_result(resource.file_type, written) {
        Ok(_) => (Ok(DataResult::Fresh(value)), resource.refreshed(value, now)),
        Err(error) => (Err(error), resource),
    }
}

/// The end of a read for which neither memory nor disk holds a fresh value:
/// the last two steps, taken at one time.
pub open spec fn remote_finish<T>(
    resource: ResourceView<T>,
    stale_memory: Option<(Arc<T>, int)>,
    stale_disk: Option<(Arc<T>, int)>,
    fetched: SourceRead<T>,
    written: FileWrite,
    allow_stale: bool,
    now: int,
) -> (ReadOutcome<T>, ResourceView<T>) {
    match remote_after_fetch(resource, stale_memory, stale_disk, fetched, allow_stale) {
        FetchStep::Done(result) => (result, resource),
        FetchStep::Persist(value) => remote_after_persist(resource, value, written, now),
    }
}

/// One whole read of a remote resource at `now`: the result, and the
/// resource as it is left.
///
/// Unless the slot is marked stale, a fresh value of memory ends the read,
/// and after it a fresh value of the disk. Else the origin decides: its
/// value is written to disk, installed in memory and handed back as fresh;
/// without one, the newest stale value is handed back if the caller allows
/// that.
pub open spec fn remote_read<T>(
    resource: ResourceView<T>,
    allow_stale: bool,
    now: int,
    sources: RemoteSources<T>,
) -> (ReadOutcome<T>, ResourceView<T>) {
    let memory = if resource.cache.is_stale {
        None
    } else {
        resource.memory_probe(now)
    };
    let disk = if resource.cache.is_stale {
        None
    } else {
        resource.disk_probe(sources.disk@, now)
    };
    match (fresh_value(memory), fresh_value(disk), read_value(resource.file_type, sources.fetched)) {
        (Some(value), _, _) => (Ok(DataResult::Fresh(value)), resource),
        (None, Some(value), _) => (Ok(DataResult::Fresh(value)), resource),
        (None, None, Some(value)) => remote_after_persist(
            resource,
            Arc::new(value),
            sources.written,
            now,
        ),
        (None, None, None) => (
            without_fresh(stale_value(memory), stale_value(disk), allow_stale),
            resource,
        ),
    }
}

/// Between a stale value of memory and a stale value of the disk, the one
/// recorded later is handed back; of two recorded at the same time, always
/// the one of memory.
pub proof fn lemma_newest_stale_wins<T>(memory: (Arc<T>, int), disk: (Arc<T>, int))
    ensures
        disk.1 > memory.1 ==> newest_stale(Some(memory), Some(disk)) == Some(disk.0),
        disk.1 <= memory.1 ==> newest_stale(Some(memory), Some(disk)) == Some(memory.0),
{
}

/// Where the origin gives no value and the caller allows stale ones, a read
/// that found a stale value in memory and one on disk ends with the one
/// recorded later.
pub proof fn lemma_stale_tie_break<T>(
    resource: ResourceView<T>,
    memory: (Arc<T>, int),
    disk: (Arc<T>, int),
    fetched: SourceRead<T>,
)
    requires
        read_value(resource.file_type, fetched) is None,
    ensures
        remote_after_fetch(resource, Some(memory), Some(disk), fetched, true) == FetchStep::Done(
            stale(
                if disk.1 > memory.1 {
                    disk.0
                } else {
                    memory.0
                },
            ),
        ),
{
}

/// The steps of a read, taken one after the other at one time, come to the
/// whole read.
pub proof fn lemma_remote_steps_make_read<T>(
    resource: ResourceView<T>,
    allow_stale: bool,
    now: int,
    sources: RemoteSources<T>,
)
    ensures
        remote_read(resource, allow_stale, now, sources) == (match remote_begin(resource, now) {
            MemoryStepView::Fresh(value) => (fresh(value), resource),
            MemoryStepView::ReadDisk { stale_memory } => match remote_after_disk(
                resource,
                sources.disk@,
                now,
            ) {
                DiskStepView::Fresh(value) => (fresh(value), resource),
                DiskStepView::Fetch { stale_disk } => remote_finish(
                    resource,
                    stale_memory,
                    stale_disk,
                    sources.fetched,
                    sources.written,
                    allow_stale,
                    now,
                ),
            },
            MemoryStepView::Fetch => remote_finish(
                resource,
                None,
                None,
                sources.fetched,
                sources.written,
                allow_stale,
                now,
            ),
        }),
{
}

/// A value in memory that is not marked stale is handed back as fresh, and
/// nothing changes, exactly while its age is below the time-to-live. From
/// that age on it is a stale value: where neither the disk nor the origin
/// has anything, it is handed back as stale if the caller allows it, and the
/// read fails with `FreshingData` if not.
pub proof fn lemma_remote_read_under_ttl<T>(
    resource: ResourceView<T>,
    value: Arc<T>,
    ttl: nat,
    allow_stale: bool,
    now: int,
    sources: RemoteSources<T>,
)
    requires
        resource.cache.data == Some(value),
        !resource.cache.is_stale,
        resource.timeout == Some(ttl),
        now >= resource.cache.timestamp,
    ensures
        now - resource.cache.timestamp < ttl ==> remote_read(resource, allow_stale, now, sources)
            == (fresh(value), resource),
        now - resource.cache.timestamp >= ttl ==> remote_begin(resource, now)
            == (MemoryStepView::ReadDisk { stale_memory: Some((value, resource.cache.timestamp)) }),
        now - resource.cache.timestamp >= ttl && resource.disk_probe(sources.disk@, now) is None
            && read_value(resource.file_type, sources.fetched) is None ==> remote_read(
            resource,
            allow_stale,
            now,
            sources,
        ) == (
            if allow_stale {
                stale(value)
            } else {
                failed(ResourceError::FreshingData)
            },
            resource,
        ),
{
}

/// Without a time-to-live, a value in memory that is not marked stale is
/// handed back as fresh at every age, and nothing changes.
pub proof fn lemma_remote_read_without_ttl<T>(
    resource: ResourceView<T>,
    value: Arc<T>,
    allow_stale: bool,
    now: int,
    sources: RemoteSources<T>,
)
    requires
        resource.cache.data == Some(value),
        !resource.cache.is_stale,
        resource.timeout is None,
        now >= resource.cache.timestamp,
    ensures
        remote_read(resource, allow_stale, now, sources) == (fresh(value), resource),
{
}

/// Once the slot is marked stale, a read hands back nothing that memory or
/// the disk holds, whether the caller allows stale values or not. Only the
/// origin counts: its value, once written to disk, is installed and handed
/// back as fresh; without one the read fails, with `StaleInternalNone` for a
/// caller who allows stale values and with `FreshingData` for one who does
/// not.
pub proof fn lemma_remote_read_after_mark<T>(
    resource: ResourceView<T>,
    allow_stale: bool,
    now: int,
    sources: RemoteSources<T>,
)
    ensures
        remote_read(resource.marked_stale(), allow_stale, now, sources) == (match read_value(
            resource.file_type,
            sources.fetched,
        ) {
            Some(value) => match save_result(resource.file_type, sources.written) {
                Ok(_) => (fresh(Arc::new(value)), resource.refreshed(Arc::new(value), now)),
                Err(error) => (failed(error), resource.marked_stale()),
            },
            None => (
                if allow_stale {
                    failed(ResourceError::StaleInternalNone)
                } else {
                    failed(ResourceError::FreshingData)
                },
                resource.marked_stale(),
            ),
        }),
{
}

/// A read for which the origin gives no value leaves the resource as it is.
/// It hands back a stale value only to a caller who allows stale ones. Where
/// it fails, it fails with `FreshingData` for the caller who does not allow
/// stale values, and with `StaleInternalNone` for the caller who allows them
/// and for whom no tier holds any.
pub proof fn lemma_remote_error_split<T>(
    resource: ResourceView<T>,
    allow_stale: bool,
    now: int,
    sources: RemoteSources<T>,
)
    requires
        read_value(resource.file_type, sources.fetched) is None,
    ensures
        ({
            let (result, after) = remote_read(resource, allow_stale, now, sources);
            &&& after == resource
            &&& result matches Ok(DataResult::Stale(_)) ==> allow_stale
            &&& result is Err && !allow_stale ==> result == failed::<T>(ResourceError::FreshingData)
            &&& result is Err && allow_stale ==> result == failed::<T>(
                ResourceError::StaleInternalNone,
            )
        }),
{
}

/// The reader of a remote resource.
#[derive(Debug)]
pub struct DefaultRemoteResourceReader<T> {
    state: ResourceState<T>,
}

impl<T> View for DefaultRemoteResourceReader<T> {
    type V = ResourceView<T>;

    closed spec fn view(&self) -> ResourceView<T> {
        self.state@
    }
}

impl<T> DefaultRemoteResourceReader<T> {
    /// A reader of the resource whose state is `state`.
    pub fn new(state: ResourceState<T>) -> (reader: DefaultRemoteResourceReader<T>)
        ensures
            reader@ == state@,
    {
        DefaultRemoteResourceReader { state }
    }

    /// Begins a read at `now` by consulting memory.
    pub fn begin(&self, now: Timestamp) -> (step: MemoryStep<T>)
        ensures
            step@ == remote_begin(self@, now@),
    {
        if self.state.is_marked_stale() {
            return MemoryStep::Fetch;
        }
        match self.state.get_internal_data(now) {
            Some((value, fresh, recorded)) => {
                if fresh {
                    MemoryStep::Fresh(value)
                } else {
                    MemoryStep::ReadDisk { stale_memory: Some((value, recorded)) }
                }
            },
            None => MemoryStep::ReadDisk { stale_memory: None },
        }
    }

    /// Goes on with a read at `now`, given the files of the storage
    /// directory in directory order.
    pub fn after_disk(
        &self,
        candidates: Vec<DiskCandidate<T>>,
        now: Timestamp,
    ) -> (step: DiskStep<T>)
        ensures
            step@ == remote_after_disk(self@, candidates@, now@),
    {
        match self.state.get_disk_cached_data(candidates, now) {
            Some((value, fresh, recorded)) => {
                if fresh {
                    DiskStep::Fresh(value)
                } else {
                    DiskStep::Fetch { stale_disk: Some((value, recorded)) }
                }
            },
            None => DiskStep::Fetch { stale_disk: None },
        }
    }

    /// Goes on with a read after the origin was fetched, given what came of
    /// that and the stale values that the earlier steps handed out.
    pub fn after_fetch(
        &self,
        stale_memory: Option<(Arc<T>, Timestamp)>,
        stale_disk: Option<(Arc<T>, Timestamp)>,
        fetched: SourceRead<T>,
        allow_stale: bool,
    ) -> (step: FetchStep<T>)
        ensures
            step == remote_after_fetch(
                self@,
                offer_view(stale_memory),
                offer_view(stale_disk),
                fetched,
                allow_stale,
            ),
    {
        match parse_file(self.state.get_file_type(), fetched) {
            Ok(value) => FetchStep::Persist(Arc::new(value)),
            Err(_) => {
                if !allow_stale {
                    return FetchStep::Done(Err(ResourceError::FreshingData));
                }
                let stale = match (stale_memory, stale_disk) {
                    (Some(memory), Some(disk)) => {
                        if disk.1.is_after(&memory.1) {
                            Some(disk.0)
                        } else {
                            Some(memory.0)
                        }
                    },
                    (Some(memory), None) => Some(memory.0),
                    (None, Some(disk)) => Some(disk.0),
                    (None, None) => None,
                };
                match stale {
                    Some(value) => FetchStep::Done(Ok(DataResult::Stale(value))),
                    None => FetchStep::Done(Err(ResourceError::StaleInternalNone)),
                }
            },
        }
    }

    /// Ends a read that fetched `value`, given what came of writing it to
    /// disk: a value that was written is installed in memory at `now` and
    /// handed back as fresh; otherwise the error of the write is handed
    /// back and memory stays as it is.
    pub fn after_persist(
        &mut self,
        value: Arc<T>,
        written: FileWrite,
        now: Timestamp,
    ) -> (result: ReadOutcome<T>)
        ensures
            (result, final(self)@) == remote_after_persist(old(self)@, value, written, now@),
    {
        match save_to_disk_override(self.state.get_file_type(), written) {
            Ok(_) => {
                self.state.set_internal_cache(Arc::clone(&value), now);
                Ok(DataResult::Fresh(value))
            },
            Err(error) => Err(error),
        }
    }

    /// The last two steps of a whole read.
    fn finish(
        &mut self,
        stale_memory: Option<(Arc<T>, Timestamp)>,
        stale_disk: Option<(Arc<T>, Timestamp)>,
        fetched: SourceRead<T>,
        written: FileWrite,
        allow_stale: bool,
        now: Timestamp,
    ) -> (result: ReadOutcome<T>)
        ensures
            (result, final(self)@) == remote_finish(
                old(self)@,
                offer_view(stale_memory),
                offer_view(stale_disk),
                fetched,
                written,
                allow_stale,
                now@,
            ),
    {
        match self.after_fetch(stale_memory, stale_disk, fetched, allow_stale) {
            FetchStep::Done(result) => result,
            FetchStep::Persist(value) => self.after_persist(value, written, now),
        }
    }
}

impl<T: Default> ResourceReader<T> for DefaultRemoteResourceReader<T> {
    type Sources = RemoteSources<T>;

    open spec fn resource(&self) -> ResourceView<T> {
        self@
    }

    open spec fn read(
        resource: ResourceView<T>,
        allow_stale: bool,
        now: int,
        sources: RemoteSources<T>,
    ) -> (ReadOutcome<T>, ResourceView<T>) {
        remote_read(resource, allow_stale, now, sources)
    }

    fn get_state(&self) -> (state: &ResourceState<T>) {
        &self.state
    }

    fn mark_as_stale(&mut self) {
        self.state.mark_as_stale();
    }

    /// One whole read at `now`, given everything that the tiers beyond
    /// memory answer. An answer that the read does not come to ask for is
    /// not looked at.
    fn get_data_or_error(
        &mut self,
        allow_stale: bool,
        now: Timestamp,
        sources: RemoteSources<T>,
    ) -> (result: ReadOutcome<T>) {
        let RemoteSources { disk, fetched, written } = sources;
        let stale_memory = match self.begin(now) {
            MemoryStep::Fresh(value) => {
                return Ok(DataResult::Fresh(value));
            },
            MemoryStep::ReadDisk { stale_memory } => stale_memory,
            MemoryStep::Fetch => {
                return self.finish(None, None, fetched, written, allow_stale, now);
            },
        };
        match self.after_disk(disk, now) {
            DiskStep::Fresh(value) => Ok(DataResult::Fresh(value)),
            DiskStep::Fetch { stale_disk } => self.finish(
                stale_memory,
                stale_disk,
                fetched,
                written,
                allow_stale,
                now,
            ),
        }
    }
}

} // verus!
