//! The state of one resource: who it is, and the memory slot that holds its
//! latest value.

use std::sync::Arc;
use vstd::prelude::*;

use crate::time::{is_fresh, span_view, TimeSpan, Timestamp};
use crate::traits::ResourceFileType;
use crate::utilities::{
    first_offer, parse_file_with_timestamp_by_path, starts_with, DiskCandidate,
};

verus! {

/// What a memory slot holds, as contracts see it.
pub struct CacheView<T> {
    /// The cached value, if there is one.
    pub data: Option<Arc<T>>,
    /// Whether the slot was explicitly marked stale.
    pub is_stale: bool,
    /// When the value was installed, in nanoseconds since the epoch.
    pub timestamp: int,
}

/// The memory slot of a resource: a value, the mark that forces it stale, and
/// the time at which it was installed. The time means nothing while the
/// value is absent, and an absent value is never fresh.
#[derive(Debug)]
pub struct Cache<T> {
    data: Option<Arc<T>>,
    is_stale: bool,
    timestamp: Timestamp,
}

impl<T> View for Cache<T> {
    type V = CacheView<T>;

    closed spec fn view(&self) -> CacheView<T> {
        CacheView { data: self.data, is_stale: self.is_stale, timestamp: self.timestamp@ }
    }
}

impl<T> Cache<T> {
    /// A slot without a value.
    pub fn new() -> (cache: Cache<T>)
        ensures
            cache@ == (CacheView::<T> { data: None, is_stale: false, timestamp: 0 }),
    {
        Cache { data: None, is_stale: false, timestamp: Timestamp::epoch() }
    }
}

/// A resource as contracts see it: its identity and its memory slot.
pub struct ResourceView<T> {
    /// The prefix that the names of the resource's files on disk start with.
    pub file_name: Seq<char>,
    /// The declared content format.
    pub file_type: ResourceFileType,
    /// The origin of a remote resource.
    pub url: Option<Seq<char>>,
    /// The directory that holds the resource's files.
    pub storage_directory: Seq<char>,
    /// The time-to-live in nanoseconds, if one is configured.
    pub timeout: Option<nat>,
    /// The memory slot.
    pub cache: CacheView<T>,
}

impl<T> ResourceView<T> {
    /// What the memory slot reports at `now`: the value, whether it is within
    /// its time-to-live, and when it was installed; `None` while the slot is
    /// empty.
    pub open spec fn memory_probe(self, now: int) -> Option<(Arc<T>, bool, int)> {
        match self.cache.data {
            Some(value) => Some(
                (value, is_fresh(self.cache.timestamp, now, self.timeout), self.cache.timestamp),
            ),
            None => None,
        }
    }

    /// What the files `candidates` of the storage directory, in directory
    /// order, report at `now`: the value of the first file that offers one,
    /// whether it is within its time-to-live counted from the time that the
    /// file's name carries, and that time; `None` where no file offers a value.
    pub open spec fn disk_probe(
        self,
        candidates: Seq<DiskCandidate<T>>,
        now: int,
    ) -> Option<(Arc<T>, bool, int)> {
        match first_offer(candidates, self.file_name, self.file_type, 0) {
            Some((value, recorded)) => Some(
                (value, is_fresh(recorded, now, self.timeout), recorded),
            ),
            None => None,
        }
    }

    /// The same resource with its slot marked stale.
    pub open spec fn marked_stale(self) -> ResourceView<T> {
        ResourceView { cache: CacheView { is_stale: true, ..self.cache }, ..self }
    }

    /// The same resource after `value` was installed at `now`.
    pub open spec fn refreshed(self, value: Arc<T>, now: int) -> ResourceView<T> {
        ResourceView {
            cache: CacheView { data: Some(value), is_stale: false, timestamp: now },
            ..self
        }
    }
}

/// What a tier reports of its value, with the time as a number: the value,
/// whether it is fresh, and when it was recorded.
pub open spec fn probe_view<T>(
    probe: Option<(Arc<T>, bool, Timestamp)>,
) -> Option<(Arc<T>, bool, int)> {
    match probe {
        Some((value, fresh, recorded)) => Some((value, fresh, recorded@)),
        None => None,
    }
}

/// A value with the time at which it was recorded, with the time as a number.
pub open spec fn offer_view<T>(offer: Option<(Arc<T>, Timestamp)>) -> Option<(Arc<T>, int)> {
    match offer {
        Some((value, recorded)) => Some((value, recorded@)),
        None => None,
    }
}

/// The view of an optional text.
pub open spec fn text_view(text: Option<String>) -> Option<Seq<char>> {
    match text {
        Some(t) => Some(t@),
        None => None,
    }
}

/// The identity of a resource, fixed when it is made, and its memory slot.
#[derive(Debug)]
pub struct ResourceProps<T> {
    file_name: String,
    file_type: ResourceFileType,
    url: Option<String>,
    storage_directory: String,
    internal_cache: Cache<T>,
    timeout: Option<TimeSpan>,
}

impl<T> View for ResourceProps<T> {
    type V = ResourceView<T>;

    closed spec fn view(&self) -> ResourceView<T> {
        ResourceView {
            file_name: self.file_name@,
            file_type: self.file_type,
            url: text_view(self.url),
            storage_directory: self.storage_directory@,
            timeout: span_view(self.timeout),
            cache: self.internal_cache@,
        }
    }
}

impl<T> ResourceProps<T> {
    /// The properties of a resource whose memory slot is still empty.
    pub fn new(
        file_name: String,
        file_type: ResourceFileType,
        url: Option<String>,
        storage_directory: String,
        timeout: Option<TimeSpan>,
    ) -> (props: ResourceProps<T>)
        ensures
            props@ == (ResourceView::<T> {
                file_name: file_name@,
                file_type: file_type,
                url: text_view(url),
                storage_directory: storage_directory@,
                timeout: span_view(timeout),
                cache: CacheView { data: None, is_stale: false, timestamp: 0 },
            }),
    {
        ResourceProps {
            file_name,
            file_type,
            url,
            storage_directory,
            internal_cache: Cache::new(),
            timeout,
        }
    }
}

/// The state of one resource.
#[derive(Debug)]
pub struct ResourceState<T> {
    props: ResourceProps<T>,
}

impl<T> View for ResourceState<T> {
    type V = ResourceView<T>;

    closed spec fn view(&self) -> ResourceView<T> {
        self.props@
    }
}

impl<T> ResourceState<T> {
    /// The state of the resource that `props` describes.
    pub fn new(props: ResourceProps<T>) -> (state: ResourceState<T>)
        ensures
            state@ == props@,
    {
        ResourceState { props }
    }

    /// Whether the slot was explicitly marked stale.
    pub fn is_marked_stale(&self) -> (marked: bool)
        ensures
            marked == self@.cache.is_stale,
    {
        self.props.internal_cache.is_stale
    }

    /// Marks the slot stale, whatever its age. Nothing else changes.
    pub fn mark_as_stale(&mut self)
        ensures
            final(self)@ == old(self)@.marked_stale(),
    {
        self.props.internal_cache.is_stale = true;
    }

    /// The declared content format.
    pub fn get_file_type(&self) -> (file_type: &ResourceFileType)
        ensures
            *file_type == self@.file_type,
    {
        &self.props.file_type
    }

    /// The prefix of the resource's file names.
    pub fn get_file_name(&self) -> (name: &str)
        ensures
            name@ == self@.file_name,
    {
        self.props.file_name.as_str()
    }

    /// The directory that holds the resource's files.
    pub fn get_storage_directory(&self) -> (directory: &str)
        ensures
            directory@ == self@.storage_directory,
    {
        self.props.storage_directory.as_str()
    }

    /// The file that a fetched value is written to, as the storage directory
    /// and the name of the file in it.
    pub fn get_file_path(&self) -> (path: (&str, &str))
        ensures
            path.0@ == self@.storage_directory,
            path.1@ == self@.file_name,
    {
        (self.props.storage_directory.as_str(), self.props.file_name.as_str())
    }

    /// The origin of the resource, if it has one.
    pub fn get_url(&self) -> (url: &Option<String>)
        ensures
            text_view(*url) == self@.url,
    {
        &self.props.url
    }

    /// The configured time-to-live, if there is one.
    pub fn get_timeout(&self) -> (timeout: Option<TimeSpan>)
        ensures
            span_view(timeout) == self@.timeout,
    {
        self.props.timeout
    }

    /// Whether the slot holds a value that is within its time-to-live at
    /// `now`. The stale mark is not consulted.
    pub fn is_internal_data_fresh(&self, now: Timestamp) -> (fresh: bool)
        ensures
            fresh == (self@.memory_probe(now@) matches Some(probe) && probe.1),
    {
        match &self.props.internal_cache.data {
            Some(_) => self.props.internal_cache.timestamp.is_fresh_at(&now, &self.props.timeout),
            None => false,
        }
    }

    /// The cached value with its freshness at `now` and the time at which it
    /// was installed, or `None` while the slot is empty.
    pub fn get_internal_data(&self, now: Timestamp) -> (probe: Option<(Arc<T>, bool, Timestamp)>)
        ensures
            probe_view(probe) == self@.memory_probe(now@),
    {
        match &self.props.internal_cache.data {
            Some(value) => {
                let fresh = self.props.internal_cache.timestamp.is_fresh_at(
                    &now,
                    &self.props.timeout,
                );
                Some((Arc::clone(value), fresh, self.props.internal_cache.timestamp))
            },
            None => None,
        }
    }

    /// Replaces the slot with `data`, installed at `now` and not marked
    /// stale. Nothing else clears the stale mark.
    pub fn set_internal_cache(&mut self, data: Arc<T>, now: Timestamp)
        ensures
            final(self)@ == old(self)@.refreshed(data, now@),
    {
        self.props.internal_cache = Cache { data: Some(data), is_stale: false, timestamp: now };
    }

    /// What the disk tier reports at `now`, given the files of the storage
    /// directory in directory order: the value of the first file that
    /// belongs to the resource, carries a timestamp in its name and was
    /// decoded, with its freshness counted from that timestamp.
    pub fn get_disk_cached_data(
        &self,
        candidates: Vec<DiskCandidate<T>>,
        now: Timestamp,
    ) -> (probe: Option<(Arc<T>, bool, Timestamp)>)
        ensures
            probe_view(probe) == self@.disk_probe(candidates@, now@),
    {
        let mut rest = candidates;
        let mut found: Option<(Arc<T>, Timestamp)> = None;
        while rest.len() > 0
            invariant
                rest.len() <= candidates.len(),
                rest@ == candidates@.take(rest.len() as int),
                offer_view(found) == first_offer(
                    candidates@,
                    self@.file_name,
                    self@.file_type,
                    rest.len() as int,
                ),
            decreases rest.len(),
        {
            let candidate = rest.pop().unwrap();
            assert(candidate == candidates@[rest.len() as int]);
            if starts_with(candidate.file_name.as_str(), self.get_file_name()) {
                match parse_file_with_timestamp_by_path(
                    candidate.file_name.as_str(),
                    self.get_file_type(),
                    candidate.read,
                ) {
                    Ok((value, recorded)) => {
                        found = Some((Arc::new(value), recorded));
                    },
                    Err(_) => {},
                }
            }
        }
        match found {
            Some((value, recorded)) => {
                let fresh = recorded.is_fresh_at(&now, &self.props.timeout);
                Some((value, fresh, recorded))
            },
            None => None,
        }
    }

    /// Whether the disk tier holds a value that is within its time-to-live
    /// at `now`.
    pub fn is_disk_cached_data_fresh(
        &self,
        candidates: Vec<DiskCandidate<T>>,
        now: Timestamp,
    ) -> (fresh: bool)
        ensures
            fresh == (self@.disk_probe(candidates@, now@) matches Some(probe) && probe.1),
    {
        match self.get_disk_cached_data(candidates, now) {
            Some((_, fresh, _)) => fresh,
            None => false,
        }
    }
}

} // verus!
