//! The vocabulary shared by every reader: declared formats, read results and
//! errors.

use std::sync::Arc;
use vstd::prelude::*;

use crate::base::{ResourceState, ResourceView};
use crate::time::Timestamp;
use crate::utilities::DiskCandidate;

verus! {

/// The declared content format of a resource.
#[derive(Debug, Clone, Copy, PartialEq, Eq)]
pub enum ResourceFileType {
    Json,
    Yaml,
    Toml,
    Text,
}

impl ResourceFileType {
    /// The lower-case name of the format.
    pub open spec fn name(self) -> &'static str {
        match self {
            ResourceFileType::Json => "json",
            ResourceFileType::Yaml => "yaml",
            ResourceFileType::Toml => "toml",
            ResourceFileType::Text => "text",
        }
    }

    /// The name of the format as it is shown to a reader.
    pub open spec fn label(self) -> &'static str {
        match self {
            ResourceFileType::Json => "JSON",
            ResourceFileType::Yaml => "YAML",
            ResourceFileType::Toml => "TOML",
            ResourceFileType::Text => "Text",
        }
    }

    /// Whether values can be read and written in this format: JSON and YAML
    /// can, TOML and plain text are declared only.
    pub open spec fn supported(self) -> bool {
        self is Json || self is Yaml
    }

    /// The lower-case name of the format.
    pub fn as_str(&self) -> (s: &'static str)
        ensures
            s == self.name(),
    {
        match self {
            ResourceFileType::Json => "json",
            ResourceFileType::Yaml => "yaml",
            ResourceFileType::Toml => "toml",
            ResourceFileType::Text => "text",
        }
    }

    /// The name of the format as it is shown to a reader, and as it tags
    /// codec errors.
    pub fn display_name(&self) -> (s: &'static str)
        ensures
            s == self.label(),
    {
        match self {
            ResourceFileType::Json => "JSON",
            ResourceFileType::Yaml => "YAML",
            ResourceFileType::Toml => "TOML",
            ResourceFileType::Text => "Text",
        }
    }

    /// The shown name of the format, owned.
    pub fn to_string(&self) -> (s: String)
        ensures
            s@ == self.label()@,
    {
        self.display_name().to_owned()
    }

    /// Whether values can be read and written in this format.
    pub fn is_supported(&self) -> (b: bool)
        ensures
            b == self.supported(),
    {
        match self {
            ResourceFileType::Json => true,
            ResourceFileType::Yaml => true,
            _ => false,
        }
    }
}

impl AsRef<str> for ResourceFileType {
    /// The lower-case name of the format.
    fn as_ref(&self) -> (s: &str)
        ensures
            s == self.name(),
    {
        self.as_str()
    }
}

/// What a successful read hands back.
#[derive(Debug, PartialEq, Eq)]
pub enum DataResult<T> {
    /// A value within its time-to-live, or one with no time-to-live.
    Fresh(T),
    /// A value whose time-to-live has run out, handed back because the caller
    /// allowed it.
    Stale(T),
}

/// Why a read, a parse or a save failed.
#[derive(Debug, PartialEq, Eq)]
pub enum ResourceError {
    /// The lock around the memory slot could not be acquired.
    CacheLock,
    /// A value could not be encoded; the payload is the format's shown name.
    Serialization(&'static str),
    /// A text could not be decoded; the payload is the format's shown name.
    Deserialization(&'static str),
    /// The file system failed, or a file name did not carry a timestamp.
    Io(String),
    /// The declared format can be neither read nor written; the payload is
    /// its lower-case name.
    UnsupportedFileType(&'static str),
    /// No fresh value could be obtained and the caller did not allow a stale
    /// one.
    FreshingData,
    /// Neither a fresh nor a stale value is available in any tier.
    StaleInternalNone,
    /// Reserved for a time limit on requests; nothing reports it.
    Timeout,
}

/// What one read comes to.
pub type ReadOutcome<T> = Result<DataResult<Arc<T>>, ResourceError>;

/// The outcome of a read that hands back `value` as fresh.
pub open spec fn fresh<T>(value: Arc<T>) -> ReadOutcome<T> {
    Ok(DataResult::Fresh(value))
}

/// The outcome of a read that hands back `value` as stale.
pub open spec fn stale<T>(value: Arc<T>) -> ReadOutcome<T> {
    Ok(DataResult::Stale(value))
}

/// The outcome of a read that fails with `error`.
pub open spec fn failed<T>(error: ResourceError) -> ReadOutcome<T> {
    Err(error)
}

/// Whether `value` is what a read that came to `outcome` hands to a caller
/// who takes the type's default in place of a failure: a fresh value as it
/// is, a stale value only if the caller allows stale ones, and in every other
/// case a value that `T::default` returns.
pub open spec fn is_data_or_default<T: Default>(
    outcome: ReadOutcome<T>,
    allow_stale: bool,
    value: Arc<T>,
) -> bool {
    match outcome {
        Ok(DataResult::Fresh(found)) => value == found,
        Ok(DataResult::Stale(found)) if allow_stale => value == found,
        _ => call_ensures(T::default, (), *value),
    }
}

/// What a read that came to `outcome` hands to a caller who takes `None` in
/// place of a failure: a fresh value, a stale value only if the caller
/// allows stale ones, and `None` in every other case.
pub open spec fn data_or_none<T>(
    outcome: ReadOutcome<T>,
    allow_stale: bool,
) -> Option<Arc<T>> {
    match outcome {
        Ok(DataResult::Fresh(found)) => Some(found),
        Ok(DataResult::Stale(found)) if allow_stale => Some(found),
        _ => None,
    }
}

/// Whatever the failure, and whether the caller allows stale values or not,
/// the value handed out in place of the failure is one that `T::default`
/// returns. The same holds for a stale value that the caller does not allow.
pub proof fn lemma_default_in_place_of_failure<T: Default>(
    outcome: ReadOutcome<T>,
    allow_stale: bool,
    value: Arc<T>,
)
    requires
        is_data_or_default(outcome, allow_stale, value),
        outcome is Err || (outcome matches Ok(DataResult::Stale(_)) && !allow_stale),
    ensures
        call_ensures(T::default, (), *value),
        data_or_none(outcome, allow_stale) is None,
{
}

/// Whether a resource counts as fresh at `now`, given the files `candidates`
/// of its storage directory: it does unless its slot is marked stale and
/// neither memory nor disk holds a value within its time-to-live.
pub open spec fn counts_as_fresh<T>(
    resource: ResourceView<T>,
    now: int,
    candidates: Seq<DiskCandidate<T>>,
) -> bool {
    ||| !resource.cache.is_stale
    ||| (resource.memory_probe(now) matches Some(probe) && probe.1)
    ||| (resource.disk_probe(candidates, now) matches Some(probe) && probe.1)
}

/// Turns the outcome of a read into a value, with the type's default in
/// place of every failure.
pub fn or_default<T: Default>(
    outcome: ReadOutcome<T>,
    allow_stale: bool,
) -> (value: Arc<T>)
    ensures
        is_data_or_default(outcome, allow_stale, value),
{
    match outcome {
        Ok(data) => match data {
            DataResult::Fresh(found) => found,
            DataResult::Stale(found) => {
                if allow_stale {
                    found
                } else {
                    Arc::new(T::default())
                }
            },
        },
        Err(_) => Arc::new(T::default()),
    }
}

/// Turns the outcome of a read into a value, with `None` in place of every
/// failure.
pub fn or_none<T>(outcome: ReadOutcome<T>, allow_stale: bool) -> (value: Option<Arc<T>>)
    ensures
        value == data_or_none(outcome, allow_stale),
{
    match outcome {
        Ok(data) => match data {
            DataResult::Fresh(found) => Some(found),
            DataResult::Stale(found) => {
                if allow_stale {
                    Some(found)
                } else {
                    None
                }
            },
        },
        Err(_) => None,
    }
}

/// What every reader of a resource offers. A reader says how one read goes;
/// the reads that cannot fail are the same for every reader.
pub trait ResourceReader<T: Default> {
    /// What the tiers beyond memory answer during one read.
    type Sources;

    /// The resource that this reader reads.
    spec fn resource(&self) -> ResourceView<T>;

    /// One whole read of `resource` at `now`: the result, and the resource as
    /// the read leaves it.
    spec fn read(
        resource: ResourceView<T>,
        allow_stale: bool,
        now: int,
        sources: Self::Sources,
    ) -> (ReadOutcome<T>, ResourceView<T>);

    /// The state of the resource.
    fn get_state(&self) -> (state: &ResourceState<T>)
        ensures
            state@ == self.resource(),
    ;

    /// Marks the memory slot stale. Until a refresh succeeds, no read hands
    /// back what the slot holds.
    fn mark_as_stale(&mut self)
        ensures
            final(self).resource() == old(self).resource().marked_stale(),
    ;

    /// Whether the memory slot is marked stale.
    fn is_marked_stale(&self) -> (marked: bool)
        ensures
            marked == self.resource().cache.is_stale,
    {
        self.get_state().is_marked_stale()
    }

    /// Whether the resource counts as fresh at `now`, given the files of its
    /// storage directory in directory order.
    fn is_fresh(&self, now: Timestamp, candidates: Vec<DiskCandidate<T>>) -> (fresh: bool)
        ensures
            fresh == counts_as_fresh(self.resource(), now@, candidates@),
    {
        let state = self.get_state();
        !state.is_marked_stale() || state.is_internal_data_fresh(now)
            || state.is_disk_cached_data_fresh(candidates, now)
    }

    /// One whole read at `now`: a fresh value, a stale one if `allow_stale`
    /// holds, or the error that says why there is neither.
    fn get_data_or_error(
        &mut self,
        allow_stale: bool,
        now: Timestamp,
        sources: Self::Sources,
    ) -> (result: ReadOutcome<T>)
        ensures
            (result, final(self).resource()) == Self::read(
                old(self).resource(),
                allow_stale,
                now@,
                sources,
            ),
    ;

    /// One whole read at `now` that cannot fail: where `get_data_or_error`
    /// fails, the value is the type's default.
    fn get_data_or_default(
        &mut self,
        allow_stale: bool,
        now: Timestamp,
        sources: Self::Sources,
    ) -> (value: Arc<T>)
        ensures
            is_data_or_default(
                Self::read(old(self).resource(), allow_stale, now@, sources).0,
                allow_stale,
                value,
            ),
            final(self).resource() == Self::read(old(self).resource(), allow_stale, now@, sources).1,
    {
        or_default(self.get_data_or_error(allow_stale, now, sources), allow_stale)
    }

    /// One whole read at `now` that cannot fail: where `get_data_or_error`
    /// fails, there is no value.
    fn get_data_or_none(
        &mut self,
        allow_stale: bool,
        now: Timestamp,
        sources: Self::Sources,
    ) -> (value: Option<Arc<T>>)
        ensures
            value == data_or_none(
                Self::read(old(self).resource(), allow_stale, now@, sources).0,
                allow_stale,
            ),
            final(self).resource() == Self::read(old(self).resource(), allow_stale, now@, sources).1,
    {
        or_none(self.get_data_or_error(allow_stale, now, sources), allow_stale)
    }
}

} // verus!
