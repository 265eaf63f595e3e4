//! A builder that collects the properties of a resource and makes a reader
//! for it.

use std::marker::PhantomData;
use vstd::prelude::*;

use crate::base::{text_view, CacheView, ResourceProps, ResourceState, ResourceView};
use crate::local::DefaultLocalResourceReader;
use crate::remote::DefaultRemoteResourceReader;
use crate::time::{span_view, TimeSpan};
use crate::traits::ResourceFileType;

verus! {

/// What a builder has collected so far.
pub struct BuilderView {
    pub file_name: Option<Seq<char>>,
    pub url: Option<Seq<char>>,
    pub cache_directory: Option<Seq<char>>,
    pub timeout: Option<nat>,
    pub file_type: Option<ResourceFileType>,
}

impl BuilderView {
    /// The format of the resource that is built: the one that was set, and
    /// JSON where none was.
    pub open spec fn chosen_file_type(self) -> ResourceFileType {
        match self.file_type {
            Some(file_type) => file_type,
            None => ResourceFileType::Json,
        }
    }

    /// The storage directory of the resource that is built: the one that
    /// was set, and the current directory where none was.
    pub open spec fn chosen_directory(self) -> Seq<char> {
        match self.cache_directory {
            Some(directory) => directory,
            None => "."@,
        }
    }

    /// The resource that is built, with `url` as its origin: its memory slot
    /// is empty.
    pub open spec fn resource<T>(self, url: Option<Seq<char>>) -> ResourceView<T>
        recommends
            self.file_name is Some,
    {
        ResourceView {
            file_name: self.file_name->0,
            file_type: self.chosen_file_type(),
            url,
            storage_directory: self.chosen_directory(),
            timeout: self.timeout,
            cache: CacheView { data: None, is_stale: false, timestamp: 0 },
        }
    }
}

/// The message of the error for a resource without a file name.
pub open spec fn file_name_required() -> Seq<char> {
    "File name is required"@
}

/// The message of the error for a remote resource without an origin.
pub open spec fn url_required() -> Seq<char> {
    "URL is required for remote resources"@
}

/// A builder of readers for resources whose values have the type `T`.
#[derive(Debug)]
pub struct ResourceBuilder<T> {
    file_name: Option<String>,
    url: Option<String>,
    cache_directory: Option<String>,
    timeout: Option<TimeSpan>,
    file_type: Option<ResourceFileType>,
    _phantom: PhantomData<T>,
}

impl<T> View for ResourceBuilder<T> {
    type V = BuilderView;

    closed spec fn view(&self) -> BuilderView {
        BuilderView {
            file_name: text_view(self.file_name),
            url: text_view(self.url),
            cache_directory: text_view(self.cache_directory),
            timeout: span_view(self.timeout),
            file_type: self.file_type,
        }
    }
}

impl<T> Default for ResourceBuilder<T> {
    /// A builder that has collected nothing.
    fn default() -> (builder: ResourceBuilder<T>)
        ensures
            builder@ == (BuilderView {
                file_name: None,
                url: None,
                cache_directory: None,
                timeout: None,
                file_type: None,
            }),
    {
        ResourceBuilder {
            file_name: None,
            url: None,
            cache_directory: None,
            timeout: None,
            file_type: None,
            _phantom: PhantomData,
        }
    }
}

impl<T: Send + Sync + 'static> ResourceBuilder<T> {
    /// A builder that has collected nothing.
    pub fn new() -> (builder: ResourceBuilder<T>)
        ensures
            builder@ == (BuilderView {
                file_name: None,
                url: None,
                cache_directory: None,
                timeout: None,
                file_type: None,
            }),
    {
        ResourceBuilder::default()
    }

    /// Sets the prefix of the resource's file names.
    pub fn file_name(self, file_name: String) -> (builder: ResourceBuilder<T>)
        ensures
            builder@ == (BuilderView { file_name: Some(file_name@), ..self@ }),
    {
        let mut builder = self;
        builder.file_name = Some(file_name);
        builder
    }

    /// Sets the origin of a remote resource.
    pub fn url(self, url: String) -> (builder: ResourceBuilder<T>)
        ensures
            builder@ == (BuilderView { url: Some(url@), ..self@ }),
    {
        let mut builder = self;
        builder.url = Some(url);
        builder
    }

    /// Sets the storage directory.
    pub fn cache_directory(self, dir: String) -> (builder: ResourceBuilder<T>)
        ensures
            builder@ == (BuilderView { cache_directory: Some(dir@), ..self@ }),
    {
        let mut builder = self;
        builder.cache_directory = Some(dir);
        builder
    }

    /// Sets the time-to-live of cached values.
    pub fn timeout(self, timeout: TimeSpan) -> (builder: ResourceBuilder<T>)
        ensures
            builder@ == (BuilderView { timeout: Some(timeout@), ..self@ }),
    {
        let mut builder = self;
        builder.timeout = Some(timeout);
        builder
    }

    /// Sets the declared content format.
    pub fn file_type(self, file_type: ResourceFileType) -> (builder: ResourceBuilder<T>)
        ensures
            builder@ == (BuilderView { file_type: Some(file_type), ..self@ }),
    {
        let mut builder = self;
        builder.file_type = Some(file_type);
        builder
    }

    /// The properties of the resource that is built.
    fn into_props(
        file_name: String,
        url: Option<String>,
        cache_directory: Option<String>,
        timeout: Option<TimeSpan>,
        file_type: Option<ResourceFileType>,
    ) -> (props: ResourceProps<T>)
        ensures
            props@ == (BuilderView {
                file_name: Some(file_name@),
                url: None,
                cache_directory: text_view(cache_directory),
                timeout: span_view(timeout),
                file_type,
            }).resource::<T>(text_view(url)),
    {
        let directory = match cache_directory {
            Some(directory) => directory,
            None => ".".to_owned(),
        };
        let file_type = match file_type {
            Some(file_type) => file_type,
            None => ResourceFileType::Json,
        };
        ResourceProps::new(file_name, file_type, url, directory, timeout)
    }

    /// Builds the reader of a remote resource. A file name and an origin
    /// are required, the file name first. The storage directory defaults to
    /// the current directory and the format to JSON.
    pub fn build_remote(self) -> (built: Result<DefaultRemoteResourceReader<T>, String>)
        ensures
            match (self@.file_name, self@.url) {
                (Some(_), Some(url)) => built matches Ok(reader) && reader@ == self@.resource::<T>(
                    Some(url),
                ),
                (Some(_), None) => built matches Err(message) && message@ == url_required(),
                (None, _) => built matches Err(message) && message@ == file_name_required(),
            },
    {
        let ResourceBuilder { file_name, url, cache_directory, timeout, file_type, _phantom } = self;
        let file_name = match file_name {
            Some(file_name) => file_name,
            None => {
                return Err("File name is required".to_owned());
            },
        };
        let url = match url {
            Some(url) => url,
            None => {
                return Err("URL is required for remote resources".to_owned());
            },
        };
        let props = Self::into_props(file_name, Some(url), cache_directory, timeout, file_type);
        Ok(DefaultRemoteResourceReader::new(ResourceState::new(props)))
    }

    /// Builds the reader of a local resource. A file name is required. The
    /// storage directory defaults to the current directory and the format
    /// to JSON. A local resource has no origin: one that was set is dropped.
    pub fn build_local(self) -> (built: Result<DefaultLocalResourceReader<T>, String>)
        ensures
            match self@.file_name {
                Some(_) => built matches Ok(reader) && reader@ == self@.resource::<T>(None),
                None => built matches Err(message) && message@ == file_name_required(),
            },
    {
        let ResourceBuilder { file_name, url: _, cache_directory, timeout, file_type, _phantom } =
            self;
        let file_name = match file_name {
            Some(file_name) => file_name,
            None => {
                return Err("File name is required".to_owned());
            },
        };
        let props = Self::into_props(file_name, None, cache_directory, timeout, file_type);
        Ok(DefaultLocalResourceReader::new(ResourceState::new(props)))
    }
}

} // verus!
