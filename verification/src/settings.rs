//! The settings handle: a value of the caller's type together with the path of its file.

use crate::codec::{decode, encode};
use crate::error::Error;
use crate::host::{Probe, Source};
use crate::resolver::{
    all_missing, candidate_paths, first_present, joined, leads, lemma_first_present_exists,
    lemma_leads_unique, path_of, FILE_NAME,
};
use ron::error::Error as EncodeError;
use ron::error::SpannedError;
use std::ops::{Deref, DerefMut};
use std::path::PathBuf;
use vstd::prelude::*;

verus! {

/// A value of the caller's type `T` and the path of the file that holds it.
///
/// A handle comes from a successful load and is never without a path. The value is reached
/// through the handle as if it were the handle itself; changes stay in memory until the handle
/// is saved.
#[derive(Debug, Clone)]
pub struct Settings<T> {
    path: PathBuf,
    inner: T,
}

impl<T> Settings<T> {
    /// The path that the handle was loaded from, which `save` writes to.
    pub closed spec fn location(&self) -> PathBuf {
        self.path
    }

    /// The value that the handle holds.
    pub closed spec fn value(&self) -> T {
        self.inner
    }

    /// A handle on `path` that holds `value`.
    pub fn new(path: PathBuf, value: T) -> (r: Self)
        ensures
            r.location() == path,
            r.value() == value,
    {
        Settings { path, inner: value }
    }

    /// The handle taken apart: its path and its value.
    pub fn into_parts(self) -> (r: (PathBuf, T))
        ensures
            r.0 == self.location(),
            r.1 == self.value(),
    {
        (self.path, self.inner)
    }

    /// The path that the handle was loaded from, which `save` writes to.
    pub fn path(&self) -> (r: &PathBuf)
        ensures
            *r == self.location(),
    {
        &self.path
    }
}

impl<T> Deref for Settings<T> {
    type Target = T;

    /// Read access to the value.
    fn deref(&self) -> (r: &T)
        ensures
            *r == self.value(),
    {
        &self.inner
    }
}

impl<T> DerefMut for Settings<T> {
    /// Write access to the value: whatever the caller leaves there is the handle's value from
    /// then on, and the path stays as it was.
    fn deref_mut(&mut self) -> (r: &mut T)
        ensures
            *r == old(self).value(),
            final(self).value() == *final(r),
            final(self).location() == old(self).location(),
    {
        &mut self.inner
    }
}

/// What loading from `path` may return, given what the host got from the file: the failure to
/// open with the path; for a file that could not be read, the parser's diagnostic; for a file
/// that was read, a handle on that path or the parser's diagnostic.
pub open spec fn loads<T>(path: PathBuf, source: Source, r: Result<Settings<T>, Error>) -> bool {
    match source {
        Source::Unopened(cause) => r == Err::<Settings<T>, Error>(
            Error::Open { source: cause, path },
        ),
        Source::Unread(_) => r is Err && r->Err_0 is Deserialize,
        Source::Read(_) => match r {
            Ok(settings) => settings.location() == path,
            Err(error) => error is Deserialize,
        },
    }
}

/// What loading from the candidates may return, given what the host found at each: `NotFound`
/// exactly when nothing exists at any candidate, and otherwise what loading from the first
/// candidate at which something exists may return.
pub open spec fn resolves<T>(
    candidates: Seq<PathBuf>,
    probes: Seq<Probe>,
    r: Result<Settings<T>, Error>,
) -> bool {
    &&& all_missing(probes, candidates.len() as int) <==> (r is Err && r->Err_0 is NotFound)
    &&& forall|index: int|
        leads(probes, index) && index < candidates.len() ==> loads(
            candidates[index],
            probes[index]->Present_0,
            r,
        )
}

/// What saving to `path` may return, given what the host got when it created the file: the
/// failure to create it with the path, or else a document or the encoder's diagnostic.
pub open spec fn saves(
    path: PathBuf,
    created: Result<(), std::io::Error>,
    r: Result<Vec<u8>, Error>,
) -> bool {
    match created {
        Err(source) => r == Err::<Vec<u8>, Error>(Error::Open { source, path }),
        Ok(_) => r is Err ==> r->Err_0 is Serialize,
    }
}

impl<T> Settings<T> where T: core::fmt::Debug + Clone + serde::Serialize + serde::de::DeserializeOwned {
    /// Loads the settings from the first candidate location at which the host found a file.
    ///
    /// `candidates` are the locations in order of priority and `probes` what the host found at
    /// each, position by position. A candidate without a probe counts as missing, so the host
    /// may stop probing at the first file it finds; a probe without a candidate is ignored.
    /// With no file at any candidate the load fails with `NotFound`.
    pub fn load(candidates: Vec<PathBuf>, probes: Vec<Probe>) -> (r: Result<Self, Error>)
        ensures
            resolves(candidates@, probes@, r),
    {
        let mut candidates = candidates;
        let mut probes = probes;
        let found = first_present(&probes);
        match found {
            Some(index) => {
                if index < candidates.len() {
                    assert forall|other: int|
                        leads(probes@, other) && other < candidates.len() implies other
                        == index by {
                        lemma_leads_unique(probes@, other, index as int);
                    }
                    let path = candidates.swap_remove(index);
                    let probe = probes.swap_remove(index);
                    match probe {
                        Probe::Present(source) => Self::load_from(path, source),
                        // The probe that leads is never a missing one.
                        Probe::Missing => Err(Error::NotFound),
                    }
                } else {
                    assert forall|other: int| 0 <= other < candidates.len() && other
                        < probes.len() implies probes[other] is Missing by {
                        assert(other < index);
                    }
                    Err(Error::NotFound)
                }
            },
            None => Err(Error::NotFound),
        }
    }

    /// Loads the settings from the file at `path`, given what the host got when it opened and
    /// read that file.
    pub fn load_from(path: PathBuf, source: Source) -> (r: Result<Self, Error>)
        ensures
            loads(path, source, r),
    {
        match source {
            Source::Unopened(cause) => Err(Error::Open { source: cause, path }),
            Source::Unread(cause) => Err(Error::unread(cause)),
            Source::Read(bytes) => Self::parsed(path, decode(bytes.as_slice())),
        }
    }

    /// The outcome of a load from `path` whose file parsed as `decoded`: a handle on the path
    /// with the parsed value, or the parser's diagnostic.
    pub fn parsed(path: PathBuf, decoded: Result<T, SpannedError>) -> (r: Result<Self, Error>)
        ensures
            match decoded {
                Ok(value) => r is Ok && r->Ok_0.location() == path && r->Ok_0.value() == value,
                Err(cause) => r == Err::<Self, Error>(Error::Deserialize(cause)),
            },
    {
        match decoded {
            Ok(value) => Ok(Settings::new(path, value)),
            Err(cause) => Err(Error::Deserialize(cause)),
        }
    }

    /// Saves the settings to the path they were loaded from, given what the host got when it
    /// created that file. Returns the document for the host to write.
    pub fn save(&self, created: Result<(), std::io::Error>) -> (r: Result<Vec<u8>, Error>)
        ensures
            saves(self.location(), created, r),
    {
        self.save_to(self.path.clone(), created)
    }

    /// Saves the settings to `path`, given what the host got when it created that file. Returns
    /// the document for the host to write. The handle keeps its own path and its value.
    pub fn save_to(&self, path: PathBuf, created: Result<(), std::io::Error>) -> (r: Result<
        Vec<u8>,
        Error,
    >)
        ensures
            saves(path, created, r),
    {
        match created {
            Err(source) => Err(Error::Open { source, path }),
            Ok(_) => Self::written(encode(&self.inner, true)),
        }
    }

    /// The outcome of a save whose value encoded as `encoded`: the document, or the encoder's
    /// diagnostic.
    pub fn written(encoded: Result<Vec<u8>, EncodeError>) -> (r: Result<Vec<u8>, Error>)
        ensures
            match encoded {
                Ok(document) => r == Ok::<Vec<u8>, Error>(document),
                Err(cause) => r == Err::<Vec<u8>, Error>(Error::Serialize(cause)),
            },
    {
        match encoded {
            Ok(document) => Ok(document),
            Err(cause) => Err(Error::Serialize(cause)),
        }
    }
}

/// Priority of the environment variable: when the variable is set and something exists at the
/// path it gives, the load is from that path, whatever exists in the current directory or in
/// the configuration directory.
pub proof fn lemma_variable_has_priority<T>(
    config_path: String,
    current_dir: Option<PathBuf>,
    config_dir: Option<PathBuf>,
    probes: Seq<Probe>,
    r: Result<Settings<T>, Error>,
)
    requires
        probes.len() > 0,
        probes[0] is Present,
        resolves(candidate_paths(Some(config_path), current_dir, config_dir), probes, r),
    ensures
        loads(path_of(config_path@), probes[0]->Present_0, r),
{
    let candidates = candidate_paths(Some(config_path), current_dir, config_dir);
    assert(candidates[0] == path_of(config_path@));
    assert(leads(probes, 0));
}

/// Fallback to the current directory: when the variable is not set, or nothing exists at the
/// path it gives, and the settings file of the current directory exists, the load is from that
/// file, whatever exists in the configuration directory. `position` is where the current
/// directory's candidate stands: first without the variable, second with it.
pub proof fn lemma_current_dir_is_next<T>(
    config_path: Option<String>,
    current_dir: PathBuf,
    config_dir: Option<PathBuf>,
    probes: Seq<Probe>,
    position: int,
    r: Result<Settings<T>, Error>,
)
    requires
        resolves(candidate_paths(config_path, Some(current_dir), config_dir), probes, r),
        position == candidate_paths(config_path, None, None).len(),
        all_missing(probes, position),
        position < probes.len(),
        probes[position] is Present,
    ensures
        loads(joined(current_dir, FILE_NAME@), probes[position]->Present_0, r),
{
    let candidates = candidate_paths(config_path, Some(current_dir), config_dir);
    assert(candidates[position] == joined(current_dir, FILE_NAME@));
    assert(leads(probes, position));
}

/// Nothing anywhere: when nothing exists at any candidate location, the load fails with
/// `NotFound`, and it fails with `NotFound` in no other case.
pub proof fn lemma_not_found_iff_all_missing<T>(
    candidates: Seq<PathBuf>,
    probes: Seq<Probe>,
    r: Result<Settings<T>, Error>,
)
    requires
        resolves(candidates, probes, r),
    ensures
        (r is Err && r->Err_0 is NotFound) <==> forall|index: int|
            0 <= index < candidates.len() && index < probes.len() ==> probes[index] is Missing,
{
}

/// A load never moves the handle elsewhere: whatever the outcome, a handle that comes back is on
/// one of the candidates, and an `Open` failure names one of them.
pub proof fn lemma_outcome_is_on_a_candidate<T>(
    candidates: Seq<PathBuf>,
    probes: Seq<Probe>,
    r: Result<Settings<T>, Error>,
)
    requires
        resolves(candidates, probes, r),
    ensures
        r is Ok ==> candidates.contains(r->Ok_0.location()),
        r is Err && r->Err_0 is Open ==> candidates.contains(r->Err_0->path),
{
    if !all_missing(probes, candidates.len() as int) {
        let index = choose|index: int|
            0 <= index < candidates.len() && index < probes.len() && !(probes[index] is Missing);
        lemma_first_present_exists(probes, index);
        let first = choose|first: int| leads(probes, first) && first <= index;
        assert(loads(candidates[first], probes[first]->Present_0, r));
    }
}

} // verus!
