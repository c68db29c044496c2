//! Where a settings file may live, and which of the candidate locations is used.
//!
//! The candidates are, in order of priority: the path given by the application's environment
//! variable, `settings.ron` in the current directory, and `settings.ron` in the platform's
//! configuration directory for the application. The library never touches the environment or the
//! file system itself: the host reads them and reports what it found.

use crate::host::Probe;
use std::path::PathBuf;
use vstd::prelude::*;

verus! {

/// The name of the settings file in the current directory and in the configuration directory.
pub const FILE_NAME: &'static str = "settings.ron";

/// What follows the upper-cased application name in the name of the environment variable.
pub const VARIABLE_SUFFIX: &'static str = "_CONFIG_PATH";

/// The upper-case equivalent of a string, as `str::to_uppercase` computes it from the Unicode
/// character tables.
pub uninterp spec fn uppercased(text: Seq<char>) -> Seq<char>;

/// `str::to_uppercase`: the result is the upper-case equivalent of the string.
pub assume_specification[ str::to_uppercase ](text: &str) -> (r: String)
    ensures
        r@ == uppercased(text@),
;

/// The path that a string denotes, as `PathBuf::from` builds it.
pub uninterp spec fn path_of(text: Seq<char>) -> PathBuf;

/// `PathBuf::from` on a `String`: the path that the string denotes.
#[verifier::external_body]
fn path_from(text: String) -> (r: PathBuf)
    ensures
        r == path_of(text@),
{
    PathBuf::from(text)
}

/// The path of the entry `name` in the directory `dir`, as `Path::join` builds it on the target
/// platform.
pub uninterp spec fn joined(dir: PathBuf, name: Seq<char>) -> PathBuf;

/// `Path::join`: the path of the entry `name` in the directory `dir`.
#[verifier::external_body]
fn join(dir: &PathBuf, name: &str) -> (r: PathBuf)
    ensures
        r == joined(*dir, name@),
{
    dir.join(name)
}

/// `directories::ProjectDirs::from` followed by `ProjectDirs::config_dir`: the platform's
/// configuration directory for the application, or `None` where the host has no home directory.
/// The answer depends on the host's environment, so nothing is claimed of it.
#[verifier::external_body]
fn config_dir(qualifier: &str, organization: &str, application: &str) -> Option<PathBuf> {
    directories::ProjectDirs::from(qualifier, organization, application)
        .map(|dirs| dirs.config_dir().to_path_buf())
}

/// The name of the environment variable that overrides every other location: the application
/// name in upper case, followed by `_CONFIG_PATH`.
pub open spec fn variable_name(application: Seq<char>) -> Seq<char> {
    uppercased(application) + VARIABLE_SUFFIX@
}

/// The name of the environment variable whose value, if set, is the first candidate.
pub fn config_path_var(application: &str) -> (r: String)
    ensures
        r@ == variable_name(application@),
{
    application.to_uppercase().concat(VARIABLE_SUFFIX)
}

/// A candidate that may be absent, as a list of at most one path.
pub open spec fn listed(slot: Option<PathBuf>) -> Seq<PathBuf> {
    match slot {
        Some(path) => seq![path],
        None => seq![],
    }
}

/// The candidate locations in order of priority, given the value of the environment variable,
/// the current directory and the configuration directory, each of which may be unknown.
pub open spec fn candidate_paths(
    config_path: Option<String>,
    current_dir: Option<PathBuf>,
    config_dir: Option<PathBuf>,
) -> Seq<PathBuf> {
    listed(
        match config_path {
            Some(text) => Some(path_of(text@)),
            None => None,
        },
    ) + listed(
        match current_dir {
            Some(dir) => Some(joined(dir, FILE_NAME@)),
            None => None,
        },
    ) + listed(
        match config_dir {
            Some(dir) => Some(joined(dir, FILE_NAME@)),
            None => None,
        },
    )
}

/// The candidate locations in order of priority, for a known configuration directory.
pub fn candidates_with(
    config_path: Option<String>,
    current_dir: Option<PathBuf>,
    config_dir: Option<PathBuf>,
) -> (r: Vec<PathBuf>)
    ensures
        r@ == candidate_paths(config_path, current_dir, config_dir),
{
    let mut paths: Vec<PathBuf> = Vec::new();
    if let Some(text) = config_path {
        paths.push(path_from(text));
    }
    if let Some(dir) = current_dir {
        paths.push(join(&dir, FILE_NAME));
    }
    if let Some(dir) = config_dir {
        paths.push(join(&dir, FILE_NAME));
    }
    paths
}

/// The candidate locations in order of priority. `config_path` is the value of the environment
/// variable named by [`config_path_var`], `current_dir` the process's current directory; the
/// configuration directory is the platform's for the three identifiers.
pub fn candidates(
    config_path: Option<String>,
    current_dir: Option<PathBuf>,
    qualifier: &str,
    organization: &str,
    application: &str,
) -> (r: Vec<PathBuf>)
    ensures
        exists|dir: Option<PathBuf>| r@ == #[trigger] candidate_paths(config_path, current_dir, dir),
{
    let dir = config_dir(qualifier, organization, application);
    candidates_with(config_path, current_dir, dir)
}

/// Whether `index` is the first location at which the host found something.
pub open spec fn leads(probes: Seq<Probe>, index: int) -> bool {
    &&& 0 <= index < probes.len()
    &&& probes[index] is Present
    &&& forall|earlier: int| 0 <= earlier < index ==> probes[earlier] is Missing
}

/// Whether the host found nothing at any of the first `count` locations.
pub open spec fn all_missing(probes: Seq<Probe>, count: int) -> bool {
    forall|index: int| 0 <= index < count && index < probes.len() ==> probes[index] is Missing
}

/// The first location at which the host found something, if there is one.
pub fn first_present(probes: &Vec<Probe>) -> (r: Option<usize>)
    ensures
        match r {
            Some(index) => leads(probes@, index as int),
            None => all_missing(probes@, probes.len() as int),
        },
{
    let mut index: usize = 0;
    while index < probes.len()
        invariant
            index <= probes.len(),
            all_missing(probes@, index as int),
        decreases probes.len() - index,
    {
        match &probes[index] {
            Probe::Present(_) => {
                return Some(index);
            },
            Probe::Missing => {},
        }
        index += 1;
    }
    None
}

/// At most one location leads: the choice among the candidates is unambiguous.
pub proof fn lemma_leads_unique(probes: Seq<Probe>, first: int, second: int)
    requires
        leads(probes, first),
        leads(probes, second),
    ensures
        first == second,
{
    if first < second {
        assert(probes[first] is Missing);
    } else if second < first {
        assert(probes[second] is Missing);
    }
}

/// Where something exists at a location, some location at or before it leads.
pub proof fn lemma_first_present_exists(probes: Seq<Probe>, index: int)
    requires
        0 <= index < probes.len(),
        probes[index] is Present,
    ensures
        exists|first: int| leads(probes, first) && first <= index,
    decreases index,
{
    if exists|earlier: int| 0 <= earlier < index && probes[earlier] is Present {
        let earlier = choose|earlier: int| 0 <= earlier < index && probes[earlier] is Present;
        lemma_first_present_exists(probes, earlier);
        let first = choose|first: int| leads(probes, first) && first <= earlier;
        assert(leads(probes, first) && first <= index);
    } else {
        assert(leads(probes, index));
    }
}

} // verus!
