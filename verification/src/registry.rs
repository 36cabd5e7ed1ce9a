//! The module registry: which files of a directory are plugins, what resource
//! each one serves, and the table of loaded plugins.
//!
//! A plugin for the resource `File` is a dynamic library `File.so` (or
//! `File.dylib`, by the platform). The resource's name is what stands in the
//! file's name before the first `.`; it is the name of the binding in a
//! manifest and the prefix of the plugin's entry points. Two plugins for one
//! name are refused, and so is a plugin that lacks an entry point.

use crate::protocol::{entry_point, phase_suffix, PluginLibrary};
use crate::text::same_text;
use crate::ExecutionPhase;
use vstd::prelude::*;
use vstd::string::StringExecFns;

verus! {

/// Where the file's name starts in `path`: behind the last `/`.
pub open spec fn name_start(path: Seq<char>) -> int
    decreases path.len(),
{
    if path.len() == 0 {
        0
    } else if path.last() == '/' {
        path.len() as int
    } else {
        name_start(path.drop_last())
    }
}

/// The last component of `path`.
pub open spec fn file_name(path: Seq<char>) -> Seq<char> {
    path.subrange(name_start(path), path.len() as int)
}

/// How many characters stand before the first `.` of `name`.
pub open spec fn stem_len(name: Seq<char>) -> int
    decreases name.len(),
{
    if name.len() == 0 {
        0
    } else if name.first() == '.' {
        0
    } else {
        1 + stem_len(name.drop_first())
    }
}

/// What stands before the first `.` of `name`.
pub open spec fn stem(name: Seq<char>) -> Seq<char> {
    name.subrange(0, stem_len(name))
}

/// The name of the resource that the plugin at `path` serves.
pub open spec fn resource_name_spec(path: Seq<char>) -> Seq<char> {
    stem(file_name(path))
}

/// `path` ends in a `.` followed by `extension`.
pub open spec fn has_extension(path: Seq<char>, extension: Seq<char>) -> bool {
    &&& path.len() > extension.len()
    &&& path[path.len() - extension.len() - 1] == '.'
    &&& path.subrange(path.len() - extension.len(), path.len() as int) == extension
}

/// The paths of `listing` that are plugins, in the order of the listing.
pub open spec fn plugin_paths(listing: Seq<String>, extension: Seq<char>) -> Seq<Seq<char>>
    decreases listing.len(),
{
    if listing.len() == 0 {
        Seq::<Seq<char>>::empty()
    } else if has_extension(listing.last()@, extension) {
        plugin_paths(listing.drop_last(), extension).push(listing.last()@)
    } else {
        plugin_paths(listing.drop_last(), extension)
    }
}

/// The resource names of `paths`.
pub open spec fn names_of(paths: Seq<Seq<char>>) -> Seq<Seq<char>> {
    Seq::new(paths.len(), |i: int| resource_name_spec(paths[i]))
}

/// The first position of `names` that repeats an earlier name.
pub open spec fn first_repeat(names: Seq<Seq<char>>) -> Option<int>
    decreases names.len(),
{
    if names.len() == 0 {
        None
    } else {
        match first_repeat(names.drop_last()) {
            Some(j) => Some(j),
            None => if names.drop_last().contains(names.last()) {
                Some(names.len() - 1)
            } else {
                None
            },
        }
    }
}

/// `name_start` is where the longest suffix without `/` begins.
pub proof fn name_start_is_behind_last_slash(path: Seq<char>)
    ensures
        0 <= name_start(path) <= path.len(),
        forall|i: int| name_start(path) <= i < path.len() ==> path[i] != '/',
        name_start(path) > 0 ==> path[name_start(path) - 1] == '/',
    decreases path.len(),
{
    if path.len() > 0 && path.last() != '/' {
        let front = path.drop_last();
        name_start_is_behind_last_slash(front);
        assert forall|i: int| name_start(path) <= i < path.len() implies path[i] != '/' by {
            if i < front.len() {
                assert(path[i] == front[i]);
            }
        }
        if name_start(path) > 0 {
            assert(path[name_start(path) - 1] == front[name_start(front) - 1]);
        }
    }
}

/// `stem_len` is the position of the first `.`, or the length where there is
/// none.
pub proof fn stem_len_is_first_dot(name: Seq<char>)
    ensures
        0 <= stem_len(name) <= name.len(),
        forall|i: int| 0 <= i < stem_len(name) ==> name[i] != '.',
        stem_len(name) < name.len() ==> name[stem_len(name)] == '.',
    decreases name.len(),
{
    if name.len() > 0 && name.first() != '.' {
        let rest = name.drop_first();
        stem_len_is_first_dot(rest);
        assert forall|i: int| 0 <= i < stem_len(name) implies name[i] != '.' by {
            if i > 0 {
                assert(name[i] == rest[i - 1]);
            }
        }
    }
}

/// A position `k` with no `.` before it, and a `.` at it or the end of `name`,
/// is `stem_len`.
proof fn stem_len_found(name: Seq<char>, k: int)
    requires
        0 <= k <= name.len(),
        forall|i: int| 0 <= i < k ==> name[i] != '.',
        k < name.len() ==> name[k] == '.',
    ensures
        stem_len(name) == k,
    decreases name.len(),
{
    if name.len() > 0 && k > 0 {
        let rest = name.drop_first();
        assert(name[0] != '.');
        assert forall|i: int| 0 <= i < k - 1 implies rest[i] != '.' by {
            assert(rest[i] == name[i + 1]);
        }
        stem_len_found(rest, k - 1);
    }
}

/// A position `k` at the start of `path` or behind a `/`, with no `/` from it
/// on, is `name_start`.
proof fn name_start_found(path: Seq<char>, k: int)
    requires
        0 <= k <= path.len(),
        forall|i: int| k <= i < path.len() ==> path[i] != '/',
        k > 0 ==> path[k - 1] == '/',
    ensures
        name_start(path) == k,
    decreases path.len(),
{
    if path.len() > 0 {
        if k == path.len() {
        } else {
            name_start_found(path.drop_last(), k);
        }
    }
}

/// The resource name is the stem of the file's name: a part of the path that
/// holds neither `/` nor `.`, begins the last component, and ends at its first
/// `.` or at its end.
pub proof fn resource_name_is_stem(path: Seq<char>)
    ensures
        resource_name_spec(path).is_prefix_of(file_name(path)),
        file_name(path).is_suffix_of(path),
        !resource_name_spec(path).contains('.'),
        !resource_name_spec(path).contains('/'),
        resource_name_spec(path).len() < file_name(path).len() ==> file_name(path)[resource_name_spec(
            path,
        ).len() as int] == '.',
{
    name_start_is_behind_last_slash(path);
    stem_len_is_first_dot(file_name(path));
}

/// No name repeats exactly where `first_repeat` finds nothing; and what it
/// finds is the earliest repeat.
pub proof fn first_repeat_is_earliest(names: Seq<Seq<char>>)
    ensures
        first_repeat(names) is None <==> names.no_duplicates(),
        first_repeat(names) matches Some(j) ==> {
            &&& 0 < j < names.len()
            &&& names.take(j).contains(names[j])
            &&& names.take(j).no_duplicates()
        },
    decreases names.len(),
{
    if names.len() > 0 {
        let front = names.drop_last();
        first_repeat_is_earliest(front);
        match first_repeat(front) {
            Some(j) => {
                assert(front.take(j) =~= names.take(j));
                assert(front[j] == names[j]);
                let i = choose|i: int| 0 <= i < j && front.take(j)[i] == front[j];
                assert(names[i] == names[j]);
            },
            None => {
                if front.contains(names.last()) {
                    assert(names.take(names.len() - 1) =~= front);
                    let i = choose|i: int| 0 <= i < front.len() && front[i] == names.last();
                    assert(names[i] == names[names.len() - 1]);
                } else {
                    assert forall|i: int, j: int|
                        0 <= i < names.len() && 0 <= j < names.len() && i != j implies names[i]
                        != names[j] by {
                        if i < front.len() && j < front.len() {
                            assert(front[i] != front[j]);
                        } else if i < front.len() {
                            assert(front[i] == names[i]);
                        } else {
                            assert(front[j] == names[j]);
                        }
                    }
                }
            },
        }
    }
}

/// Plugins that were registered serve resources of different names.
pub proof fn registered_names_differ<H>(modules: Seq<ModuleDescriptor<H>>, paths: Seq<Seq<char>>)
    requires
        registers(modules, paths),
        first_repeat(names_of(paths)) is None,
    ensures
        forall|i: int, j: int|
            0 <= i < j < modules.len() ==> (#[trigger] modules[i]).name@ != (
            #[trigger] modules[j]).name@,
{
    first_repeat_is_earliest(names_of(paths));
    assert forall|i: int, j: int| 0 <= i < j < modules.len() implies (#[trigger] modules[i]).name@
        != (#[trigger] modules[j]).name@ by {
        assert(names_of(paths)[i] != names_of(paths)[j]);
    }
}

/// A repeat found in the first names of a list is the first repeat of the
/// list.
proof fn first_repeat_extends(names: Seq<Seq<char>>, k: int)
    requires
        0 <= k <= names.len(),
        first_repeat(names.take(k)) is Some,
    ensures
        first_repeat(names) == first_repeat(names.take(k)),
    decreases names.len() - k,
{
    if k < names.len() {
        assert(names.take(k + 1).drop_last() =~= names.take(k));
        first_repeat_extends(names, k + 1);
    } else {
        assert(names.take(k) =~= names);
    }
}

/// The plugins among the first entries of a listing begin the plugins of the
/// listing.
proof fn plugin_paths_grow(listing: Seq<String>, extension: Seq<char>, k: int)
    requires
        0 <= k <= listing.len(),
    ensures
        plugin_paths(listing.take(k), extension).is_prefix_of(plugin_paths(listing, extension)),
    decreases listing.len() - k,
{
    if k < listing.len() {
        assert(listing.take(k + 1).drop_last() =~= listing.take(k));
        plugin_paths_grow(listing, extension, k + 1);
    } else {
        assert(listing.take(k) =~= listing);
    }
}

/// The name of the resource that the plugin at `path` serves: the part of the
/// file's name before its first `.`.
pub fn resource_name(path: &str) -> (name: String)
    ensures
        name@ == resource_name_spec(path@),
{
    let n = path.unicode_len();
    let mut start: usize = 0;
    let mut i: usize = 0;
    while i < n
        invariant
            n == path@.len(),
            i <= n,
            start <= i,
            forall|k: int| start <= k < i ==> path@[k] != '/',
            start > 0 ==> path@[start - 1] == '/',
        decreases n - i,
    {
        if path.get_char(i) == '/' {
            start = i + 1;
        }
        i = i + 1;
    }
    let mut end: usize = start;
    while end < n && path.get_char(end) != '.'
        invariant
            n == path@.len(),
            start <= end <= n,
            forall|k: int| start <= k < end ==> path@[k] != '.',
        decreases n - end,
    {
        end = end + 1;
    }
    proof {
        name_start_found(path@, start as int);
        let name = file_name(path@);
        assert forall|k: int| 0 <= k < end - start implies name[k] != '.' by {
            assert(name[k] == path@[start + k]);
        }
        stem_len_found(name, end - start);
        assert(path@.subrange(start as int, end as int) =~= stem(name));
    }
    path.substring_char(start, end).to_string()
}

/// Whether `path` names a plugin: its name ends in `.` and the platform's
/// extension for dynamic libraries.
pub fn is_plugin_path(path: &str, extension: &str) -> (r: bool)
    ensures
        r == has_extension(path@, extension@),
{
    let n = path.unicode_len();
    let m = extension.unicode_len();
    if n <= m {
        return false;
    }
    let base: usize = n - m;
    if path.get_char(base - 1) != '.' {
        return false;
    }
    let mut i: usize = 0;
    while i < m
        invariant
            n == path@.len(),
            m == extension@.len(),
            base == n - m,
            i <= m,
            forall|k: int| 0 <= k < i ==> path@[base + k] == extension@[k],
        decreases m - i,
    {
        if path.get_char(base + i) != extension.get_char(i) {
            assert(path@.subrange(base as int, n as int)[i as int] != extension@[i as int]);
            return false;
        }
        i = i + 1;
    }
    assert(path@.subrange(base as int, n as int) =~= extension@);
    true
}

/// A plugin file and the resource it serves.
#[derive(Debug, Clone, PartialEq, Eq)]
pub struct ModuleFile {
    pub name: String,
    pub path: String,
}

/// One loaded plugin. `name` is the resource it serves, `binary_path` the file
/// it was loaded from, `handle` the loaded library, which lives as long as the
/// descriptor.
#[derive(Debug, Clone)]
pub struct ModuleDescriptor<H> {
    pub name: String,
    pub binary_path: String,
    pub handle: H,
}

/// Why the plugins of a directory could not be registered.
#[derive(Debug, Clone, PartialEq, Eq)]
pub enum RegistryError {
    /// Two plugin files serve the resource of this name.
    DuplicateResourceName(String),
    /// The plugin at `path` could not be loaded, or lacks an entry point.
    LoadError { path: String, reason: String },
}

impl RegistryError {
    /// The text that reports this failure.
    pub open spec fn text(self) -> Seq<char> {
        match self {
            RegistryError::DuplicateResourceName(name) => "two plugins serve the resource "@
                + name@,
            RegistryError::LoadError { path, reason } => "cannot load "@ + path@ + ": "@
                + reason@,
        }
    }

    /// The text that reports this failure.
    pub fn message(&self) -> (s: String)
        ensures
            s@ == self.text(),
    {
        match self {
            RegistryError::DuplicateResourceName(name) => {
                "two plugins serve the resource ".to_string().concat(name.as_str())
            },
            RegistryError::LoadError { path, reason } => {
                "cannot load ".to_string().concat(path.as_str()).concat(": ").concat(
                    reason.as_str(),
                )
            },
        }
    }
}

/// Loads dynamic libraries. Nothing is assumed of an implementation.
pub trait ModuleLoader {
    type Handle;

    /// Loads the library at `path`, or says why it cannot.
    fn load(&self, path: &str) -> Result<Self::Handle, String>;
}

/// `files` are the plugins `paths` with their resource names.
pub open spec fn lists(files: Seq<ModuleFile>, paths: Seq<Seq<char>>) -> bool {
    &&& files.len() == paths.len()
    &&& forall|i: int|
        0 <= i < files.len() ==> (#[trigger] files[i]).path@ == paths[i] && files[i].name@
            == resource_name_spec(paths[i])
}

/// `modules` are plugins loaded from `paths`, under their resource names.
pub open spec fn registers<H>(modules: Seq<ModuleDescriptor<H>>, paths: Seq<Seq<char>>) -> bool {
    &&& modules.len() == paths.len()
    &&& forall|i: int|
        0 <= i < modules.len() ==> (#[trigger] modules[i]).binary_path@ == paths[i]
            && modules[i].name@ == resource_name_spec(paths[i])
}

fn held_by(files: &Vec<ModuleFile>, name: &str) -> (r: bool)
    ensures
        r == Seq::new(files@.len(), |i: int| files@[i].name@).contains(name@),
{
    let ghost names = Seq::new(files@.len(), |i: int| files@[i].name@);
    let mut i: usize = 0;
    while i < files.len()
        invariant
            i <= files.len(),
            names == Seq::new(files@.len(), |i: int| files@[i].name@),
            forall|k: int| 0 <= k < i ==> names[k] != name@,
        decreases files.len() - i,
    {
        if same_text(files[i].name.as_str(), name) {
            assert(names[i as int] == name@);
            return true;
        }
        i = i + 1;
    }
    false
}

/// Picks the plugins out of the entries of a directory and names the resource
/// of each. Fails where two of them serve one resource, with the name of the
/// first that repeats an earlier one.
pub fn plan(listing: &Vec<String>, extension: &str) -> (r: Result<Vec<ModuleFile>, RegistryError>)
    ensures
        match r {
            Ok(files) => {
                &&& first_repeat(names_of(plugin_paths(listing@, extension@))) is None
                &&& lists(files@, plugin_paths(listing@, extension@))
            },
            Err(RegistryError::DuplicateResourceName(name)) => {
                let names = names_of(plugin_paths(listing@, extension@));
                first_repeat(names) matches Some(j) && name@ == names[j]
            },
            Err(RegistryError::LoadError { .. }) => false,
        },
{
    let mut files: Vec<ModuleFile> = Vec::new();
    let mut i: usize = 0;
    while i < listing.len()
        invariant
            i <= listing.len(),
            lists(files@, plugin_paths(listing@.take(i as int), extension@)),
            first_repeat(names_of(plugin_paths(listing@.take(i as int), extension@))) is None,
        decreases listing.len() - i,
    {
        let ghost seen = plugin_paths(listing@.take(i as int), extension@);
        let ghost next = plugin_paths(listing@.take(i + 1), extension@);
        proof {
            assert(listing@.take(i + 1).drop_last() =~= listing@.take(i as int));
            assert(listing@.take(i + 1).last() == listing@[i as int]);
        }
        let path = listing[i].as_str();
        if is_plugin_path(path, extension) {
            let name = resource_name(path);
            proof {
                assert(next == seen.push(path@));
                assert(names_of(next).drop_last() =~= names_of(seen));
                assert(names_of(next).last() == name@);
                assert(names_of(seen) =~= Seq::new(files@.len(), |k: int| files@[k].name@));
            }
            if held_by(&files, name.as_str()) {
                proof {
                    let all = plugin_paths(listing@, extension@);
                    plugin_paths_grow(listing@, extension@, i + 1);
                    assert(names_of(all).take(next.len() as int) =~= names_of(next));
                    first_repeat_extends(names_of(all), next.len() as int);
                }
                return Err(RegistryError::DuplicateResourceName(name));
            }
            files.push(ModuleFile { name, path: path.to_string() });
        }
        i = i + 1;
    }
    assert(listing@.take(i as int) =~= listing@);
    Ok(files)
}

/// The entry point that a plugin for `name` lacks, where `validates` and
/// `applies` say which of the two it exports: the one for validation first.
pub fn missing_entry_point(name: &str, validates: bool, applies: bool) -> (r: Option<String>)
    ensures
        match r {
            None => validates && applies,
            Some(symbol) => if !validates {
                symbol@ == name@ + phase_suffix(ExecutionPhase::Validating)
            } else {
                !applies && symbol@ == name@ + phase_suffix(ExecutionPhase::Applying)
            },
        },
{
    if !validates {
        Some(entry_point(name, ExecutionPhase::Validating))
    } else if !applies {
        Some(entry_point(name, ExecutionPhase::Applying))
    } else {
        None
    }
}

/// Why a plugin for `name` that lacks its entry point for `phase` is refused.
pub open spec fn lacks(name: Seq<char>, phase: ExecutionPhase) -> Seq<char> {
    "missing entry point "@ + (name + phase_suffix(phase))
}

/// `r` is what looking over a plugin for `name` comes to, where `validates`
/// and `applies` say which of its two entry points it exports: it is refused
/// for the one it lacks, for the one for validation first.
pub open spec fn inspected(
    r: Result<(), String>,
    name: Seq<char>,
    validates: bool,
    applies: bool,
) -> bool {
    match r {
        Ok(_) => validates && applies,
        Err(reason) => if !validates {
            reason@ == lacks(name, ExecutionPhase::Validating)
        } else {
            !applies && reason@ == lacks(name, ExecutionPhase::Applying)
        },
    }
}

/// Looks for the two entry points of the plugin for `name` in `handle`. Where
/// one is not exported, the plugin is refused for it, for the one for
/// validation first.
fn inspect<H: PluginLibrary>(name: &str, handle: &H) -> (r: Result<(), String>)
    ensures
        exists|validates: bool, applies: bool| #[trigger] inspected(r, name@, validates, applies),
{
    let validates = handle.exports(entry_point(name, ExecutionPhase::Validating).as_str());
    let applies = handle.exports(entry_point(name, ExecutionPhase::Applying).as_str());
    let r = match missing_entry_point(name, validates, applies) {
        Some(symbol) => Err("missing entry point ".to_string().concat(symbol.as_str())),
        None => Ok(()),
    };
    assert(inspected(r, name@, validates, applies));
    r
}

/// Registers the plugins of a directory. `listing` holds the paths of the
/// directory's entries, and is `None` where there is no directory, which is no
/// failure: there are no plugins then.
///
/// Names are settled before anything is loaded. Then each plugin is loaded, in
/// the order of the listing, and looked over for its entry points. The first
/// that fails to load, or lacks an entry point, fails the discovery.
pub fn discover<L: ModuleLoader>(
    loader: &L,
    listing: Option<&Vec<String>>,
    extension: &str,
) -> (r: Result<Vec<ModuleDescriptor<L::Handle>>, RegistryError>) where L::Handle: PluginLibrary
    ensures
        listing is None ==> (r matches Ok(modules) && modules.len() == 0),
        listing matches Some(entries) ==> {
            let paths = plugin_paths(entries@, extension@);
            match r {
                Ok(modules) => first_repeat(names_of(paths)) is None && registers(modules@, paths),
                Err(RegistryError::DuplicateResourceName(name)) => first_repeat(
                    names_of(paths),
                ) matches Some(j) && name@ == names_of(paths)[j],
                Err(RegistryError::LoadError { path, .. }) => first_repeat(names_of(paths))
                    is None && paths.contains(path@),
            }
        },
        listing matches Some(entries) && plugin_paths(entries@, extension@).len() == 0 ==> r
            is Ok,
{
    let entries = match listing {
        None => {
            return Ok(Vec::new());
        },
        Some(entries) => entries,
    };
    let files = match plan(entries, extension) {
        Ok(files) => files,
        Err(e) => {
            return Err(e);
        },
    };
    let ghost paths = plugin_paths(entries@, extension@);
    let mut modules: Vec<ModuleDescriptor<L::Handle>> = Vec::new();
    let mut i: usize = 0;
    while i < files.len()
        invariant
            i <= files.len(),
            listing == Some(entries),
            paths == plugin_paths(entries@, extension@),
            first_repeat(names_of(paths)) is None,
            lists(files@, paths),
            registers(modules@, paths.take(i as int)),
        decreases files.len() - i,
    {
        let file = &files[i];
        match loader.load(file.path.as_str()) {
            Ok(handle) => {
                match inspect(file.name.as_str(), &handle) {
                    Ok(_) => {},
                    Err(reason) => {
                        assert(paths[i as int] == file.path@);
                        return Err(RegistryError::LoadError { path: file.path.clone(), reason });
                    },
                }
                modules.push(
                    ModuleDescriptor {
                        name: file.name.clone(),
                        binary_path: file.path.clone(),
                        handle,
                    },
                );
                assert(paths.take(i + 1) =~= paths.take(i as int).push(paths[i as int]));
            },
            Err(reason) => {
                assert(paths[i as int] == file.path@);
                return Err(RegistryError::LoadError { path: file.path.clone(), reason });
            },
        }
        i = i + 1;
    }
    assert(paths.take(i as int) =~= paths);
    Ok(modules)
}

} // verus!
