//! What catalog documents and their entries have in common: each names
//! asset files, and each file named becomes a task.

use crate::client::client_trait::{task_views, tasks_for, AssetsTask};
use crate::types::utils::{AssetsType, Config};
use vstd::prelude::*;

verus! {

/// What every asset path of a catalog starts with. A path that holds
/// nothing else names no file.
pub const ASSETS_PREFIX: &'static str = "/lol-game-data/assets/";

/// `s` is `unit` written some number of times in a row, zero included.
pub open spec fn is_repetition(s: Seq<char>, unit: Seq<char>) -> bool
    decreases s.len(),
{
    s.len() == 0 || (unit.len() > 0 && unit.is_prefix_of(s) && is_repetition(
        s.skip(unit.len() as int),
        unit,
    ))
}

/// The path itself where it names a file, else nothing.
pub open spec fn file_of(path: Seq<char>) -> Seq<Seq<char>> {
    if is_repetition(path, ASSETS_PREFIX@) {
        Seq::empty()
    } else {
        seq![path]
    }
}

/// The file of the path, where there is a path.
pub open spec fn file_of_option(path: Option<Seq<char>>) -> Seq<Seq<char>> {
    match path {
        Some(p) => file_of(p),
        None => Seq::empty(),
    }
}

/// The asset files that the entries name, entry by entry.
pub open spec fn paths_of_all<T: ToTasks>(entries: Seq<T>) -> Seq<Seq<char>>
    decreases entries.len(),
{
    if entries.len() == 0 {
        Seq::empty()
    } else {
        paths_of_all(entries.drop_last()) + entries.last().asset_paths()
    }
}

/// An entry of a catalog.
pub trait ToTasks {
    /// The asset files that the entry names, in the order of its tasks.
    spec fn asset_paths(&self) -> Seq<Seq<char>>;

    /// One task for each asset file that the entry names.
    fn to_tasks(&self, config: &Config) -> (tasks: Vec<AssetsTask>)
        ensures
            task_views(tasks@) == tasks_for(self.asset_paths(), config@),
    ;
}

/// A catalog document.
pub trait CollecTasks {
    /// The asset files that the entries of the catalog name, entry by entry.
    spec fn all_asset_paths(&self) -> Seq<Seq<char>>;

    /// The tasks of all entries of the catalog, entry by entry.
    fn collect_tasks(&self, config: &Config) -> (tasks: Vec<AssetsTask>)
        ensures
            task_views(tasks@) == tasks_for(self.all_asset_paths(), config@),
    ;
}

/// A catalog document that the mirror publishes under a file name of its own.
pub trait AssetsTypeTrait {
    /// Which of the catalogs the document is.
    spec fn catalog() -> AssetsType;

    /// Which of the catalogs the document is.
    fn assets_type() -> (t: AssetsType)
        ensures
            t == Self::catalog(),
    ;
}

/// A value that may name an asset file.
pub trait FilterEmptyAssets: Sized {
    /// The value names no file.
    spec fn is_empty_asset(&self) -> bool;

    /// The value itself, unless it names no file.
    fn filter_empty_assets(&self) -> (kept: Option<Self>)
        ensures
            kept is None <==> self.is_empty_asset(),
            kept matches Some(k) ==> k == *self,
    ;
}

/// Whether `unit` stands in `s` at `at`.
fn stands_at(s: &str, s_len: usize, at: usize, unit: &str, unit_len: usize) -> (found: bool)
    requires
        s_len == s@.len(),
        unit_len == unit@.len(),
        at <= s_len,
    ensures
        found == unit@.is_prefix_of(s@.skip(at as int)),
{
    if unit_len > s_len - at {
        return false;
    }
    let mut i: usize = 0;
    while i < unit_len
        invariant
            s_len == s@.len(),
            unit_len == unit@.len(),
            at + unit_len <= s_len,
            i <= unit_len,
            forall|j: int| 0 <= j < i ==> s@[at + j] == unit@[j],
        decreases unit_len - i,
    {
        if s.get_char(at + i) != unit.get_char(i) {
            return false;
        }
        i = i + 1;
    }
    true
}

/// Whether `s` is `unit` written some number of times in a row.
pub fn is_repeated(s: &str, unit: &str) -> (whole: bool)
    ensures
        whole == is_repetition(s@, unit@),
{
    let s_len = s.unicode_len();
    let unit_len = unit.unicode_len();
    if unit_len == 0 {
        return s_len == 0;
    }
    let mut at: usize = 0;
    assert(s@.skip(0) =~= s@);
    while at < s_len
        invariant
            s_len == s@.len(),
            unit_len == unit@.len(),
            unit_len > 0,
            at <= s_len,
            is_repetition(s@, unit@) == is_repetition(s@.skip(at as int), unit@),
        decreases s_len - at,
    {
        if !stands_at(s, s_len, at, unit, unit_len) {
            return false;
        }
        assert(s@.skip(at as int).skip(unit_len as int) =~= s@.skip(at + unit_len));
        at = at + unit_len;
    }
    true
}

impl FilterEmptyAssets for String {
    open spec fn is_empty_asset(&self) -> bool {
        is_repetition(self@, ASSETS_PREFIX@)
    }

    fn filter_empty_assets(&self) -> (kept: Option<Self>) {
        if is_repeated(self.as_str(), ASSETS_PREFIX) {
            None
        } else {
            Some(self.clone())
        }
    }
}

/// Adds the task for `path` where it names a file.
pub fn push_file(tasks: &mut Vec<AssetsTask>, path: &String, config: &Config)
    ensures
        task_views(final(tasks)@) == task_views(old(tasks)@) + tasks_for(file_of(path@), config@),
{
    if let Some(path) = path.filter_empty_assets() {
        tasks.push(AssetsTask::from_path_config(path.as_str(), config));
    }
}

/// Adds the task for `path` where there is one and it names a file.
pub fn push_file_option(tasks: &mut Vec<AssetsTask>, path: &Option<String>, config: &Config)
    ensures
        task_views(final(tasks)@) == task_views(old(tasks)@) + tasks_for(
            file_of_option(path.deep_view()),
            config@,
        ),
{
    match path {
        Some(path) => push_file(tasks, path, config),
        None => {},
    }
}

/// Adds the tasks of all `entries`, entry by entry.
pub fn push_all<T: ToTasks>(tasks: &mut Vec<AssetsTask>, entries: &Vec<T>, config: &Config)
    ensures
        task_views(final(tasks)@) == task_views(old(tasks)@) + tasks_for(
            paths_of_all(entries@),
            config@,
        ),
{
    let mut i: usize = 0;
    while i < entries.len()
        invariant
            i <= entries.len(),
            task_views(tasks@) == task_views(old(tasks)@) + tasks_for(
                paths_of_all(entries@.take(i as int)),
                config@,
            ),
        decreases entries.len() - i,
    {
        let ghost before = tasks@;
        let mut more = entries[i].to_tasks(config);
        tasks.append(&mut more);
        proof {
            let taken = entries@.take(i + 1);
            assert(taken.drop_last() =~= entries@.take(i as int));
            assert(task_views(tasks@) =~= task_views(before) + tasks_for(
                entries@[i as int].asset_paths(),
                config@,
            ));
        }
        i = i + 1;
    }
    assert(entries@.take(entries@.len() as int) =~= entries@);
}

} // verus!
