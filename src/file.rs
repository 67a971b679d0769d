//! Sampling lines of files, through a cache that holds each file's lines.
//!
//! Reading a file is left to the caller: it asks `FileCache::is_loaded`, and
//! if the path is not there yet it reads the file and hands its lines to
//! `FileCache::load`. Sampling then works on the cached lines alone.
use crate::error::TeraRandError;
use crate::rng::draw_index;
use dashmap::DashMap;
use vstd::prelude::*;

verus! {

#[verifier::external_type_specification]
#[verifier::external_body]
#[verifier::reject_recursive_types(K)]
#[verifier::reject_recursive_types(V)]
#[verifier::reject_recursive_types(S)]
pub struct ExDashMap<K, V, S>(DashMap<K, V, S>);

/// Lines of files, keyed by path.
pub type LineMap = DashMap<String, Vec<String>>;

/// What a map from paths to lines holds: each path's lines.
pub uninterp spec fn cached_lines(m: DashMap<String, Vec<String>>) -> Map<Seq<char>, Seq<Seq<char>>>;

/// Relies on `DashMap::new`: the map starts empty.
#[verifier::external_body]
fn empty_line_map() -> (r: LineMap)
    ensures
        cached_lines(r).dom() == Set::<Seq<char>>::empty(),
{
    DashMap::new()
}

/// Relies on `DashMap::contains_key`: whether `path` has an entry.
#[verifier::external_body]
fn has_lines(m: &LineMap, path: &str) -> (r: bool)
    ensures
        r == cached_lines(*m).contains_key(path@),
{
    m.contains_key(path)
}

/// Relies on `DashMap::get`: the entry of `path`, if there is one, its lines
/// cloned out of the guard that `get` returns.
#[verifier::external_body]
fn lines_of(m: &LineMap, path: &str) -> (r: Option<Vec<String>>)
    ensures
        r is Some <==> cached_lines(*m).contains_key(path@),
        r matches Some(lines) ==> lines.deep_view() == cached_lines(*m)[path@],
{
    m.get(path).map(|entry| entry.value().clone())
}

/// Relies on `DashMap::insert`: afterwards `path` maps to `lines`, and every
/// other entry is as it was.
#[verifier::external_body]
fn insert_lines(m: &mut LineMap, path: String, lines: Vec<String>)
    ensures
        cached_lines(*final(m)) == cached_lines(*old(m)).insert(path@, lines.deep_view()),
{
    m.insert(path, lines);
}

/// `e` reports that the cache holds no lines for `path`.
pub open spec fn is_missing_entry(e: TeraRandError, path: Seq<char>) -> bool {
    e matches TeraRandError::MissingCacheEntry(p) && p@ == path
}

/// `e` reports that the file at `path` has no lines.
pub open spec fn is_empty_file(e: TeraRandError, path: Seq<char>) -> bool {
    e matches TeraRandError::EmptyFile(p) && p@ == path
}

/// `e` reports that the file at `path` has no line `line_num`.
pub open spec fn is_line_out_of_range(e: TeraRandError, path: Seq<char>, line_num: usize) -> bool {
    e matches TeraRandError::LineNumberOutOfRange { path: p, line_num: n } && p@ == path && n
        == line_num
}

/// The lines of each file read so far, keyed by path.
pub struct FileCache {
    lines_by_path: LineMap,
}

impl FileCache {
    /// The lines held for each path.
    pub closed spec fn contents(&self) -> Map<Seq<char>, Seq<Seq<char>>> {
        cached_lines(self.lines_by_path)
    }

    /// No path is held with an empty list of lines.
    pub open spec fn wf(&self) -> bool {
        forall|p: Seq<char>| #[trigger]
            self.contents().contains_key(p) ==> self.contents()[p].len() > 0
    }

    /// A cache that holds no file.
    pub fn new() -> (c: FileCache)
        ensures
            c.contents().dom() == Set::<Seq<char>>::empty(),
            c.wf(),
    {
        FileCache { lines_by_path: empty_line_map() }
    }

    /// Whether the lines of `path` are held.
    pub fn is_loaded(&self, path: &str) -> (r: bool)
        ensures
            r == self.contents().contains_key(path@),
    {
        has_lines(&self.lines_by_path, path)
    }

    /// Holds `lines` as the lines of `path`. A file without lines cannot be
    /// sampled from, so it is refused and the cache is left as it was.
    pub fn load(&mut self, path: &str, lines: Vec<String>) -> (r: Result<(), TeraRandError>)
        ensures
            r is Err <==> lines@.len() == 0,
            r matches Err(e) ==> is_empty_file(e, path@),
            r is Err ==> final(self).contents() == old(self).contents(),
            r is Ok ==> final(self).contents() == old(self).contents().insert(
                path@,
                lines.deep_view(),
            ),
            old(self).wf() ==> final(self).wf(),
    {
        if lines.len() == 0 {
            return Err(TeraRandError::EmptyFile(path.to_owned()));
        }
        insert_lines(&mut self.lines_by_path, path.to_owned(), lines);
        Ok(())
    }
}

/// A line drawn from the cached lines of `path`.
pub fn random_from_file(cache: &FileCache, path: &str) -> (r: Result<String, TeraRandError>)
    ensures
        !cache.contents().contains_key(path@) ==> (r matches Err(e) && is_missing_entry(e, path@)),
        cache.contents().contains_key(path@) && cache.contents()[path@].len() == 0 ==> (r matches Err(
            e,
        ) && is_empty_file(e, path@)),
        cache.contents().contains_key(path@) && cache.contents()[path@].len() > 0 ==> r is Ok,
        r matches Ok(line) ==> cache.contents().contains_key(path@) && exists|i: int|
            0 <= i < cache.contents()[path@].len() && line@ == #[trigger] cache.contents()[path@][i],
{
    let lines = match lines_of(&cache.lines_by_path, path) {
        Some(lines) => lines,
        None => return Err(TeraRandError::MissingCacheEntry(path.to_owned())),
    };
    if lines.len() == 0 {
        return Err(TeraRandError::EmptyFile(path.to_owned()));
    }
    let index = draw_index(lines.len());
    let line = lines[index].clone();
    assert(line@ == cache.contents()[path@][index as int]);
    Ok(line)
}

/// Line `line_num` (counting from 0) of the cached lines of `path`.
pub fn line_from_file(cache: &FileCache, path: &str, line_num: usize) -> (r: Result<String, TeraRandError>)
    ensures
        !cache.contents().contains_key(path@) ==> (r matches Err(e) && is_missing_entry(e, path@)),
        cache.contents().contains_key(path@) && line_num >= cache.contents()[path@].len() ==> (r matches Err(
            e,
        ) && is_line_out_of_range(e, path@, line_num)),
        cache.contents().contains_key(path@) && line_num < cache.contents()[path@].len() ==> (r matches Ok(
            line,
        ) && line@ == cache.contents()[path@][line_num as int]),
{
    let lines = match lines_of(&cache.lines_by_path, path) {
        Some(lines) => lines,
        None => return Err(TeraRandError::MissingCacheEntry(path.to_owned())),
    };
    if line_num >= lines.len() {
        return Err(TeraRandError::LineNumberOutOfRange { path: path.to_owned(), line_num });
    }
    Ok(lines[line_num].clone())
}

} // verus!
