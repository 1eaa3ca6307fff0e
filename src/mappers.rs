//! The mappers of the export pipeline. Each one looks at one task and removes
//! it, maps it to one task, or splits it into several.
use crate::albums::{album_path, resolve_album_path, FLAT_DEPTH, RECURSIVE_DEPTH};
use crate::date::{year_month_prefix, year_month_text, CalendarDate};
use crate::existing::ExistingFiles;
use crate::model::{Album, AssociatedRaw, AssociatedRawView};
use crate::paths::{
    extension, file_stem, join_path, path_extension, path_file_stem, path_join,
    path_with_extension, path_with_file_name, with_extension, with_file_name,
};
use crate::task::{with_destination, AssetMapping, ExportTask, ExportTaskView, MappingView};
use std::collections::HashMap;
use vstd::prelude::*;
use vstd::string::*;

verus! {

broadcast use vstd::std_specs::hash::group_hash_axioms;

/// What a mapper makes of one task.
pub enum TaskMapperResult {
    /// The task is dropped and reaches no later mapper.
    Remove,
    /// The task goes on as given.
    Mapped(ExportTask),
    /// The task is replaced by several.
    Split(Vec<ExportTask>),
}

pub enum MapResultView {
    Remove,
    Mapped(ExportTaskView),
    Split(Seq<ExportTaskView>),
}

impl View for TaskMapperResult {
    type V = MapResultView;

    open spec fn view(&self) -> MapResultView {
        match self {
            TaskMapperResult::Remove => MapResultView::Remove,
            TaskMapperResult::Mapped(t) => MapResultView::Mapped(t@),
            TaskMapperResult::Split(v) => MapResultView::Split(v@.map_values(|t: ExportTask| t@)),
        }
    }
}

/// The extension of `p`, or nothing.
pub open spec fn extension_or_empty(p: Seq<char>) -> Seq<char> {
    match extension(p) {
        Some(e) => e,
        None => Seq::empty(),
    }
}

fn extension_text(p: &String) -> (r: String)
    ensures
        r@ == extension_or_empty(p@),
{
    match path_extension(p.as_str()) {
        Some(e) => e,
        None => String::new(),
    }
}

/// A copy task whose destination is rewritten by `f`; other tasks unchanged.
pub open spec fn map_destination(t: ExportTaskView, d: Seq<char>) -> MapResultView {
    match t {
        ExportTaskView::Copy(m) => MapResultView::Mapped(ExportTaskView::Copy(with_destination(m, d))),
        ExportTaskView::Delete(_) => MapResultView::Mapped(t),
    }
}

// ---------------------------------------------------------------------------

/// Drops the copies of hidden assets.
pub struct ExcludeHidden;

pub open spec fn exclude_hidden(t: ExportTaskView) -> MapResultView {
    match t {
        ExportTaskView::Copy(m) => if m.asset.hidden {
            MapResultView::Remove
        } else {
            MapResultView::Mapped(t)
        },
        ExportTaskView::Delete(_) => MapResultView::Mapped(t),
    }
}

impl ExcludeHidden {
    pub fn new() -> ExcludeHidden {
        ExcludeHidden
    }

    pub fn map_export_task(&self, task: ExportTask) -> (r: TaskMapperResult)
        ensures
            r@ == exclude_hidden(task@),
    {
        let hidden = match &task {
            ExportTask::Copy(m) => m.asset.hidden,
            ExportTask::Delete(_) => false,
        };
        if hidden {
            TaskMapperResult::Remove
        } else {
            TaskMapperResult::Mapped(task)
        }
    }
}

// ---------------------------------------------------------------------------

/// Puts the copies of hidden assets under a directory of their own.
pub struct PrefixHidden;

pub open spec fn prefix_hidden(t: ExportTaskView) -> MapResultView {
    match t {
        ExportTaskView::Copy(m) => if m.asset.hidden {
            map_destination(t, path_join("_hidden"@, m.destination))
        } else {
            MapResultView::Mapped(t)
        },
        ExportTaskView::Delete(_) => MapResultView::Mapped(t),
    }
}

impl PrefixHidden {
    pub fn new() -> PrefixHidden {
        PrefixHidden
    }

    pub fn map_export_task(&self, task: ExportTask) -> (r: TaskMapperResult)
        ensures
            r@ == prefix_hidden(task@),
    {
        match task {
            ExportTask::Copy(m) => if m.asset.hidden {
                let destination = join_path("_hidden", m.destination.as_str());
                TaskMapperResult::Mapped(ExportTask::Copy(AssetMapping { destination, ..m }))
            } else {
                TaskMapperResult::Mapped(ExportTask::Copy(m))
            },
            ExportTask::Delete(p) => TaskMapperResult::Mapped(ExportTask::Delete(p)),
        }
    }
}

// ---------------------------------------------------------------------------

/// Inserts `.original` or `.derivate` before the extension of each copy's
/// destination, so that both renditions of an asset can stand side by side.
pub struct MarkOriginalsAndDerivates;

pub open spec fn variant_marker(is_derivate: bool) -> Seq<char> {
    if is_derivate {
        "derivate."@
    } else {
        "original."@
    }
}

pub open spec fn mark_originals_and_derivates(t: ExportTaskView) -> MapResultView {
    match t {
        ExportTaskView::Copy(m) => map_destination(
            t,
            with_extension(
                m.destination,
                variant_marker(m.is_derivate) + extension_or_empty(m.destination),
            ),
        ),
        ExportTaskView::Delete(_) => MapResultView::Mapped(t),
    }
}

impl MarkOriginalsAndDerivates {
    pub fn new() -> MarkOriginalsAndDerivates {
        MarkOriginalsAndDerivates
    }

    pub fn map_export_task(&self, task: ExportTask) -> (r: TaskMapperResult)
        ensures
            r@ == mark_originals_and_derivates(task@),
    {
        match task {
            ExportTask::Copy(m) => {
                let ext = extension_text(&m.destination);
                let marker = if m.is_derivate {
                    String::from_str("derivate.")
                } else {
                    String::from_str("original.")
                };
                let new_ext = marker.concat(ext.as_str());
                let destination = path_with_extension(m.destination.as_str(), new_ext.as_str());
                TaskMapperResult::Mapped(ExportTask::Copy(AssetMapping { destination, ..m }))
            },
            ExportTask::Delete(p) => TaskMapperResult::Mapped(ExportTask::Delete(p)),
        }
    }
}

// ---------------------------------------------------------------------------

/// Names each copy's destination after the file's name before import, keeping
/// the extension that the destination has so far (or none, if it has none).
pub struct RestoreOriginalFilenames;

pub open spec fn restore_original_filenames(t: ExportTaskView) -> MapResultView {
    match t {
        ExportTaskView::Copy(m) => map_destination(
            t,
            with_extension(
                with_file_name(m.destination, m.asset.original_filename),
                extension_or_empty(m.destination),
            ),
        ),
        ExportTaskView::Delete(_) => MapResultView::Mapped(t),
    }
}

impl RestoreOriginalFilenames {
    pub fn new() -> RestoreOriginalFilenames {
        RestoreOriginalFilenames
    }

    pub fn map_export_task(&self, task: ExportTask) -> (r: TaskMapperResult)
        ensures
            r@ == restore_original_filenames(task@),
    {
        match task {
            ExportTask::Copy(m) => {
                let ext = extension_text(&m.destination);
                let renamed = path_with_file_name(
                    m.destination.as_str(),
                    m.asset.original_filename.as_str(),
                );
                let destination = path_with_extension(renamed.as_str(), ext.as_str());
                TaskMapperResult::Mapped(ExportTask::Copy(AssetMapping { destination, ..m }))
            },
            ExportTask::Delete(p) => TaskMapperResult::Mapped(ExportTask::Delete(p)),
        }
    }
}

// ---------------------------------------------------------------------------

/// Puts each copy that is attributed to an album under the album's path.
pub struct GroupByAlbum<'a> {
    pub albums: &'a HashMap<i32, Album>,
    pub max_depth: u8,
}

pub open spec fn group_by_album(albums: Map<i32, Album>, depth: nat, t: ExportTaskView) -> MapResultView {
    match t {
        ExportTaskView::Copy(m) => match m.album_id {
            Some(id) => map_destination(t, path_join(album_path(albums, id, depth), m.destination)),
            None => MapResultView::Mapped(t),
        },
        ExportTaskView::Delete(_) => MapResultView::Mapped(t),
    }
}

impl<'a> GroupByAlbum<'a> {
    /// Groups by the album's own name only.
    pub fn flat(albums: &'a HashMap<i32, Album>) -> (r: GroupByAlbum<'a>)
        ensures
            r.albums == albums,
            r.max_depth == FLAT_DEPTH,
    {
        GroupByAlbum { albums, max_depth: FLAT_DEPTH }
    }

    /// Groups by the album's full path below the root.
    pub fn recursive(albums: &'a HashMap<i32, Album>) -> (r: GroupByAlbum<'a>)
        ensures
            r.albums == albums,
            r.max_depth == RECURSIVE_DEPTH,
    {
        GroupByAlbum { albums, max_depth: RECURSIVE_DEPTH }
    }

    pub fn map_export_task(&self, task: ExportTask) -> (r: TaskMapperResult)
        ensures
            r@ == group_by_album(self.albums@, self.max_depth as nat, task@),
    {
        match task {
            ExportTask::Copy(m) => match m.album_id {
                Some(id) => {
                    let prefix = resolve_album_path(self.albums, id, self.max_depth);
                    let destination = join_path(prefix.as_str(), m.destination.as_str());
                    TaskMapperResult::Mapped(ExportTask::Copy(AssetMapping { destination, ..m }))
                },
                None => TaskMapperResult::Mapped(ExportTask::Copy(m)),
            },
            ExportTask::Delete(p) => TaskMapperResult::Mapped(ExportTask::Delete(p)),
        }
    }
}

// ---------------------------------------------------------------------------

/// Puts each copy under `YYYY/MM` of its asset's capture date.
pub struct GroupByYearAndMonth;

pub open spec fn group_by_year_and_month(t: ExportTaskView) -> MapResultView {
    match t {
        ExportTaskView::Copy(m) => map_destination(
            t,
            path_join(year_month_prefix(m.asset.datetime), m.destination),
        ),
        ExportTaskView::Delete(_) => MapResultView::Mapped(t),
    }
}

fn prefix_with_date(m: AssetMapping, date: &CalendarDate) -> (r: AssetMapping)
    ensures
        r@ == with_destination(m@, path_join(year_month_prefix(*date), m.destination@)),
{
    let prefix = year_month_text(date);
    let destination = join_path(prefix.as_str(), m.destination.as_str());
    AssetMapping { destination, ..m }
}

impl GroupByYearAndMonth {
    pub fn new() -> GroupByYearAndMonth {
        GroupByYearAndMonth
    }

    pub fn map_export_task(&self, task: ExportTask) -> (r: TaskMapperResult)
        ensures
            r@ == group_by_year_and_month(task@),
    {
        match task {
            ExportTask::Copy(m) => {
                let date = m.asset.datetime;
                TaskMapperResult::Mapped(ExportTask::Copy(prefix_with_date(m, &date)))
            },
            ExportTask::Delete(p) => TaskMapperResult::Mapped(ExportTask::Delete(p)),
        }
    }
}

// ---------------------------------------------------------------------------

/// Puts each copy under `YYYY/MM` of the start date of the album it is
/// attributed to; where there is no such album or it has no start date, the
/// asset's own capture date is used.
pub struct GroupByYearMonthAndAlbum<'a> {
    pub albums: &'a HashMap<i32, Album>,
}

/// The date that decides the prefix of a copy grouped by album date.
pub open spec fn album_or_asset_date(albums: Map<i32, Album>, m: MappingView) -> CalendarDate {
    match m.album_id {
        Some(id) => if albums.contains_key(id) && albums[id].start_date is Some {
            albums[id].start_date.unwrap()
        } else {
            m.asset.datetime
        },
        None => m.asset.datetime,
    }
}

pub open spec fn group_by_year_month_and_album(albums: Map<i32, Album>, t: ExportTaskView) -> MapResultView {
    match t {
        ExportTaskView::Copy(m) => map_destination(
            t,
            path_join(year_month_prefix(album_or_asset_date(albums, m)), m.destination),
        ),
        ExportTaskView::Delete(_) => MapResultView::Mapped(t),
    }
}

impl<'a> GroupByYearMonthAndAlbum<'a> {
    pub fn new(albums: &'a HashMap<i32, Album>) -> (r: GroupByYearMonthAndAlbum<'a>)
        ensures
            r.albums == albums,
    {
        GroupByYearMonthAndAlbum { albums }
    }

    pub fn map_export_task(&self, task: ExportTask) -> (r: TaskMapperResult)
        ensures
            r@ == group_by_year_month_and_album(self.albums@, task@),
    {
        match task {
            ExportTask::Copy(m) => {
                let mut date = m.asset.datetime;
                if let Some(id) = m.album_id {
                    if let Some(album) = self.albums.get(&id) {
                        if let Some(start) = album.start_date {
                            date = start;
                        }
                    }
                }
                TaskMapperResult::Mapped(ExportTask::Copy(prefix_with_date(m, &date)))
            },
            ExportTask::Delete(p) => TaskMapperResult::Mapped(ExportTask::Delete(p)),
        }
    }
}

// ---------------------------------------------------------------------------

/// Whether a filter keeps the listed albums or drops them.
#[derive(Clone, Copy, PartialEq, Eq, Structural, Debug)]
pub enum AlbumFilterMode {
    Include,
    Exclude,
}

/// Keeps or drops copies by the album they are attributed to. A copy without an
/// album matches no id: an `Include` filter drops it, an `Exclude` filter keeps it.
pub struct FilterByAlbumId {
    pub ids: Vec<i32>,
    pub mode: AlbumFilterMode,
}

pub open spec fn filter_matches(ids: Seq<i32>, album_id: Option<i32>) -> bool {
    match album_id {
        Some(id) => ids.contains(id),
        None => false,
    }
}

pub open spec fn filter_by_album_id(ids: Seq<i32>, mode: AlbumFilterMode, t: ExportTaskView) -> MapResultView {
    match t {
        ExportTaskView::Copy(m) => {
            let matched = filter_matches(ids, m.album_id);
            let keep = match mode {
                AlbumFilterMode::Include => matched,
                AlbumFilterMode::Exclude => !matched,
            };
            if keep {
                MapResultView::Mapped(t)
            } else {
                MapResultView::Remove
            }
        },
        ExportTaskView::Delete(_) => MapResultView::Mapped(t),
    }
}

fn ids_contain(ids: &Vec<i32>, id: i32) -> (r: bool)
    ensures
        r == ids@.contains(id),
{
    let mut i: usize = 0;
    while i < ids.len()
        invariant
            i <= ids@.len(),
            forall|j: int| 0 <= j < i ==> ids@[j] != id,
        decreases ids.len() - i,
    {
        if ids[i] == id {
            return true;
        }
        i = i + 1;
    }
    false
}

impl FilterByAlbumId {
    pub fn new(ids: Vec<i32>, mode: AlbumFilterMode) -> (r: FilterByAlbumId)
        ensures
            r.ids@ == ids@,
            r.mode == mode,
    {
        FilterByAlbumId { ids, mode }
    }

    pub fn map_export_task(&self, task: ExportTask) -> (r: TaskMapperResult)
        ensures
            r@ == filter_by_album_id(self.ids@, self.mode, task@),
    {
        let keep = match &task {
            ExportTask::Copy(m) => {
                let matched = match m.album_id {
                    Some(id) => ids_contain(&self.ids, id),
                    None => false,
                };
                match self.mode {
                    AlbumFilterMode::Include => matched,
                    AlbumFilterMode::Exclude => !matched,
                }
            },
            ExportTask::Delete(_) => true,
        };
        if keep {
            TaskMapperResult::Mapped(task)
        } else {
            TaskMapperResult::Remove
        }
    }
}

// ---------------------------------------------------------------------------

/// Splits a copy that is not yet attributed to an album into one copy per album
/// of its asset, in the order of the asset's album list.
pub struct OneTaskPerAlbum;

pub open spec fn with_album(m: MappingView, id: i32) -> MappingView {
    MappingView { album_id: Some(id), ..m }
}

pub open spec fn one_task_per_album(t: ExportTaskView) -> MapResultView {
    match t {
        ExportTaskView::Copy(m) => if m.album_id is None && m.asset.album_ids.len() > 0 {
            MapResultView::Split(
                Seq::new(
                    m.asset.album_ids.len(),
                    |i: int| ExportTaskView::Copy(with_album(m, m.asset.album_ids[i])),
                ),
            )
        } else {
            MapResultView::Mapped(t)
        },
        ExportTaskView::Delete(_) => MapResultView::Mapped(t),
    }
}

impl OneTaskPerAlbum {
    pub fn new() -> OneTaskPerAlbum {
        OneTaskPerAlbum
    }

    pub fn map_export_task(&self, task: ExportTask) -> (r: TaskMapperResult)
        ensures
            r@ == one_task_per_album(task@),
    {
        match task {
            ExportTask::Copy(m) => if m.album_id.is_none() && m.asset.album_ids.len() > 0 {
                let mut tasks: Vec<ExportTask> = Vec::new();
                let n = m.asset.album_ids.len();
                let mut i: usize = 0;
                while i < n
                    invariant
                        n == m.asset.album_ids@.len(),
                        i <= n,
                        tasks@.len() == i,
                        forall|j: int|
                            0 <= j < i ==> #[trigger] tasks@[j]@ == ExportTaskView::Copy(
                                with_album(m@, m.asset.album_ids@[j]),
                            ),
                    decreases n - i,
                {
                    let mut copy = m.clone();
                    copy.album_id = Some(m.asset.album_ids[i]);
                    tasks.push(ExportTask::Copy(copy));
                    i = i + 1;
                }
                let r = TaskMapperResult::Split(tasks);
                assert(r@ == one_task_per_album(ExportTaskView::Copy(m@))) by {
                    if let MapResultView::Split(s) = r@ {
                        assert(s =~= Seq::new(
                            m@.asset.album_ids.len(),
                            |i: int| ExportTaskView::Copy(with_album(m@, m@.asset.album_ids[i])),
                        ));
                    }
                }
                r
            } else {
                TaskMapperResult::Mapped(ExportTask::Copy(m))
            },
            ExportTask::Delete(p) => TaskMapperResult::Mapped(ExportTask::Delete(p)),
        }
    }
}

// ---------------------------------------------------------------------------

/// Places each copy's destination under the output root and canonicalizes
/// it, so that it compares as text with the files that a scan of the output
/// tree finds. Canonicalization is best effort: where it fails, the destination
/// falls back to the output root itself, and the task goes on.
pub struct ConvertToAbsolutePath {
    pub output_dir: String,
}

/// The destination of a copy, given the outcome of canonicalizing its path
/// under the output root: the canonical path, or the output root on failure.
pub open spec fn resolved_destination(output_dir: Seq<char>, canonical: Option<Seq<char>>) -> Seq<char> {
    match canonical {
        Some(c) => c,
        None => output_dir,
    }
}

/// What [`ConvertToAbsolutePath`] makes of a task, where `canonical` is the
/// outcome of canonicalizing the copy's destination joined to the output root.
pub open spec fn convert_to_absolute_path(output_dir: Seq<char>, t: ExportTaskView, canonical: Option<Seq<char>>) -> MapResultView {
    match t {
        ExportTaskView::Copy(m) => map_destination(t, resolved_destination(output_dir, canonical)),
        ExportTaskView::Delete(_) => MapResultView::Mapped(t),
    }
}

/// Whether `c` can be an outcome of canonicalization: a failure, or an
/// absolute path.
pub open spec fn admissible_canonical(c: Option<Seq<char>>) -> bool {
    match c {
        Some(p) => p.len() > 0 && p[0] == '/',
        None => true,
    }
}

/// Relies on `soft_canonicalize::soft_canonicalize`: the canonical form of
/// `path`, with the part of it that exists on disk resolved, or `None` where it
/// fails. Which path comes back depends on the file system; it is absolute
/// (the function makes the path absolute first, and documents standard absolute
/// paths `/...` on Unix).
#[verifier::external_body]
fn canonicalize_path(path: &str) -> (r: Option<String>)
    ensures
        admissible_canonical(crate::paths::opt_view(r)),
{
    soft_canonicalize::soft_canonicalize(path).ok().map(|p| p.to_string_lossy().into_owned())
}

/// The destination given the outcome of canonicalization: the canonical path,
/// or the output root on failure.
pub fn resolve_destination(output_dir: &String, canonical: Option<String>) -> (r: String)
    ensures
        r@ == resolved_destination(output_dir@, crate::paths::opt_view(canonical)),
{
    match canonical {
        Some(c) => c,
        None => output_dir.clone(),
    }
}

impl ConvertToAbsolutePath {
    pub fn new(output_dir: &str) -> (r: ConvertToAbsolutePath)
        ensures
            r.output_dir@ == output_dir@,
    {
        ConvertToAbsolutePath { output_dir: String::from_str(output_dir) }
    }

    /// The path that is canonicalized for a copy to `destination`.
    pub fn joined_path(&self, destination: &String) -> (r: String)
        ensures
            r@ == path_join(self.output_dir@, destination@),
    {
        join_path(self.output_dir.as_str(), destination.as_str())
    }

    /// The task with `canonical` as the outcome of canonicalizing its joined path.
    pub fn map_with_canonical(&self, task: ExportTask, canonical: Option<String>) -> (r: TaskMapperResult)
        ensures
            r@ == convert_to_absolute_path(self.output_dir@, task@, crate::paths::opt_view(canonical)),
    {
        match task {
            ExportTask::Copy(m) => {
                let destination = resolve_destination(&self.output_dir, canonical);
                TaskMapperResult::Mapped(ExportTask::Copy(AssetMapping { destination, ..m }))
            },
            ExportTask::Delete(p) => TaskMapperResult::Mapped(ExportTask::Delete(p)),
        }
    }

    /// Canonicalizes the destination of a copy under the output root. Whatever
    /// the file system answers, the result is the task with its destination
    /// resolved from some outcome of canonicalization: an absolute path, or the
    /// output root where canonicalization failed.
    pub fn map_export_task(&self, task: ExportTask) -> (r: TaskMapperResult)
        ensures
            exists|c: Option<Seq<char>>|
                admissible_canonical(c) && r@ == convert_to_absolute_path(self.output_dir@, task@, c),
            r@ matches MapResultView::Mapped(ExportTaskView::Copy(n)) ==> n.destination
                == self.output_dir@ || (n.destination.len() > 0 && n.destination[0] == '/'),
            task@ is Delete ==> r@ == MapResultView::Mapped(task@),
    {
        let canonical = match &task {
            ExportTask::Copy(m) => {
                let joined = self.joined_path(&m.destination);
                canonicalize_path(joined.as_str())
            },
            ExportTask::Delete(_) => None,
        };
        let ghost c = crate::paths::opt_view(canonical);
        assert(admissible_canonical(c));
        let r = self.map_with_canonical(task, canonical);
        assert(admissible_canonical(c) && r@ == convert_to_absolute_path(self.output_dir@, task@, c));
        r
    }
}

// ---------------------------------------------------------------------------

/// Takes each copy's destination out of the set of existing files, so that the
/// file is not deleted as stale.
pub struct RemoveFromCacheIfExists;

/// The set of existing files after a task has passed through
/// [`RemoveFromCacheIfExists`].
pub open spec fn remove_from_cache(files: Set<Seq<char>>, t: ExportTaskView) -> Set<Seq<char>> {
    match t {
        ExportTaskView::Copy(m) => files.remove(m.destination),
        ExportTaskView::Delete(_) => files,
    }
}

impl RemoveFromCacheIfExists {
    pub fn new() -> RemoveFromCacheIfExists {
        RemoveFromCacheIfExists
    }

    /// Passes the task on unchanged.
    pub fn map_export_task(&self, task: ExportTask, files: &mut ExistingFiles) -> (r: TaskMapperResult)
        ensures
            r@ == MapResultView::Mapped(task@),
            final(files)@ == remove_from_cache(old(files)@, task@),
    {
        if let ExportTask::Copy(m) = &task {
            files.remove(&m.destination);
        }
        TaskMapperResult::Mapped(task)
    }
}

// ---------------------------------------------------------------------------

/// Marks a copy as skipped when its destination is among the existing files.
pub struct SkipIfExists;

pub open spec fn skip_if_exists(files: Set<Seq<char>>, t: ExportTaskView) -> MapResultView {
    match t {
        ExportTaskView::Copy(m) => if files.contains(m.destination) {
            MapResultView::Mapped(ExportTaskView::Copy(MappingView { skip: true, ..m }))
        } else {
            MapResultView::Mapped(t)
        },
        ExportTaskView::Delete(_) => MapResultView::Mapped(t),
    }
}

impl SkipIfExists {
    pub fn new() -> SkipIfExists {
        SkipIfExists
    }

    pub fn map_export_task(&self, task: ExportTask, files: &ExistingFiles) -> (r: TaskMapperResult)
        ensures
            r@ == skip_if_exists(files@, task@),
    {
        match task {
            ExportTask::Copy(m) => if files.contains(&m.destination) {
                TaskMapperResult::Mapped(ExportTask::Copy(AssetMapping { skip: true, ..m }))
            } else {
                TaskMapperResult::Mapped(ExportTask::Copy(m))
            },
            ExportTask::Delete(p) => TaskMapperResult::Mapped(ExportTask::Delete(p)),
        }
    }
}

// ---------------------------------------------------------------------------

/// Adds the sibling file of an asset beside its primary copy.
///
/// A copy of an original that has a sibling, and that is not yet one of a pair,
/// becomes two copies marked as a pair: the copy itself, and one of the sibling,
/// whose source is the original's stem followed by `raw_file_suffix` and the
/// sibling type's extension, and whose destination is the copy's destination
/// with that extension. When the sibling's type is unreadable or the source has
/// no stem, the copy is dropped rather than exported without its sibling.
pub struct IncludeAssociatedRawImage {
    pub raw_file_suffix: String,
}

pub open spec fn raw_source(m: MappingView, suffix: Seq<char>, ext: Seq<char>) -> Seq<char> {
    with_extension(with_file_name(m.source, file_stem(m.source).unwrap() + suffix), ext)
}

pub open spec fn paired(m: MappingView) -> MappingView {
    MappingView { is_part_of_raw_pair: true, ..m }
}

pub open spec fn include_associated_raw_image(suffix: Seq<char>, t: ExportTaskView) -> MapResultView {
    match t {
        ExportTaskView::Copy(m) => if m.is_derivate || m.is_part_of_raw_pair
            || !m.asset.has_associated_raw_image() {
            MapResultView::Mapped(t)
        } else {
            match m.asset.raw_image {
                AssociatedRawView::Present(u) => if file_stem(m.source) is Some {
                    MapResultView::Split(
                        seq![
                            ExportTaskView::Copy(paired(m)),
                            ExportTaskView::Copy(
                                MappingView {
                                    source: raw_source(m, suffix, u.ext),
                                    destination: with_extension(m.destination, u.ext),
                                    ..paired(m)
                                },
                            ),
                        ],
                    )
                } else {
                    MapResultView::Remove
                },
                _ => MapResultView::Remove,
            }
        },
        ExportTaskView::Delete(_) => MapResultView::Mapped(t),
    }
}

impl IncludeAssociatedRawImage {
    pub fn new(raw_file_suffix: &str) -> (r: IncludeAssociatedRawImage)
        ensures
            r.raw_file_suffix@ == raw_file_suffix@,
    {
        IncludeAssociatedRawImage { raw_file_suffix: String::from_str(raw_file_suffix) }
    }

    pub fn map_export_task(&self, task: ExportTask) -> (r: TaskMapperResult)
        ensures
            r@ == include_associated_raw_image(self.raw_file_suffix@, task@),
    {
        let m = match task {
            ExportTask::Delete(p) => {
                return TaskMapperResult::Mapped(ExportTask::Delete(p));
            },
            ExportTask::Copy(m) => {
                if m.is_derivate || m.is_part_of_raw_pair || !m.asset.has_associated_raw_image() {
                    return TaskMapperResult::Mapped(ExportTask::Copy(m));
                }
                m
            },
        };
        let raw_ext = match &m.asset.raw_image {
            AssociatedRaw::Present(u) => u.ext.clone(),
            _ => {
                return TaskMapperResult::Remove;
            },
        };
        let stem = match path_file_stem(m.source.as_str()) {
            Some(s) => s,
            None => {
                return TaskMapperResult::Remove;
            },
        };
        let raw_name = stem.concat(self.raw_file_suffix.as_str());
        let renamed = path_with_file_name(m.source.as_str(), raw_name.as_str());
        let source = path_with_extension(renamed.as_str(), raw_ext.as_str());
        let destination = path_with_extension(m.destination.as_str(), raw_ext.as_str());
        let first = AssetMapping { is_part_of_raw_pair: true, ..m.clone() };
        let second = AssetMapping { is_part_of_raw_pair: true, source, destination, ..m };
        let mut tasks: Vec<ExportTask> = Vec::new();
        tasks.push(ExportTask::Copy(first));
        tasks.push(ExportTask::Copy(second));
        let r = TaskMapperResult::Split(tasks);
        assert(r@ == include_associated_raw_image(self.raw_file_suffix@, task@)) by {
            if let MapResultView::Split(s) = r@ {
                if let MapResultView::Split(e) = include_associated_raw_image(self.raw_file_suffix@, task@) {
                    assert(s =~= e);
                }
            }
        }
        r
    }
}

} // verus!
