//! The export pipeline: the initial tasks of a set of assets, and the ordered
//! list of mappers that shapes them.
//!
//! Mappers run in the order in which they were added. Each one sees every task
//! that the one before it let through before the next mapper starts. What a
//! mapper splits off is settled with respect to that same mapper (see
//! [`lemma_split_products_are_settled`]), so feeding the products through it
//! again would change nothing.
use crate::existing::ExistingFiles;
use crate::mappers::{
    admissible_canonical,    convert_to_absolute_path, exclude_hidden, filter_by_album_id, group_by_album,
    group_by_year_and_month, group_by_year_month_and_album, include_associated_raw_image,
    mark_originals_and_derivates, one_task_per_album, prefix_hidden, remove_from_cache,
    restore_original_filenames, skip_if_exists, AlbumFilterMode, ConvertToAbsolutePath,
    ExcludeHidden, FilterByAlbumId, GroupByAlbum, GroupByYearAndMonth, GroupByYearMonthAndAlbum,
    IncludeAssociatedRawImage, MapResultView, MarkOriginalsAndDerivates, OneTaskPerAlbum,
    PrefixHidden, RemoveFromCacheIfExists, RestoreOriginalFilenames, SkipIfExists,
    TaskMapperResult,
};
use crate::model::{Album, Asset, AssetView, Library};
use crate::task::{
    derivate_mapping, original_mapping, AssetMapping, ExportTask, ExportTaskView, MappingView,
};
use vstd::prelude::*;

verus! {

/// One mapper of the pipeline.
pub enum TaskMapper<'a> {
    ExcludeHidden(ExcludeHidden),
    PrefixHidden(PrefixHidden),
    MarkOriginalsAndDerivates(MarkOriginalsAndDerivates),
    RestoreOriginalFilenames(RestoreOriginalFilenames),
    GroupByAlbum(GroupByAlbum<'a>),
    GroupByYearAndMonth(GroupByYearAndMonth),
    GroupByYearMonthAndAlbum(GroupByYearMonthAndAlbum<'a>),
    FilterByAlbumId(FilterByAlbumId),
    OneTaskPerAlbum(OneTaskPerAlbum),
    ConvertToAbsolutePath(ConvertToAbsolutePath),
    RemoveFromCacheIfExists(RemoveFromCacheIfExists),
    SkipIfExists(SkipIfExists),
    IncludeAssociatedRawImage(IncludeAssociatedRawImage),
}

/// A mapper as the data it acts on.
pub enum MapperView {
    ExcludeHidden,
    PrefixHidden,
    MarkOriginalsAndDerivates,
    RestoreOriginalFilenames,
    GroupByAlbum(Map<i32, Album>, nat),
    GroupByYearAndMonth,
    GroupByYearMonthAndAlbum(Map<i32, Album>),
    FilterByAlbumId(Seq<i32>, AlbumFilterMode),
    OneTaskPerAlbum,
    ConvertToAbsolutePath(Seq<char>),
    RemoveFromCacheIfExists,
    SkipIfExists,
    IncludeAssociatedRawImage(Seq<char>),
}

impl<'a> View for TaskMapper<'a> {
    type V = MapperView;

    open spec fn view(&self) -> MapperView {
        match self {
            TaskMapper::ExcludeHidden(_) => MapperView::ExcludeHidden,
            TaskMapper::PrefixHidden(_) => MapperView::PrefixHidden,
            TaskMapper::MarkOriginalsAndDerivates(_) => MapperView::MarkOriginalsAndDerivates,
            TaskMapper::RestoreOriginalFilenames(_) => MapperView::RestoreOriginalFilenames,
            TaskMapper::GroupByAlbum(g) => MapperView::GroupByAlbum(g.albums@, g.max_depth as nat),
            TaskMapper::GroupByYearAndMonth(_) => MapperView::GroupByYearAndMonth,
            TaskMapper::GroupByYearMonthAndAlbum(g) => MapperView::GroupByYearMonthAndAlbum(g.albums@),
            TaskMapper::FilterByAlbumId(f) => MapperView::FilterByAlbumId(f.ids@, f.mode),
            TaskMapper::OneTaskPerAlbum(_) => MapperView::OneTaskPerAlbum,
            TaskMapper::ConvertToAbsolutePath(c) => MapperView::ConvertToAbsolutePath(c.output_dir@),
            TaskMapper::RemoveFromCacheIfExists(_) => MapperView::RemoveFromCacheIfExists,
            TaskMapper::SkipIfExists(_) => MapperView::SkipIfExists,
            TaskMapper::IncludeAssociatedRawImage(i) => MapperView::IncludeAssociatedRawImage(
                i.raw_file_suffix@,
            ),
        }
    }
}

/// The outcome of canonicalizing one destination: the canonical path, or
/// `None` where canonicalization failed.
pub type Canonical = Option<Seq<char>>;

/// Whether every outcome of one stage can be an outcome of canonicalization.
pub open spec fn all_admissible(cs: Seq<Canonical>) -> bool {
    forall|i: int| 0 <= i < cs.len() ==> admissible_canonical(#[trigger] cs[i])
}

/// Whether every outcome of every stage can be an outcome of canonicalization.
pub open spec fn stages_admissible(cs: Seq<Seq<Canonical>>) -> bool {
    forall|k: int| 0 <= k < cs.len() ==> all_admissible(#[trigger] cs[k])
}

/// What the mapper `m` makes of the task `t`, and the set of existing files
/// after it; `c` is the outcome of canonicalization where `m` asks for one.
pub open spec fn map_task(m: MapperView, t: ExportTaskView, files: Set<Seq<char>>, c: Canonical) -> (MapResultView, Set<Seq<char>>) {
    match m {
        MapperView::ExcludeHidden => (exclude_hidden(t), files),
        MapperView::PrefixHidden => (prefix_hidden(t), files),
        MapperView::MarkOriginalsAndDerivates => (mark_originals_and_derivates(t), files),
        MapperView::RestoreOriginalFilenames => (restore_original_filenames(t), files),
        MapperView::GroupByAlbum(albums, depth) => (group_by_album(albums, depth, t), files),
        MapperView::GroupByYearAndMonth => (group_by_year_and_month(t), files),
        MapperView::GroupByYearMonthAndAlbum(albums) => (group_by_year_month_and_album(albums, t), files),
        MapperView::FilterByAlbumId(ids, mode) => (filter_by_album_id(ids, mode, t), files),
        MapperView::OneTaskPerAlbum => (one_task_per_album(t), files),
        MapperView::ConvertToAbsolutePath(dir) => (convert_to_absolute_path(dir, t, c), files),
        MapperView::RemoveFromCacheIfExists => (MapResultView::Mapped(t), remove_from_cache(files, t)),
        MapperView::SkipIfExists => (skip_if_exists(files, t), files),
        MapperView::IncludeAssociatedRawImage(suffix) => (include_associated_raw_image(suffix, t), files),
    }
}

/// The tasks that a mapper's result lets through.
pub open spec fn outputs(r: MapResultView) -> Seq<ExportTaskView> {
    match r {
        MapResultView::Remove => Seq::empty(),
        MapResultView::Mapped(t) => seq![t],
        MapResultView::Split(ts) => ts,
    }
}

/// The tasks after the mapper `m` has seen each of `ts` in order, and the set of
/// existing files after that; `cs[i]` is the outcome of canonicalization for
/// `ts[i]`.
pub open spec fn run_stage(m: MapperView, ts: Seq<ExportTaskView>, files: Set<Seq<char>>, cs: Seq<Canonical>) -> (Seq<ExportTaskView>, Set<Seq<char>>)
    decreases ts.len(),
{
    if ts.len() == 0 {
        (Seq::empty(), files)
    } else {
        let (before, f) = run_stage(m, ts.drop_last(), files, cs);
        let (r, f2) = map_task(m, ts.last(), f, cs[ts.len() - 1]);
        (before + outputs(r), f2)
    }
}

/// The tasks after each of the mappers `ms` has run in order over `ts`;
/// `cs[k]` holds the outcomes of canonicalization of the `k`-th stage.
pub open spec fn run_pipeline(ms: Seq<MapperView>, ts: Seq<ExportTaskView>, files: Set<Seq<char>>, cs: Seq<Seq<Canonical>>) -> (Seq<ExportTaskView>, Set<Seq<char>>)
    decreases ms.len(),
{
    if ms.len() == 0 {
        (ts, files)
    } else {
        let (before, f) = run_pipeline(ms.drop_last(), ts, files, cs);
        run_stage(ms.last(), before, f, cs[ms.len() - 1])
    }
}

/// A stage reads the outcomes of its own tasks only.
proof fn lemma_stage_reads_own_outcomes(m: MapperView, ts: Seq<ExportTaskView>, files: Set<Seq<char>>, a: Seq<Canonical>, b: Seq<Canonical>)
    requires
        forall|i: int| 0 <= i < ts.len() ==> a[i] == b[i],
    ensures
        run_stage(m, ts, files, a) == run_stage(m, ts, files, b),
    decreases ts.len(),
{
    if ts.len() > 0 {
        lemma_stage_reads_own_outcomes(m, ts.drop_last(), files, a, b);
    }
}

/// A pipeline reads the outcomes of its own stages only.
proof fn lemma_pipeline_reads_own_outcomes(ms: Seq<MapperView>, ts: Seq<ExportTaskView>, files: Set<Seq<char>>, a: Seq<Seq<Canonical>>, b: Seq<Seq<Canonical>>)
    requires
        forall|k: int| 0 <= k < ms.len() ==> a[k] == b[k],
    ensures
        run_pipeline(ms, ts, files, a) == run_pipeline(ms, ts, files, b),
    decreases ms.len(),
{
    if ms.len() > 0 {
        lemma_pipeline_reads_own_outcomes(ms.drop_last(), ts, files, a, b);
    }
}

impl<'a> TaskMapper<'a> {
    /// Runs the mapper on one task. Only the canonicalization of
    /// [`ConvertToAbsolutePath`] depends on the file system; the result is that
    /// of some outcome of it.
    pub fn map_export_task(&self, task: ExportTask, files: &mut ExistingFiles) -> (r: TaskMapperResult)
        ensures
            exists|c: Canonical|
                admissible_canonical(c) && (r@, final(files)@) == map_task(self@, task@, old(files)@, c),
    {
        let ghost none: Canonical = None;
        let ghost tv = task@;
        let r = match self {
            TaskMapper::ExcludeHidden(m) => m.map_export_task(task),
            TaskMapper::PrefixHidden(m) => m.map_export_task(task),
            TaskMapper::MarkOriginalsAndDerivates(m) => m.map_export_task(task),
            TaskMapper::RestoreOriginalFilenames(m) => m.map_export_task(task),
            TaskMapper::GroupByAlbum(m) => m.map_export_task(task),
            TaskMapper::GroupByYearAndMonth(m) => m.map_export_task(task),
            TaskMapper::GroupByYearMonthAndAlbum(m) => m.map_export_task(task),
            TaskMapper::FilterByAlbumId(m) => m.map_export_task(task),
            TaskMapper::OneTaskPerAlbum(m) => m.map_export_task(task),
            TaskMapper::ConvertToAbsolutePath(m) => {
                let r = m.map_export_task(task);
                proof {
                    let c = choose|c: Canonical|
                        admissible_canonical(c) && r@ == convert_to_absolute_path(m.output_dir@, tv, c);
                    assert(admissible_canonical(c) && (r@, files@) == map_task(self@, tv, old(files)@, c));
                }
                r
            },
            TaskMapper::RemoveFromCacheIfExists(m) => m.map_export_task(task, files),
            TaskMapper::SkipIfExists(m) => m.map_export_task(task, files),
            TaskMapper::IncludeAssociatedRawImage(m) => m.map_export_task(task),
        };
        proof {
            if !(self is ConvertToAbsolutePath) {
                assert(admissible_canonical(none) && (r@, files@) == map_task(self@, tv, old(files)@, none));
            }
        }
        r
    }
}

pub open spec fn views(v: Seq<ExportTask>) -> Seq<ExportTaskView> {
    v.map_values(|t: ExportTask| t@)
}

pub open spec fn mapper_views<'a>(v: Seq<TaskMapper<'a>>) -> Seq<MapperView> {
    v.map_values(|m: TaskMapper<'a>| m@)
}

/// Runs one mapper over all of `tasks`.
pub fn apply_stage(mapper: &TaskMapper, tasks: &Vec<ExportTask>, files: &mut ExistingFiles) -> (r: Vec<ExportTask>)
    ensures
        exists|cs: Seq<Canonical>|
            all_admissible(cs) && (views(r@), final(files)@) == run_stage(mapper@, views(tasks@), old(files)@, cs),
{
    let mut out: Vec<ExportTask> = Vec::new();
    let mut i: usize = 0;
    let ghost mut cs: Seq<Canonical> = Seq::empty();
    assert(views(tasks@).subrange(0, 0) =~= Seq::<ExportTaskView>::empty());
    assert(views(out@) =~= Seq::<ExportTaskView>::empty());
    while i < tasks.len()
        invariant
            i <= tasks@.len(),
            cs.len() == i,
            all_admissible(cs),
            (views(out@), files@) == run_stage(mapper@, views(tasks@).subrange(0, i as int), old(files)@, cs),
        decreases tasks.len() - i,
    {
        let ghost prefix = views(tasks@).subrange(0, i + 1);
        assert(prefix.drop_last() =~= views(tasks@).subrange(0, i as int));
        assert(prefix.last() == tasks@[i as int]@);
        let ghost out_before = views(out@);
        let ghost files_before = files@;
        let task = tasks[i].clone();
        let result = mapper.map_export_task(task, files);
        let ghost c = choose|c: Canonical|
            admissible_canonical(c) && (result@, files@) == map_task(mapper@, task@, files_before, c);
        proof {
            lemma_stage_reads_own_outcomes(mapper@, views(tasks@).subrange(0, i as int), old(files)@, cs, cs.push(c));
            cs = cs.push(c);
        }
        match result {
            TaskMapperResult::Remove => {},
            TaskMapperResult::Mapped(t) => {
                out.push(t);
            },
            TaskMapperResult::Split(ts) => {
                let mut more = ts;
                out.append(&mut more);
            },
        }
        assert(views(out@) =~= out_before + outputs(result@));
        i = i + 1;
    }
    assert(views(tasks@).subrange(0, i as int) =~= views(tasks@));
    assert(all_admissible(cs) && (views(out@), files@) == run_stage(mapper@, views(tasks@), old(files)@, cs));
    out
}

/// Runs all of `mappers`, in order, over `tasks`.
pub fn apply_mappers(mappers: &Vec<TaskMapper>, tasks: Vec<ExportTask>, files: &mut ExistingFiles) -> (r: Vec<ExportTask>)
    ensures
        exists|cs: Seq<Seq<Canonical>>|
            stages_admissible(cs) && (views(r@), final(files)@) == run_pipeline(mapper_views(mappers@), views(tasks@), old(files)@, cs),
{
    let mut current = tasks;
    let mut i: usize = 0;
    let ghost initial = views(tasks@);
    let ghost mut cs: Seq<Seq<Canonical>> = Seq::empty();
    assert(mapper_views(mappers@).subrange(0, 0) =~= Seq::<MapperView>::empty());
    while i < mappers.len()
        invariant
            i <= mappers@.len(),
            cs.len() == i,
            stages_admissible(cs),
            (views(current@), files@) == run_pipeline(
                mapper_views(mappers@).subrange(0, i as int),
                initial,
                old(files)@,
                cs,
            ),
        decreases mappers.len() - i,
    {
        let ghost prefix = mapper_views(mappers@).subrange(0, i + 1);
        assert(prefix.drop_last() =~= mapper_views(mappers@).subrange(0, i as int));
        assert(prefix.last() == mappers@[i as int]@);
        let ghost before = views(current@);
        let ghost files_before = files@;
        current = apply_stage(&mappers[i], &current, files);
        let ghost stage = choose|st: Seq<Canonical>|
            all_admissible(st) && (views(current@), files@) == run_stage(mappers@[i as int]@, before, files_before, st);
        proof {
            lemma_pipeline_reads_own_outcomes(mapper_views(mappers@).subrange(0, i as int), initial, old(files)@, cs, cs.push(stage));
            cs = cs.push(stage);
        }
        i = i + 1;
    }
    assert(mapper_views(mappers@).subrange(0, i as int) =~= mapper_views(mappers@));
    assert(stages_admissible(cs) && (views(current@), files@) == run_pipeline(mapper_views(mappers@), initial, old(files)@, cs));
    current
}

/// Which renditions of an asset are exported.
#[derive(Clone, Copy, PartialEq, Eq, Structural, Debug)]
pub enum ExportPolicy {
    /// The original of each asset.
    OriginalsOnly,
    /// The edited rendition of an edited asset (nothing, if it is not on disk),
    /// and the original of an unedited one.
    DerivativesWithFallback,
    /// The edited rendition where there is one on disk, and the original always.
    OriginalsAndDerivatives,
}

pub open spec fn opt_seq(o: Option<MappingView>) -> Seq<ExportTaskView> {
    match o {
        Some(m) => seq![ExportTaskView::Copy(m)],
        None => Seq::empty(),
    }
}

/// The initial tasks of one asset under a policy; `on_disk` tells whether the
/// asset's edited rendition exists.
pub open spec fn asset_tasks(lib: &Library, policy: ExportPolicy, a: AssetView, on_disk: bool) -> Seq<ExportTaskView> {
    let original = seq![ExportTaskView::Copy(original_mapping(lib, a))];
    match policy {
        ExportPolicy::OriginalsOnly => original,
        ExportPolicy::DerivativesWithFallback => if a.has_adjustments {
            opt_seq(derivate_mapping(lib, a, on_disk))
        } else {
            original
        },
        ExportPolicy::OriginalsAndDerivatives => if a.has_adjustments {
            opt_seq(derivate_mapping(lib, a, on_disk)) + original
        } else {
            original
        },
    }
}

/// The initial tasks of all assets, in their order.
pub open spec fn initial_tasks(lib: &Library, policy: ExportPolicy, assets: Seq<AssetView>, on_disk: Seq<bool>) -> Seq<ExportTaskView>
    decreases assets.len(),
{
    if assets.len() == 0 || on_disk.len() != assets.len() {
        Seq::empty()
    } else {
        initial_tasks(lib, policy, assets.drop_last(), on_disk.drop_last()) + asset_tasks(
            lib,
            policy,
            assets.last(),
            on_disk.last(),
        )
    }
}

pub open spec fn asset_views(v: Seq<Asset>) -> Seq<AssetView> {
    v.map_values(|a: Asset| a@)
}

/// Builds export tasks from assets and runs them through a list of mappers.
pub struct ExportTaskFactory<'a> {
    pub library: Library,
    pub policy: ExportPolicy,
    pub mappers: Vec<TaskMapper<'a>>,
}

impl<'a> ExportTaskFactory<'a> {
    /// A factory that exports the originals only.
    pub fn new_for_originals(library: Library) -> (r: ExportTaskFactory<'a>)
        ensures
            r.library == library,
            r.policy == ExportPolicy::OriginalsOnly,
            r.mappers@.len() == 0,
    {
        ExportTaskFactory { library, policy: ExportPolicy::OriginalsOnly, mappers: Vec::new() }
    }

    /// A factory that prefers edited renditions and falls back to originals.
    pub fn new_for_derivates_with_fallback(library: Library) -> (r: ExportTaskFactory<'a>)
        ensures
            r.library == library,
            r.policy == ExportPolicy::DerivativesWithFallback,
            r.mappers@.len() == 0,
    {
        ExportTaskFactory {
            library,
            policy: ExportPolicy::DerivativesWithFallback,
            mappers: Vec::new(),
        }
    }

    /// A factory that exports originals, and edited renditions beside them.
    pub fn new_for_originals_and_derivates(library: Library) -> (r: ExportTaskFactory<'a>)
        ensures
            r.library == library,
            r.policy == ExportPolicy::OriginalsAndDerivatives,
            r.mappers@.len() == 0,
    {
        ExportTaskFactory {
            library,
            policy: ExportPolicy::OriginalsAndDerivatives,
            mappers: Vec::new(),
        }
    }

    /// Appends a mapper to the pipeline.
    pub fn add_mapper(&mut self, mapper: TaskMapper<'a>)
        ensures
            final(self).mappers@ == old(self).mappers@.push(mapper),
            final(self).library == old(self).library,
            final(self).policy == old(self).policy,
    {
        self.mappers.push(mapper);
    }

    /// The initial tasks of one asset.
    fn create_tasks(&self, asset: Asset, derivate_on_disk: bool) -> (r: Vec<ExportTask>)
        ensures
            views(r@) == asset_tasks(&self.library, self.policy, asset@, derivate_on_disk),
    {
        let mut v: Vec<ExportTask> = Vec::new();
        let ghost a = asset@;
        let include_derivate = match self.policy {
            ExportPolicy::OriginalsOnly => false,
            _ => asset.has_adjustments,
        };
        let include_original = match self.policy {
            ExportPolicy::OriginalsOnly => true,
            ExportPolicy::DerivativesWithFallback => !asset.has_adjustments,
            ExportPolicy::OriginalsAndDerivatives => true,
        };
        if include_derivate {
            if let Some(m) = AssetMapping::for_derivate(&self.library, asset.clone(), derivate_on_disk) {
                v.push(ExportTask::Copy(m));
            }
        }
        if include_original {
            v.push(ExportTask::Copy(AssetMapping::for_original(&self.library, asset)));
        }
        assert(views(v@) =~= asset_tasks(&self.library, self.policy, a, derivate_on_disk));
        v
    }

    /// The initial tasks of all assets, in their order; `derivates_on_disk[i]`
    /// tells whether the edited rendition of `assets[i]` exists.
    pub fn initial_tasks(&self, assets: Vec<Asset>, derivates_on_disk: &Vec<bool>) -> (r: Vec<ExportTask>)
        requires
            assets@.len() == derivates_on_disk@.len(),
        ensures
            views(r@) == initial_tasks(&self.library, self.policy, asset_views(assets@), derivates_on_disk@),
    {
        let mut out: Vec<ExportTask> = Vec::new();
        let mut i: usize = 0;
        let ghost av = asset_views(assets@);
        assert(views(out@) =~= Seq::<ExportTaskView>::empty());
        while i < assets.len()
            invariant
                i <= assets@.len(),
                assets@.len() == derivates_on_disk@.len(),
                av == asset_views(assets@),
                views(out@) == initial_tasks(
                    &self.library,
                    self.policy,
                    av.subrange(0, i as int),
                    derivates_on_disk@.subrange(0, i as int),
                ),
            decreases assets.len() - i,
        {
            let ghost before = views(out@);
            assert(av.subrange(0, i + 1).drop_last() =~= av.subrange(0, i as int));
            assert(derivates_on_disk@.subrange(0, i + 1).drop_last() =~= derivates_on_disk@.subrange(
                0,
                i as int,
            ));
            let mut more = self.create_tasks(assets[i].clone(), derivates_on_disk[i]);
            let ghost added = views(more@);
            out.append(&mut more);
            assert(views(out@) =~= before + added);
            i = i + 1;
        }
        assert(av.subrange(0, i as int) =~= av);
        assert(derivates_on_disk@.subrange(0, i as int) =~= derivates_on_disk@);
        out
    }

    /// The tasks of `assets` after the whole pipeline; `derivates_on_disk[i]`
    /// tells whether the edited rendition of `assets[i]` exists, and `files` is the
    /// set of existing output files that the reconciliation mappers consult.
    /// The result is that of the pipeline for some outcomes of canonicalization,
    /// each an absolute path or a failure.
    pub fn build(&self, assets: Vec<Asset>, derivates_on_disk: &Vec<bool>, files: &mut ExistingFiles) -> (r: Vec<ExportTask>)
        requires
            assets@.len() == derivates_on_disk@.len(),
        ensures
            exists|cs: Seq<Seq<Canonical>>| stages_admissible(cs) && (views(r@), final(files)@) == run_pipeline(
                mapper_views(self.mappers@),
                initial_tasks(&self.library, self.policy, asset_views(assets@), derivates_on_disk@),
                old(files)@,
                cs,
            ),
    {
        let tasks = self.initial_tasks(assets, derivates_on_disk);
        apply_mappers(&self.mappers, tasks, files)
    }
}

/// A mapper leaves what it has split off as it is: each product of a split,
/// fed through the same mapper again, passes unchanged and leaves the set of
/// existing files as it was.
pub proof fn lemma_split_products_are_settled(m: MapperView, t: ExportTaskView, files: Set<Seq<char>>, c: Canonical, later: Set<Seq<char>>, c2: Canonical, i: int)
    requires
        map_task(m, t, files, c).0 is Split,
        0 <= i < outputs(map_task(m, t, files, c).0).len(),
    ensures
        map_task(m, outputs(map_task(m, t, files, c).0)[i], later, c2) == (
            MapResultView::Mapped(outputs(map_task(m, t, files, c).0)[i]),
            later,
        ),
{
}

} // verus!
