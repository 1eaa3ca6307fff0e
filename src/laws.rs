//! Properties of the pipeline that hold for all inputs, proved from the
//! contracts of the mappers.
use crate::albums::{album_path, album_segment};
use crate::mappers::{
    filter_by_album_id, filter_matches, include_associated_raw_image, one_task_per_album, paired,
    raw_source, remove_from_cache, AlbumFilterMode,
};
use crate::model::{Album, AssociatedRawView};
use crate::paths::{file_stem, with_extension};
use crate::pipeline::{map_task, outputs, run_pipeline, run_stage, Canonical, MapperView};
use crate::task::{ExportTaskView, MappingView};
use vstd::prelude::*;

verus! {

/// Fan-out over albums: a copy that has no album yet, of an asset in `n > 0`
/// albums, becomes `n` copies, the `i`-th attributed to the asset's `i`-th
/// album and otherwise the same as the original copy. When the asset's album
/// ids are distinct, so are those of the copies.
pub proof fn lemma_album_fan_out(m: MappingView)
    requires
        m.album_id is None,
        m.asset.album_ids.len() > 0,
    ensures
        one_task_per_album(ExportTaskView::Copy(m)) is Split,
        outputs(one_task_per_album(ExportTaskView::Copy(m))).len() == m.asset.album_ids.len(),
        forall|i: int| 0 <= i < m.asset.album_ids.len() ==> #[trigger] outputs(
            one_task_per_album(ExportTaskView::Copy(m)),
        )[i] == ExportTaskView::Copy(MappingView { album_id: Some(m.asset.album_ids[i]), ..m }),
        m.asset.album_ids.no_duplicates() ==> forall|i: int, j: int|
            0 <= i < j < m.asset.album_ids.len() ==> #[trigger] outputs(
                one_task_per_album(ExportTaskView::Copy(m)),
            )[i] != #[trigger] outputs(one_task_per_album(ExportTaskView::Copy(m)))[j],
{
}

/// Whether a filter on album ids lets the task `t` through.
pub open spec fn filter_keeps(ids: Seq<i32>, mode: AlbumFilterMode, t: ExportTaskView) -> bool {
    filter_by_album_id(ids, mode, t) is Mapped
}

/// Filtering by album: the filter stage keeps exactly the tasks whose
/// attributed album is (for `Include`) or is not (for `Exclude`) among `ids`,
/// in their order; deletions always pass. Of each copy, exactly one of the two
/// modes keeps it.
pub proof fn lemma_filter_by_album(ids: Seq<i32>, mode: AlbumFilterMode, ts: Seq<ExportTaskView>, files: Set<Seq<char>>, cs: Seq<Canonical>)
    ensures
        run_stage(MapperView::FilterByAlbumId(ids, mode), ts, files, cs) == (
            ts.filter(|t: ExportTaskView| filter_keeps(ids, mode, t)),
            files,
        ),
        forall|m: MappingView|
            #![trigger filter_keeps(ids, AlbumFilterMode::Include, ExportTaskView::Copy(m))]
            filter_keeps(ids, AlbumFilterMode::Include, ExportTaskView::Copy(m)) == filter_matches(
                ids,
                m.album_id,
            ) && filter_keeps(ids, AlbumFilterMode::Exclude, ExportTaskView::Copy(m)) == !filter_matches(
                ids,
                m.album_id,
            ),
    decreases ts.len(),
{
    reveal(Seq::filter);
    if ts.len() > 0 {
        lemma_filter_by_album(ids, mode, ts.drop_last(), files, cs);
    }
}

/// The task `t` after [`crate::mappers::SkipIfExists`] with the existing files `f`.
pub open spec fn skip_marked(f: Set<Seq<char>>, t: ExportTaskView) -> ExportTaskView {
    match t {
        ExportTaskView::Copy(m) => if f.contains(m.destination) {
            ExportTaskView::Copy(MappingView { skip: true, ..m })
        } else {
            t
        },
        ExportTaskView::Delete(_) => t,
    }
}

/// Whether `t` is a copy to `p`.
pub open spec fn writes_to(t: ExportTaskView, p: Seq<char>) -> bool {
    match t {
        ExportTaskView::Copy(m) => m.destination == p,
        ExportTaskView::Delete(_) => false,
    }
}

/// The destinations that the copies among `ts` write to.
pub open spec fn copy_destinations(ts: Seq<ExportTaskView>) -> Set<Seq<char>> {
    Set::new(
        |p: Seq<char>|
            exists|i: int| 0 <= i < ts.len() && #[trigger] writes_to(ts[i], p),
    )
}

/// Reconciliation with the output tree: the skip stage marks exactly the copies
/// whose destination exists and changes nothing else; the stage that removes
/// from the set of existing files leaves the tasks as they are and takes out of
/// the set every destination that a copy writes to, and nothing else. What is
/// left in the set is what becomes deletion tasks.
pub proof fn lemma_reconciliation(ts: Seq<ExportTaskView>, files: Set<Seq<char>>, cs: Seq<Canonical>)
    ensures
        run_stage(MapperView::SkipIfExists, ts, files, cs) == (
            ts.map_values(|t: ExportTaskView| skip_marked(files, t)),
            files,
        ),
        run_stage(MapperView::RemoveFromCacheIfExists, ts, files, cs) == (
            ts,
            files.difference(copy_destinations(ts)),
        ),
    decreases ts.len(),
{
    if ts.len() > 0 {
        let init = ts.drop_last();
        lemma_reconciliation(init, files, cs);
        assert(ts.map_values(|t: ExportTaskView| skip_marked(files, t)) =~= init.map_values(
            |t: ExportTaskView| skip_marked(files, t),
        ).push(skip_marked(files, ts.last())));
        assert(init.push(ts.last()) =~= ts);
        let f = files.difference(copy_destinations(init));
        let last = ts.last();
        assert(remove_from_cache(f, last) =~= files.difference(copy_destinations(ts))) by {
            assert forall|p: Seq<char>| #[trigger] copy_destinations(ts).contains(p) <==> (
            copy_destinations(init).contains(p) || writes_to(last, p)) by {
                if copy_destinations(ts).contains(p) {
                    let i = choose|i: int|
                        0 <= i < ts.len() && #[trigger] writes_to(ts[i], p);
                    if i < init.len() {
                        assert(init[i] == ts[i]);
                    }
                }
                if copy_destinations(init).contains(p) {
                    let i = choose|i: int|
                        0 <= i < init.len() && #[trigger] writes_to(init[i], p);
                    assert(ts[i] == init[i]);
                }
                if writes_to(last, p) {
                    assert(ts[ts.len() - 1] == last);
                }
            }
        }
    } else {
        assert(ts.map_values(|t: ExportTaskView| skip_marked(files, t)) =~= ts);
        assert(files.difference(copy_destinations(ts)) =~= files);
    }
}

/// Grouping depth: flat grouping puts a copy under its album's own name
/// (nothing, for the root), and grouping one level deeper puts the parent's
/// path in front of that name.
pub proof fn lemma_grouping_depth(albums: Map<i32, Album>, id: i32, depth: nat)
    requires
        albums.contains_key(id),
        albums[id].parent_id is Some,
        depth > 0,
    ensures
        album_path(albums, id, 1) == album_segment(albums[id]),
        album_path(albums, id, depth) == crate::paths::path_join(
            album_path(albums, albums[id].parent_id.unwrap(), (depth - 1) as nat),
            album_segment(albums[id]),
        ),
{
    assert(album_path(albums, albums[id].parent_id.unwrap(), 0) == Seq::<char>::empty());
}


/// `t` with its skip mark cleared.
pub open spec fn without_skip(t: ExportTaskView) -> ExportTaskView {
    match t {
        ExportTaskView::Copy(m) => ExportTaskView::Copy(MappingView { skip: false, ..m }),
        ExportTaskView::Delete(_) => t,
    }
}

pub open spec fn unskipped(ts: Seq<ExportTaskView>) -> Seq<ExportTaskView> {
    ts.map_values(|t: ExportTaskView| without_skip(t))
}

/// The path that a task writes or deletes.
pub open spec fn target_of(t: ExportTaskView) -> Seq<char> {
    match t {
        ExportTaskView::Copy(m) => m.destination,
        ExportTaskView::Delete(p) => p,
    }
}

pub open spec fn targets(ts: Seq<ExportTaskView>) -> Seq<Seq<char>> {
    ts.map_values(|t: ExportTaskView| target_of(t))
}

#[verifier::spinoff_prover]
#[verifier::rlimit(40)]
proof fn lemma_mapper_ignores_skip(
    m: MapperView,
    t1: ExportTaskView,
    t2: ExportTaskView,
    f1: Set<Seq<char>>,
    f2: Set<Seq<char>>,
    c: Canonical,
)
    requires
        without_skip(t1) == without_skip(t2),
    ensures
        unskipped(outputs(map_task(m, t1, f1, c).0)) == unskipped(outputs(map_task(m, t2, f2, c).0)),
{
    let o1 = outputs(map_task(m, t1, f1, c).0);
    let o2 = outputs(map_task(m, t2, f2, c).0);
    match (t1, t2) {
        (ExportTaskView::Copy(m1), ExportTaskView::Copy(m2)) => {
            assert(without_skip(t1)->Copy_0 == without_skip(t2)->Copy_0);
            assert(m2 == MappingView { skip: m2.skip, ..m1 });
            match m {
                MapperView::OneTaskPerAlbum => {
                    assert(unskipped(o1) =~= unskipped(o2));
                },
                MapperView::IncludeAssociatedRawImage(suffix) => {
                    assert(unskipped(o1) =~= unskipped(o2));
                },
                MapperView::SkipIfExists => {
                    assert(unskipped(o1) =~= unskipped(o2));
                },
                MapperView::FilterByAlbumId(ids, mode) => {
                    assert(unskipped(o1) =~= unskipped(o2));
                },
                MapperView::ExcludeHidden => {
                    assert(unskipped(o1) =~= unskipped(o2));
                },
                _ => {
                    assert(o1.len() == 1 && o2.len() == 1);
                    assert(unskipped(o1) =~= unskipped(o2));
                },
            }
        },
        _ => {
            assert(t1 == t2);
            assert(unskipped(o1) =~= unskipped(o2));
        },
    }
}

proof fn lemma_stage_ignores_skip(
    m: MapperView,
    ts1: Seq<ExportTaskView>,
    ts2: Seq<ExportTaskView>,
    f1: Set<Seq<char>>,
    f2: Set<Seq<char>>,
    cs: Seq<Canonical>,
)
    requires
        unskipped(ts1) == unskipped(ts2),
    ensures
        unskipped(run_stage(m, ts1, f1, cs).0) == unskipped(run_stage(m, ts2, f2, cs).0),
    decreases ts1.len(),
{
    assert(ts1.len() == unskipped(ts1).len());
    if ts1.len() > 0 {
        assert(unskipped(ts1.drop_last()) =~= unskipped(ts1).drop_last());
        assert(unskipped(ts2.drop_last()) =~= unskipped(ts2).drop_last());
        lemma_stage_ignores_skip(m, ts1.drop_last(), ts2.drop_last(), f1, f2, cs);
        let (b1, g1) = run_stage(m, ts1.drop_last(), f1, cs);
        let (b2, g2) = run_stage(m, ts2.drop_last(), f2, cs);
        assert(unskipped(ts1)[ts1.len() - 1] == unskipped(ts2)[ts1.len() - 1]);
        assert(unskipped(ts1)[ts1.len() - 1] == without_skip(ts1.last()));
        assert(unskipped(ts2)[ts1.len() - 1] == without_skip(ts2.last()));
        lemma_mapper_ignores_skip(m, ts1.last(), ts2.last(), g1, g2, cs[ts1.len() - 1]);
        let o1 = outputs(map_task(m, ts1.last(), g1, cs[ts1.len() - 1]).0);
        let o2 = outputs(map_task(m, ts2.last(), g2, cs[ts1.len() - 1]).0);
        assert(unskipped(b1 + o1) =~= unskipped(b1) + unskipped(o1));
        assert(unskipped(b2 + o2) =~= unskipped(b2) + unskipped(o2));
    }
}

proof fn lemma_pipeline_ignores_skip(
    ms: Seq<MapperView>,
    ts: Seq<ExportTaskView>,
    f1: Set<Seq<char>>,
    f2: Set<Seq<char>>,
    cs: Seq<Seq<Canonical>>,
)
    ensures
        unskipped(run_pipeline(ms, ts, f1, cs).0) == unskipped(run_pipeline(ms, ts, f2, cs).0),
    decreases ms.len(),
{
    if ms.len() > 0 {
        lemma_pipeline_ignores_skip(ms.drop_last(), ts, f1, f2, cs);
        let (b1, g1) = run_pipeline(ms.drop_last(), ts, f1, cs);
        let (b2, g2) = run_pipeline(ms.drop_last(), ts, f2, cs);
        lemma_stage_ignores_skip(ms.last(), b1, b2, g1, g2, cs[ms.len() - 1]);
    }
}

/// Destination paths are a function of the configuration, the assets and the
/// outcomes of canonicalization alone: running the same mappers over the same
/// initial tasks, where canonicalization answers the same, yields the same
/// tasks, up to the skip marks, and so the same paths in the same order,
/// whatever set of existing files each run starts from. A second export into a
/// tree that the first one filled therefore computes byte-identical
/// destinations.
pub proof fn lemma_destinations_are_reproducible(
    ms: Seq<MapperView>,
    ts: Seq<ExportTaskView>,
    first: Set<Seq<char>>,
    second: Set<Seq<char>>,
    cs: Seq<Seq<Canonical>>,
)
    ensures
        unskipped(run_pipeline(ms, ts, first, cs).0) == unskipped(run_pipeline(ms, ts, second, cs).0),
        targets(run_pipeline(ms, ts, first, cs).0) == targets(run_pipeline(ms, ts, second, cs).0),
{
    lemma_pipeline_ignores_skip(ms, ts, first, second, cs);
    let r1 = run_pipeline(ms, ts, first, cs).0;
    let r2 = run_pipeline(ms, ts, second, cs).0;
    assert(r1.len() == unskipped(r1).len() && r2.len() == unskipped(r2).len());
    assert forall|i: int| 0 <= i < r1.len() implies target_of(r1[i]) == target_of(r2[i]) by {
        assert(unskipped(r1)[i] == unskipped(r2)[i]);
    }
    assert(targets(r1) =~= targets(r2));
}


/// Raw pairing: the primary copy of an original whose asset has a sibling file
/// of type `u` becomes exactly two copies, both marked as a pair. The first is
/// the copy itself; the second reads the sibling file and writes to the same
/// destination with the sibling's extension, so the two destinations share
/// their stem and differ in the extension alone.
pub proof fn lemma_raw_pairing(suffix: Seq<char>, m: MappingView, u: crate::uti::UtiView)
    requires
        !m.is_derivate,
        !m.is_part_of_raw_pair,
        m.asset.raw_image == AssociatedRawView::Present(u),
        file_stem(m.source) is Some,
        u.ext.len() > 0,
        forall|k: int| 0 <= k < u.ext.len() ==> u.ext[k] != '.' && u.ext[k] != '/',
    ensures
        include_associated_raw_image(suffix, ExportTaskView::Copy(m)) is Split,
        outputs(include_associated_raw_image(suffix, ExportTaskView::Copy(m))) == seq![
            ExportTaskView::Copy(paired(m)),
            ExportTaskView::Copy(
                MappingView {
                    source: raw_source(m, suffix, u.ext),
                    destination: with_extension(m.destination, u.ext),
                    ..paired(m)
                },
            ),
        ],
        file_stem(with_extension(m.destination, u.ext)) == file_stem(m.destination),
        crate::paths::has_file_name(m.destination) ==> crate::paths::extension(
            with_extension(m.destination, u.ext),
        ) == Some(u.ext),
{
    crate::paths::lemma_with_extension_keeps_stem(m.destination, u.ext);
}

} // verus!
