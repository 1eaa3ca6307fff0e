use photos_export::date::CalendarDate;
use photos_export::existing::ExistingFiles;
use photos_export::mappers::{
    resolve_destination,
    AlbumFilterMode, ConvertToAbsolutePath, ExcludeHidden, FilterByAlbumId, GroupByAlbum,
    GroupByYearAndMonth, GroupByYearMonthAndAlbum, IncludeAssociatedRawImage,
    MarkOriginalsAndDerivates, OneTaskPerAlbum, PrefixHidden, RemoveFromCacheIfExists,
    RestoreOriginalFilenames, SkipIfExists, TaskMapperResult,
};
use photos_export::model::{Album, Asset, AssociatedRaw, Library};
use photos_export::pipeline::{ExportTaskFactory, TaskMapper};
use photos_export::task::{create_delete_tasks, AssetMapping, ExportTask};
use photos_export::uti::Uti;
use std::collections::HashMap;

fn asset(id: i32, filename: &str, albums: Vec<i32>) -> Asset {
    Asset {
        id,
        uuid: format!("UUID-{}", id),
        dir: "0".to_string(),
        filename: filename.to_string(),
        derivate_uti: Uti::from_name("public.jpeg").ok().unwrap(),
        datetime: CalendarDate::new(2023, 1, 15).unwrap(),
        hidden: false,
        original_filename: format!("IMG_{}.JPG", id),
        has_adjustments: false,
        album_ids: albums,
        raw_image: AssociatedRaw::Absent,
    }
}

fn lib() -> Library {
    Library::new("/lib".to_string())
}

fn copy_of(a: Asset) -> AssetMapping {
    AssetMapping::for_original(&lib(), a)
}

fn mapped(r: TaskMapperResult) -> AssetMapping {
    match r {
        TaskMapperResult::Mapped(ExportTask::Copy(m)) => m,
        _ => panic!("expected a mapped copy"),
    }
}

fn split(r: TaskMapperResult) -> Vec<AssetMapping> {
    match r {
        TaskMapperResult::Split(v) => v
            .into_iter()
            .map(|t| match t {
                ExportTask::Copy(m) => m,
                ExportTask::Delete(_) => panic!("expected copies"),
            })
            .collect(),
        _ => panic!("expected a split"),
    }
}

fn copies(v: Vec<ExportTask>) -> Vec<AssetMapping> {
    v.into_iter()
        .map(|t| match t {
            ExportTask::Copy(m) => m,
            ExportTask::Delete(_) => panic!("expected copies"),
        })
        .collect()
}

fn albums() -> HashMap<i32, Album> {
    let mut m = HashMap::new();
    m.insert(1, Album { id: 1, name: None, parent_id: None, start_date: None });
    m.insert(
        2,
        Album { id: 2, name: Some("2020".to_string()), parent_id: Some(1), start_date: None },
    );
    m.insert(
        3,
        Album {
            id: 3,
            name: Some("Trip".to_string()),
            parent_id: Some(2),
            start_date: CalendarDate::new(2020, 7, 1),
        },
    );
    m.insert(4, Album { id: 4, name: None, parent_id: Some(1), start_date: None });
    m
}

#[test]
fn album_fan_out_gives_one_copy_per_album() {
    let m = copy_of(asset(1, "a.jpg", vec![10, 20, 30]));
    let parts = split(OneTaskPerAlbum::new().map_export_task(ExportTask::Copy(m.clone())));
    assert_eq!(parts.len(), 3);
    let ids: Vec<Option<i32>> = parts.iter().map(|p| p.album_id).collect();
    assert_eq!(ids, vec![Some(10), Some(20), Some(30)]);
    for p in &parts {
        assert_eq!(p.source, m.source);
        assert_eq!(p.destination, m.destination);
        assert_eq!(p.asset.id, 1);
    }
    let again = OneTaskPerAlbum::new().map_export_task(ExportTask::Copy(parts[0].clone()));
    assert_eq!(mapped(again).album_id, Some(10));
    let lonely = copy_of(asset(2, "b.jpg", vec![]));
    assert_eq!(mapped(OneTaskPerAlbum::new().map_export_task(ExportTask::Copy(lonely))).album_id, None);
}

#[test]
fn filter_by_album_id_include_and_exclude() {
    let m = copy_of(asset(1, "a.jpg", vec![10, 20, 30]));
    let parts = split(OneTaskPerAlbum::new().map_export_task(ExportTask::Copy(m)));
    let keep_listed = FilterByAlbumId::new(vec![10], AlbumFilterMode::Include);
    let drop_listed = FilterByAlbumId::new(vec![10], AlbumFilterMode::Exclude);
    let kept: Vec<Option<i32>> = parts
        .iter()
        .filter_map(|p| match keep_listed.map_export_task(ExportTask::Copy(p.clone())) {
            TaskMapperResult::Mapped(ExportTask::Copy(m)) => Some(m.album_id),
            _ => None,
        })
        .collect();
    assert_eq!(kept, vec![Some(10)]);
    let rest: Vec<Option<i32>> = parts
        .iter()
        .filter_map(|p| match drop_listed.map_export_task(ExportTask::Copy(p.clone())) {
            TaskMapperResult::Mapped(ExportTask::Copy(m)) => Some(m.album_id),
            _ => None,
        })
        .collect();
    assert_eq!(rest, vec![Some(20), Some(30)]);
    let unattributed = copy_of(asset(2, "b.jpg", vec![]));
    assert!(matches!(
        keep_listed.map_export_task(ExportTask::Copy(unattributed.clone())),
        TaskMapperResult::Remove
    ));
    assert!(matches!(
        drop_listed.map_export_task(ExportTask::Copy(unattributed)),
        TaskMapperResult::Mapped(_)
    ));
    assert!(matches!(
        keep_listed.map_export_task(ExportTask::Delete("/x".to_string())),
        TaskMapperResult::Mapped(ExportTask::Delete(_))
    ));
}

#[test]
fn raw_pairing_adds_the_sibling_file() {
    let mut a = asset(5, "UUID-5.jpeg", vec![]);
    a.raw_image = AssociatedRaw::Present(Uti::from_name("com.adobe.raw-image").ok().unwrap());
    let m = copy_of(a);
    let mapper = IncludeAssociatedRawImage::new("_3");
    let parts = split(mapper.map_export_task(ExportTask::Copy(m)));
    assert_eq!(parts.len(), 2);
    assert_eq!(parts[0].destination, "UUID-5.jpeg");
    assert_eq!(parts[0].source, "/lib/originals/0/UUID-5.jpeg");
    assert_eq!(parts[1].destination, "UUID-5.dng");
    assert_eq!(parts[1].source, "/lib/originals/0/UUID-5_3.dng");
    assert!(parts[0].is_part_of_raw_pair && parts[1].is_part_of_raw_pair);
    let again = mapper.map_export_task(ExportTask::Copy(parts[0].clone()));
    assert_eq!(mapped(again).destination, "UUID-5.jpeg");

    let mut broken = asset(6, "UUID-6.jpeg", vec![]);
    broken.raw_image = AssociatedRaw::Unreadable;
    assert!(matches!(
        mapper.map_export_task(ExportTask::Copy(copy_of(broken))),
        TaskMapperResult::Remove
    ));
    let plain = copy_of(asset(7, "UUID-7.jpeg", vec![]));
    assert!(!mapped(mapper.map_export_task(ExportTask::Copy(plain))).is_part_of_raw_pair);
}

#[test]
fn grouping_by_album_flat_and_recursive() {
    let albums = albums();
    let mut m = copy_of(asset(1, "x.jpg", vec![3]));
    m.album_id = Some(3);
    let flat = GroupByAlbum::flat(&albums).map_export_task(ExportTask::Copy(m.clone()));
    assert_eq!(mapped(flat).destination, "Trip/x.jpg");
    let deep = GroupByAlbum::recursive(&albums).map_export_task(ExportTask::Copy(m.clone()));
    assert_eq!(mapped(deep).destination, "2020/Trip/x.jpg");
    let mut unnamed = m.clone();
    unnamed.album_id = Some(4);
    let r = GroupByAlbum::recursive(&albums).map_export_task(ExportTask::Copy(unnamed));
    assert_eq!(mapped(r).destination, "_unknown_/x.jpg");
    let mut missing = m.clone();
    missing.album_id = Some(99);
    let r = GroupByAlbum::recursive(&albums).map_export_task(ExportTask::Copy(missing));
    assert_eq!(mapped(r).destination, "x.jpg");
    let mut none = m;
    none.album_id = None;
    let r = GroupByAlbum::recursive(&albums).map_export_task(ExportTask::Copy(none));
    assert_eq!(mapped(r).destination, "x.jpg");
}

#[test]
fn grouping_by_dates() {
    let albums = albums();
    let m = copy_of(asset(1, "x.jpg", vec![]));
    let r = GroupByYearAndMonth::new().map_export_task(ExportTask::Copy(m.clone()));
    assert_eq!(mapped(r).destination, "2023/01/x.jpg");
    let mut in_trip = m.clone();
    in_trip.album_id = Some(3);
    let by_album = GroupByYearMonthAndAlbum::new(&albums);
    assert_eq!(mapped(by_album.map_export_task(ExportTask::Copy(in_trip))).destination, "2020/07/x.jpg");
    let mut undated = m.clone();
    undated.album_id = Some(2);
    assert_eq!(mapped(by_album.map_export_task(ExportTask::Copy(undated))).destination, "2023/01/x.jpg");
    assert_eq!(mapped(by_album.map_export_task(ExportTask::Copy(m))).destination, "2023/01/x.jpg");
}

#[test]
fn hidden_assets() {
    let mut a = asset(1, "x.jpg", vec![]);
    a.hidden = true;
    let m = copy_of(a);
    assert!(matches!(
        ExcludeHidden::new().map_export_task(ExportTask::Copy(m.clone())),
        TaskMapperResult::Remove
    ));
    let r = PrefixHidden::new().map_export_task(ExportTask::Copy(m));
    assert_eq!(mapped(r).destination, "_hidden/x.jpg");
    let visible = copy_of(asset(2, "y.jpg", vec![]));
    let r = PrefixHidden::new().map_export_task(ExportTask::Copy(visible.clone()));
    assert_eq!(mapped(r).destination, "y.jpg");
    assert!(matches!(
        ExcludeHidden::new().map_export_task(ExportTask::Copy(visible)),
        TaskMapperResult::Mapped(_)
    ));
}

#[test]
fn file_names_and_variant_marks() {
    let mut m = copy_of(asset(1, "UUID-1.jpeg", vec![]));
    m.destination = "d/UUID-1.jpeg".to_string();
    let r = RestoreOriginalFilenames::new().map_export_task(ExportTask::Copy(m.clone()));
    assert_eq!(mapped(r).destination, "d/IMG_1.jpeg");
    let mut bare = m.clone();
    bare.destination = "d/UUID-1".to_string();
    let r = RestoreOriginalFilenames::new().map_export_task(ExportTask::Copy(bare));
    assert_eq!(mapped(r).destination, "d/IMG_1");
    let r = MarkOriginalsAndDerivates::new().map_export_task(ExportTask::Copy(m.clone()));
    assert_eq!(mapped(r).destination, "d/UUID-1.original.jpeg");
    let mut d = m;
    d.is_derivate = true;
    let r = MarkOriginalsAndDerivates::new().map_export_task(ExportTask::Copy(d));
    assert_eq!(mapped(r).destination, "d/UUID-1.derivate.jpeg");
}

#[test]
fn factory_policies() {
    let mut edited = asset(1, "UUID-1.heic", vec![]);
    edited.has_adjustments = true;
    let plain = asset(2, "UUID-2.heic", vec![]);
    let mut files = ExistingFiles::new(vec![]);
    let both = ExportTaskFactory::new_for_originals_and_derivates(lib());
    let r = copies(both.build(vec![edited.clone(), plain.clone()], &vec![true, true], &mut files));
    assert_eq!(r.len(), 3);
    assert!(r[0].is_derivate);
    assert_eq!(r[0].destination, "UUID-1.jpeg");
    assert_eq!(r[0].source, "/lib/resources/renders/0/UUID-1_1_201_a.jpeg");
    assert!(!r[1].is_derivate);
    assert_eq!(r[1].destination, "UUID-1.heic");
    assert_eq!(r[2].asset.id, 2);
    let r = copies(both.build(vec![edited.clone()], &vec![false], &mut files));
    assert_eq!(r.len(), 1);
    assert!(!r[0].is_derivate);
    let prefer = ExportTaskFactory::new_for_derivates_with_fallback(lib());
    let r = copies(prefer.build(vec![edited.clone(), plain.clone()], &vec![true, false], &mut files));
    assert_eq!(r.len(), 2);
    assert!(r[0].is_derivate && !r[1].is_derivate);
    let r = copies(prefer.build(vec![edited.clone()], &vec![false], &mut files));
    assert!(r.is_empty());
    let originals = ExportTaskFactory::new_for_originals(lib());
    let r = copies(originals.build(vec![edited, plain], &vec![true, true], &mut files));
    assert_eq!(r.len(), 2);
    assert!(!r[0].is_derivate && !r[1].is_derivate);
}

fn reconciling_factory(output: &str) -> ExportTaskFactory<'static> {
    let mut f = ExportTaskFactory::new_for_originals(lib());
    f.add_mapper(TaskMapper::GroupByYearAndMonth(GroupByYearAndMonth::new()));
    f.add_mapper(TaskMapper::ConvertToAbsolutePath(ConvertToAbsolutePath::new(output)));
    f.add_mapper(TaskMapper::SkipIfExists(SkipIfExists::new()));
    f.add_mapper(TaskMapper::RemoveFromCacheIfExists(RemoveFromCacheIfExists::new()));
    f
}

#[test]
fn skip_and_delete_reconciliation() {
    let factory = reconciling_factory("/out");
    let mut files = ExistingFiles::new(vec![
        "/out/2023/01/a.jpg".to_string(),
        "/out/2023/01/old.jpg".to_string(),
    ]);
    let tasks = factory.build(
        vec![asset(1, "a.jpg", vec![]), asset(2, "b.jpg", vec![])],
        &vec![false, false],
        &mut files,
    );
    let r = copies(tasks);
    assert_eq!(r[0].destination, "/out/2023/01/a.jpg");
    assert!(r[0].skip);
    assert_eq!(r[1].destination, "/out/2023/01/b.jpg");
    assert!(!r[1].skip);
    assert!(!files.contains(&"/out/2023/01/a.jpg".to_string()));
    assert!(files.contains(&"/out/2023/01/old.jpg".to_string()));
    assert_eq!(files.paths(), vec!["/out/2023/01/old.jpg".to_string()]);
    let deletes = files.into_delete_tasks();
    assert_eq!(deletes.len(), 1);
    assert!(matches!(&deletes[0], ExportTask::Delete(p) if p == "/out/2023/01/old.jpg"));
}

#[test]
fn destinations_are_reproducible() {
    let factory = reconciling_factory("/out");
    let assets = vec![asset(1, "a.jpg", vec![]), asset(2, "b.jpg", vec![])];
    let mut empty = ExistingFiles::new(vec![]);
    let first = copies(factory.build(assets.clone(), &vec![false, false], &mut empty));
    let mut filled = ExistingFiles::new(first.iter().map(|m| m.destination.clone()).collect());
    let second = copies(factory.build(assets, &vec![false, false], &mut filled));
    let d1: Vec<String> = first.iter().map(|m| m.destination.clone()).collect();
    let d2: Vec<String> = second.iter().map(|m| m.destination.clone()).collect();
    assert_eq!(d1, d2);
    assert!(first.iter().all(|m| !m.skip));
    assert!(second.iter().all(|m| m.skip));
}

#[test]
fn full_album_pipeline() {
    let albums = albums();
    let mut f = ExportTaskFactory::new_for_originals(lib());
    f.add_mapper(TaskMapper::RestoreOriginalFilenames(RestoreOriginalFilenames::new()));
    f.add_mapper(TaskMapper::OneTaskPerAlbum(OneTaskPerAlbum::new()));
    f.add_mapper(TaskMapper::GroupByAlbum(GroupByAlbum::recursive(&albums)));
    f.add_mapper(TaskMapper::FilterByAlbumId(FilterByAlbumId::new(vec![4], AlbumFilterMode::Exclude)));
    f.add_mapper(TaskMapper::PrefixHidden(PrefixHidden::new()));
    f.add_mapper(TaskMapper::ConvertToAbsolutePath(ConvertToAbsolutePath::new("/out")));
    let mut files = ExistingFiles::new(vec![]);
    let r = copies(f.build(vec![asset(9, "UUID-9.jpeg", vec![3, 4]), asset(8, "UUID-8.png", vec![])], &vec![false, false], &mut files));
    let d: Vec<String> = r.iter().map(|m| m.destination.clone()).collect();
    assert_eq!(d, vec!["/out/2020/Trip/IMG_9.jpeg".to_string(), "/out/IMG_8.png".to_string()]);
}

#[test]
fn delete_tasks_from_paths() {
    let tasks = create_delete_tasks(vec!["/a".to_string(), "/b".to_string()]);
    assert_eq!(tasks.len(), 2);
    assert!(matches!(&tasks[1], ExportTask::Delete(p) if p == "/b"));
}

#[test]
fn canonicalization_falls_back_to_the_output_root() {
    let convert = ConvertToAbsolutePath::new("/out");
    let m = copy_of(asset(1, "a.jpg", vec![]));
    assert_eq!(convert.joined_path(&m.destination), "/out/a.jpg");
    let r = convert.map_with_canonical(ExportTask::Copy(m.clone()), None);
    assert_eq!(mapped(r).destination, "/out");
    let r = convert.map_with_canonical(ExportTask::Copy(m.clone()), Some("/real/out/a.jpg".to_string()));
    assert_eq!(mapped(r).destination, "/real/out/a.jpg");
    assert_eq!(resolve_destination(&"/out".to_string(), None), "/out");
    let r = convert.map_export_task(ExportTask::Copy(m));
    assert!(mapped(r).destination.ends_with("/out/a.jpg"));
}
