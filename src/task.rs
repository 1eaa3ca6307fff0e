//! Planned file operations: copying an asset's file, or deleting a stale file.
use crate::model::{Asset, AssetView, Library};
use crate::paths::{path_with_extension, with_extension};
use vstd::prelude::*;

verus! {

/// What one copy operation moves where, and on whose behalf.
pub struct AssetMapping {
    pub asset: Asset,
    /// Where the file is read from.
    pub source: String,
    /// Where the file goes, relative to the export root until the pipeline
    /// makes it absolute.
    pub destination: String,
    /// Whether the file is an edited rendition rather than the original.
    pub is_derivate: bool,
    /// The album that this copy has been attributed to.
    pub album_id: Option<i32>,
    /// Whether the copy is to be left out because its destination exists.
    pub skip: bool,
    /// Whether the copy is one of an asset's file and its sibling file.
    pub is_part_of_raw_pair: bool,
}

pub struct MappingView {
    pub asset: AssetView,
    pub source: Seq<char>,
    pub destination: Seq<char>,
    pub is_derivate: bool,
    pub album_id: Option<i32>,
    pub skip: bool,
    pub is_part_of_raw_pair: bool,
}

impl View for AssetMapping {
    type V = MappingView;

    open spec fn view(&self) -> MappingView {
        MappingView {
            asset: self.asset@,
            source: self.source@,
            destination: self.destination@,
            is_derivate: self.is_derivate,
            album_id: self.album_id,
            skip: self.skip,
            is_part_of_raw_pair: self.is_part_of_raw_pair,
        }
    }
}

impl Clone for AssetMapping {
    fn clone(&self) -> (r: Self)
        ensures
            r@ == self@,
    {
        AssetMapping {
            asset: self.asset.clone(),
            source: self.source.clone(),
            destination: self.destination.clone(),
            is_derivate: self.is_derivate,
            album_id: self.album_id,
            skip: self.skip,
            is_part_of_raw_pair: self.is_part_of_raw_pair,
        }
    }
}

/// A planned file operation.
pub enum ExportTask {
    Copy(AssetMapping),
    /// Removal of a file left over from an earlier export.
    Delete(String),
}

pub enum ExportTaskView {
    Copy(MappingView),
    Delete(Seq<char>),
}

impl View for ExportTask {
    type V = ExportTaskView;

    open spec fn view(&self) -> ExportTaskView {
        match self {
            ExportTask::Copy(m) => ExportTaskView::Copy(m@),
            ExportTask::Delete(p) => ExportTaskView::Delete(p@),
        }
    }
}

impl Clone for ExportTask {
    fn clone(&self) -> (r: Self)
        ensures
            r@ == self@,
    {
        match self {
            ExportTask::Copy(m) => ExportTask::Copy(m.clone()),
            ExportTask::Delete(p) => ExportTask::Delete(p.clone()),
        }
    }
}

pub open spec fn with_destination(m: MappingView, d: Seq<char>) -> MappingView {
    MappingView { destination: d, ..m }
}

/// The mapping that copies an asset's original file under its library name.
pub open spec fn original_mapping(lib: &Library, a: AssetView) -> MappingView {
    MappingView {
        asset: a,
        source: lib.original_path(a),
        destination: a.filename,
        is_derivate: false,
        album_id: None,
        skip: false,
        is_part_of_raw_pair: false,
    }
}

/// The mapping that copies an asset's edited rendition, named as the original
/// with the rendition's extension; absent for an unedited asset, or when the
/// rendition is not on disk.
pub open spec fn derivate_mapping(lib: &Library, a: AssetView, on_disk: bool) -> Option<MappingView> {
    match lib.derivate_path(a) {
        Some(p) => if on_disk {
            Some(
                MappingView {
                    asset: a,
                    source: p,
                    destination: with_extension(a.filename, a.derivate_uti.ext),
                    is_derivate: true,
                    album_id: None,
                    skip: false,
                    is_part_of_raw_pair: false,
                },
            )
        } else {
            None
        },
        None => None,
    }
}

pub open spec fn opt_mapping_view(o: Option<AssetMapping>) -> Option<MappingView> {
    match o {
        Some(m) => Some(m@),
        None => None,
    }
}

impl AssetMapping {
    /// The mapping that copies the asset's original file.
    pub fn for_original(lib: &Library, asset: Asset) -> (r: AssetMapping)
        ensures
            r@ == original_mapping(lib, asset@),
    {
        let source = lib.get_asset_original_path(&asset);
        let destination = asset.filename.clone();
        AssetMapping {
            asset,
            source,
            destination,
            is_derivate: false,
            album_id: None,
            skip: false,
            is_part_of_raw_pair: false,
        }
    }

    /// The mapping that copies the asset's edited rendition; `derivate_on_disk`
    /// tells whether the rendition's file exists.
    pub fn for_derivate(lib: &Library, asset: Asset, derivate_on_disk: bool) -> (r: Option<
        AssetMapping,
    >)
        ensures
            opt_mapping_view(r) == derivate_mapping(lib, asset@, derivate_on_disk),
    {
        let path = match lib.get_asset_derivate_path(&asset) {
            Some(p) => p,
            None => {
                return None;
            },
        };
        if !derivate_on_disk {
            return None;
        }
        let destination = path_with_extension(asset.filename.as_str(), asset.derivate_uti.ext.as_str());
        Some(
            AssetMapping {
                asset,
                source: path,
                destination,
                is_derivate: true,
                album_id: None,
                skip: false,
                is_part_of_raw_pair: false,
            },
        )
    }
}

pub open spec fn task_views(v: Seq<ExportTask>) -> Seq<ExportTaskView> {
    v.map_values(|t: ExportTask| t@)
}

/// One deletion task for each of `paths`, in their order.
pub fn create_delete_tasks(paths: Vec<String>) -> (r: Vec<ExportTask>)
    ensures
        r@.len() == paths@.len(),
        forall|i: int| 0 <= i < paths@.len() ==> #[trigger] r@[i]@ == ExportTaskView::Delete(paths@[i]@),
{
    let mut r: Vec<ExportTask> = Vec::new();
    let mut i: usize = 0;
    while i < paths.len()
        invariant
            i <= paths@.len(),
            r@.len() == i,
            forall|j: int| 0 <= j < i ==> #[trigger] r@[j]@ == ExportTaskView::Delete(paths@[j]@),
        decreases paths.len() - i,
    {
        r.push(ExportTask::Delete(paths[i].clone()));
        i = i + 1;
    }
    r
}

} // verus!
