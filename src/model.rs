//! The catalogue's view of assets and albums, and where the library stores
//! their files.
use crate::date::CalendarDate;
use crate::paths::path_join;
use crate::paths::join_path;
use crate::uti::{Uti, UtiView};
use vstd::prelude::*;
use vstd::string::*;

verus! {

/// An album of the library. Albums form a tree through `parent_id`; only the
/// root has no parent.
pub struct Album {
    pub id: i32,
    pub name: Option<String>,
    pub parent_id: Option<i32>,
    pub start_date: Option<CalendarDate>,
}

impl Album {
    /// Tells whether the album is the root of the tree, the one without a parent.
    pub fn is_root_album(&self) -> (r: bool)
        ensures
            r == self.parent_id.is_none(),
    {
        self.parent_id.is_none()
    }
}

/// The alternate-encoding sibling file of an asset, as the catalogue records it.
pub enum AssociatedRaw {
    /// The asset has no sibling file.
    Absent,
    /// The asset has a sibling file of this type.
    Present(Uti),
    /// The catalogue says that a sibling exists, but its type could not be read.
    Unreadable,
}

pub enum AssociatedRawView {
    Absent,
    Present(UtiView),
    Unreadable,
}

impl View for AssociatedRaw {
    type V = AssociatedRawView;

    open spec fn view(&self) -> AssociatedRawView {
        match self {
            AssociatedRaw::Absent => AssociatedRawView::Absent,
            AssociatedRaw::Present(u) => AssociatedRawView::Present(u@),
            AssociatedRaw::Unreadable => AssociatedRawView::Unreadable,
        }
    }
}

impl Clone for AssociatedRaw {
    fn clone(&self) -> (r: Self)
        ensures
            r@ == self@,
    {
        match self {
            AssociatedRaw::Absent => AssociatedRaw::Absent,
            AssociatedRaw::Present(u) => AssociatedRaw::Present(u.clone()),
            AssociatedRaw::Unreadable => AssociatedRaw::Unreadable,
        }
    }
}

/// An asset of the library, as loaded from the catalogue.
pub struct Asset {
    pub id: i32,
    pub uuid: String,
    /// The directory of the asset's files, relative to the library's storage roots.
    pub dir: String,
    /// The name of the original file in the library.
    pub filename: String,
    /// The type of the file as it is today: that of the edited rendition, or the
    /// original's when the asset is unedited.
    pub derivate_uti: Uti,
    pub datetime: CalendarDate,
    pub hidden: bool,
    /// The name of the file before it was imported.
    pub original_filename: String,
    pub has_adjustments: bool,
    /// The albums that the asset belongs to.
    pub album_ids: Vec<i32>,
    pub raw_image: AssociatedRaw,
}

pub struct AssetView {
    pub id: i32,
    pub uuid: Seq<char>,
    pub dir: Seq<char>,
    pub filename: Seq<char>,
    pub derivate_uti: UtiView,
    pub datetime: CalendarDate,
    pub hidden: bool,
    pub original_filename: Seq<char>,
    pub has_adjustments: bool,
    pub album_ids: Seq<i32>,
    pub raw_image: AssociatedRawView,
}

impl View for Asset {
    type V = AssetView;

    open spec fn view(&self) -> AssetView {
        AssetView {
            id: self.id,
            uuid: self.uuid@,
            dir: self.dir@,
            filename: self.filename@,
            derivate_uti: self.derivate_uti@,
            datetime: self.datetime,
            hidden: self.hidden,
            original_filename: self.original_filename@,
            has_adjustments: self.has_adjustments,
            album_ids: self.album_ids@,
            raw_image: self.raw_image@,
        }
    }
}

/// A copy of a list of ids.
pub fn copy_ids(v: &Vec<i32>) -> (r: Vec<i32>)
    ensures
        r@ == v@,
{
    let mut r: Vec<i32> = Vec::new();
    let mut i: usize = 0;
    while i < v.len()
        invariant
            i <= v@.len(),
            r@ == v@.subrange(0, i as int),
        decreases v.len() - i,
    {
        r.push(v[i]);
        i = i + 1;
        assert(r@ =~= v@.subrange(0, i as int));
    }
    assert(v@.subrange(0, v@.len() as int) =~= v@);
    r
}

impl Clone for Asset {
    fn clone(&self) -> (r: Self)
        ensures
            r@ == self@,
    {
        Asset {
            id: self.id,
            uuid: self.uuid.clone(),
            dir: self.dir.clone(),
            filename: self.filename.clone(),
            derivate_uti: self.derivate_uti.clone(),
            datetime: self.datetime,
            hidden: self.hidden,
            original_filename: self.original_filename.clone(),
            has_adjustments: self.has_adjustments,
            album_ids: copy_ids(&self.album_ids),
            raw_image: self.raw_image.clone(),
        }
    }
}

impl AssetView {
    pub open spec fn has_associated_raw_image(&self) -> bool {
        !(self.raw_image is Absent)
    }
}

impl Asset {
    /// Tells whether the catalogue records a sibling file for the asset.
    pub fn has_associated_raw_image(&self) -> (r: bool)
        ensures
            r == self@.has_associated_raw_image(),
    {
        match self.raw_image {
            AssociatedRaw::Absent => false,
            _ => true,
        }
    }
}

/// A photo library on disk.
pub struct Library {
    pub path: String,
}

pub open spec fn join3(a: Seq<char>, b: Seq<char>, c: Seq<char>) -> Seq<char> {
    path_join(path_join(a, b), c)
}

/// The file name of an asset's edited rendition: its uuid, the type's suffix
/// and the type's extension.
pub open spec fn derivate_file_name(a: AssetView) -> Seq<char> {
    a.uuid + a.derivate_uti.derivate_suffix + seq!['.'] + a.derivate_uti.ext
}

impl Library {
    pub open spec fn original_path(&self, a: AssetView) -> Seq<char> {
        path_join(join3(self.path@, "originals"@, a.dir), a.filename)
    }

    pub open spec fn derivate_path(&self, a: AssetView) -> Option<Seq<char>> {
        if a.has_adjustments {
            Some(path_join(join3(self.path@, "resources/renders"@, a.dir), derivate_file_name(a)))
        } else {
            None
        }
    }

    /// A library stored at `path`.
    pub fn new(path: String) -> (r: Library)
        ensures
            r.path == path,
    {
        Library { path }
    }

    /// The path of the library's catalogue database.
    pub fn db_path(&self) -> (r: String)
        ensures
            r@ == path_join(self.path@, "database/Photos.sqlite"@),
    {
        join_path(self.path.as_str(), "database/Photos.sqlite")
    }

    /// The path of an asset's original file.
    pub fn get_asset_original_path(&self, asset: &Asset) -> (r: String)
        ensures
            r@ == self.original_path(asset@),
    {
        let root = join_path(self.path.as_str(), "originals");
        let dir = join_path(root.as_str(), asset.dir.as_str());
        join_path(dir.as_str(), asset.filename.as_str())
    }

    /// The path of an asset's edited rendition; `None` for an unedited asset.
    pub fn get_asset_derivate_path(&self, asset: &Asset) -> (r: Option<String>)
        ensures
            crate::paths::opt_view(r) == self.derivate_path(asset@),
    {
        if !asset.has_adjustments {
            return None;
        }
        let dot = ".";
        proof {
            reveal_strlit(".");
        }
        let name = asset.uuid.clone().concat(asset.derivate_uti.derivate_suffix.as_str()).concat(
            dot,
        ).concat(asset.derivate_uti.ext.as_str());
        assert(name@ =~= derivate_file_name(asset@));
        let root = join_path(self.path.as_str(), "resources/renders");
        let dir = join_path(root.as_str(), asset.dir.as_str());
        Some(join_path(dir.as_str(), name.as_str()))
    }
}

/// A photo library on disk, known by the text of its path.
pub struct PhotosLibrary {
    pub path: String,
}

impl PhotosLibrary {
    /// The path of the library's catalogue database.
    pub fn db_path(&self) -> (r: String)
        ensures
            r@ == join3(self.path@, "database"@, "Photos.sqlite"@),
    {
        let dir = join_path(self.path.as_str(), "database");
        join_path(dir.as_str(), "Photos.sqlite")
    }
}

} // verus!
