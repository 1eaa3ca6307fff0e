//! Uniform type identifiers: the file types an asset can have on disk.
use crate::paths::{last_index_of, rfind_char};
use vstd::prelude::*;
use vstd::string::*;

verus! {

/// A file type of the library: its identifier, its compact identifier (as some
/// tables of the catalogue store it), the file extension that goes with it, and
/// the suffix that the library appends to the name of an edited rendition.
pub struct Uti {
    pub id: String,
    pub cid: String,
    pub ext: String,
    pub derivate_suffix: String,
}

/// A [`Uti`] as plain text.
pub struct UtiView {
    pub id: Seq<char>,
    pub cid: Seq<char>,
    pub ext: Seq<char>,
    pub derivate_suffix: Seq<char>,
}

impl View for Uti {
    type V = UtiView;

    open spec fn view(&self) -> UtiView {
        UtiView { id: self.id@, cid: self.cid@, ext: self.ext@, derivate_suffix: self.derivate_suffix@ }
    }
}

impl Clone for Uti {
    fn clone(&self) -> (r: Self)
        ensures
            r == *self,
    {
        Uti {
            id: self.id.clone(),
            cid: self.cid.clone(),
            ext: self.ext.clone(),
            derivate_suffix: self.derivate_suffix.clone(),
        }
    }
}

pub open spec fn image_suffix() -> Seq<char> {
    "_1_201_a"@
}

pub open spec fn video_suffix() -> Seq<char> {
    "_2_0_a"@
}

pub open spec fn uti_view(id: &str, cid: &str, ext: &str, video: bool) -> UtiView {
    UtiView {
        id: id@,
        cid: cid@,
        ext: ext@,
        derivate_suffix: if video { video_suffix() } else { image_suffix() },
    }
}

/// The known file types, in the order in which lookups by identifier and by
/// extension try them. A compact identifier that is empty is not known.
pub open spec fn known_utis() -> Seq<UtiView> {
    seq![
        uti_view("public.jpeg", "1", "jpeg", false),
        uti_view("public.heic", "3", "heic", false),
        uti_view("public.png", "6", "png", false),
        uti_view("com.compuserve.gif", "7", "gif", false),
        uti_view("com.adobe.raw-image", "9", "dng", false),
        uti_view("com.fuji.raw-image", "21", "raf", false),
        uti_view("com.apple.quicktime-movie", "23", "mov", true),
        uti_view("public.mpeg-4", "24", "mp4", true),
        uti_view("com.microsoft.bmp", "_com.microsoft.bmp", "bmp", false),
        uti_view("com.apple.m4v-video", "", "m4v", true),
        uti_view("public.3gpp", "", "3gp", true),
        uti_view("com.canon.cr2-raw-image", "", "cr2", false),
    ]
}

/// The types that a lookup by compact identifier can find: those whose compact
/// identifier is known, with JPEG twice, once for each of its extensions.
pub open spec fn compact_utis() -> Seq<UtiView> {
    seq![
        uti_view("public.jpeg", "1", "jpeg", false),
        uti_view("public.jpeg", "1", "jpg", false),
        uti_view("public.heic", "3", "heic", false),
        uti_view("public.png", "6", "png", false),
        uti_view("com.compuserve.gif", "7", "gif", false),
        uti_view("com.adobe.raw-image", "9", "dng", false),
        uti_view("com.fuji.raw-image", "21", "raf", false),
        uti_view("com.apple.quicktime-movie", "23", "mov", true),
        uti_view("public.mpeg-4", "24", "mp4", true),
        uti_view("com.microsoft.bmp", "_com.microsoft.bmp", "bmp", false),
    ]
}

pub open spec fn views_of(v: Seq<Uti>) -> Seq<UtiView> {
    v.map_values(|u: Uti| u@)
}

/// Which field of a type a lookup compares.
pub enum UtiKey {
    Id,
    Ext,
    Cid,
}

pub open spec fn key_of(u: UtiView, key: UtiKey) -> Seq<char> {
    match key {
        UtiKey::Id => u.id,
        UtiKey::Ext => u.ext,
        UtiKey::Cid => u.cid,
    }
}

pub open spec fn ext_fits(u: UtiView, ext: Option<Seq<char>>) -> bool {
    match ext {
        Some(e) => u.ext == e,
        None => true,
    }
}

/// The first type of `t` whose `key` is `v` and, where `ext` is given, whose
/// extension is `ext`.
pub open spec fn first_match(t: Seq<UtiView>, key: UtiKey, v: Seq<char>, ext: Option<Seq<char>>) -> Option<UtiView>
    decreases t.len(),
{
    if t.len() == 0 {
        None
    } else if key_of(t[0], key) == v && ext_fits(t[0], ext) {
        Some(t[0])
    } else {
        first_match(t.drop_first(), key, v, ext)
    }
}

pub open spec fn opt_uti_view(o: Option<Uti>) -> Option<UtiView> {
    match o {
        Some(u) => Some(u@),
        None => None,
    }
}

pub open spec fn result_uti_view(r: Result<Uti, String>) -> Option<UtiView> {
    match r {
        Ok(u) => Some(u@),
        Err(_) => None,
    }
}

/// The type with the identifier `id`.
pub open spec fn uti_by_id(id: Seq<char>) -> Option<UtiView> {
    first_match(known_utis(), UtiKey::Id, id, None)
}

/// The type that the file extension `ext` stands for.
pub open spec fn uti_by_extension(ext: Seq<char>) -> Option<UtiView> {
    first_match(known_utis(), UtiKey::Ext, ext, None)
}

/// The text after the last `.` of `filename`, or all of it without a dot.
pub open spec fn trailing_extension(filename: Seq<char>) -> Seq<char> {
    match last_index_of(filename, '.') {
        Some(i) => filename.subrange(i + 1, filename.len() as int),
        None => filename,
    }
}

/// The type with the compact identifier `cid`. JPEG images share theirs between
/// two extensions, so for it the extension of the file decides, and a file with
/// another extension has no known type.
pub open spec fn uti_by_compact(cid: Seq<char>, ext: Seq<char>) -> Option<UtiView> {
    match first_match(compact_utis(), UtiKey::Cid, cid, Some(ext)) {
        Some(u) => Some(u),
        None => if cid == "1"@ {
            None
        } else {
            first_match(compact_utis(), UtiKey::Cid, cid, None)
        },
    }
}

fn make(id: &str, cid: &str, ext: &str, video: bool) -> (r: Uti)
    ensures
        r@ == uti_view(id, cid, ext, video),
{
    let suffix = if video {
        "_2_0_a"
    } else {
        "_1_201_a"
    };
    Uti::new(id, cid, ext, suffix)
}

fn known_uti_list() -> (r: Vec<Uti>)
    ensures
        views_of(r@) == known_utis(),
{
    let mut v: Vec<Uti> = Vec::new();
    v.push(make("public.jpeg", "1", "jpeg", false));
    v.push(make("public.heic", "3", "heic", false));
    v.push(make("public.png", "6", "png", false));
    v.push(make("com.compuserve.gif", "7", "gif", false));
    v.push(make("com.adobe.raw-image", "9", "dng", false));
    v.push(make("com.fuji.raw-image", "21", "raf", false));
    v.push(make("com.apple.quicktime-movie", "23", "mov", true));
    v.push(make("public.mpeg-4", "24", "mp4", true));
    v.push(make("com.microsoft.bmp", "_com.microsoft.bmp", "bmp", false));
    v.push(make("com.apple.m4v-video", "", "m4v", true));
    v.push(make("public.3gpp", "", "3gp", true));
    v.push(make("com.canon.cr2-raw-image", "", "cr2", false));
    assert(views_of(v@) =~= known_utis());
    v
}

fn compact_uti_list() -> (r: Vec<Uti>)
    ensures
        views_of(r@) == compact_utis(),
{
    let mut v: Vec<Uti> = Vec::new();
    v.push(make("public.jpeg", "1", "jpeg", false));
    v.push(make("public.jpeg", "1", "jpg", false));
    v.push(make("public.heic", "3", "heic", false));
    v.push(make("public.png", "6", "png", false));
    v.push(make("com.compuserve.gif", "7", "gif", false));
    v.push(make("com.adobe.raw-image", "9", "dng", false));
    v.push(make("com.fuji.raw-image", "21", "raf", false));
    v.push(make("com.apple.quicktime-movie", "23", "mov", true));
    v.push(make("public.mpeg-4", "24", "mp4", true));
    v.push(make("com.microsoft.bmp", "_com.microsoft.bmp", "bmp", false));
    assert(views_of(v@) =~= compact_utis());
    v
}

pub open spec fn opt_str_view(o: Option<&str>) -> Option<Seq<char>> {
    match o {
        Some(e) => Some(e@),
        None => None,
    }
}

fn key_field<'a>(u: &'a Uti, key: &UtiKey) -> (r: &'a String)
    ensures
        r@ == key_of(u@, *key),
{
    match key {
        UtiKey::Id => &u.id,
        UtiKey::Ext => &u.ext,
        UtiKey::Cid => &u.cid,
    }
}

/// Looks up the first known type whose `key` is `v` (and whose extension is
/// `ext`, where given).
fn find_known(table: &Vec<Uti>, key: UtiKey, v: &str, ext: Option<&str>) -> (r: Option<Uti>)
    ensures
        opt_uti_view(r) == first_match(views_of(table@), key, v@, opt_str_view(ext)),
{
    let ghost t = views_of(table@);
    let ghost e_view = opt_str_view(ext);
    let target = String::from_str(v);
    let mut i: usize = 0;
    assert(t.subrange(0, t.len() as int) =~= t);
    while i < table.len()
        invariant
            i <= table@.len(),
            table@.len() == t.len(),
            forall|j: int| 0 <= j < table@.len() ==> #[trigger] table@[j]@ == t[j],
            target@ == v@,
            t == views_of(table@),
            e_view == opt_str_view(ext),
            first_match(t, key, v@, e_view) == first_match(t.subrange(i as int, t.len() as int), key, v@, e_view),
        decreases table.len() - i,
    {
        let ghost rest = t.subrange(i as int, t.len() as int);
        assert(rest[0] == t[i as int]);
        assert(rest.drop_first() =~= t.subrange(i + 1, t.len() as int));
        let u = &table[i];
        let field = key_field(u, &key);
        assert(u@ == t[i as int]);
        let ext_ok = match ext {
            Some(e) => {
                let owned = String::from_str(e);
                let same = u.ext == owned;
                assert(same == (u.ext@ == e@));
                same
            },
            None => true,
        };
        assert(ext_ok == ext_fits(t[i as int], e_view));
        if *field == target && ext_ok {
            return Some(u.clone());
        }
        i = i + 1;
    }
    assert(t.subrange(i as int, t.len() as int).len() == 0);
    None
}

fn unknown(what: &str, value: &str) -> (r: String)
    ensures
        r@ == what@ + value@,
{
    String::from_str(what).concat(value)
}

impl Uti {
    /// A type from its four parts.
    pub fn new(id: &str, cid: &str, ext: &str, derivate_suffix: &str) -> (r: Uti)
        ensures
            r@ == (UtiView { id: id@, cid: cid@, ext: ext@, derivate_suffix: derivate_suffix@ }),
    {
        Uti {
            id: String::from_str(id),
            cid: String::from_str(cid),
            ext: String::from_str(ext),
            derivate_suffix: String::from_str(derivate_suffix),
        }
    }

    /// The known type with the identifier `name`.
    pub fn from_name(name: &str) -> (r: Result<Uti, String>)
        ensures
            result_uti_view(r) == uti_by_id(name@),
            r matches Err(e) ==> e@ == "Unknown UTI: "@ + name@,
    {
        let table = known_uti_list();
        match find_known(&table, UtiKey::Id, name, None) {
            Some(u) => Ok(u),
            None => Err(unknown("Unknown UTI: ", name)),
        }
    }

    /// The known type of a file with the name `filename`, by the text after its
    /// last `.` (all of it, without a dot).
    pub fn from_filename(filename: &str) -> (r: Result<Uti, String>)
        ensures
            result_uti_view(r) == uti_by_extension(trailing_extension(filename@)),
            r matches Err(e) ==> e@ == "Unknown extension: "@ + trailing_extension(filename@),
    {
        let ext = Self::extension_from_filename(filename);
        let table = known_uti_list();
        match find_known(&table, UtiKey::Ext, ext.as_str(), None) {
            Some(u) => Ok(u),
            None => Err(unknown("Unknown extension: ", ext.as_str())),
        }
    }

    /// The known type with the compact identifier `compact`, for a file named
    /// `filename`.
    pub fn from_compact_and_filename(compact: &str, filename: &str) -> (r: Result<Uti, String>)
        ensures
            result_uti_view(r) == uti_by_compact(compact@, trailing_extension(filename@)),
            r matches Err(e) ==> e@ == "Unknown compact UTI: "@ + compact@,
    {
        let ext = Self::extension_from_filename(filename);
        let table = compact_uti_list();
        match find_known(&table, UtiKey::Cid, compact, Some(ext.as_str())) {
            Some(u) => Ok(u),
            None => {
                let jpeg = "1";
                if String::from_str(compact) == String::from_str(jpeg) {
                    Err(unknown("Unknown compact UTI: ", compact))
                } else {
                    match find_known(&table, UtiKey::Cid, compact, None) {
                        Some(u) => Ok(u),
                        None => Err(unknown("Unknown compact UTI: ", compact)),
                    }
                }
            },
        }
    }

    /// The text after the last `.` of `filename`, or all of it without a dot.
    fn extension_from_filename(filename: &str) -> (r: String)
        ensures
            r@ == trailing_extension(filename@),
    {
        let len = filename.unicode_len();
        match rfind_char(filename, '.') {
            Some(i) => String::from_str(filename.substring_char(i + 1, len)),
            None => String::from_str(filename),
        }
    }
}

} // verus!
