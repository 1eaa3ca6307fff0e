use photos_export::date::{parse_cocoa_timestamp, year_month_text, CalendarDate};
use photos_export::ids::{parse_album_ids, parse_id};
use photos_export::model::{Asset, AssociatedRaw, Library, PhotosLibrary};
use photos_export::paths::{
    join_path, path_extension, path_file_name, path_file_stem, path_with_extension,
    path_with_file_name, rfind_char,
};
use photos_export::uti::Uti;
use photos_export::error::Error;
use photos_export::version::{get_version_number, perform_version_check, VersionRange};

fn asset(has_adjustments: bool) -> Asset {
    Asset {
        id: 7,
        uuid: "ABC-123".to_string(),
        dir: "A".to_string(),
        filename: "ABC-123.heic".to_string(),
        derivate_uti: Uti::from_name("public.jpeg").ok().unwrap(),
        datetime: CalendarDate::new(2021, 3, 4).unwrap(),
        hidden: false,
        original_filename: "IMG_0001.HEIC".to_string(),
        has_adjustments,
        album_ids: vec![],
        raw_image: AssociatedRaw::Absent,
    }
}

#[test]
fn join_inserts_one_separator() {
    assert_eq!(join_path("out", "a.jpg"), "out/a.jpg");
    assert_eq!(join_path("out/", "a.jpg"), "out/a.jpg");
    assert_eq!(join_path("", "a.jpg"), "a.jpg");
    assert_eq!(join_path("out", "/abs/a.jpg"), "/abs/a.jpg");
    assert_eq!(join_path("out", ""), "out/");
}

#[test]
fn file_name_stem_and_extension() {
    assert_eq!(path_file_name("x/y/IMG.tar.gz"), Some("IMG.tar.gz".to_string()));
    assert_eq!(path_file_stem("x/y/IMG.tar.gz"), Some("IMG.tar".to_string()));
    assert_eq!(path_extension("x/y/IMG.tar.gz"), Some("gz".to_string()));
    assert_eq!(path_extension("x/.hidden"), None);
    assert_eq!(path_file_stem("x/.hidden"), Some(".hidden".to_string()));
    assert_eq!(path_extension("x/noext"), None);
    assert_eq!(path_extension("x/a."), Some("".to_string()));
    assert_eq!(path_file_name("x/.."), None);
    assert_eq!(path_file_name("x/"), None);
    assert_eq!(rfind_char("a/b/c", '/'), Some(3));
    assert_eq!(rfind_char("abc", '/'), None);
}

#[test]
fn extension_and_file_name_replacement() {
    assert_eq!(path_with_extension("d/a.jpeg", "dng"), "d/a.dng");
    assert_eq!(path_with_extension("d/a", "dng"), "d/a.dng");
    assert_eq!(path_with_extension("d/a.jpeg", ""), "d/a");
    assert_eq!(path_with_extension("d/", "dng"), "d/");
    assert_eq!(path_with_file_name("d/a.jpeg", "b.png"), "d/b.png");
    assert_eq!(path_with_file_name("a.jpeg", "b.png"), "b.png");
    assert_eq!(path_with_file_name("/a.jpeg", "b.png"), "/b.png");
}

#[test]
fn year_month_prefix_is_zero_padded() {
    assert_eq!(year_month_text(&CalendarDate::new(2023, 1, 5).unwrap()), "2023/01");
    assert_eq!(year_month_text(&CalendarDate::new(1999, 12, 31).unwrap()), "1999/12");
    assert_eq!(year_month_text(&CalendarDate::new(-44, 3, 15).unwrap()), "-44/03");
    assert!(CalendarDate::new(2023, 13, 1).is_none());
    assert!(CalendarDate::new(2023, 1, 0).is_none());
}

#[test]
fn uti_lookups() {
    let heic = Uti::from_name("public.heic").ok().unwrap();
    assert_eq!(heic.ext, "heic");
    assert_eq!(heic.cid, "3");
    assert_eq!(heic.derivate_suffix, "_1_201_a");
    let mov = Uti::from_filename("clip.mov").ok().unwrap();
    assert_eq!(mov.id, "com.apple.quicktime-movie");
    assert_eq!(mov.derivate_suffix, "_2_0_a");
    assert!(Uti::from_name("public.unknown").is_err());
    assert_eq!(Uti::from_filename("clip").err(), Some("Unknown extension: clip".to_string()));
    assert_eq!(Uti::from_filename("a.jpg").err(), Some("Unknown extension: jpg".to_string()));
    assert_eq!(Uti::from_filename("a.jpeg").ok().unwrap().ext, "jpeg");
    assert_eq!(Uti::from_name("public.foo").err(), Some("Unknown UTI: public.foo".to_string()));
    assert_eq!(
        Uti::from_compact_and_filename("", "IMG.png").err(),
        Some("Unknown compact UTI: ".to_string())
    );
    assert_eq!(Uti::from_name("public.jpeg").ok().unwrap().ext, "jpeg");
    assert!(Uti::from_filename("clip.MOV").is_err());
    assert_eq!(Uti::from_compact_and_filename("1", "x.jpg").ok().unwrap().ext, "jpg");
    assert_eq!(Uti::from_compact_and_filename("1", "x.jpeg").ok().unwrap().ext, "jpeg");
    assert!(Uti::from_compact_and_filename("1", "x.png").is_err());
    assert_eq!(Uti::from_compact_and_filename("23", "x.whatever").ok().unwrap().ext, "mov");
    assert!(Uti::from_compact_and_filename("99", "x.jpg").is_err());
    let custom = Uti::new("a.b", "5", "ab", "_s");
    assert_eq!(custom.id, "a.b");
    assert_eq!(custom.derivate_suffix, "_s");
}

#[test]
fn library_paths() {
    let lib = Library::new("/lib".to_string());
    assert_eq!(lib.db_path(), "/lib/database/Photos.sqlite");
    assert_eq!(lib.get_asset_original_path(&asset(false)), "/lib/originals/A/ABC-123.heic");
    assert_eq!(lib.get_asset_derivate_path(&asset(false)), None);
    assert_eq!(
        lib.get_asset_derivate_path(&asset(true)),
        Some("/lib/resources/renders/A/ABC-123_1_201_a.jpeg".to_string())
    );
    let photos = PhotosLibrary { path: "/lib".to_string() };
    assert_eq!(photos.db_path(), "/lib/database/Photos.sqlite");
}

#[test]
fn version_ranges_and_check() {
    assert_eq!(VersionRange::from_version_number(17700).ok().unwrap().start, 17600);
    assert_eq!(VersionRange::from_version_number(0).ok().unwrap().end, 16999);
    assert!(VersionRange::from_version_number(19000).is_err());
    assert!(perform_version_check(18500).is_ok());
    assert!(matches!(perform_version_check(17000), Err(Error::General(_))));
    assert!(matches!(perform_version_check(25000), Err(Error::General(_))));
}

#[test]
fn version_number_is_read_from_the_plist() {
    let xml = "<?xml version=\"1.0\" encoding=\"UTF-8\"?>\n\
        <!DOCTYPE plist PUBLIC \"-//Apple//DTD PLIST 1.0//EN\" \"http://www.apple.com/DTDs/PropertyList-1.0.dtd\">\n\
        <plist version=\"1.0\"><dict><key>PLModelVersion</key><integer>18100</integer></dict></plist>";
    assert_eq!(get_version_number(&xml.as_bytes().to_vec()).ok(), Some(18100));
    let other = "<?xml version=\"1.0\" encoding=\"UTF-8\"?>\n\
        <plist version=\"1.0\"><dict><key>Other</key><integer>1</integer></dict></plist>";
    assert!(get_version_number(&other.as_bytes().to_vec()).is_err());
    assert!(get_version_number(&b"not a plist".to_vec()).is_err());
}

#[test]
fn album_id_lists() {
    assert_eq!(parse_album_ids("12, 7, 300"), vec![12, 7, 300]);
    assert_eq!(parse_album_ids("5"), vec![5]);
    assert_eq!(parse_album_ids("5,6"), Vec::<i32>::new());
    assert_eq!(parse_album_ids("5, x"), Vec::<i32>::new());
    assert_eq!(parse_album_ids(""), Vec::<i32>::new());
    assert_eq!(parse_id("-2147483648"), Some(i32::MIN));
    assert_eq!(parse_id("+2147483647"), Some(i32::MAX));
    assert_eq!(parse_id("2147483648"), None);
    assert_eq!(parse_id("99999999999999999999"), None);
    assert_eq!(parse_id("-"), None);
    assert_eq!(parse_id("0042"), Some(42));
}

#[test]
fn cocoa_timestamps() {
    assert_eq!(parse_cocoa_timestamp(0, 0), CalendarDate::new(2001, 1, 1));
    assert_eq!(parse_cocoa_timestamp(-1, 0), CalendarDate::new(2000, 12, 31));
    assert_eq!(parse_cocoa_timestamp(31 * 86400, 0), CalendarDate::new(2001, 2, 1));
    assert_eq!(parse_cocoa_timestamp(-3600, 7200), CalendarDate::new(2001, 1, 1));
    assert_eq!(parse_cocoa_timestamp(700_000_000, 0), CalendarDate::new(2023, 3, 8));
    assert_eq!(parse_cocoa_timestamp(i64::MAX, 0), None);
    assert_eq!(parse_cocoa_timestamp(i64::MAX - 978_307_200, 0), None);
}
