//! Generations of the library's catalogue format, and the check that the one
//! at hand is supported.
use crate::date::decimal_text;
use crate::error::Error;
use vstd::prelude::*;
use vstd::string::*;

verus! {

/// The number that the catalogue's version record holds under `key`: the
/// record is a property list, and the entry must be an unsigned integer.
pub uninterp spec fn plist_unsigned_entry(bytes: Seq<u8>, key: Seq<char>) -> Option<u64>;

/// Relies on plist's `Value::from_reader`, `Value::as_dictionary`,
/// `Dictionary::get` and `Value::as_unsigned_integer`: the unsigned integer
/// stored under `key` in the property list encoded in `bytes`, if the bytes
/// parse as a dictionary that holds one there. It depends on the bytes and the
/// key alone.
#[verifier::external_body]
fn read_plist_unsigned_entry(bytes: &Vec<u8>, key: &str) -> (r: Option<u64>)
    ensures
        r == plist_unsigned_entry(bytes@, key@),
{
    let value = plist::Value::from_reader(std::io::Cursor::new(bytes.as_slice())).ok()?;
    value.as_dictionary()?.get(key)?.as_unsigned_integer()
}

/// The key under which the version record holds the model version.
pub open spec fn model_version_key() -> Seq<char> {
    "PLModelVersion"@
}

/// The catalogue's model version, read from its version record.
pub fn get_version_number(version_plist: &Vec<u8>) -> (r: Result<u64, String>)
    ensures
        r matches Ok(v) ==> plist_unsigned_entry(version_plist@, model_version_key()) == Some(v),
        r is Err <==> plist_unsigned_entry(version_plist@, model_version_key()) is None,
{
    match read_plist_unsigned_entry(version_plist, "PLModelVersion") {
        Some(v) => Ok(v),
        None => Err(String::from_str("Unable to read model version from plist")),
    }
}

/// A range of catalogue versions that one release of the library uses.
pub struct VersionRange {
    pub start: u64,
    pub end: u64,
    pub description: String,
}

/// The known ranges, as (start, end), oldest first.
pub open spec fn known_ranges() -> Seq<(u64, u64)> {
    seq![(0, 16999), (17000, 17599), (17600, 17999), (18000, 18999)]
}

/// The index in [`known_ranges`] of the range that holds `v`.
pub open spec fn range_index(v: u64) -> Option<int> {
    if v <= 16999 {
        Some(0)
    } else if v <= 17599 {
        Some(1)
    } else if v <= 17999 {
        Some(2)
    } else if v <= 18999 {
        Some(3)
    } else {
        None
    }
}

/// The range that this library supports.
pub open spec fn supported_range() -> (u64, u64) {
    known_ranges()[3]
}

fn range(start: u64, end: u64, description: &str) -> (r: VersionRange)
    ensures
        r.start == start,
        r.end == end,
        r.description@ == description@,
{
    VersionRange { start, end, description: String::from_str(description) }
}

impl VersionRange {
    pub fn pre_sonoma() -> (r: VersionRange)
        ensures
            (r.start, r.end) == known_ranges()[0],
    {
        range(0, 16999, "Older than macOS Sonoma")
    }

    pub fn sonoma() -> (r: VersionRange)
        ensures
            (r.start, r.end) == known_ranges()[1],
    {
        range(17000, 17599, "Photos 9.0, macOS 14.0 to 14.5 Sonoma")
    }

    pub fn sonoma_14_6() -> (r: VersionRange)
        ensures
            (r.start, r.end) == known_ranges()[2],
    {
        range(17600, 17999, "Photos 9.0, macOS 14.6 Sonoma")
    }

    pub fn sequoia() -> (r: VersionRange)
        ensures
            (r.start, r.end) == known_ranges()[3],
    {
        range(18000, 18999, "Photos 10.0, macOS 15 Sequoia")
    }

    /// The range that this library supports.
    pub fn currently_supported() -> (r: VersionRange)
        ensures
            (r.start, r.end) == supported_range(),
    {
        Self::sequoia()
    }

    /// The known range that holds `version`.
    pub fn from_version_number(version: u64) -> (r: Result<VersionRange, String>)
        ensures
            r matches Ok(range) ==> range_index(version) matches Some(i) && (range.start, range.end)
                == known_ranges()[i] && range.start <= version <= range.end,
            r is Err <==> range_index(version) is None,
    {
        if version <= 16999 {
            Ok(Self::pre_sonoma())
        } else if version <= 17599 {
            Ok(Self::sonoma())
        } else if version <= 17999 {
            Ok(Self::sonoma_14_6())
        } else if version <= 18999 {
            Ok(Self::sequoia())
        } else {
            let msg = String::from_str("Cannot determine version (unknown number): ");
            Err(msg.concat(decimal_text(version).as_str()))
        }
    }
}

/// Accepts a catalogue of the supported version, and refuses any other with a
/// message that names both versions.
pub fn perform_version_check(version: u64) -> (r: Result<(), Error>)
    ensures
        r is Ok <==> supported_range().0 <= version <= supported_range().1,
        r is Err ==> r matches Err(Error::General(_)),
{
    let found = match VersionRange::from_version_number(version) {
        Ok(range) => range,
        Err(msg) => {
            return Err(Error::General(msg));
        },
    };
    let supported = VersionRange::currently_supported();
    if version < supported.start || version > supported.end {
        let msg = String::from_str("Unsupported library version! Your version: ").concat(
            found.description.as_str(),
        ).concat(" (").concat(decimal_text(version).as_str()).concat(
            "), currently supported version: ",
        ).concat(supported.description.as_str());
        Err(Error::General(msg))
    } else {
        Ok(())
    }
}

} // verus!
