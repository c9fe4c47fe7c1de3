//! The catalog client: resolves a catalog lookup response to download
//! metadata, and names the scratch paths the fetched artifact lives under.

use vstd::prelude::*;
use vstd::string::*;

verus! {

/// Download metadata for one catalog entry: where the artifact downloads
/// from, the song's display name, and the content hash that keys its files.
#[derive(Debug)]
pub struct MapInfo {
    pub url: String,
    pub name: String,
    pub hash: String,
}

impl View for MapInfo {
    type V = (Seq<char>, Seq<char>, Seq<char>);

    open spec fn view(&self) -> (Seq<char>, Seq<char>, Seq<char>) {
        (self.url@, self.name@, self.hash@)
    }
}

/// What a catalog lookup response yields: the first listed version's
/// download URL, the metadata song name, and the first version's content
/// hash, in that order; nothing when the body does not parse or any of the
/// three fields is absent or not a string.
pub uninterp spec fn catalog_fields(body: Seq<char>) -> Option<(Seq<char>, Seq<char>, Seq<char>)>;

/// Relies on json::parse and json::JsonValue::as_str: extracts
/// `versions[0].downloadURL`, `metadata.songName` and `versions[0].hash`
/// from the catalog response body, when the body parses and all three are
/// strings.
#[verifier::external_body]
fn parse_map_document(body: &str) -> (r: Option<(String, String, String)>)
    ensures
        (r is Some) == (catalog_fields(body@) is Some),
        r matches Some(t) ==> catalog_fields(body@) matches Some(f) && t.0@ == f.0 && t.1@ == f.1
            && t.2@ == f.2,
{
    let doc = json::parse(body).ok()?;
    let url = doc["versions"][0]["downloadURL"].as_str()?.to_string();
    let name = doc["metadata"]["songName"].as_str()?.to_string();
    let hash = doc["versions"][0]["hash"].as_str()?.to_string();
    Some((url, name, hash))
}

/// Resolves a catalog response body to download metadata, exactly where
/// `catalog_fields` yields the three fields.
pub fn get_map_info(body: &str) -> (r: Option<MapInfo>)
    ensures
        (r is Some) == (catalog_fields(body@) is Some),
        r matches Some(m) ==> catalog_fields(body@) matches Some(f) && m@ == f,
{
    match parse_map_document(body) {
        None => None,
        Some((url, name, hash)) => Some(MapInfo { url, name, hash }),
    }
}

/// The catalog lookup URL for a content identifier.
pub fn map_info_url(id: &str) -> (r: String)
    ensures
        r@ == "https://api.beatsaver.com/maps/id/"@ + id@,
{
    crate::text::concat2("https://api.beatsaver.com/maps/id/", id)
}

/// The scratch path the downloaded archive for a content hash is written to.
pub fn archive_path(hash: &str) -> (r: String)
    ensures
        r@ == "tmp/"@ + hash@ + ".zip"@,
{
    crate::text::concat3("tmp/", hash, ".zip")
}

/// The scratch directory the archive for a content hash unpacks into.
pub fn unpack_dir(hash: &str) -> (r: String)
    ensures
        r@ == "tmp/"@ + hash@,
{
    crate::text::concat2("tmp/", hash)
}

} // verus!
