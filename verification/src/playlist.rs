//! The device manifest: the JSON document listing installed songs. The
//! manifest is modeled as an ordered list of `{hash, songName}` entries;
//! updating it is read–modify–write, the document rewritten wholesale with
//! exactly one entry appended.

use vstd::prelude::*;
use vstd::string::*;

verus! {

/// One manifest entry: the content hash and display name of an installed
/// song.
#[derive(Debug)]
pub struct PlaylistEntry {
    pub hash: String,
    pub song_name: String,
}

impl View for PlaylistEntry {
    type V = (Seq<char>, Seq<char>);

    open spec fn view(&self) -> (Seq<char>, Seq<char>) {
        (self.hash@, self.song_name@)
    }
}

/// The manifest model: the ordered list of installed entries.
#[derive(Debug)]
pub struct Playlist {
    pub songs: Vec<PlaylistEntry>,
}

impl View for Playlist {
    type V = Seq<(Seq<char>, Seq<char>)>;

    open spec fn view(&self) -> Seq<(Seq<char>, Seq<char>)> {
        Seq::new(self.songs@.len(), |i: int| self.songs@[i]@)
    }
}

/// The views of raw entry pairs, in order.
pub open spec fn pairs_view(v: Seq<(String, String)>) -> Seq<(Seq<char>, Seq<char>)> {
    Seq::new(v.len(), |i: int| (v[i].0@, v[i].1@))
}

/// The entries a manifest document's `songs` list holds, in order; nothing
/// where the document is not a well-formed manifest.
pub uninterp spec fn playlist_songs_of(text: Seq<char>) -> Option<Seq<(Seq<char>, Seq<char>)>>;

/// The manifest document that serializing an entry list produces.
pub uninterp spec fn playlist_json_of(songs: Seq<(Seq<char>, Seq<char>)>) -> Seq<char>;

/// Relies on json::parse and json::JsonValue::{is_array, members, as_str}:
/// yields the `hash` and `songName` string fields of each member of the
/// document's `songs` array, in order; nothing when the document does not
/// parse, its `songs` field is not an array, or a member lacks one of the
/// two string fields.
#[verifier::external_body]
fn parse_playlist_document(text: &str) -> (r: Option<Vec<(String, String)>>)
    ensures
        (r is Some) == (playlist_songs_of(text@) is Some),
        r matches Some(v) ==> playlist_songs_of(text@) matches Some(songs) && pairs_view(v@)
            == songs,
{
    let doc = json::parse(text).ok()?;
    if !doc["songs"].is_array() {
        return None;
    }
    doc["songs"].members().map(
        |m| Some((m["hash"].as_str()?.to_string(), m["songName"].as_str()?.to_string())),
    ).collect()
}

/// Relies on json::JsonValue::dump: serializes the one-key document whose
/// `songs` array holds the entries, in order, each as a `{hash, songName}`
/// object. The result depends on the entries alone.
#[verifier::external_body]
fn dump_playlist_document(songs: &Vec<(String, String)>) -> (r: String)
    ensures
        r@ == playlist_json_of(pairs_view(songs@)),
{
    let members: Vec<json::JsonValue> = songs.iter().map(
        |e| {
            let mut o = json::JsonValue::new_object();
            o["hash"] = json::JsonValue::from(e.0.as_str());
            o["songName"] = json::JsonValue::from(e.1.as_str());
            o
        },
    ).collect();
    let mut doc = json::JsonValue::new_object();
    doc["songs"] = json::JsonValue::Array(members);
    doc.dump()
}

/// Reads a manifest document into the model, exactly where its songs list
/// parses.
pub fn read_playlist(text: &str) -> (r: Option<Playlist>)
    ensures
        (r is Some) == (playlist_songs_of(text@) is Some),
        r matches Some(p) ==> playlist_songs_of(text@) matches Some(songs) && p@ == songs,
{
    match parse_playlist_document(text) {
        None => None,
        Some(v) => {
            let ghost target = pairs_view(v@);
            let mut songs: Vec<PlaylistEntry> = Vec::new();
            let mut i: usize = 0;
            while i < v.len()
                invariant
                    0 <= i <= v@.len(),
                    target == pairs_view(v@),
                    songs@.len() == i,
                    forall|k: int| 0 <= k < i ==> (#[trigger] songs@[k])@ == target[k],
                decreases v@.len() - i,
            {
                let e = &v[i];
                songs.push(
                    PlaylistEntry {
                        hash: String::from_str(e.0.as_str()),
                        song_name: String::from_str(e.1.as_str()),
                    },
                );
                i += 1;
            }
            let p = Playlist { songs };
            proof {
                assert(p@ =~= target);
            }
            Some(p)
        },
    }
}

/// Serializes the manifest model back to its document form.
pub fn write_playlist(p: &Playlist) -> (r: String)
    ensures
        r@ == playlist_json_of(p@),
{
    let mut v: Vec<(String, String)> = Vec::new();
    let mut i: usize = 0;
    while i < p.songs.len()
        invariant
            0 <= i <= p.songs@.len(),
            v@.len() == i,
            forall|k: int| 0 <= k < i ==> ((#[trigger] v@[k]).0@, v@[k].1@) == p.songs@[k]@,
        decreases p.songs@.len() - i,
    {
        let e = &p.songs[i];
        v.push((String::from_str(e.hash.as_str()), String::from_str(e.song_name.as_str())));
        i += 1;
    }
    proof {
        assert(pairs_view(v@) =~= p@);
    }
    dump_playlist_document(&v)
}

impl Playlist {
    /// Appends one entry: the songs list grows by exactly that entry at its
    /// end.
    pub fn append(&mut self, entry: PlaylistEntry)
        ensures
            final(self)@ == old(self)@.push(entry@),
    {
        let ghost e = entry@;
        self.songs.push(entry);
        proof {
            assert(self@ =~= old(self)@.push(e));
        }
    }
}

/// The full manifest update for one installed song: the incoming document's
/// songs list, extended at its end by the `{hash, songName}` entry and
/// serialized back; nothing when the incoming document is not a well-formed
/// manifest.
pub fn updated_playlist_json(text: &str, hash: &str, name: &str) -> (r: Option<String>)
    ensures
        (r is Some) == (playlist_songs_of(text@) is Some),
        r matches Some(out) ==> playlist_songs_of(text@) matches Some(songs) && out@
            == playlist_json_of(songs.push((hash@, name@))),
{
    match read_playlist(text) {
        None => None,
        Some(mut p) => {
            p.append(
                PlaylistEntry { hash: String::from_str(hash), song_name: String::from_str(name) },
            );
            Some(write_playlist(&p))
        },
    }
}

/// Appending an entry to the manifest model and reading the list back:
/// the songs list is longer by exactly one, the new entry stands last with
/// the pushed hash and name, and every prior entry is unchanged, in its
/// original position.
pub proof fn lemma_append_extends(songs: Seq<(Seq<char>, Seq<char>)>, e: (Seq<char>, Seq<char>))
    ensures
        songs.push(e).len() == songs.len() + 1,
        songs.push(e)[songs.len() as int] == e,
        forall|i: int| 0 <= i < songs.len() ==> songs.push(e)[i] == songs[i],
{
}

} // verus!
