use bsr_bot::adb::Adb;
use bsr_bot::bsaber::{archive_path, get_map_info, map_info_url, unpack_dir};
use bsr_bot::playlist::{read_playlist, updated_playlist_json, write_playlist, Playlist,
    PlaylistEntry};
use bsr_bot::router::{announcement, route, RouteOutcome};

const CATALOG_BODY: &str = r#"{
    "versions": [ { "downloadURL": "https://x/file.zip", "hash": "h1" } ],
    "metadata": { "songName": "Song" }
}"#;

#[test]
fn catalog_body_resolves_to_metadata() {
    let info = get_map_info(CATALOG_BODY).expect("body should resolve");
    assert_eq!(info.url, "https://x/file.zip");
    assert_eq!(info.name, "Song");
    assert_eq!(info.hash, "h1");
}

#[test]
fn catalog_body_takes_first_listed_version() {
    let body = r#"{
        "versions": [
            { "downloadURL": "https://x/a.zip", "hash": "ha" },
            { "downloadURL": "https://x/b.zip", "hash": "hb" }
        ],
        "metadata": { "songName": "S" }
    }"#;
    let info = get_map_info(body).expect("body should resolve");
    assert_eq!(info.url, "https://x/a.zip");
    assert_eq!(info.hash, "ha");
}

#[test]
fn malformed_catalog_body_yields_nothing() {
    assert!(get_map_info("not json at all").is_none());
    assert!(get_map_info(r#"{"versions": [], "metadata": {"songName": "S"}}"#).is_none());
    assert!(get_map_info(r#"{"versions": [{"hash": "h1"}], "metadata": {"songName": "S"}}"#)
        .is_none());
    assert!(get_map_info(r#"{"versions": [{"downloadURL": "u", "hash": 3}], "metadata": {"songName": "S"}}"#)
        .is_none());
}

#[test]
fn lookup_url_and_scratch_paths_are_keyed_by_hash() {
    assert_eq!(map_info_url("AbCd12"), "https://api.beatsaver.com/maps/id/AbCd12");
    assert_eq!(archive_path("h1"), "tmp/h1.zip");
    assert_eq!(unpack_dir("h1"), "tmp/h1");
}

#[test]
fn manifest_round_trip_appends_exactly_one_trailing_entry() {
    let doc = r#"{"songs":[{"hash":"a","songName":"A"},{"hash":"b","songName":"B"}]}"#;
    let out = updated_playlist_json(doc, "h1", "Song").expect("manifest should parse");
    let back = read_playlist(&out).expect("updated manifest should parse");
    assert_eq!(back.songs.len(), 3);
    assert_eq!(back.songs[0].hash, "a");
    assert_eq!(back.songs[0].song_name, "A");
    assert_eq!(back.songs[1].hash, "b");
    assert_eq!(back.songs[1].song_name, "B");
    assert_eq!(back.songs[2].hash, "h1");
    assert_eq!(back.songs[2].song_name, "Song");
}

#[test]
fn empty_manifest_gains_its_first_entry() {
    let out = updated_playlist_json(r#"{"songs":[]}"#, "h1", "Song").expect("should parse");
    let back = read_playlist(&out).expect("should parse");
    assert_eq!(back.songs.len(), 1);
    assert_eq!(back.songs[0].hash, "h1");
    assert_eq!(back.songs[0].song_name, "Song");
}

#[test]
fn model_round_trip_preserves_entries_and_order() {
    let mut p = Playlist { songs: Vec::new() };
    p.append(PlaylistEntry { hash: "a".to_string(), song_name: "A".to_string() });
    p.append(PlaylistEntry { hash: "b".to_string(), song_name: "B".to_string() });
    let text = write_playlist(&p);
    let back = read_playlist(&text).expect("serialized manifest should parse");
    assert_eq!(back.songs.len(), 2);
    assert_eq!(back.songs[0].hash, "a");
    assert_eq!(back.songs[0].song_name, "A");
    assert_eq!(back.songs[1].hash, "b");
    assert_eq!(back.songs[1].song_name, "B");
}

#[test]
fn malformed_manifest_is_refused() {
    assert!(updated_playlist_json("not json", "h", "n").is_none());
    assert!(updated_playlist_json(r#"{"songs": 5}"#, "h", "n").is_none());
    assert!(updated_playlist_json(r#"{"songs":[{"hash":"a"}]}"#, "h", "n").is_none());
}

#[test]
fn request_by_identifier_runs_the_whole_pipeline() {
    let id = match route("user", "!bsr AbCd12") {
        RouteOutcome::BsrRequest(id) => id,
        other => panic!("unexpected outcome: {:?}", other),
    };
    assert_eq!(id, "AbCd12");
    assert_eq!(map_info_url(&id), "https://api.beatsaver.com/maps/id/AbCd12");

    let info = get_map_info(CATALOG_BODY).expect("catalog lookup should resolve");
    assert_eq!(
        announcement("user", &info.name, &info.url),
        "@user requested Song (https://x/file.zip)"
    );
    assert_eq!(archive_path(&info.hash), "tmp/h1.zip");
    assert_eq!(unpack_dir(&info.hash), "tmp/h1");

    let mut adb = Adb::new("adb".to_string(), "/device/playlist.json".to_string());
    adb.connect_abd("inet 192.168.1.5/24").expect("address should parse");
    let push = adb.push_map(&info.hash);
    assert_eq!(push[3], "tmp/h1");
    assert_eq!(
        push[4],
        "/sdcard/ModData/com.beatgames.beatsaber/Mods/SongLoader/CustomLevels/h1"
    );

    let out = updated_playlist_json(r#"{"songs":[]}"#, &info.hash, &info.name)
        .expect("manifest should parse");
    let back = read_playlist(&out).expect("updated manifest should parse");
    assert_eq!(back.songs.len(), 1);
    assert_eq!(back.songs[0].hash, "h1");
    assert_eq!(back.songs[0].song_name, "Song");
}

#[test]
fn request_by_url_resolves_like_direct_identifier() {
    let id = match route("user", "!bsr https://bsaber.com/songs/XYZ/") {
        RouteOutcome::BsrRequest(id) => id,
        other => panic!("unexpected outcome: {:?}", other),
    };
    assert_eq!(id, "XYZ");
    assert_eq!(map_info_url(&id), "https://api.beatsaver.com/maps/id/XYZ");
}
