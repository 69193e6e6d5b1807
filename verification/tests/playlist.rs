use vi_music::playlist::{add_tracks_to_playlist, playlist_file_name, track_infos};
use vi_music::session::TrackInfo;

fn paths(list: &[&str]) -> Vec<String> {
    list.iter().map(|s| s.to_string()).collect()
}

#[test]
fn file_name_is_the_sanitized_name_with_json() {
    assert_eq!(playlist_file_name("Road Trip"), "Road Trip.json");
    assert_eq!(playlist_file_name("a/b:c"), "a_b_c.json");
    assert_eq!(playlist_file_name(""), ".json");
    assert_eq!(playlist_file_name("mix.json"), "mix_json.json");
}

#[test]
fn new_tracks_go_to_the_end() {
    let mut playlist = paths(&["/m/a.mp3"]);
    assert_eq!(add_tracks_to_playlist(&mut playlist, &paths(&["/m/b.mp3", "/m/c.mp3"])), 2);
    assert_eq!(playlist, paths(&["/m/a.mp3", "/m/b.mp3", "/m/c.mp3"]));
}

#[test]
fn known_tracks_are_not_added_again() {
    let mut playlist = paths(&["/m/a.mp3", "/m/b.mp3"]);
    assert_eq!(
        add_tracks_to_playlist(&mut playlist, &paths(&["/m/b.mp3", "/m/c.mp3", "/m/a.mp3"])),
        1
    );
    assert_eq!(playlist, paths(&["/m/a.mp3", "/m/b.mp3", "/m/c.mp3"]));
}

#[test]
fn a_track_given_twice_is_added_once() {
    let mut playlist = Vec::new();
    assert_eq!(
        add_tracks_to_playlist(&mut playlist, &paths(&["/m/x.mp3", "/m/y.mp3", "/m/x.mp3", "/m/x.mp3"])),
        2
    );
    assert_eq!(playlist, paths(&["/m/x.mp3", "/m/y.mp3"]));
}

#[test]
fn adding_nothing_changes_nothing() {
    let mut playlist = paths(&["/m/a.mp3", "/m/a.mp3"]);
    assert_eq!(add_tracks_to_playlist(&mut playlist, &vec![]), 0);
    assert_eq!(playlist, paths(&["/m/a.mp3", "/m/a.mp3"]));
    assert_eq!(add_tracks_to_playlist(&mut playlist, &paths(&["/m/a.mp3"])), 0);
    assert_eq!(playlist, paths(&["/m/a.mp3", "/m/a.mp3"]));
}

#[test]
fn tracks_are_listed_with_name_and_position() {
    let tracks = vec![
        ("/m/album/01 intro.flac".to_string(), Some(31)),
        ("/m/b.mp3".to_string(), None),
        ("c.wav".to_string(), Some(0)),
    ];
    assert_eq!(
        track_infos(&tracks),
        vec![
            TrackInfo {
                path: "/m/album/01 intro.flac".to_string(),
                name: "01 intro.flac".to_string(),
                index: 0,
                duration: Some(31),
            },
            TrackInfo { path: "/m/b.mp3".to_string(), name: "b.mp3".to_string(), index: 1, duration: None },
            TrackInfo { path: "c.wav".to_string(), name: "c.wav".to_string(), index: 2, duration: Some(0) },
        ]
    );
    assert_eq!(track_infos(&vec![]), vec![]);
}
