//! Playlists as lists of paths: how tracks are added to one, how the tracks
//! of one are listed, and under which file name one is stored.

use crate::media::{display_name, display_name_of, sanitize_filename, sanitized};
use crate::session::TrackInfo;
use crate::text::holds;
use vstd::prelude::*;
use vstd::string::StringExecFns;

verus! {

/// The playlist after `tracks` were added one by one: a track goes to the
/// end unless the playlist holds it by then.
pub open spec fn merged(playlist: Seq<Seq<char>>, tracks: Seq<Seq<char>>) -> Seq<Seq<char>>
    decreases tracks.len(),
{
    if tracks.len() == 0 {
        playlist
    } else {
        let so_far = merged(playlist, tracks.drop_last());
        if so_far.contains(tracks.last()) {
            so_far
        } else {
            so_far.push(tracks.last())
        }
    }
}

/// The name of the file that stores the playlist `name`.
pub open spec fn file_name_of(name: Seq<char>) -> Seq<char> {
    sanitized(name) + ".json"@
}

/// Whether `infos` lists `tracks`, given as paths with their durations, in
/// their order: each entry has the path and duration of its track, the
/// display name of the path, and its position as index.
pub open spec fn lists_tracks(infos: Seq<TrackInfo>, tracks: Seq<(String, Option<u64>)>) -> bool {
    &&& infos.len() == tracks.len()
    &&& forall|i: int|
        0 <= i < infos.len() ==> {
            &&& (#[trigger] infos[i]).path == tracks[i].0
            &&& infos[i].name@ == display_name_of(tracks[i].0@)
            &&& infos[i].index == i
            &&& infos[i].duration == tracks[i].1
        }
}

/// The name of the file that stores the playlist `name`.
pub fn playlist_file_name(name: &str) -> (file_name: String)
    ensures
        file_name@ == file_name_of(name@),
{
    sanitize_filename(name).concat(".json")
}

/// Adds to the playlist those of `tracks` that it does not hold yet, at its
/// end and in their order, and returns how many were added.
pub fn add_tracks_to_playlist(playlist: &mut Vec<String>, tracks: &Vec<String>) -> (added: usize)
    ensures
        final(playlist).deep_view() == merged(old(playlist).deep_view(), tracks.deep_view()),
        added == final(playlist)@.len() - old(playlist)@.len(),
{
    let mut added: usize = 0;
    let mut i: usize = 0;
    assert(tracks.deep_view().take(0) =~= Seq::<Seq<char>>::empty());
    while i < tracks.len()
        invariant
            i <= tracks.len(),
            added <= i,
            playlist.deep_view() == merged(
                old(playlist).deep_view(),
                tracks.deep_view().take(i as int),
            ),
            playlist@.len() == old(playlist)@.len() + added,
        decreases tracks.len() - i,
    {
        let ghost so_far = playlist.deep_view();
        proof {
            assert(tracks.deep_view().take(i + 1).drop_last() =~= tracks.deep_view().take(
                i as int,
            ));
            assert(tracks.deep_view().take(i + 1).last() == tracks@[i as int]@);
        }
        if !holds(playlist, tracks[i].as_str()) {
            playlist.push(tracks[i].clone());
            added += 1;
            assert(playlist.deep_view() =~= so_far.push(tracks@[i as int]@));
        }
        i += 1;
    }
    assert(tracks.deep_view().take(tracks.len() as int) =~= tracks.deep_view());
    added
}

/// Lists tracks that are given as paths with their durations.
pub fn track_infos(tracks: &Vec<(String, Option<u64>)>) -> (infos: Vec<TrackInfo>)
    ensures
        lists_tracks(infos@, tracks@),
{
    let mut infos: Vec<TrackInfo> = Vec::new();
    let mut i: usize = 0;
    while i < tracks.len()
        invariant
            i <= tracks.len(),
            lists_tracks(infos@, tracks@.take(i as int)),
        decreases tracks.len() - i,
    {
        let path: String = tracks[i].0.clone();
        let name: String = display_name(path.as_str());
        infos.push(TrackInfo { path, name, index: i, duration: tracks[i].1 });
        i += 1;
    }
    assert(tracks@.take(tracks.len() as int) =~= tracks@);
    infos
}

/// Adding tracks never removes or reorders what a playlist held.
pub proof fn lemma_merged_extends(playlist: Seq<Seq<char>>, tracks: Seq<Seq<char>>)
    ensures
        playlist.len() <= merged(playlist, tracks).len() <= playlist.len() + tracks.len(),
        merged(playlist, tracks).take(playlist.len() as int) == playlist,
    decreases tracks.len(),
{
    if tracks.len() > 0 {
        lemma_merged_extends(playlist, tracks.drop_last());
        let so_far = merged(playlist, tracks.drop_last());
        assert(so_far.push(tracks.last()).take(playlist.len() as int) =~= so_far.take(
            playlist.len() as int,
        ));
    } else {
        assert(playlist.take(playlist.len() as int) =~= playlist);
    }
}

/// After tracks were added, the playlist holds each of them.
pub proof fn lemma_merged_holds_every_track(
    playlist: Seq<Seq<char>>,
    tracks: Seq<Seq<char>>,
    k: int,
)
    requires
        0 <= k < tracks.len(),
    ensures
        merged(playlist, tracks).contains(tracks[k]),
    decreases tracks.len(),
{
    let so_far = merged(playlist, tracks.drop_last());
    if k == tracks.len() - 1 {
        if !so_far.contains(tracks.last()) {
            assert(so_far.push(tracks.last())[so_far.len() as int] == tracks.last());
        }
    } else {
        lemma_merged_holds_every_track(playlist, tracks.drop_last(), k);
        let at = choose|at: int| 0 <= at < so_far.len() && so_far[at] == tracks[k];
        if !so_far.contains(tracks.last()) {
            assert(so_far.push(tracks.last())[at] == tracks[k]);
        }
    }
}

} // verus!
