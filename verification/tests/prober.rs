use vi_music::prober::{probe_method, ProbeMethod};

#[test]
fn mp3_is_probed_by_its_frames() {
    assert_eq!(probe_method("/m/a.mp3"), Some(ProbeMethod::Mp3Frames));
    assert_eq!(probe_method("A.MP3"), Some(ProbeMethod::Mp3Frames));
}

#[test]
fn other_formats_are_probed_by_the_decoder() {
    assert_eq!(probe_method("a.flac"), Some(ProbeMethod::Decoder));
    assert_eq!(probe_method("a.wav"), Some(ProbeMethod::Decoder));
    assert_eq!(probe_method("a.mp3x"), Some(ProbeMethod::Decoder));
    assert_eq!(probe_method("a."), Some(ProbeMethod::Decoder));
}

#[test]
fn paths_without_extension_are_not_probed() {
    assert_eq!(probe_method("a"), None);
    assert_eq!(probe_method(".mp3"), None);
    assert_eq!(probe_method(""), None);
}
