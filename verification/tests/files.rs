use oscilla::audio_file::{accepts_argument, argument_is_accepted, extension_is_supported, filter_valid_extension, is_supported_extension, str_eq, AudioFileInfo, TagEntry, TagKey};
use oscilla::key_guide::{fit_key_guides, guide_width, KeyGuide, LineLayout};
use oscilla::playback::PlayState;
use oscilla::playlist::{categorize_into_two, join_lines, load_error_popup, validate_audio_file_and_create_audio_file_info_list, LoadOutcome};
use oscilla::signals::DecodeInitError;
use oscilla::utils::{array_init, VecExt};

fn tag(key: Option<TagKey>, value: Option<&str>) -> TagEntry {
    TagEntry { std_key: key, value: value.map(|s| s.to_string()) }
}

#[test]
fn extensions() {
    assert!(filter_valid_extension(&"song.flac".to_string()));
    assert!(filter_valid_extension(&"dir/a.b/song.mp3".to_string()));
    assert!(!filter_valid_extension(&"song.FLAC".to_string()));
    assert!(!filter_valid_extension(&"song.txt".to_string()));
    assert!(!filter_valid_extension(&"song".to_string()));
    assert!(is_supported_extension("wv"));
    assert!(!is_supported_extension("w"));
    assert!(accepts_argument(&"Song.FLAC".to_string(), "/usr/bin/oscilla"));
    assert!(!accepts_argument(&"song.txt".to_string(), "/usr/bin/oscilla"));
    assert!(!accepts_argument(&"self.mp3".to_string(), "self.mp3"));
    assert!(str_eq("abc", "abc"));
    assert!(!str_eq("abc", "abd"));
}

#[test]
fn display_names_from_tags() {
    let none = AudioFileInfo::new("/x/y/song.mp3", &vec![]);
    assert_eq!(none.get_disp_name(), "song.mp3");
    assert_eq!(none.file_path, "/x/y/song.mp3");

    let titled = AudioFileInfo::new("/x/song.mp3", &vec![tag(Some(TagKey::TrackTitle), Some("Title"))]);
    assert_eq!(titled.get_disp_name(), "Title");

    let full = AudioFileInfo::new(
        "/x/song.mp3",
        &vec![
            tag(Some(TagKey::TrackTitle), Some("Old")),
            tag(Some(TagKey::Artist), Some("Band")),
            tag(None, Some("ignored")),
            tag(Some(TagKey::Other), Some("ignored")),
            tag(Some(TagKey::Album), Some("Record")),
            tag(Some(TagKey::TrackTitle), Some("New")),
        ],
    );
    assert_eq!(full.get_disp_name(), "New [Band]");
    assert_eq!(full.album_name.as_deref(), Some("Record"));

    let artist_only = AudioFileInfo::new("/x/song.mp3", &vec![tag(Some(TagKey::Artist), Some("Band"))]);
    assert_eq!(artist_only.get_disp_name(), "song.mp3");

    let cleared = AudioFileInfo::new(
        "/x/song.mp3",
        &vec![tag(Some(TagKey::TrackTitle), Some("T")), tag(Some(TagKey::TrackTitle), None)],
    );
    assert_eq!(cleared.title, None);
    assert_eq!(cleared.get_disp_name(), "song.mp3");
}

#[test]
fn play_list_loading() {
    let outcomes = vec![
        LoadOutcome::Loaded(AudioFileInfo::new("a.mp3", &vec![])),
        LoadOutcome::Failed("b.mp3".to_string()),
        LoadOutcome::Loaded(AudioFileInfo::new("c.mp3", &vec![])),
        LoadOutcome::Failed("d.mp3".to_string()),
    ];
    let (loaded, failed) = categorize_into_two(outcomes);
    assert_eq!(loaded.iter().map(|f| f.file_path.clone()).collect::<Vec<_>>(), vec!["a.mp3", "c.mp3"]);
    assert_eq!(failed, vec!["b.mp3".to_string(), "d.mp3".to_string()]);
    assert_eq!(join_lines(&failed), "b.mp3\nd.mp3");
    let popup = load_error_popup(&failed).unwrap();
    assert_eq!(popup.title, "error");
    assert_eq!(popup.button_name, "OK");
    assert_eq!(popup.message, "an error occurred during loading file: \nb.mp3\nd.mp3");
    assert!(load_error_popup(&vec![]).is_none());

    let (list, popup) = validate_audio_file_and_create_audio_file_info_list(vec![LoadOutcome::Loaded(AudioFileInfo::new("a.mp3", &vec![]))]);
    assert_eq!(list.len(), 1);
    assert!(popup.is_none());
    let (list, popup) = validate_audio_file_and_create_audio_file_info_list(vec![LoadOutcome::Failed("z.ogg".to_string())]);
    assert!(list.is_empty());
    let popup = popup.unwrap();
    assert_eq!(popup.title, "error");
    assert_eq!(popup.button_name, "OK");
    assert_eq!(popup.message, "an error occurred during loading file: \nz.ogg");
}

#[test]
fn guide_line_fitting() {
    let guides = vec![KeyGuide::new_mazenta("Esc", "Cancel"), KeyGuide::new_gray("Ctrl+D", "Quit Oscilla")];
    // " Esc " + " " + "Cancel" = 12 columns; " Ctrl+D " + " " + "Quit Oscilla" = 21 columns
    assert_eq!(guide_width(&guides[0]), 12);
    assert_eq!(guide_width(&guides[1]), 21);
    assert_eq!(fit_key_guides(&guides, 100), LineLayout { items: 2, trailing_separator: false, width: 36 });
    assert_eq!(fit_key_guides(&guides, 20), LineLayout { items: 1, trailing_separator: true, width: 15 });
    assert_eq!(fit_key_guides(&guides, 14), LineLayout { items: 1, trailing_separator: false, width: 12 });
    assert_eq!(fit_key_guides(&guides, 5), LineLayout { items: 0, trailing_separator: false, width: 0 });
    let wide = vec![KeyGuide::new_mazenta("↑/↓", "音量")];
    // wide characters take two columns each
    assert_eq!(guide_width(&wide[0]), 5 + 1 + 4);
}

#[test]
fn global_guides_follow_play_state() {
    let stopped = KeyGuide::get_global_gudies(&PlayState::Stopped);
    assert_eq!(stopped.iter().map(|g| g.key).collect::<Vec<_>>(), vec!["Ctrl+↑", "Ctrl+↓", "Ctrl+O", "Ctrl+D"]);
    let playing = KeyGuide::get_global_gudies(&PlayState::Playing(0));
    assert_eq!(playing.len(), 6);
    assert_eq!((playing[0].key, playing[0].desc), ("Space", "Pause"));
    let paused = KeyGuide::get_global_gudies(&PlayState::Paused(0));
    assert_eq!((paused[0].key, paused[0].desc), ("Space", "Resume"));
    assert_eq!((paused[1].key, paused[1].desc), ("Ctrl+Space", "Stop"));
    let esc = KeyGuide::esc_default();
    assert_eq!((esc.key, esc.desc), ("Esc", "Cancel"));
}

#[test]
fn small_utilities() {
    let v = array_init(3, || 7u8);
    assert_eq!(v, vec![7, 7, 7]);
    assert!(array_init(0, || 1u8).is_empty());
    assert_eq!(Vec::<u8>::new().last_index(), None);
    assert_eq!(vec![1, 2, 3].last_index(), Some(2));
    assert_eq!(DecodeInitError::FileOpenFailed.message(), "No Default Track is found ");
    assert_eq!(DecodeInitError::NoTrackFound.message(), "No Default Track is found ");
}

#[test]
fn extension_decisions_on_given_extensions() {
    assert!(extension_is_supported(&Some("ogg".to_string())));
    assert!(!extension_is_supported(&Some("OGG".to_string())));
    assert!(!extension_is_supported(&None));
    let exe = "/usr/bin/oscilla";
    assert!(argument_is_accepted(&"a.OGG".to_string(), &Some("OGG".to_string()), exe));
    assert!(argument_is_accepted(&"a.Opus".to_string(), &Some("Opus".to_string()), exe));
    assert!(!argument_is_accepted(&"a.doc".to_string(), &Some("doc".to_string()), exe));
    assert!(!argument_is_accepted(&"a".to_string(), &None, exe));
    assert!(!argument_is_accepted(&"x.mp3".to_string(), &Some("mp3".to_string()), "x.mp3"));
}

#[test]
fn display_name_from_a_given_file_name() {
    let info = AudioFileInfo::with_file_name("/x/track01.wav", &vec![], Some("track01.wav".to_string()));
    assert_eq!(info.get_disp_name(), "track01.wav");
    let nameless = AudioFileInfo::with_file_name("/", &vec![], None);
    assert_eq!(nameless.get_disp_name(), "");
    let titled = AudioFileInfo::with_file_name(
        "/x/track01.wav",
        &vec![tag(Some(TagKey::TrackTitle), Some("T")), tag(Some(TagKey::Artist), Some("A"))],
        Some("track01.wav".to_string()),
    );
    assert_eq!(titled.get_disp_name(), "T [A]");
}

#[test]
fn plain_names_follow_the_extension_rule() {
    assert!(!filter_valid_extension(&".mp3".to_string()));
    assert!(filter_valid_extension(&".a.mp3".to_string()));
    assert!(!filter_valid_extension(&"a.mp3.".to_string()));
    assert!(!filter_valid_extension(&"mp3".to_string()));
    assert!(accepts_argument(&"A.Mp3".to_string(), "oscilla"));
    assert!(!accepts_argument(&".MP3".to_string(), "oscilla"));
}

#[test]
fn paths_with_a_directory_part() {
    assert!(filter_valid_extension(&"music/a.flac".to_string()));
    assert!(filter_valid_extension(&"x.tar.mp3".to_string()));
    assert!(!filter_valid_extension(&"dir.mp3/file".to_string()));
    assert!(!filter_valid_extension(&"README".to_string()));
    assert!(accepts_argument(&"music/A.Flac".to_string(), "oscilla"));
    let info = AudioFileInfo::new("music/a.mp3", &vec![]);
    assert_eq!(info.get_disp_name(), "a.mp3");
}
