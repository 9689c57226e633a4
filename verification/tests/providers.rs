use usrs_cli::content_providers::youtube::Stream;
use usrs_cli::content_providers::youtube::Youtube;
use usrs_cli::content_providers::youtube_dl::YtDlContentProvider;
use usrs_cli::content_providers::Encoding;
use usrs_cli::content_providers::ManifestOutcome;
use usrs_cli::content_providers::UrlContentProvider;
use usrs_cli::content_providers::VideoManifest;

fn encoding(
    audio: Option<&str>,
    video: Option<&str>,
    url: Option<&str>,
    ext: &str,
    quality: Option<&str>,
) -> Encoding {
    Encoding {
        audio_codec: audio.map(str::to_string),
        video_codec: video.map(str::to_string),
        url: url.map(str::to_string),
        extension: Some(String::from(ext)),
        quality: quality.map(str::to_string),
    }
}

fn manifest(formats: Option<Vec<Encoding>>) -> VideoManifest {
    VideoManifest {
        id: String::from("dQw4w9WgXcQ"),
        duration_secs: Some(212),
        direct_url: None,
        direct_extension: None,
        direct_quality: None,
        formats,
    }
}

#[test]
fn youtube_from_formats_keeps_every_audio_bearing_stream() {
    let formats = vec![
        encoding(Some("opus"), None, Some("https://cdn/a1"), "webm", Some("tiny")),
        encoding(None, Some("vp9"), Some("https://cdn/v1"), "webm", None),
        encoding(Some("mp4a"), Some("avc1"), Some("https://cdn/c1"), "mp4", None),
    ];
    let y = Youtube::from_manifest(&manifest(Some(formats)));
    assert_eq!(y.id, "dQw4w9WgXcQ");
    assert_eq!(y.length, 212);
    assert_eq!(y.audiostreams.len(), 2);
    assert_eq!(y.audiostreams[0].url, "https://cdn/a1");
    assert_eq!(y.audiostreams[0].extension, "webm");
    assert_eq!(y.audiostreams[0].quality, "tiny");
    assert_eq!(y.audiostreams[1].url, "https://cdn/c1");
    assert_eq!(y.audiostreams[1].quality, "");
    assert_eq!(
        y.urls(),
        vec![String::from("https://cdn/a1"), String::from("https://cdn/c1")]
    );
}

#[test]
fn youtube_from_direct_url() {
    let mut m = manifest(None);
    m.direct_url = Some(String::from("https://cdn/direct"));
    m.direct_extension = Some(String::from("m4a"));
    m.direct_quality = Some(String::from("medium"));
    let y = Youtube::from_manifest(&m);
    assert_eq!(y.audiostreams.len(), 1);
    assert_eq!(y.audiostreams[0].url, "https://cdn/direct");
    assert_eq!(y.audiostreams[0].extension, "m4a");
    assert_eq!(y.audiostreams[0].quality, "medium");
    assert_eq!(y.urls(), vec![String::from("https://cdn/direct")]);
}

#[test]
fn stream_download_file_name_appends_extension() {
    let s = Stream {
        extension: String::from("webm"),
        quality: String::new(),
        url: String::from("https://cdn/a1"),
    };
    assert_eq!(s.download_file_name("/tmp/song"), "/tmp/song.webm");
}

#[test]
fn ytdl_provider_keeps_only_audio_only_streams() {
    let formats = vec![
        encoding(Some("opus"), Some("vp9"), Some("https://cdn/c1"), "webm", None),
        encoding(Some("opus"), None, Some("https://cdn/a1"), "webm", None),
        encoding(Some("mp4a"), None, None, "m4a", None),
        encoding(None, None, Some("https://cdn/n1"), "webm", None),
    ];
    let p = YtDlContentProvider::from_manifest(ManifestOutcome::Video {
        manifest: manifest(Some(formats)),
    })
    .unwrap();
    assert_eq!(p.urls, vec![String::from("https://cdn/a1")]);
    assert_eq!(p.urls(), vec![String::from("https://cdn/a1")]);
}

#[test]
fn ytdl_provider_refuses_playlists() {
    assert!(YtDlContentProvider::from_manifest(ManifestOutcome::Playlist).is_none());
}

#[test]
fn ytdl_provider_refuses_manifest_without_formats() {
    let p = YtDlContentProvider::from_manifest(ManifestOutcome::Video {
        manifest: manifest(None),
    });
    assert!(p.is_none());
}
