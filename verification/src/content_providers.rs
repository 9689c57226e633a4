//! Resolving an audio reference into an ordered list of playable stream
//! URIs.
//!
//! Classification of a reference, in order: a reference with no
//! recognized scheme is a local filesystem path and becomes a single
//! `file://` URI; a `file://` reference passes through unchanged; an
//! `http://` or `https://` reference whose text matches the known
//! video-hosting pattern needs indirect resolution through the external
//! video-resolution collaborator; any other `http(s)://` reference is a
//! generic remote URL, passed through unchanged.  Only the video-hosted
//! branch involves a network call, and the caller must not attempt it
//! unless the pattern matched.  Indirect resolution filters the
//! collaborator's manifest to audio-bearing encodings and orders the
//! audio-only streams before the combined audio/video ones; a playlist
//! outcome is a hard error, never a silent pick of its first item.

pub mod youtube;
pub mod youtube_dl;

use vstd::prelude::*;
use vstd::string::StringExecFns;
use vstd::pervasive::unreached;
use crate::strutil::contains_spec;
use crate::strutil::starts_with_spec;
use crate::strutil::str_concat;
use crate::strutil::str_contains;
use crate::strutil::str_starts_with;

verus! {

/// A content provider that uses URLs to provide content.
pub trait UrlContentProvider {
    /// The candidate stream URIs this provider offers, most preferred
    /// first.
    spec fn urls_spec(&self) -> Seq<Seq<char>>;

    /// Returns the list of usable URLs, most preferred first.
    fn urls(&self) -> (r: Vec<String>)
        ensures
            r@.len() == self.urls_spec().len(),
            forall|i: int| 0 <= i < r@.len() ==> (#[trigger] r@[i])@ == self.urls_spec()[i],
    ;
}

/// How a reference is classified, in the order the branches are tried.
#[derive(Clone, Copy, Debug, PartialEq, Eq, Structural)]
pub enum SourceKind {
    /// Starts with `file://`: passed through unchanged.
    FileUri,
    /// `http(s)://` and the video-hosting pattern matched: needs indirect
    /// resolution.
    VideoHosted,
    /// Any other `http(s)://` reference: passed through unchanged.
    GenericUrl,
    /// No recognized scheme: a local filesystem path.
    LocalPath,
}

/// The classification policy over the reference's characters.
pub open spec fn classify_spec(r: Seq<char>) -> SourceKind {
    if starts_with_spec(r, "file://"@) {
        SourceKind::FileUri
    } else if starts_with_spec(r, "http://"@) || starts_with_spec(r, "https://"@) {
        if contains_spec(r, "youtu.be"@) || contains_spec(r, "youtube"@) {
            SourceKind::VideoHosted
        } else {
            SourceKind::GenericUrl
        }
    } else {
        SourceKind::LocalPath
    }
}

/// Classify a reference.  This is pure: no branch performs any I/O.
pub fn classify_reference(reference: &str) -> (k: SourceKind)
    ensures
        k == classify_spec(reference@),
{
    if str_starts_with(reference, "file://") {
        SourceKind::FileUri
    } else if str_starts_with(reference, "http://") || str_starts_with(reference, "https://") {
        if str_contains(reference, "youtu.be") || str_contains(reference, "youtube") {
            SourceKind::VideoHosted
        } else {
            SourceKind::GenericUrl
        }
    } else {
        SourceKind::LocalPath
    }
}

/// Represents a file or remote location to be played as it is.
#[derive(Debug)]
pub struct SimpleURLProvider {
    /// The single URL offered.
    pub url: String,
}

impl SimpleURLProvider {
    /// A provider that passes `url` through unchanged.
    pub fn from_url(url: &str) -> (p: SimpleURLProvider)
        ensures
            p.url@ == url@,
    {
        SimpleURLProvider { url: String::from_str(url) }
    }

    /// A provider for a local file: the path behind a `file://` scheme.
    pub fn from_local_path(path: &str) -> (p: SimpleURLProvider)
        ensures
            p.url@ == "file://"@ + path@,
    {
        SimpleURLProvider { url: str_concat("file://", path) }
    }
}

impl UrlContentProvider for SimpleURLProvider {
    open spec fn urls_spec(&self) -> Seq<Seq<char>> {
        seq![self.url@]
    }

    fn urls(&self) -> (r: Vec<String>) {
        let mut r: Vec<String> = Vec::new();
        r.push(self.url.clone());
        r
    }
}

/// The fitting provider for a reference, per the classification policy.
/// The video-hosted branch cannot be decided locally: the caller must run
/// indirect resolution (see [`resolve`]) and is told so.
#[derive(Debug)]
pub enum ProviderSelection {
    /// A passthrough or local-path provider, ready to use.
    Simple(SimpleURLProvider),
    /// The reference needs indirect resolution through the
    /// video-resolution collaborator first.
    VideoHosted,
}

/// Returns the fitting content provider for the given path.
pub fn get_url_content_provider(url: &str) -> (p: ProviderSelection)
    ensures
        match classify_spec(url@) {
            SourceKind::FileUri | SourceKind::GenericUrl => p matches ProviderSelection::Simple(s)
                && s.url@ == url@,
            SourceKind::LocalPath => p matches ProviderSelection::Simple(s) && s.url@ == "file://"@
                + url@,
            SourceKind::VideoHosted => p is VideoHosted,
        },
{
    match classify_reference(url) {
        SourceKind::FileUri => ProviderSelection::Simple(SimpleURLProvider::from_url(url)),
        SourceKind::GenericUrl => ProviderSelection::Simple(SimpleURLProvider::from_url(url)),
        SourceKind::VideoHosted => ProviderSelection::VideoHosted,
        SourceKind::LocalPath => ProviderSelection::Simple(SimpleURLProvider::from_local_path(url)),
    }
}

/// One encoding entry of the video-resolution collaborator's manifest,
/// reduced to the fields resolution reads.
#[derive(Clone, Debug)]
pub struct Encoding {
    pub audio_codec: Option<String>,
    pub video_codec: Option<String>,
    pub url: Option<String>,
    pub extension: Option<String>,
    pub quality: Option<String>,
}

/// A single video's manifest: either a direct stream URL or a list of
/// available encodings.
#[derive(Clone, Debug)]
pub struct VideoManifest {
    pub id: String,
    pub duration_secs: Option<u64>,
    pub direct_url: Option<String>,
    pub direct_extension: Option<String>,
    pub direct_quality: Option<String>,
    pub formats: Option<Vec<Encoding>>,
}

/// What the indirect-resolution step produced.
#[derive(Debug)]
pub enum ManifestOutcome {
    /// The collaborator failed: network unreachable or an unparsable
    /// manifest.
    Failed { cause: String },
    /// The reference named a playlist, not a single video.
    Playlist,
    /// A single video's manifest.
    Video { manifest: VideoManifest },
}

/// An audio-only encoding with a usable URL.
pub open spec fn is_audio_only(e: Encoding) -> bool {
    e.audio_codec is Some && e.video_codec is None && e.url is Some
}

/// A combined audio/video encoding with a usable URL.
pub open spec fn is_combined(e: Encoding) -> bool {
    e.audio_codec is Some && e.video_codec is Some && e.url is Some
}

/// The URLs of the audio-only encodings, in manifest order.
pub open spec fn audio_only_urls(fs: Seq<Encoding>) -> Seq<Seq<char>>
    decreases fs.len(),
{
    if fs.len() == 0 {
        Seq::empty()
    } else if is_audio_only(fs.last()) {
        audio_only_urls(fs.drop_last()).push(fs.last().url->0@)
    } else {
        audio_only_urls(fs.drop_last())
    }
}

/// The URLs of the combined audio/video encodings, in manifest order.
pub open spec fn combined_urls(fs: Seq<Encoding>) -> Seq<Seq<char>>
    decreases fs.len(),
{
    if fs.len() == 0 {
        Seq::empty()
    } else if is_combined(fs.last()) {
        combined_urls(fs.drop_last()).push(fs.last().url->0@)
    } else {
        combined_urls(fs.drop_last())
    }
}

/// The candidate URIs of a video manifest, most preferred first: the
/// direct URL when the manifest carries one, else the audio-only
/// encodings' URLs followed by the combined encodings' URLs.
pub open spec fn indirect_candidates(m: VideoManifest) -> Seq<Seq<char>> {
    if m.direct_url is Some {
        seq![m.direct_url->0@]
    } else if m.formats is Some {
        audio_only_urls(m.formats->0@) + combined_urls(m.formats->0@)
    } else {
        Seq::empty()
    }
}

/// An ordered list of candidate stream URIs for one audio reference,
/// most preferred first.
#[derive(Debug)]
pub struct ResolvedSource {
    pub candidates: Vec<String>,
}

/// Why a reference could not be resolved.  Every variant carries the
/// offending reference.
#[derive(Debug)]
pub enum ResolutionError {
    /// The indirect-resolution collaborator failed, with the proximate
    /// cause: the network was unreachable or its manifest was unparsable.
    IndirectFailure { reference: String, cause: String },
    /// The manifest offered no audio-bearing encoding with a usable URL.
    NoAudioEncoding { reference: String },
    /// The reference resolved to a playlist, which is unsupported.
    PlaylistUnsupported { reference: String },
}

/// The URLs of the audio-only encodings of `formats`, as owned strings.
pub(crate) fn collect_audio_only(formats: &Vec<Encoding>) -> (r: Vec<String>)
    ensures
        r@.len() == audio_only_urls(formats@).len(),
        forall|i: int|
            0 <= i < r@.len() ==> (#[trigger] r@[i])@ == audio_only_urls(formats@)[i],
{
    let mut r: Vec<String> = Vec::new();
    let mut idx: usize = 0;
    while idx < formats.len()
        invariant
            idx <= formats@.len(),
            r@.len() == audio_only_urls(formats@.take(idx as int)).len(),
            forall|i: int|
                0 <= i < r@.len() ==> (#[trigger] r@[i])@ == audio_only_urls(
                    formats@.take(idx as int),
                )[i],
        decreases formats@.len() - idx,
    {
        proof {
            assert(formats@.take(idx + 1).drop_last() =~= formats@.take(idx as int));
            assert(formats@.take(idx + 1).last() == formats@[idx as int]);
        }
        let e = &formats[idx];
        if e.audio_codec.is_some() && e.video_codec.is_none() && e.url.is_some() {
            r.push(e.url.as_ref().unwrap().clone());
        }
        idx += 1;
    }
    proof {
        assert(formats@.take(formats@.len() as int) =~= formats@);
    }
    r
}

/// The URLs of the combined audio/video encodings of `formats`, as owned
/// strings.
pub(crate) fn collect_combined(formats: &Vec<Encoding>) -> (r: Vec<String>)
    ensures
        r@.len() == combined_urls(formats@).len(),
        forall|i: int|
            0 <= i < r@.len() ==> (#[trigger] r@[i])@ == combined_urls(formats@)[i],
{
    let mut r: Vec<String> = Vec::new();
    let mut idx: usize = 0;
    while idx < formats.len()
        invariant
            idx <= formats@.len(),
            r@.len() == combined_urls(formats@.take(idx as int)).len(),
            forall|i: int|
                0 <= i < r@.len() ==> (#[trigger] r@[i])@ == combined_urls(
                    formats@.take(idx as int),
                )[i],
        decreases formats@.len() - idx,
    {
        proof {
            assert(formats@.take(idx + 1).drop_last() =~= formats@.take(idx as int));
            assert(formats@.take(idx + 1).last() == formats@[idx as int]);
        }
        let e = &formats[idx];
        if e.audio_codec.is_some() && e.video_codec.is_some() && e.url.is_some() {
            r.push(e.url.as_ref().unwrap().clone());
        }
        idx += 1;
    }
    proof {
        assert(formats@.take(formats@.len() as int) =~= formats@);
    }
    r
}

/// Resolve a reference into candidate stream URIs.
///
/// The caller runs the classification first: exactly when it says
/// video-hosted, the caller performs the indirect-resolution call and
/// passes its outcome, so that the network step is never attempted for
/// any other reference.  For a local path the single candidate is the
/// `file://`-prefixed path; `file://` and generic URLs pass through as
/// the single candidate; a video-hosted reference resolves to its
/// manifest's candidates, audio-only streams first, with a playlist
/// outcome, a failed collaborator and a manifest without a usable
/// audio-bearing encoding each a distinct error.
pub fn resolve(reference: &str, indirect: Option<ManifestOutcome>) -> (r: Result<
    ResolvedSource,
    ResolutionError,
>)
    requires
        (classify_spec(reference@) == SourceKind::VideoHosted) <==> indirect is Some,
    ensures
        match classify_spec(reference@) {
            SourceKind::LocalPath => r matches Ok(src) && src.candidates@.len() == 1
                && src.candidates@[0]@ == "file://"@ + reference@,
            SourceKind::FileUri | SourceKind::GenericUrl => r matches Ok(src)
                && src.candidates@.len() == 1 && src.candidates@[0]@ == reference@,
            SourceKind::VideoHosted => match indirect->0 {
                ManifestOutcome::Failed { cause } => r matches Err(
                    ResolutionError::IndirectFailure { reference: q, cause: c },
                ) && q@ == reference@ && c@ == cause@,
                ManifestOutcome::Playlist => r matches Err(
                    ResolutionError::PlaylistUnsupported { reference: q },
                ) && q@ == reference@,
                ManifestOutcome::Video { manifest } => {
                    let cands = indirect_candidates(manifest);
                    if cands.len() == 0 {
                        r matches Err(ResolutionError::NoAudioEncoding { reference: q }) && q@
                            == reference@
                    } else {
                        r matches Ok(src) && src.candidates@.len() == cands.len() && (forall|
                            i: int,
                        |
                            0 <= i < cands.len() ==> (#[trigger] src.candidates@[i])@ == cands[i])
                    }
                },
            },
        },
{
    match classify_reference(reference) {
        SourceKind::LocalPath => {
            let mut candidates: Vec<String> = Vec::new();
            candidates.push(str_concat("file://", reference));
            Ok(ResolvedSource { candidates })
        },
        SourceKind::FileUri | SourceKind::GenericUrl => {
            let mut candidates: Vec<String> = Vec::new();
            candidates.push(String::from_str(reference));
            Ok(ResolvedSource { candidates })
        },
        SourceKind::VideoHosted => match indirect {
            None => unreached(),
            Some(outcome) => match outcome {
                ManifestOutcome::Failed { cause } => Err(
                    ResolutionError::IndirectFailure {
                        reference: String::from_str(reference),
                        cause,
                    },
                ),
                ManifestOutcome::Playlist => Err(
                    ResolutionError::PlaylistUnsupported { reference: String::from_str(reference) },
                ),
                ManifestOutcome::Video { manifest } => {
                    if manifest.direct_url.is_some() {
                        let mut candidates: Vec<String> = Vec::new();
                        candidates.push(manifest.direct_url.unwrap());
                        Ok(ResolvedSource { candidates })
                    } else if manifest.formats.is_some() {
                        let formats = manifest.formats.unwrap();
                        let mut candidates = collect_audio_only(&formats);
                        let mut combined = collect_combined(&formats);
                        candidates.append(&mut combined);
                        if candidates.len() == 0 {
                            Err(
                                ResolutionError::NoAudioEncoding {
                                    reference: String::from_str(reference),
                                },
                            )
                        } else {
                            Ok(ResolvedSource { candidates })
                        }
                    } else {
                        Err(
                            ResolutionError::NoAudioEncoding {
                                reference: String::from_str(reference),
                            },
                        )
                    }
                },
            },
        },
    }
}

/// Preference order of indirect resolution: for a manifest resolved
/// through its format list, the candidate list is exactly the audio-only
/// URLs followed by the combined audio/video URLs, so no combined stream
/// ever precedes an audio-only one.
pub proof fn lemma_audio_only_first(m: VideoManifest)
    requires
        m.direct_url is None,
        m.formats is Some,
    ensures
        indirect_candidates(m) == audio_only_urls(m.formats->0@) + combined_urls(m.formats->0@),
        forall|i: int|
            0 <= i < audio_only_urls(m.formats->0@).len() ==> #[trigger] indirect_candidates(m)[i]
                == audio_only_urls(m.formats->0@)[i],
        forall|j: int|
            audio_only_urls(m.formats->0@).len() <= j < indirect_candidates(m).len()
                ==> #[trigger] indirect_candidates(m)[j] == combined_urls(m.formats->0@)[j
                - audio_only_urls(m.formats->0@).len()],
{
}

/// Every candidate in the combined part of the list really is the URL of
/// some combined audio/video encoding of the manifest.  Together with
/// [`lemma_audio_only_urls_sources`] and [`lemma_audio_only_first`] this
/// pins the preference order: every audio-only candidate stands before
/// every combined one.
pub proof fn lemma_combined_urls_sources(fs: Seq<Encoding>)
    ensures
        forall|i: int|
            0 <= i < combined_urls(fs).len() ==> exists|k: int|
                0 <= k < fs.len() && is_combined(fs[k]) && #[trigger] combined_urls(fs)[i]
                    == fs[k].url->0@,
    decreases fs.len(),
{
    if fs.len() == 0 {
    } else {
        lemma_combined_urls_sources(fs.drop_last());
        let rest = combined_urls(fs.drop_last());
        assert forall|i: int| 0 <= i < combined_urls(fs).len() implies exists|k: int|
            0 <= k < fs.len() && is_combined(fs[k]) && #[trigger] combined_urls(fs)[i]
                == fs[k].url->0@ by {
            if i < rest.len() {
                let k = choose|k: int|
                    0 <= k < fs.drop_last().len() && is_combined(fs.drop_last()[k]) && rest[i]
                        == fs.drop_last()[k].url->0@;
                assert(fs.drop_last()[k] == fs[k]);
                assert(0 <= k < fs.len() && is_combined(fs[k]) && combined_urls(fs)[i]
                    == fs[k].url->0@);
            } else {
                let k = fs.len() - 1;
                assert(fs.last() == fs[k]);
                assert(0 <= k < fs.len() && is_combined(fs[k]) && combined_urls(fs)[i]
                    == fs[k].url->0@);
            }
        }
    }
}

/// Every candidate in the audio-only part of the list really is the URL
/// of some audio-only encoding of the manifest.
pub proof fn lemma_audio_only_urls_sources(fs: Seq<Encoding>)
    ensures
        forall|i: int|
            0 <= i < audio_only_urls(fs).len() ==> exists|k: int|
                0 <= k < fs.len() && is_audio_only(fs[k]) && #[trigger] audio_only_urls(fs)[i]
                    == fs[k].url->0@,
    decreases fs.len(),
{
    if fs.len() == 0 {
    } else {
        lemma_audio_only_urls_sources(fs.drop_last());
        let rest = audio_only_urls(fs.drop_last());
        assert forall|i: int| 0 <= i < audio_only_urls(fs).len() implies exists|k: int|
            0 <= k < fs.len() && is_audio_only(fs[k]) && #[trigger] audio_only_urls(fs)[i]
                == fs[k].url->0@ by {
            if i < rest.len() {
                let k = choose|k: int|
                    0 <= k < fs.drop_last().len() && is_audio_only(fs.drop_last()[k]) && rest[i]
                        == fs.drop_last()[k].url->0@;
                assert(fs.drop_last()[k] == fs[k]);
                assert(0 <= k < fs.len() && is_audio_only(fs[k]) && audio_only_urls(fs)[i]
                    == fs[k].url->0@);
            } else {
                let k = fs.len() - 1;
                assert(fs.last() == fs[k]);
                assert(0 <= k < fs.len() && is_audio_only(fs[k]) && audio_only_urls(fs)[i]
                    == fs[k].url->0@);
            }
        }
    }
}

} // verus!
