//! The provider built from an indirect-resolution outcome: the
//! audio-only stream URLs of a single video.  The collaborator call that
//! produces the outcome happens outside; this module decides what the
//! outcome is worth.

use vstd::prelude::*;
use vstd::pervasive::unreached;
use super::ManifestOutcome;
use super::UrlContentProvider;
use super::audio_only_urls;
use super::collect_audio_only;

verus! {

/// A provider offering the audio-only streams of one video.
#[derive(Debug)]
pub struct YtDlContentProvider {
    pub urls: Vec<String>,
}

impl YtDlContentProvider {
    /// The provider for an indirect-resolution outcome: the URLs of the
    /// audio-only encodings of a single video's format list, in manifest
    /// order.  A playlist, or a manifest without a format list, yields no
    /// provider.
    pub fn from_manifest(outcome: ManifestOutcome) -> (r: Option<YtDlContentProvider>)
        requires
            !(outcome is Failed),
        ensures
            match outcome {
                ManifestOutcome::Failed { .. } => true,
                ManifestOutcome::Playlist => r is None,
                ManifestOutcome::Video { manifest } => match manifest.formats {
                    Option::Some(formats) => r matches Some(p) && p.urls@.len()
                        == audio_only_urls(formats@).len() && forall|i: int|
                        0 <= i < p.urls@.len() ==> (#[trigger] p.urls@[i])@ == audio_only_urls(
                            formats@,
                        )[i],
                    Option::None => r is None,
                },
            },
    {
        match outcome {
            ManifestOutcome::Failed { .. } => unreached(),
            ManifestOutcome::Playlist => None,
            ManifestOutcome::Video { manifest } => match manifest.formats {
                Some(formats) => Some(
                    YtDlContentProvider { urls: collect_audio_only(&formats) },
                ),
                None => None,
            },
        }
    }
}

impl UrlContentProvider for YtDlContentProvider {
    open spec fn urls_spec(&self) -> Seq<Seq<char>> {
        self.urls@.map_values(|s: String| s@)
    }

    fn urls(&self) -> (r: Vec<String>) {
        let mut r: Vec<String> = Vec::new();
        let mut i: usize = 0;
        while i < self.urls.len()
            invariant
                i <= self.urls@.len(),
                r@.len() == i,
                forall|k: int| 0 <= k < i ==> (#[trigger] r@[k])@ == self.urls@[k]@,
            decreases self.urls@.len() - i,
        {
            r.push(self.urls[i].clone());
            i += 1;
        }
        r
    }
}

} // verus!
