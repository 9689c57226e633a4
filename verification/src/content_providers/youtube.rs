//! The provider that keeps the whole shape of a video manifest: the
//! video's id and duration and its streams, sorted into audio-bearing
//! and (still empty) video categories.  The network call that fetches
//! the manifest, and the byte copying of a download, happen outside;
//! this module holds the logic that reads the manifest.

use vstd::prelude::*;
use vstd::string::StringExecFns;
use super::Encoding;
use super::UrlContentProvider;
use super::VideoManifest;

verus! {

/// A (audio/video) stream.
#[derive(Clone, Debug)]
pub struct Stream {
    /// The extension of the stream.
    pub extension: String,
    /// The quality of the stream.
    pub quality: String,
    /// The url of the stream.
    pub url: String,
}

impl Stream {
    /// The file a download of this stream is saved to: the requested
    /// path with the stream's extension appended.
    pub fn download_file_name(&self, path: &str) -> (r: String)
        ensures
            r@ == path@ + "."@ + self.extension@,
    {
        let mut r = String::from_str(path);
        r.append(".");
        r.append(self.extension.as_str());
        r
    }
}

/// An encoding that carries audio at all, whatever its video side.
pub open spec fn is_audio_bearing(e: Encoding) -> bool {
    e.audio_codec is Some
}

/// The audio-bearing encodings of a format list, in manifest order.
pub open spec fn audio_bearing_of(fs: Seq<Encoding>) -> Seq<Encoding>
    decreases fs.len(),
{
    if fs.len() == 0 {
        Seq::empty()
    } else if is_audio_bearing(fs.last()) {
        audio_bearing_of(fs.drop_last()).push(fs.last())
    } else {
        audio_bearing_of(fs.drop_last())
    }
}

/// The quality field's text, or empty when the manifest left it out.
pub open spec fn quality_or_empty(q: Option<String>) -> Seq<char> {
    match q {
        Option::Some(s) => s@,
        Option::None => Seq::empty(),
    }
}

/// `s` is the stream built from encoding `e`.
pub open spec fn stream_models(s: Stream, e: Encoding) -> bool {
    &&& s.url@ == e.url->0@
    &&& s.extension@ == e.extension->0@
    &&& s.quality@ == quality_or_empty(e.quality)
}

/// A video-hosted source, read from the collaborator's manifest.
#[derive(Debug)]
pub struct Youtube {
    /// The 11-character video id.
    pub id: String,
    /// The duration of the streams in seconds.
    pub length: u32,
    /// The available streams (containing both video and audio).
    pub streams: Vec<Stream>,
    /// The available only-video streams.
    pub videostreams: Vec<Stream>,
    /// The available only-audio streams.
    pub audiostreams: Vec<Stream>,
}

impl Youtube {
    /// Read a single video's manifest.  A manifest carries either a
    /// direct stream URL — which becomes the one audio stream — or a
    /// format list, whose audio-bearing entries become the audio
    /// streams in manifest order.
    pub fn from_manifest(m: &VideoManifest) -> (y: Youtube)
        requires
            m.duration_secs is Some,
            m.duration_secs->0 <= u32::MAX,
            m.direct_url is Some ==> m.direct_extension is Some,
            m.direct_url is None ==> m.formats is Some,
            m.direct_url is None ==> forall|k: int|
                0 <= k < m.formats->0@.len() && is_audio_bearing(#[trigger] m.formats->0@[k])
                    ==> m.formats->0@[k].extension is Some && m.formats->0@[k].url is Some,
        ensures
            y.id@ == m.id@,
            y.length == m.duration_secs->0,
            y.streams@.len() == 0,
            y.videostreams@.len() == 0,
            match m.direct_url {
                Option::Some(u) => y.audiostreams@.len() == 1 && y.audiostreams@[0].url@ == u@
                    && y.audiostreams@[0].extension@ == m.direct_extension->0@
                    && y.audiostreams@[0].quality@ == quality_or_empty(m.direct_quality),
                Option::None => y.audiostreams@.len() == audio_bearing_of(m.formats->0@).len()
                    && forall|i: int|
                    0 <= i < y.audiostreams@.len() ==> stream_models(
                        #[trigger] y.audiostreams@[i],
                        audio_bearing_of(m.formats->0@)[i],
                    ),
            },
    {
        let mut audiostreams: Vec<Stream> = Vec::new();
        if m.direct_url.is_some() {
            let quality = match &m.direct_quality {
                Some(q) => q.clone(),
                None => String::new(),
            };
            audiostreams.push(
                Stream {
                    extension: m.direct_extension.as_ref().unwrap().clone(),
                    quality,
                    url: m.direct_url.as_ref().unwrap().clone(),
                },
            );
        } else {
            let formats = m.formats.as_ref().unwrap();
            let mut idx: usize = 0;
            while idx < formats.len()
                invariant
                    idx <= formats@.len(),
                    audiostreams@.len() == audio_bearing_of(formats@.take(idx as int)).len(),
                    forall|i: int|
                        0 <= i < audiostreams@.len() ==> stream_models(
                            #[trigger] audiostreams@[i],
                            audio_bearing_of(formats@.take(idx as int))[i],
                        ),
                    forall|k: int|
                        0 <= k < formats@.len() && is_audio_bearing(#[trigger] formats@[k])
                            ==> formats@[k].extension is Some && formats@[k].url is Some,
                decreases formats@.len() - idx,
            {
                proof {
                    assert(formats@.take(idx + 1).drop_last() =~= formats@.take(idx as int));
                    assert(formats@.take(idx + 1).last() == formats@[idx as int]);
                }
                let e = &formats[idx];
                if e.audio_codec.is_some() {
                    let quality = match &e.quality {
                        Some(q) => q.clone(),
                        None => String::new(),
                    };
                    audiostreams.push(
                        Stream {
                            extension: e.extension.as_ref().unwrap().clone(),
                            quality,
                            url: e.url.as_ref().unwrap().clone(),
                        },
                    );
                }
                idx += 1;
            }
            proof {
                assert(formats@.take(formats@.len() as int) =~= formats@);
            }
        }
        Youtube {
            id: m.id.clone(),
            length: m.duration_secs.unwrap() as u32,
            streams: Vec::new(),
            videostreams: Vec::new(),
            audiostreams,
        }
    }
}

impl UrlContentProvider for Youtube {
    open spec fn urls_spec(&self) -> Seq<Seq<char>> {
        self.audiostreams@.map_values(|s: Stream| s.url@) + self.streams@.map_values(
            |s: Stream| s.url@,
        )
    }

    fn urls(&self) -> (r: Vec<String>) {
        let mut r: Vec<String> = Vec::new();
        let mut i: usize = 0;
        while i < self.audiostreams.len()
            invariant
                i <= self.audiostreams@.len(),
                r@.len() == i,
                forall|k: int|
                    0 <= k < i ==> (#[trigger] r@[k])@ == self.audiostreams@[k].url@,
            decreases self.audiostreams@.len() - i,
        {
            r.push(self.audiostreams[i].url.clone());
            i += 1;
        }
        let base = self.audiostreams.len();
        let mut j: usize = 0;
        while j < self.streams.len()
            invariant
                j <= self.streams@.len(),
                base == self.audiostreams@.len(),
                r@.len() == base + j,
                forall|k: int|
                    0 <= k < base ==> (#[trigger] r@[k])@ == self.audiostreams@[k].url@,
                forall|k: int|
                    base <= k < base + j ==> (#[trigger] r@[k])@ == self.streams@[k - base].url@,
            decreases self.streams@.len() - j,
        {
            r.push(self.streams[j].url.clone());
            j += 1;
        }
        r
    }
}

} // verus!
