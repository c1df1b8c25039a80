use vstd::prelude::*;

use crate::float_bits::FloatBits;

verus! {

/// Whether the player is playing, paused or stopped.
#[derive(Clone, Copy, Debug, PartialEq, Eq, Structural)]
pub enum PlaybackStatus {
    Playing,
    Paused,
    Stopped,
}

/// What the player repeats once the current media ends.
#[derive(Clone, Copy, Debug, PartialEq, Eq, Structural)]
pub enum LoopStatus {
    Off,
    Track,
    Playlist,
}

/// An auxiliary metadata entry that plays no part in diffing.
#[derive(Debug)]
pub struct MetadataEntry {
    pub key: String,
    pub value: String,
}

/// Metadata of the current track. `track_id` identifies the track; `rest`
/// holds every entry that has no field of its own.
#[derive(Debug)]
pub struct Metadata {
    pub track_id: String,
    pub title: Option<String>,
    pub album_name: Option<String>,
    pub artists: Vec<String>,
    pub length_in_microseconds: Option<u64>,
    pub rest: Vec<MetadataEntry>,
}

/// State of the player at one instant, as far as it is diffed.
#[derive(Debug)]
pub struct Snapshot {
    pub playback_status: PlaybackStatus,
    pub loop_status: LoopStatus,
    pub shuffle: bool,
    pub volume: FloatBits,
    pub playback_rate: FloatBits,
    pub metadata: Metadata,
}

/// Metadata as a model: strings as character sequences.
pub struct MetadataView {
    pub track_id: Seq<char>,
    pub title: Option<Seq<char>>,
    pub album_name: Option<Seq<char>>,
    pub artists: Seq<Seq<char>>,
    pub length_in_microseconds: Option<u64>,
    pub rest: Seq<(Seq<char>, Seq<char>)>,
}

/// A snapshot as a model.
pub struct SnapshotView {
    pub playback_status: PlaybackStatus,
    pub loop_status: LoopStatus,
    pub shuffle: bool,
    pub volume: FloatBits,
    pub playback_rate: FloatBits,
    pub metadata: MetadataView,
}

/// The characters of an optional string.
pub open spec fn opt_str_view(o: Option<String>) -> Option<Seq<char>> {
    match o {
        Some(s) => Some(s@),
        None => None,
    }
}

impl View for MetadataEntry {
    type V = (Seq<char>, Seq<char>);

    open spec fn view(&self) -> (Seq<char>, Seq<char>) {
        (self.key@, self.value@)
    }
}

impl View for Metadata {
    type V = MetadataView;

    open spec fn view(&self) -> MetadataView {
        MetadataView {
            track_id: self.track_id@,
            title: opt_str_view(self.title),
            album_name: opt_str_view(self.album_name),
            artists: self.artists@.map_values(|s: String| s@),
            length_in_microseconds: self.length_in_microseconds,
            rest: self.rest@.map_values(|e: MetadataEntry| e@),
        }
    }
}

impl View for Snapshot {
    type V = SnapshotView;

    open spec fn view(&self) -> SnapshotView {
        SnapshotView {
            playback_status: self.playback_status,
            loop_status: self.loop_status,
            shuffle: self.shuffle,
            volume: self.volume,
            playback_rate: self.playback_rate,
            metadata: self.metadata@,
        }
    }
}

impl MetadataView {
    /// The same metadata with every auxiliary entry dropped.
    pub open spec fn without_rest(self) -> MetadataView {
        MetadataView { rest: Seq::empty(), ..self }
    }
}

fn clone_opt_str(o: &Option<String>) -> (r: Option<String>)
    ensures
        opt_str_view(r) == opt_str_view(*o),
{
    match o {
        Some(s) => Some(s.clone()),
        None => None,
    }
}

fn clone_strings(v: &Vec<String>) -> (r: Vec<String>)
    ensures
        r@.map_values(|s: String| s@) == v@.map_values(|s: String| s@),
{
    let mut r: Vec<String> = Vec::new();
    let mut i: usize = 0;
    while i < v.len()
        invariant
            i <= v.len(),
            r@.len() == i,
            forall|j: int| 0 <= j < i ==> r@[j]@ == v@[j]@,
        decreases v.len() - i,
    {
        r.push(v[i].clone());
        i = i + 1;
    }
    assert(r@.map_values(|s: String| s@) =~= v@.map_values(|s: String| s@));
    r
}

impl Metadata {
    /// A copy of this metadata without its auxiliary entries.
    pub fn clone_without_rest(&self) -> (r: Metadata)
        ensures
            r@ == self@.without_rest(),
    {
        let r = Metadata {
            track_id: self.track_id.clone(),
            title: clone_opt_str(&self.title),
            album_name: clone_opt_str(&self.album_name),
            artists: clone_strings(&self.artists),
            length_in_microseconds: self.length_in_microseconds,
            rest: Vec::new(),
        };
        assert(r@.rest =~= Seq::<(Seq<char>, Seq<char>)>::empty());
        r
    }

    /// The identity of the track that this metadata describes.
    pub fn track_id(&self) -> (r: &str)
        ensures
            r@ == self@.track_id,
    {
        self.track_id.as_str()
    }
}

} // verus!
