use vstd::prelude::*;

verus! {

/// What a track is, as the contracts see it: its path, its optional tags and
/// its total length in milliseconds.
pub ghost struct TrackView {
    pub path: Seq<char>,
    pub title: Option<Seq<char>>,
    pub album: Option<Seq<char>>,
    pub artist: Option<Seq<char>>,
    pub lyrics: Option<Seq<char>>,
    pub duration_ms: nat,
}

/// One playable item. Immutable once built.
#[derive(Debug)]
pub struct Track {
    path: String,
    title: Option<String>,
    album: Option<String>,
    artist: Option<String>,
    lyrics: Option<String>,
    duration_ms: u64,
}

pub open spec fn opt_view(o: Option<String>) -> Option<Seq<char>> {
    match o {
        Some(s) => Some(s@),
        None => None,
    }
}

pub open spec fn opt_str_view(o: Option<&str>) -> Option<Seq<char>> {
    match o {
        Some(s) => Some(s@),
        None => None,
    }
}

fn opt_as_str(o: &Option<String>) -> (r: Option<&str>)
    ensures
        opt_str_view(r) == opt_view(*o),
{
    match o {
        Some(s) => Some(s.as_str()),
        None => None,
    }
}

/// The tags a track's metadata may carry that the player reads.
#[derive(Clone, Copy, Debug, PartialEq, Eq, Structural)]
pub enum TagKey {
    Title,
    Album,
    Artist,
    Lyrics,
    /// Any tag the player does not read.
    Other,
}

pub open spec fn tags_view(tags: Seq<(TagKey, String)>) -> Seq<(TagKey, Seq<char>)> {
    tags.map_values(|t: (TagKey, String)| (t.0, t.1@))
}

/// The value of the first tag under `key`, if any.
pub open spec fn first_tag(tags: Seq<(TagKey, Seq<char>)>, key: TagKey) -> Option<Seq<char>>
    decreases tags.len(),
{
    if tags.len() == 0 {
        None
    } else if tags[0].0 == key {
        Some(tags[0].1)
    } else {
        first_tag(tags.drop_first(), key)
    }
}

/// The value of the first tag under `key`, if any.
pub fn find_tag(tags: &Vec<(TagKey, String)>, key: TagKey) -> (r: Option<String>)
    ensures
        opt_view(r) == first_tag(tags_view(tags@), key),
{
    let ghost all = tags_view(tags@);
    let mut i: usize = 0;
    assert(all.subrange(0, all.len() as int) =~= all);
    while i < tags.len()
        invariant
            i <= tags@.len(),
            all == tags_view(tags@),
            all.len() == tags@.len(),
            first_tag(all, key) == first_tag(all.subrange(i as int, all.len() as int), key),
        decreases tags@.len() - i,
    {
        let ghost rest = all.subrange(i as int, all.len() as int);
        assert(rest.drop_first() =~= all.subrange(i + 1, all.len() as int));
        assert(rest[0] == all[i as int]);
        if tags[i].0 == key {
            return Some(tags[i].1.clone());
        }
        i = i + 1;
    }
    assert(all.subrange(i as int, all.len() as int) =~= Seq::<(TagKey, Seq<char>)>::empty());
    None
}

/// The track at `path`, of `duration_ms` milliseconds, that carries `tags`.
pub open spec fn track_of(path: Seq<char>, tags: Seq<(TagKey, Seq<char>)>, duration_ms: nat) -> TrackView {
    TrackView {
        path,
        title: first_tag(tags, TagKey::Title),
        album: first_tag(tags, TagKey::Album),
        artist: first_tag(tags, TagKey::Artist),
        lyrics: first_tag(tags, TagKey::Lyrics),
        duration_ms,
    }
}

impl View for Track {
    type V = TrackView;

    closed spec fn view(&self) -> TrackView {
        TrackView {
            path: self.path@,
            title: opt_view(self.title),
            album: opt_view(self.album),
            artist: opt_view(self.artist),
            lyrics: opt_view(self.lyrics),
            duration_ms: self.duration_ms as nat,
        }
    }
}

impl Track {
    /// Builds a track from its path, the tags that were found for it and its
    /// total length in milliseconds.
    pub fn new(
        path: String,
        title: Option<String>,
        album: Option<String>,
        artist: Option<String>,
        lyrics: Option<String>,
        duration_ms: u64,
    ) -> (r: Track)
        ensures
            r@ == (TrackView {
                path: path@,
                title: opt_view(title),
                album: opt_view(album),
                artist: opt_view(artist),
                lyrics: opt_view(lyrics),
                duration_ms: duration_ms as nat,
            }),
    {
        Track { path, title, album, artist, lyrics, duration_ms }
    }

    /// Builds a track from its path, its metadata tags, the first of each
    /// kind counting, and its total length in milliseconds.
    pub fn from_tags(path: String, tags: &Vec<(TagKey, String)>, duration_ms: u64) -> (r: Track)
        ensures
            r@ == track_of(path@, tags_view(tags@), duration_ms as nat),
    {
        Track {
            path,
            title: find_tag(tags, TagKey::Title),
            album: find_tag(tags, TagKey::Album),
            artist: find_tag(tags, TagKey::Artist),
            lyrics: find_tag(tags, TagKey::Lyrics),
            duration_ms,
        }
    }

    pub fn path(&self) -> (r: &str)
        ensures
            r@ == self@.path,
    {
        self.path.as_str()
    }

    pub fn title(&self) -> (r: Option<&str>)
        ensures
            opt_str_view(r) == self@.title,
    {
        opt_as_str(&self.title)
    }

    pub fn album(&self) -> (r: Option<&str>)
        ensures
            opt_str_view(r) == self@.album,
    {
        opt_as_str(&self.album)
    }

    pub fn artist(&self) -> (r: Option<&str>)
        ensures
            opt_str_view(r) == self@.artist,
    {
        opt_as_str(&self.artist)
    }

    pub fn lyrics(&self) -> (r: Option<&str>)
        ensures
            opt_str_view(r) == self@.lyrics,
    {
        opt_as_str(&self.lyrics)
    }

    /// Total length in milliseconds.
    pub fn duration(&self) -> (r: u64)
        ensures
            r as nat == self@.duration_ms,
    {
        self.duration_ms
    }
}

} // verus!
