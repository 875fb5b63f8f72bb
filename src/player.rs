//! The playback controller: a playlist, a cursor into it, and what the audio
//! output was last told to hold. Each operation updates that state and returns
//! the commands that carry it out on the output and the media-control surface.
use vstd::prelude::*;

use crate::control::{
    fraction_of, offset_for_fraction, offset_position, progress, progress_of, seek_offset,
    ControlEvent, OutputCommand, PlaybackStatus, PPM, SEEK_STEP_MS,
};
use crate::m3u8::join_lines;
use crate::track::{Track, TrackView};

verus! {

/// The player as the contracts see it.
pub ghost struct PlayerModel {
    pub tracks: Seq<TrackView>,
    /// Index of the current track.
    pub cursor: Option<usize>,
    /// The output holds the current track's source, not yet played out.
    pub primed: bool,
    /// The output's play/pause flag.
    pub paused: bool,
}

impl PlayerModel {
    pub open spec fn wf(self) -> bool {
        &&& self.tracks.len() <= usize::MAX
        &&& self.cursor matches Some(i) ==> i < self.tracks.len()
        &&& self.primed ==> self.cursor is Some
    }
}

/// The cursor after a step forward: the first track when none is current,
/// unchanged at the last track, and on an empty playlist.
pub open spec fn next_cursor(m: PlayerModel) -> Option<usize> {
    if m.tracks.len() == 0 {
        m.cursor
    } else {
        match m.cursor {
            None => Some(0),
            Some(i) => if i + 1 >= m.tracks.len() {
                Some(i)
            } else {
                Some((i + 1) as usize)
            },
        }
    }
}

/// The cursor after a step back: unchanged at the first track and when none
/// is current.
pub open spec fn previous_cursor(m: PlayerModel) -> Option<usize> {
    match m.cursor {
        Some(i) => if i > 0 {
            Some((i - 1) as usize)
        } else {
            m.cursor
        },
        None => m.cursor,
    }
}

/// The cursor after a jump: the index when it lies in the playlist, else
/// unchanged.
pub open spec fn jump_cursor(m: PlayerModel, index: usize) -> Option<usize> {
    if index < m.tracks.len() {
        Some(index)
    } else {
        m.cursor
    }
}

/// The commands that replace whatever the output holds by the track at the
/// cursor, or by nothing.
pub open spec fn swap_commands(cursor: Option<usize>) -> Seq<OutputCommand> {
    match cursor {
        Some(i) => seq![
            OutputCommand::Discard,
            OutputCommand::Load(i),
            OutputCommand::PublishMetadata(i),
            OutputCommand::PublishStatus,
        ],
        None => seq![OutputCommand::Discard, OutputCommand::PublishStatus],
    }
}

/// The state after moving the cursor to `c`: a swap when it changes,
/// nothing when it does not. The play/pause flag is kept either way.
pub open spec fn move_to(m: PlayerModel, c: Option<usize>) -> PlayerModel {
    if c == m.cursor {
        m
    } else {
        PlayerModel { cursor: c, primed: c is Some, ..m }
    }
}

pub open spec fn move_commands(m: PlayerModel, c: Option<usize>) -> Seq<OutputCommand> {
    if c == m.cursor {
        seq![]
    } else {
        swap_commands(c)
    }
}

/// The state after the playlist is replaced by `tracks`: no current track,
/// an output that holds nothing, the play/pause flag kept.
pub open spec fn emptied(m: PlayerModel, tracks: Seq<TrackView>) -> PlayerModel {
    PlayerModel { tracks, cursor: None, primed: false, paused: m.paused }
}

/// The state after a track is appended; the first track of an empty playlist
/// becomes current and is loaded.
pub open spec fn added(m: PlayerModel, t: TrackView) -> PlayerModel {
    let pushed = PlayerModel { tracks: m.tracks.push(t), ..m };
    if m.tracks.len() == 0 {
        move_to(pushed, next_cursor(pushed))
    } else {
        pushed
    }
}

pub open spec fn added_commands(m: PlayerModel, t: TrackView) -> Seq<OutputCommand> {
    let pushed = PlayerModel { tracks: m.tracks.push(t), ..m };
    if m.tracks.len() == 0 {
        move_commands(pushed, next_cursor(pushed))
    } else {
        seq![]
    }
}

pub open spec fn status_of(m: PlayerModel) -> PlaybackStatus {
    if !m.primed {
        PlaybackStatus::Idle
    } else if m.paused {
        PlaybackStatus::Paused
    } else {
        PlaybackStatus::Playing
    }
}

/// The state once the output is known to be empty or not.
pub open spec fn drained(m: PlayerModel, output_empty: bool) -> PlayerModel {
    if output_empty {
        PlayerModel { primed: false, ..m }
    } else {
        m
    }
}

/// The state after a tick: when the output has run dry under a current
/// track, the next track is loaded; past the last one nothing is.
pub open spec fn ticked(m: PlayerModel, output_empty: bool) -> PlayerModel {
    let d = drained(m, output_empty);
    if output_empty && m.cursor is Some {
        move_to(d, next_cursor(d))
    } else {
        d
    }
}

pub open spec fn tick_commands(m: PlayerModel, output_empty: bool) -> Seq<OutputCommand> {
    let d = drained(m, output_empty);
    if output_empty && m.cursor is Some && next_cursor(d) != d.cursor {
        swap_commands(next_cursor(d))
    } else if output_empty && m.primed {
        seq![OutputCommand::PublishStatus]
    } else {
        seq![]
    }
}

pub open spec fn seek_commands(m: PlayerModel, position_ms: u64) -> Seq<OutputCommand> {
    if m.cursor is Some {
        seq![OutputCommand::Seek(position_ms), OutputCommand::PublishStatus]
    } else {
        seq![]
    }
}

pub open spec fn played(m: PlayerModel) -> PlayerModel {
    if m.cursor is Some {
        PlayerModel { paused: false, ..m }
    } else {
        m
    }
}

pub open spec fn play_commands(m: PlayerModel) -> Seq<OutputCommand> {
    if m.cursor is Some {
        seq![OutputCommand::Play, OutputCommand::PublishStatus]
    } else {
        seq![]
    }
}

pub open spec fn paused(m: PlayerModel) -> PlayerModel {
    PlayerModel { paused: true, ..m }
}

pub open spec fn paths_of(tracks: Seq<TrackView>) -> Seq<Seq<char>> {
    tracks.map_values(|t: TrackView| t.path)
}

/// The state and commands that an event from the media-control surface
/// leads to, the output being `position_ms` into the current track.
pub open spec fn event_outcome(m: PlayerModel, event: ControlEvent, position_ms: u64) -> (
    PlayerModel,
    Seq<OutputCommand>,
) {
    match event {
        ControlEvent::Play => (played(m), play_commands(m)),
        ControlEvent::Pause => (
            paused(m),
            seq![OutputCommand::Pause, OutputCommand::PublishStatus],
        ),
        ControlEvent::Next => (move_to(m, next_cursor(m)), move_commands(m, next_cursor(m))),
        ControlEvent::Previous => (
            move_to(m, previous_cursor(m)),
            move_commands(m, previous_cursor(m)),
        ),
        ControlEvent::SetPosition(p) => (m, seek_commands(m, p)),
        ControlEvent::Seek(dir) => (
            m,
            seek_commands(m, seek_offset(position_ms as nat, dir, SEEK_STEP_MS as nat) as u64),
        ),
        ControlEvent::SeekBy(dir, amount) => (
            m,
            seek_commands(m, seek_offset(position_ms as nat, dir, amount as nat) as u64),
        ),
    }
}

pub struct Player {
    playlist: Vec<Track>,
    playlist_index: Option<usize>,
    primed: bool,
    paused: bool,
}

impl View for Player {
    type V = PlayerModel;

    closed spec fn view(&self) -> PlayerModel {
        PlayerModel {
            tracks: self.playlist@.map_values(|t: Track| t@),
            cursor: self.playlist_index,
            primed: self.primed,
            paused: self.paused,
        }
    }
}

fn same_index(a: Option<usize>, b: Option<usize>) -> (r: bool)
    ensures
        r == (a == b),
{
    match (a, b) {
        (Some(x), Some(y)) => x == y,
        (None, None) => true,
        _ => false,
    }
}

fn swap_to(cursor: Option<usize>) -> (r: Vec<OutputCommand>)
    ensures
        r@ == swap_commands(cursor),
{
    let mut r: Vec<OutputCommand> = Vec::new();
    r.push(OutputCommand::Discard);
    if let Some(i) = cursor {
        r.push(OutputCommand::Load(i));
        r.push(OutputCommand::PublishMetadata(i));
    }
    r.push(OutputCommand::PublishStatus);
    assert(r@ =~= swap_commands(cursor));
    r
}

impl Player {
    pub open spec fn wf(&self) -> bool {
        self@.wf()
    }

    /// A player with an empty playlist, nothing current, and an output that
    /// holds nothing and is not paused.
    pub fn new() -> (r: Player)
        ensures
            r.wf(),
            r@ == (PlayerModel {
                tracks: Seq::empty(),
                cursor: None,
                primed: false,
                paused: false,
            }),
    {
        let r = Player { playlist: Vec::new(), playlist_index: None, primed: false, paused: false };
        assert(r@.tracks =~= Seq::<TrackView>::empty());
        r
    }

    /// Moves the cursor to `c`, swapping the output's source when it changes.
    fn move_cursor(&mut self, c: Option<usize>) -> (r: Vec<OutputCommand>)
        requires
            old(self).wf(),
            c matches Some(i) ==> i < old(self)@.tracks.len(),
        ensures
            final(self).wf(),
            final(self)@ == move_to(old(self)@, c),
            r@ == move_commands(old(self)@, c),
    {
        if same_index(c, self.playlist_index) {
            Vec::new()
        } else {
            self.playlist_index = c;
            self.primed = c.is_some();
            swap_to(c)
        }
    }

    fn next_index(&self) -> (r: Option<usize>)
        requires
            self.wf(),
        ensures
            r == next_cursor(self@),
    {
        if self.playlist.len() == 0 {
            self.playlist_index
        } else {
            match self.playlist_index {
                None => Some(0),
                Some(i) => if i + 1 >= self.playlist.len() {
                    Some(i)
                } else {
                    Some(i + 1)
                },
            }
        }
    }

    /// Makes the track at `index` current, when it lies in the playlist and
    /// is not current already; else does nothing.
    pub fn jump_to_track_at(&mut self, index: usize) -> (r: Vec<OutputCommand>)
        requires
            old(self).wf(),
        ensures
            final(self).wf(),
            final(self)@ == move_to(old(self)@, jump_cursor(old(self)@, index)),
            r@ == move_commands(old(self)@, jump_cursor(old(self)@, index)),
            index >= old(self)@.tracks.len() ==> final(self)@ == old(self)@ && r@.len() == 0,
    {
        let c = if index < self.playlist.len() {
            Some(index)
        } else {
            self.playlist_index
        };
        self.move_cursor(c)
    }

    /// Steps back one track; at the first track, or with none current, does
    /// nothing.
    pub fn jump_to_previous_track(&mut self) -> (r: Vec<OutputCommand>)
        requires
            old(self).wf(),
        ensures
            final(self).wf(),
            final(self)@ == move_to(old(self)@, previous_cursor(old(self)@)),
            r@ == move_commands(old(self)@, previous_cursor(old(self)@)),
            old(self)@.cursor == Some(0usize) ==> final(self)@ == old(self)@ && r@.len() == 0,
    {
        let c = match self.playlist_index {
            Some(i) => if i > 0 {
                Some(i - 1)
            } else {
                Some(i)
            },
            None => None,
        };
        self.move_cursor(c)
    }

    /// Steps forward one track, starting at the first when none is current;
    /// at the last track does nothing, with no wrap to the first.
    pub fn jump_to_next_track(&mut self) -> (r: Vec<OutputCommand>)
        requires
            old(self).wf(),
        ensures
            final(self).wf(),
            final(self)@ == move_to(old(self)@, next_cursor(old(self)@)),
            r@ == move_commands(old(self)@, next_cursor(old(self)@)),
            old(self)@.cursor matches Some(i) && i + 1 == old(self)@.tracks.len() ==> final(self)@
                == old(self)@ && r@.len() == 0,
    {
        let c = self.next_index();
        self.move_cursor(c)
    }

    /// Resumes the output; with no current track there is nothing to play
    /// and nothing changes.
    pub fn play(&mut self) -> (r: Vec<OutputCommand>)
        requires
            old(self).wf(),
        ensures
            final(self).wf(),
            final(self)@ == played(old(self)@),
            r@ == play_commands(old(self)@),
    {
        let mut r: Vec<OutputCommand> = Vec::new();
        if self.playlist_index.is_some() {
            self.paused = false;
            r.push(OutputCommand::Play);
            r.push(OutputCommand::PublishStatus);
        }
        assert(r@ =~= play_commands(old(self)@));
        r
    }

    /// Pauses the output.
    pub fn pause(&mut self) -> (r: Vec<OutputCommand>)
        requires
            old(self).wf(),
        ensures
            final(self).wf(),
            final(self)@ == paused(old(self)@),
            r@ == seq![OutputCommand::Pause, OutputCommand::PublishStatus],
    {
        self.paused = true;
        let mut r: Vec<OutputCommand> = Vec::new();
        r.push(OutputCommand::Pause);
        r.push(OutputCommand::PublishStatus);
        assert(r@ =~= seq![OutputCommand::Pause, OutputCommand::PublishStatus]);
        r
    }

    pub fn is_paused(&self) -> (r: bool)
        ensures
            r == self@.paused,
    {
        self.paused
    }

    pub fn status(&self) -> (r: PlaybackStatus)
        ensures
            r == status_of(self@),
    {
        if !self.primed {
            PlaybackStatus::Idle
        } else if self.paused {
            PlaybackStatus::Paused
        } else {
            PlaybackStatus::Playing
        }
    }

    pub fn playlist(&self) -> (r: &[Track])
        ensures
            r@.map_values(|t: Track| t@) == self@.tracks,
    {
        self.playlist.as_slice()
    }

    pub fn playlist_index(&self) -> (r: Option<usize>)
        ensures
            r == self@.cursor,
    {
        self.playlist_index
    }

    pub fn current_track(&self) -> (r: Option<&Track>)
        requires
            self.wf(),
        ensures
            match self@.cursor {
                Some(i) => r matches Some(t) && t@ == self@.tracks[i as int],
                None => r is None,
            },
    {
        match self.playlist_index {
            Some(i) => {
                assert(self@.tracks[i as int] == self.playlist@[i as int]@);
                Some(&self.playlist[i])
            },
            None => None,
        }
    }

    /// Appends a track. The first track added to an empty playlist becomes
    /// current and is loaded on the output; later ones are only recorded.
    pub fn add_to_playlist(&mut self, track: Track) -> (r: Vec<OutputCommand>)
        requires
            old(self).wf(),
        ensures
            final(self).wf(),
            final(self)@ == added(old(self)@, track@),
            r@ == added_commands(old(self)@, track@),
            old(self)@.tracks.len() == 0 ==> final(self)@.cursor == Some(0usize)
                && final(self)@.primed && r@.contains(OutputCommand::Load(0)),
    {
        let was_empty = self.playlist.len() == 0;
        let ghost t = track@;
        self.playlist.push(track);
        // A Vec's length fits in usize; reading it puts that on record.
        let _len = self.playlist.len();
        assert(self@.tracks =~= old(self)@.tracks.push(t));
        if was_empty {
            let c = self.next_index();
            let r = self.move_cursor(c);
            assert(r@[1] == OutputCommand::Load(0));
            r
        } else {
            Vec::new()
        }
    }

    /// Replaces the playlist by `tracks`, read from a playlist file. Nothing
    /// is current afterwards and the output holds nothing.
    pub fn load_m3u8_playlist(&mut self, tracks: Vec<Track>) -> (r: Vec<OutputCommand>)
        requires
            old(self).wf(),
        ensures
            final(self).wf(),
            final(self)@ == emptied(old(self)@, tracks@.map_values(|t: Track| t@)),
            r@ == swap_commands(None),
    {
        // A Vec's length fits in usize; reading it puts that on record.
        let _len = tracks.len();
        self.playlist = tracks;
        self.playlist_index = None;
        self.primed = false;
        swap_to(None)
    }

    /// The text of a playlist file that lists the playlist's paths in order.
    pub fn export_m3u8_playlist(&self) -> (r: String)
        ensures
            r@ == join_lines(paths_of(self@.tracks)),
    {
        let ghost paths = paths_of(self@.tracks);
        let mut r = String::new();
        let mut i: usize = 0;
        while i < self.playlist.len()
            invariant
                i <= self.playlist@.len(),
                paths == paths_of(self@.tracks),
                paths.len() == self.playlist@.len(),
                r@ == join_lines(paths.subrange(0, i as int)),
            decreases self.playlist@.len() - i,
        {
            let ghost before = r@;
            if i > 0 {
                proof {
                    reveal_strlit("\n");
                }
                r.append("\n");
            }
            r.append(self.playlist[i].path());
            assert(paths.subrange(0, i + 1).drop_last() =~= paths.subrange(0, i as int));
            assert(paths[i as int] == self.playlist@[i as int]@.path);
            if i == 0 {
                assert(before =~= Seq::<char>::empty());
                assert(r@ =~= paths.subrange(0, 1)[0]);
            } else {
                assert(r@ =~= before + seq!['\n'] + paths[i as int]);
            }
            i = i + 1;
        }
        assert(paths.subrange(0, i as int) =~= paths);
        r
    }

    /// Empties the playlist. Nothing is current afterwards and the output
    /// holds nothing.
    pub fn clear_playlist(&mut self) -> (r: Vec<OutputCommand>)
        requires
            old(self).wf(),
        ensures
            final(self).wf(),
            final(self)@ == emptied(old(self)@, Seq::empty()),
            final(self)@.cursor is None,
            !final(self)@.primed,
            r@ == swap_commands(None),
    {
        self.playlist = Vec::new();
        self.playlist_index = None;
        self.primed = false;
        assert(self@.tracks =~= Seq::<TrackView>::empty());
        swap_to(None)
    }

    /// Seeks to `position_ms` into the current track; with no current track
    /// does nothing.
    pub fn set_position(&mut self, position_ms: u64) -> (r: Vec<OutputCommand>)
        requires
            old(self).wf(),
        ensures
            final(self)@ == old(self)@,
            r@ == seek_commands(old(self)@, position_ms),
    {
        let mut r: Vec<OutputCommand> = Vec::new();
        if self.playlist_index.is_some() {
            r.push(OutputCommand::Seek(position_ms));
            r.push(OutputCommand::PublishStatus);
        }
        assert(r@ =~= seek_commands(old(self)@, position_ms));
        r
    }

    /// Seeks to `ppm` millionths of the way into the current track.
    pub fn set_normalized_position(&mut self, ppm: u64) -> (r: Vec<OutputCommand>)
        requires
            old(self).wf(),
            ppm <= PPM,
        ensures
            final(self)@ == old(self)@,
            match old(self)@.cursor {
                Some(i) => r@ == seek_commands(
                    old(self)@,
                    fraction_of(old(self)@.tracks[i as int].duration_ms, ppm as nat) as u64,
                ),
                None => r@.len() == 0,
            },
    {
        match self.playlist_index {
            Some(i) => {
                let target = offset_for_fraction(self.playlist[i].duration(), ppm);
                self.set_position(target)
            },
            None => Vec::new(),
        }
    }

    /// How far `position_ms` lies into the current track, in millionths; none
    /// with no current track or one of unknown (zero) length.
    pub fn normalized_position(&self, position_ms: u64) -> (r: Option<u64>)
        requires
            self.wf(),
        ensures
            match self@.cursor {
                Some(i) => if self@.tracks[i as int].duration_ms == 0 {
                    r is None
                } else {
                    r == Some(
                        progress_of(position_ms as nat, self@.tracks[i as int].duration_ms) as u64,
                    )
                },
                None => r is None,
            },
    {
        match self.playlist_index {
            Some(i) => {
                let d = self.playlist[i].duration();
                if d == 0 {
                    None
                } else {
                    Some(progress(position_ms, d))
                }
            },
            None => None,
        }
    }

    /// The periodic step. `output_empty` says whether the output has played
    /// out everything it held. When it has and a track is current, the next
    /// track is loaded; at the last track nothing is, and the player goes idle.
    pub fn tick(&mut self, output_empty: bool) -> (r: Vec<OutputCommand>)
        requires
            old(self).wf(),
        ensures
            final(self).wf(),
            final(self)@ == ticked(old(self)@, output_empty),
            r@ == tick_commands(old(self)@, output_empty),
            output_empty ==> (old(self)@.cursor matches Some(i) && i + 1 == old(self)@.tracks.len()
                ==> final(self)@.cursor == old(self)@.cursor && status_of(final(self)@)
                == PlaybackStatus::Idle),
    {
        let was_primed = self.primed;
        if output_empty {
            self.primed = false;
        }
        if output_empty && self.playlist_index.is_some() {
            let c = self.next_index();
            let r = self.move_cursor(c);
            if r.len() == 0 && was_primed {
                let mut s: Vec<OutputCommand> = Vec::new();
                s.push(OutputCommand::PublishStatus);
                assert(s@ =~= seq![OutputCommand::PublishStatus]);
                s
            } else {
                r
            }
        } else if output_empty && was_primed {
            let mut s: Vec<OutputCommand> = Vec::new();
            s.push(OutputCommand::PublishStatus);
            assert(s@ =~= seq![OutputCommand::PublishStatus]);
            s
        } else {
            Vec::new()
        }
    }

    /// Applies a command from the media-control surface, the output being
    /// `position_ms` into the current track.
    pub fn handle_event(&mut self, event: ControlEvent, position_ms: u64) -> (r: Vec<
        OutputCommand,
    >)
        requires
            old(self).wf(),
        ensures
            final(self).wf(),
            (final(self)@, r@) == event_outcome(old(self)@, event, position_ms),
    {
        match event {
            ControlEvent::Play => self.play(),
            ControlEvent::Pause => self.pause(),
            ControlEvent::Next => self.jump_to_next_track(),
            ControlEvent::Previous => self.jump_to_previous_track(),
            ControlEvent::SetPosition(p) => self.set_position(p),
            ControlEvent::Seek(dir) => {
                let p = offset_position(position_ms, dir, SEEK_STEP_MS);
                self.set_position(p)
            },
            ControlEvent::SeekBy(dir, amount) => {
                let p = offset_position(position_ms, dir, amount);
                self.set_position(p)
            },
        }
    }
}

} // verus!
