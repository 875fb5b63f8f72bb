//! What the player asks of the audio output and the media-control surface,
//! and the commands that surface sends in.
use vstd::prelude::*;

verus! {

/// One step of work for whoever drives the audio output and the OS
/// media-control surface. Indices are positions in the playlist.
#[derive(Clone, Copy, Debug, PartialEq, Eq, Structural)]
pub enum OutputCommand {
    /// Resume the output.
    Play,
    /// Pause the output.
    Pause,
    /// Drop the source the output holds, if any, keeping its play/pause flag.
    Discard,
    /// Decode the track at this index and queue it on the output.
    Load(usize),
    /// Seek the output to this many milliseconds into the current source;
    /// a failed seek is ignored.
    Seek(u64),
    /// Report the tags and length of the track at this index.
    PublishMetadata(usize),
    /// Report the current playback status and position.
    PublishStatus,
}

#[derive(Clone, Copy, Debug, PartialEq, Eq, Structural)]
pub enum SeekDirection {
    Forward,
    Backward,
}

/// A command from the OS media-control surface.
#[derive(Clone, Copy, Debug, PartialEq, Eq, Structural)]
pub enum ControlEvent {
    Play,
    Pause,
    Next,
    Previous,
    /// Seek to this many milliseconds.
    SetPosition(u64),
    /// Seek by the default step.
    Seek(SeekDirection),
    /// Seek by this many milliseconds.
    SeekBy(SeekDirection, u64),
}

/// What the player is doing, as reported to the media-control surface.
#[derive(Clone, Copy, Debug, PartialEq, Eq, Structural)]
pub enum PlaybackStatus {
    /// No current track, or the output holds nothing to play.
    Idle,
    Playing,
    Paused,
}

/// How far a step seek moves, in milliseconds.
pub const SEEK_STEP_MS: u64 = 10000;

/// The position reached by moving `amount` from `position` in `direction`,
/// held between zero and the largest `u64`.
pub open spec fn seek_offset(position: nat, direction: SeekDirection, amount: nat) -> nat {
    match direction {
        SeekDirection::Forward => if position + amount > u64::MAX {
            u64::MAX as nat
        } else {
            position + amount
        },
        SeekDirection::Backward => if amount > position {
            0
        } else {
            (position - amount) as nat
        },
    }
}

pub fn offset_position(position: u64, direction: SeekDirection, amount: u64) -> (r: u64)
    ensures
        r as nat == seek_offset(position as nat, direction, amount as nat),
{
    match direction {
        SeekDirection::Forward => if position > u64::MAX - amount {
            u64::MAX
        } else {
            position + amount
        },
        SeekDirection::Backward => if amount > position {
            0
        } else {
            position - amount
        },
    }
}

/// Parts per million that stand for the whole of a track.
pub const PPM: u64 = 1000000;

/// The offset that lies `ppm` millionths of the way into a track of
/// `duration_ms` milliseconds, rounded down.
pub open spec fn fraction_of(duration_ms: nat, ppm: nat) -> nat {
    duration_ms * ppm / (PPM as nat)
}

pub fn offset_for_fraction(duration_ms: u64, ppm: u64) -> (r: u64)
    requires
        ppm <= PPM,
    ensures
        r as nat == fraction_of(duration_ms as nat, ppm as nat),
        r <= duration_ms,
{
    let d = duration_ms as u128;
    let p = ppm as u128;
    assert(d * p <= d * 1000000) by (nonlinear_arith)
        requires
            p <= 1000000,
            d >= 0,
    ;
    assert(d * p / 1000000 <= d) by (nonlinear_arith)
        requires
            d * p <= d * 1000000,
    ;
    let r = (d * p / 1000000u128) as u64;
    r
}

/// How far `position_ms` lies into a track of `duration_ms`, in millionths,
/// at most one whole.
pub open spec fn progress_of(position_ms: nat, duration_ms: nat) -> nat {
    if duration_ms == 0 {
        0
    } else if position_ms * (PPM as nat) / duration_ms > PPM as nat {
        PPM as nat
    } else {
        position_ms * (PPM as nat) / duration_ms
    }
}

pub fn progress(position_ms: u64, duration_ms: u64) -> (r: u64)
    requires
        duration_ms > 0,
    ensures
        r as nat == progress_of(position_ms as nat, duration_ms as nat),
        r <= PPM,
{
    let q = (position_ms as u128) * 1000000u128 / (duration_ms as u128);
    if q > 1000000u128 {
        PPM
    } else {
        q as u64
    }
}

} // verus!
