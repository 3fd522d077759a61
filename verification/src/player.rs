//! The audio side's decisions: how a command becomes operations on the sink,
//! and what it reports about the sink after each of its rounds.

use vstd::prelude::*;

verus! {

/// Operations on the audio sink.
#[derive(Debug)]
pub enum SinkOp {
    Play,
    Pause,
    Stop,
    SkipOne,
    /// Decode the file at this path and queue it.
    Append(Vec<u8>),
}

/// The plain values of a sink operation.
pub enum SinkOpView {
    Play,
    Pause,
    Stop,
    SkipOne,
    Append(Seq<u8>),
}

impl View for SinkOp {
    type V = SinkOpView;

    open spec fn view(&self) -> SinkOpView {
        match self {
            SinkOp::Play => SinkOpView::Play,
            SinkOp::Pause => SinkOpView::Pause,
            SinkOp::Stop => SinkOpView::Stop,
            SinkOp::SkipOne => SinkOpView::SkipOne,
            SinkOp::Append(p) => SinkOpView::Append(p@),
        }
    }
}

/// The views of a sequence of sink operations.
pub open spec fn ops_view(ops: Seq<SinkOp>) -> Seq<SinkOpView> {
    ops.map_values(|o: SinkOp| o@)
}

/// Play/pause: a paused sink resumes, any other is paused.
pub open spec fn play_pause_spec(is_paused: bool) -> SinkOpView {
    if is_paused { SinkOpView::Play } else { SinkOpView::Pause }
}

/// A new song: on a paused sink it is queued, what was there skipped, and
/// playback resumed; otherwise the sink is cleared and the song queued.
pub open spec fn new_song_spec(path: Seq<u8>, is_paused: bool) -> Seq<SinkOpView> {
    if is_paused {
        seq![SinkOpView::Append(path), SinkOpView::SkipOne, SinkOpView::Play]
    } else {
        seq![SinkOpView::Stop, SinkOpView::Append(path)]
    }
}

/// The operation that toggles playback.
pub fn play_pause(is_paused: bool) -> (res: SinkOp)
    ensures
        res@ == play_pause_spec(is_paused),
{
    if is_paused { SinkOp::Play } else { SinkOp::Pause }
}

/// The operations that start a new song.
pub fn new_song(path: Vec<u8>, is_paused: bool) -> (res: Vec<SinkOp>)
    ensures
        ops_view(res@) == new_song_spec(path@, is_paused),
{
    let mut ops: Vec<SinkOp> = Vec::new();
    if is_paused {
        ops.push(SinkOp::Append(path));
        ops.push(SinkOp::SkipOne);
        ops.push(SinkOp::Play);
    } else {
        ops.push(SinkOp::Stop);
        ops.push(SinkOp::Append(path));
    }
    assert(ops_view(ops@) =~= new_song_spec(path@, is_paused));
    ops
}

/// What the audio side reports after a round.
#[derive(Debug, Clone, Copy)]
pub struct SinkStatus {
    pub que_len: usize,
    pub is_paused: bool,
    pub is_empty: bool,
    /// The sink has sound queued and is not paused.
    pub is_playing: bool,
    /// The sink was playing in the previous round and has now run empty.
    pub current_track_finished: bool,
}

/// The report of a round: the sink plays when it has sound and is not paused,
/// and its track has finished when it played in the previous round and is now empty.
pub open spec fn sink_status_spec(que_len: usize, is_paused: bool, is_empty: bool, was_playing: bool) -> SinkStatus {
    SinkStatus {
        que_len,
        is_paused,
        is_empty,
        is_playing: !is_empty && !is_paused,
        current_track_finished: was_playing && is_empty,
    }
}

/// The report of a round, from what the sink shows and whether it played in the
/// previous round. (The finished flag is cleared after every report, so it
/// holds for exactly the round in which the sink ran empty.)
pub fn sink_status(que_len: usize, is_paused: bool, is_empty: bool, was_playing: bool) -> (res: SinkStatus)
    ensures
        res == sink_status_spec(que_len, is_paused, is_empty, was_playing),
{
    SinkStatus {
        que_len,
        is_paused,
        is_empty,
        is_playing: !is_empty && !is_paused,
        current_track_finished: was_playing && is_empty,
    }
}

/// The reports of the audio side's rounds `0..=k`, given what the sink showed in
/// each round as (queue length, paused, empty); nothing played before round 0.
pub open spec fn round_report(shown: Seq<(usize, bool, bool)>, k: nat) -> SinkStatus
    decreases k,
{
    let was_playing = if k == 0 { false } else { round_report(shown, (k - 1) as nat).is_playing };
    sink_status_spec(shown[k as int].0, shown[k as int].1, shown[k as int].2, was_playing)
}

/// The end of a track is a one-round signal: it is reported only in a round
/// after one in which the sink played, when the sink is empty, and never in two
/// rounds running.
pub proof fn law_track_finished_is_one_round(shown: Seq<(usize, bool, bool)>, k: nat)
    requires
        k < shown.len(),
        round_report(shown, k).current_track_finished,
    ensures
        k >= 1,
        round_report(shown, (k - 1) as nat).is_playing,
        round_report(shown, k).is_empty,
        !round_report(shown, k).is_playing,
        k + 1 < shown.len() ==> !round_report(shown, k + 1).current_track_finished,
{
}

/// The paused flag of the sink after an operation, as rodio's `Sink::play` and
/// `Sink::pause` set it (the other operations leave it).
pub open spec fn paused_after(op: SinkOpView, is_paused: bool) -> bool {
    match op {
        SinkOpView::Play => false,
        SinkOpView::Pause => true,
        _ => is_paused,
    }
}

/// Play/pause flips the sink's paused flag, and a second play/pause restores it.
pub proof fn law_play_pause_twice_restores(is_paused: bool)
    ensures
        paused_after(play_pause_spec(is_paused), is_paused) == !is_paused,
        paused_after(
            play_pause_spec(paused_after(play_pause_spec(is_paused), is_paused)),
            paused_after(play_pause_spec(is_paused), is_paused),
        ) == is_paused,
{
}

} // verus!
