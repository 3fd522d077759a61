//! What the player knows: the library, the mode, the cursors, the keyword,
//! and the commands it hands to the audio side.

use vstd::prelude::*;
use crate::config::Config;
use crate::message::State;
use crate::track::{Audio, AudioView, tracks_view};

verus! {

/// The cursor of a list or table: the selected row, if any.
pub struct Selection {
    pub selected: Option<usize>,
}

/// The row after the selected one (saturating at `usize::MAX`), or the first row when none is selected.
pub open spec fn next_selected(s: Option<usize>) -> Option<usize> {
    match s {
        Some(i) => Some(if i == usize::MAX { i } else { (i + 1) as usize }),
        None => Some(0),
    }
}

/// The row before the selected one (saturating at 0), or the last possible row when none is selected.
pub open spec fn previous_selected(s: Option<usize>) -> Option<usize> {
    match s {
        Some(i) => Some(if i == 0 { 0 } else { (i - 1) as usize }),
        None => Some(usize::MAX),
    }
}

impl Selection {
    /// A cursor on the given row.
    pub fn with_selected(selected: Option<usize>) -> (res: Selection)
        ensures
            res.selected == selected,
    {
        Selection { selected }
    }

    /// The selected row.
    pub fn selected(&self) -> (res: Option<usize>)
        ensures
            res == self.selected,
    {
        self.selected
    }

    /// Moves to the next row.
    pub fn select_next(&mut self)
        ensures
            final(self).selected == next_selected(old(self).selected),
    {
        let next = match self.selected {
            Some(i) => if i == usize::MAX { i } else { i + 1 },
            None => 0,
        };
        self.selected = Some(next);
    }

    /// Moves to the previous row.
    pub fn select_previous(&mut self)
        ensures
            final(self).selected == previous_selected(old(self).selected),
    {
        let previous = match self.selected {
            Some(i) => if i == 0 { 0 } else { i - 1 },
            None => usize::MAX,
        };
        self.selected = Some(previous);
    }
}

/// The orders the library can be played in.
#[derive(PartialEq, Eq, Structural, Debug, Clone, Copy)]
pub enum Order {
    Shuffle,
    Album,
    Artist,
    Track,
}

/// The order chosen by a row of the playback-order menu; rows past the last mean shuffle.
pub open spec fn order_for_index(index: usize) -> Order {
    if index == 0 {
        Order::Shuffle
    } else if index == 1 {
        Order::Album
    } else if index == 2 {
        Order::Artist
    } else if index == 3 {
        Order::Track
    } else {
        Order::Shuffle
    }
}

/// The order chosen by a row of the playback-order menu.
pub fn order_at(index: usize) -> (res: Order)
    ensures
        res == order_for_index(index),
{
    if index == 0 {
        Order::Shuffle
    } else if index == 1 {
        Order::Album
    } else if index == 2 {
        Order::Artist
    } else if index == 3 {
        Order::Track
    } else {
        Order::Shuffle
    }
}

/// Requests to the audio side.
#[derive(Debug)]
pub enum Command {
    /// Pause the sink if it plays, resume it if it is paused.
    PlayPause,
    /// Play the file at this path in place of what is playing.
    New(Vec<u8>),
    /// Seek forward by the first number of seconds, in a track of the second number of seconds.
    Forward(usize, usize),
    /// Seek backward by this many seconds.
    Backward(usize),
    /// Raise the volume by one step.
    VolumeUp,
    /// Lower the volume by one step.
    VolumeDown,
}

/// The plain values of a command.
pub enum CommandView {
    PlayPause,
    New(Seq<u8>),
    Forward(usize, usize),
    Backward(usize),
    VolumeUp,
    VolumeDown,
}

impl View for Command {
    type V = CommandView;

    open spec fn view(&self) -> CommandView {
        match self {
            Command::PlayPause => CommandView::PlayPause,
            Command::New(p) => CommandView::New(p@),
            Command::Forward(a, b) => CommandView::Forward(*a, *b),
            Command::Backward(a) => CommandView::Backward(*a),
            Command::VolumeUp => CommandView::VolumeUp,
            Command::VolumeDown => CommandView::VolumeDown,
        }
    }
}

/// What the caller has to do after a step of the player.
#[derive(Debug)]
pub enum Effect {
    /// Nothing.
    Nothing,
    /// Send the command to the audio side.
    Send(Command),
    /// End the program with this exit code.
    Exit(i32),
    /// Put the library in this order, then hand the new index of the playing track to `apply_reorder`.
    Reorder(Order),
}

/// The plain values of an effect.
pub enum EffectView {
    Nothing,
    Send(CommandView),
    Exit(i32),
    Reorder(Order),
}

impl View for Effect {
    type V = EffectView;

    open spec fn view(&self) -> EffectView {
        match self {
            Effect::Nothing => EffectView::Nothing,
            Effect::Send(c) => EffectView::Send(c@),
            Effect::Exit(code) => EffectView::Exit(*code),
            Effect::Reorder(o) => EffectView::Reorder(*o),
        }
    }
}

/// Whether the volume may still go up and down (the volume itself is a
/// fraction that the audio side keeps).
#[derive(Debug, Clone, Copy)]
pub struct VolumeRoom {
    pub can_raise: bool,
    pub can_lower: bool,
}

/// The player's whole state.
pub struct PlayerModel {
    pub state: State,
    pub tracks: Vec<Audio>,
    /// The number of tracks the library was loaded with.
    pub number_of_tracks: usize,
    /// The track last sent to the audio side.
    pub current_track_index: Option<usize>,
    /// The cursor in the library table.
    pub table_state: Selection,
    /// The cursor in the playback-order menu.
    pub order_list_state: Selection,
    /// The cursor in the search results.
    pub search_list_state: Selection,
    /// The position of the library's scroll bar (whose length is `number_of_tracks`).
    pub scrollbar_position: usize,
    pub keyword: String,
    /// The indices of the tracks that match the keyword.
    pub matched_tracks: Vec<usize>,
    /// Frames spent in the volume mode since the last volume key.
    pub iteration_count: usize,
    pub playback_order: Order,
    pub seek_distance: usize,
}

/// The plain values of the player's state.
#[verifier::ext_equal]
pub struct ModelView {
    pub state: State,
    pub tracks: Seq<AudioView>,
    pub number_of_tracks: usize,
    pub current_track_index: Option<usize>,
    pub table_selected: Option<usize>,
    pub order_selected: Option<usize>,
    pub search_selected: Option<usize>,
    pub scrollbar_position: usize,
    pub keyword: Seq<char>,
    pub matched_tracks: Seq<usize>,
    pub iteration_count: usize,
    pub playback_order: Order,
    pub seek_distance: usize,
}

impl View for PlayerModel {
    type V = ModelView;

    open spec fn view(&self) -> ModelView {
        ModelView {
            state: self.state,
            tracks: tracks_view(self.tracks@),
            number_of_tracks: self.number_of_tracks,
            current_track_index: self.current_track_index,
            table_selected: self.table_state.selected,
            order_selected: self.order_list_state.selected,
            search_selected: self.search_list_state.selected,
            scrollbar_position: self.scrollbar_position,
            keyword: self.keyword@,
            matched_tracks: self.matched_tracks@,
            iteration_count: self.iteration_count,
            playback_order: self.playback_order,
            seek_distance: self.seek_distance,
        }
    }
}

/// How many frames the volume mode lasts without a volume key.
pub const ADJUST_FRAMES: usize = 41;

/// What every state of the player keeps: it has tracks, and the volume mode
/// has not yet run out.
pub open spec fn well_formed(m: ModelView) -> bool {
    &&& m.number_of_tracks >= 1
    &&& m.iteration_count < ADJUST_FRAMES
}

/// The state a player starts in, on the given library and settings.
pub open spec fn initial_model(tracks: Seq<AudioView>, seek_distance: usize) -> ModelView {
    ModelView {
        state: State::Playing,
        tracks,
        number_of_tracks: tracks.len() as usize,
        current_track_index: None,
        table_selected: Some(0),
        order_selected: Some(0),
        search_selected: Some(0),
        scrollbar_position: 0,
        keyword: seq![],
        matched_tracks: seq![],
        iteration_count: 0,
        playback_order: Order::Artist,
        seek_distance,
    }
}

impl PlayerModel {
    /// A player on the given library, playing nothing, every cursor on the
    /// first row; `None` when the library is empty (there is nothing to play).
    /// The tracks keep the order they are given in, while the playback order
    /// reads Artist: putting the library in that order is left to the caller.
    pub fn create(config: &Config, tracks: Vec<Audio>) -> (res: Option<PlayerModel>)
        ensures
            tracks@.len() == 0 <==> res is None,
            res matches Some(m) ==> m@ == initial_model(tracks_view(tracks@), config.seek_distance),
            res matches Some(m) ==> well_formed(m@),
    {
        let number_of_tracks = tracks.len();
        if number_of_tracks == 0 {
            return None;
        }
        let keyword = String::new();
        let m = PlayerModel {
            state: State::Playing,
            tracks,
            number_of_tracks,
            current_track_index: None,
            table_state: Selection::with_selected(Some(0)),
            order_list_state: Selection::with_selected(Some(0)),
            search_list_state: Selection::with_selected(Some(0)),
            scrollbar_position: 0,
            keyword,
            matched_tracks: Vec::new(),
            iteration_count: 0,
            playback_order: Order::Artist,
            seek_distance: config.seek_distance,
        };
        assert(m@ =~= initial_model(tracks_view(m.tracks@), config.seek_distance));
        Some(m)
    }
}

} // verus!
