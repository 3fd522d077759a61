//! The player's state machine: what each message does in each mode, and the
//! steps of the main loop (a key, a finished track, a frame of the volume mode).

use vstd::prelude::*;
use crate::fuzzy_search::{search, search_spec};
use crate::message::{
    KeyCode, Message, State, from_config, from_playback, from_search, from_volume, key_message,
};
use crate::model::{
    Command, CommandView, Effect, EffectView, ModelView, Order, PlayerModel, VolumeRoom, next_selected,
    ADJUST_FRAMES, order_at, order_for_index, previous_selected, well_formed,
};
use crate::text::{pop_char, push_char};
use crate::track::{Audio, AudioView, tracks_view};

verus! {

/// Tab's effect on the mode: playing and configuring trade places; other modes stay.
pub open spec fn toggled(s: State) -> State {
    match s {
        State::Playing => State::Configuring,
        State::Configuring => State::Playing,
        other => other,
    }
}

/// Goes to the given mode, or toggles between playing and configuring.
pub open spec fn swap_to(m: ModelView, target: Option<State>) -> ModelView {
    match target {
        Some(s) => ModelView { state: s, ..m },
        None => ModelView { state: toggled(m.state), ..m },
    }
}

/// The tracks, with the playing mark of track `i` set to `b`.
pub open spec fn set_playing(tracks: Seq<AudioView>, i: int, b: bool) -> Seq<AudioView> {
    tracks.update(i, AudioView { is_playing: b, ..tracks[i] })
}

/// The track after `i` in a library of `n`, wrapping to the first.
pub open spec fn next_index(i: usize, n: usize) -> usize {
    ((i + 1) % (n as int)) as usize
}

/// The track before `i` in a library of `n`, wrapping to the last.
pub open spec fn previous_index(i: usize, n: usize) -> usize {
    ((i + n - 1) % (n as int)) as usize
}

/// Starts track `i`: it becomes the current track, is marked playing, and its
/// file is sent to the audio side.
pub open spec fn play_new_track_spec(m: ModelView, i: usize) -> (ModelView, EffectView) {
    (
        ModelView { current_track_index: Some(i), tracks: set_playing(m.tracks, i as int, true), ..m },
        EffectView::Send(CommandView::New(m.tracks[i as int].path)),
    )
}

/// The current track `c` stops being marked, and track `i` starts.
pub open spec fn switch_track_spec(m: ModelView, c: usize, i: usize) -> (ModelView, EffectView) {
    play_new_track_spec(ModelView { tracks: set_playing(m.tracks, c as int, false), ..m }, i)
}

/// What a message does while playing.
pub open spec fn playback_step(m: ModelView, msg: Message) -> (ModelView, EffectView) {
    let n = m.number_of_tracks;
    match msg {
        Message::SwapTo(t) => (swap_to(m, t), EffectView::Nothing),
        Message::Escape => (m, EffectView::Exit(0)),
        Message::PlayPause => (m, EffectView::Send(CommandView::PlayPause)),
        Message::AppendTrack => match m.table_selected {
            Some(i) => match m.current_track_index {
                Some(c) => if i == c {
                    (m, EffectView::Send(CommandView::PlayPause))
                } else {
                    switch_track_spec(m, c, i)
                },
                None => play_new_track_spec(m, i),
            },
            None => (m, EffectView::Nothing),
        },
        Message::Delete => match m.table_selected {
            Some(i) => (ModelView { tracks: m.tracks.remove(i as int), ..m }, EffectView::Nothing),
            None => (m, EffectView::Nothing),
        },
        Message::Down => match m.table_selected {
            Some(s) => if s < n - 1 {
                (
                    ModelView { table_selected: next_selected(Some(s)), scrollbar_position: s, ..m },
                    EffectView::Nothing,
                )
            } else {
                (m, EffectView::Nothing)
            },
            None => (m, EffectView::Nothing),
        },
        Message::Up => {
            let t = previous_selected(m.table_selected);
            (ModelView { table_selected: t, scrollbar_position: t->0, ..m }, EffectView::Nothing)
        },
        Message::Previous => match m.current_track_index {
            Some(i) => switch_track_spec(m, i, previous_index(i, n)),
            None => (m, EffectView::Nothing),
        },
        Message::Next => match m.current_track_index {
            Some(i) => switch_track_spec(m, i, next_index(i, n)),
            None => (m, EffectView::Nothing),
        },
        Message::SeekBack => (m, EffectView::Send(CommandView::Backward(m.seek_distance))),
        Message::SeekForward => match m.current_track_index {
            Some(i) => (
                m,
                EffectView::Send(CommandView::Forward(m.seek_distance, m.tracks[i as int].length as usize)),
            ),
            None => (m, EffectView::Nothing),
        },
        _ => (m, EffectView::Nothing),
    }
}

/// The messages that can be handled while playing without an index going out
/// of the library or an overflow.
pub open spec fn playback_ok(m: ModelView, msg: Message) -> bool {
    let n = m.number_of_tracks;
    let len = m.tracks.len();
    match msg {
        Message::AppendTrack => match m.table_selected {
            Some(i) => match m.current_track_index {
                Some(c) => i == c || (c < len && i < len),
                None => i < len,
            },
            None => true,
        },
        Message::Delete => match m.table_selected {
            Some(i) => i < len,
            None => true,
        },
        Message::Previous => match m.current_track_index {
            Some(i) => n >= 1 && i < len && i + n - 1 <= usize::MAX && previous_index(i, n) < len,
            None => true,
        },
        Message::Next => match m.current_track_index {
            Some(i) => n >= 1 && i < len && next_index(i, n) < len,
            None => true,
        },
        Message::SeekForward => match m.current_track_index {
            Some(i) => i < len,
            None => true,
        },
        _ => true,
    }
}

/// What a message does in the playback-order menu.
pub open spec fn config_step(m: ModelView, msg: Message) -> (ModelView, EffectView) {
    match msg {
        Message::Escape => (ModelView { state: State::Playing, ..m }, EffectView::Nothing),
        Message::SwapTo(t) => (swap_to(m, t), EffectView::Nothing),
        Message::Down => match m.order_selected {
            Some(s) => if s < 3 {
                (ModelView { order_selected: next_selected(Some(s)), ..m }, EffectView::Nothing)
            } else {
                (m, EffectView::Nothing)
            },
            None => (m, EffectView::Nothing),
        },
        Message::Up => (ModelView { order_selected: previous_selected(m.order_selected), ..m }, EffectView::Nothing),
        Message::Submit => match m.order_selected {
            Some(i) => (m, EffectView::Reorder(order_for_index(i))),
            None => (m, EffectView::Nothing),
        },
        _ => (m, EffectView::Nothing),
    }
}

/// The keyword after Backspace: its last character removed, if it has one.
pub open spec fn keyword_without_last(k: Seq<char>) -> Seq<char> {
    if k.len() == 0 {
        k
    } else {
        k.drop_last()
    }
}

/// What a message does while searching.
pub open spec fn search_step(m: ModelView, msg: Message) -> ModelView {
    match msg {
        Message::AppendKeyword(c) => {
            let k = m.keyword.push(c);
            ModelView { keyword: k, matched_tracks: search_spec(m.tracks, k), ..m }
        },
        Message::RemoveKeyword => {
            let k = keyword_without_last(m.keyword);
            ModelView { keyword: k, matched_tracks: search_spec(m.tracks, k), ..m }
        },
        Message::Down => match m.search_selected {
            Some(s) => if s < m.matched_tracks.len() {
                ModelView { search_selected: next_selected(Some(s)), ..m }
            } else {
                m
            },
            None => m,
        },
        Message::Up => ModelView { search_selected: previous_selected(m.search_selected), ..m },
        Message::Escape => ModelView { state: State::Playing, ..m },
        Message::Submit => ModelView { state: State::Playing, ..m },
        _ => m,
    }
}

/// What a message does while the volume is shown: a volume key restarts the
/// mode's countdown and asks for a step, where the volume has room for it.
pub open spec fn volume_step(m: ModelView, msg: Message, room: VolumeRoom) -> (ModelView, EffectView) {
    match msg {
        Message::Up => (
            ModelView { iteration_count: 0, ..m },
            if room.can_raise { EffectView::Send(CommandView::VolumeUp) } else { EffectView::Nothing },
        ),
        Message::Down => (
            ModelView { iteration_count: 0, ..m },
            if room.can_lower { EffectView::Send(CommandView::VolumeDown) } else { EffectView::Nothing },
        ),
        _ => (m, EffectView::Nothing),
    }
}

/// What a message does in the current mode.
pub open spec fn update_step(m: ModelView, msg: Message, room: VolumeRoom) -> (ModelView, EffectView) {
    match m.state {
        State::Searching => (search_step(m, msg), EffectView::Nothing),
        State::Configuring => config_step(m, msg),
        State::Playing => playback_step(m, msg),
        State::Adjusting => volume_step(m, msg, room),
    }
}

/// The messages that can be handled in the current mode without a panic.
pub open spec fn update_ok(m: ModelView, msg: Message) -> bool {
    m.state == State::Playing ==> playback_ok(m, msg)
}

/// Sets the playing mark of track `i`.
fn set_playing_exec(tracks: &mut Vec<Audio>, i: usize, b: bool)
    requires
        i < old(tracks)@.len(),
    ensures
        final(tracks)@.len() == old(tracks)@.len(),
        tracks_view(final(tracks)@) == set_playing(tracks_view(old(tracks)@), i as int, b),
{
    let ghost before = tracks@;
    let mut t = tracks.remove(i);
    t.is_playing = b;
    tracks.insert(i, t);
    assert(tracks@ =~= before.update(i as int, t));
    assert(tracks_view(tracks@) =~= set_playing(tracks_view(before), i as int, b));
}

/// Starts track `index`: it becomes the current track, is marked playing, and
/// its file goes to the audio side.
pub fn play_new_track(index: usize, model: &mut PlayerModel) -> (res: Effect)
    requires
        index < old(model).tracks@.len(),
    ensures
        (final(model)@, res@) == play_new_track_spec(old(model)@, index),
{
    model.current_track_index = Some(index);
    set_playing_exec(&mut model.tracks, index, true);
    assert(tracks_view(model.tracks@)[index as int] == model.tracks@[index as int]@);
    let path = model.tracks[index].path.clone();
    assert(path@ =~= old(model)@.tracks[index as int].path);
    Effect::Send(Command::New(path))
}

/// Stops marking track `current` and starts track `index`.
fn switch_track(current: usize, index: usize, model: &mut PlayerModel) -> (res: Effect)
    requires
        current < old(model).tracks@.len(),
        index < old(model).tracks@.len(),
    ensures
        (final(model)@, res@) == switch_track_spec(old(model)@, current, index),
{
    set_playing_exec(&mut model.tracks, current, false);
    play_new_track(index, model)
}

/// Goes to the given mode, or toggles between playing and configuring.
fn swap_state(target: Option<State>, model: &mut PlayerModel)
    ensures
        final(model)@ == swap_to(old(model)@, target),
{
    match target {
        Some(s) => model.state = s,
        None => {
            if model.state == State::Playing {
                model.state = State::Configuring;
            } else if model.state == State::Configuring {
                model.state = State::Playing;
            }
        },
    }
}

/// Handles a message while playing.
pub fn in_playback(message: &Message, model: &mut PlayerModel) -> (res: Effect)
    requires
        well_formed(old(model)@),
        playback_ok(old(model)@, *message),
    ensures
        (final(model)@, res@) == playback_step(old(model)@, *message),
{
    let n = model.number_of_tracks;
    match message {
        Message::SwapTo(target) => {
            swap_state(*target, model);
            Effect::Nothing
        },
        Message::Escape => Effect::Exit(0),
        Message::PlayPause => Effect::Send(Command::PlayPause),
        Message::AppendTrack => {
            match model.table_state.selected() {
                Some(index) => match model.current_track_index {
                    Some(current_index) => {
                        if index == current_index {
                            Effect::Send(Command::PlayPause)
                        } else {
                            switch_track(current_index, index, model)
                        }
                    },
                    None => play_new_track(index, model),
                },
                None => Effect::Nothing,
            }
        },
        Message::Delete => {
            if let Some(index) = model.table_state.selected() {
                let ghost before = model.tracks@;
                model.tracks.remove(index);
                assert(tracks_view(model.tracks@) =~= tracks_view(before).remove(index as int));
            }
            Effect::Nothing
        },
        Message::Down => {
            if let Some(selected_index) = model.table_state.selected() {
                if selected_index < n - 1 {
                    model.table_state.select_next();
                    model.scrollbar_position = selected_index;
                }
            }
            Effect::Nothing
        },
        Message::Up => {
            model.table_state.select_previous();
            if let Some(selected_index) = model.table_state.selected() {
                model.scrollbar_position = selected_index;
            }
            Effect::Nothing
        },
        Message::Previous => {
            match model.current_track_index {
                Some(index) => {
                    let previous = (index + (n - 1)) % n;
                    switch_track(index, previous, model)
                },
                None => Effect::Nothing,
            }
        },
        Message::Next => {
            match model.current_track_index {
                Some(index) => {
                    let len = model.tracks.len();
                    assert(index < len);
                    let next = (index + 1) % n;
                    switch_track(index, next, model)
                },
                None => Effect::Nothing,
            }
        },
        Message::SeekBack => Effect::Send(Command::Backward(model.seek_distance)),
        Message::SeekForward => {
            match model.current_track_index {
                Some(index) => {
                    let length = model.tracks[index].length;
                    assert(tracks_view(model.tracks@)[index as int] == model.tracks@[index as int]@);
                    Effect::Send(Command::Forward(model.seek_distance, #[verifier::truncate] (length as usize)))
                },
                None => Effect::Nothing,
            }
        },
        _ => Effect::Nothing,
    }
}

/// Handles a message in the playback-order menu.
pub fn in_config(message: &Message, model: &mut PlayerModel) -> (res: Effect)
    ensures
        (final(model)@, res@) == config_step(old(model)@, *message),
{
    match message {
        Message::Escape => {
            model.state = State::Playing;
            Effect::Nothing
        },
        Message::SwapTo(target) => {
            swap_state(*target, model);
            Effect::Nothing
        },
        Message::Down => {
            if let Some(selected_index) = model.order_list_state.selected() {
                if selected_index < 3 {
                    model.order_list_state.select_next();
                }
            }
            Effect::Nothing
        },
        Message::Up => {
            model.order_list_state.select_previous();
            Effect::Nothing
        },
        Message::Submit => {
            match model.order_list_state.selected() {
                Some(index) => Effect::Reorder(order_at(index)),
                None => Effect::Nothing,
            }
        },
        _ => Effect::Nothing,
    }
}

/// Records the outcome of putting the library in `order`: where the library
/// reports the playing track's new index, that track is the current one and
/// `order` the playback order; otherwise nothing changes.
pub fn apply_reorder(order: Order, found: Option<usize>, model: &mut PlayerModel)
    ensures
        final(model)@ == (match found {
            Some(i) => ModelView { current_track_index: Some(i), playback_order: order, ..old(model)@ },
            None => old(model)@,
        }),
{
    if let Some(index) = found {
        model.current_track_index = Some(index);
        model.playback_order = order;
    }
}

/// Handles a message while searching.
pub fn in_search(message: &Message, model: &mut PlayerModel)
    ensures
        final(model)@ == search_step(old(model)@, *message),
{
    match message {
        Message::AppendKeyword(c) => {
            push_char(&mut model.keyword, *c);
            model.matched_tracks = search(model.tracks.as_slice(), model.keyword.as_str());
        },
        Message::RemoveKeyword => {
            pop_char(&mut model.keyword);
            model.matched_tracks = search(model.tracks.as_slice(), model.keyword.as_str());
        },
        Message::Down => {
            if let Some(selected_index) = model.search_list_state.selected() {
                if selected_index < model.matched_tracks.len() {
                    model.search_list_state.select_next();
                }
            }
        },
        Message::Up => model.search_list_state.select_previous(),
        Message::Escape => model.state = State::Playing,
        Message::Submit => model.state = State::Playing,
        _ => {},
    }
}

/// Handles a message while the volume is shown.
pub fn in_volume(message: &Message, model: &mut PlayerModel, room: VolumeRoom) -> (res: Effect)
    ensures
        (final(model)@, res@) == volume_step(old(model)@, *message, room),
{
    match message {
        Message::Up => {
            model.iteration_count = 0;
            if room.can_raise {
                Effect::Send(Command::VolumeUp)
            } else {
                Effect::Nothing
            }
        },
        Message::Down => {
            model.iteration_count = 0;
            if room.can_lower {
                Effect::Send(Command::VolumeDown)
            } else {
                Effect::Nothing
            }
        },
        _ => Effect::Nothing,
    }
}

/// Handles a message in the current mode.
pub fn update(message: &Message, model: &mut PlayerModel, room: VolumeRoom) -> (res: Effect)
    requires
        well_formed(old(model)@),
        update_ok(old(model)@, *message),
    ensures
        (final(model)@, res@) == update_step(old(model)@, *message, room),
{
    match model.state {
        State::Searching => {
            in_search(message, model);
            Effect::Nothing
        },
        State::Configuring => in_config(message, model),
        State::Playing => in_playback(message, model),
        State::Adjusting => in_volume(message, model, room),
    }
}

/// Whether `update` can handle the message without a panic: while playing,
/// the indices it would use must lie in the library and its arithmetic must not overflow.
pub fn can_update(message: &Message, model: &PlayerModel) -> (res: bool)
    ensures
        res == update_ok(model@, *message),
{
    if model.state != State::Playing {
        return true;
    }
    let n = model.number_of_tracks;
    let len = model.tracks.len();
    match message {
        Message::AppendTrack => match model.table_state.selected() {
            Some(i) => match model.current_track_index {
                Some(c) => i == c || (c < len && i < len),
                None => i < len,
            },
            None => true,
        },
        Message::Delete => match model.table_state.selected() {
            Some(i) => i < len,
            None => true,
        },
        Message::Previous => match model.current_track_index {
            Some(i) => {
                if n == 0 || i >= len || i > usize::MAX - (n - 1) {
                    false
                } else {
                    (i + (n - 1)) % n < len
                }
            },
            None => true,
        },
        Message::Next => match model.current_track_index {
            Some(i) => {
                if n == 0 || i >= len {
                    false
                } else {
                    (i + 1) % n < len
                }
            },
            None => true,
        },
        Message::SeekForward => match model.current_track_index {
            Some(i) => i < len,
            None => true,
        },
        _ => true,
    }
}

/// What a key means in the player's current mode.
pub fn map_to_message(key: KeyCode, model: &PlayerModel) -> (res: Message)
    ensures
        res == key_message(model.state, key),
{
    match model.state {
        State::Searching => from_search(key),
        State::Configuring => from_config(key),
        State::Playing => from_playback(key),
        State::Adjusting => from_volume(key),
    }
}

/// A key press in the main loop: outside the volume mode the mode is
/// remembered (the volume mode returns to it), then the key's message is handled.
pub fn on_key(key: KeyCode, model: &mut PlayerModel, previous_state: &mut State, room: VolumeRoom) -> (res: Effect)
    requires
        well_formed(old(model)@),
        update_ok(old(model)@, key_message(old(model).state, key)),
    ensures
        *final(previous_state) == (if old(model).state != State::Adjusting { old(model).state } else { *old(previous_state) }),
        (final(model)@, res@) == update_step(old(model)@, key_message(old(model).state, key), room),
{
    if model.state != State::Adjusting {
        *previous_state = model.state;
    }
    let message = map_to_message(key, model);
    update(&message, model, room)
}

/// What happens when the audio side reports that the track ended: the next
/// track, wrapping to the first, is started.
pub open spec fn auto_queue_step(m: ModelView) -> (ModelView, EffectView) {
    match m.current_track_index {
        Some(i) => switch_track_spec(m, i, next_index(i, m.number_of_tracks)),
        None => (m, EffectView::Nothing),
    }
}

/// Whether the next track can be started without an index going out of the library.
pub open spec fn auto_queue_ok(m: ModelView) -> bool {
    match m.current_track_index {
        Some(i) => i < m.tracks.len() && m.number_of_tracks >= 1 && next_index(i, m.number_of_tracks) < m.tracks.len(),
        None => true,
    }
}

/// Whether `auto_queue` can run without a panic.
pub fn can_auto_queue(model: &PlayerModel) -> (res: bool)
    ensures
        res == auto_queue_ok(model@),
{
    let n = model.number_of_tracks;
    let len = model.tracks.len();
    match model.current_track_index {
        Some(i) => {
            if n == 0 || i >= len {
                false
            } else {
                (i + 1) % n < len
            }
        },
        None => true,
    }
}

/// Starts the next track after the current one has ended.
pub fn auto_queue(model: &mut PlayerModel) -> (res: Effect)
    requires
        auto_queue_ok(old(model)@),
    ensures
        (final(model)@, res@) == auto_queue_step(old(model)@),
{
    match model.current_track_index {
        Some(index) => {
            let len = model.tracks.len();
            assert(index < len);
            let next = (index + 1) % model.number_of_tracks;
            switch_track(index, next, model)
        },
        None => Effect::Nothing,
    }
}

/// A frame of the main loop in the volume mode: the frame is counted, and
/// after `ADJUST_FRAMES` frames the player returns to the remembered mode.
pub open spec fn adjusting_tick_step(m: ModelView, previous_state: State) -> ModelView {
    if m.state == State::Adjusting {
        let c = m.iteration_count + 1;
        if c % (ADJUST_FRAMES as int) == 0 {
            ModelView { state: previous_state, iteration_count: 0, ..m }
        } else {
            ModelView { iteration_count: c as usize, ..m }
        }
    } else {
        m
    }
}

/// Counts a frame of the volume mode, ending the mode when its time is up.
pub fn adjusting_tick(model: &mut PlayerModel, previous_state: State)
    requires
        well_formed(old(model)@),
    ensures
        final(model)@ == adjusting_tick_step(old(model)@, previous_state),
        well_formed(final(model)@),
{
    if model.state == State::Adjusting {
        model.iteration_count = model.iteration_count + 1;
        if model.iteration_count % ADJUST_FRAMES == 0 {
            model.state = previous_state;
            model.iteration_count = 0;
        }
    }
}

} // verus!
