//! What holds of the player across calls and for every state.

use vstd::prelude::*;
use crate::fuzzy_search::{search_prefix, search_spec, track_matches};
use crate::message::{KeyCode, Message, State, key_message};
use crate::number_drawer::{
    GLYPH_OTHER, drawable, drawing, drawn_height, drawn_row, drawn_rows, glyph, glyph_rows, is_digit,
    joined, lemma_digit_glyph, lemma_other_glyph,
};
use crate::model::{
    ADJUST_FRAMES, CommandView, EffectView, ModelView, Order, VolumeRoom, next_selected, previous_selected,
    well_formed,
};
use crate::text::lowercase;
use crate::track::AudioView;
use crate::update::{
    adjusting_tick_step, auto_queue_step, next_index, play_new_track_spec, playback_ok, previous_index,
    switch_track_spec, update_ok, update_step,
};

verus! {

/// Next and previous undo each other: in a library of `n` tracks, the track
/// before the one after `i` is `i`, and so is the one after the one before.
pub proof fn law_next_previous_inverse(i: usize, n: usize)
    requires
        n >= 1,
        i < n,
        i + n - 1 <= usize::MAX,
    ensures
        next_index(i, n) < n,
        previous_index(i, n) < n,
        previous_index(next_index(i, n), n) == i,
        next_index(previous_index(i, n), n) == i,
{
    let ni = n as int;
    if i + 1 < ni {
        assert((i + 1) % ni == i + 1) by (nonlinear_arith) requires 0 <= i + 1 < ni;
        assert((i + 1 + ni - 1) % ni == i) by (nonlinear_arith) requires 0 <= i < ni, ni >= 1;
    } else {
        assert((i + 1) % ni == 0) by (nonlinear_arith) requires i + 1 == ni, ni >= 1;
        assert((0 + ni - 1) % ni == i) by (nonlinear_arith) requires i + 1 == ni, ni >= 1;
    }
    if i == 0 {
        assert((i + ni - 1) % ni == ni - 1) by (nonlinear_arith) requires i == 0, ni >= 1;
        assert((ni - 1 + 1) % ni == 0) by (nonlinear_arith) requires ni >= 1;
    } else {
        assert((i + ni - 1) % ni == i - 1) by (nonlinear_arith) requires 1 <= i < ni;
        assert((i - 1 + 1) % ni == i) by (nonlinear_arith) requires 1 <= i < ni;
    }
}

/// Index `i` is that of the current track.
pub open spec fn marks_current(m: ModelView, i: int) -> bool {
    m.current_track_index matches Some(c) && c == i
}

/// Exactly the current track is marked as playing.
pub open spec fn playing_consistent(m: ModelView) -> bool {
    forall|i: int| 0 <= i < m.tracks.len() ==> (#[trigger] m.tracks[i].is_playing <==> marks_current(m, i))
}

/// The library holds as many tracks as it was loaded with.
pub open spec fn library_intact(m: ModelView) -> bool {
    m.tracks.len() == m.number_of_tracks
}

/// Next then previous, while playing a library that has lost no track and in
/// which exactly the current track is marked: the same track is current again,
/// the marks are as they were, and its file is what is sent to the audio side.
pub proof fn law_next_then_previous_returns(m: ModelView, room: VolumeRoom)
    requires
        well_formed(m),
        m.state == State::Playing,
        library_intact(m),
        playing_consistent(m),
        m.current_track_index matches Some(i) && i < m.number_of_tracks,
        m.number_of_tracks + m.number_of_tracks - 1 <= usize::MAX,
    ensures
        update_ok(m, Message::Next),
        update_ok(update_step(m, Message::Next, room).0, Message::Previous),
        ({
            let m1 = update_step(m, Message::Next, room).0;
            let (m2, e2) = update_step(m1, Message::Previous, room);
            &&& m2.current_track_index == m.current_track_index
            &&& m2.tracks == m.tracks
            &&& e2 == crate::model::EffectView::Send(crate::model::CommandView::New(m.tracks[m.current_track_index->0 as int].path))
        }),
{
    let i = m.current_track_index->0;
    let n = m.number_of_tracks;
    assert(m.tracks[i as int].is_playing);
    law_next_previous_inverse(i, n);
    let j = next_index(i, n);
    let m1 = update_step(m, Message::Next, room).0;
    assert(m1.tracks.len() == n);
    assert(m1.current_track_index == Some(j));
    let m2 = update_step(m1, Message::Previous, room).0;
    assert(m2.current_track_index == Some(i));
    assert forall|k: int| 0 <= k < m.tracks.len() implies m2.tracks[k] == m.tracks[k] by {
        if k == i as int {
        } else if k == j as int {
            assert(!m.tracks[k].is_playing);
        } else {
        }
    }
    assert(m2.tracks =~= m.tracks);
}

/// Tab in the player opens the playback-order menu, and Tab there goes back:
/// two presses leave the mode as it was.
pub proof fn law_tab_twice_restores_mode(m: ModelView, room: VolumeRoom)
    requires
        well_formed(m),
        m.state == State::Playing || m.state == State::Configuring,
    ensures
        ({
            let m1 = update_step(m, key_message(m.state, KeyCode::Tab), room).0;
            let m2 = update_step(m1, key_message(m1.state, KeyCode::Tab), room).0;
            &&& m1.state != m.state
            &&& m2.state == m.state
            &&& m2 == m
        }),
{
    let m1 = update_step(m, key_message(m.state, KeyCode::Tab), room).0;
    let m2 = update_step(m1, key_message(m1.state, KeyCode::Tab), room).0;
    assert(m2 =~= m);
}

/// Moving the cursor while playing keeps it on a row of the loaded library;
/// no other message moves it.
pub proof fn law_table_cursor_in_range(m: ModelView, msg: Message, room: VolumeRoom)
    requires
        well_formed(m),
        m.state == State::Playing,
        playback_ok(m, msg),
        m.table_selected matches Some(s) && s < m.number_of_tracks,
    ensures
        update_step(m, msg, room).0.table_selected matches Some(s) && s < m.number_of_tracks,
        msg != Message::Up && msg != Message::Down ==> update_step(m, msg, room).0.table_selected == m.table_selected,
{
}

/// A typed character followed by Backspace, while searching, leaves the keyword
/// as it was, and the results are those of that keyword.
pub proof fn law_type_then_erase_restores_keyword(m: ModelView, c: char, room: VolumeRoom)
    requires
        m.state == State::Searching,
    ensures
        ({
            let m1 = update_step(m, Message::AppendKeyword(c), room).0;
            let m2 = update_step(m1, Message::RemoveKeyword, room).0;
            &&& m2.keyword == m.keyword
            &&& m2.matched_tracks == search_spec(m.tracks, m.keyword)
            &&& m2.state == State::Searching
        }),
{
    let m1 = update_step(m, Message::AppendKeyword(c), room).0;
    assert(m1.keyword.drop_last() =~= m.keyword);
}

/// The search gives, in increasing order and without repetition, the indices of
/// exactly the tracks that match the keyword.
pub proof fn law_search_results(tracks: Seq<AudioView>, keyword: Seq<char>)
    requires
        tracks.len() <= usize::MAX,
    ensures
        forall|a: int, b: int| 0 <= a < b < search_spec(tracks, keyword).len() ==>
            search_spec(tracks, keyword)[a] < search_spec(tracks, keyword)[b],
        forall|a: int| 0 <= a < search_spec(tracks, keyword).len() ==>
            search_spec(tracks, keyword)[a] < tracks.len() && track_matches(tracks[search_spec(tracks, keyword)[a] as int], keyword),
        forall|i: int| 0 <= i < tracks.len() && track_matches(tracks[i], keyword) ==>
            search_spec(tracks, keyword).contains(i as usize),
{
    lemma_search_prefix(tracks, keyword, tracks.len());
}

/// The facts of `law_search_results` for the first `n` tracks.
proof fn lemma_search_prefix(tracks: Seq<AudioView>, keyword: Seq<char>, n: nat)
    requires
        n <= tracks.len(),
        tracks.len() <= usize::MAX,
    ensures
        forall|a: int, b: int| 0 <= a < b < search_prefix(tracks, keyword, n).len() ==>
            search_prefix(tracks, keyword, n)[a] < search_prefix(tracks, keyword, n)[b],
        forall|a: int| 0 <= a < search_prefix(tracks, keyword, n).len() ==>
            search_prefix(tracks, keyword, n)[a] < n && track_matches(tracks[search_prefix(tracks, keyword, n)[a] as int], keyword),
        forall|i: int| 0 <= i < n && track_matches(tracks[i], keyword) ==>
            search_prefix(tracks, keyword, n).contains(i as usize),
    decreases n,
{
    if n > 0 {
        lemma_search_prefix(tracks, keyword, (n - 1) as nat);
        let rest = search_prefix(tracks, keyword, (n - 1) as nat);
        let cur = search_prefix(tracks, keyword, n);
        if track_matches(tracks[n - 1], keyword) {
            assert(cur == rest.push((n - 1) as usize));
            assert(cur[rest.len() as int] == (n - 1) as usize);
            assert forall|a: int, b: int| 0 <= a < b < cur.len() implies cur[a] < cur[b] by {
                assert(cur[a] == rest[a]);
                if b < rest.len() {
                    assert(cur[b] == rest[b]);
                }
            }
            assert forall|a: int| 0 <= a < cur.len() implies cur[a] < n && track_matches(tracks[cur[a] as int], keyword) by {
                if a < rest.len() {
                    assert(cur[a] == rest[a]);
                }
            }
            assert forall|i: int| 0 <= i < n && track_matches(tracks[i], keyword) implies cur.contains(i as usize) by {
                if i < n - 1 {
                    let k = choose|k: int| 0 <= k < rest.len() && rest[k] == i as usize;
                    assert(cur[k] == i as usize);
                } else {
                    assert(cur[rest.len() as int] == i as usize);
                }
            }
        }
    }
}

/// A keyword that lowercases to nothing matches every track, in library order.
pub proof fn law_empty_keyword_matches_all(tracks: Seq<AudioView>, keyword: Seq<char>)
    requires
        lowercase(keyword).len() == 0,
    ensures
        search_spec(tracks, keyword) == Seq::new(tracks.len(), |i: int| i as usize),
{
    lemma_empty_keyword_prefix(tracks, keyword, tracks.len());
}

/// `law_empty_keyword_matches_all` for the first `n` tracks.
proof fn lemma_empty_keyword_prefix(tracks: Seq<AudioView>, keyword: Seq<char>, n: nat)
    requires
        lowercase(keyword).len() == 0,
    ensures
        search_prefix(tracks, keyword, n) == Seq::new(n, |i: int| i as usize),
    decreases n,
{
    if n > 0 {
        lemma_empty_keyword_prefix(tracks, keyword, (n - 1) as nat);
        let t = tracks[n - 1];
        assert(crate::text::occurs_at(lowercase(t.name), lowercase(keyword), 0)) by {
            assert(lowercase(t.name).subrange(0, 0) =~= lowercase(keyword));
        }
        assert(track_matches(t, keyword));
        assert(search_prefix(tracks, keyword, n) =~= Seq::new(n, |i: int| i as usize));
    }
}

/// Every step of the player keeps it well formed, and keeps the number of
/// tracks it was loaded with.
pub proof fn law_update_keeps_well_formed(m: ModelView, msg: Message, room: VolumeRoom)
    requires
        well_formed(m),
        update_ok(m, msg),
    ensures
        well_formed(update_step(m, msg, room).0),
        update_step(m, msg, room).0.number_of_tracks == m.number_of_tracks,
{
}

/// Starting the next track after the current one ended keeps the player well formed.
pub proof fn law_auto_queue_keeps_well_formed(m: ModelView)
    requires
        well_formed(m),
    ensures
        well_formed(auto_queue_step(m).0),
        auto_queue_step(m).0.number_of_tracks == m.number_of_tracks,
{
}

/// Switching from the current track to another keeps exactly the current track marked.
proof fn lemma_switch_keeps_mark(m: ModelView, c: usize, i: usize)
    requires
        playing_consistent(m),
        m.current_track_index == Some(c),
        c < m.tracks.len(),
        i < m.tracks.len(),
    ensures
        playing_consistent(switch_track_spec(m, c, i).0),
{
    let m1 = switch_track_spec(m, c, i).0;
    assert forall|k: int| 0 <= k < m1.tracks.len() implies (#[trigger] m1.tracks[k].is_playing <==> marks_current(m1, k)) by {
        if k != c as int && k != i as int {
            assert(m1.tracks[k] == m.tracks[k]);
        }
    }
}

/// Starting a track when none is current keeps exactly the current track marked.
proof fn lemma_start_keeps_mark(m: ModelView, i: usize)
    requires
        playing_consistent(m),
        m.current_track_index is None,
        i < m.tracks.len(),
    ensures
        playing_consistent(play_new_track_spec(m, i).0),
{
    let m1 = play_new_track_spec(m, i).0;
    assert forall|k: int| 0 <= k < m1.tracks.len() implies (#[trigger] m1.tracks[k].is_playing <==> marks_current(m1, k)) by {
        if k != i as int {
            assert(m1.tracks[k] == m.tracks[k]);
        }
    }
}

/// Exactly the current track stays marked as playing through every step while
/// playing, except the removal of a track at or before the current one (after
/// which the marks no longer line up with the shifted indices).
pub proof fn law_playing_mark_follows_current(m: ModelView, msg: Message, room: VolumeRoom)
    requires
        well_formed(m),
        update_ok(m, msg),
        playing_consistent(m),
        msg == Message::Delete && m.state == State::Playing ==> (
            m.current_track_index is None || m.table_selected is None
            || m.table_selected->0 > m.current_track_index->0),
    ensures
        playing_consistent(update_step(m, msg, room).0),
{
    let m1 = update_step(m, msg, room).0;
    if m.state == State::Playing {
        let n = m.number_of_tracks;
        match msg {
            Message::AppendTrack => {
                if let Some(i) = m.table_selected {
                    match m.current_track_index {
                        Some(c) => {
                            if i != c {
                                lemma_switch_keeps_mark(m, c, i);
                            }
                        },
                        None => lemma_start_keeps_mark(m, i),
                    }
                }
            },
            Message::Next => {
                if let Some(i) = m.current_track_index {
                    lemma_switch_keeps_mark(m, i, next_index(i, n));
                }
            },
            Message::Previous => {
                if let Some(i) = m.current_track_index {
                    lemma_switch_keeps_mark(m, i, previous_index(i, n));
                }
            },
            Message::Delete => {
                if let Some(s) = m.table_selected {
                    assert forall|i: int| 0 <= i < m1.tracks.len() implies (#[trigger] m1.tracks[i].is_playing <==> marks_current(m1, i)) by {
                        if i < s {
                            assert(m1.tracks[i] == m.tracks[i]);
                        } else {
                            assert(m1.tracks[i] == m.tracks[i + 1]);
                        }
                    }
                }
            },
            _ => {},
        }
    }
}

/// Starting the next track after the current one ended keeps exactly the
/// current track marked.
pub proof fn law_auto_queue_keeps_mark(m: ModelView)
    requires
        well_formed(m),
        playing_consistent(m),
        m.current_track_index matches Some(i) && i < m.tracks.len() && next_index(i, m.number_of_tracks) < m.tracks.len(),
    ensures
        playing_consistent(auto_queue_step(m).0),
        auto_queue_step(m).0.current_track_index == Some(next_index(m.current_track_index->0, m.number_of_tracks)),
{
    let i = m.current_track_index->0;
    lemma_switch_keeps_mark(m, i, next_index(i, m.number_of_tracks));
}

/// `k` frames of the main loop with no key pressed.
pub open spec fn frames(m: ModelView, previous_state: State, k: nat) -> ModelView
    decreases k,
{
    if k == 0 {
        m
    } else {
        adjusting_tick_step(frames(m, previous_state, (k - 1) as nat), previous_state)
    }
}

/// The volume mode lasts `ADJUST_FRAMES` frames after the last volume key:
/// it holds through every earlier frame and then gives way to the mode the
/// player was in before.
pub proof fn law_volume_mode_times_out(m: ModelView, previous_state: State)
    requires
        well_formed(m),
        m.state == State::Adjusting,
        m.iteration_count == 0,
    ensures
        forall|k: nat| k < ADJUST_FRAMES ==> #[trigger] frames(m, previous_state, k).state == State::Adjusting,
        frames(m, previous_state, ADJUST_FRAMES as nat).state == previous_state,
        frames(m, previous_state, ADJUST_FRAMES as nat).iteration_count == 0,
{
    assert forall|k: nat| k < ADJUST_FRAMES implies #[trigger] frames(m, previous_state, k).state == State::Adjusting by {
        lemma_frames_count(m, previous_state, k);
    }
    lemma_frames_count(m, previous_state, (ADJUST_FRAMES - 1) as nat);
}

/// Before the volume mode times out, the frame counter counts the frames.
proof fn lemma_frames_count(m: ModelView, previous_state: State, k: nat)
    requires
        m.state == State::Adjusting,
        m.iteration_count == 0,
        k < ADJUST_FRAMES,
    ensures
        frames(m, previous_state, k).state == State::Adjusting,
        frames(m, previous_state, k).iteration_count == k,
    decreases k,
{
    if k > 0 {
        lemma_frames_count(m, previous_state, (k - 1) as nat);
        assert((k as int) % (ADJUST_FRAMES as int) != 0) by (nonlinear_arith) requires 0 < k < 41;
    }
}

/// A volume key keeps the volume mode open and restarts its countdown.
pub proof fn law_volume_key_restarts_countdown(m: ModelView, room: VolumeRoom)
    requires
        m.state == State::Adjusting,
    ensures
        update_step(m, key_message(m.state, KeyCode::Char('K')), room).0.state == State::Adjusting,
        update_step(m, key_message(m.state, KeyCode::Char('K')), room).0.iteration_count == 0,
        update_step(m, key_message(m.state, KeyCode::Char('J')), room).0.state == State::Adjusting,
        update_step(m, key_message(m.state, KeyCode::Char('J')), room).0.iteration_count == 0,
{
}

/// Esc leaves the search and the playback-order menu for the player, and in the
/// player it ends the program.
pub proof fn law_escape(m: ModelView, room: VolumeRoom)
    ensures
        m.state == State::Searching || m.state == State::Configuring ==>
            update_step(m, key_message(m.state, KeyCode::Esc), room).0.state == State::Playing,
        m.state == State::Playing ==>
            update_step(m, key_message(m.state, KeyCode::Esc), room).1 == crate::model::EffectView::Exit(0),
{
}

/// Moving a cursor down and back up returns it to its row (below the largest index).
pub proof fn law_cursor_down_up(i: usize)
    requires
        i < usize::MAX,
    ensures
        previous_selected(next_selected(Some(i))) == Some(i),
{
}

/// A banner of one character is that character's glyph: the large digit for a
/// digit, `NONE` and a newline for anything else.
pub proof fn law_single_char_banner(c: char)
    ensures
        drawable(seq![c]),
        drawing(seq![c]) == (if is_digit(c) { glyph(c) } else { GLYPH_OTHER@ + seq!['\n'] }),
{
    let n = seq![c];
    assert(n[0] == c);
    if is_digit(c) {
        lemma_digit_glyph(c);
    } else {
        lemma_other_glyph(c);
    }
    let h = drawn_height(n);
    assert forall|k: int| 0 <= k < h implies #[trigger] drawn_rows(n, h)[k] == glyph_rows(c)[k] by {
        assert(drawn_row(n, k, 0) == Seq::<char>::empty());
        assert(drawn_row(n, k, 1) =~= glyph_rows(c)[k]);
    }
    assert(drawn_rows(n, h) =~= glyph_rows(c));
    if !is_digit(c) {
        assert(joined(seq![GLYPH_OTHER@]) == GLYPH_OTHER@);
    }
}

/// Row `k` of the banner of `a` followed by `b` is row `k` of `a`'s banner
/// followed by row `k` of `b`'s.
proof fn lemma_drawn_row_concat(a: Seq<char>, b: Seq<char>, k: int, m: nat)
    requires
        m <= b.len(),
    ensures
        drawn_row(a + b, k, a.len() + m) == drawn_row(a, k, a.len()) + drawn_row(b, k, m),
    decreases m,
{
    if m == 0 {
        assert(drawn_row(b, k, 0) == Seq::<char>::empty());
        lemma_drawn_row_prefix(a, b, k, a.len());
        assert(drawn_row(a, k, a.len()) + Seq::<char>::empty() =~= drawn_row(a, k, a.len()));
    } else {
        lemma_drawn_row_concat(a, b, k, (m - 1) as nat);
        assert((a + b)[a.len() + m - 1] == b[m - 1]);
        assert(drawn_row(a + b, k, a.len() + m) == drawn_row(a + b, k, (a.len() + m - 1) as nat) + glyph_rows(b[m - 1])[k]);
        assert(drawn_row(a, k, a.len()) + drawn_row(b, k, (m - 1) as nat) + glyph_rows(b[m - 1])[k]
            =~= drawn_row(a, k, a.len()) + drawn_row(b, k, m));
    }
}

/// The first `n` characters of `a + b`, with `n` within `a`, are drawn as those of `a`.
proof fn lemma_drawn_row_prefix(a: Seq<char>, b: Seq<char>, k: int, n: nat)
    requires
        n <= a.len(),
    ensures
        drawn_row(a + b, k, n) == drawn_row(a, k, n),
    decreases n,
{
    if n > 0 {
        lemma_drawn_row_prefix(a, b, k, (n - 1) as nat);
        assert((a + b)[n - 1] == a[n - 1]);
    }
}

/// The banner of two strings written together, where every glyph has the same
/// number of rows `h`, is their banners side by side: all three have `h` rows,
/// and each row of the whole is the row of the first followed by the row of the second.
pub proof fn law_banner_of_concatenation(a: Seq<char>, b: Seq<char>, h: nat)
    requires
        a.len() > 0,
        b.len() > 0,
        forall|i: int| 0 <= i < a.len() ==> #[trigger] glyph_rows(a[i]).len() == h,
        forall|i: int| 0 <= i < b.len() ==> #[trigger] glyph_rows(b[i]).len() == h,
    ensures
        drawable(a),
        drawable(b),
        drawable(a + b),
        drawn_height(a) == h,
        drawn_height(b) == h,
        drawn_height(a + b) == h,
        forall|k: int| 0 <= k < h ==>
            #[trigger] drawn_rows(a + b, h)[k] == drawn_rows(a, h)[k] + drawn_rows(b, h)[k],
{
    let ab = a + b;
    assert(ab[0] == a[0]);
    assert forall|i: int| 0 <= i < ab.len() implies #[trigger] glyph_rows(ab[i]).len() >= drawn_height(ab) by {
        if i < a.len() {
            assert(ab[i] == a[i]);
        } else {
            assert(ab[i] == b[i - a.len()]);
        }
    }
    assert forall|k: int| 0 <= k < h implies #[trigger] drawn_rows(ab, h)[k] == drawn_rows(a, h)[k] + drawn_rows(b, h)[k] by {
        lemma_drawn_row_concat(a, b, k, b.len());
        assert(a.len() + b.len() == ab.len());
    }
}

/// In the volume mode, `K` asks for a louder sink exactly when the volume has
/// room to rise and `J` for a quieter one exactly when it has room to fall; what
/// `K` does never depends on the room below, nor what `J` does on the room above.
/// Both keys keep the volume mode and leave the library, cursors and keyword alone.
pub proof fn law_volume_keys_follow_room(m: ModelView, room: VolumeRoom)
    requires
        m.state == State::Adjusting,
    ensures
        key_message(m.state, KeyCode::Char('K')) == Message::Up,
        key_message(m.state, KeyCode::Char('J')) == Message::Down,
        update_step(m, Message::Up, room).1 == EffectView::Send(CommandView::VolumeUp) <==> room.can_raise,
        update_step(m, Message::Up, room).1 == EffectView::Nothing <==> !room.can_raise,
        update_step(m, Message::Down, room).1 == EffectView::Send(CommandView::VolumeDown) <==> room.can_lower,
        update_step(m, Message::Down, room).1 == EffectView::Nothing <==> !room.can_lower,
        update_step(m, Message::Up, (VolumeRoom { can_raise: room.can_raise, can_lower: !room.can_lower })).1
            == update_step(m, Message::Up, room).1,
        update_step(m, Message::Down, (VolumeRoom { can_raise: !room.can_raise, can_lower: room.can_lower })).1
            == update_step(m, Message::Down, room).1,
        update_step(m, Message::Up, room).0 == (ModelView { iteration_count: 0, ..m }),
        update_step(m, Message::Down, room).0 == (ModelView { iteration_count: 0, ..m }),
{
}

/// Enter in the playback-order menu asks for the order written on the cursor's
/// row, the rows reading Shuffle, Album, Artist, Track from the top; a cursor
/// below the last row asks for Shuffle. The menu stays open and nothing else changes.
pub proof fn law_menu_row_chooses_listed_order(m: ModelView, i: usize, room: VolumeRoom)
    requires
        m.state == State::Configuring,
        m.order_selected == Some(i),
    ensures
        key_message(m.state, KeyCode::Enter) == Message::Submit,
        update_step(m, Message::Submit, room).0 == m,
        i < 4 ==> update_step(m, Message::Submit, room).1
            == EffectView::Reorder(seq![Order::Shuffle, Order::Album, Order::Artist, Order::Track][i as int]),
        i >= 4 ==> update_step(m, Message::Submit, room).1 == EffectView::Reorder(Order::Shuffle),
        i == 0 ==> update_step(m, Message::Submit, room).1 == EffectView::Reorder(Order::Shuffle),
        i == 1 ==> update_step(m, Message::Submit, room).1 == EffectView::Reorder(Order::Album),
        i == 2 ==> update_step(m, Message::Submit, room).1 == EffectView::Reorder(Order::Artist),
        i == 3 ==> update_step(m, Message::Submit, room).1 == EffectView::Reorder(Order::Track),
{
}

/// `K` and `J`, in the player and in the playback-order menu, open the volume
/// mode and change nothing else.
pub proof fn law_volume_keys_open_volume_mode(m: ModelView, c: char, room: VolumeRoom)
    requires
        well_formed(m),
        m.state == State::Playing || m.state == State::Configuring,
        c == 'K' || c == 'J',
    ensures
        key_message(m.state, KeyCode::Char(c)) == Message::SwapTo(Some(State::Adjusting)),
        update_step(m, key_message(m.state, KeyCode::Char(c)), room).0 == (ModelView { state: State::Adjusting, ..m }),
        update_step(m, key_message(m.state, KeyCode::Char(c)), room).1 == EffectView::Nothing,
{
}

/// While playing, `<` seeks back by the configured distance, whatever track
/// plays or whether one plays at all, and changes nothing in the player.
pub proof fn law_seek_back_always_sent(m: ModelView, room: VolumeRoom)
    requires
        m.state == State::Playing,
    ensures
        key_message(m.state, KeyCode::Char('<')) == Message::SeekBack,
        update_step(m, Message::SeekBack, room).0 == m,
        update_step(m, Message::SeekBack, room).1 == EffectView::Send(CommandView::Backward(m.seek_distance)),
{
}

/// While playing, `D` removes the track under the cursor, whatever track
/// plays: the library loses that one track, the tracks before it keep their
/// places and those after it move up by one; the rest of the player is unchanged.
pub proof fn law_delete_removes_selected(m: ModelView, i: usize, room: VolumeRoom)
    requires
        m.state == State::Playing,
        m.table_selected == Some(i),
        i < m.tracks.len(),
    ensures
        key_message(m.state, KeyCode::Char('D')) == Message::Delete,
        update_step(m, Message::Delete, room).1 == EffectView::Nothing,
        ({
            let r = update_step(m, Message::Delete, room).0;
            &&& r.tracks.len() == m.tracks.len() - 1
            &&& forall|j: int| 0 <= j < i ==> #[trigger] r.tracks[j] == m.tracks[j]
            &&& forall|j: int| i <= j < r.tracks.len() ==> #[trigger] r.tracks[j] == m.tracks[j + 1]
            &&& r == (ModelView { tracks: r.tracks, ..m })
        }),
{
}

/// The key table of the player: in the player, `j`/`k` move, `:` plays the
/// highlighted track, space plays or pauses, `n`/`p` step through the library,
/// `<`/`>` seek, `K`/`J` open the volume, `/` opens the search, `D` deletes, Tab
/// opens the order menu and Esc quits; while searching, every character is typed,
/// Backspace erases, Enter and Esc leave and the arrows move; in the order menu
/// `j`/`k` move, Enter chooses, Tab and Esc leave; in the volume mode only `K`/`J` count.
pub proof fn law_key_table()
    ensures
        key_message(State::Playing, KeyCode::Char('j')) == Message::Down,
        key_message(State::Playing, KeyCode::Char('k')) == Message::Up,
        key_message(State::Playing, KeyCode::Char(':')) == Message::AppendTrack,
        key_message(State::Playing, KeyCode::Char(' ')) == Message::PlayPause,
        key_message(State::Playing, KeyCode::Char('n')) == Message::Next,
        key_message(State::Playing, KeyCode::Char('p')) == Message::Previous,
        key_message(State::Playing, KeyCode::Char('<')) == Message::SeekBack,
        key_message(State::Playing, KeyCode::Char('>')) == Message::SeekForward,
        key_message(State::Playing, KeyCode::Char('/')) == Message::SwapTo(Some(State::Searching)),
        key_message(State::Playing, KeyCode::Char('D')) == Message::Delete,
        key_message(State::Playing, KeyCode::Tab) == Message::SwapTo(None),
        key_message(State::Playing, KeyCode::Esc) == Message::Escape,
        forall|c: char| key_message(State::Searching, KeyCode::Char(c)) == Message::AppendKeyword(c),
        key_message(State::Searching, KeyCode::Backspace) == Message::RemoveKeyword,
        key_message(State::Searching, KeyCode::Enter) == Message::Submit,
        key_message(State::Searching, KeyCode::Esc) == Message::Escape,
        key_message(State::Searching, KeyCode::Down) == Message::Down,
        key_message(State::Searching, KeyCode::Up) == Message::Up,
        key_message(State::Configuring, KeyCode::Char('j')) == Message::Down,
        key_message(State::Configuring, KeyCode::Char('k')) == Message::Up,
        key_message(State::Configuring, KeyCode::Enter) == Message::Submit,
        key_message(State::Configuring, KeyCode::Esc) == Message::Escape,
        key_message(State::Configuring, KeyCode::Tab) == Message::SwapTo(None),
        key_message(State::Adjusting, KeyCode::Esc) == Message::NoOp,
        key_message(State::Adjusting, KeyCode::Char('j')) == Message::NoOp,
{
}

/// While playing, space asks the sink to play or pause and changes nothing;
/// `>` seeks forward by the configured distance within the current track's
/// length, and does nothing when no track is current; Esc quits with code 0.
pub proof fn law_playback_commands(m: ModelView, room: VolumeRoom)
    requires
        m.state == State::Playing,
    ensures
        update_step(m, Message::PlayPause, room) == (m, EffectView::Send(CommandView::PlayPause)),
        update_step(m, Message::Escape, room) == (m, EffectView::Exit(0)),
        m.current_track_index is None ==> update_step(m, Message::SeekForward, room) == (m, EffectView::Nothing),
        m.current_track_index matches Some(i) ==> update_step(m, Message::SeekForward, room) == (
            m,
            EffectView::Send(CommandView::Forward(m.seek_distance, m.tracks[i as int].length as usize)),
        ),
{
}

/// While playing, `:` on the current track plays or pauses it; on another track
/// it makes that track current, marks only it among the two, and sends its file.
pub proof fn law_play_highlighted(m: ModelView, i: usize, room: VolumeRoom)
    requires
        m.state == State::Playing,
        m.table_selected == Some(i),
        i < m.tracks.len(),
        m.current_track_index matches Some(c) ==> c < m.tracks.len(),
    ensures
        m.current_track_index == Some(i) ==> update_step(m, Message::AppendTrack, room)
            == (m, EffectView::Send(CommandView::PlayPause)),
        m.current_track_index != Some(i) ==> ({
            let (r, e) = update_step(m, Message::AppendTrack, room);
            &&& r.current_track_index == Some(i)
            &&& r.tracks.len() == m.tracks.len()
            &&& r.tracks[i as int].is_playing
            &&& r.tracks[i as int].path == m.tracks[i as int].path
            &&& (m.current_track_index matches Some(c) ==> !r.tracks[c as int].is_playing)
            &&& forall|j: int| 0 <= j < m.tracks.len() && j != i && (m.current_track_index != Some(j as usize))
                ==> #[trigger] r.tracks[j] == m.tracks[j]
            &&& e == EffectView::Send(CommandView::New(m.tracks[i as int].path))
        }),
{
}

/// While searching, a typed character is appended to the keyword and Backspace
/// removes the last one (an empty keyword stays empty); either way the results
/// are those of the new keyword. Enter and Esc return to the player.
pub proof fn law_search_keys(m: ModelView, c: char, room: VolumeRoom)
    requires
        m.state == State::Searching,
    ensures
        update_step(m, Message::AppendKeyword(c), room).0.keyword == m.keyword.push(c),
        update_step(m, Message::AppendKeyword(c), room).0.matched_tracks == search_spec(m.tracks, m.keyword.push(c)),
        m.keyword.len() > 0 ==> update_step(m, Message::RemoveKeyword, room).0.keyword == m.keyword.subrange(0, m.keyword.len() - 1),
        m.keyword.len() == 0 ==> update_step(m, Message::RemoveKeyword, room).0.keyword == m.keyword,
        update_step(m, Message::RemoveKeyword, room).0.matched_tracks
            == search_spec(m.tracks, update_step(m, Message::RemoveKeyword, room).0.keyword),
        update_step(m, Message::Submit, room).0.state == State::Playing,
        update_step(m, Message::Escape, room).0.state == State::Playing,
        update_step(m, Message::AppendKeyword(c), room).0.tracks == m.tracks,
{
}

/// The cursor of the order menu moves down to the last of its four rows and no
/// further, and up to the first and no further.
pub proof fn law_menu_cursor(m: ModelView, i: usize, room: VolumeRoom)
    requires
        m.state == State::Configuring,
        m.order_selected == Some(i),
    ensures
        i < 3 ==> update_step(m, Message::Down, room).0.order_selected == Some((i + 1) as usize),
        i >= 3 ==> update_step(m, Message::Down, room).0.order_selected == Some(i),
        i > 0 ==> update_step(m, Message::Up, room).0.order_selected == Some((i - 1) as usize),
        i == 0 ==> update_step(m, Message::Up, room).0.order_selected == Some(0usize),
        update_step(m, Message::Escape, room).0.state == State::Playing,
{
}

/// While playing, `j` moves the library cursor one row down unless it is on the
/// last row of the loaded library, and `k` one row up unless it is on the first;
/// the scroll bar follows.
pub proof fn law_library_cursor(m: ModelView, i: usize, room: VolumeRoom)
    requires
        well_formed(m),
        m.state == State::Playing,
        m.table_selected == Some(i),
    ensures
        i + 1 < m.number_of_tracks ==> update_step(m, Message::Down, room).0.table_selected == Some((i + 1) as usize),
        i + 1 >= m.number_of_tracks ==> update_step(m, Message::Down, room).0 == m,
        i > 0 ==> update_step(m, Message::Up, room).0.table_selected == Some((i - 1) as usize),
        i == 0 ==> update_step(m, Message::Up, room).0.table_selected == Some(0usize),
        update_step(m, Message::Up, room).0.scrollbar_position == update_step(m, Message::Up, room).0.table_selected->0,
{
}

} // verus!
