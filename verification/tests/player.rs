use daph::config::Config;
use daph::message::{KeyCode, Message, State};
use daph::model::{Command, Effect, Order, PlayerModel, VolumeRoom, ADJUST_FRAMES};
use daph::player::{new_song, play_pause, sink_status, SinkOp};
use daph::track::Audio;
use daph::update::{
    adjusting_tick, apply_reorder, auto_queue, can_auto_queue, can_update, map_to_message, on_key,
    play_new_track, update,
};

const ROOM: VolumeRoom = VolumeRoom { can_raise: true, can_lower: true };

fn track(name: &str, author: &str, length: u64) -> Audio {
    Audio {
        is_playing: false,
        name: name.to_string(),
        author: author.to_string(),
        length,
        path: format!("/music/{name}.mp3").into_bytes(),
    }
}

fn model() -> PlayerModel {
    let config = Config { path: b"/music".to_vec(), seek_distance: 5 };
    let tracks = vec![
        track("Yesterday", "The Beatles", 125),
        track("Bohemian Rhapsody", "Queen", 354),
        track("Let It Be", "The Beatles", 243),
    ];
    PlayerModel::create(&config, tracks).unwrap()
}

fn press(m: &mut PlayerModel, previous: &mut State, key: KeyCode) -> Effect {
    let message = map_to_message(key, m);
    assert!(can_update(&message, m));
    on_key(key, m, previous, ROOM)
}

fn sent_path(e: &Effect) -> Option<Vec<u8>> {
    match e {
        Effect::Send(Command::New(p)) => Some(p.clone()),
        _ => None,
    }
}

fn playing_flags(m: &PlayerModel) -> Vec<bool> {
    m.tracks.iter().map(|t| t.is_playing).collect()
}

#[test]
fn an_empty_library_gives_no_player() {
    let config = Config { path: Vec::new(), seek_distance: 5 };
    assert!(PlayerModel::create(&config, Vec::new()).is_none());
}

#[test]
fn a_new_player_plays_nothing_with_cursors_on_top() {
    let m = model();
    assert_eq!(m.state, State::Playing);
    assert_eq!(m.number_of_tracks, 3);
    assert_eq!(m.current_track_index, None);
    assert_eq!(m.table_state.selected(), Some(0));
    assert_eq!(m.order_list_state.selected(), Some(0));
    assert_eq!(m.search_list_state.selected(), Some(0));
    assert_eq!(m.playback_order, Order::Artist);
    assert_eq!(m.seek_distance, 5);
    assert_eq!(m.keyword, "");
}

#[test]
fn key_table_while_playing() {
    let m = model();
    let cases = [
        ('j', Message::Down),
        ('k', Message::Up),
        (':', Message::AppendTrack),
        (' ', Message::PlayPause),
        ('n', Message::Next),
        ('p', Message::Previous),
        ('<', Message::SeekBack),
        ('>', Message::SeekForward),
        ('K', Message::SwapTo(Some(State::Adjusting))),
        ('J', Message::SwapTo(Some(State::Adjusting))),
        ('/', Message::SwapTo(Some(State::Searching))),
        ('D', Message::Delete),
        ('x', Message::NoOp),
    ];
    for (c, msg) in cases {
        assert_eq!(map_to_message(KeyCode::Char(c), &m), msg);
    }
    assert_eq!(map_to_message(KeyCode::Esc, &m), Message::Escape);
    assert_eq!(map_to_message(KeyCode::Tab, &m), Message::SwapTo(None));
    assert_eq!(map_to_message(KeyCode::Down, &m), Message::NoOp);
}

#[test]
fn key_table_in_other_modes() {
    let mut m = model();
    m.state = State::Searching;
    assert_eq!(map_to_message(KeyCode::Char('j'), &m), Message::AppendKeyword('j'));
    assert_eq!(map_to_message(KeyCode::Backspace, &m), Message::RemoveKeyword);
    assert_eq!(map_to_message(KeyCode::Enter, &m), Message::Submit);
    assert_eq!(map_to_message(KeyCode::Down, &m), Message::Down);
    assert_eq!(map_to_message(KeyCode::Up, &m), Message::Up);
    m.state = State::Configuring;
    assert_eq!(map_to_message(KeyCode::Char('j'), &m), Message::Down);
    assert_eq!(map_to_message(KeyCode::Enter, &m), Message::Submit);
    assert_eq!(map_to_message(KeyCode::Tab, &m), Message::SwapTo(None));
    m.state = State::Adjusting;
    assert_eq!(map_to_message(KeyCode::Char('K'), &m), Message::Up);
    assert_eq!(map_to_message(KeyCode::Char('J'), &m), Message::Down);
    assert_eq!(map_to_message(KeyCode::Esc, &m), Message::NoOp);
}

#[test]
fn cursor_moves_within_the_library() {
    let mut m = model();
    let mut prev = State::Playing;
    press(&mut m, &mut prev, KeyCode::Char('k'));
    assert_eq!(m.table_state.selected(), Some(0));
    press(&mut m, &mut prev, KeyCode::Char('j'));
    assert_eq!(m.table_state.selected(), Some(1));
    assert_eq!(m.scrollbar_position, 0);
    press(&mut m, &mut prev, KeyCode::Char('j'));
    press(&mut m, &mut prev, KeyCode::Char('j'));
    assert_eq!(m.table_state.selected(), Some(2));
    press(&mut m, &mut prev, KeyCode::Char('k'));
    assert_eq!(m.table_state.selected(), Some(1));
    assert_eq!(m.scrollbar_position, 1);
}

#[test]
fn playing_the_highlighted_track() {
    let mut m = model();
    let mut prev = State::Playing;
    press(&mut m, &mut prev, KeyCode::Char('j'));
    let e = press(&mut m, &mut prev, KeyCode::Char(':'));
    assert_eq!(sent_path(&e), Some(b"/music/Bohemian Rhapsody.mp3".to_vec()));
    assert_eq!(m.current_track_index, Some(1));
    assert_eq!(playing_flags(&m), vec![false, true, false]);
    // The same track again pauses it.
    let e = press(&mut m, &mut prev, KeyCode::Char(':'));
    assert!(matches!(e, Effect::Send(Command::PlayPause)));
    // Another track replaces it.
    press(&mut m, &mut prev, KeyCode::Char('j'));
    let e = press(&mut m, &mut prev, KeyCode::Char(':'));
    assert_eq!(sent_path(&e), Some(b"/music/Let It Be.mp3".to_vec()));
    assert_eq!(playing_flags(&m), vec![false, false, true]);
}

#[test]
fn next_and_previous_wrap_and_undo_each_other() {
    let mut m = model();
    let mut prev = State::Playing;
    press(&mut m, &mut prev, KeyCode::Char('j'));
    press(&mut m, &mut prev, KeyCode::Char('j'));
    press(&mut m, &mut prev, KeyCode::Char(':'));
    assert_eq!(m.current_track_index, Some(2));
    let e = press(&mut m, &mut prev, KeyCode::Char('n'));
    assert_eq!(m.current_track_index, Some(0));
    assert_eq!(sent_path(&e), Some(b"/music/Yesterday.mp3".to_vec()));
    assert_eq!(playing_flags(&m), vec![true, false, false]);
    let e = press(&mut m, &mut prev, KeyCode::Char('p'));
    assert_eq!(m.current_track_index, Some(2));
    assert_eq!(sent_path(&e), Some(b"/music/Let It Be.mp3".to_vec()));
    assert_eq!(playing_flags(&m), vec![false, false, true]);
}

#[test]
fn next_and_previous_do_nothing_before_a_track_played() {
    let mut m = model();
    let mut prev = State::Playing;
    assert!(matches!(press(&mut m, &mut prev, KeyCode::Char('n')), Effect::Nothing));
    assert!(matches!(press(&mut m, &mut prev, KeyCode::Char('p')), Effect::Nothing));
    assert_eq!(m.current_track_index, None);
}

#[test]
fn play_pause_and_seeking() {
    let mut m = model();
    let mut prev = State::Playing;
    assert!(matches!(press(&mut m, &mut prev, KeyCode::Char(' ')), Effect::Send(Command::PlayPause)));
    assert!(matches!(press(&mut m, &mut prev, KeyCode::Char('<')), Effect::Send(Command::Backward(5))));
    assert!(matches!(press(&mut m, &mut prev, KeyCode::Char('>')), Effect::Nothing));
    press(&mut m, &mut prev, KeyCode::Char(':'));
    assert!(matches!(press(&mut m, &mut prev, KeyCode::Char('>')), Effect::Send(Command::Forward(5, 125))));
}

#[test]
fn deleting_the_selected_track() {
    let mut m = model();
    let mut prev = State::Playing;
    press(&mut m, &mut prev, KeyCode::Char('j'));
    press(&mut m, &mut prev, KeyCode::Char('D'));
    let names: Vec<&str> = m.tracks.iter().map(|t| t.name.as_str()).collect();
    assert_eq!(names, vec!["Yesterday", "Let It Be"]);
    assert_eq!(m.number_of_tracks, 3);
    // The cursor now points past the library: a second delete would go out of range.
    press(&mut m, &mut prev, KeyCode::Char('j'));
    assert_eq!(m.table_state.selected(), Some(2));
    assert!(!can_update(&Message::Delete, &m));
}

#[test]
fn escape_in_the_player_ends_the_program() {
    let mut m = model();
    let mut prev = State::Playing;
    assert!(matches!(press(&mut m, &mut prev, KeyCode::Esc), Effect::Exit(0)));
}

#[test]
fn searching_types_erases_and_returns() {
    let mut m = model();
    let mut prev = State::Playing;
    press(&mut m, &mut prev, KeyCode::Char('/'));
    assert_eq!(m.state, State::Searching);
    press(&mut m, &mut prev, KeyCode::Char('E'));
    assert_eq!(m.keyword, "E");
    assert_eq!(m.matched_tracks, vec![0, 1, 2]);
    press(&mut m, &mut prev, KeyCode::Char('a'));
    assert_eq!(m.keyword, "Ea");
    assert_eq!(m.matched_tracks, vec![0, 2]);
    press(&mut m, &mut prev, KeyCode::Backspace);
    assert_eq!(m.keyword, "E");
    assert_eq!(m.matched_tracks, vec![0, 1, 2]);
    press(&mut m, &mut prev, KeyCode::Down);
    assert_eq!(m.search_list_state.selected(), Some(1));
    press(&mut m, &mut prev, KeyCode::Up);
    press(&mut m, &mut prev, KeyCode::Up);
    assert_eq!(m.search_list_state.selected(), Some(0));
    press(&mut m, &mut prev, KeyCode::Enter);
    assert_eq!(m.state, State::Playing);
    press(&mut m, &mut prev, KeyCode::Char('/'));
    press(&mut m, &mut prev, KeyCode::Esc);
    assert_eq!(m.state, State::Playing);
}

#[test]
fn backspace_on_an_empty_keyword_keeps_it_empty() {
    let mut m = model();
    let mut prev = State::Playing;
    press(&mut m, &mut prev, KeyCode::Char('/'));
    press(&mut m, &mut prev, KeyCode::Backspace);
    assert_eq!(m.keyword, "");
    assert_eq!(m.matched_tracks, vec![0, 1, 2]);
}

#[test]
fn search_cursor_stops_one_past_the_results() {
    let mut m = model();
    let mut prev = State::Playing;
    press(&mut m, &mut prev, KeyCode::Char('/'));
    press(&mut m, &mut prev, KeyCode::Char('q'));
    assert_eq!(m.matched_tracks, vec![1]);
    press(&mut m, &mut prev, KeyCode::Down);
    press(&mut m, &mut prev, KeyCode::Down);
    press(&mut m, &mut prev, KeyCode::Down);
    assert_eq!(m.search_list_state.selected(), Some(1));
}

#[test]
fn tab_twice_returns_to_the_player() {
    let mut m = model();
    let mut prev = State::Playing;
    press(&mut m, &mut prev, KeyCode::Tab);
    assert_eq!(m.state, State::Configuring);
    press(&mut m, &mut prev, KeyCode::Tab);
    assert_eq!(m.state, State::Playing);
}

#[test]
fn choosing_a_playback_order() {
    let mut m = model();
    let mut prev = State::Playing;
    press(&mut m, &mut prev, KeyCode::Tab);
    for _ in 0..5 {
        press(&mut m, &mut prev, KeyCode::Char('j'));
    }
    assert_eq!(m.order_list_state.selected(), Some(3));
    assert!(matches!(press(&mut m, &mut prev, KeyCode::Enter), Effect::Reorder(Order::Track)));
    press(&mut m, &mut prev, KeyCode::Char('k'));
    press(&mut m, &mut prev, KeyCode::Char('k'));
    assert!(matches!(press(&mut m, &mut prev, KeyCode::Enter), Effect::Reorder(Order::Album)));
    apply_reorder(Order::Album, Some(1), &mut m);
    assert_eq!(m.playback_order, Order::Album);
    assert_eq!(m.current_track_index, Some(1));
    apply_reorder(Order::Shuffle, None, &mut m);
    assert_eq!(m.playback_order, Order::Album);
    press(&mut m, &mut prev, KeyCode::Esc);
    assert_eq!(m.state, State::Playing);
}

#[test]
fn volume_mode_steps_and_times_out() {
    let mut m = model();
    let mut prev = State::Playing;
    press(&mut m, &mut prev, KeyCode::Char('K'));
    assert_eq!(m.state, State::Adjusting);
    assert_eq!(prev, State::Playing);
    assert!(matches!(press(&mut m, &mut prev, KeyCode::Char('K')), Effect::Send(Command::VolumeUp)));
    assert!(matches!(press(&mut m, &mut prev, KeyCode::Char('J')), Effect::Send(Command::VolumeDown)));
    assert_eq!(prev, State::Playing);
    for _ in 0..(ADJUST_FRAMES - 1) {
        adjusting_tick(&mut m, prev);
        assert_eq!(m.state, State::Adjusting);
    }
    // A volume key restarts the countdown.
    press(&mut m, &mut prev, KeyCode::Char('K'));
    assert_eq!(m.iteration_count, 0);
    for _ in 0..(ADJUST_FRAMES - 1) {
        adjusting_tick(&mut m, prev);
    }
    assert_eq!(m.state, State::Adjusting);
    adjusting_tick(&mut m, prev);
    assert_eq!(m.state, State::Playing);
    assert_eq!(m.iteration_count, 0);
}

#[test]
fn volume_keys_respect_the_room_left() {
    let mut m = model();
    m.state = State::Adjusting;
    let none = VolumeRoom { can_raise: false, can_lower: false };
    assert!(matches!(update(&Message::Up, &mut m, none), Effect::Nothing));
    assert!(matches!(update(&Message::Down, &mut m, none), Effect::Nothing));
}

#[test]
fn volume_mode_returns_to_the_search() {
    let mut m = model();
    let mut prev = State::Playing;
    m.state = State::Searching;
    // A key pressed while searching remembers the search mode.
    press(&mut m, &mut prev, KeyCode::Char('a'));
    assert_eq!(prev, State::Searching);
    m.state = State::Adjusting;
    for _ in 0..ADJUST_FRAMES {
        adjusting_tick(&mut m, prev);
    }
    assert_eq!(m.state, State::Searching);
}

#[test]
fn a_finished_track_is_followed_by_the_next() {
    let mut m = model();
    play_new_track(2, &mut m);
    assert!(can_auto_queue(&m));
    let e = auto_queue(&mut m);
    assert_eq!(m.current_track_index, Some(0));
    assert_eq!(sent_path(&e), Some(b"/music/Yesterday.mp3".to_vec()));
    assert_eq!(playing_flags(&m), vec![true, false, false]);
}

#[test]
fn nothing_follows_when_nothing_played() {
    let mut m = model();
    assert!(matches!(auto_queue(&mut m), Effect::Nothing));
}

#[test]
fn out_of_range_steps_are_refused() {
    let mut m = model();
    m.current_track_index = Some(7);
    assert!(!can_update(&Message::Next, &m));
    assert!(!can_update(&Message::Previous, &m));
    assert!(!can_update(&Message::SeekForward, &m));
    assert!(!can_auto_queue(&m));
    m.state = State::Searching;
    assert!(can_update(&Message::Next, &m));
}

#[test]
fn sink_play_pause_toggles() {
    assert!(matches!(play_pause(true), SinkOp::Play));
    assert!(matches!(play_pause(false), SinkOp::Pause));
}

#[test]
fn sink_new_song() {
    let ops = new_song(b"/a.mp3".to_vec(), true);
    assert_eq!(ops.len(), 3);
    assert!(matches!(&ops[0], SinkOp::Append(p) if p == b"/a.mp3"));
    assert!(matches!(ops[1], SinkOp::SkipOne));
    assert!(matches!(ops[2], SinkOp::Play));
    let ops = new_song(b"/b.mp3".to_vec(), false);
    assert_eq!(ops.len(), 2);
    assert!(matches!(ops[0], SinkOp::Stop));
    assert!(matches!(&ops[1], SinkOp::Append(p) if p == b"/b.mp3"));
}

#[test]
fn sink_reports_the_end_of_a_track_once() {
    let s = sink_status(0, false, true, true);
    assert!(s.current_track_finished);
    assert!(!s.is_playing);
    let s = sink_status(0, false, true, false);
    assert!(!s.current_track_finished);
    let s = sink_status(1, false, false, true);
    assert!(s.is_playing);
    assert!(!s.current_track_finished);
    let s = sink_status(1, true, false, true);
    assert!(!s.is_playing);
    assert_eq!(s.que_len, 1);
}

#[test]
fn the_end_of_a_track_is_reported_for_one_round() {
    let shown = [(1, false, false), (0, false, true), (0, false, true)];
    let mut was_playing = false;
    let mut finished = Vec::new();
    for (len, paused, empty) in shown {
        let s = sink_status(len, paused, empty, was_playing);
        finished.push(s.current_track_finished);
        was_playing = s.is_playing;
    }
    assert_eq!(finished, vec![false, true, false]);
}
