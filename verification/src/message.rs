//! The player's modes, the keys it reads, and the messages each key means in each mode.

use vstd::prelude::*;

verus! {

/// The mode the player is in; it decides what a key means.
#[derive(PartialEq, Eq, Structural, Debug, Clone, Copy)]
pub enum State {
    /// Typing a search keyword.
    Searching,
    /// Choosing the playback order.
    Configuring,
    /// Changing the volume; the mode ends by itself after a while.
    Adjusting,
    /// Browsing and playing the library.
    Playing,
}

/// The keys the player tells apart.
#[derive(PartialEq, Eq, Structural, Debug, Clone, Copy)]
pub enum KeyCode {
    Char(char),
    Tab,
    Esc,
    Enter,
    Backspace,
    Up,
    Down,
    /// Any other key.
    Other,
}

/// Everything the player can be asked to do.
#[derive(PartialEq, Eq, Structural, Debug, Clone, Copy)]
pub enum Message {
    /// A key without meaning in the current mode.
    NoOp,
    Submit,
    Escape,
    AppendKeyword(char),
    RemoveKeyword,
    Delete,
    SeekBack,
    SeekForward,
    PlayPause,
    AppendTrack,
    Up,
    Down,
    Next,
    Previous,
    /// Go to the given mode; with none, switch between playing and configuring.
    SwapTo(Option<State>),
}

/// Keys in the playback-order menu: Tab switches back to playing, `K` and `J`
/// open the volume, `j`/`k` move, Esc and Enter leave or choose.
pub open spec fn config_message(key: KeyCode) -> Message {
    match key {
        KeyCode::Tab => Message::SwapTo(None),
        KeyCode::Char('K') => Message::SwapTo(Some(State::Adjusting)),
        KeyCode::Char('J') => Message::SwapTo(Some(State::Adjusting)),
        KeyCode::Char('j') => Message::Down,
        KeyCode::Char('k') => Message::Up,
        KeyCode::Esc => Message::Escape,
        KeyCode::Enter => Message::Submit,
        _ => Message::NoOp,
    }
}

/// Keys while searching: characters are typed into the keyword, Backspace
/// removes one, Esc and Enter leave, the arrow keys move in the results.
pub open spec fn search_message(key: KeyCode) -> Message {
    match key {
        KeyCode::Char(c) => Message::AppendKeyword(c),
        KeyCode::Backspace => Message::RemoveKeyword,
        KeyCode::Esc => Message::Escape,
        KeyCode::Enter => Message::Submit,
        KeyCode::Down => Message::Down,
        KeyCode::Up => Message::Up,
        _ => Message::NoOp,
    }
}

/// Keys while playing, as the key table of the player lists them.
pub open spec fn playback_message(key: KeyCode) -> Message {
    match key {
        KeyCode::Char('K') => Message::SwapTo(Some(State::Adjusting)),
        KeyCode::Char('J') => Message::SwapTo(Some(State::Adjusting)),
        KeyCode::Char('/') => Message::SwapTo(Some(State::Searching)),
        KeyCode::Char(' ') => Message::PlayPause,
        KeyCode::Char(':') => Message::AppendTrack,
        KeyCode::Char('D') => Message::Delete,
        KeyCode::Char('j') => Message::Down,
        KeyCode::Char('k') => Message::Up,
        KeyCode::Char('p') => Message::Previous,
        KeyCode::Char('n') => Message::Next,
        KeyCode::Char('<') => Message::SeekBack,
        KeyCode::Char('>') => Message::SeekForward,
        KeyCode::Tab => Message::SwapTo(None),
        KeyCode::Esc => Message::Escape,
        _ => Message::NoOp,
    }
}

/// Keys while the volume is shown: `K` raises it, `J` lowers it.
pub open spec fn volume_message(key: KeyCode) -> Message {
    match key {
        KeyCode::Char('K') => Message::Up,
        KeyCode::Char('J') => Message::Down,
        _ => Message::NoOp,
    }
}

/// What a key means in a mode.
pub open spec fn key_message(state: State, key: KeyCode) -> Message {
    match state {
        State::Searching => search_message(key),
        State::Configuring => config_message(key),
        State::Playing => playback_message(key),
        State::Adjusting => volume_message(key),
    }
}

/// What a key means in the playback-order menu.
pub fn from_config(key: KeyCode) -> (res: Message)
    ensures
        res == config_message(key),
{
    match key {
        KeyCode::Tab => Message::SwapTo(None),
        KeyCode::Char(c) => {
            if c == 'K' || c == 'J' {
                Message::SwapTo(Some(State::Adjusting))
            } else if c == 'j' {
                Message::Down
            } else if c == 'k' {
                Message::Up
            } else {
                Message::NoOp
            }
        },
        KeyCode::Esc => Message::Escape,
        KeyCode::Enter => Message::Submit,
        _ => Message::NoOp,
    }
}

/// What a key means while searching.
pub fn from_search(key: KeyCode) -> (res: Message)
    ensures
        res == search_message(key),
{
    match key {
        KeyCode::Char(c) => Message::AppendKeyword(c),
        KeyCode::Backspace => Message::RemoveKeyword,
        KeyCode::Esc => Message::Escape,
        KeyCode::Enter => Message::Submit,
        KeyCode::Down => Message::Down,
        KeyCode::Up => Message::Up,
        _ => Message::NoOp,
    }
}

/// What a key means while playing.
pub fn from_playback(key: KeyCode) -> (res: Message)
    ensures
        res == playback_message(key),
{
    match key {
        KeyCode::Char(c) => {
            if c == 'K' || c == 'J' {
                Message::SwapTo(Some(State::Adjusting))
            } else if c == '/' {
                Message::SwapTo(Some(State::Searching))
            } else if c == ' ' {
                Message::PlayPause
            } else if c == ':' {
                Message::AppendTrack
            } else if c == 'D' {
                Message::Delete
            } else if c == 'j' {
                Message::Down
            } else if c == 'k' {
                Message::Up
            } else if c == 'p' {
                Message::Previous
            } else if c == 'n' {
                Message::Next
            } else if c == '<' {
                Message::SeekBack
            } else if c == '>' {
                Message::SeekForward
            } else {
                Message::NoOp
            }
        },
        KeyCode::Tab => Message::SwapTo(None),
        KeyCode::Esc => Message::Escape,
        _ => Message::NoOp,
    }
}

/// What a key means while the volume is shown.
pub fn from_volume(key: KeyCode) -> (res: Message)
    ensures
        res == volume_message(key),
{
    match key {
        KeyCode::Char(c) => {
            if c == 'K' {
                Message::Up
            } else if c == 'J' {
                Message::Down
            } else {
                Message::NoOp
            }
        },
        _ => Message::NoOp,
    }
}

} // verus!
