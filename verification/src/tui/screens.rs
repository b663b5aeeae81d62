use vstd::prelude::*;

verus! {

/// The screen on top of the game screen.
#[derive(Debug, Clone, Copy, PartialEq, Eq, Structural)]
pub enum CurrentScreen {
    Game,
    Search,
    Help,
    ProcessSelection,
    ThemeSelection,
    GameScreenSelection,
    AttachOptions,
    Debug,
}

/// A key, as the top level of the interface tells keys apart.
#[derive(Debug, Clone, Copy, PartialEq, Eq, Structural)]
pub enum AppKey {
    Char(char),
    F(u8),
    Enter,
    Esc,
    Other,
}

/// A key press: the key, and whether Control alone was held with it.
#[derive(Debug, Clone, Copy, PartialEq, Eq, Structural)]
pub struct KeyPress {
    pub key: AppKey,
    pub control: bool,
}

/// The screen that a global shortcut opens: `a` the attach options, F1 the
/// help, `p` the process list, `o` the game screen list, Control-F12 the
/// debug screen and F12 the themes.
pub open spec fn spec_shortcut(key: KeyPress) -> Option<CurrentScreen> {
    match key.key {
        AppKey::Char(c) => if c == 'a' {
            Some(CurrentScreen::AttachOptions)
        } else if c == 'p' {
            Some(CurrentScreen::ProcessSelection)
        } else if c == 'o' {
            Some(CurrentScreen::GameScreenSelection)
        } else {
            None
        },
        AppKey::F(n) => if n == 1 {
            Some(CurrentScreen::Help)
        } else if n == 12 && key.control {
            Some(CurrentScreen::Debug)
        } else if n == 12 {
            Some(CurrentScreen::ThemeSelection)
        } else {
            None
        },
        _ => None,
    }
}

/// The screen that a global shortcut opens, if the key is one.
pub fn shortcut_screen(key: KeyPress) -> (r: Option<CurrentScreen>)
    ensures
        r == spec_shortcut(key),
{
    match key.key {
        AppKey::Char(c) => if c == 'a' {
            Some(CurrentScreen::AttachOptions)
        } else if c == 'p' {
            Some(CurrentScreen::ProcessSelection)
        } else if c == 'o' {
            Some(CurrentScreen::GameScreenSelection)
        } else {
            None
        },
        AppKey::F(n) => if n == 1 {
            Some(CurrentScreen::Help)
        } else if n == 12 && key.control {
            Some(CurrentScreen::Debug)
        } else if n == 12 {
            Some(CurrentScreen::ThemeSelection)
        } else {
            None
        },
        _ => None,
    }
}

/// Where a screen's own handling of a key leads: any key closes the help
/// and debug screens, Enter and Esc close the search; the other screens are
/// left to their own widgets.
pub open spec fn spec_own_keys(current: CurrentScreen, key: KeyPress) -> CurrentScreen {
    match current {
        CurrentScreen::Help | CurrentScreen::Debug => CurrentScreen::Game,
        CurrentScreen::Search => if key.key == AppKey::Enter || key.key == AppKey::Esc {
            CurrentScreen::Game
        } else {
            CurrentScreen::Search
        },
        _ => current,
    }
}

/// The screen after a key press: the screen's own handling, then the global
/// shortcuts, which win.
pub fn next_screen(current: CurrentScreen, key: KeyPress) -> (r: CurrentScreen)
    ensures
        r == match spec_shortcut(key) {
            Some(s) => s,
            None => spec_own_keys(current, key),
        },
{
    let own = match current {
        CurrentScreen::Help | CurrentScreen::Debug => CurrentScreen::Game,
        CurrentScreen::Search => match key.key {
            AppKey::Enter | AppKey::Esc => CurrentScreen::Game,
            _ => CurrentScreen::Search,
        },
        _ => current,
    };
    match shortcut_screen(key) {
        Some(s) => s,
        None => own,
    }
}

/// Control-C stops the interface, whatever the screen.
pub fn quits(key: KeyPress) -> (r: bool)
    ensures
        r == (key.key == AppKey::Char('c') && key.control),
{
    match key.key {
        AppKey::Char(c) => c == 'c' && key.control,
        _ => false,
    }
}

/// What the top level does with a key.
#[derive(Debug)]
pub enum KeyRoute {
    /// The key edits the input line.
    EditInput,
    /// The input line's callback runs, once, on this text.
    SubmitInput(String),
    /// The input line is dropped without its callback.
    CancelInput,
    /// The key goes to the current screen, then to the global shortcuts.
    Dispatch,
}

/// The state of the interface that the top-level key handler changes.
#[derive(Debug)]
pub struct AppKeyState {
    pub running: bool,
    pub show_err: bool,
    pub show_input: bool,
    pub input_text: String,
}

/// The top-level key handler: Control-C stops the interface and any key
/// clears a shown error. While the input line is shown, Enter submits its
/// text once and Esc drops it, both clearing and closing the line, and any
/// other key edits it; the screens and the shortcuts then see nothing.
/// Otherwise the key is dispatched.
pub fn handle_keys(state: AppKeyState, key: KeyPress) -> (r: (AppKeyState, KeyRoute))
    ensures
        r.0.running == (state.running && !(key.key == AppKey::Char('c') && key.control)),
        !r.0.show_err,
        state.show_input ==> match key.key {
            AppKey::Enter => {
                &&& r.1 matches KeyRoute::SubmitInput(t) && t@ == state.input_text@
                &&& r.0.input_text@ == Seq::<char>::empty()
                &&& !r.0.show_input
            },
            AppKey::Esc => {
                &&& r.1 is CancelInput
                &&& r.0.input_text@ == Seq::<char>::empty()
                &&& !r.0.show_input
            },
            _ => {
                &&& r.1 is EditInput
                &&& r.0.input_text@ == state.input_text@
                &&& r.0.show_input
            },
        },
        !state.show_input ==> {
            &&& r.1 is Dispatch
            &&& r.0.input_text@ == state.input_text@
            &&& !r.0.show_input
        },
{
    let AppKeyState { running, show_err: _, show_input, input_text } = state;
    let running = running && !quits(key);
    if show_input {
        match key.key {
            AppKey::Enter => (
                AppKeyState { running, show_err: false, show_input: false, input_text: String::new() },
                KeyRoute::SubmitInput(input_text),
            ),
            AppKey::Esc => (
                AppKeyState { running, show_err: false, show_input: false, input_text: String::new() },
                KeyRoute::CancelInput,
            ),
            _ => (AppKeyState { running, show_err: false, show_input: true, input_text }, KeyRoute::EditInput),
        }
    } else {
        (AppKeyState { running, show_err: false, show_input: false, input_text }, KeyRoute::Dispatch)
    }
}

} // verus!
