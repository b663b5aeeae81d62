use vstd::prelude::*;
use crate::tui::input_prompt::PromptType;
use crate::tui::screens::{AppKey, KeyPress};

verus! {

/// The keys that move the highlighted byte of the memory viewer.
#[derive(Debug, Clone, Copy, PartialEq, Eq, Structural)]
pub enum NavKey {
    /// `h`: one byte back.
    Left,
    /// `l`: one byte on.
    Right,
    /// `j`: one row down.
    Down,
    /// `k`: one row up.
    Up,
}

/// A change to make to the memory viewer: move the highlighted byte, or
/// move the first shown address, by a number of bytes.
#[derive(Debug, Clone, Copy, PartialEq, Eq, Structural)]
pub enum ViewerStep {
    Highlight(i64),
    Base(i64),
}

/// The moves for a navigation key, with `bpr` bytes in a row, `fh` rows on
/// the screen and the highlighted byte at `h`.
pub open spec fn spec_navigate(bpr: i64, fh: i64, key: NavKey, h: u64) -> Seq<ViewerStep> {
    match key {
        NavKey::Right => seq![ViewerStep::Highlight(1)],
        NavKey::Left => if h == 0 {
            seq![ViewerStep::Base(-bpr as i64), ViewerStep::Highlight(-1i64)]
        } else {
            seq![ViewerStep::Highlight(-1i64)]
        },
        NavKey::Down => if h >= ((bpr * (fh - 1)) as i64) as u64 {
            seq![ViewerStep::Base(bpr), ViewerStep::Highlight(bpr)]
        } else {
            seq![ViewerStep::Highlight(bpr)]
        },
        NavKey::Up => if h < bpr as u64 {
            seq![ViewerStep::Base(-bpr as i64), ViewerStep::Highlight(-bpr as i64)]
        } else {
            seq![ViewerStep::Highlight(-bpr as i64)]
        },
    }
}

/// Whether the highlighted byte at `h` lies below the `fh` rows of `bpr`
/// bytes that the screen shows.
pub open spec fn spec_past_bottom(bpr: i64, fh: i64, h: u64) -> bool {
    bpr != 0 && h / (bpr as u64) >= fh
}

/// What a key does to the memory viewer, as the screen decides it.
#[derive(Debug)]
pub enum ViewerKeyOutcome {
    /// The key closed the help, and does nothing else.
    HelpClosed,
    /// Nothing happens.
    Nothing,
    /// Move the highlighted byte and the view; after moving right, the view
    /// scrolls as [`MemoryViewerScreen::scroll_after_right`] gives for the
    /// new highlighted byte.
    Move(Vec<ViewerStep>),
    /// Run this command (`Close` leaves the screen).
    Run(ViewerCommand),
}

/// The memory viewer's layout: how many bytes fit in a row, how many rows
/// fit on the screen, and whether the help is shown.
pub struct MemoryViewerScreen {
    bytes_per_row: i64,
    frame_heigth: i64,
    show_help: bool,
}

impl MemoryViewerScreen {
    #[verifier::type_invariant]
    spec fn layout_fits(&self) -> bool {
        &&& 0 <= self.bytes_per_row <= 21845
        &&& 0 <= self.frame_heigth <= u16::MAX
    }

    pub closed spec fn spec_bytes_per_row(&self) -> i64 {
        self.bytes_per_row
    }

    pub closed spec fn spec_frame_heigth(&self) -> i64 {
        self.frame_heigth
    }

    pub closed spec fn spec_show_help(&self) -> bool {
        self.show_help
    }

    /// A screen that has not been laid out yet.
    pub fn new() -> (r: MemoryViewerScreen)
        ensures
            r.spec_bytes_per_row() == 0,
            r.spec_frame_heigth() == 0,
            !r.spec_show_help(),
    {
        MemoryViewerScreen { bytes_per_row: 0, frame_heigth: 0, show_help: false }
    }

    /// Lays the screen out for an area of `width` columns and `height` rows:
    /// each byte takes two columns and a space.
    pub fn update_width_and_heigth(&mut self, width: u16, height: u16)
        requires
            width < u16::MAX,
        ensures
            final(self).spec_bytes_per_row() == (width + 1) / 3,
            final(self).spec_frame_heigth() == height,
            final(self).spec_show_help() == old(self).spec_show_help(),
    {
        proof {
            use_type_invariant(&*self);
        }
        self.bytes_per_row = ((width + 1) / 3) as i64;
        self.frame_heigth = height as i64;
    }

    /// The row of the highlighted byte, while the rows have a width.
    pub fn current_row(&self, highlighted_offset: u64) -> (r: Option<u64>)
        ensures
            self.spec_bytes_per_row() == 0 ==> r is None,
            self.spec_bytes_per_row() != 0 ==> r == Some((highlighted_offset / (self.spec_bytes_per_row() as u64)) as u64),
    {
        proof {
            use_type_invariant(self);
        }
        if self.bytes_per_row == 0 {
            None
        } else {
            Some(highlighted_offset / self.bytes_per_row as u64)
        }
    }

    /// Whether the highlighted byte has left the bottom of the screen, so
    /// that the view must scroll down a row.
    pub fn past_bottom(&self, highlighted_offset: u64) -> (r: bool)
        ensures
            r == spec_past_bottom(self.spec_bytes_per_row(), self.spec_frame_heigth(), highlighted_offset),
    {
        proof {
            use_type_invariant(self);
        }
        match self.current_row(highlighted_offset) {
            Some(row) => row >= self.frame_heigth as u64,
            None => false,
        }
    }

    /// The scroll after the highlighted byte moved right to `new_offset`:
    /// one row down (`Some` of the bytes in a row) when it has left the
    /// bottom of the screen, as [`MemoryViewerScreen::past_bottom`] tells;
    /// `None` otherwise.
    pub fn scroll_after_right(&self, new_offset: u64) -> (r: Option<i64>)
        ensures
            r == (if spec_past_bottom(self.spec_bytes_per_row(), self.spec_frame_heigth(), new_offset) {
                Some(self.spec_bytes_per_row())
            } else {
                None
            }),
    {
        if self.past_bottom(new_offset) {
            Some(self.bytes_per_row)
        } else {
            None
        }
    }

    /// The moves for a navigation key, with the highlighted byte at
    /// `highlighted_offset` from the first shown address. Moving right
    /// highlights the next byte, after which the view scrolls when
    /// `past_bottom` says so. Moving left from the first byte, down from the
    /// last row or up from the first row scrolls the view by a row first.
    pub fn navigate(&self, key: NavKey, highlighted_offset: u64) -> (r: Vec<ViewerStep>)
        ensures
            r@ == spec_navigate(self.spec_bytes_per_row(), self.spec_frame_heigth(), key, highlighted_offset),
    {
        proof {
            use_type_invariant(self);
        }
        let bpr = self.bytes_per_row;
        let mut r: Vec<ViewerStep> = Vec::new();
        match key {
            NavKey::Right => {
                r.push(ViewerStep::Highlight(1));
            },
            NavKey::Left => {
                if highlighted_offset == 0 {
                    r.push(ViewerStep::Base(-bpr));
                }
                r.push(ViewerStep::Highlight(-1));
            },
            NavKey::Down => {
                proof {
                    let fh = self.frame_heigth;
                    assert(-21845 <= bpr * (fh - 1) <= 21845 * 65535) by (nonlinear_arith)
                        requires
                            0 <= bpr <= 21845,
                            0 <= fh <= 65535,
                    ;
                }
                let last_row_start = bpr * (self.frame_heigth - 1);
                if highlighted_offset >= last_row_start as u64 {
                    r.push(ViewerStep::Base(bpr));
                }
                r.push(ViewerStep::Highlight(bpr));
            },
            NavKey::Up => {
                if highlighted_offset < bpr as u64 {
                    r.push(ViewerStep::Base(-bpr));
                }
                r.push(ViewerStep::Highlight(-bpr));
            },
        }
        assert(r@ =~= match key {
            NavKey::Right => seq![ViewerStep::Highlight(1)],
            NavKey::Left => if highlighted_offset == 0 {
                seq![ViewerStep::Base(-bpr as i64), ViewerStep::Highlight(-1i64)]
            } else {
                seq![ViewerStep::Highlight(-1i64)]
            },
            NavKey::Down => if highlighted_offset >= ((bpr * (self.frame_heigth - 1)) as i64) as u64 {
                seq![ViewerStep::Base(bpr), ViewerStep::Highlight(bpr)]
            } else {
                seq![ViewerStep::Highlight(bpr)]
            },
            NavKey::Up => if highlighted_offset < bpr as u64 {
                seq![ViewerStep::Base(-bpr as i64), ViewerStep::Highlight(-bpr as i64)]
            } else {
                seq![ViewerStep::Highlight(-bpr as i64)]
            },
        });
        r
    }

    /// How far to scroll after the highlighted byte jumped to
    /// `highlighted_offset`: when it lies `diff` rows below the screen, the
    /// view moves down `diff + 3` rows; otherwise it stays.
    pub fn scroll_after_jump(&self, highlighted_offset: u64) -> (r: Option<i64>)
        requires
            self.spec_bytes_per_row() != 0 ==> (highlighted_offset / (self.spec_bytes_per_row() as u64)
                - self.spec_frame_heigth() + 3) * self.spec_bytes_per_row() <= i64::MAX,
        ensures
            ({
                let bpr = self.spec_bytes_per_row();
                let fh = self.spec_frame_heigth();
                if bpr == 0 {
                    r is None
                } else {
                    let row = highlighted_offset / (bpr as u64);
                    if row > fh {
                        r == Some(((row - fh + 3) * bpr) as i64)
                    } else {
                        r is None
                    }
                }
            }),
    {
        proof {
            use_type_invariant(self);
        }
        match self.current_row(highlighted_offset) {
            Some(row) => {
                let diff = row.saturating_sub(self.frame_heigth as u64);
                if diff > 0 {
                    proof {
                        assert(diff + 3 <= i64::MAX) by (nonlinear_arith)
                            requires
                                (diff + 3) * self.bytes_per_row <= i64::MAX,
                                self.bytes_per_row >= 1,
                        ;
                        assert((diff + 3) * self.bytes_per_row >= 0) by (nonlinear_arith)
                            requires
                                diff >= 0,
                                self.bytes_per_row >= 1,
                        ;
                    }
                    Some((diff as i64 + 3) * self.bytes_per_row)
                } else {
                    None
                }
            },
            None => None,
        }
    }

    /// Reacts to a key while the help may be shown: any key closes the help
    /// and is used up by that, F1 opens it. Tells whether the key was used.
    pub fn handle_help_keys(&mut self, is_f1: bool) -> (used: bool)
        ensures
            old(self).spec_show_help() ==> used && !final(self).spec_show_help(),
            !old(self).spec_show_help() ==> !used && final(self).spec_show_help() == is_f1,
            final(self).spec_bytes_per_row() == old(self).spec_bytes_per_row(),
            final(self).spec_frame_heigth() == old(self).spec_frame_heigth(),
    {
        proof {
            use_type_invariant(&*self);
        }
        if self.show_help {
            self.show_help = false;
            return true;
        }
        if is_f1 {
            self.show_help = true;
        }
        false
    }
}

/// What a key does in the memory viewer.
#[derive(Debug, Clone, Copy, PartialEq, Eq, Structural)]
pub enum ViewerCommand {
    Navigate(NavKey),
    ShowHelp,
    CopyAbsoluteAddress,
    CopyRelativeAddress,
    CopyQword,
    CopyDword,
    UndoJump,
    RedoJump,
    JumpRelativeAtHighlighted,
    JumpAbsoluteAtHighlighted,
    Close,
    WriteByte,
    WriteQword,
    WriteDword,
    JumpAbsolute,
    JumpModuleRelative,
    IncrementSelected,
}

/// The command of a key: letters with Control first, then the plain ones.
pub open spec fn spec_viewer_command(key: KeyPress) -> Option<ViewerCommand> {
    match key.key {
        AppKey::Char(c) => if c == 'l' {
            Some(ViewerCommand::Navigate(NavKey::Right))
        } else if c == 'h' {
            Some(ViewerCommand::Navigate(NavKey::Left))
        } else if c == 'j' {
            Some(ViewerCommand::Navigate(NavKey::Down))
        } else if c == 'k' {
            Some(ViewerCommand::Navigate(NavKey::Up))
        } else if c == 'y' {
            Some(if key.control { ViewerCommand::CopyAbsoluteAddress } else { ViewerCommand::CopyRelativeAddress })
        } else if c == 'q' {
            Some(if key.control { ViewerCommand::CopyQword } else { ViewerCommand::WriteQword })
        } else if c == 'd' {
            Some(if key.control { ViewerCommand::CopyDword } else { ViewerCommand::WriteDword })
        } else if c == 'u' {
            Some(ViewerCommand::UndoJump)
        } else if c == 'r' && key.control {
            Some(ViewerCommand::RedoJump)
        } else if c == 'b' {
            Some(if key.control { ViewerCommand::JumpRelativeAtHighlighted } else { ViewerCommand::JumpAbsoluteAtHighlighted })
        } else if c == 'g' {
            Some(if key.control { ViewerCommand::JumpAbsolute } else { ViewerCommand::JumpModuleRelative })
        } else if c == 'i' {
            Some(ViewerCommand::IncrementSelected)
        } else {
            None
        },
        AppKey::F(n) => if n == 1 {
            Some(ViewerCommand::ShowHelp)
        } else {
            None
        },
        AppKey::Esc => Some(ViewerCommand::Close),
        AppKey::Enter => Some(ViewerCommand::WriteByte),
        AppKey::Other => None,
    }
}

/// The command of a key in the memory viewer, if it has one.
pub fn viewer_command(key: KeyPress) -> (r: Option<ViewerCommand>)
    ensures
        r == spec_viewer_command(key),
{
    match key.key {
        AppKey::Char(c) => if c == 'l' {
            Some(ViewerCommand::Navigate(NavKey::Right))
        } else if c == 'h' {
            Some(ViewerCommand::Navigate(NavKey::Left))
        } else if c == 'j' {
            Some(ViewerCommand::Navigate(NavKey::Down))
        } else if c == 'k' {
            Some(ViewerCommand::Navigate(NavKey::Up))
        } else if c == 'y' {
            Some(if key.control { ViewerCommand::CopyAbsoluteAddress } else { ViewerCommand::CopyRelativeAddress })
        } else if c == 'q' {
            Some(if key.control { ViewerCommand::CopyQword } else { ViewerCommand::WriteQword })
        } else if c == 'd' {
            Some(if key.control { ViewerCommand::CopyDword } else { ViewerCommand::WriteDword })
        } else if c == 'u' {
            Some(ViewerCommand::UndoJump)
        } else if c == 'r' && key.control {
            Some(ViewerCommand::RedoJump)
        } else if c == 'b' {
            Some(if key.control { ViewerCommand::JumpRelativeAtHighlighted } else { ViewerCommand::JumpAbsoluteAtHighlighted })
        } else if c == 'g' {
            Some(if key.control { ViewerCommand::JumpAbsolute } else { ViewerCommand::JumpModuleRelative })
        } else if c == 'i' {
            Some(ViewerCommand::IncrementSelected)
        } else {
            None
        },
        AppKey::F(n) => if n == 1 {
            Some(ViewerCommand::ShowHelp)
        } else {
            None
        },
        AppKey::Esc => Some(ViewerCommand::Close),
        AppKey::Enter => Some(ViewerCommand::WriteByte),
        AppKey::Other => None,
    }
}

/// The value a command asks for before it runs: the prompt's title and type.
pub open spec fn spec_input_request(cmd: ViewerCommand) -> Option<(Seq<char>, PromptType)> {
    match cmd {
        ViewerCommand::WriteByte => Some(("Write byte"@, PromptType::U8)),
        ViewerCommand::WriteQword => Some(("Write qword"@, PromptType::U64)),
        ViewerCommand::WriteDword => Some(("Write dword"@, PromptType::U32)),
        ViewerCommand::JumpAbsolute => Some(("Jump absolute"@, PromptType::U64)),
        ViewerCommand::JumpModuleRelative => Some(("Jump module relative"@, PromptType::U64)),
        ViewerCommand::IncrementSelected => Some(("Increment selected"@, PromptType::I64)),
        _ => None,
    }
}

/// The prompt that a command opens for its value, if it needs one.
pub fn input_request(cmd: ViewerCommand) -> (r: Option<(&'static str, PromptType)>)
    ensures
        match spec_input_request(cmd) {
            Some((title, t)) => r matches Some((s, u)) && s@ == title && u == t,
            None => r is None,
        },
{
    match cmd {
        ViewerCommand::WriteByte => Some(("Write byte", PromptType::U8)),
        ViewerCommand::WriteQword => Some(("Write qword", PromptType::U64)),
        ViewerCommand::WriteDword => Some(("Write dword", PromptType::U32)),
        ViewerCommand::JumpAbsolute => Some(("Jump absolute", PromptType::U64)),
        ViewerCommand::JumpModuleRelative => Some(("Jump module relative", PromptType::U64)),
        ViewerCommand::IncrementSelected => Some(("Increment selected", PromptType::I64)),
        _ => None,
    }
}

impl MemoryViewerScreen {
    /// The memory viewer's key handler, with the highlighted byte at
    /// `highlighted_offset`: while the help is shown any key only closes it;
    /// otherwise F1 opens the help, the navigation keys move, Esc leaves the
    /// screen and the other commands run. After a move right the caller
    /// scrolls by [`MemoryViewerScreen::scroll_after_right`] of the new
    /// highlighted byte.
    pub fn handle_keys(&mut self, key: KeyPress, highlighted_offset: u64) -> (r: ViewerKeyOutcome)
        ensures
            final(self).spec_bytes_per_row() == old(self).spec_bytes_per_row(),
            final(self).spec_frame_heigth() == old(self).spec_frame_heigth(),
            old(self).spec_show_help() ==> r is HelpClosed && !final(self).spec_show_help(),
            !old(self).spec_show_help() ==> match spec_viewer_command(key) {
                None => r is Nothing && !final(self).spec_show_help(),
                Some(ViewerCommand::ShowHelp) => r is Nothing && final(self).spec_show_help(),
                Some(ViewerCommand::Navigate(k)) => !final(self).spec_show_help() && (r matches ViewerKeyOutcome::Move(v)
                    && v@ == spec_navigate(
                    old(self).spec_bytes_per_row(),
                    old(self).spec_frame_heigth(),
                    k,
                    highlighted_offset,
                )),
                Some(c) => !final(self).spec_show_help() && (r matches ViewerKeyOutcome::Run(x) && x == c),
            },
    {
        let command = viewer_command(key);
        let is_f1 = match command {
            Some(ViewerCommand::ShowHelp) => true,
            _ => false,
        };
        if self.handle_help_keys(is_f1) {
            return ViewerKeyOutcome::HelpClosed;
        }
        match command {
            None => ViewerKeyOutcome::Nothing,
            Some(ViewerCommand::ShowHelp) => ViewerKeyOutcome::Nothing,
            Some(ViewerCommand::Navigate(k)) => ViewerKeyOutcome::Move(self.navigate(k, highlighted_offset)),
            Some(c) => ViewerKeyOutcome::Run(c),
        }
    }
}

} // verus!
