//! The screens around the running game: the title menu, the instructions, the
//! scrolling credits, and the test screens. Each screen's decisions are here;
//! drawing is the caller's.
use vstd::prelude::*;
use crate::types::GameStatus;
use crate::runner::{Input, Key, CAM_H};

verus! {

/// The title menu.
pub struct Title;

impl Title {
    pub fn init() -> (r: Result<Title, String>)
        ensures
            r is Ok,
    {
        Ok(Title)
    }

    /// The menu's answer to an input: `None` to stay on the menu, or the
    /// screen to go to, where `Some(None)` quits. Escape, Q or closing the
    /// window quits; P or space plays; C shows the credits; I the instructions.
    pub fn handle_input(input: Input) -> (r: Option<Option<GameStatus>>)
        ensures
            r == (match input {
                Input::Quit => Some(None),
                Input::KeyDown(Key::Escape) | Input::KeyDown(Key::Q) => Some(None),
                Input::KeyDown(Key::P) | Input::KeyDown(Key::Space) => Some(Some(GameStatus::Game)),
                Input::KeyDown(Key::C) => Some(Some(GameStatus::Credits)),
                Input::KeyDown(Key::I) => Some(Some(GameStatus::Instruct)),
                _ => None,
            }),
    {
        match input {
            Input::Quit | Input::KeyDown(Key::Escape) | Input::KeyDown(Key::Q) => Some(None),
            Input::KeyDown(Key::P) | Input::KeyDown(Key::Space) => Some(Some(GameStatus::Game)),
            Input::KeyDown(Key::C) => Some(Some(GameStatus::Credits)),
            Input::KeyDown(Key::I) => Some(Some(GameStatus::Instruct)),
            _ => None,
        }
    }
}

/// Frames each page of the instructions stays on screen, less one.
pub const PAGE_FRAMES: i32 = 180;

/// Number of pages of the instructions.
pub const PAGE_COUNT: i32 = 4;

/// The instructions: four pages shown one after the other.
pub struct Instruction;

impl Instruction {
    pub fn init() -> (r: Result<Instruction, String>)
        ensures
            r is Ok,
    {
        Ok(Instruction)
    }

    /// The answer to an input: `Some` screen to leave to, or `None` to stay.
    /// Closing the window goes to the credits; Escape or Q to the main menu.
    pub fn handle_input(input: Input) -> (r: Option<GameStatus>)
        ensures
            r == (match input {
                Input::Quit => Some(GameStatus::Credits),
                Input::KeyDown(Key::Escape) | Input::KeyDown(Key::Q) => Some(GameStatus::Main),
                _ => None,
            }),
    {
        match input {
            Input::Quit => Some(GameStatus::Credits),
            Input::KeyDown(Key::Escape) | Input::KeyDown(Key::Q) => Some(GameStatus::Main),
            _ => None,
        }
    }
}

/// Where the instructions are: the page shown and the frames it has been shown.
pub struct InstructionState {
    pub timer: i32,
    pub which: i32,
}

/// The page shown in frame `k` of the instructions, counting from 0: each
/// page for `PAGE_FRAMES + 1` frames, and past the last page none (-1).
pub open spec fn page_at(k: int) -> int {
    if k < (PAGE_FRAMES + 1) * PAGE_COUNT {
        k / (PAGE_FRAMES + 1)
    } else {
        -1
    }
}

impl InstructionState {
    /// The bounds every frame keeps.
    pub open spec fn wf(&self) -> bool {
        &&& 0 <= self.timer <= PAGE_FRAMES + 1
        &&& 0 <= self.which <= PAGE_COUNT
    }

    /// The number of frames shown so far.
    pub open spec fn frames_shown(&self) -> int {
        self.which * (PAGE_FRAMES + 1) + self.timer
    }

    /// At the first page, nothing shown yet.
    pub fn new() -> (s: InstructionState)
        ensures
            s.wf(),
            s.timer == 0,
            s.which == 0,
            s.frames_shown() == 0,
    {
        InstructionState { timer: 0, which: 0 }
    }

    /// Advances by one frame: once a page has been shown long enough, the next
    /// one comes. Returns the page to show in this frame, or `None` when all
    /// pages have been shown and the instructions end.
    pub fn frame(&mut self) -> (page: Option<i32>)
        requires
            old(self).wf(),
            old(self).which < PAGE_COUNT || old(self).timer <= PAGE_FRAMES,
        ensures
            final(self).wf(),
            page == (if page_at(old(self).frames_shown()) >= 0 {
                Some(page_at(old(self).frames_shown()) as i32)
            } else {
                None
            }),
            page is Some ==> final(self).frames_shown() == old(self).frames_shown() + 1,
            page is Some ==> final(self).which < PAGE_COUNT || final(self).timer <= PAGE_FRAMES,
    {
        let ghost k = self.frames_shown();
        if self.timer > PAGE_FRAMES {
            self.timer = 0;
            self.which = self.which + 1;
        }
        if 0 <= self.which && self.which < PAGE_COUNT {
            self.timer = self.timer + 1;
            let ghost w = self.which as int;
            assert(w * (PAGE_FRAMES + 1) <= k < (w + 1) * (PAGE_FRAMES + 1));
            assert(k / (PAGE_FRAMES + 1) == w) by (nonlinear_arith)
                requires
                    w * (PAGE_FRAMES + 1) <= k < (w + 1) * (PAGE_FRAMES + 1),
            ;
            Some(self.which)
        } else {
            None
        }
    }
}

/// Pixels the credits move up per frame.
pub const MOVE_PER_FRAME: u32 = 2;

/// Number of people in the credits.
pub const TEAM_SIZE: usize = 8;

/// Frames a name stays at the top of the screen before the next one comes.
pub const HOLD_FRAMES: u32 = 120;

/// The scrolling credits.
pub struct Credits;

impl Credits {
    pub fn init() -> (r: Result<Credits, String>)
        ensures
            r is Ok,
    {
        Ok(Credits)
    }

    /// The answer to an input: `Some` screen to leave to, or `None` to stay.
    /// Escape, Q or closing the window goes to the main menu; R plays again.
    pub fn handle_input(input: Input) -> (r: Option<GameStatus>)
        ensures
            r == (match input {
                Input::Quit => Some(GameStatus::Main),
                Input::KeyDown(Key::Escape) | Input::KeyDown(Key::Q) => Some(GameStatus::Main),
                Input::KeyDown(Key::R) => Some(GameStatus::Game),
                _ => None,
            }),
    {
        match input {
            Input::Quit | Input::KeyDown(Key::Escape) | Input::KeyDown(Key::Q) => Some(
                GameStatus::Main,
            ),
            Input::KeyDown(Key::R) => Some(GameStatus::Game),
            _ => None,
        }
    }

    /// The height at which a name is drawn when the credits stand at `count`.
    pub fn credit_text_y(count: u32) -> (y: u32)
        requires
            count >= MOVE_PER_FRAME,
        ensures
            y == count - MOVE_PER_FRAME,
    {
        count - MOVE_PER_FRAME
    }
}

/// What the credits draw in one frame: the name of person `index` at height
/// `y`, `repeats` times in a row; `done` tells whether the credits end after.
#[derive(Clone, Copy, Debug, PartialEq, Eq, Structural)]
pub struct CreditsFrame {
    pub index: usize,
    pub y: u32,
    pub repeats: u32,
    pub done: bool,
}

/// Where the credits are: the height of the current name and whose it is.
pub struct CreditsState {
    pub count: u32,
    pub index: usize,
}

impl CreditsState {
    /// The bounds every frame keeps.
    pub open spec fn wf(&self) -> bool {
        &&& MOVE_PER_FRAME <= self.count <= CAM_H
        &&& self.count % 2 == 0
        &&& self.index < TEAM_SIZE
    }

    /// Frames the credits have shown so far: each person takes the frames of
    /// scrolling from the bottom of the screen to the top, plus one.
    pub open spec fn frames_shown(&self) -> int {
        self.index * credit_frames() + (CAM_H - self.count) / 2
    }

    /// The first name at the bottom of the screen.
    pub fn new() -> (s: CreditsState)
        ensures
            s.wf(),
            s.count == CAM_H,
            s.index == 0,
    {
        CreditsState { count: CAM_H, index: 0 }
    }

    /// Advances the credits by one frame. While the name is low enough it
    /// moves up by `MOVE_PER_FRAME`; once it reaches the top it is drawn there
    /// `HOLD_FRAMES` times in a row and the next name starts at the bottom.
    /// The credits are done after the last name.
    pub fn frame(&mut self) -> (f: CreditsFrame)
        requires
            old(self).wf(),
        ensures
            f.index == old(self).index,
            old(self).count > MOVE_PER_FRAME + 1 ==> {
                &&& f == CreditsFrame {
                    index: old(self).index,
                    y: (old(self).count - MOVE_PER_FRAME) as u32,
                    repeats: 1,
                    done: false,
                }
                &&& *final(self) == CreditsState {
                    count: (old(self).count - MOVE_PER_FRAME) as u32,
                    index: old(self).index,
                }
            },
            old(self).count <= MOVE_PER_FRAME + 1 ==> {
                &&& f == CreditsFrame {
                    index: old(self).index,
                    y: 1,
                    repeats: HOLD_FRAMES,
                    done: old(self).index + 1 == TEAM_SIZE,
                }
                &&& *final(self) == CreditsState {
                    count: CAM_H,
                    index: (old(self).index + 1) as usize,
                }
            },
            !f.done ==> final(self).wf(),
            !f.done ==> final(self).frames_shown() == old(self).frames_shown() + 1,
    {
        let index = self.index;
        if self.count > MOVE_PER_FRAME + 1 {
            let y = Credits::credit_text_y(self.count);
            self.count = y;
            assert((CAM_H - y) / 2 == (CAM_H - old(self).count) / 2 + 1);
            CreditsFrame { index, y, repeats: 1, done: false }
        } else {
            assert(old(self).count == 2);
            assert(credit_frames() == 360);
            self.count = CAM_H;
            self.index = self.index + 1;
            CreditsFrame {
                index,
                y: MOVE_PER_FRAME + 1 - MOVE_PER_FRAME,
                repeats: HOLD_FRAMES,
                done: self.index == TEAM_SIZE,
            }
        }
    }
}

/// Frames the credits spend on one person.
pub open spec fn credit_frames() -> int {
    (CAM_H - MOVE_PER_FRAME) / 2 + 1
}

/// A screen showing a generated background.
pub struct BackgroundGen;

impl BackgroundGen {
    pub fn init() -> (r: Result<BackgroundGen, String>)
        ensures
            r is Ok,
    {
        Ok(BackgroundGen)
    }

    /// The screen's answer to an input: `None` to stay, or the screen to go
    /// to, where `Some(None)` quits. Escape, Q or closing the window quits;
    /// P or space plays; C shows the credits; T the curve test screen.
    pub fn handle_input(input: Input) -> (r: Option<Option<GameStatus>>)
        ensures
            r == (match input {
                Input::Quit => Some(None),
                Input::KeyDown(Key::Escape) | Input::KeyDown(Key::Q) => Some(None),
                Input::KeyDown(Key::P) | Input::KeyDown(Key::Space) => Some(Some(GameStatus::Game)),
                Input::KeyDown(Key::C) => Some(Some(GameStatus::Credits)),
                Input::KeyDown(Key::T) => Some(Some(GameStatus::BezierSim)),
                _ => None,
            }),
    {
        match input {
            Input::Quit | Input::KeyDown(Key::Escape) | Input::KeyDown(Key::Q) => Some(None),
            Input::KeyDown(Key::P) | Input::KeyDown(Key::Space) => Some(Some(GameStatus::Game)),
            Input::KeyDown(Key::C) => Some(Some(GameStatus::Credits)),
            Input::KeyDown(Key::T) => Some(Some(GameStatus::BezierSim)),
            _ => None,
        }
    }
}

/// A screen testing the drawing of terrain curves.
pub struct TestBezier;

impl TestBezier {
    pub fn init() -> (r: Result<TestBezier, String>)
        ensures
            r is Ok,
    {
        Ok(TestBezier)
    }
}

/// A screen testing the terrain noise.
pub struct TestPerlin;

impl TestPerlin {
    pub fn init() -> (r: Result<TestPerlin, String>)
        ensures
            r is Ok,
    {
        Ok(TestPerlin)
    }
}

} // verus!
