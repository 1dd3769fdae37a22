use vstd::prelude::*;
use crate::grid::{seeded_grid, step, Cells, GameOfLife};

verus! {

pub const PIXEL_SIZE: u32 = 4;

pub const DEFAULT_WIDTH: usize = 200;

pub const DEFAULT_HEIGHT: usize = 150;

pub const DEFAULT_ALIVE_RATE: u32 = 60;

/// Pause between two frames, in milliseconds.
pub const FRAME_PERIOD_MS: usize = 33;

pub const SPACE: u8 = 0x20u8;

pub const KEY_Q: u8 = 0x71u8;

pub const LF: u8 = 0x0au8;

pub const CR: u8 = 0x0du8;

/// What a run is set up with.
#[derive(Debug, Copy, Clone, Eq, PartialEq, Structural)]
pub struct Config {
    pub width: usize,
    pub height: usize,
    pub alive_rate_percentage: u32,
    pub pixel_size: u32,
    pub frame_period_ms: usize,
}

impl Config {
    /// Whether the live rate is a percentage. A game is only ever built from
    /// settings for which this holds.
    pub fn rate_in_range(&self) -> (ok: bool)
        ensures
            ok == (self.alive_rate_percentage <= 100),
    {
        self.alive_rate_percentage <= 100
    }

    /// The settings for the given arguments; an argument that is absent (or
    /// that the caller could not read as a number) takes its default.
    pub fn from_args(width: Option<usize>, height: Option<usize>, rate: Option<u32>) -> (config:
        Config)
        ensures
            config.width == (if width.is_some() { width.unwrap() } else { DEFAULT_WIDTH }),
            config.height == (if height.is_some() { height.unwrap() } else { DEFAULT_HEIGHT }),
            config.alive_rate_percentage == (if rate.is_some() {
                rate.unwrap()
            } else {
                DEFAULT_ALIVE_RATE
            }),
            config.pixel_size == PIXEL_SIZE,
            config.frame_period_ms == FRAME_PERIOD_MS,
    {
        Config {
            width: match width {
                Some(w) => w,
                None => DEFAULT_WIDTH,
            },
            height: match height {
                Some(h) => h,
                None => DEFAULT_HEIGHT,
            },
            alive_rate_percentage: match rate {
                Some(r) => r,
                None => DEFAULT_ALIVE_RATE,
            },
            pixel_size: PIXEL_SIZE,
            frame_period_ms: FRAME_PERIOD_MS,
        }
    }
}

/// Whether the generations advance.
#[derive(Debug, Copy, Clone, Eq, PartialEq, Structural)]
pub enum RunState {
    Running,
    Paused,
}

/// What a key asks for.
#[derive(Debug, Copy, Clone, Eq, PartialEq, Structural)]
pub enum KeyCommand {
    Toggle,
    Quit,
    Ignore,
}

/// What the caller does after a frame's decisions.
#[derive(Debug, Copy, Clone, Eq, PartialEq, Structural)]
pub enum FrameAction {
    /// Paint the board, show it and wait one frame period.
    Present,
    /// Leave the loop with this exit code.
    Exit(i32),
}

/// Space toggles the pause; `q`, line feed and carriage return quit; every
/// other key is ignored.
pub open spec fn key_command(key: u8) -> KeyCommand {
    if key == SPACE {
        KeyCommand::Toggle
    } else if key == KEY_Q || key == LF || key == CR {
        KeyCommand::Quit
    } else {
        KeyCommand::Ignore
    }
}

pub open spec fn toggled(run: RunState) -> RunState {
    match run {
        RunState::Running => RunState::Paused,
        RunState::Paused => RunState::Running,
    }
}

/// Whether a frame that sees `key` ends the loop.
pub open spec fn quits(key: Option<u8>) -> bool {
    key.is_some() && key_command(key.unwrap()) == KeyCommand::Quit
}

/// The run state after a frame that sees `key` (no key: `None`).
pub open spec fn run_after(run: RunState, key: Option<u8>) -> RunState {
    if key.is_some() && key_command(key.unwrap()) == KeyCommand::Toggle {
        toggled(run)
    } else {
        run
    }
}

/// The board after a frame that sees `key`: one generation further exactly
/// when the frame does not quit and the run state, after the key has been
/// handled, is running.
pub open spec fn cells_after(run: RunState, key: Option<u8>, g: Cells) -> Cells {
    if !quits(key) && run_after(run, key) == RunState::Running {
        step(g)
    } else {
        g
    }
}

pub fn classify_key(key: u8) -> (command: KeyCommand)
    ensures
        command == key_command(key),
{
    if key == SPACE {
        KeyCommand::Toggle
    } else if key == KEY_Q || key == LF || key == CR {
        KeyCommand::Quit
    } else {
        KeyCommand::Ignore
    }
}

/// A game together with its run state. The caller polls the keyboard, hands
/// each frame the key it found, and paints and sleeps as the frame tells it.
pub struct FrameLoop {
    pub game: GameOfLife,
    pub run: RunState,
}

impl FrameLoop {
    /// A loop over `game` that starts out running.
    pub fn new(game: GameOfLife) -> (frames: FrameLoop)
        ensures
            frames.game == game,
            frames.run == RunState::Running,
    {
        FrameLoop { game, run: RunState::Running }
    }

    /// A running loop over a board of the configured shape, seeded with
    /// `seed` at the configured live rate.
    pub fn start(config: &Config, seed: u64) -> (frames: FrameLoop)
        requires
            config.alive_rate_percentage <= 100,
        ensures
            frames.game.wf(),
            frames.game@ == seeded_grid(
                config.width as nat,
                config.height as nat,
                config.alive_rate_percentage,
                seed,
            ),
            frames.run == RunState::Running,
    {
        FrameLoop::new(
            GameOfLife::new(config.width, config.height, config.alive_rate_percentage, seed),
        )
    }

    /// The decisions of one frame: handle the key, if there is one, then
    /// advance the board by one generation unless the loop is paused or ends.
    pub fn frame(&mut self, key: Option<u8>) -> (action: FrameAction)
        requires
            old(self).game.wf(),
        ensures
            final(self).game.wf(),
            final(self).run == run_after(old(self).run, key),
            final(self).game@ == cells_after(old(self).run, key, old(self).game@),
            action == (if quits(key) {
                FrameAction::Exit(0)
            } else {
                FrameAction::Present
            }),
    {
        match key {
            Some(k) => match classify_key(k) {
                KeyCommand::Toggle => {
                    self.run = match self.run {
                        RunState::Running => RunState::Paused,
                        RunState::Paused => RunState::Running,
                    };
                },
                KeyCommand::Quit => {
                    return FrameAction::Exit(0);
                },
                KeyCommand::Ignore => {},
            },
            None => {},
        }
        match self.run {
            RunState::Running => {
                self.game.update();
            },
            RunState::Paused => {},
        }
        FrameAction::Present
    }
}

} // verus!
