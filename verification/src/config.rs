//! Startup configuration for a game session: the window bounds (in grid
//! cells), and the initial snake.
//!
//! All sizes here are in grid cells, not pixels: the boundary checks of the
//! simulation and the food placement use the same unit, and a renderer scales
//! a cell to a fixed pixel square.

use vstd::prelude::*;

verus! {

/// Window bounds of a session, in grid cells. Immutable once created.
pub struct Window {
    pub width: u32,
    pub height: u32,
}

impl Window {
    /// Both extents fit in an `i32`, so that cell coordinates (signed) can be
    /// compared against them without loss.
    pub open spec fn fits(&self) -> bool {
        self.width <= i32::MAX && self.height <= i32::MAX
    }

    pub fn new(width: u32, height: u32) -> (w: Window)
        ensures
            w.width == width,
            w.height == height,
    {
        Window { width, height }
    }

    pub fn get_window_size(&self) -> (s: [u32; 2])
        ensures
            s@.len() == 2,
            s@[0] == self.width,
            s@[1] == self.height,
    {
        [self.width, self.height]
    }
}

/// Initial snake of a session: its length in cells, the starting tick rate
/// of the driver, and the cell its tail starts on.
pub struct ConfigSnake {
    size: i8,
    pub speed: u64,
    position: (i32, i32),
}

impl ConfigSnake {
    /// The configured length, in cells.
    pub closed spec fn size_spec(&self) -> i8 {
        self.size
    }

    /// The configured starting cell.
    pub closed spec fn position_spec(&self) -> (i32, i32) {
        self.position
    }

    /// The configured starting tick rate.
    pub closed spec fn speed_spec(&self) -> u64 {
        self.speed
    }

    pub fn new(size: i8, speed: u64, position: (i32, i32)) -> (s: ConfigSnake)
        ensures
            s.size_spec() == size,
            s.speed_spec() == speed,
            s.position_spec() == position,
    {
        ConfigSnake { size, speed, position }
    }

    /// The initial body laid out from the configuration: `size` cells in a
    /// horizontal run starting at the configured position, which becomes the
    /// head. A size of zero or less gives an empty body.
    pub fn get_size(&self) -> (r: Vec<(i32, i32)>)
        requires
            self.position_spec().0 + self.size_spec() <= i32::MAX,
        ensures
            r@.len() == if self.size_spec() > 0 {
                self.size_spec() as int
            } else {
                0
            },
            forall|j: int|
                0 <= j < r@.len() ==> r@[j] == ((
                    (self.position_spec().0 + j) as i32,
                    self.position_spec().1,
                )),
    {
        let mut i: i8 = 0;
        let mut result: Vec<(i32, i32)> = Vec::new();

        while i < self.size
            invariant
                0 <= i,
                self.size > 0 ==> i <= self.size,
                self.size <= 0 ==> i == 0,
                result@.len() == i as int,
                self.position.0 + self.size <= i32::MAX,
                forall|j: int|
                    0 <= j < result@.len() ==> result@[j] == ((
                        (self.position.0 + j) as i32,
                        self.position.1,
                    )),
            decreases self.size - i,
        {
            result.push(((i as i32) + self.position.0, self.position.1));
            i = i + 1;
        }

        result
    }
}

/// The whole startup configuration: window bounds and initial snake.
pub struct Config {
    pub window: Window,
    pub snake: ConfigSnake,
}

impl Config {
    pub fn new(window: Window, snake: ConfigSnake) -> (c: Config)
        ensures
            c.window == window,
            c.snake == snake,
    {
        Config { window, snake }
    }
}

/// The built-in default configuration: an 80 x 60 cell grid, a snake of four
/// cells starting at the origin, and a starting rate of six ticks per second.
pub fn get_config() -> (c: Config)
    ensures
        c.window.width == 80,
        c.window.height == 60,
        c.snake.size_spec() == 4,
        c.snake.speed_spec() == 6,
        c.snake.position_spec() == ((0i32, 0i32)),
{
    let window = Window::new(80, 60);
    let snake = ConfigSnake::new(4, 6, (0, 0));
    Config::new(window, snake)
}

} // verus!
