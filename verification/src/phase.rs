//! The two phases of the game and what entering and leaving them asks
//! for: the background, the game-over screen and the restart key.

use vstd::prelude::*;
use vstd::string::*;
use crate::elevations::Elevations;
use crate::event::{Event, Phase};
use crate::geometry::{grid_rect, Rect, N_SQUARES, SQUARE_W, W_I};
use crate::snake::Key;

verus! {

/// The key that starts a new game from the game-over screen.
pub const RESTART_KEY: char = 'r';

/// Width of the border of a square of the background, drawn inwards.
pub const SQUARE_BORDER: i64 = 2;

/// Opacity of the shade that the game-over screen lays over the grid.
pub const SCREEN_SHADE: u8 = 64;

/// The event that starts the first game.
pub fn init() -> (events: Vec<Event>)
    ensures
        events@ == seq![Event::SetState(Phase::Playing)],
{
    let mut events: Vec<Event> = Vec::new();
    events.push(Event::SetState(Phase::Playing));
    events
}

/// Everything that the background is created with: its place, and the
/// squares drawn on it, in coordinates that start at its top left corner.
pub struct Background {
    pub elevation: Elevations,
    pub pos: Rect,
    pub border: i64,
    pub squares: Vec<Rect>,
}

/// Square number `k` of the background, counting down the columns from the
/// left one.
pub open spec fn grid_square(k: int) -> Rect {
    Rect {
        cx: (SQUARE_W * (k / N_SQUARES as int) + SQUARE_W / 2) as i64,
        cy: (SQUARE_W * (k % N_SQUARES as int) + SQUARE_W / 2) as i64,
        w: SQUARE_W as i64,
        h: SQUARE_W as i64,
    }
}

/// The background of the grid, unless there is one already.
pub fn create_bkgrnd(has_background: bool) -> (background: Option<Background>)
    ensures
        has_background ==> background is None,
        !has_background ==> {
            &&& background is Some
            &&& background.unwrap().elevation == Elevations::Background
            &&& background.unwrap().pos == grid_rect()
            &&& background.unwrap().border == SQUARE_BORDER
            &&& background.unwrap().squares@ == Seq::new((N_SQUARES * N_SQUARES) as nat, |k: int| grid_square(k))
        },
{
    if has_background {
        return None;
    }
    let w: i64 = SQUARE_W as i64;
    let mut squares: Vec<Rect> = Vec::new();
    let mut x: u32 = 0;
    while x < N_SQUARES
        invariant
            x <= N_SQUARES,
            w == SQUARE_W,
            squares@ == Seq::new((x * N_SQUARES) as nat, |k: int| grid_square(k)),
        decreases N_SQUARES - x,
    {
        let mut y: u32 = 0;
        while y < N_SQUARES
            invariant
                x < N_SQUARES,
                y <= N_SQUARES,
                w == SQUARE_W,
                squares@ == Seq::new((x * N_SQUARES + y) as nat, |k: int| grid_square(k)),
            decreases N_SQUARES - y,
        {
            let square = Rect::from_center(w * (x as i64) + w / 2, w * (y as i64) + w / 2, w, w);
            proof {
                let k = (x * N_SQUARES + y) as int;
                assert(k / 10 == x && k % 10 == y);
                assert(square == grid_square(k));
                assert(squares@.push(square) =~= Seq::new((k + 1) as nat, |k: int| grid_square(k)));
            }
            squares.push(square);
            y = y + 1;
        }
        x = x + 1;
    }
    let side: i64 = W_I as i64;
    Some(
        Background {
            elevation: Elevations::Background,
            pos: Rect::from_center(0, 0, side, side),
            border: SQUARE_BORDER,
            squares,
        },
    )
}

/// The two lines of text on the game-over screen.
#[derive(Clone, Copy, Debug, PartialEq, Eq, Structural)]
pub enum Caption {
    GameOver,
    PressRestart,
}

impl Caption {
    /// The words of the line.
    pub open spec fn words(self) -> Seq<char> {
        match self {
            Caption::GameOver => "Game Over!"@,
            Caption::PressRestart => "Press 'r' to restart"@,
        }
    }

    /// The words of the line.
    pub fn text(&self) -> (s: String)
        ensures
            s@ == self.words(),
    {
        match self {
            Caption::GameOver => String::from_str("Game Over!"),
            Caption::PressRestart => String::from_str("Press 'r' to restart"),
        }
    }
}

/// One line of text on the game-over screen: its words, the width to which
/// it is scaled, and whether it stands above the centre or below it.
#[derive(Clone, Copy, Debug, PartialEq, Eq, Structural)]
pub struct TextLine {
    pub caption: Caption,
    pub width: u32,
    pub above: bool,
}

/// Everything that the game-over screen is created with.
#[derive(Clone, Copy, Debug, PartialEq, Eq, Structural)]
pub struct GameOverScreen {
    pub elevation: Elevations,
    pub pos: Rect,
    pub shade: u8,
    pub title: TextLine,
    pub hint: TextLine,
}

/// The game-over screen: a shade over the whole grid, the title above the
/// centre at a third of the grid's width, and below it, at half the width,
/// the hint at the restart key.
pub open spec fn the_screen() -> GameOverScreen {
    GameOverScreen {
        elevation: Elevations::GameOverScreen,
        pos: grid_rect(),
        shade: SCREEN_SHADE,
        title: TextLine { caption: Caption::GameOver, width: (W_I / 3) as u32, above: true },
        hint: TextLine { caption: Caption::PressRestart, width: (W_I / 2) as u32, above: false },
    }
}

/// The game-over screen to show when the game-over phase is entered,
/// unless one is shown already.
pub fn game_over(has_screen: bool) -> (screen: Option<GameOverScreen>)
    ensures
        screen == if has_screen {
            None
        } else {
            Some(the_screen())
        },
{
    if has_screen {
        return None;
    }
    let side: i64 = W_I as i64;
    Some(
        GameOverScreen {
            elevation: Elevations::GameOverScreen,
            pos: Rect::from_center(0, 0, side, side),
            shade: SCREEN_SHADE,
            title: TextLine { caption: Caption::GameOver, width: W_I / 3, above: true },
            hint: TextLine { caption: Caption::PressRestart, width: W_I / 2, above: false },
        },
    )
}

/// The two events of a restart, in the order in which they are sent.
pub open spec fn restart_events() -> Seq<Event> {
    seq![Event::OnExit(Phase::GameOver), Event::OnEnter(Phase::Playing)]
}

/// Starts a new game when the restart key comes in while the game-over
/// screen is shown. Any other key, and the restart key without the
/// screen, does nothing.
pub fn restart(key: &Key, has_screen: bool) -> (events: Vec<Event>)
    ensures
        events@ == if has_screen && key.key == RESTART_KEY {
            restart_events()
        } else {
            Seq::empty()
        },
{
    let mut events: Vec<Event> = Vec::new();
    if has_screen && key.key == RESTART_KEY {
        events.push(Event::OnExit(Phase::GameOver));
        events.push(Event::OnEnter(Phase::Playing));
        assert(events@ =~= restart_events());
    }
    events
}

} // verus!
