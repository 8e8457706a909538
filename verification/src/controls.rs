//! Decisions that the screens of the game share: which entry of a menu is
//! selected, which way the player steers, and which picture of the ship
//! goes with it.

use crate::events::InputSnapshot;
use vstd::prelude::*;

verus! {

/// What a menu does with the input of one frame.
#[derive(Clone, Copy, Debug, PartialEq, Eq, Structural)]
pub enum MenuStep {
    /// Leave the game: the window was closed or escape was pressed.
    Quit,
    /// Run the entry with this index: space or return was pressed.
    Activate(usize),
    /// Show the menu with the entry of this index highlighted.
    Browse(usize),
}

/// A menu as plain values: how many entries it has and which is selected.
#[derive(Clone, Copy, Debug, PartialEq, Eq, Structural)]
pub struct MenuState {
    pub selected: usize,
    pub len: usize,
}

impl MenuState {
    /// The selected entry exists.
    pub open spec fn wf(self) -> bool {
        self.selected < self.len
    }

    /// The menu with the entry above selected; from the first entry the
    /// selection wraps to the last.
    pub open spec fn up(self) -> MenuState {
        MenuState {
            selected: if self.selected == 0 {
                (self.len - 1) as usize
            } else {
                (self.selected - 1) as usize
            },
            len: self.len,
        }
    }

    /// The menu with the entry below selected; from the last entry the
    /// selection wraps to the first.
    pub open spec fn down(self) -> MenuState {
        MenuState {
            selected: if self.selected + 1 >= self.len {
                0
            } else {
                (self.selected + 1) as usize
            },
            len: self.len,
        }
    }

    /// The menu after the arrow keys that went down this frame: first up,
    /// then down.
    pub open spec fn browse(self, input: InputSnapshot) -> MenuState {
        let after_up = if input.up.edge {
            self.up()
        } else {
            self
        };
        if input.down.edge {
            after_up.down()
        } else {
            after_up
        }
    }

    /// What the menu does with the input of one frame. A quit request comes
    /// first, then the keys that run the selected entry, then the arrows.
    pub open spec fn decide(self, input: InputSnapshot) -> MenuStep {
        if input.quit || input.escape.edge {
            MenuStep::Quit
        } else if input.space.edge || input.enter.edge {
            MenuStep::Activate(self.selected)
        } else {
            MenuStep::Browse(self.browse(input).selected)
        }
    }

    /// The menu after one frame: only browsing moves the selection.
    pub open spec fn next(self, input: InputSnapshot) -> MenuState {
        if self.decide(input) is Browse {
            self.browse(input)
        } else {
            self
        }
    }
}

/// A menu with at least one entry, one of which is selected.
#[derive(Clone, Copy, Debug)]
pub struct Menu {
    state: MenuState,
}

impl View for Menu {
    type V = MenuState;

    closed spec fn view(&self) -> MenuState {
        self.state
    }
}

impl Menu {
    #[verifier::type_invariant]
    spec fn inv(&self) -> bool {
        self.state.wf()
    }

    /// A menu of `len` entries with the first one selected; `None` for a
    /// menu without entries, in which nothing can be selected.
    pub fn new(len: usize) -> (menu: Option<Menu>)
        ensures
            menu is Some <==> len > 0,
            menu matches Some(m) ==> m@ == (MenuState { selected: 0, len }),
    {
        if len == 0 {
            None
        } else {
            Some(Menu { state: MenuState { selected: 0, len } })
        }
    }

    /// The index of the selected entry, which is below the number of
    /// entries.
    pub fn selected(&self) -> (i: usize)
        ensures
            i == self@.selected,
            i < self@.len,
    {
        proof {
            use_type_invariant(self);
        }
        self.state.selected
    }

    /// Takes the input of one frame and says what the menu does with it.
    pub fn step(&mut self, input: &InputSnapshot) -> (step: MenuStep)
        ensures
            step == old(self)@.decide(*input),
            final(self)@ == old(self)@.next(*input),
    {
        proof {
            use_type_invariant(&*self);
        }
        if input.quit || input.escape.edge {
            return MenuStep::Quit;
        }
        if input.space.edge || input.enter.edge {
            return MenuStep::Activate(self.state.selected);
        }
        let len = self.state.len;
        let mut selected = self.state.selected;
        if input.up.edge {
            selected = if selected == 0 {
                len - 1
            } else {
                selected - 1
            };
        }
        if input.down.edge {
            selected = if selected + 1 >= len {
                0
            } else {
                selected + 1
            };
        }
        self.state = MenuState { selected, len };
        MenuStep::Browse(selected)
    }
}

/// Which way the player steers along each axis: `-1` towards the origin,
/// `1` away from it, `0` not at all.
#[derive(Clone, Copy, Debug, PartialEq, Eq, Structural)]
pub struct Heading {
    pub dx: i8,
    pub dy: i8,
}

/// The pictures of the ship, in the order in which the sprite sheet holds
/// them: from left to right, then from top to bottom.
#[derive(Clone, Copy, Debug, PartialEq, Eq, Structural)]
pub enum ShipFrame {
    UpNorm,
    UpFast,
    UpSlow,
    MidNorm,
    MidFast,
    MidSlow,
    DownNorm,
    DownFast,
    DownSlow,
}

/// What two opposite keys make of one axis: they cancel each other.
pub open spec fn axis(back: bool, forth: bool) -> i8 {
    if back == forth {
        0i8
    } else if back {
        -1i8
    } else {
        1i8
    }
}

impl Heading {
    /// The heading that the held arrow keys ask for.
    pub open spec fn of_spec(input: InputSnapshot) -> Heading {
        Heading {
            dx: axis(input.left.level, input.right.level),
            dy: axis(input.up.level, input.down.level),
        }
    }

    /// The player steers along both axes at once.
    pub open spec fn diagonal_spec(self) -> bool {
        self.dx != 0 && self.dy != 0
    }

    /// The picture that shows the ship on this heading: the row says
    /// whether it climbs, keeps its height or dives, the column whether it
    /// holds its speed, speeds up or slows down.
    pub open spec fn frame_spec(self) -> ShipFrame {
        if self.dy < 0 {
            if self.dx == 0 {
                ShipFrame::UpNorm
            } else if self.dx > 0 {
                ShipFrame::UpFast
            } else {
                ShipFrame::UpSlow
            }
        } else if self.dy == 0 {
            if self.dx == 0 {
                ShipFrame::MidNorm
            } else if self.dx > 0 {
                ShipFrame::MidFast
            } else {
                ShipFrame::MidSlow
            }
        } else {
            if self.dx == 0 {
                ShipFrame::DownNorm
            } else if self.dx > 0 {
                ShipFrame::DownFast
            } else {
                ShipFrame::DownSlow
            }
        }
    }

    /// The heading that the held arrow keys ask for.
    #[verifier::when_used_as_spec(of_spec)]
    pub fn of(input: InputSnapshot) -> (heading: Heading)
        ensures
            heading == Heading::of_spec(input),
    {
        Heading {
            dx: steer(input.left.level, input.right.level),
            dy: steer(input.up.level, input.down.level),
        }
    }

    /// Whether the player steers along both axes at once.
    #[verifier::when_used_as_spec(diagonal_spec)]
    pub fn diagonal(self) -> (d: bool)
        ensures
            d == self.diagonal_spec(),
    {
        self.dx != 0 && self.dy != 0
    }

    /// The picture that shows the ship on this heading.
    #[verifier::when_used_as_spec(frame_spec)]
    pub fn frame(self) -> (frame: ShipFrame)
        ensures
            frame == self.frame_spec(),
    {
        if self.dy < 0 {
            if self.dx == 0 {
                ShipFrame::UpNorm
            } else if self.dx > 0 {
                ShipFrame::UpFast
            } else {
                ShipFrame::UpSlow
            }
        } else if self.dy == 0 {
            if self.dx == 0 {
                ShipFrame::MidNorm
            } else if self.dx > 0 {
                ShipFrame::MidFast
            } else {
                ShipFrame::MidSlow
            }
        } else {
            if self.dx == 0 {
                ShipFrame::DownNorm
            } else if self.dx > 0 {
                ShipFrame::DownFast
            } else {
                ShipFrame::DownSlow
            }
        }
    }
}

fn steer(back: bool, forth: bool) -> (a: i8)
    ensures
        a == axis(back, forth),
{
    if back == forth {
        0
    } else if back {
        -1
    } else {
        1
    }
}

impl ShipFrame {
    /// The position of the picture in the sprite sheet, counted row by row.
    pub open spec fn index_spec(self) -> usize {
        match self {
            ShipFrame::UpNorm => 0,
            ShipFrame::UpFast => 1,
            ShipFrame::UpSlow => 2,
            ShipFrame::MidNorm => 3,
            ShipFrame::MidFast => 4,
            ShipFrame::MidSlow => 5,
            ShipFrame::DownNorm => 6,
            ShipFrame::DownFast => 7,
            ShipFrame::DownSlow => 8,
        }
    }

    /// The position of the picture in the sprite sheet, counted row by row.
    #[verifier::when_used_as_spec(index_spec)]
    pub fn index(self) -> (i: usize)
        ensures
            i == self.index_spec(),
            i < 9,
    {
        match self {
            ShipFrame::UpNorm => 0,
            ShipFrame::UpFast => 1,
            ShipFrame::UpSlow => 2,
            ShipFrame::MidNorm => 3,
            ShipFrame::MidFast => 4,
            ShipFrame::MidSlow => 5,
            ShipFrame::DownNorm => 6,
            ShipFrame::DownFast => 7,
            ShipFrame::DownSlow => 8,
        }
    }
}

/// Moving the selection up and then down, or down and then up, leaves it
/// where it was, and the selected entry always exists.
pub proof fn lemma_menu_up_down(menu: MenuState)
    requires
        menu.wf(),
    ensures
        menu.up().wf(),
        menu.down().wf(),
        menu.up().down() == menu,
        menu.down().up() == menu,
{
}

/// Whatever the input, the menu keeps its entries and an entry that exists
/// stays selected; the entry that is run or shown exists.
pub proof fn lemma_menu_next_wf(menu: MenuState, input: InputSnapshot)
    requires
        menu.wf(),
    ensures
        menu.next(input).wf(),
        menu.next(input).len == menu.len,
        menu.decide(input) matches MenuStep::Activate(i) ==> i < menu.len,
        menu.decide(input) matches MenuStep::Browse(i) ==> i == menu.next(input).selected,
{
}

/// Opposite keys cancel each other, and the picture of the ship sits in the
/// row and the column of the sheet that the heading names.
pub proof fn lemma_frame_follows_heading(input: InputSnapshot)
    ensures
        -1 <= Heading::of(input).dx <= 1,
        -1 <= Heading::of(input).dy <= 1,
        input.left.level == input.right.level ==> Heading::of(input).dx == 0,
        input.up.level == input.down.level ==> Heading::of(input).dy == 0,
        Heading::of(input).frame().index() / 3 == Heading::of(input).dy + 1,
        Heading::of(input).frame().index() % 3 == (if Heading::of(input).dx == 0 {
            0int
        } else if Heading::of(input).dx > 0 {
            1int
        } else {
            2int
        }),
{
}

} // verus!
