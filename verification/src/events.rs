//! The input accumulator: raw platform events go in once per tick, and a
//! snapshot of held keys and of the keys pressed this tick comes out.

use vstd::prelude::*;

verus! {

/// How many logical buttons are tracked.
pub const KEY_COUNT: usize = 7;

/// The platform's code for the return key.
pub const KEYCODE_RETURN: i32 = 13;

/// The platform's code for the escape key.
pub const KEYCODE_ESCAPE: i32 = 27;

/// The platform's code for the space bar.
pub const KEYCODE_SPACE: i32 = 32;

/// The platform's code for the right arrow.
pub const KEYCODE_RIGHT: i32 = 1073741903;

/// The platform's code for the left arrow.
pub const KEYCODE_LEFT: i32 = 1073741904;

/// The platform's code for the down arrow.
pub const KEYCODE_DOWN: i32 = 1073741905;

/// The platform's code for the up arrow.
pub const KEYCODE_UP: i32 = 1073741906;

/// The logical buttons the engine tracks.
#[derive(Clone, Copy, Debug, PartialEq, Eq, Structural)]
pub enum Key {
    Escape,
    Up,
    Down,
    Left,
    Right,
    Space,
    Return,
}

/// One button: whether it is held, and whether it went down this tick.
#[derive(Clone, Copy, Debug, PartialEq, Eq, Structural)]
pub struct ButtonState {
    /// The button is currently held.
    pub level: bool,
    /// The button went from released to held during the current tick.
    pub edge: bool,
}

/// What the platform reports, reduced to plain values.
#[derive(Clone, Copy, Debug, PartialEq, Eq, Structural)]
pub enum RawEvent {
    /// A key with the given platform code went down.
    KeyDown(i32),
    /// A key with the given platform code went up.
    KeyUp(i32),
    /// The window was asked to close.
    Quit,
    /// The drawing surface now has this width and height.
    Resized(u32, u32),
    /// Anything else.
    Other,
}

/// The state of every tracked button and the quit flag, as a view sees them
/// during one tick.
#[derive(Clone, Copy, Debug, PartialEq, Eq, Structural)]
pub struct InputSnapshot {
    pub escape: ButtonState,
    pub up: ButtonState,
    pub down: ButtonState,
    pub left: ButtonState,
    pub right: ButtonState,
    pub space: ButtonState,
    pub enter: ButtonState,
    /// The window was asked to close at some point.
    pub quit: bool,
}

impl Key {
    /// The dense index of the key, below `KEY_COUNT`.
    pub open spec fn index_spec(self) -> usize {
        match self {
            Key::Escape => 0,
            Key::Up => 1,
            Key::Down => 2,
            Key::Left => 3,
            Key::Right => 4,
            Key::Space => 5,
            Key::Return => 6,
        }
    }

    /// The tracked key with the given platform code, if there is one.
    pub open spec fn from_keycode_spec(code: i32) -> Option<Key> {
        if code == KEYCODE_ESCAPE {
            Some(Key::Escape)
        } else if code == KEYCODE_UP {
            Some(Key::Up)
        } else if code == KEYCODE_DOWN {
            Some(Key::Down)
        } else if code == KEYCODE_LEFT {
            Some(Key::Left)
        } else if code == KEYCODE_RIGHT {
            Some(Key::Right)
        } else if code == KEYCODE_SPACE {
            Some(Key::Space)
        } else if code == KEYCODE_RETURN {
            Some(Key::Return)
        } else {
            None
        }
    }

    /// The platform code of the key.
    pub open spec fn keycode_spec(self) -> i32 {
        match self {
            Key::Escape => KEYCODE_ESCAPE,
            Key::Up => KEYCODE_UP,
            Key::Down => KEYCODE_DOWN,
            Key::Left => KEYCODE_LEFT,
            Key::Right => KEYCODE_RIGHT,
            Key::Space => KEYCODE_SPACE,
            Key::Return => KEYCODE_RETURN,
        }
    }

    /// The dense index of the key, below `KEY_COUNT`.
    #[verifier::when_used_as_spec(index_spec)]
    pub fn index(self) -> (i: usize)
        ensures
            i == self.index_spec(),
            i < KEY_COUNT,
    {
        match self {
            Key::Escape => 0,
            Key::Up => 1,
            Key::Down => 2,
            Key::Left => 3,
            Key::Right => 4,
            Key::Space => 5,
            Key::Return => 6,
        }
    }

    /// The tracked key with the given platform code; `None` for every code
    /// that belongs to no tracked key.
    #[verifier::when_used_as_spec(from_keycode_spec)]
    pub fn from_keycode(code: i32) -> (k: Option<Key>)
        ensures
            k == Key::from_keycode_spec(code),
    {
        if code == KEYCODE_ESCAPE {
            Some(Key::Escape)
        } else if code == KEYCODE_UP {
            Some(Key::Up)
        } else if code == KEYCODE_DOWN {
            Some(Key::Down)
        } else if code == KEYCODE_LEFT {
            Some(Key::Left)
        } else if code == KEYCODE_RIGHT {
            Some(Key::Right)
        } else if code == KEYCODE_SPACE {
            Some(Key::Space)
        } else if code == KEYCODE_RETURN {
            Some(Key::Return)
        } else {
            None
        }
    }

    /// The platform code of the key.
    #[verifier::when_used_as_spec(keycode_spec)]
    pub fn keycode(self) -> (code: i32)
        ensures
            code == self.keycode_spec(),
    {
        match self {
            Key::Escape => KEYCODE_ESCAPE,
            Key::Up => KEYCODE_UP,
            Key::Down => KEYCODE_DOWN,
            Key::Left => KEYCODE_LEFT,
            Key::Right => KEYCODE_RIGHT,
            Key::Space => KEYCODE_SPACE,
            Key::Return => KEYCODE_RETURN,
        }
    }
}

impl ButtonState {
    /// The button after a key-down: held, and pressed this tick if it was
    /// not held before.
    pub open spec fn pressed(self) -> ButtonState {
        ButtonState { level: true, edge: self.edge || !self.level }
    }

    /// The button after a key-up: released; the edge flag stays.
    pub open spec fn released(self) -> ButtonState {
        ButtonState { level: false, edge: self.edge }
    }

    /// The button at the start of a tick: the level carried over, the edge
    /// flag cleared.
    pub open spec fn carried(self) -> ButtonState {
        ButtonState { level: self.level, edge: false }
    }
}

impl InputSnapshot {
    /// The state of one button.
    pub open spec fn button_spec(self, key: Key) -> ButtonState {
        match key {
            Key::Escape => self.escape,
            Key::Up => self.up,
            Key::Down => self.down,
            Key::Left => self.left,
            Key::Right => self.right,
            Key::Space => self.space,
            Key::Return => self.enter,
        }
    }

    /// The snapshot with one button replaced.
    pub open spec fn with_button(self, key: Key, state: ButtonState) -> InputSnapshot {
        match key {
            Key::Escape => InputSnapshot { escape: state, ..self },
            Key::Up => InputSnapshot { up: state, ..self },
            Key::Down => InputSnapshot { down: state, ..self },
            Key::Left => InputSnapshot { left: state, ..self },
            Key::Right => InputSnapshot { right: state, ..self },
            Key::Space => InputSnapshot { space: state, ..self },
            Key::Return => InputSnapshot { enter: state, ..self },
        }
    }

    /// The snapshot at the start of the next tick: every level carried
    /// over, every edge flag cleared, the quit flag kept.
    pub open spec fn begin_tick(self) -> InputSnapshot {
        InputSnapshot {
            escape: self.escape.carried(),
            up: self.up.carried(),
            down: self.down.carried(),
            left: self.left.carried(),
            right: self.right.carried(),
            space: self.space.carried(),
            enter: self.enter.carried(),
            quit: self.quit,
        }
    }

    /// The snapshot after one raw event. Events that concern no tracked key
    /// and no tracked kind leave it as it is.
    pub open spec fn apply(self, event: RawEvent) -> InputSnapshot {
        match event {
            RawEvent::KeyDown(code) => match Key::from_keycode_spec(code) {
                Some(key) => self.with_button(key, self.button_spec(key).pressed()),
                None => self,
            },
            RawEvent::KeyUp(code) => match Key::from_keycode_spec(code) {
                Some(key) => self.with_button(key, self.button_spec(key).released()),
                None => self,
            },
            RawEvent::Quit => InputSnapshot { quit: true, ..self },
            RawEvent::Resized(_, _) => self,
            RawEvent::Other => self,
        }
    }

    /// The snapshot after a sequence of raw events, applied in order.
    pub open spec fn apply_all(self, events: Seq<RawEvent>) -> InputSnapshot
        decreases events.len(),
    {
        if events.len() == 0 {
            self
        } else {
            self.apply_all(events.drop_last()).apply(events.last())
        }
    }

    /// The snapshot after one whole tick that delivered `events`.
    pub open spec fn pump_spec(self, events: Seq<RawEvent>) -> InputSnapshot {
        self.begin_tick().apply_all(events)
    }

    /// The state of one button.
    #[verifier::when_used_as_spec(button_spec)]
    pub fn button(self, key: Key) -> (b: ButtonState)
        ensures
            b == self.button_spec(key),
    {
        match key {
            Key::Escape => self.escape,
            Key::Up => self.up,
            Key::Down => self.down,
            Key::Left => self.left,
            Key::Right => self.right,
            Key::Space => self.space,
            Key::Return => self.enter,
        }
    }
}

/// The size carried by the last resize event of a sequence, if it holds one.
pub open spec fn last_resize(events: Seq<RawEvent>) -> Option<(u32, u32)>
    decreases events.len(),
{
    if events.len() == 0 {
        None
    } else {
        match events.last() {
            RawEvent::Resized(w, h) => Some((w, h)),
            _ => last_resize(events.drop_last()),
        }
    }
}

/// The snapshot that a table of buttons, indexed by `Key::index`, stands
/// for.
spec fn table_snapshot(table: Seq<ButtonState>, quit: bool) -> InputSnapshot {
    InputSnapshot {
        escape: table[Key::Escape.index_spec() as int],
        up: table[Key::Up.index_spec() as int],
        down: table[Key::Down.index_spec() as int],
        left: table[Key::Left.index_spec() as int],
        right: table[Key::Right.index_spec() as int],
        space: table[Key::Space.index_spec() as int],
        enter: table[Key::Return.index_spec() as int],
        quit,
    }
}

/// The table holds the button of a key at the index of the key.
proof fn lemma_table_get(table: Seq<ButtonState>, quit: bool, key: Key)
    requires
        table.len() == KEY_COUNT,
    ensures
        table[key.index_spec() as int] == table_snapshot(table, quit).button_spec(key),
{
}

/// Writing the table at the index of a key replaces the button of that key
/// and no other.
proof fn lemma_table_set(table: Seq<ButtonState>, quit: bool, key: Key, state: ButtonState)
    requires
        table.len() == KEY_COUNT,
    ensures
        table_snapshot(table.update(key.index_spec() as int, state), quit) == table_snapshot(
            table,
            quit,
        ).with_button(key, state),
{
}

/// Clearing the edge flag of every entry of the table starts a new tick.
proof fn lemma_table_carried(before: Seq<ButtonState>, after: Seq<ButtonState>, quit: bool)
    requires
        before.len() == KEY_COUNT,
        after.len() == KEY_COUNT,
        forall|j: int| 0 <= j < KEY_COUNT ==> after[j] == before[j].carried(),
    ensures
        table_snapshot(after, quit) == table_snapshot(before, quit).begin_tick(),
{
}

/// The input accumulator. It keeps one `{level, edge}` pair per tracked key
/// in a table indexed by `Key::index`, the sticky quit flag, and the size
/// that the last resize event of the current tick reported.
#[derive(Clone, Copy, Debug)]
pub struct Events {
    table: [ButtonState; KEY_COUNT],
    quit: bool,
    resize: Option<(u32, u32)>,
}

impl Events {
    /// What `snapshot` returns.
    pub closed spec fn snapshot_spec(&self) -> InputSnapshot {
        table_snapshot(self.table@, self.quit)
    }

    /// What `resize` returns.
    pub closed spec fn resize_spec(&self) -> Option<(u32, u32)> {
        self.resize
    }

    /// An accumulator with every key released and no quit request.
    pub fn new() -> (events: Events)
        ensures
            events.snapshot_spec() == released_snapshot(),
            events.resize_spec() is None,
    {
        let up = ButtonState { level: false, edge: false };
        Events { table: [up, up, up, up, up, up, up], quit: false, resize: None }
    }

    /// Runs one tick of the accumulator: clears the edge flags and the
    /// pending resize, then applies `events` in order.
    pub fn pump(&mut self, events: &Vec<RawEvent>)
        ensures
            final(self).snapshot_spec() == old(self).snapshot_spec().pump_spec(events@),
            final(self).resize_spec() == last_resize(events@),
    {
        self.begin_tick();
        let ghost start = self.snapshot_spec();
        let mut i: usize = 0;
        while i < events.len()
            invariant
                i <= events.len(),
                self.snapshot_spec() == start.apply_all(events@.take(i as int)),
                self.resize_spec() == last_resize(events@.take(i as int)),
            decreases events.len() - i,
        {
            proof {
                let next = events@.take(i as int + 1);
                assert(next.drop_last() == events@.take(i as int));
                assert(next.last() == events@[i as int]);
            }
            self.apply(events[i]);
            i += 1;
        }
        proof {
            assert(events@.take(i as int) == events@);
        }
    }

    /// The current state of every tracked button and of the quit flag.
    /// Reading it changes nothing.
    #[verifier::when_used_as_spec(snapshot_spec)]
    pub fn snapshot(&self) -> (s: InputSnapshot)
        ensures
            s == self.snapshot_spec(),
    {
        InputSnapshot {
            escape: self.table[Key::Escape.index()],
            up: self.table[Key::Up.index()],
            down: self.table[Key::Down.index()],
            left: self.table[Key::Left.index()],
            right: self.table[Key::Right.index()],
            space: self.table[Key::Space.index()],
            enter: self.table[Key::Return.index()],
            quit: self.quit,
        }
    }

    /// The size that the last resize event of the current tick reported.
    #[verifier::when_used_as_spec(resize_spec)]
    pub fn resize(&self) -> (r: Option<(u32, u32)>)
        ensures
            r == self.resize_spec(),
    {
        self.resize
    }

    /// Clears what belongs to the previous tick only.
    fn begin_tick(&mut self)
        ensures
            final(self).snapshot_spec() == old(self).snapshot_spec().begin_tick(),
            final(self).resize_spec() is None,
    {
        let mut i: usize = 0;
        while i < KEY_COUNT
            invariant
                i <= KEY_COUNT,
                self.quit == old(self).quit,
                forall|j: int| 0 <= j < i ==> self.table@[j] == old(self).table@[j].carried(),
                forall|j: int| i <= j < KEY_COUNT ==> self.table@[j] == old(self).table@[j],
            decreases KEY_COUNT - i,
        {
            let level = self.table[i].level;
            self.table[i] = ButtonState { level, edge: false };
            i += 1;
        }
        self.resize = None;
        proof {
            lemma_table_carried(old(self).table@, self.table@, self.quit);
        }
    }

    /// Applies one raw event.
    fn apply(&mut self, event: RawEvent)
        ensures
            final(self).snapshot_spec() == old(self).snapshot_spec().apply(event),
            final(self).resize_spec() == match event {
                RawEvent::Resized(w, h) => Some((w, h)),
                _ => old(self).resize_spec(),
            },
    {
        match event {
            RawEvent::KeyDown(code) => {
                if let Some(key) = Key::from_keycode(code) {
                    let was = self.get(key);
                    self.set(key, ButtonState { level: true, edge: was.edge || !was.level });
                }
            },
            RawEvent::KeyUp(code) => {
                if let Some(key) = Key::from_keycode(code) {
                    let was = self.get(key);
                    self.set(key, ButtonState { level: false, edge: was.edge });
                }
            },
            RawEvent::Quit => {
                self.quit = true;
            },
            RawEvent::Resized(w, h) => {
                self.resize = Some((w, h));
            },
            RawEvent::Other => {},
        }
    }

    /// Reads the table entry of one key.
    fn get(&self, key: Key) -> (state: ButtonState)
        ensures
            state == self.snapshot_spec().button_spec(key),
    {
        proof {
            lemma_table_get(self.table@, self.quit, key);
        }
        self.table[key.index()]
    }

    /// Writes the table entry of one key.
    fn set(&mut self, key: Key, state: ButtonState)
        ensures
            final(self).snapshot_spec() == old(self).snapshot_spec().with_button(key, state),
            final(self).resize_spec() == old(self).resize_spec(),
    {
        let i = key.index();
        self.table[i] = state;
        proof {
            assert(self.table@ == old(self).table@.update(i as int, state));
            lemma_table_set(old(self).table@, self.quit, key, state);
        }
    }
}

/// The snapshot in which nothing is held, nothing was pressed and nobody
/// asked to quit.
pub open spec fn released_snapshot() -> InputSnapshot {
    let up = ButtonState { level: false, edge: false };
    InputSnapshot {
        escape: up,
        up: up,
        down: up,
        left: up,
        right: up,
        space: up,
        enter: up,
        quit: false,
    }
}

/// A tick without events keeps every level and leaves no edge flag set.
pub proof fn lemma_pump_without_events(s: InputSnapshot, key: Key)
    ensures
        s.pump_spec(Seq::empty()) == s.begin_tick(),
        s.pump_spec(Seq::empty()).button(key).level == s.button(key).level,
        !s.pump_spec(Seq::empty()).button(key).edge,
        s.pump_spec(Seq::empty()).quit == s.quit,
{
}

/// A tick that delivers one key-down for a tracked key leaves the key held;
/// its edge flag is set exactly when the key was not held before. No other
/// button changes its level or gets an edge flag.
pub proof fn lemma_pump_key_down(s: InputSnapshot, key: Key, other: Key)
    requires
        other != key,
    ensures
        s.pump_spec(seq![RawEvent::KeyDown(key.keycode())]).button(key) == (ButtonState {
            level: true,
            edge: !s.button(key).level,
        }),
        s.pump_spec(seq![RawEvent::KeyDown(key.keycode())]).button(other)
            == s.button(other).carried(),
{
    let event = RawEvent::KeyDown(key.keycode());
    let events = seq![event];
    assert(events.drop_last() == Seq::<RawEvent>::empty());
    assert(events.last() == event);
    assert(s.begin_tick().apply_all(events.drop_last()) == s.begin_tick());
    assert(s.pump_spec(events) == s.begin_tick().apply(event));
    lemma_keycode_round_trip(key);
    lemma_keycode_round_trip(other);
    lemma_apply_one(s.begin_tick(), event, key);
    lemma_apply_one(s.begin_tick(), event, other);
}

/// A tick that delivers one key-up for a tracked key leaves the key
/// released and without an edge flag.
pub proof fn lemma_pump_key_up(s: InputSnapshot, key: Key)
    ensures
        s.pump_spec(seq![RawEvent::KeyUp(key.keycode())]).button(key) == (ButtonState {
            level: false,
            edge: false,
        }),
{
    let event = RawEvent::KeyUp(key.keycode());
    let events = seq![event];
    assert(events.drop_last() == Seq::<RawEvent>::empty());
    assert(events.last() == event);
    assert(s.begin_tick().apply_all(events.drop_last()) == s.begin_tick());
    assert(s.pump_spec(events) == s.begin_tick().apply(event));
    lemma_apply_one(s.begin_tick(), event, key);
}

/// Every key has a platform code of its own, and the code leads back to it.
pub proof fn lemma_keycode_round_trip(key: Key)
    ensures
        Key::from_keycode(key.keycode()) == Some(key),
{
}

/// A platform code that leads to a key is the code of that key.
pub proof fn lemma_keycode_of_key(code: i32)
    ensures
        Key::from_keycode(code) matches Some(key) ==> key.keycode() == code,
{
}

/// One event changes at most the button that it names: a key-down or a
/// key-up changes the button of its key as `pressed` and `released` say,
/// and every other event leaves every button as it is. No event takes a
/// quit request back.
pub proof fn lemma_apply_one(s: InputSnapshot, event: RawEvent, key: Key)
    ensures
        s.apply(event).button(key) == (if event == RawEvent::KeyDown(key.keycode()) {
            s.button(key).pressed()
        } else if event == RawEvent::KeyUp(key.keycode()) {
            s.button(key).released()
        } else {
            s.button(key)
        }),
        s.quit ==> s.apply(event).quit,
{
    match event {
        RawEvent::KeyDown(code) => {
            lemma_keycode_of_key(code);
            lemma_keycode_round_trip(key);
            match Key::from_keycode(code) {
                Some(named) => {
                    if named == key {
                        assert(code == key.keycode());
                    } else {
                        assert(code != key.keycode());
                        assert(s.with_button(named, s.button(named).pressed()).button(key)
                            == s.button(key));
                    }
                },
                None => {
                    assert(code != key.keycode());
                },
            }
        },
        RawEvent::KeyUp(code) => {
            lemma_keycode_of_key(code);
            lemma_keycode_round_trip(key);
            match Key::from_keycode(code) {
                Some(named) => {
                    if named == key {
                        assert(code == key.keycode());
                    } else {
                        assert(code != key.keycode());
                        assert(s.with_button(named, s.button(named).released()).button(key)
                            == s.button(key));
                    }
                },
                None => {
                    assert(code != key.keycode());
                },
            }
        },
        RawEvent::Quit => {},
        RawEvent::Resized(_, _) => {},
        RawEvent::Other => {},
    }
}

/// Events applied after a quit request do not take it back.
pub proof fn lemma_quit_is_sticky(s: InputSnapshot, events: Seq<RawEvent>)
    requires
        s.quit,
    ensures
        s.apply_all(events).quit,
        s.pump_spec(events).quit,
    decreases events.len(),
{
    if events.len() > 0 {
        let front = events.drop_last();
        lemma_quit_is_sticky(s, front);
        lemma_quit_is_sticky(s.begin_tick(), front);
        lemma_apply_one(s.apply_all(front), events.last(), Key::Escape);
        lemma_apply_one(s.begin_tick().apply_all(front), events.last(), Key::Escape);
        assert(s.apply_all(events) == s.apply_all(front).apply(events.last()));
        assert(s.begin_tick().apply_all(events) == s.begin_tick().apply_all(front).apply(
            events.last(),
        ));
    } else {
        assert(s.apply_all(events) == s);
        assert(s.begin_tick().apply_all(events) == s.begin_tick());
    }
}

/// An edge flag implies that a key-down for that key arrived during the
/// tick: with no key-down among the events, no edge flag is set afterwards.
pub proof fn lemma_edge_needs_key_down(s: InputSnapshot, events: Seq<RawEvent>, key: Key)
    requires
        forall|i: int| 0 <= i < events.len() ==> events[i] != RawEvent::KeyDown(key.keycode()),
    ensures
        !s.pump_spec(events).button(key).edge,
    decreases events.len(),
{
    if events.len() > 0 {
        let front = events.drop_last();
        let last = events.last();
        assert forall|i: int| 0 <= i < front.len() implies front[i] != RawEvent::KeyDown(
            key.keycode(),
        ) by {
            assert(front[i] == events[i]);
        }
        lemma_edge_needs_key_down(s, front, key);
        let mid = s.begin_tick().apply_all(front);
        assert(mid == s.pump_spec(front));
        assert(s.pump_spec(events) == mid.apply(last));
        assert(last == events[events.len() - 1]);
        assert(last != RawEvent::KeyDown(key.keycode()));
        lemma_apply_one(mid, last, key);
    } else {
        assert(s.pump_spec(events) == s.begin_tick());
    }
}

/// A key stays held or released for as long as no event names it: with
/// neither a key-down nor a key-up for a key among the events, its level
/// after the tick is its level before.
pub proof fn lemma_level_needs_key_event(s: InputSnapshot, events: Seq<RawEvent>, key: Key)
    requires
        forall|i: int|
            0 <= i < events.len() ==> events[i] != RawEvent::KeyDown(key.keycode()) && events[i]
                != RawEvent::KeyUp(key.keycode()),
    ensures
        s.pump_spec(events).button(key).level == s.button(key).level,
    decreases events.len(),
{
    if events.len() > 0 {
        let front = events.drop_last();
        let last = events.last();
        assert forall|i: int| 0 <= i < front.len() implies front[i] != RawEvent::KeyDown(
            key.keycode(),
        ) && front[i] != RawEvent::KeyUp(key.keycode()) by {
            assert(front[i] == events[i]);
        }
        lemma_level_needs_key_event(s, front, key);
        let mid = s.begin_tick().apply_all(front);
        assert(mid == s.pump_spec(front));
        assert(s.pump_spec(events) == mid.apply(last));
        assert(last == events[events.len() - 1]);
        assert(last != RawEvent::KeyDown(key.keycode()));
        assert(last != RawEvent::KeyUp(key.keycode()));
        lemma_apply_one(mid, last, key);
        assert(mid.apply(last).button(key) == mid.button(key));
    } else {
        assert(s.pump_spec(events) == s.begin_tick());
        assert(s.begin_tick().button(key).level == s.button(key).level);
    }
}

} // verus!
