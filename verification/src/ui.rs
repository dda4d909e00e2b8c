//! The selection menu: a row of options, one of them selected.
//!
//! Switching the terminal, reading keys and drawing are the caller's work.
//! This module holds the options and decides what a key does to the menu,
//! what the row looks like, and what is done to the terminal in which
//! order: the caller carries out the effects of [`MenuSelector::begin`] and
//! [`MenuSelector::step`] and hands back what the terminal reported.

use vstd::prelude::*;

verus! {

/// Milliseconds to wait after taking over the terminal, before input left
/// over by its previous owner is thrown away.
pub const SETTLE_MILLIS: u64 = 200;

/// Milliseconds to wait for a key before the row is drawn again.
pub const POLL_MILLIS: u64 = 50;

/// Milliseconds to wait after a move, before the input that queued up
/// meanwhile is thrown away.
pub const DEBOUNCE_MILLIS: u64 = 150;

/// A key as the menu tells keys apart.
#[derive(Clone, Copy, Debug, PartialEq, Eq, Structural)]
pub enum Key {
    Left,
    Up,
    Right,
    Down,
    Enter,
    Escape,
    Char(char),
    Other,
}

impl Key {
    /// Whether the key moves the selection. A move is followed by the
    /// debounce wait, whether or not the selection changed.
    pub open spec fn moves(self) -> bool {
        self is Left || self is Up || self is Right || self is Down
    }

    /// Whether the key moves the selection.
    pub fn is_move(&self) -> (r: bool)
        ensures
            r == self.moves(),
    {
        match self {
            Key::Left | Key::Up | Key::Right | Key::Down => true,
            _ => false,
        }
    }
}

/// Where a menu stands.
#[derive(Clone, Copy, Debug, PartialEq, Eq, Structural)]
pub enum MenuState {
    /// Not shown yet.
    Idle,
    /// Shown, with the option at this index selected.
    Displaying(usize),
    /// Closed with this result: the index of the chosen option, or the
    /// number of options where the menu was cancelled.
    Closed(usize),
    /// Closed because the terminal failed. There is no result: the caller
    /// is owed the failure.
    Broken,
}

/// The terminal refused what the menu asked of it.
#[derive(Clone, Copy, Debug, PartialEq, Eq, Structural)]
pub struct TerminalFailure;

/// What the caller of a menu gets: nothing while the menu is not closed,
/// the result of a menu that closed by a key, and the failure of a menu
/// that the terminal broke. A failure is never a result, the cancel result
/// neither.
pub open spec fn outcome_of(state: MenuState) -> Option<Result<usize, TerminalFailure>> {
    match state {
        MenuState::Closed(result) => Some(Ok(result)),
        MenuState::Broken => Some(Err(TerminalFailure)),
        _ => None,
    }
}

impl MenuState {
    /// Whether the state belongs to a menu of `count` options: a selection
    /// is the index of an option, a result is that or `count`.
    pub open spec fn fits(self, count: usize) -> bool {
        match self {
            MenuState::Idle => true,
            MenuState::Displaying(selected) => selected < count,
            MenuState::Closed(result) => result <= count,
            MenuState::Broken => true,
        }
    }

    /// What the caller of the menu gets.
    pub fn outcome(&self) -> (r: Option<Result<usize, TerminalFailure>>)
        ensures
            r == outcome_of(*self),
    {
        match self {
            MenuState::Closed(result) => Some(Ok(*result)),
            MenuState::Broken => Some(Err(TerminalFailure)),
            _ => None,
        }
    }
}

/// The option that a digit key names: `'1'` the first, up to `'9'` the ninth.
pub open spec fn digit_choice(c: char) -> Option<usize> {
    if '1' <= c && c <= '9' {
        Some((c as u32 - '1' as u32) as usize)
    } else {
        None
    }
}

/// The selection one step to the left, from the first option to the last.
pub open spec fn step_left(count: usize, selected: usize) -> usize {
    if selected == 0 {
        (count - 1) as usize
    } else {
        (selected - 1) as usize
    }
}

/// The selection one step to the right, from the last option to the first.
pub open spec fn step_right(count: usize, selected: usize) -> usize {
    if selected + 1 >= count {
        0
    } else {
        (selected + 1) as usize
    }
}

/// The state of a menu of `count` options after `key`.
///
/// Only a menu that is shown takes keys. Left and Up step left, Right and
/// Down step right, both around the ends. Enter closes with the selection,
/// Escape with `count`. A digit closes with the option that it names, if
/// there is one. Every other key is passed over.
pub open spec fn pressed(count: usize, state: MenuState, key: Key) -> MenuState {
    match state {
        MenuState::Displaying(selected) => match key {
            Key::Left | Key::Up => MenuState::Displaying(step_left(count, selected)),
            Key::Right | Key::Down => MenuState::Displaying(step_right(count, selected)),
            Key::Enter => MenuState::Closed(selected),
            Key::Escape => MenuState::Closed(count),
            Key::Char(c) => match digit_choice(c) {
                Some(choice) => if choice < count {
                    MenuState::Closed(choice)
                } else {
                    state
                },
                None => state,
            },
            Key::Other => state,
        },
        _ => state,
    }
}

/// The state after the keys of `keys`, one after the other.
pub open spec fn replayed(count: usize, state: MenuState, keys: Seq<Key>) -> MenuState
    decreases keys.len(),
{
    if keys.len() == 0 {
        state
    } else {
        replayed(count, pressed(count, state, keys[0]), keys.drop_first())
    }
}

/// What the terminal reported since the last effects.
#[derive(Clone, Copy, Debug, PartialEq, Eq, Structural)]
pub enum TerminalEvent {
    /// A key was pressed.
    Pressed(Key),
    /// The wait for a key ran out.
    Quiet,
    /// The terminal refused one of the effects.
    Failed,
}

/// What the caller does to the terminal, in order.
#[derive(Clone, Copy, Debug, PartialEq, Eq, Structural)]
pub enum TerminalEffect {
    /// Switch to raw input: unbuffered and without echo.
    EnterRawMode,
    HideCursor,
    /// Wait this many milliseconds.
    Wait(u64),
    /// Throw away the input that is queued.
    Drain,
    /// Draw the whole row with the option at this index selected.
    Draw(usize),
    /// Wait up to this many milliseconds for a key and hand back what came.
    Poll(u64),
    ShowCursor,
    /// Switch back to normal input.
    LeaveRawMode,
}

/// Drawing the row and waiting for the next key.
pub open spec fn redraw(selected: usize) -> Seq<TerminalEffect> {
    seq![TerminalEffect::Draw(selected), TerminalEffect::Poll(POLL_MILLIS)]
}

/// Giving the terminal back: the cursor shown, the input normal.
pub open spec fn restore() -> Seq<TerminalEffect> {
    seq![TerminalEffect::ShowCursor, TerminalEffect::LeaveRawMode]
}

/// Taking over the terminal: raw input, no cursor, a wait for the input of
/// the previous owner to settle, that input thrown away, and the first row.
pub open spec fn takeover() -> Seq<TerminalEffect> {
    seq![
        TerminalEffect::EnterRawMode,
        TerminalEffect::HideCursor,
        TerminalEffect::Wait(SETTLE_MILLIS),
        TerminalEffect::Drain,
    ] + redraw(0)
}

/// The terminal effects of a key that left the menu in `next`: a row drawn
/// again while the menu is shown, after the debounce wait and a drain where
/// the key was a move; the terminal given back once the menu is closed.
pub open spec fn key_effects(key: Key, next: MenuState) -> Seq<TerminalEffect> {
    match next {
        MenuState::Displaying(selected) => if key.moves() {
            seq![TerminalEffect::Wait(DEBOUNCE_MILLIS), TerminalEffect::Drain] + redraw(selected)
        } else {
            redraw(selected)
        },
        _ => restore(),
    }
}

/// The menu after the terminal failed, and what is done to the terminal.
///
/// A failure is fatal and is never a result. A menu that is shown is
/// broken, and the terminal is given back as far as it still can be. A
/// menu that had closed while it gave the terminal back is broken too, and
/// nothing is tried again. A menu that was never shown, or is broken
/// already, is left as it is.
pub open spec fn failed_step(state: MenuState) -> (MenuState, Seq<TerminalEffect>) {
    match state {
        MenuState::Displaying(_) => (MenuState::Broken, restore()),
        MenuState::Closed(_) => (MenuState::Broken, Seq::empty()),
        _ => (state, Seq::empty()),
    }
}

/// The menu of `count` options after a terminal event, and what the caller
/// does to the terminal next.
///
/// A menu that is shown takes keys as [`pressed`] says and is drawn again
/// when no key came. A failure of the terminal goes as [`failed_step`]
/// says. Every way out of the shown state gives the terminal back. A menu
/// that is not shown takes no key.
pub open spec fn terminal_step(count: usize, state: MenuState, event: TerminalEvent) -> (
    MenuState,
    Seq<TerminalEffect>,
) {
    match event {
        TerminalEvent::Failed => failed_step(state),
        TerminalEvent::Pressed(key) => match state {
            MenuState::Displaying(_) => (
                pressed(count, state, key),
                key_effects(key, pressed(count, state, key)),
            ),
            _ => (state, Seq::empty()),
        },
        TerminalEvent::Quiet => match state {
            MenuState::Displaying(selected) => (state, redraw(selected)),
            _ => (state, Seq::empty()),
        },
    }
}

/// The menu after the terminal events of `events`, one after the other,
/// and all that was done to the terminal meanwhile, in order.
pub open spec fn run(count: usize, state: MenuState, events: Seq<TerminalEvent>) -> (
    MenuState,
    Seq<TerminalEffect>,
)
    decreases events.len(),
{
    if events.len() == 0 {
        (state, Seq::empty())
    } else {
        let first = terminal_step(count, state, events[0]);
        let rest = run(count, first.0, events.drop_first());
        (rest.0, first.1 + rest.1)
    }
}

/// A menu of `count` options shown from the start: the terminal taken
/// over, the first option selected, and then the events of `events`.
pub open spec fn shown(count: usize, events: Seq<TerminalEvent>) -> (
    MenuState,
    Seq<TerminalEffect>,
) {
    (
        run(count, MenuState::Displaying(0), events).0,
        takeover() + run(count, MenuState::Displaying(0), events).1,
    )
}

/// The events of pressing `keys`, one after the other.
pub open spec fn presses(keys: Seq<Key>) -> Seq<TerminalEvent> {
    Seq::new(keys.len(), |i: int| TerminalEvent::Pressed(keys[i]))
}

/// `n` times the same key.
pub open spec fn repeated(key: Key, n: nat) -> Seq<Key> {
    Seq::new(n, |i: int| key)
}

/// How a piece of the row is drawn.
#[derive(Clone, Copy, Debug, PartialEq, Eq, Structural)]
pub enum PieceKind {
    /// The selected option, in brackets.
    Selected,
    /// Another option.
    Plain,
    /// The bar between two options.
    Separator,
}

/// One piece of the row.
#[derive(Debug)]
pub struct Piece {
    pub text: String,
    pub kind: PieceKind,
}

impl View for Piece {
    type V = (Seq<char>, PieceKind);

    open spec fn view(&self) -> (Seq<char>, PieceKind) {
        (self.text@, self.kind)
    }
}

/// The piece for an option.
pub open spec fn option_piece(title: Seq<char>, selected: bool) -> (Seq<char>, PieceKind) {
    if selected {
        ("["@ + title + "]"@, PieceKind::Selected)
    } else {
        (title, PieceKind::Plain)
    }
}

/// The row for `titles` with the option at `selected` selected: the
/// options in order, a bar between each two.
pub open spec fn row(titles: Seq<Seq<char>>, selected: int) -> Seq<(Seq<char>, PieceKind)>
    decreases titles.len(),
{
    if titles.len() == 0 {
        Seq::empty()
    } else if titles.len() == 1 {
        seq![option_piece(titles[0], selected == 0)]
    } else {
        row(titles.drop_last(), selected) + seq![
            (" | "@, PieceKind::Separator),
            option_piece(titles.last(), selected == titles.len() - 1),
        ]
    }
}

/// The views of the pieces of `pieces`.
pub open spec fn pieces_view(pieces: Seq<Piece>) -> Seq<(Seq<char>, PieceKind)> {
    Seq::new(pieces.len(), |i: int| pieces[i]@)
}

/// A menu: its options in the order in which they were added, each a
/// title and a description.
#[derive(Debug)]
pub struct MenuSelector {
    options: Vec<(String, String)>,
}

impl View for MenuSelector {
    type V = Seq<(Seq<char>, Seq<char>)>;

    closed spec fn view(&self) -> Seq<(Seq<char>, Seq<char>)> {
        Seq::new(self.options@.len(), |i: int| (self.options@[i].0@, self.options@[i].1@))
    }
}

/// The titles of options.
pub open spec fn titles_of(options: Seq<(Seq<char>, Seq<char>)>) -> Seq<Seq<char>> {
    Seq::new(options.len(), |i: int| options[i].0)
}

impl MenuSelector {
    /// A menu without options.
    pub fn new() -> (r: MenuSelector)
        ensures
            r@ == Seq::<(Seq<char>, Seq<char>)>::empty(),
    {
        let r = MenuSelector { options: Vec::new() };
        assert(r@ =~= Seq::<(Seq<char>, Seq<char>)>::empty());
        r
    }

    /// The menu with one more option at its end.
    pub fn add_option(self, title: &str, description: &str) -> (r: MenuSelector)
        ensures
            r@ == self@.push((title@, description@)),
    {
        let mut options = self.options;
        options.push((title.to_owned(), description.to_owned()));
        let r = MenuSelector { options };
        assert(r@ =~= self@.push((title@, description@)));
        r
    }

    /// How many options the menu has. This is also the result of a menu
    /// that was cancelled.
    pub fn option_count(&self) -> (r: usize)
        ensures
            r == self@.len(),
    {
        self.options.len()
    }

    /// The title of the option at `index`.
    pub fn title(&self, index: usize) -> (r: &str)
        requires
            index < self@.len(),
        ensures
            r@ == self@[index as int].0,
    {
        self.options[index].0.as_str()
    }

    /// Shows the menu: the first option is selected.
    pub fn open(&self) -> (r: MenuState)
        requires
            self@.len() > 0,
        ensures
            r == MenuState::Displaying(0),
            r.fits(self@.len() as usize),
    {
        let count = self.options.len();
        assert(count == self@.len());
        MenuState::Displaying(0)
    }

    /// What `key` does to the menu in `state`.
    pub fn press(&self, state: MenuState, key: Key) -> (r: MenuState)
        requires
            state.fits(self@.len() as usize),
        ensures
            r == pressed(self@.len() as usize, state, key),
            r.fits(self@.len() as usize),
            state is Displaying && key is Escape ==> r == MenuState::Closed(self@.len() as usize),
    {
        let count = self.options.len();
        match state {
            MenuState::Displaying(selected) => match key {
                Key::Left | Key::Up => MenuState::Displaying(
                    if selected == 0 {
                        count - 1
                    } else {
                        selected - 1
                    },
                ),
                Key::Right | Key::Down => MenuState::Displaying(
                    if selected + 1 >= count {
                        0
                    } else {
                        selected + 1
                    },
                ),
                Key::Enter => MenuState::Closed(selected),
                Key::Escape => MenuState::Closed(count),
                Key::Char(c) => if '1' <= c && c <= '9' {
                    let choice = (c as u32 - '1' as u32) as usize;
                    if choice < count {
                        MenuState::Closed(choice)
                    } else {
                        state
                    }
                } else {
                    state
                },
                Key::Other => state,
            },
            _ => state,
        }
    }

    /// Takes over the terminal and shows the menu with its first option
    /// selected.
    pub fn begin(&self) -> (r: (MenuState, Vec<TerminalEffect>))
        requires
            self@.len() > 0,
        ensures
            r.0 == MenuState::Displaying(0),
            r.0.fits(self@.len() as usize),
            r.1@ == takeover(),
    {
        let mut effects: Vec<TerminalEffect> = Vec::new();
        effects.push(TerminalEffect::EnterRawMode);
        effects.push(TerminalEffect::HideCursor);
        effects.push(TerminalEffect::Wait(SETTLE_MILLIS));
        effects.push(TerminalEffect::Drain);
        effects.push(TerminalEffect::Draw(0));
        effects.push(TerminalEffect::Poll(POLL_MILLIS));
        assert(effects@ =~= takeover());
        (self.open(), effects)
    }

    /// Takes a terminal event and gives the menu after it with what the
    /// caller does to the terminal next.
    ///
    /// The terminal is given back on every way out: whenever a menu that is
    /// shown closes, by a choice, by Escape or because the terminal failed,
    /// the effects are to show the cursor and to leave raw input. A failure
    /// of the terminal is told apart from every result: it leaves the menu
    /// broken, and the caller is owed the failure.
    pub fn step(&self, state: MenuState, event: TerminalEvent) -> (r: (
        MenuState,
        Vec<TerminalEffect>,
    ))
        requires
            state.fits(self@.len() as usize),
        ensures
            (r.0, r.1@) == terminal_step(self@.len() as usize, state, event),
            r.0.fits(self@.len() as usize),
            state is Displaying && !(r.0 is Displaying) ==> r.1@ == restore(),
            event is Failed && !(state is Idle) ==> outcome_of(r.0) == Some(
                Err::<usize, TerminalFailure>(TerminalFailure),
            ),
            !(event is Failed) && !(state is Broken) ==> !(r.0 is Broken),
    {
        let mut effects: Vec<TerminalEffect> = Vec::new();
        let next = match (state, event) {
            (MenuState::Displaying(_), TerminalEvent::Failed) => MenuState::Broken,
            (MenuState::Closed(_), TerminalEvent::Failed) => {
                assert(effects@ =~= Seq::<TerminalEffect>::empty());
                return (MenuState::Broken, effects);
            },
            (MenuState::Displaying(_), TerminalEvent::Pressed(key)) => self.press(state, key),
            (MenuState::Displaying(_), TerminalEvent::Quiet) => state,
            _ => {
                assert(effects@ =~= Seq::<TerminalEffect>::empty());
                return (state, effects);
            },
        };
        let debounce = match event {
            TerminalEvent::Pressed(key) => key.is_move(),
            _ => false,
        };
        match next {
            MenuState::Displaying(selected) => {
                if debounce {
                    effects.push(TerminalEffect::Wait(DEBOUNCE_MILLIS));
                    effects.push(TerminalEffect::Drain);
                }
                effects.push(TerminalEffect::Draw(selected));
                effects.push(TerminalEffect::Poll(POLL_MILLIS));
            },
            _ => {
                effects.push(TerminalEffect::ShowCursor);
                effects.push(TerminalEffect::LeaveRawMode);
            },
        }
        assert(effects@ =~= terminal_step(self@.len() as usize, state, event).1);
        (next, effects)
    }

    /// Shows the menu and runs it on `events`, what the terminal reports
    /// one after the other. The result is where the menu stands after the
    /// last of them, with all that was done to the terminal, in order.
    ///
    /// However the menu ends, by a choice, by Escape or by a failure, the
    /// terminal has been given back: the last two effects are to show the
    /// cursor and to leave raw input. A failure among the events leaves the
    /// menu broken and is owed to the caller as an error; no result stands
    /// for it.
    pub fn show(&self, events: &Vec<TerminalEvent>) -> (r: (MenuState, Vec<TerminalEffect>))
        requires
            self@.len() > 0,
        ensures
            (r.0, r.1@) == shown(self@.len() as usize, events@),
            r.0.fits(self@.len() as usize),
            !(r.0 is Idle),
            !(r.0 is Displaying) ==> restore().is_suffix_of(r.1@),
            events@.contains(TerminalEvent::Failed) <==> outcome_of(r.0) == Some(
                Err::<usize, TerminalFailure>(TerminalFailure),
            ),
    {
        let count = self.options.len();
        assert(count == self@.len());
        let (mut state, mut effects) = self.begin();
        let mut i: usize = 0;
        proof {
            assert(events@.skip(0) =~= events@);
            assert(effects@ + Seq::<TerminalEffect>::empty() =~= effects@);
            lemma_run_restores(count, MenuState::Displaying(0), events@);
            lemma_failure_breaks(count, MenuState::Displaying(0), events@);
            lemma_suffix_stays(takeover(), run(count, MenuState::Displaying(0), events@).1);
        }
        while i < events.len()
            invariant
                i <= events.len(),
                count == self@.len(),
                state.fits(count),
                shown(count, events@) == (
                    run(count, state, events@.skip(i as int)).0,
                    effects@ + run(count, state, events@.skip(i as int)).1,
                ),
            decreases events.len() - i,
        {
            let ghost before = effects@;
            let ghost rest = run(
                count,
                terminal_step(count, state, events@[i as int]).0,
                events@.skip(i + 1),
            ).1;
            proof {
                assert(events@.skip(i as int)[0] == events@[i as int]);
                assert(events@.skip(i as int).drop_first() =~= events@.skip(i + 1));
            }
            let (next, mut following) = self.step(state, events[i]);
            proof {
                assert(before + (following@ + rest) =~= (before + following@) + rest);
            }
            effects.append(&mut following);
            state = next;
            i += 1;
        }
        proof {
            assert(events@.skip(events@.len() as int) =~= Seq::<TerminalEvent>::empty());
            assert(effects@ + Seq::<TerminalEffect>::empty() =~= effects@);
        }
        (state, effects)
    }

    /// The row of the menu with the option at `selected` selected.
    pub fn render(&self, selected: usize) -> (r: Vec<Piece>)
        ensures
            pieces_view(r@) == row(titles_of(self@), selected as int),
    {
        let ghost titles = titles_of(self@);
        let mut pieces: Vec<Piece> = Vec::new();
        let mut i: usize = 0;
        assert(titles.take(0) =~= Seq::<Seq<char>>::empty());
        assert(pieces_view(pieces@) =~= row(titles.take(0), selected as int));
        while i < self.options.len()
            invariant
                i <= self.options.len(),
                titles == titles_of(self@),
                titles.len() == self.options@.len(),
                pieces_view(pieces@) == row(titles.take(i as int), selected as int),
            decreases self.options.len() - i,
        {
            let ghost before = pieces_view(pieces@);
            proof {
                assert(titles.take(i + 1).drop_last() =~= titles.take(i as int));
                assert(titles.take(i + 1).last() == self.options@[i as int].0@);
            }
            if i > 0 {
                pieces.push(Piece { text: String::from_str(" | "), kind: PieceKind::Separator });
            }
            let title = self.options[i].0.as_str();
            if i == selected {
                pieces.push(
                    Piece {
                        text: String::from_str("[").concat(title).concat("]"),
                        kind: PieceKind::Selected,
                    },
                );
            } else {
                pieces.push(Piece { text: title.to_owned(), kind: PieceKind::Plain });
            }
            proof {
                let piece = option_piece(titles[i as int], i == selected);
                if i > 0 {
                    assert(pieces_view(pieces@) =~= before + seq![
                        (" | "@, PieceKind::Separator),
                        piece,
                    ]);
                } else {
                    assert(pieces_view(pieces@) =~= seq![piece]);
                    assert(titles.take(1)[0] == titles[0]);
                }
            }
            i += 1;
        }
        proof {
            assert(titles.take(self.options@.len() as int) =~= titles);
        }
        pieces
    }
}

impl Default for MenuSelector {
    fn default() -> (r: MenuSelector)
        ensures
            r@ == Seq::<(Seq<char>, Seq<char>)>::empty(),
    {
        MenuSelector::new()
    }
}

/// Escape cancels: whatever is selected, the menu closes with the number
/// of its options.
pub proof fn lemma_escape_cancels(count: usize, selected: usize)
    ensures
        pressed(count, MenuState::Displaying(selected), Key::Escape) == MenuState::Closed(count),
{
}

/// The selection after `n` steps to the right.
proof fn lemma_steps_right(count: usize, selected: usize, n: nat)
    requires
        selected < count,
    ensures
        replayed(count, MenuState::Displaying(selected), repeated(Key::Right, n))
            == MenuState::Displaying(((selected + n) % (count as int)) as usize),
    decreases n,
{
    let keys = repeated(Key::Right, n);
    if n == 0 {
        vstd::arithmetic::div_mod::lemma_small_mod(selected as nat, count as nat);
    } else {
        let next = step_right(count, selected);
        assert(keys.drop_first() =~= repeated(Key::Right, (n - 1) as nat));
        lemma_steps_right(count, next, (n - 1) as nat);
        if selected + 1 >= count {
            assert(selected + n == count + (n - 1));
            vstd::arithmetic::div_mod::lemma_mod_add_multiples_vanish(
                (n - 1) as int,
                count as int,
            );
            assert((count + (n - 1)) % (count as int) == (n - 1) % (count as int));
        }
    }
}

/// The selection after `n` steps to the left.
proof fn lemma_steps_left(count: usize, selected: usize, n: nat)
    requires
        selected < count,
    ensures
        replayed(count, MenuState::Displaying(selected), repeated(Key::Left, n))
            == MenuState::Displaying(((selected - n) % (count as int)) as usize),
    decreases n,
{
    let keys = repeated(Key::Left, n);
    if n == 0 {
        vstd::arithmetic::div_mod::lemma_small_mod(selected as nat, count as nat);
    } else {
        let next = step_left(count, selected);
        assert(keys.drop_first() =~= repeated(Key::Left, (n - 1) as nat));
        lemma_steps_left(count, next, (n - 1) as nat);
        if selected == 0 {
            assert(next - (n - 1) == count + (selected - n));
            vstd::arithmetic::div_mod::lemma_mod_add_multiples_vanish(
                selected - n,
                count as int,
            );
        }
    }
}

/// A full round to the right brings the selection back: after as many
/// steps to the right as the menu has options, the option selected is the
/// one that was selected before.
pub proof fn lemma_full_round_right(count: usize, selected: usize)
    requires
        selected < count,
    ensures
        replayed(count, MenuState::Displaying(selected), repeated(Key::Right, count as nat))
            == MenuState::Displaying(selected),
        run(
            count,
            MenuState::Displaying(selected),
            presses(repeated(Key::Right, count as nat)),
        ).0 == MenuState::Displaying(selected),
{
    lemma_keys_replay(count, MenuState::Displaying(selected), repeated(Key::Right, count as nat));
    lemma_steps_right(count, selected, count as nat);
    vstd::arithmetic::div_mod::lemma_mod_add_multiples_vanish(selected as int, count as int);
    vstd::arithmetic::div_mod::lemma_small_mod(selected as nat, count as nat);
}

/// A full round to the left brings the selection back as well.
pub proof fn lemma_full_round_left(count: usize, selected: usize)
    requires
        selected < count,
    ensures
        replayed(count, MenuState::Displaying(selected), repeated(Key::Left, count as nat))
            == MenuState::Displaying(selected),
{
    lemma_steps_left(count, selected, count as nat);
    vstd::arithmetic::div_mod::lemma_mod_sub_multiples_vanish(selected as int, count as int);
    vstd::arithmetic::div_mod::lemma_small_mod(selected as nat, count as nat);
}

/// Effects that end with giving the terminal back still end so with more
/// effects before them.
proof fn lemma_suffix_stays(front: Seq<TerminalEffect>, effects: Seq<TerminalEffect>)
    ensures
        restore().is_suffix_of(effects) ==> restore().is_suffix_of(front + effects),
{
    if restore().is_suffix_of(effects) {
        let all = front + effects;
        assert(all.subrange(all.len() - 2, all.len() as int) =~= effects.subrange(
            effects.len() - 2,
            effects.len() as int,
        ));
    }
}

/// A menu that is not shown does nothing to the terminal, whatever comes,
/// and is never shown again.
proof fn lemma_not_shown_is_still(count: usize, state: MenuState, events: Seq<TerminalEvent>)
    requires
        !(state is Displaying),
    ensures
        run(count, state, events).1 == Seq::<TerminalEffect>::empty(),
        !(run(count, state, events).0 is Displaying),
        state is Idle <==> run(count, state, events).0 is Idle,
    decreases events.len(),
{
    if events.len() > 0 {
        let first = terminal_step(count, state, events[0]);
        lemma_not_shown_is_still(count, first.0, events.drop_first());
        assert(first.1 + run(count, first.0, events.drop_first()).1 =~= Seq::<
            TerminalEffect,
        >::empty());
    }
}

/// The terminal is given back on every way out: when a menu that is shown
/// is no longer shown after some events, the last things done to the
/// terminal were to show the cursor and to leave raw input.
pub proof fn lemma_run_restores(count: usize, state: MenuState, events: Seq<TerminalEvent>)
    requires
        state is Displaying,
    ensures
        !(run(count, state, events).0 is Idle),
        !(run(count, state, events).0 is Displaying) ==> restore().is_suffix_of(
            run(count, state, events).1,
        ),
    decreases events.len(),
{
    if events.len() > 0 {
        let first = terminal_step(count, state, events[0]);
        let rest = run(count, first.0, events.drop_first());
        if first.0 is Displaying {
            lemma_run_restores(count, first.0, events.drop_first());
            lemma_suffix_stays(first.1, rest.1);
        } else {
            lemma_not_shown_is_still(count, first.0, events.drop_first());
            assert(first.1 == restore());
            assert(first.1 + rest.1 =~= restore());
            assert(restore().subrange(0, 2) =~= restore());
        }
    }
}

/// A failure of the terminal is always told: a menu that was shown ends
/// broken exactly when the terminal failed at some point, whatever keys
/// came before or after, and a broken menu has no result.
pub proof fn lemma_failure_breaks(count: usize, state: MenuState, events: Seq<TerminalEvent>)
    requires
        !(state is Idle),
    ensures
        run(count, state, events).0 is Broken <==> state is Broken || events.contains(
            TerminalEvent::Failed,
        ),
    decreases events.len(),
{
    if events.len() > 0 {
        let first = terminal_step(count, state, events[0]);
        let later = events.drop_first();
        lemma_failure_breaks(count, first.0, later);
        if events.contains(TerminalEvent::Failed) {
            let at = choose|i: int| 0 <= i < events.len() && events[i] == TerminalEvent::Failed;
            if at > 0 {
                assert(later[at - 1] == TerminalEvent::Failed);
            }
        }
        if later.contains(TerminalEvent::Failed) {
            let at = choose|i: int| 0 <= i < later.len() && later[i] == TerminalEvent::Failed;
            assert(events[at + 1] == TerminalEvent::Failed);
        }
    }
}

/// Keys alone move the menu as [`replayed`] says.
pub proof fn lemma_keys_replay(count: usize, state: MenuState, keys: Seq<Key>)
    ensures
        run(count, state, presses(keys)).0 == replayed(count, state, keys),
    decreases keys.len(),
{
    if keys.len() > 0 {
        assert(presses(keys).drop_first() =~= presses(keys.drop_first()));
        lemma_keys_replay(count, pressed(count, state, keys[0]), keys.drop_first());
    }
}

} // verus!
