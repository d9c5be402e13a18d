use vstd::prelude::*;
use crate::field::{empty_field, FIELD_SIZE};
use crate::machine::{InputEvent, LogicalKey, State, StateMachine, StateTransition};
use crate::phases::{FallingState, GamePhase};
use crate::session::GameData;
use crate::tetromino::{Point, Tetramino, TetrominoType};

verus! {

/// Number of entries of the main menu.
pub const ELEMENTS_COUNT: i32 = 2;

/// The main menu: start a game or quit.
pub struct MainMenu {
    pub selection: i32,
    pub interact: bool,
}

impl MainMenu {
    pub open spec fn inv(&self) -> bool {
        0 <= self.selection < ELEMENTS_COUNT
    }

    pub fn new() -> (r: MainMenu)
        ensures
            r.selection == 0,
            !r.interact,
    {
        MainMenu { selection: 0, interact: false }
    }

    /// What `update` does.
    pub open spec fn update_post(s: MainMenu, s2: MainMenu, t: StateTransition<Screen>) -> bool {
        &&& s2.selection == s.selection
        &&& !s2.interact
        &&& !s.interact ==> t is Hold
        &&& s.interact && s.selection == 0 ==> (t matches StateTransition::Transition(Screen::Play(p)) && p.fresh())
        &&& s.interact && s.selection == 1 ==> t is Pop
    }

    /// On a confirmation: entry 0 starts a game (transition to play), entry 1 quits (pop).
    pub fn update(&mut self) -> (t: StateTransition<Screen>)
        requires
            old(self).inv(),
        ensures
            final(self).inv(),
            MainMenu::update_post(*old(self), *final(self), t),
    {
        if self.interact {
            self.interact = false;
            if self.selection == 0 {
                return StateTransition::Transition(Screen::Play(PlayState::new()));
            } else {
                return StateTransition::Pop;
            }
        }
        StateTransition::Hold
    }

    /// What `handle_input` does.
    pub open spec fn input_post(s: MainMenu, event: InputEvent, s2: MainMenu) -> bool {
        &&& !event.pressed ==> s2 == s
        &&& event.pressed && (event.key == LogicalKey::MenuUp || event.key == LogicalKey::MenuDown) ==> s2.selection == (
            s.selection + 1) % ELEMENTS_COUNT as int && s2.interact == s.interact
        &&& event.pressed && event.key == LogicalKey::Confirm ==> s2.selection == s.selection && s2.interact
        &&& event.pressed && event.key != LogicalKey::MenuUp && event.key != LogicalKey::MenuDown && event.key != LogicalKey::Confirm
            ==> s2 == s
    }

    /// Up and down move the selection cyclically; confirm requests the selected entry.
    pub fn handle_input(&mut self, event: InputEvent)
        requires
            old(self).inv(),
        ensures
            final(self).inv(),
            MainMenu::input_post(*old(self), event, *final(self)),
    {
        if event.pressed {
            match event.key {
                LogicalKey::MenuUp => {
                    self.selection = (self.selection + (ELEMENTS_COUNT - 1)) % ELEMENTS_COUNT;
                },
                LogicalKey::MenuDown => {
                    self.selection = (self.selection + 1) % ELEMENTS_COUNT;
                },
                LogicalKey::Confirm => {
                    self.interact = true;
                },
                _ => {},
            }
        }
    }
}

/// The pause screen: the pause key returns to the game.
pub struct Pause {
    pub interact: bool,
}

impl Pause {
    pub fn new() -> (r: Pause)
        ensures
            !r.interact,
    {
        Pause { interact: false }
    }

    /// What `update` does.
    pub open spec fn update_post(s: Pause, s2: Pause, t: StateTransition<Screen>) -> bool {
        &&& !s2.interact
        &&& s.interact ==> t is Pop
        &&& !s.interact ==> t is Hold
    }

    pub fn update(&mut self) -> (t: StateTransition<Screen>)
        ensures
            Pause::update_post(*old(self), *final(self), t),
    {
        if self.interact {
            self.interact = false;
            return StateTransition::Pop;
        }
        StateTransition::Hold
    }

    /// What `handle_input` does.
    pub open spec fn input_post(s: Pause, event: InputEvent, s2: Pause) -> bool {
        &&& s2.interact == (s.interact || (event.pressed && event.key == LogicalKey::Pause))
    }

    pub fn handle_input(&mut self, event: InputEvent)
        ensures
            Pause::input_post(*old(self), event, *final(self)),
    {
        if event.pressed {
            match event.key {
                LogicalKey::Pause => {
                    self.interact = true;
                },
                _ => {},
            }
        }
    }
}

/// The summary shown when a game ends: its score and tier.
pub struct ScoreScreen {
    pub interact: bool,
    pub score: u32,
    pub level: u32,
}

impl ScoreScreen {
    pub fn new(score: u32, level: u32) -> (r: ScoreScreen)
        ensures
            !r.interact,
            r.score == score,
            r.level == level,
    {
        ScoreScreen { interact: false, score, level }
    }

    /// What `update` does.
    pub open spec fn update_post(s: ScoreScreen, s2: ScoreScreen, t: StateTransition<Screen>) -> bool {
        &&& s2 == (ScoreScreen { interact: false, ..s })
        &&& s.interact ==> (t matches StateTransition::Transition(Screen::MainMenu(m)) && m.selection == 0 && !m.interact)
        &&& !s.interact ==> t is Hold
    }

    /// On a confirmation, back to the main menu.
    pub fn update(&mut self) -> (t: StateTransition<Screen>)
        ensures
            ScoreScreen::update_post(*old(self), *final(self), t),
    {
        if self.interact {
            self.interact = false;
            return StateTransition::Transition(Screen::MainMenu(MainMenu::new()));
        }
        StateTransition::Hold
    }

    /// What `handle_input` does.
    pub open spec fn input_post(s: ScoreScreen, event: InputEvent, s2: ScoreScreen) -> bool {
        &&& s2 == (ScoreScreen {
            interact: s.interact || (event.pressed && (event.key == LogicalKey::Confirm || event.key
                == LogicalKey::Cancel)),
            ..s
        })
    }

    pub fn handle_input(&mut self, event: InputEvent)
        ensures
            ScoreScreen::input_post(*old(self), event, *final(self)),
    {
        if event.pressed {
            match event.key {
                LogicalKey::Confirm => {
                    self.interact = true;
                },
                LogicalKey::Cancel => {
                    self.interact = true;
                },
                _ => {},
            }
        }
    }
}

/// A game in progress: its own stack of phases, and the pause request.
pub struct PlayState {
    pub logic: StateMachine<GamePhase>,
    pub pause_event: bool,
}

impl PlayState {
    pub open spec fn inv(&self) -> bool {
        self.logic.wf()
    }

    /// A game whose phase stack holds a fresh falling state alone.
    pub open spec fn fresh(&self) -> bool {
        &&& self.inv()
        &&& !self.pause_event
        &&& self.logic.stack@.len() == 1
        &&& self.logic.stack@[0] matches GamePhase::Falling(f) && f.fresh()
    }

    /// What `enter` does: a new game with an empty board, score 0, tier 0
    /// and a random piece at the spawn point.
    pub open spec fn entered(d: GameData, d2: GameData) -> bool {
        &&& d2.score == 0
        &&& d2.dificulty == 0
        &&& forall|i: int| 0 <= i < FIELD_SIZE ==> #[trigger] d2.play_table@[i] == TetrominoType::E
        &&& d2.current_figure.position == (Point { x: 5, y: 0 })
        &&& d2.current_figure.rotation_index == 0
        &&& d2 == GameData {
            score: 0,
            dificulty: 0,
            play_table: d2.play_table,
            current_figure: d2.current_figure,
            ..d
        }
    }

    pub fn new() -> (r: PlayState)
        ensures
            r.fresh(),
    {
        let falling = FallingState::new();
        PlayState { logic: StateMachine::new(GamePhase::Falling(falling)), pause_event: false }
    }

    /// What `update` does.
    pub open spec fn update_post(s: PlayState, d: GameData, dt: u64, s2: PlayState, d2: GameData, t: StateTransition<Screen>) -> bool {
        &&& !s2.pause_event
        &&& s.pause_event ==> (t matches StateTransition::Push(Screen::Pause(p)) && !p.interact) && d2
            == d && s2.logic == s.logic
        &&& !s.pause_event ==> s.logic.stepped(d, dt, s2.logic, d2)
        &&& !s.pause_event && s2.logic.stack@.len() > 0 ==> t is Hold
        &&& !s.pause_event && s2.logic.stack@.len() == 0 ==> (t matches StateTransition::Transition(
            Screen::ScoreScreen(summary),
        ) && summary.score == d2.score && summary.level == d2.dificulty && !summary.interact)
    }

    /// A pause request pushes the pause screen; otherwise the phase stack is
    /// updated, and when it empties the game ends with the score screen.
    pub fn update(&mut self, data: &mut GameData, dt: u64) -> (t: StateTransition<Screen>)
        requires
            old(self).inv(),
            old(data).wf(),
        ensures
            final(self).inv(),
            final(data).wf(),
            PlayState::update_post(*old(self), *old(data), dt, *final(self), *final(data), t),
    {
        if self.pause_event {
            self.pause_event = false;
            StateTransition::Push(Screen::Pause(Pause::new()))
        } else if self.logic.update(data, dt) {
            StateTransition::Hold
        } else {
            StateTransition::Transition(Screen::ScoreScreen(ScoreScreen::new(data.score, data.dificulty)))
        }
    }

    /// What `handle_input` does.
    pub open spec fn input_post(s: PlayState, d: GameData, event: InputEvent, s2: PlayState, d2: GameData) -> bool {
        &&& s2.pause_event == (s.pause_event || (event.pressed && event.key == LogicalKey::Pause))
        &&& s.logic.input_handled(d, event, s2.logic, d2)
    }

    /// The pause key requests a pause; every event also goes to the phase stack.
    pub fn handle_input(&mut self, event: InputEvent, data: &mut GameData)
        requires
            old(self).inv(),
            old(data).wf(),
        ensures
            final(self).inv(),
            final(data).wf(),
            PlayState::input_post(*old(self), *old(data), event, *final(self), *final(data)),
    {
        if event.pressed && event.key == LogicalKey::Pause {
            self.pause_event = true;
        }
        self.logic.handle_input(event, data);
    }

    pub fn enter(&mut self, data: &mut GameData)
        requires
            old(data).wf(),
        ensures
            final(data).wf(),
            *final(self) == *old(self),
            PlayState::entered(*old(data), *final(data)),
    {
        data.dificulty = 0;
        data.score = 0;
        data.play_table = empty_field();
        data.current_figure = Tetramino::new(GameData::random_tetramino_index());
    }
}

/// The screens, on the outer stack.
pub enum Screen {
    MainMenu(MainMenu),
    Play(PlayState),
    Pause(Pause),
    ScoreScreen(ScoreScreen),
}

impl State for Screen {
    open spec fn inv(&self) -> bool {
        match self {
            Screen::MainMenu(s) => s.inv(),
            Screen::Play(s) => s.inv(),
            _ => true,
        }
    }

    open spec fn entered(self, data: GameData, s2: Self, d2: GameData) -> bool {
        match self {
            Screen::Play(_) => s2 == self && PlayState::entered(data, d2),
            _ => s2 == self && d2 == data,
        }
    }

    open spec fn exited(self, data: GameData, s2: Self, d2: GameData) -> bool {
        s2 == self && d2 == data
    }

    open spec fn resumed(self, data: GameData, s2: Self, d2: GameData) -> bool {
        s2 == self && d2 == data
    }

    open spec fn updated(self, data: GameData, dt: u64, s2: Self, d2: GameData, t: StateTransition<Self>) -> bool {
        match self {
            Screen::MainMenu(s) => s2 matches Screen::MainMenu(u) && MainMenu::update_post(s, u, t) && d2 == data,
            Screen::Play(s) => s2 matches Screen::Play(u) && PlayState::update_post(s, data, dt, u, d2, t),
            Screen::Pause(s) => s2 matches Screen::Pause(u) && Pause::update_post(s, u, t) && d2 == data,
            Screen::ScoreScreen(s) => s2 matches Screen::ScoreScreen(u) && ScoreScreen::update_post(s, u, t) && d2 == data,
        }
    }

    open spec fn handled(self, data: GameData, event: InputEvent, s2: Self, d2: GameData) -> bool {
        match self {
            Screen::MainMenu(s) => s2 matches Screen::MainMenu(u) && MainMenu::input_post(s, event, u) && d2 == data,
            Screen::Play(s) => s2 matches Screen::Play(u) && PlayState::input_post(s, data, event, u, d2),
            Screen::Pause(s) => s2 matches Screen::Pause(u) && Pause::input_post(s, event, u) && d2 == data,
            Screen::ScoreScreen(s) => s2 matches Screen::ScoreScreen(u) && ScoreScreen::input_post(s, event, u) && d2 == data,
        }
    }

    fn update(&mut self, data: &mut GameData, dt: u64) -> (t: StateTransition<Screen>) {
        match self {
            Screen::MainMenu(s) => s.update(),
            Screen::Play(s) => s.update(data, dt),
            Screen::Pause(s) => s.update(),
            Screen::ScoreScreen(s) => s.update(),
        }
    }

    fn handle_input(&mut self, event: InputEvent, data: &mut GameData) {
        match self {
            Screen::MainMenu(s) => s.handle_input(event),
            Screen::Play(s) => s.handle_input(event, data),
            Screen::Pause(s) => s.handle_input(event),
            Screen::ScoreScreen(s) => s.handle_input(event),
        }
    }

    fn enter(&mut self, data: &mut GameData) {
        match self {
            Screen::Play(s) => s.enter(data),
            _ => {},
        }
    }

    fn exit(&mut self, data: &mut GameData) {
    }

    fn resume(&mut self, data: &mut GameData) {
    }
}

/// The screens and the session after the events `events` are handed, in
/// order, to the top screen.
pub open spec fn inputs_handled(
    m: StateMachine<Screen>,
    d: GameData,
    events: Seq<InputEvent>,
    m2: StateMachine<Screen>,
    d2: GameData,
) -> bool
    decreases events.len(),
{
    if events.len() == 0 {
        m2.stack@ == m.stack@ && d2 == d
    } else {
        exists|m1: StateMachine<Screen>, d1: GameData|
            inputs_handled(m, d, events.drop_last(), m1, d1) && #[trigger] m1.input_handled(d1, events.last(), m2, d2)
    }
}

/// The core of the game: the session and the stack of screens.
pub struct Game {
    pub data: GameData,
    pub logic: StateMachine<Screen>,
}

impl Game {
    pub open spec fn wf(&self) -> bool {
        self.data.wf() && self.logic.wf()
    }

    /// A fresh session on the main menu.
    pub fn new() -> (r: Game)
        ensures
            r.wf(),
            r.data.score == 0,
            r.logic.stack@.len() == 1,
            r.logic.stack@[0] matches Screen::MainMenu(m) && m.selection == 0 && !m.interact,
    {
        let data = GameData::new();
        let logic = StateMachine::new(Screen::MainMenu(MainMenu::new()));
        Game { data, logic }
    }

    /// One frame: hands each input event to the top screen, in order, then
    /// updates by `dt` microseconds. Tells whether the session goes on (a
    /// screen is left on the stack).
    pub fn advance(&mut self, dt: u64, events: &Vec<InputEvent>) -> (running: bool)
        requires
            old(self).wf(),
        ensures
            final(self).wf(),
            running == (final(self).logic.stack@.len() > 0),
            exists|m1: StateMachine<Screen>, d1: GameData, d2: GameData|
                #[trigger] inputs_handled(old(self).logic, old(self).data, events@, m1, d1) && #[trigger] m1.stepped(
                    d1,
                    dt,
                    final(self).logic,
                    d2,
                )
                    && final(self).data == (GameData { running, ..d2 }),
    {
        let ghost m0 = self.logic;
        let ghost d0 = self.data;
        let mut i: usize = 0;
        while i < events.len()
            invariant
                self.wf(),
                i <= events@.len(),
                inputs_handled(m0, d0, events@.subrange(0, i as int), self.logic, self.data),
            decreases events@.len() - i,
        {
            let ghost m_prev = self.logic;
            let ghost d_prev = self.data;
            self.logic.handle_input(events[i], &mut self.data);
            proof {
                let done = events@.subrange(0, i + 1);
                assert(done.drop_last() =~= events@.subrange(0, i as int));
                assert(done.last() == events@[i as int]);
                assert(inputs_handled(m0, d0, done.drop_last(), m_prev, d_prev));
                assert(m_prev.input_handled(d_prev, done.last(), self.logic, self.data));
                assert(inputs_handled(m0, d0, done, self.logic, self.data));
            }
            i = i + 1;
        }
        assert(events@.subrange(0, events@.len() as int) =~= events@);
        let ghost m1 = self.logic;
        let ghost d1 = self.data;
        let running = self.logic.update(&mut self.data, dt);
        let ghost d2 = self.data;
        assert(inputs_handled(m0, d0, events@, m1, d1));
        self.data.running = running;
        assert(self.data == (GameData { running, ..d2 }));
        running
    }
}

} // verus!
