use vstd::prelude::*;
use crate::session::GameData;

verus! {

/// The logical keys that the core understands.
#[derive(Copy, Clone, Debug, PartialEq, Eq, Structural)]
pub enum LogicalKey {
    Left,
    Right,
    RotateCW,
    RotateCCW,
    SoftDrop,
    HardDrop,
    Pause,
    Confirm,
    MenuUp,
    MenuDown,
    Cancel,
}

/// A key going down (`pressed`) or up.
#[derive(Copy, Clone, Debug, PartialEq, Eq, Structural)]
pub struct InputEvent {
    pub key: LogicalKey,
    pub pressed: bool,
}

/// What the top state asks of the machine after an update.
pub enum StateTransition<S> {
    Push(S),
    Transition(S),
    Pop,
    Hold,
}

/// A unit of behaviour on the machine's stack. `entered`, `exited` and
/// `resumed` describe what `enter`, `exit` and `resume` do to the state and
/// the session.
pub trait State: Sized {
    spec fn inv(&self) -> bool;

    spec fn entered(self, data: GameData, s2: Self, d2: GameData) -> bool;

    spec fn exited(self, data: GameData, s2: Self, d2: GameData) -> bool;

    spec fn resumed(self, data: GameData, s2: Self, d2: GameData) -> bool;

    spec fn updated(self, data: GameData, dt: u64, s2: Self, d2: GameData, t: StateTransition<Self>) -> bool;

    spec fn handled(self, data: GameData, event: InputEvent, s2: Self, d2: GameData) -> bool;

    fn update(&mut self, data: &mut GameData, dt: u64) -> (t: StateTransition<Self>)
        requires
            old(self).inv(),
            old(data).wf(),
        ensures
            final(self).inv(),
            final(data).wf(),
            Self::updated(*old(self), *old(data), dt, *final(self), *final(data), t),
            t matches StateTransition::Push(s) ==> s.inv(),
            t matches StateTransition::Transition(s) ==> s.inv(),
    ;

    fn handle_input(&mut self, event: InputEvent, data: &mut GameData)
        requires
            old(self).inv(),
            old(data).wf(),
        ensures
            final(self).inv(),
            final(data).wf(),
            Self::handled(*old(self), *old(data), event, *final(self), *final(data)),
    ;

    fn enter(&mut self, data: &mut GameData)
        requires
            old(self).inv(),
            old(data).wf(),
        ensures
            final(self).inv(),
            final(data).wf(),
            Self::entered(*old(self), *old(data), *final(self), *final(data)),
    ;

    fn exit(&mut self, data: &mut GameData)
        requires
            old(self).inv(),
            old(data).wf(),
        ensures
            final(self).inv(),
            final(data).wf(),
            Self::exited(*old(self), *old(data), *final(self), *final(data)),
    ;

    fn resume(&mut self, data: &mut GameData)
        requires
            old(self).inv(),
            old(data).wf(),
        ensures
            final(self).inv(),
            final(data).wf(),
            Self::resumed(*old(self), *old(data), *final(self), *final(data)),
    ;
}

/// What a transition does to the stack and the session: `Push` enters the
/// new state and puts it on top; `Transition` exits and removes the top,
/// then enters and pushes the new state; `Pop` exits and removes the top and
/// resumes the state below, if any; `Hold` changes nothing. States below the
/// top are not touched.
pub open spec fn applied<S: State>(stack: Seq<S>, data: GameData, transition: StateTransition<S>, st: Seq<S>, d2: GameData) -> bool {
    let n = stack.len();
    match transition {
        StateTransition::Push(s) => {
            &&& st.len() == n + 1
            &&& st.subrange(0, n as int) == stack
            &&& S::entered(s, data, st[n as int], d2)
        },
        StateTransition::Transition(s) => {
            &&& st.len() == n
            &&& st.subrange(0, n - 1) == stack.subrange(0, n - 1)
            &&& exists|t: S, d1: GameData| #[trigger] S::exited(stack[n - 1], data, t, d1) && S::entered(s, d1, st[n - 1], d2)
        },
        StateTransition::Pop => {
            &&& n == 0 ==> st == stack && d2 == data
            &&& n == 1 ==> st.len() == 0 && exists|t: S| #[trigger] S::exited(stack[0], data, t, d2)
            &&& n >= 2 ==> {
                &&& st.len() == n - 1
                &&& st.subrange(0, n - 2) == stack.subrange(0, n - 2)
                &&& exists|t: S, d1: GameData|
                    #[trigger] S::exited(stack[n - 1], data, t, d1) && S::resumed(stack[n - 2], d1, st[n - 2], d2)
            }
        },
        StateTransition::Hold => st == stack && d2 == data,
    }
}

/// Stack depth under the transitions: `Push` adds one state, `Transition`
/// keeps the depth, `Pop` removes one state (popping the last one leaves the
/// stack empty, so the update that applied it reports the session over), and
/// `Hold` changes nothing.
pub proof fn stack_depth<S: State>(stack: Seq<S>, data: GameData, t: StateTransition<S>, st: Seq<S>, d2: GameData)
    requires
        applied(stack, data, t, st, d2),
        t is Transition ==> stack.len() > 0,
    ensures
        t is Push ==> st.len() == stack.len() + 1,
        t is Transition ==> st.len() == stack.len(),
        t is Pop && stack.len() > 0 ==> st.len() == stack.len() - 1,
        t is Pop && stack.len() == 1 ==> st.len() == 0,
        t is Hold ==> st == stack && d2 == data,
{
}

/// A stack of states: the top one alone is updated and receives input.
pub struct StateMachine<S> {
    pub stack: Vec<S>,
}

impl<S: State> StateMachine<S> {
    /// Every state on the stack holds its invariant.
    pub open spec fn wf(&self) -> bool {
        forall|i: int| 0 <= i < self.stack@.len() ==> (#[trigger] self.stack@[i]).inv()
    }

    /// What an update does: the top state is updated, then the transition
    /// it returns is applied; an empty machine is left as it is.
    pub open spec fn stepped(self, data: GameData, dt: u64, m2: Self, d2: GameData) -> bool {
        if self.stack@.len() == 0 {
            m2.stack@ == self.stack@ && d2 == data
        } else {
            exists|t: StateTransition<S>, top: S, d1: GameData|
                #[trigger] S::updated(self.stack@.last(), data, dt, top, d1, t) && applied(
                    self.stack@.drop_last().push(top),
                    d1,
                    t,
                    m2.stack@,
                    d2,
                )
        }
    }

    /// What an input event does: the top state handles it; an empty machine
    /// is left as it is.
    pub open spec fn input_handled(self, data: GameData, event: InputEvent, m2: Self, d2: GameData) -> bool {
        if self.stack@.len() == 0 {
            m2.stack@ == self.stack@ && d2 == data
        } else {
            exists|top: S|
                #[trigger] S::handled(self.stack@.last(), data, event, top, d2) && m2.stack@ == self.stack@.drop_last().push(top)
        }
    }

    /// A machine holding `initial_state` alone.
    pub fn new(initial_state: S) -> (r: StateMachine<S>)
        requires
            initial_state.inv(),
        ensures
            r.wf(),
            r.stack@ == seq![initial_state],
    {
        let mut stack: Vec<S> = Vec::new();
        stack.push(initial_state);
        StateMachine { stack }
    }

    /// Applies a transition (see `applied`).
    pub fn apply(&mut self, transition: StateTransition<S>, data: &mut GameData)
        requires
            old(self).wf(),
            old(data).wf(),
            transition matches StateTransition::Push(s) ==> s.inv(),
            transition matches StateTransition::Transition(s) ==> s.inv() && old(self).stack@.len() > 0,
        ensures
            final(self).wf(),
            final(data).wf(),
            applied(old(self).stack@, *old(data), transition, final(self).stack@, *final(data)),
    {
        let ghost old_stack = self.stack@;
        let ghost d0 = *data;
        match transition {
            StateTransition::Push(s) => {
                let mut pushed_state = s;
                pushed_state.enter(data);
                self.stack.push(pushed_state);
                assert(self.stack@.subrange(0, old_stack.len() as int) =~= old_stack);
            },
            StateTransition::Transition(s) => {
                let mut next = s;
                let mut top = self.stack.pop().unwrap();
                top.exit(data);
                let ghost d1 = *data;
                let ghost t = top;
                next.enter(data);
                self.stack.push(next);
                assert(self.stack@.subrange(0, old_stack.len() - 1) =~= old_stack.subrange(0, old_stack.len() - 1));
                assert(S::exited(old_stack[old_stack.len() - 1], d0, t, d1));
            },
            StateTransition::Pop => {
                if self.stack.len() > 0 {
                    let mut top = self.stack.pop().unwrap();
                    top.exit(data);
                    let ghost d1 = *data;
                    let ghost t = top;
                    assert(S::exited(old_stack[old_stack.len() - 1], d0, t, d1));
                    if self.stack.len() > 0 {
                        let mut below = self.stack.pop().unwrap();
                        below.resume(data);
                        self.stack.push(below);
                        assert(self.stack@.subrange(0, old_stack.len() - 2) =~= old_stack.subrange(0, old_stack.len() - 2));
                    }
                }
            },
            StateTransition::Hold => {},
        }
    }

    /// Updates the top state and applies the transition it asks for; tells
    /// whether a state is left on the stack (the session goes on).
    pub fn update(&mut self, data: &mut GameData, dt: u64) -> (running: bool)
        requires
            old(self).wf(),
            old(data).wf(),
        ensures
            final(self).wf(),
            final(data).wf(),
            running == (final(self).stack@.len() > 0),
            old(self).stepped(*old(data), dt, *final(self), *final(data)),
    {
        if self.stack.len() == 0 {
            return false;
        }
        let ghost d0 = *data;
        let ghost old_stack = self.stack@;
        let mut top = self.stack.pop().unwrap();
        let ghost top0 = top;
        assert(top0 == old_stack.last());
        let transition = top.update(data, dt);
        let ghost top1 = top;
        let ghost d1 = *data;
        self.stack.push(top);
        assert(self.stack@ =~= old_stack.drop_last().push(top1));
        let ghost t = transition;
        self.apply(transition, data);
        assert(S::updated(old_stack.last(), d0, dt, top1, d1, t));
        assert(applied(old_stack.drop_last().push(top1), d1, t, self.stack@, *data));
        self.stack.len() > 0
    }

    /// Hands an input event to the top state.
    pub fn handle_input(&mut self, event: InputEvent, data: &mut GameData)
        requires
            old(self).wf(),
            old(data).wf(),
        ensures
            final(self).wf(),
            final(data).wf(),
            old(self).input_handled(*old(data), event, *final(self), *final(data)),
    {
        if self.stack.len() > 0 {
            let ghost d0 = *data;
            let ghost old_stack = self.stack@;
            let mut top = self.stack.pop().unwrap();
            let ghost top0 = top;
            assert(top0 == old_stack.last());
            top.handle_input(event, data);
            self.stack.push(top);
            assert(self.stack@ =~= old_stack.drop_last().push(top));
            assert(S::handled(old_stack.last(), d0, event, top, *data));
        }
    }

    /// The states on the stack, bottom first.
    pub fn states(&self) -> (r: &Vec<S>)
        ensures
            r@ == self.stack@,
    {
        &self.stack
    }
}

} // verus!
