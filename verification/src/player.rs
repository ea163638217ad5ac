//! The lottie player: a state machine of named playback states, with
//! transitions triggered by time, completion, pointer and visibility events.

use vstd::prelude::*;

use crate::playback::{keeps_looping, required_loops, PlaybackLoopBehavior};
use crate::strings::str_eq;

verus! {

/// A rule that moves the player to another state.
#[derive(Clone, Copy, Debug, PartialEq, Eq)]
pub enum PlayerTransition {
    /// Transitions to the given state after a period of seconds; the period is
    /// held as the bit pattern of its `f32` value.
    OnAfter { state: &'static str, secs_bits: u32 },
    /// Transition to the given state after the animation finishes.
    OnComplete { state: &'static str },
    /// Transition to the given state when the mouse enters the image bounding box.
    OnMouseEnter { state: &'static str },
    /// Transition to the given state when the mouse clicks inside the image bounding box.
    OnMouseClick { state: &'static str },
    /// Transition to the given state when the mouse exits the image bounding box.
    OnMouseLeave { state: &'static str },
    /// Transition to the given state on first render of this state.
    OnShow { state: &'static str },
}

/// The state a transition leads to.
pub open spec fn transition_target(t: PlayerTransition) -> &'static str {
    match t {
        PlayerTransition::OnAfter { state, .. } => state,
        PlayerTransition::OnComplete { state } => state,
        PlayerTransition::OnMouseEnter { state } => state,
        PlayerTransition::OnMouseClick { state } => state,
        PlayerTransition::OnMouseLeave { state } => state,
        PlayerTransition::OnShow { state } => state,
    }
}

impl PlayerTransition {
    /// The state this transition leads to.
    pub fn target(&self) -> (state: &'static str)
        ensures
            state == transition_target(*self),
    {
        match self {
            PlayerTransition::OnAfter { state, .. } => *state,
            PlayerTransition::OnComplete { state } => *state,
            PlayerTransition::OnMouseEnter { state } => *state,
            PlayerTransition::OnMouseClick { state } => *state,
            PlayerTransition::OnMouseLeave { state } => *state,
            PlayerTransition::OnShow { state } => *state,
        }
    }
}


/// A named playback state: which asset, theme and playback options it shows,
/// and the transitions that leave it.
///
/// `H` is the asset handle type, `T` the theme type and `O` the playback
/// options type; the player carries them without reading them.
#[derive(Clone, Debug)]
pub struct PlayerState<H, T, O> {
    pub id: &'static str,
    pub asset: Option<H>,
    pub theme: Option<T>,
    pub options: Option<O>,
    pub transitions: Vec<PlayerTransition>,
    /// Whether to reset the playhead when a transition exits this state
    pub reset_playhead_on_exit: bool,
    /// Whether to reset the playhead when a transition enters this state
    pub reset_playhead_on_start: bool,
}

impl<H, T, O> PlayerState<H, T, O> {
    /// A state with the given id, no asset, theme, options or transitions.
    pub fn new(id: &'static str) -> (s: Self)
        ensures
            s.id == id,
            s.asset is None,
            s.theme is None,
            s.options is None,
            s.transitions@ == Seq::<PlayerTransition>::empty(),
            !s.reset_playhead_on_exit,
            !s.reset_playhead_on_start,
    {
        PlayerState {
            id,
            asset: None,
            theme: None,
            options: None,
            transitions: Vec::new(),
            reset_playhead_on_exit: false,
            reset_playhead_on_start: false,
        }
    }

    /// Shows the given asset in this state.
    pub fn asset(self, asset: H) -> (s: Self)
        ensures
            s == (PlayerState { asset: Some(asset), ..self }),
    {
        PlayerState { asset: Some(asset), ..self }
    }

    /// Applies the given theme in this state.
    pub fn theme(self, theme: T) -> (s: Self)
        ensures
            s == (PlayerState { theme: Some(theme), ..self }),
    {
        PlayerState { theme: Some(theme), ..self }
    }

    /// Plays with the given options in this state.
    pub fn playback_options(self, options: O) -> (s: Self)
        ensures
            s == (PlayerState { options: Some(options), ..self }),
    {
        PlayerState { options: Some(options), ..self }
    }

    /// Adds a transition after the existing ones.
    pub fn transition(self, transition: PlayerTransition) -> (s: Self)
        ensures
            s.transitions@ == self.transitions@.push(transition),
            s.id == self.id,
            s.asset == self.asset,
            s.theme == self.theme,
            s.options == self.options,
            s.reset_playhead_on_exit == self.reset_playhead_on_exit,
            s.reset_playhead_on_start == self.reset_playhead_on_start,
    {
        let mut s = self;
        s.transitions.push(transition);
        s
    }

    /// Resets the playhead whenever a transition leaves this state.
    pub fn reset_playhead_on_exit(self) -> (s: Self)
        ensures
            s == (PlayerState { reset_playhead_on_exit: true, ..self }),
    {
        PlayerState { reset_playhead_on_exit: true, ..self }
    }

    /// Resets the playhead whenever a transition enters this state.
    pub fn reset_playhead_on_start(self) -> (s: Self)
        ensures
            s == (PlayerState { reset_playhead_on_start: true, ..self }),
    {
        PlayerState { reset_playhead_on_start: true, ..self }
    }

    pub fn set_asset(self, asset: Option<H>) -> (s: Self)
        ensures
            s == (PlayerState { asset, ..self }),
    {
        PlayerState { asset, ..self }
    }

    pub fn set_theme(self, theme: Option<T>) -> (s: Self)
        ensures
            s == (PlayerState { theme, ..self }),
    {
        PlayerState { theme, ..self }
    }

    pub fn set_playback_options(self, options: Option<O>) -> (s: Self)
        ensures
            s == (PlayerState { options, ..self }),
    {
        PlayerState { options, ..self }
    }

    pub fn set_transitions(self, transitions: Vec<PlayerTransition>) -> (s: Self)
        ensures
            s == (PlayerState { transitions, ..self }),
    {
        PlayerState { transitions, ..self }
    }

    pub fn set_reset_playhead_on_exit(self, reset: bool) -> (s: Self)
        ensures
            s == (PlayerState { reset_playhead_on_exit: reset, ..self }),
    {
        PlayerState { reset_playhead_on_exit: reset, ..self }
    }

    pub fn set_reset_playhead_on_start(self, reset: bool) -> (s: Self)
        ensures
            s == (PlayerState { reset_playhead_on_start: reset, ..self }),
    {
        PlayerState { reset_playhead_on_start: reset, ..self }
    }

    pub fn get_asset(&self) -> (a: Option<&H>)
        ensures
            a == match self.asset {
                Some(h) => Some(&h),
                None => None::<&H>,
            },
    {
        self.asset.as_ref()
    }

    pub fn get_theme(&self) -> (t: Option<&T>)
        ensures
            t == match self.theme {
                Some(h) => Some(&h),
                None => None::<&T>,
            },
    {
        self.theme.as_ref()
    }

    pub fn get_playback_options(&self) -> (o: Option<&O>)
        ensures
            o == match self.options {
                Some(h) => Some(&h),
                None => None::<&O>,
            },
    {
        self.options.as_ref()
    }

    pub fn get_transitions(&self) -> (t: &Vec<PlayerTransition>)
        ensures
            t == self.transitions,
    {
        &self.transitions
    }

    pub fn get_reset_playhead_on_exit(&self) -> (b: bool)
        ensures
            b == self.reset_playhead_on_exit,
    {
        self.reset_playhead_on_exit
    }

    pub fn get_reset_playhead_on_start(&self) -> (b: bool)
        ensures
            b == self.reset_playhead_on_start,
    {
        self.reset_playhead_on_start
    }
}


/// Whether no two entries share a key.
pub open spec fn keys_unique<S>(entries: Seq<(&'static str, S)>) -> bool {
    forall|i: int, j: int|
        0 <= i < j < entries.len() ==> #[trigger] entries[i].0@ != #[trigger] entries[j].0@
}

/// Whether some entry has the given key.
pub open spec fn has_key<S>(entries: Seq<(&'static str, S)>, name: Seq<char>) -> bool {
    exists|i: int| 0 <= i < entries.len() && #[trigger] entries[i].0@ == name
}

/// The value stored under the given key (meaningful when the key is present).
pub open spec fn value_at_key<S>(entries: Seq<(&'static str, S)>, name: Seq<char>) -> S {
    entries[choose|i: int| 0 <= i < entries.len() && #[trigger] entries[i].0@ == name].1
}

/// The entries that a keyed insertion yields: the value replaces the value
/// of the entry with the same key (which keeps its key), or is appended with
/// the key when there is none.
pub open spec fn insert_keyed<S>(entries: Seq<(&'static str, S)>, key: &'static str, value: S) -> Seq<
    (&'static str, S),
> {
    if has_key(entries, key@) {
        let i = choose|i: int| 0 <= i < entries.len() && #[trigger] entries[i].0@ == key@;
        entries.update(i, (entries[i].0, value))
    } else {
        entries.push((key, value))
    }
}

/// A lottie player that allows runtime manipulation of Lottie animations.
///
/// Controls lottie playback and transitions with state machine support.
pub struct LottiePlayer<H, T, O> {
    /// Whether the player has started.
    started: bool,
    /// Whether the player is playing. State machines will continue unless
    /// stopped.
    playing: bool,
    /// Stopped. Doesn't run state machines.
    stopped: bool,
    current_state: Option<&'static str>,
    next_state: Option<&'static str>,
    /// The names the states are registered under, by position.
    names: Vec<&'static str>,
    /// The states, by position.
    states: Vec<PlayerState<H, T, O>>,
}

impl<H, T, O> LottiePlayer<H, T, O> {
    #[verifier::type_invariant]
    spec fn names_unique(self) -> bool {
        &&& self.names@.len() == self.states@.len()
        &&& forall|i: int, j: int|
            0 <= i < j < self.names@.len() ==> #[trigger] self.names@[i]@ != #[trigger] self.names@[j]@
    }

    /// The states in the order they were first added, each under its name.
    pub closed spec fn entries(&self) -> Seq<(&'static str, PlayerState<H, T, O>)> {
        Seq::new(self.states@.len(), |i: int| (self.names@[i], self.states@[i]))
    }

    pub closed spec fn spec_started(&self) -> bool {
        self.started
    }

    pub closed spec fn spec_playing(&self) -> bool {
        self.playing
    }

    pub closed spec fn spec_stopped(&self) -> bool {
        self.stopped
    }

    pub closed spec fn spec_current(&self) -> Option<&'static str> {
        self.current_state
    }

    pub closed spec fn spec_next(&self) -> Option<&'static str> {
        self.next_state
    }

    /// Whether a state is registered under `name`.
    pub open spec fn has_state(&self, name: Seq<char>) -> bool {
        has_key(self.entries(), name)
    }

    /// The state registered under `name`.
    pub open spec fn state_named(&self, name: Seq<char>) -> PlayerState<H, T, O> {
        value_at_key(self.entries(), name)
    }

    /// The name of the state the player is in: the current state, or the
    /// pending one before the first transition has happened.
    pub open spec fn active_name(&self) -> Option<&'static str> {
        match self.spec_current() {
            Some(c) => Some(c),
            None => self.spec_next(),
        }
    }

    /// Whether the active state names a registered state.
    pub open spec fn has_active_state(&self) -> bool {
        self.active_name() is Some && self.has_state(self.active_name()->0@)
    }

    /// The active state.
    pub open spec fn active_state(&self) -> PlayerState<H, T, O> {
        self.state_named(self.active_name()->0@)
    }

    /// Whether two players agree on everything but their states.
    pub open spec fn same_flags(&self, other: &Self) -> bool {
        &&& self.spec_started() == other.spec_started()
        &&& self.spec_playing() == other.spec_playing()
        &&& self.spec_stopped() == other.spec_stopped()
        &&& self.spec_current() == other.spec_current()
        &&& self.spec_next() == other.spec_next()
    }

    /// A player that waits to enter `initial_state`, with no states yet.
    pub fn new(initial_state: &'static str) -> (p: Self)
        ensures
            p.spec_current() is None,
            p.spec_next() == Some(initial_state),
            p.entries() == Seq::<(&'static str, PlayerState<H, T, O>)>::empty(),
            !p.spec_started(),
            !p.spec_playing(),
            !p.spec_stopped(),
    {
        LottiePlayer {
            current_state: None,
            next_state: Some(initial_state),
            names: Vec::new(),
            states: Vec::new(),
            started: false,
            playing: false,
            stopped: false,
        }
    }

    /// The position of the state named `name`, if there is one.
    fn find_state(&self, name: &str) -> (index: Option<usize>)
        requires
            self.names@.len() == self.states@.len(),
        ensures
            match index {
                Some(i) => i < self.entries().len() && self.entries()[i as int].0@ == name@,
                None => !self.has_state(name@),
            },
    {
        let mut i: usize = 0;
        while i < self.names.len()
            invariant
                i <= self.names@.len(),
                self.names@.len() == self.states@.len(),
                forall|j: int| 0 <= j < i ==> #[trigger] self.names@[j]@ != name@,
            decreases self.names@.len() - i,
        {
            if str_eq(self.names[i], name) {
                return Some(i);
            }
            i = i + 1;
        }
        proof {
            assert forall|j: int| 0 <= j < self.entries().len() implies #[trigger] self.entries()[j].0@
                != name@ by {
                assert(self.entries()[j].0 == self.names@[j]);
            }
        }
        None
    }

    /// The position of the state named `name`, which must be registered.
    fn index_of_state(&self, name: &str) -> (index: usize)
        requires
            self.names@.len() == self.states@.len(),
            self.has_state(name@),
        ensures
            index < self.entries().len() && self.entries()[index as int].0@ == name@,
        no_unwind
    {
        let mut i: usize = 0;
        while i < self.names.len()
            invariant
                i <= self.names@.len(),
                self.names@.len() == self.states@.len(),
                forall|j: int| 0 <= j < i ==> #[trigger] self.names@[j]@ != name@,
                self.has_state(name@),
            decreases self.names@.len() - i,
        {
            if str_eq(self.names[i], name) {
                return i;
            }
            i = i + 1;
        }
        proof {
            let k = choose|k: int| 0 <= k < self.entries().len() && #[trigger] self.entries()[k].0@ == name@;
            assert(self.names@[k]@ != name@);
        }
        0
    }

    /// Adds a state under its id, replacing any state registered under the
    /// same name.
    pub fn with_state(self, state: PlayerState<H, T, O>) -> (p: Self)
        ensures
            p.entries() == insert_keyed(self.entries(), state.id, state),
            p.same_flags(&self),
    {
        proof {
            use_type_invariant(&self);
        }
        let ghost before = self.entries();
        let LottiePlayer { started, playing, stopped, current_state, next_state, mut names, mut states } = self;
        assert(before == Seq::new(states@.len(), |i: int| (names@[i], states@[i])));
        let id = state.id;
        let ghost st = state;
        let mut i: usize = 0;
        let mut found = false;
        while i < names.len()
            invariant_except_break
                !found,
            invariant
                i <= names@.len(),
                names@.len() == states@.len(),
                forall|j: int| 0 <= j < i ==> #[trigger] names@[j]@ != id@,
            ensures
                i <= names@.len(),
                found ==> i < names@.len() && names@[i as int]@ == id@,
                !found ==> forall|j: int| 0 <= j < names@.len() ==> #[trigger] names@[j]@ != id@,
            decreases names@.len() - i,
        {
            if str_eq(names[i], id) {
                found = true;
                break;
            }
            i = i + 1;
        }
        if found {
            proof {
                assert(before[i as int].0 == names@[i as int]);
                assert(before[i as int].0@ == id@);
                let k = choose|k: int| 0 <= k < before.len() && #[trigger] before[k].0@ == id@;
                assert(before[k].0 == names@[k]);
                assert(k == i as int);
            }
            states.set(i, state);
        } else {
            proof {
                assert forall|j: int| 0 <= j < before.len() implies #[trigger] before[j].0@ != id@ by {
                    assert(before[j].0 == names@[j]);
                }
            }
            names.push(id);
            states.push(state);
        }
        let p = LottiePlayer { started, playing, stopped, current_state, next_state, names, states };
        proof {
            assert(p.entries() =~= insert_keyed(before, id, st));
        }
        p
    }

    /// Transition to the named state.
    pub fn transition(&mut self, state: &'static str)
        ensures
            final(self).spec_next() == Some(state),
            final(self).entries() == old(self).entries(),
            final(self).spec_current() == old(self).spec_current(),
            final(self).spec_started() == old(self).spec_started(),
            final(self).spec_playing() == old(self).spec_playing(),
            final(self).spec_stopped() == old(self).spec_stopped(),
    {
        proof {
            use_type_invariant(&*self);
        }
        self.next_state = Some(state);
    }

    /// Play the animation.
    pub fn play(&mut self)
        ensures
            final(self).spec_playing(),
            !final(self).spec_stopped(),
            final(self).entries() == old(self).entries(),
            final(self).spec_current() == old(self).spec_current(),
            final(self).spec_next() == old(self).spec_next(),
            final(self).spec_started() == old(self).spec_started(),
    {
        proof {
            use_type_invariant(&*self);
        }
        self.playing = true;
        self.stopped = false;
    }

    /// Pauses the animation. State machines will continue.
    pub fn pause(&mut self)
        ensures
            !final(self).spec_playing(),
            final(self).spec_stopped() == old(self).spec_stopped(),
            final(self).entries() == old(self).entries(),
            final(self).spec_current() == old(self).spec_current(),
            final(self).spec_next() == old(self).spec_next(),
            final(self).spec_started() == old(self).spec_started(),
    {
        proof {
            use_type_invariant(&*self);
        }
        self.playing = false;
    }

    /// Stops the animation. State machines will not run.
    pub fn stop(&mut self)
        ensures
            final(self).spec_stopped(),
            final(self).spec_playing() == old(self).spec_playing(),
            final(self).entries() == old(self).entries(),
            final(self).spec_current() == old(self).spec_current(),
            final(self).spec_next() == old(self).spec_next(),
            final(self).spec_started() == old(self).spec_started(),
    {
        proof {
            use_type_invariant(&*self);
        }
        self.stopped = true;
    }

    /// Toggle the play state: plays when stopped or paused, pauses otherwise.
    pub fn toggle_play(&mut self)
        ensures
            (old(self).spec_stopped() || !old(self).spec_playing()) ==> final(self).spec_playing()
                && !final(self).spec_stopped(),
            !(old(self).spec_stopped() || !old(self).spec_playing()) ==> !final(self).spec_playing()
                && final(self).spec_stopped() == old(self).spec_stopped(),
            final(self).entries() == old(self).entries(),
            final(self).spec_current() == old(self).spec_current(),
            final(self).spec_next() == old(self).spec_next(),
            final(self).spec_started() == old(self).spec_started(),
    {
        proof {
            use_type_invariant(&*self);
        }
        if self.stopped || !self.playing {
            self.play();
        } else {
            self.pause();
        }
    }

    pub fn is_playing(&self) -> (b: bool)
        ensures
            b == self.spec_playing(),
    {
        self.playing
    }

    pub fn is_stopped(&self) -> (b: bool)
        ensures
            b == self.spec_stopped(),
    {
        self.stopped
    }

    /// Whether playback has started in the current state.
    pub fn is_started(&self) -> (b: bool)
        ensures
            b == self.spec_started(),
    {
        self.started
    }

    /// The state the player is in, if it has entered one.
    pub fn current_state(&self) -> (s: Option<&'static str>)
        ensures
            s == self.spec_current(),
    {
        self.current_state
    }

    /// The state the player is about to enter, if any.
    pub fn next_state(&self) -> (s: Option<&'static str>)
        ensures
            s == self.spec_next(),
    {
        self.next_state
    }

    /// The number of registered states.
    pub fn num_states(&self) -> (n: usize)
        ensures
            n == self.entries().len(),
    {
        self.states.len()
    }

    /// Retrieve an immutable reference to the active state.
    pub fn state(&self) -> (s: &PlayerState<H, T, O>)
        requires
            self.has_active_state(),
        ensures
            *s == self.active_state(),
    {
        proof {
            use_type_invariant(self);
        }
        let name = match self.current_state {
            Some(c) => c,
            None => self.next_state.unwrap(),
        };
        let i = self.index_of_state(name);
        proof {
            let k = choose|k: int| 0 <= k < self.entries().len() && #[trigger] self.entries()[k].0@ == name@;
            assert(self.entries()[k].0 == self.names@[k]);
            assert(k == i as int);
        }
        &self.states[i]
    }

    /// Retrieve a mutable reference to the active state. Changing the state
    /// does not change the name it is registered under.
    pub fn state_mut(&mut self) -> (s: &mut PlayerState<H, T, O>)
        requires
            old(self).has_active_state(),
        ensures
            *s == old(self).active_state(),
            final(self).same_flags(&*old(self)),
            final(self).entries().len() == old(self).entries().len(),
            forall|i: int|
                0 <= i < old(self).entries().len() ==> #[trigger] final(self).entries()[i].0
                    == old(self).entries()[i].0,
            forall|i: int|
                0 <= i < old(self).entries().len() && old(self).entries()[i].0@ != old(self).active_name()->0@
                    ==> #[trigger] final(self).entries()[i] == old(self).entries()[i],
            forall|i: int|
                0 <= i < old(self).entries().len() && old(self).entries()[i].0@ == old(self).active_name()->0@
                    ==> #[trigger] final(self).entries()[i].1 == *final(s),
        no_unwind
    {
        proof {
            use_type_invariant(&*self);
        }
        let name = match self.current_state {
            Some(c) => c,
            None => match self.next_state {
                Some(n) => n,
                None => "",
            },
        };
        let i = self.index_of_state(name);
        proof {
            let k = choose|k: int| 0 <= k < self.entries().len() && #[trigger] self.entries()[k].0@ == name@;
            assert(self.entries()[k].0 == self.names@[k]);
            assert(k == i as int);
        }
        &mut self.states[i]
    }

    /// The registered states, in the order they were first added.
    pub fn states(&self) -> (v: Vec<&PlayerState<H, T, O>>)
        ensures
            v@.len() == self.entries().len(),
            forall|i: int| 0 <= i < v@.len() ==> *#[trigger] v@[i] == self.entries()[i].1,
    {
        let mut v: Vec<&PlayerState<H, T, O>> = Vec::new();
        let mut i: usize = 0;
        while i < self.states.len()
            invariant
                i <= self.states@.len(),
                v@.len() == i,
                forall|j: int| 0 <= j < i ==> *#[trigger] v@[j] == self.states@[j],
            decreases self.states@.len() - i,
        {
            v.push(&self.states[i]);
            i = i + 1;
        }
        v
    }

    /// The registered state at position `index`, in the order states were
    /// first added, for changing it. Changing the state does not change the
    /// name it is registered under.
    pub fn states_mut(&mut self, index: usize) -> (s: &mut PlayerState<H, T, O>)
        requires
            index < old(self).entries().len(),
        ensures
            *s == old(self).entries()[index as int].1,
            final(self).same_flags(&*old(self)),
            final(self).entries().len() == old(self).entries().len(),
            forall|i: int|
                0 <= i < old(self).entries().len() ==> #[trigger] final(self).entries()[i].0
                    == old(self).entries()[i].0,
            forall|i: int|
                0 <= i < old(self).entries().len() && i != index ==> #[trigger] final(self).entries()[i]
                    == old(self).entries()[i],
            final(self).entries()[index as int].1 == *final(s),
        no_unwind
    {
        proof {
            use_type_invariant(&*self);
        }
        &mut self.states[index]
    }

    /// The state registered under `name`, if there is one.
    pub fn state_by_name(&self, name: &str) -> (s: Option<&PlayerState<H, T, O>>)
        ensures
            match s {
                Some(st) => self.has_state(name@) && *st == self.state_named(name@),
                None => !self.has_state(name@),
            },
    {
        proof {
            use_type_invariant(self);
        }
        match self.find_state(name) {
            None => None,
            Some(i) => {
                proof {
                    let k = choose|k: int|
                        0 <= k < self.entries().len() && #[trigger] self.entries()[k].0@ == name@;
                    assert(self.entries()[k].0 == self.names@[k]);
                    assert(self.entries()[i as int].0 == self.names@[i as int]);
                    assert(k == i as int);
                }
                Some(&self.states[i])
            },
        }
    }
}


impl<H, T, O> Default for LottiePlayer<H, T, O> {
    /// A playing player with one state named `"default"`, which it is in.
    fn default() -> (p: Self)
        ensures
            p.spec_current() == Some("default"),
            p.spec_next() is None,
            p.entries().len() == 1,
            p.entries()[0].0 == "default",
            p.entries()[0].1.id == "default",
            p.entries()[0].1.asset is None,
            p.entries()[0].1.theme is None,
            p.entries()[0].1.options is None,
            p.entries()[0].1.transitions@.len() == 0,
            !p.entries()[0].1.reset_playhead_on_exit,
            !p.entries()[0].1.reset_playhead_on_start,
            !p.spec_started(),
            p.spec_playing(),
            !p.spec_stopped(),
    {
        let mut names: Vec<&'static str> = Vec::new();
        names.push("default");
        let mut states: Vec<PlayerState<H, T, O>> = Vec::new();
        states.push(PlayerState::new("default"));
        LottiePlayer {
            current_state: Some("default"),
            next_state: None,
            names,
            states,
            started: false,
            playing: true,
            stopped: false,
        }
    }
}


/// What the player learned this frame, as the transition rules read it.
pub struct TransitionSignals {
    /// Whether the asset shown by the active state has loaded.
    pub asset_loaded: bool,
    /// Whether the pointer is inside the asset's bounds.
    pub pointer_inside: bool,
    /// Whether the left mouse button was pressed this frame.
    pub left_just_pressed: bool,
    /// Whether the active state has been rendered at least once.
    pub shown: bool,
    /// Whether the playhead sits on the last frame it plays towards (the end
    /// of the segment when playing normally, the start in reverse).
    pub at_final_frame: bool,
    /// The loops the playhead has completed.
    pub loops_completed: usize,
    /// The loop behavior of the active playback options.
    pub looping: PlaybackLoopBehavior,
    /// For each transition of the active state, by position: whether the
    /// state has been rendered and its `OnAfter` delay has passed. Missing
    /// entries count as not passed.
    pub after_elapsed: Vec<bool>,
}

/// Whether the `OnAfter` delay of the transition at `i` has passed.
pub open spec fn after_elapsed_at(signals: TransitionSignals, i: int) -> bool {
    0 <= i < signals.after_elapsed@.len() && signals.after_elapsed@[i]
}

/// Scans the transitions from position `i` on, in order, with the hover flag
/// `hovered`: the first transition whose condition holds decides the next
/// state. Returns that state, if any, and the hover flag afterwards.
pub open spec fn scan_transitions(
    ts: Seq<PlayerTransition>,
    i: int,
    signals: TransitionSignals,
    hovered: bool,
) -> (Option<&'static str>, bool)
    decreases ts.len() - i,
{
    if i < 0 || i >= ts.len() {
        (None, hovered)
    } else {
        match ts[i] {
            PlayerTransition::OnAfter { state, .. } => if after_elapsed_at(signals, i) {
                (Some(state), hovered)
            } else {
                scan_transitions(ts, i + 1, signals, hovered)
            },
            PlayerTransition::OnComplete { state } => if signals.at_final_frame
                && signals.loops_completed >= required_loops(signals.looping) {
                (Some(state), hovered)
            } else {
                scan_transitions(ts, i + 1, signals, hovered)
            },
            PlayerTransition::OnMouseEnter { state } => if signals.pointer_inside {
                (Some(state), true)
            } else {
                scan_transitions(ts, i + 1, signals, hovered)
            },
            PlayerTransition::OnMouseClick { state } => if signals.pointer_inside
                && signals.left_just_pressed {
                (Some(state), hovered)
            } else {
                scan_transitions(ts, i + 1, signals, hovered)
            },
            PlayerTransition::OnMouseLeave { state } => if hovered && !signals.pointer_inside {
                (Some(state), false)
            } else if signals.pointer_inside {
                scan_transitions(ts, i + 1, signals, true)
            } else {
                scan_transitions(ts, i + 1, signals, hovered)
            },
            PlayerTransition::OnShow { state } => if signals.shown {
                (Some(state), hovered)
            } else {
                scan_transitions(ts, i + 1, signals, hovered)
            },
        }
    }
}

/// A pointer event delivered to the asset.
#[derive(Clone, Copy, Debug, PartialEq, Eq, Structural)]
pub enum PointerEvent {
    /// The pointer moved over the asset.
    Over,
    /// The pointer left the asset.
    Out,
    /// The asset was clicked.
    Click,
}

/// Whether a transition is the rule for the given pointer event.
pub open spec fn answers_pointer(t: PlayerTransition, event: PointerEvent) -> bool {
    match event {
        PointerEvent::Over => t is OnMouseEnter,
        PointerEvent::Out => t is OnMouseLeave,
        PointerEvent::Click => t is OnMouseClick,
    }
}

/// The target of the first transition from position `i` on that answers the
/// pointer event.
pub open spec fn first_pointer_target(ts: Seq<PlayerTransition>, i: int, event: PointerEvent) -> Option<
    &'static str,
>
    decreases ts.len() - i,
{
    if i < 0 || i >= ts.len() {
        None
    } else if answers_pointer(ts[i], event) {
        Some(transition_target(ts[i]))
    } else {
        first_pointer_target(ts, i + 1, event)
    }
}

/// Whether the player is on the first frame's pause or running.
#[derive(Clone, Copy, Debug, PartialEq, Eq, Structural)]
pub enum PlaybackGate {
    /// The player is stopped: the playhead does not move.
    Stopped,
    /// The player is paused: the playhead does not move.
    Paused,
    /// The playhead advances this frame.
    Playing,
}

/// Which playback options the entered state plays with.
#[derive(Clone, Copy, Debug, PartialEq, Eq, Structural)]
pub enum OptionsSource {
    /// The entered state's own options.
    Target,
    /// The options of the state being left.
    Current,
    /// The default options.
    Default,
}

/// What entering a state asks of the world around the player.
#[derive(Clone, Copy, Debug, PartialEq, Eq)]
pub struct StateEntry {
    /// The state entered.
    pub state: &'static str,
    /// Whether the entered state's asset replaces the shown one.
    pub insert_asset: bool,
    /// Whether the playhead seeks to the first frame it plays from.
    pub seek_playhead: bool,
    /// Whether the entered state's theme is applied.
    pub insert_theme: bool,
    /// Whether the entered state's options replace the playback options.
    pub insert_options: bool,
    /// Which options the entered state plays with.
    pub options_source: OptionsSource,
}

/// The outcome of one attempt to enter the pending state.
#[derive(Clone, Copy, Debug, PartialEq, Eq)]
pub enum StateChange {
    /// No state is pending.
    Idle,
    /// The pending state is the current one; it is no longer pending.
    Settled,
    /// The pending state's playhead must be reset and its asset has not
    /// loaded: the state stays pending. Its asset already replaces the shown
    /// one when `insert_asset` is set (it is whenever the state has one).
    Requeued { state: &'static str, insert_asset: bool },
    /// The player entered the pending state.
    Entered(StateEntry),
}

/// The options the entered state plays with.
pub open spec fn options_source_spec<H, T, O>(
    target: PlayerState<H, T, O>,
    active: PlayerState<H, T, O>,
) -> OptionsSource {
    if target.options is Some {
        OptionsSource::Target
    } else if active.options is Some {
        OptionsSource::Current
    } else {
        OptionsSource::Default
    }
}

impl<H, T, O> LottiePlayer<H, T, O> {
    /// Whether the guard in front of the transition rules lets them run.
    pub open spec fn rules_run(&self, asset_loaded: bool) -> bool {
        !self.spec_stopped() && self.entries().len() > 1 && asset_loaded
    }

    /// Whether only the pending state differs between two players.
    pub open spec fn same_but_next(&self, other: &Self) -> bool {
        &&& self.entries() == other.entries()
        &&& self.spec_started() == other.spec_started()
        &&& self.spec_playing() == other.spec_playing()
        &&& self.spec_stopped() == other.spec_stopped()
        &&& self.spec_current() == other.spec_current()
    }

    /// Decides, at the start of a frame, whether the playhead moves: a
    /// stopped player does nothing; otherwise autoplay starts a player that
    /// has not started yet, and the playhead moves if the player is playing.
    pub fn playback_gate(&mut self, autoplay: bool) -> (gate: PlaybackGate)
        ensures
            old(self).spec_stopped() ==> gate == PlaybackGate::Stopped && *final(self) == *old(self),
            !old(self).spec_stopped() ==> {
                let starts = !old(self).spec_started() && autoplay;
                &&& final(self).spec_started() == (old(self).spec_started() || starts)
                &&& final(self).spec_playing() == (old(self).spec_playing() || starts)
                &&& gate == if final(self).spec_playing() {
                    PlaybackGate::Playing
                } else {
                    PlaybackGate::Paused
                }
                &&& final(self).entries() == old(self).entries()
                &&& final(self).spec_stopped() == old(self).spec_stopped()
                &&& final(self).spec_current() == old(self).spec_current()
                &&& final(self).spec_next() == old(self).spec_next()
            },
    {
        proof {
            use_type_invariant(&*self);
        }
        if self.stopped {
            return PlaybackGate::Stopped;
        }
        if !self.started && autoplay {
            self.started = true;
            self.playing = true;
        }
        if self.playing {
            PlaybackGate::Playing
        } else {
            PlaybackGate::Paused
        }
    }

    /// Runs the transition rules of the active state in order: the first rule
    /// whose condition holds sets the pending state. Returns the hover flag
    /// after the rules ran. Nothing happens when the player is stopped, has at
    /// most one state, or its asset has not loaded.
    pub fn run_transitions(&mut self, signals: &TransitionSignals, hovered: bool) -> (now_hovered:
        bool)
        requires
            old(self).rules_run(signals.asset_loaded) ==> old(self).has_active_state(),
        ensures
            !old(self).rules_run(signals.asset_loaded) ==> *final(self) == *old(self) && now_hovered
                == hovered,
            old(self).rules_run(signals.asset_loaded) ==> {
                let r = scan_transitions(
                    old(self).active_state().transitions@,
                    0,
                    *signals,
                    hovered,
                );
                &&& now_hovered == r.1
                &&& final(self).spec_next() == match r.0 {
                    Some(s) => Some(s),
                    None => old(self).spec_next(),
                }
                &&& final(self).same_but_next(&*old(self))
            },
    {
        proof {
            use_type_invariant(&*self);
        }
        if self.stopped || self.states.len() <= 1 || !signals.asset_loaded {
            return hovered;
        }
        let ts = &self.state().transitions;
        let ghost all = ts@;
        let mut hov = hovered;
        let mut chosen: Option<&'static str> = None;
        let mut i: usize = 0;
        while i < ts.len()
            invariant_except_break
                chosen is None,
                scan_transitions(all, 0, *signals, hovered) == scan_transitions(
                    all,
                    i as int,
                    *signals,
                    hov,
                ),
            invariant
                i <= ts@.len(),
                ts@ == all,
            ensures
                scan_transitions(all, 0, *signals, hovered) == (chosen, hov),
            decreases ts@.len() - i,
        {
            let elapsed = i < signals.after_elapsed.len() && signals.after_elapsed[i];
            let fired: Option<&'static str> = match &ts[i] {
                PlayerTransition::OnAfter { state, .. } => if elapsed {
                    Some(*state)
                } else {
                    None
                },
                PlayerTransition::OnComplete { state } => if signals.at_final_frame
                    && signals.loops_completed >= signals.looping.loops_needed() {
                    Some(*state)
                } else {
                    None
                },
                PlayerTransition::OnMouseEnter { state } => if signals.pointer_inside {
                    hov = true;
                    Some(*state)
                } else {
                    None
                },
                PlayerTransition::OnMouseClick { state } => if signals.pointer_inside
                    && signals.left_just_pressed {
                    Some(*state)
                } else {
                    None
                },
                PlayerTransition::OnMouseLeave { state } => if hov && !signals.pointer_inside {
                    hov = false;
                    Some(*state)
                } else {
                    if signals.pointer_inside {
                        hov = true;
                    }
                    None
                },
                PlayerTransition::OnShow { state } => if signals.shown {
                    Some(*state)
                } else {
                    None
                },
            };
            if fired.is_some() {
                chosen = fired;
                break;
            }
            i = i + 1;
        }
        if let Some(s) = chosen {
            self.next_state = Some(s);
        }
        hov
    }

    /// Handles a pointer event on the asset: the first rule of the active
    /// state that answers the event sets the pending state. Nothing happens
    /// when the player is stopped, has at most one state, or its asset has
    /// not loaded.
    pub fn on_pointer(&mut self, event: PointerEvent, asset_loaded: bool)
        requires
            old(self).rules_run(asset_loaded) ==> old(self).has_active_state(),
        ensures
            !old(self).rules_run(asset_loaded) ==> *final(self) == *old(self),
            old(self).rules_run(asset_loaded) ==> {
                let r = first_pointer_target(old(self).active_state().transitions@, 0, event);
                &&& final(self).spec_next() == match r {
                    Some(s) => Some(s),
                    None => old(self).spec_next(),
                }
                &&& final(self).same_but_next(&*old(self))
            },
    {
        proof {
            use_type_invariant(&*self);
        }
        if self.stopped || self.states.len() <= 1 || !asset_loaded {
            return;
        }
        let ts = &self.state().transitions;
        let ghost all = ts@;
        let mut chosen: Option<&'static str> = None;
        let mut i: usize = 0;
        while i < ts.len()
            invariant_except_break
                chosen is None,
                first_pointer_target(all, 0, event) == first_pointer_target(all, i as int, event),
            invariant
                i <= ts@.len(),
                ts@ == all,
            ensures
                first_pointer_target(all, 0, event) == chosen,
            decreases ts@.len() - i,
        {
            let answers = match (&ts[i], event) {
                (PlayerTransition::OnMouseEnter { .. }, PointerEvent::Over) => true,
                (PlayerTransition::OnMouseLeave { .. }, PointerEvent::Out) => true,
                (PlayerTransition::OnMouseClick { .. }, PointerEvent::Click) => true,
                _ => false,
            };
            if answers {
                chosen = Some(ts[i].target());
                break;
            }
            i = i + 1;
        }
        if let Some(s) = chosen {
            self.next_state = Some(s);
        }
    }

    /// Handles a show, delay or completion event that names the next state:
    /// it becomes pending unless the player is stopped, has at most one
    /// state, or its asset has not loaded.
    pub fn on_event(&mut self, next_state: &'static str, asset_loaded: bool)
        ensures
            !old(self).rules_run(asset_loaded) ==> *final(self) == *old(self),
            old(self).rules_run(asset_loaded) ==> final(self).spec_next() == Some(next_state)
                && final(self).same_but_next(&*old(self)),
    {
        proof {
            use_type_invariant(&*self);
        }
        if self.stopped || self.states.len() <= 1 || !asset_loaded {
            return;
        }
        self.next_state = Some(next_state);
    }
}


/// Whether a pending state is the current one, by name.
pub open spec fn is_current(current: Option<&'static str>, name: &'static str) -> bool {
    current is Some && current->0@ == name@
}

impl<H, T, O> LottiePlayer<H, T, O> {
    /// Whether entering the pending state is possible without a missing state:
    /// whenever a different state is pending, both it and the active state
    /// are registered.
    pub open spec fn can_enter_next(&self) -> bool {
        self.spec_next() is Some && !is_current(self.spec_current(), self.spec_next()->0)
            ==> self.has_state(self.spec_next()->0@) && self.has_active_state()
    }

    /// The outcome of trying to enter the pending state.
    pub open spec fn enter_outcome(&self, target_asset_loaded: bool) -> StateChange {
        match self.spec_next() {
            None => StateChange::Idle,
            Some(next) => if is_current(self.spec_current(), next) {
                StateChange::Settled
            } else {
                let target = self.state_named(next@);
                let active = self.active_state();
                let reset = active.reset_playhead_on_exit || target.reset_playhead_on_start;
                if reset && target.asset is Some && !target_asset_loaded {
                    StateChange::Requeued { state: next, insert_asset: target.asset is Some }
                } else {
                    StateChange::Entered(
                        StateEntry {
                            state: next,
                            insert_asset: target.asset is Some,
                            seek_playhead: reset && target.asset is Some,
                            insert_theme: target.theme is Some,
                            insert_options: target.options is Some,
                            options_source: options_source_spec(target, active),
                        },
                    )
                }
            },
        }
    }

    /// Moves the player into its pending state, if one differs from the
    /// current state. The playhead of the entered state is reset when the
    /// state being left resets on exit or the entered state resets on start;
    /// if that reset needs the entered state's asset and it has not loaded,
    /// the state stays pending. Entering a state pauses the player until
    /// playback starts again.
    pub fn enter_next_state(&mut self, target_asset_loaded: bool) -> (change: StateChange)
        requires
            old(self).can_enter_next(),
        ensures
            change == old(self).enter_outcome(target_asset_loaded),
            final(self).entries() == old(self).entries(),
            final(self).spec_stopped() == old(self).spec_stopped(),
            match change {
                StateChange::Idle => *final(self) == *old(self),
                StateChange::Settled => final(self).spec_next() is None && final(self).spec_current()
                    == old(self).spec_current() && final(self).spec_started() == old(self).spec_started() && final(self).spec_playing() == old(self).spec_playing(),
                StateChange::Requeued { .. } => *final(self) == *old(self),
                StateChange::Entered(entry) => final(self).spec_current() == Some(entry.state)
                    && final(self).spec_next() == old(self).spec_next() && !final(self).spec_started() && !final(self).spec_playing(),
            },
    {
        proof {
            use_type_invariant(&*self);
        }
        let next = match self.next_state {
            None => return StateChange::Idle,
            Some(n) => n,
        };
        let same = match self.current_state {
            Some(c) => str_eq(c, next),
            None => false,
        };
        if same {
            self.next_state = None;
            return StateChange::Settled;
        }
        let ti = self.index_of_state(next);
        proof {
            let k = choose|k: int| 0 <= k < self.entries().len() && #[trigger] self.entries()[k].0@ == next@;
            assert(self.entries()[k].0 == self.names@[k]);
            assert(k == ti as int);
        }
        let active = self.state();
        let target = &self.states[ti];
        let options_source = if target.options.is_some() {
            OptionsSource::Target
        } else if active.options.is_some() {
            OptionsSource::Current
        } else {
            OptionsSource::Default
        };
        let reset = active.reset_playhead_on_exit || target.reset_playhead_on_start;
        let has_asset = target.asset.is_some();
        if reset && has_asset && !target_asset_loaded {
            return StateChange::Requeued { state: next, insert_asset: has_asset };
        }
        let entry = StateEntry {
            state: next,
            insert_asset: has_asset,
            seek_playhead: reset && has_asset,
            insert_theme: target.theme.is_some(),
            insert_options: target.options.is_some(),
            options_source,
        };
        self.started = false;
        self.playing = false;
        self.current_state = Some(next);
        StateChange::Entered(entry)
    }
}


/// Stopping halts the state machine: a stopped player runs no transition
/// rules, whatever else holds.
pub proof fn lemma_stopped_runs_no_rules<H, T, O>(player: LottiePlayer<H, T, O>, asset_loaded: bool)
    requires
        player.spec_stopped(),
    ensures
        !player.rules_run(asset_loaded),
{
}

/// Pausing does not halt the state machine: whether the rules run does not
/// depend on the play flags.
pub proof fn lemma_pause_keeps_rules<H, T, O>(
    a: LottiePlayer<H, T, O>,
    b: LottiePlayer<H, T, O>,
    asset_loaded: bool,
)
    requires
        a.entries() == b.entries(),
        a.spec_stopped() == b.spec_stopped(),
    ensures
        a.rules_run(asset_loaded) == b.rules_run(asset_loaded),
{
}

/// Adding a state under its id makes it the state found under that id, keeps
/// names unique, and leaves the state under every other name as it was.
pub proof fn lemma_with_state_lookup<S>(
    entries: Seq<(&'static str, S)>,
    key: &'static str,
    value: S,
    other: Seq<char>,
)
    requires
        keys_unique(entries),
    ensures
        keys_unique(insert_keyed(entries, key, value)),
        has_key(insert_keyed(entries, key, value), key@),
        value_at_key(insert_keyed(entries, key, value), key@) == value,
        other != key@ ==> has_key(insert_keyed(entries, key, value), other) == has_key(
            entries,
            other,
        ),
        other != key@ && has_key(entries, other) ==> value_at_key(
            insert_keyed(entries, key, value),
            other,
        ) == value_at_key(entries, other),
{
    let r = insert_keyed(entries, key, value);
    if has_key(entries, key@) {
        let k = choose|i: int| 0 <= i < entries.len() && #[trigger] entries[i].0@ == key@;
        assert(r[k].0@ == key@);
        let c = choose|i: int| 0 <= i < r.len() && #[trigger] r[i].0@ == key@;
        assert(c == k);
        if has_key(entries, other) && other != key@ {
            let j = choose|i: int| 0 <= i < entries.len() && #[trigger] entries[i].0@ == other;
            assert(r[j].0@ == other);
            let cj = choose|i: int| 0 <= i < r.len() && #[trigger] r[i].0@ == other;
            assert(cj == j);
        }
        if has_key(r, other) && other != key@ {
            let cj = choose|i: int| 0 <= i < r.len() && #[trigger] r[i].0@ == other;
            assert(entries[cj].0@ == other);
        }
    } else {
        let n = entries.len() as int;
        assert(r[n].0@ == key@);
        let c = choose|i: int| 0 <= i < r.len() && #[trigger] r[i].0@ == key@;
        assert(c == n);
        if has_key(entries, other) && other != key@ {
            let j = choose|i: int| 0 <= i < entries.len() && #[trigger] entries[i].0@ == other;
            assert(r[j].0@ == other);
            let cj = choose|i: int| 0 <= i < r.len() && #[trigger] r[i].0@ == other;
            assert(cj == j);
        }
        if has_key(r, other) && other != key@ {
            let cj = choose|i: int| 0 <= i < r.len() && #[trigger] r[i].0@ == other;
            assert(entries[cj].0@ == other);
        }
    }
}

/// The hover flag follows the pointer: while the pointer is outside the
/// asset the rules never turn it on, and while the pointer is inside a
/// mouse-leave rule never fires and the flag is never turned off.
pub proof fn lemma_hover_follows_pointer(
    ts: Seq<PlayerTransition>,
    i: int,
    signals: TransitionSignals,
    hovered: bool,
)
    ensures
        !signals.pointer_inside ==> (scan_transitions(ts, i, signals, hovered).1 ==> hovered),
        signals.pointer_inside && hovered ==> scan_transitions(ts, i, signals, hovered).1,
    decreases ts.len() - i,
{
    if 0 <= i < ts.len() {
        lemma_hover_follows_pointer(ts, i + 1, signals, hovered);
        lemma_hover_follows_pointer(ts, i + 1, signals, true);
    }
}

/// Entering is settled on the next attempt: once a state was entered it is
/// both current and pending, so the next attempt only clears the pending
/// name.
pub proof fn lemma_entered_then_settled<H, T, O>(
    player: LottiePlayer<H, T, O>,
    target_asset_loaded: bool,
)
    requires
        player.spec_next() is Some,
        player.spec_current() == player.spec_next(),
    ensures
        player.enter_outcome(target_asset_loaded) == StateChange::Settled,
{
}

/// What must hold of this frame's signals for a rule to pick its state:
/// a delay rule needs its delay to have passed, a completion rule the final
/// frame with the owed loops done, a mouse-enter rule the pointer inside the
/// asset, a click rule the pointer inside and the left button just pressed,
/// a mouse-leave rule the pointer outside, and a show rule a first render.
pub open spec fn rule_condition(t: PlayerTransition, position: int, signals: TransitionSignals) -> bool {
    match t {
        PlayerTransition::OnAfter { .. } => after_elapsed_at(signals, position),
        PlayerTransition::OnComplete { .. } => signals.at_final_frame && signals.loops_completed
            >= required_loops(signals.looping),
        PlayerTransition::OnMouseEnter { .. } => signals.pointer_inside,
        PlayerTransition::OnMouseClick { .. } => signals.pointer_inside && signals.left_just_pressed,
        PlayerTransition::OnMouseLeave { .. } => !signals.pointer_inside,
        PlayerTransition::OnShow { .. } => signals.shown,
    }
}

/// A state chosen by the transition rules is the target of a rule from
/// position `i` on whose condition holds this frame; the returned position
/// is that rule's.
pub proof fn lemma_chosen_rule_holds(
    ts: Seq<PlayerTransition>,
    i: int,
    signals: TransitionSignals,
    hovered: bool,
) -> (j: int)
    ensures
        scan_transitions(ts, i, signals, hovered).0 matches Some(st) ==> i <= j < ts.len()
            && transition_target(ts[j]) == st && rule_condition(ts[j], j, signals),
    decreases ts.len() - i,
{
    if i < 0 || i >= ts.len() {
        i
    } else {
        let fires = match ts[i] {
            PlayerTransition::OnAfter { .. } => after_elapsed_at(signals, i),
            PlayerTransition::OnComplete { .. } => signals.at_final_frame && signals.loops_completed
                >= required_loops(signals.looping),
            PlayerTransition::OnMouseEnter { .. } => signals.pointer_inside,
            PlayerTransition::OnMouseClick { .. } => signals.pointer_inside && signals.left_just_pressed,
            PlayerTransition::OnMouseLeave { .. } => hovered && !signals.pointer_inside,
            PlayerTransition::OnShow { .. } => signals.shown,
        };
        let next_hovered = match ts[i] {
            PlayerTransition::OnMouseLeave { .. } => if signals.pointer_inside {
                true
            } else {
                hovered
            },
            _ => hovered,
        };
        if fires {
            i
        } else {
            lemma_chosen_rule_holds(ts, i + 1, signals, next_hovered)
        }
    }
}

/// A click outside the asset fires no click rule: with the pointer outside,
/// a chosen state is the target of a rule that is no click rule.
pub proof fn lemma_click_needs_pointer_inside(
    ts: Seq<PlayerTransition>,
    signals: TransitionSignals,
    hovered: bool,
) -> (j: int)
    requires
        !signals.pointer_inside,
    ensures
        scan_transitions(ts, 0, signals, hovered).0 matches Some(st) ==> 0 <= j < ts.len()
            && transition_target(ts[j]) == st && !(ts[j] is OnMouseClick) && !(ts[j] is OnMouseEnter),
{
    lemma_chosen_rule_holds(ts, 0, signals, hovered)
}

/// The first rule whose condition holds picks its state: if every earlier
/// rule's condition fails and the rule at `k` holds (a mouse-leave rule
/// also needing the asset to have been hovered), its target is chosen.
pub proof fn lemma_first_ready_rule_wins(
    ts: Seq<PlayerTransition>,
    i: int,
    k: int,
    signals: TransitionSignals,
    hovered: bool,
)
    requires
        0 <= i <= k < ts.len(),
        forall|m: int| i <= m < k ==> !rule_condition(#[trigger] ts[m], m, signals),
        rule_condition(ts[k], k, signals),
        ts[k] is OnMouseLeave ==> hovered,
        !signals.pointer_inside,
    ensures
        scan_transitions(ts, i, signals, hovered).0 == Some(transition_target(ts[k])),
    decreases k - i,
{
    if i < k {
        assert(!rule_condition(ts[i], i, signals));
        lemma_first_ready_rule_wins(ts, i + 1, k, signals, hovered);
    }
}

/// A state that resets its playhead on exit makes the next state seek its
/// playhead when that state has an asset: once the asset has loaded the
/// state is entered with its asset swapped in and its playhead seeking;
/// until then it stays pending, asset swapped in.
pub proof fn lemma_reset_on_exit_seeks<H, T, O>(player: LottiePlayer<H, T, O>, loaded: bool)
    requires
        player.spec_next() is Some,
        !is_current(player.spec_current(), player.spec_next()->0),
        player.active_state().reset_playhead_on_exit,
        player.state_named(player.spec_next()->0@).asset is Some,
    ensures
        loaded ==> (player.enter_outcome(loaded) matches StateChange::Entered(e) && e.state
            == player.spec_next()->0 && e.seek_playhead && e.insert_asset),
        !loaded ==> player.enter_outcome(loaded) == (StateChange::Requeued {
            state: player.spec_next()->0,
            insert_asset: true,
        }),
{
}

/// A state that resets its playhead on start seeks its playhead when
/// entered, once its asset has loaded; until then it stays pending.
pub proof fn lemma_reset_on_start_seeks<H, T, O>(player: LottiePlayer<H, T, O>, loaded: bool)
    requires
        player.spec_next() is Some,
        !is_current(player.spec_current(), player.spec_next()->0),
        player.state_named(player.spec_next()->0@).reset_playhead_on_start,
        player.state_named(player.spec_next()->0@).asset is Some,
    ensures
        loaded ==> (player.enter_outcome(loaded) matches StateChange::Entered(e) && e.state
            == player.spec_next()->0 && e.seek_playhead && e.insert_asset),
        !loaded ==> player.enter_outcome(loaded) is Requeued,
{
}

/// Without a reset on either side, or without an asset to seek in, a new
/// state is entered at once and its playhead does not seek; its asset,
/// theme and options are swapped in exactly when it has them.
pub proof fn lemma_no_reset_enters_without_seeking<H, T, O>(player: LottiePlayer<H, T, O>, loaded: bool)
    requires
        player.spec_next() is Some,
        !is_current(player.spec_current(), player.spec_next()->0),
        !(player.active_state().reset_playhead_on_exit || player.state_named(
            player.spec_next()->0@,
        ).reset_playhead_on_start) || player.state_named(player.spec_next()->0@).asset is None,
    ensures
        player.enter_outcome(loaded) matches StateChange::Entered(e) && e.state == player.spec_next()->0
            && !e.seek_playhead && e.insert_asset == player.state_named(
            player.spec_next()->0@,
        ).asset is Some && e.insert_theme == player.state_named(player.spec_next()->0@).theme is Some
            && e.insert_options == player.state_named(player.spec_next()->0@).options is Some,
{
}

/// A lottie player that closely mirrors the behavior and functionality of
/// dotLottie Interactivity: the same state machine as [`LottiePlayer`].
pub type DotLottiePlayer<H, T, O> = LottiePlayer<H, T, O>;

} // verus!
