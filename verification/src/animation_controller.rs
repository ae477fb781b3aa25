//! The per-object animation player: the named-state table, the
//! current/next state pointers, the pending command slots and the
//! play/pause/stop flags.

use vstd::prelude::*;

use crate::playback_settings::{
    AnimationDirection, AnimationLoopBehavior, AnimationPlayMode, PlaybackSettings,
};

verus! {

/// A transition rule: a guarded, directed edge of the state graph. Rules
/// are evaluated in declaration order and the first satisfied rule wins.
#[derive(Clone, Debug)]
pub enum AnimationTransition {
    /// Transitions once the wall-clock time since the current animation
    /// instance was entered exceeds `millis` (host clock milliseconds).
    OnAfter { state: String, millis: u64 },
    /// Transitions after one full pass, intermission included. Has no
    /// effect on static vector graphics; use `OnAfter` for those instead.
    OnComplete { state: String },
    /// Transitions whenever the pointer is inside the object's bounds.
    OnMouseEnter { state: String },
    /// Transitions when the pointer is inside and the primary button was
    /// just pressed this tick.
    OnMouseClick { state: String },
    /// Transitions on the edge from previously-inside to
    /// currently-outside.
    OnMouseLeave { state: String },
    /// Transitions the first tick after the state's animation instance has
    /// started.
    OnShow { state: String },
}

impl AnimationTransition {
    /// The id of the state this rule requests.
    pub open spec fn target(self) -> Seq<char> {
        match self {
            AnimationTransition::OnAfter { state, .. } => state@,
            AnimationTransition::OnComplete { state } => state@,
            AnimationTransition::OnMouseEnter { state } => state@,
            AnimationTransition::OnMouseClick { state } => state@,
            AnimationTransition::OnMouseLeave { state } => state@,
            AnimationTransition::OnShow { state } => state@,
        }
    }
}

/// A named bundle of animation reference, optional settings override,
/// transition rules and reset policy. Immutable once the player begins
/// ticking.
#[derive(Clone, Debug)]
pub struct AnimationState {
    /// Unique name of the state within its player.
    pub id: String,
    /// Reference into the host's composition store.
    pub asset: u64,
    /// Settings installed when this state is entered; the fixed default is
    /// installed when absent.
    pub playback_settings: Option<PlaybackSettings>,
    /// Ordered transition rules; the first satisfied one wins.
    pub transitions: Vec<AnimationTransition>,
    /// Hard-reset the playhead when leaving this state.
    pub reset_playhead_on_transition: bool,
    /// Hard-reset the playhead when entering this state.
    pub reset_playhead_on_start: bool,
}

impl AnimationState {
    pub fn new(id: &str) -> (r: Self)
        ensures
            r.id@ == id@,
            r.asset == 0,
            r.playback_settings is None,
            r.transitions@ == Seq::<AnimationTransition>::empty(),
            !r.reset_playhead_on_transition,
            !r.reset_playhead_on_start,
    {
        AnimationState {
            id: id.to_owned(),
            asset: 0,
            playback_settings: None,
            transitions: Vec::new(),
            reset_playhead_on_transition: false,
            reset_playhead_on_start: false,
        }
    }

    pub fn with_asset(self, asset: u64) -> (r: Self)
        ensures
            r == (AnimationState { asset, ..self }),
    {
        AnimationState { asset, ..self }
    }

    pub fn with_playback_settings(self, playback_settings: PlaybackSettings) -> (r: Self)
        ensures
            r == (AnimationState { playback_settings: Some(playback_settings), ..self }),
    {
        AnimationState { playback_settings: Some(playback_settings), ..self }
    }

    pub fn with_transition(self, transition: AnimationTransition) -> (r: Self)
        ensures
            r.transitions@ == self.transitions@.push(transition),
            r == (AnimationState { transitions: r.transitions, ..self }),
    {
        let mut this = self;
        this.transitions.push(transition);
        this
    }

    pub fn reset_playhead_on_transition(self, reset: bool) -> (r: Self)
        ensures
            r == (AnimationState { reset_playhead_on_transition: reset, ..self }),
    {
        AnimationState { reset_playhead_on_transition: reset, ..self }
    }

    pub fn reset_playhead_on_start(self, reset: bool) -> (r: Self)
        ensures
            r == (AnimationState { reset_playhead_on_start: reset, ..self }),
    {
        AnimationState { reset_playhead_on_start: reset, ..self }
    }
}

/// Whether some state in the table carries the given id.
pub open spec fn has_state_id(states: Seq<AnimationState>, id: Seq<char>) -> bool {
    exists|i: int| 0 <= i < states.len() && states[i].id@ == id
}

/// The index of the state with the given id; meaningful when the table
/// has unique ids and contains the id.
pub open spec fn state_index(states: Seq<AnimationState>, id: Seq<char>) -> int {
    choose|i: int| 0 <= i < states.len() && states[i].id@ == id
}

/// The state with the given id.
pub open spec fn spec_state_by_id(states: Seq<AnimationState>, id: Seq<char>) -> AnimationState {
    states[state_index(states, id)]
}

/// State ids are unique within a table.
pub open spec fn unique_ids(states: Seq<AnimationState>) -> bool {
    forall|i: int, j: int|
        0 <= i < j < states.len() ==> states[i].id@ != states[j].id@
}

/// In a table with unique ids, any index holding the id is the index
/// `state_index` denotes.
pub proof fn lemma_state_index_of(states: Seq<AnimationState>, id: Seq<char>, i: int)
    requires
        unique_ids(states),
        0 <= i < states.len(),
        states[i].id@ == id,
    ensures
        has_state_id(states, id),
        state_index(states, id) == i,
{
    assert(has_state_id(states, id));
    let j = state_index(states, id);
    if i < j {
        assert(states[i].id@ != states[j].id@);
    } else if j < i {
        assert(states[j].id@ != states[i].id@);
    }
}

/// Look up the first state carrying the given id.
pub(crate) fn find_state_index(states: &Vec<AnimationState>, id: &String) -> (r: Option<usize>)
    ensures
        match r {
            Some(i) => {
                &&& i < states@.len()
                &&& states@[i as int].id@ == id@
                &&& forall|j: int| 0 <= j < i ==> states@[j].id@ != id@
            },
            None => !has_state_id(states@, id@),
        },
{
    let n = states.len();
    let mut i: usize = 0;
    while i < n
        invariant
            n == states@.len(),
            0 <= i <= n,
            forall|j: int| 0 <= j < i ==> states@[j].id@ != id@,
        decreases n - i,
    {
        if states[i].id == *id {
            return Some(i);
        }
        i = i + 1;
    }
    None
}

/// Why a commit was refused.
#[derive(Clone, Copy, Debug, PartialEq, Eq, Structural)]
pub enum PlayerError {
    /// The requested next state's id is not registered in the player's
    /// state table.
    StateNotFound,
}

/// Per-object state machine: owns the named-state table, the current and
/// requested state, the pending command slots, the play/pause/stop flags,
/// the raw frame accumulator and the pointer-hover latch.
#[derive(Debug)]
pub struct LottiePlayer {
    /// The state entered at creation and on `reset`.
    pub initial_state: String,
    /// The id of the active state.
    pub current_state: String,
    /// A requested state change, committed in the last tick phase.
    pub next_state: Option<String>,
    /// The named-state table; ids are unique.
    pub states: Vec<AnimationState>,
    /// A pending frame to seek to.
    pub pending_seek_frame: Option<u64>,
    /// A pending direction to change to.
    pub pending_direction: Option<AnimationDirection>,
    /// A pending intermission to change to.
    pub pending_intermission: Option<u64>,
    /// A pending loop behavior to change to.
    pub pending_loop_behavior: Option<AnimationLoopBehavior>,
    /// A pending play mode to change to.
    pub pending_play_mode: Option<AnimationPlayMode>,
    /// A pending speed to change to.
    pub pending_speed: Option<u32>,
    /// Whether the current animation instance has started.
    pub started: bool,
    /// Whether the player is playing. State machines continue unless
    /// stopped.
    pub playing: bool,
    /// Stopped: nothing advances and no transition runs.
    pub stopped: bool,
    /// Cumulative elapsed frames since the current animation instance
    /// began, unbounded, pre-loop-fold.
    pub rendered_frames: u64,
    /// Host-clock time (milliseconds) at which the current animation
    /// instance started, once it has.
    pub entered_at: Option<u64>,
    /// Latched by the transition evaluator while the pointer is inside, to
    /// detect pointer-leave edges.
    pub hovered: bool,
}

impl LottiePlayer {
    /// The state table keeps one state per id.
    pub open spec fn wf(self) -> bool {
        unique_ids(self.states@)
    }

    /// The active state's id is registered.
    pub open spec fn has_current_state(self) -> bool {
        has_state_id(self.states@, self.current_state@)
    }

    /// The active state.
    pub open spec fn spec_state(self) -> AnimationState {
        spec_state_by_id(self.states@, self.current_state@)
    }

    /// The current state. The player must have been built with a state
    /// for every id it is pointed at; a player whose current id is
    /// unregistered is a construction defect.
    pub fn state(&self) -> (r: &AnimationState)
        requires
            self.wf(),
            self.has_current_state(),
        ensures
            *r == self.spec_state(),
            r.id@ == self.current_state@,
    {
        let found = find_state_index(&self.states, &self.current_state);
        match found {
            Some(i) => {
                proof {
                    lemma_state_index_of(self.states@, self.current_state@, i as int);
                }
                &self.states[i]
            },
            None => {
                proof {
                    let w = choose|i: int|
                        0 <= i < self.states@.len() && self.states@[i].id@ == self.current_state@;
                    assert(self.states@[w].id@ == self.current_state@);
                }
                &self.states[0]
            },
        }
    }

    /// The states in the player.
    pub fn states(&self) -> (r: &Vec<AnimationState>)
        ensures
            r == &self.states,
    {
        &self.states
    }

    /// Request a transition to the named state, committed in the next
    /// tick's commit phase.
    pub fn transition(&mut self, state: &str)
        ensures
            final(self).next_state matches Some(s) && s@ == state@,
            *final(self) == (LottiePlayer { next_state: final(self).next_state, ..*old(self) }),
    {
        self.next_state = Some(state.to_owned());
    }

    /// Queue re-entry to the initial state.
    pub fn reset(&mut self)
        ensures
            *final(self) == (LottiePlayer {
                next_state: Some(old(self).initial_state),
                ..*old(self)
            }),
    {
        self.next_state = Some(self.initial_state.clone());
    }

    /// Queue a seek to a specific frame.
    pub fn seek(&mut self, frame: u64)
        ensures
            *final(self) == (LottiePlayer { pending_seek_frame: Some(frame), ..*old(self) }),
    {
        self.pending_seek_frame = Some(frame);
    }

    /// Queue a direction change. Applies to all animations.
    pub fn set_direction(&mut self, direction: AnimationDirection)
        ensures
            *final(self) == (LottiePlayer { pending_direction: Some(direction), ..*old(self) }),
    {
        self.pending_direction = Some(direction);
    }

    /// Queue a change of the pause between loops. Applies to all
    /// animations.
    pub fn set_intermission(&mut self, intermission: u64)
        ensures
            *final(self) == (LottiePlayer {
                pending_intermission: Some(intermission),
                ..*old(self)
            }),
    {
        self.pending_intermission = Some(intermission);
    }

    /// Queue a loop behavior change. Applies to all animations.
    pub fn set_loop_behavior(&mut self, loop_behavior: AnimationLoopBehavior)
        ensures
            *final(self) == (LottiePlayer {
                pending_loop_behavior: Some(loop_behavior),
                ..*old(self)
            }),
    {
        self.pending_loop_behavior = Some(loop_behavior);
    }

    /// Queue a play mode change. Applies to all animations.
    pub fn set_play_mode(&mut self, mode: AnimationPlayMode)
        ensures
            *final(self) == (LottiePlayer { pending_play_mode: Some(mode), ..*old(self) }),
    {
        self.pending_play_mode = Some(mode);
    }

    /// Queue a speed change (thousandths of real time). Applies to all
    /// animations.
    pub fn set_speed(&mut self, speed: u32)
        ensures
            *final(self) == (LottiePlayer { pending_speed: Some(speed), ..*old(self) }),
    {
        self.pending_speed = Some(speed);
    }

    /// Toggle the play state.
    pub fn toggle_play(&mut self)
        ensures
            old(self).stopped || !old(self).playing ==> *final(self) == (LottiePlayer {
                playing: true,
                stopped: false,
                ..*old(self)
            }),
            !old(self).stopped && old(self).playing ==> *final(self) == (LottiePlayer {
                playing: false,
                ..*old(self)
            }),
    {
        if self.stopped || !self.playing {
            self.play();
        } else {
            self.pause();
        }
    }

    /// Play the animation.
    pub fn play(&mut self)
        ensures
            *final(self) == (LottiePlayer { playing: true, stopped: false, ..*old(self) }),
    {
        self.playing = true;
        self.stopped = false;
    }

    /// Pause the animation. State machines continue.
    pub fn pause(&mut self)
        ensures
            *final(self) == (LottiePlayer { playing: false, ..*old(self) }),
    {
        self.playing = false;
    }

    /// Stop the animation. State machines do not run.
    pub fn stop(&mut self)
        ensures
            *final(self) == (LottiePlayer { stopped: true, ..*old(self) }),
    {
        self.stopped = true;
    }

    /// Create a player that will enter the given state on its first tick.
    pub fn new(initial_state: &str) -> (r: LottiePlayer)
        ensures
            r.initial_state@ == initial_state@,
            r.current_state@ == initial_state@,
            r.next_state matches Some(s) && s@ == initial_state@,
            r.states@ == Seq::<AnimationState>::empty(),
            r.pending_seek_frame is None,
            r.pending_direction is None,
            r.pending_intermission is None,
            r.pending_loop_behavior is None,
            r.pending_play_mode is None,
            r.pending_speed is None,
            !r.started,
            !r.playing,
            !r.stopped,
            r.rendered_frames == 0,
            r.entered_at is None,
            !r.hovered,
            r.wf(),
    {
        LottiePlayer {
            initial_state: initial_state.to_owned(),
            current_state: initial_state.to_owned(),
            next_state: Some(initial_state.to_owned()),
            states: Vec::new(),
            pending_seek_frame: None,
            pending_direction: None,
            pending_intermission: None,
            pending_loop_behavior: None,
            pending_play_mode: None,
            pending_speed: None,
            started: false,
            playing: false,
            stopped: false,
            rendered_frames: 0,
            entered_at: None,
            hovered: false,
        }
    }

    /// Add a state, replacing any state already registered under its id.
    pub fn with_state(self, state: AnimationState) -> (r: Self)
        requires
            self.wf(),
        ensures
            r.wf(),
            has_state_id(self.states@, state.id@) ==> r.states@ == self.states@.update(
                state_index(self.states@, state.id@),
                state,
            ),
            !has_state_id(self.states@, state.id@) ==> r.states@ == self.states@.push(state),
            r == (LottiePlayer { states: r.states, ..self }),
    {
        let mut this = self;
        let ghost pre = this.states@;
        let ghost sid = state.id@;
        let found = find_state_index(&this.states, &state.id);
        match found {
            Some(i) => {
                proof {
                    lemma_state_index_of(this.states@, state.id@, i as int);
                }
                this.states[i] = state;
                proof {
                    assert forall|p: int, q: int|
                        0 <= p < q < this.states@.len() implies this.states@[p].id@
                        != this.states@[q].id@ by {
                        if p != i as int && q != i as int {
                            assert(pre[p].id@ != pre[q].id@);
                        } else if p == i as int {
                            assert(this.states@[p].id@ == sid);
                            assert(pre[i as int].id@ != pre[q].id@);
                        } else {
                            assert(this.states@[q].id@ == sid);
                            assert(pre[p].id@ != pre[i as int].id@);
                        }
                    }
                }
            },
            None => {
                this.states.push(state);
                proof {
                    assert forall|p: int, q: int|
                        0 <= p < q < this.states@.len() implies this.states@[p].id@
                        != this.states@[q].id@ by {
                        if q == pre.len() as int {
                            assert(this.states@[q].id@ == sid);
                            assert(!has_state_id(pre, sid));
                            assert(pre[p].id@ != sid);
                        } else {
                            assert(pre[p].id@ != pre[q].id@);
                        }
                    }
                }
            },
        }
        this
    }
}

} // verus!
