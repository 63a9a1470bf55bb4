use vstd::prelude::*;
use vstd::arithmetic::div_mod::{
    lemma_add_mod_noop,
    lemma_mod_add_multiples_vanish,
    lemma_mod_bound,
    lemma_mod_self_0,
    lemma_small_mod,
};

use crate::gameplay::GameState;

verus! {

// ==== Which systems move the bird ====

/// Which of the bird's per-frame systems run in a given state.
#[derive(Clone, Copy, Debug, PartialEq, Eq, Structural)]
pub struct PlayerSystems {
    /// The bird bobs up and down while waiting.
    pub menu_sine_wave: bool,
    /// The bird falls under gravity.
    pub player_gravity: bool,
    /// The bird tilts with its vertical speed.
    pub player_rotation: bool,
    /// The bird is tested against the pipes and the ground.
    pub player_collisions: bool,
}

/// The systems scheduled in `state`.
pub open spec fn systems_for(state: GameState) -> PlayerSystems {
    PlayerSystems {
        menu_sine_wave: state == GameState::MainMenu || state == GameState::Preparing,
        player_gravity: state == GameState::InGame || state == GameState::GameOver,
        player_rotation: state == GameState::InGame,
        player_collisions: state == GameState::InGame,
    }
}

impl PlayerSystems {
    /// The bird bobs on the menu and the "get ready" screen; it falls, tilts
    /// and collides in play; after a game over it only keeps falling.
    pub fn for_state(state: GameState) -> (s: PlayerSystems)
        ensures
            s == systems_for(state),
    {
        let waiting = state == GameState::MainMenu || state == GameState::Preparing;
        let playing = state == GameState::InGame;
        PlayerSystems {
            menu_sine_wave: waiting,
            player_gravity: playing || state == GameState::GameOver,
            player_rotation: playing,
            player_collisions: playing,
        }
    }
}

/// In every state exactly one system sets the bird's height: the bobbing or
/// gravity, never both and never neither. Tilting and collisions only come
/// with gravity.
pub proof fn lemma_one_vertical_motion(state: GameState)
    ensures
        systems_for(state).menu_sine_wave != systems_for(state).player_gravity,
        systems_for(state).player_rotation ==> systems_for(state).player_gravity,
        systems_for(state).player_collisions ==> systems_for(state).player_gravity,
{
}

/// The bird's horizontal rest position on the main menu.
pub const PLAYER_MENU_X: i32 = 0;

/// The bird's horizontal rest position once the game has been started.
pub const PLAYER_PLAY_X: i32 = -16;

/// Where the bird glides to horizontally: the centre on the main menu, a
/// little to the left on every other screen.
pub fn player_x_target(state: GameState) -> (x: i32)
    ensures
        x == (if state == GameState::MainMenu {
            PLAYER_MENU_X
        } else {
            PLAYER_PLAY_X
        }),
{
    match state {
        GameState::MainMenu => PLAYER_MENU_X,
        GameState::Preparing | GameState::InGame | GameState::GameOver => PLAYER_PLAY_X,
    }
}

// ==== Input ====

/// What a frame of input does to the bird.
#[derive(Clone, Copy, Debug, PartialEq, Eq, Structural)]
pub struct PlayerInput {
    /// The bird is given its upward jump speed.
    pub jump: bool,
    /// The state the game is asked to move to, if any.
    pub next_state: Option<GameState>,
}

/// The input rule: while getting ready or playing, a press makes the bird
/// jump, and a press while getting ready starts play.
pub open spec fn spec_player_input(state: GameState, jump_pressed: bool) -> PlayerInput {
    PlayerInput {
        jump: jump_pressed && (state == GameState::Preparing || state == GameState::InGame),
        next_state: if jump_pressed && state == GameState::Preparing {
            Some(GameState::InGame)
        } else {
            None
        },
    }
}

/// Reacts to a press of the left mouse button or the space bar.
pub fn player_input(state: GameState, jump_pressed: bool) -> (r: PlayerInput)
    ensures
        r == spec_player_input(state, jump_pressed),
        !jump_pressed ==> !r.jump && r.next_state is None,
        r.jump <==> (jump_pressed && (state == GameState::Preparing || state == GameState::InGame)),
        r.next_state is Some <==> (jump_pressed && state == GameState::Preparing),
        r.next_state is Some ==> r.next_state == Some(GameState::InGame),
{
    let mut r = PlayerInput { jump: false, next_state: None };
    match state {
        GameState::InGame | GameState::Preparing => {
            if jump_pressed {
                r.jump = true;
                if state != GameState::InGame {
                    r.next_state = Some(GameState::InGame);
                }
            }
        },
        _ => {},
    }
    r
}

/// Input acts only on a press: a frame without a press neither makes the bird
/// jump nor changes the screen, in any state. A press starts play only from the
/// "get ready" screen, and makes the bird jump exactly while getting ready or
/// playing.
pub proof fn lemma_input_needs_press(state: GameState, jump_pressed: bool)
    ensures
        !spec_player_input(state, false).jump,
        spec_player_input(state, false).next_state == None::<GameState>,
        spec_player_input(state, jump_pressed).next_state == Some(GameState::InGame) ==> jump_pressed && state
            == GameState::Preparing,
        spec_player_input(GameState::Preparing, true).next_state == Some(GameState::InGame),
        spec_player_input(state, true).jump <==> (state == GameState::Preparing || state == GameState::InGame),
        state != GameState::Preparing ==> spec_player_input(state, jump_pressed).next_state == None::<GameState>,
{
}

// ==== Collisions ====

/// How many entries of `s` are `true`.
pub open spec fn count_true(s: Seq<bool>) -> nat
    decreases s.len(),
{
    if s.len() == 0 {
        0
    } else {
        count_true(s.drop_last()) + if s.last() {
            1nat
        } else {
            0nat
        }
    }
}

/// Adding one entry to a list adds one to the count exactly when the entry
/// is `true`, wherever it stands.
pub proof fn lemma_count_true_push(s: Seq<bool>, b: bool)
    ensures
        count_true(s.push(b)) == count_true(s) + if b {
            1nat
        } else {
            0nat
        },
{
    assert(s.push(b).drop_last() =~= s);
}

/// The count of a list split in two is the sum of the counts of the parts.
pub proof fn lemma_count_true_append(a: Seq<bool>, b: Seq<bool>)
    ensures
        count_true(a + b) == count_true(a) + count_true(b),
    decreases b.len(),
{
    if b.len() == 0 {
        assert(a + b =~= a);
    } else {
        assert((a + b).drop_last() =~= a + b.drop_last());
        lemma_count_true_append(a, b.drop_last());
    }
}

/// The count lies between zero and the length, is zero exactly when no entry
/// is `true`, and is at least one as soon as any entry, at any position, is.
pub proof fn lemma_count_true_bounds(s: Seq<bool>)
    ensures
        count_true(s) <= s.len(),
        count_true(s) == 0 <==> (forall|j: int| 0 <= j < s.len() ==> !s[j]),
        forall|j: int| 0 <= j < s.len() && s[j] ==> count_true(s) >= 1,
        (forall|j: int| 0 <= j < s.len() ==> s[j]) ==> count_true(s) == s.len(),
    decreases s.len(),
{
    if s.len() > 0 {
        let t = s.drop_last();
        lemma_count_true_bounds(t);
        assert forall|j: int| 0 <= j < t.len() implies t[j] == s[j] by {}
        if count_true(s) == 0 {
            assert forall|j: int| 0 <= j < s.len() implies !s[j] by {
                if j < t.len() {
                    assert(t[j] == s[j]);
                }
            }
        }
        if forall|j: int| 0 <= j < s.len() ==> s[j] {
            assert forall|j: int| 0 <= j < t.len() implies t[j] by {
                assert(s[j]);
            }
        }
        assert forall|j: int| 0 <= j < s.len() && s[j] implies count_true(s) >= 1 by {
            if j < t.len() {
                assert(t[j]);
            }
        }
    }
}

/// How many death events one collision pass raises: one for every pipe whose
/// box overlaps the bird's (`overlaps`, one entry per pipe), and one more
/// when the bird has sunk to the ground.
pub fn death_trigger_count(overlaps: &Vec<bool>, below_ground: bool) -> (n: usize)
    requires
        overlaps.len() < usize::MAX,
    ensures
        n == count_true(overlaps@) + if below_ground {
            1nat
        } else {
            0nat
        },
        n <= overlaps.len() + 1,
        n == 0 <==> (!below_ground && forall|j: int| 0 <= j < overlaps.len() ==> !overlaps@[j]),
        forall|j: int| 0 <= j < overlaps.len() && overlaps@[j] ==> n >= 1,
        below_ground ==> n >= 1,
{
    proof {
        lemma_count_true_bounds(overlaps@);
    }
    let mut n: usize = 0;
    let mut i: usize = 0;
    while i < overlaps.len()
        invariant
            i <= overlaps.len(),
            n == count_true(overlaps@.take(i as int)),
            n <= i,
        decreases overlaps.len() - i,
    {
        proof {
            assert(overlaps@.take(i + 1).drop_last() =~= overlaps@.take(i as int));
        }
        if overlaps[i] {
            n = n + 1;
        }
        i = i + 1;
    }
    proof {
        assert(overlaps@.take(overlaps.len() as int) =~= overlaps@);
    }
    if below_ground {
        n = n + 1;
    }
    n
}

// ==== Animation timer ====

/// Flapping speed, in frames per second, while waiting on a menu.
pub const MENU_FLAP_RATE: u32 = 13;

/// Flapping speed, in frames per second, during play.
pub const PLAY_FLAP_RATE: u32 = 20;

/// The flapping animation's clock: whether it is stopped, and how many
/// frames it shows per second.
#[derive(Clone, Copy, Debug, PartialEq, Eq, Structural)]
pub struct AnimTimerSettings {
    pub paused: bool,
    pub frames_per_second: u32,
}

/// The flapping speed on entering a state other than the game-over screen.
pub open spec fn flap_rate(state: GameState) -> u32 {
    if state == GameState::MainMenu || state == GameState::Preparing {
        MENU_FLAP_RATE
    } else {
        PLAY_FLAP_RATE
    }
}

/// Whether the clock is stopped after the states entered in `entered`
/// (`None` for a transition that entered nothing): the last state entered
/// decides, and the game-over screen stops the clock.
pub open spec fn paused_after(paused: bool, entered: Seq<Option<GameState>>) -> bool
    decreases entered.len(),
{
    if entered.len() == 0 {
        paused
    } else {
        match entered.last() {
            Some(s) => s == GameState::GameOver,
            None => paused_after(paused, entered.drop_last()),
        }
    }
}

/// The flapping speed after `entered`: set by the last state entered other
/// than the game-over screen.
pub open spec fn rate_after(rate: u32, entered: Seq<Option<GameState>>) -> u32
    decreases entered.len(),
{
    if entered.len() == 0 {
        rate
    } else {
        match entered.last() {
            Some(s) => if s == GameState::GameOver {
                rate_after(rate, entered.drop_last())
            } else {
                flap_rate(s)
            },
            None => rate_after(rate, entered.drop_last()),
        }
    }
}

/// The clock after the transitions `entered`.
pub open spec fn timer_after(t: AnimTimerSettings, entered: Seq<Option<GameState>>) -> AnimTimerSettings {
    AnimTimerSettings {
        paused: paused_after(t.paused, entered),
        frames_per_second: rate_after(t.frames_per_second, entered),
    }
}

impl AnimTimerSettings {
    /// The bird's clock when it is spawned: running at the menu speed.
    pub fn player() -> (t: AnimTimerSettings)
        ensures
            !t.paused,
            t.frames_per_second == MENU_FLAP_RATE,
    {
        AnimTimerSettings { paused: false, frames_per_second: MENU_FLAP_RATE }
    }

    /// Adjusts the flapping clock to the state transitions of this frame, in
    /// order: entering the game-over screen stops it; entering any other
    /// state sets its speed (menu speed on the main menu and the "get ready"
    /// screen, play speed otherwise) and starts it again if stopped.
    pub fn set_player_anim_speed(&mut self, entered: &Vec<Option<GameState>>)
        ensures
            *final(self) == timer_after(*old(self), entered@),
            entered@.len() > 0 && entered@.last() is Some ==> {
                &&& final(self).paused == (entered@.last() == Some(GameState::GameOver))
                &&& entered@.last() != Some(GameState::GameOver) ==> final(self).frames_per_second == if entered@.last()
                    == Some(GameState::MainMenu) || entered@.last() == Some(GameState::Preparing) {
                    13u32
                } else {
                    20u32
                }
            },
            (forall|j: int| 0 <= j < entered@.len() ==> entered@[j] is None) ==> *final(self) == *old(self),
    {
        proof {
            lemma_anim_speed_no_entry(*self, entered@);
        }
        let ghost start = *self;
        let mut i: usize = 0;
        while i < entered.len()
            invariant
                i <= entered.len(),
                *self == timer_after(start, entered@.take(i as int)),
            decreases entered.len() - i,
        {
            proof {
                assert(entered@.take(i + 1).drop_last() =~= entered@.take(i as int));
            }
            match entered[i] {
                Some(new) => {
                    if new == GameState::GameOver {
                        self.paused = true;
                    } else {
                        self.frames_per_second = match new {
                            GameState::MainMenu | GameState::Preparing => MENU_FLAP_RATE,
                            _ => PLAY_FLAP_RATE,
                        };
                        if self.paused {
                            self.paused = false;
                        }
                    }
                },
                None => {},
            }
            i = i + 1;
        }
        proof {
            assert(entered@.take(entered.len() as int) =~= entered@);
        }
    }
}

/// Entering a screen other than game over leaves the clock running, at 13
/// frames per second on the main menu and the "get ready" screen and 20 in play,
/// whatever it was before; entering the game-over screen stops it and keeps its
/// speed.
pub proof fn lemma_anim_speed_on_enter(t: AnimTimerSettings, s: GameState)
    ensures
        s != GameState::GameOver ==> !timer_after(t, seq![Some(s)]).paused,
        (s == GameState::MainMenu || s == GameState::Preparing) ==> timer_after(t, seq![Some(s)]).frames_per_second
            == 13,
        s == GameState::InGame ==> timer_after(t, seq![Some(s)]).frames_per_second == 20,
        timer_after(t, seq![Some(GameState::GameOver)]).paused,
        timer_after(t, seq![Some(GameState::GameOver)]).frames_per_second == t.frames_per_second,
{
    assert(seq![Some(s)].drop_last() =~= Seq::<Option<GameState>>::empty());
    assert(seq![Some(GameState::GameOver)].drop_last() =~= Seq::<Option<GameState>>::empty());
    assert(rate_after(t.frames_per_second, seq![Some(GameState::GameOver)].drop_last()) == t.frames_per_second);
}

/// Transitions that enter no state leave the clock as it was.
pub proof fn lemma_anim_speed_no_entry(t: AnimTimerSettings, entered: Seq<Option<GameState>>)
    ensures
        (forall|j: int| 0 <= j < entered.len() ==> entered[j] is None) ==> timer_after(t, entered) == t,
    decreases entered.len(),
{
    if entered.len() > 0 {
        if forall|j: int| 0 <= j < entered.len() ==> entered[j] is None {
            let d = entered.drop_last();
            assert forall|j: int| 0 <= j < d.len() implies d[j] is None by {
                assert(entered[j] is None);
            }
            assert(entered[entered.len() - 1] is None);
            lemma_anim_speed_no_entry(t, d);
        }
    }
}

/// Handling the same transitions twice leaves the clock as handling them once.
pub proof fn lemma_anim_speed_idempotent(t: AnimTimerSettings, entered: Seq<Option<GameState>>)
    ensures
        timer_after(timer_after(t, entered), entered) == timer_after(t, entered),
    decreases entered.len(),
{
    lemma_paused_after_idempotent(t.paused, entered);
    lemma_rate_after_idempotent(t.frames_per_second, entered);
}

proof fn lemma_paused_after_idempotent(p: bool, entered: Seq<Option<GameState>>)
    ensures
        paused_after(paused_after(p, entered), entered) == paused_after(p, entered),
    decreases entered.len(),
{
    if entered.len() > 0 {
        if entered.last() is None {
            lemma_paused_after_idempotent(p, entered.drop_last());
        }
    }
}

proof fn lemma_rate_after_idempotent(r: u32, entered: Seq<Option<GameState>>)
    ensures
        rate_after(rate_after(r, entered), entered) == rate_after(r, entered),
    decreases entered.len(),
{
    if entered.len() > 0 {
        match entered.last() {
            Some(s) => {
                if s == GameState::GameOver {
                    lemma_rate_after_idempotent(r, entered.drop_last());
                }
            },
            None => {
                lemma_rate_after_idempotent(r, entered.drop_last());
            },
        }
    }
}

// ==== Flapping frames ====

/// The index that follows `i` in a cycle of `len` frames; an index at or
/// past the last frame wraps to the first.
pub open spec fn next_frame(i: int, len: int) -> int {
    if i >= len - 1 {
        0
    } else {
        i + 1
    }
}

/// The index reached from `i` after `n` steps.
pub open spec fn frame_after(i: int, len: int, n: nat) -> int
    decreases n,
{
    if n == 0 {
        i
    } else {
        next_frame(frame_after(i, len, (n - 1) as nat), len)
    }
}

/// The bird's flapping animation: the atlas frames it cycles through, and
/// the position in that list.
#[derive(Debug)]
pub struct AnimationIndices {
    pub frames: Vec<usize>,
    pub current_index: usize,
}

impl AnimationIndices {
    /// The bird's wing cycle: up, up, middle, down, middle.
    pub fn player() -> (a: AnimationIndices)
        ensures
            a.frames@ == seq![0usize, 0usize, 1usize, 2usize, 1usize],
            a.current_index == 0,
    {
        AnimationIndices { frames: vec![0, 0, 1, 2, 1], current_index: 0 }
    }

    /// The atlas frame shown first.
    pub fn first_frame(&self) -> (f: usize)
        requires
            self.frames.len() > 0,
        ensures
            f == self.frames@[0],
    {
        self.frames[0]
    }

    /// Steps to the next frame of the cycle and returns the atlas frame to show.
    pub fn advance(&mut self) -> (frame: usize)
        requires
            old(self).frames.len() > 0,
        ensures
            final(self).frames@ == old(self).frames@,
            final(self).current_index == next_frame(
                old(self).current_index as int,
                old(self).frames.len() as int,
            ),
            final(self).current_index < final(self).frames.len(),
            frame == final(self).frames@[final(self).current_index as int],
    {
        self.current_index = if self.current_index >= self.frames.len() - 1 {
            0
        } else {
            self.current_index + 1
        };
        self.frames[self.current_index]
    }

    /// One frame of the animation: when the clock has just ticked over and the
    /// sprite draws from an atlas, the animation steps on and the atlas is set
    /// to the new frame; otherwise nothing changes.
    pub fn animate(&mut self, timer_finished: bool, atlas_index: &mut Option<usize>)
        requires
            timer_finished && (*old(atlas_index)) is Some ==> old(self).frames.len() > 0,
        ensures
            final(self).frames@ == old(self).frames@,
            timer_finished && (*old(atlas_index)) is Some ==> {
                &&& final(self).current_index == next_frame(
                    old(self).current_index as int,
                    old(self).frames.len() as int,
                )
                &&& *final(atlas_index) == Some(final(self).frames@[final(self).current_index as int])
            },
            !(timer_finished && (*old(atlas_index)) is Some) ==> {
                &&& final(self).current_index == old(self).current_index
                &&& *final(atlas_index) == *old(atlas_index)
            },
    {
        if timer_finished && atlas_index.is_some() {
            let frame = self.advance();
            *atlas_index = Some(frame);
        }
    }
}

/// Starting from a frame of the cycle, `n` steps go `n` places forward
/// around it.
pub proof fn lemma_frame_after_is_mod(i: int, len: int, n: nat)
    requires
        0 <= i < len,
    ensures
        frame_after(i, len, n) == (i + n) % len,
    decreases n,
{
    if n == 0 {
        lemma_small_mod(i as nat, len as nat);
    } else {
        lemma_frame_after_is_mod(i, len, (n - 1) as nat);
        let x = i + n - 1;
        let r = x % len;
        lemma_mod_bound(x, len);
        lemma_add_mod_noop(x, 1, len);
        if len == 1 {
            lemma_mod_bound(i + n, len);
        } else {
            lemma_small_mod(1, len as nat);
            if r + 1 < len {
                lemma_small_mod((r + 1) as nat, len as nat);
            } else {
                lemma_mod_self_0(len);
            }
        }
    }
}

/// The animation is periodic: from any frame of a cycle of `len` frames,
/// `len` steps come back to the same frame.
pub proof fn lemma_frames_cycle(i: int, len: int)
    requires
        0 <= i < len,
    ensures
        frame_after(i, len, len as nat) == i,
{
    lemma_frame_after_is_mod(i, len, len as nat);
    lemma_mod_add_multiples_vanish(i, len);
    lemma_small_mod(i as nat, len as nat);
}

} // verus!
