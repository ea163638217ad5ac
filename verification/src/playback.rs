//! Playback options that steer a lottie playhead, and the discrete decisions
//! taken each frame when the playhead reaches the edge of its segment.

use vstd::prelude::*;

verus! {

/// The direction to play the segments of a lottie animation.
#[derive(Clone, Copy, Debug, PartialEq, Eq, Structural)]
pub enum PlaybackDirection {
    /// Play in the default direction, first frame to last frame.
    Normal,
    /// Play in the reverse direction, last frame to first frame.
    Reverse,
}

impl PlaybackDirection {
    /// The sign with which frames advance: `1` for normal, `-1` for reverse.
    pub fn sign(&self) -> (s: i8)
        ensures
            s == (if *self == PlaybackDirection::Normal { 1i8 } else { -1i8 }),
    {
        match self {
            PlaybackDirection::Normal => 1,
            PlaybackDirection::Reverse => -1,
        }
    }
}

impl Default for PlaybackDirection {
    fn default() -> (d: Self)
        ensures
            d == PlaybackDirection::Normal,
    {
        PlaybackDirection::Normal
    }
}

/// How often to loop.
#[derive(Clone, Copy, Debug, PartialEq, Eq, Structural)]
pub enum PlaybackLoopBehavior {
    /// Do not loop. This is equivalent to `PlaybackLoopBehavior::Amount(0)`.
    DoNotLoop,
    /// Complete a specified number of loops.
    Amount(usize),
    /// Loop continuously.
    Loop,
}

impl Default for PlaybackLoopBehavior {
    fn default() -> (d: Self)
        ensures
            d == PlaybackLoopBehavior::Loop,
    {
        PlaybackLoopBehavior::Loop
    }
}

/// Whether another loop is owed after `loops_completed` loops.
pub open spec fn keeps_looping(looping: PlaybackLoopBehavior, loops_completed: nat) -> bool {
    match looping {
        PlaybackLoopBehavior::Loop => true,
        PlaybackLoopBehavior::Amount(amount) => loops_completed < amount,
        PlaybackLoopBehavior::DoNotLoop => false,
    }
}

/// The number of completed loops after which an animation counts as complete.
pub open spec fn required_loops(looping: PlaybackLoopBehavior) -> nat {
    match looping {
        PlaybackLoopBehavior::DoNotLoop => 0,
        PlaybackLoopBehavior::Amount(amount) => amount as nat,
        PlaybackLoopBehavior::Loop => 0,
    }
}

impl PlaybackLoopBehavior {
    /// Whether the playhead should wrap around for another loop after
    /// `loops_completed` loops.
    pub fn keeps_looping(&self, loops_completed: usize) -> (b: bool)
        ensures
            b == keeps_looping(*self, loops_completed as nat),
    {
        match self {
            PlaybackLoopBehavior::Loop => true,
            PlaybackLoopBehavior::Amount(amount) => loops_completed < *amount,
            PlaybackLoopBehavior::DoNotLoop => false,
        }
    }

    /// The number of loops that must be completed before the animation is
    /// considered complete.
    pub fn loops_needed(&self) -> (n: usize)
        ensures
            n as nat == required_loops(*self),
    {
        match self {
            PlaybackLoopBehavior::DoNotLoop => 0,
            PlaybackLoopBehavior::Amount(amount) => *amount,
            PlaybackLoopBehavior::Loop => 0,
        }
    }
}

/// Whether to reset (normal) the playhead every loop or to reverse directions
/// (bounce).
#[derive(Clone, Copy, Debug, PartialEq, Eq, Structural)]
pub enum PlaybackPlayMode {
    /// Reset the playhead every loop.
    Normal,
    /// Reverse the direction every loop.
    Bounce,
}

impl Default for PlaybackPlayMode {
    fn default() -> (d: Self)
        ensures
            d == PlaybackPlayMode::Normal,
    {
        PlaybackPlayMode::Normal
    }
}

/// Where an advanced playhead landed relative to its segment.
#[derive(Clone, Copy, Debug, PartialEq, Eq, Structural)]
pub enum Overshoot {
    /// The playhead is inside the segment.
    Within,
    /// The playhead moved past the segment's last frame.
    PastEnd,
    /// The playhead moved before the segment's first frame.
    BeforeStart,
}

/// Where to put the playhead's frame after a step.
#[derive(Clone, Copy, Debug, PartialEq, Eq, Structural)]
pub enum FramePlacement {
    /// Keep the advanced frame.
    Unchanged,
    /// Put the frame on the segment's first frame.
    Start,
    /// Put the frame on the segment's last frame.
    End,
    /// Wrap around: the first frame plus how far the frame ran past the end.
    WrapFromStart,
    /// Wrap around: the last frame minus how far the frame ran before the start.
    WrapFromEnd,
}

/// The outcome of one playhead step at a segment edge.
#[derive(Clone, Copy, Debug, PartialEq, Eq, Structural)]
pub struct BoundaryStep {
    /// The new number of completed loops.
    pub loops_completed: usize,
    /// Whether the bounce direction flips.
    pub flip_direction: bool,
    /// Whether an intermission timer starts.
    pub start_intermission: bool,
    /// Where the frame goes.
    pub placement: FramePlacement,
}

/// The step taken when the playhead leaves its segment (or stays in it).
pub open spec fn boundary_step_spec(
    overshoot: Overshoot,
    looping: PlaybackLoopBehavior,
    play_mode: PlaybackPlayMode,
    has_intermission: bool,
    loops_completed: usize,
) -> BoundaryStep {
    let bounce = play_mode == PlaybackPlayMode::Bounce;
    let again = keeps_looping(looping, loops_completed as nat);
    match overshoot {
        Overshoot::Within => BoundaryStep {
            loops_completed,
            flip_direction: false,
            start_intermission: false,
            placement: FramePlacement::Unchanged,
        },
        Overshoot::PastEnd => BoundaryStep {
            loops_completed: if again { (loops_completed + 1) as usize } else { loops_completed },
            flip_direction: again && bounce,
            start_intermission: again && has_intermission,
            placement: if bounce || !again || has_intermission {
                FramePlacement::End
            } else {
                FramePlacement::WrapFromStart
            },
        },
        Overshoot::BeforeStart => BoundaryStep {
            loops_completed: if again { (loops_completed + 1) as usize } else { loops_completed },
            flip_direction: again && bounce,
            start_intermission: again && has_intermission,
            placement: if bounce || !again || has_intermission {
                FramePlacement::Start
            } else {
                FramePlacement::WrapFromEnd
            },
        },
    }
}

/// Decides what happens when an advanced playhead has left (or not) its
/// segment: whether a loop is counted, the bounce direction flips, an
/// intermission starts, and where the frame is put.
pub fn boundary_step(
    overshoot: Overshoot,
    looping: PlaybackLoopBehavior,
    play_mode: PlaybackPlayMode,
    has_intermission: bool,
    loops_completed: usize,
) -> (step: BoundaryStep)
    requires
        overshoot != Overshoot::Within && keeps_looping(looping, loops_completed as nat)
            ==> loops_completed < usize::MAX,
    ensures
        step == boundary_step_spec(overshoot, looping, play_mode, has_intermission, loops_completed),
{
    let bounce = match play_mode {
        PlaybackPlayMode::Bounce => true,
        PlaybackPlayMode::Normal => false,
    };
    match overshoot {
        Overshoot::Within => BoundaryStep {
            loops_completed,
            flip_direction: false,
            start_intermission: false,
            placement: FramePlacement::Unchanged,
        },
        Overshoot::PastEnd | Overshoot::BeforeStart => {
            let past_end = match overshoot {
                Overshoot::PastEnd => true,
                _ => false,
            };
            let mut loops = loops_completed;
            let mut flip = false;
            let mut intermission = false;
            let mut placement;
            if looping.keeps_looping(loops_completed) {
                loops = loops + 1;
                if bounce {
                    flip = true;
                }
                if has_intermission {
                    intermission = true;
                    placement = if past_end { FramePlacement::End } else { FramePlacement::Start };
                } else {
                    placement = if past_end {
                        FramePlacement::WrapFromStart
                    } else {
                        FramePlacement::WrapFromEnd
                    };
                }
            } else {
                placement = if past_end { FramePlacement::End } else { FramePlacement::Start };
            }
            if bounce {
                placement = if past_end { FramePlacement::End } else { FramePlacement::Start };
            }
            BoundaryStep {
                loops_completed: loops,
                flip_direction: flip,
                start_intermission: intermission,
                placement,
            }
        },
    }
}

/// The edge a playhead restarts from once an intermission is over: the first
/// frame when playing normally, the last frame when playing in reverse.
pub fn restart_placement(direction: PlaybackDirection) -> (placement: FramePlacement)
    ensures
        placement == (if direction == PlaybackDirection::Normal {
            FramePlacement::Start
        } else {
            FramePlacement::End
        }),
{
    match direction {
        PlaybackDirection::Normal => FramePlacement::Start,
        PlaybackDirection::Reverse => FramePlacement::End,
    }
}

/// A counted loop never exceeds a fixed loop amount: stepping from at most
/// `amount` completed loops leaves at most `amount` completed loops.
pub proof fn lemma_amount_bounds_loops(
    overshoot: Overshoot,
    play_mode: PlaybackPlayMode,
    has_intermission: bool,
    amount: usize,
    loops_completed: usize,
)
    requires
        loops_completed <= amount,
    ensures
        boundary_step_spec(
            overshoot,
            PlaybackLoopBehavior::Amount(amount),
            play_mode,
            has_intermission,
            loops_completed,
        ).loops_completed <= amount,
{
}

/// Without looping the playhead clamps to the edge it crossed and nothing
/// else changes.
pub proof fn lemma_do_not_loop_clamps(
    overshoot: Overshoot,
    play_mode: PlaybackPlayMode,
    has_intermission: bool,
    loops_completed: usize,
)
    ensures
        ({
            let step = boundary_step_spec(
                overshoot,
                PlaybackLoopBehavior::DoNotLoop,
                play_mode,
                has_intermission,
                loops_completed,
            );
            &&& step.loops_completed == loops_completed
            &&& !step.flip_direction
            &&& !step.start_intermission
            &&& step.placement == match overshoot {
                Overshoot::Within => FramePlacement::Unchanged,
                Overshoot::PastEnd => FramePlacement::End,
                Overshoot::BeforeStart => FramePlacement::Start,
            }
        }),
{
}

/// In bounce mode the playhead never wraps around: it stops on the edge it
/// crossed and turns around there.
pub proof fn lemma_bounce_never_wraps(
    overshoot: Overshoot,
    looping: PlaybackLoopBehavior,
    has_intermission: bool,
    loops_completed: usize,
)
    ensures
        ({
            let step = boundary_step_spec(
                overshoot,
                looping,
                PlaybackPlayMode::Bounce,
                has_intermission,
                loops_completed,
            );
            &&& step.placement != FramePlacement::WrapFromStart
            &&& step.placement != FramePlacement::WrapFromEnd
            &&& step.flip_direction == (overshoot != Overshoot::Within && keeps_looping(
                looping,
                loops_completed as nat,
            ))
        }),
{
}

/// Not looping is the same as looping zero times: the two behaviors step
/// the playhead alike in every situation and ask for the same number of
/// completed loops.
pub proof fn lemma_do_not_loop_is_amount_zero(
    overshoot: Overshoot,
    play_mode: PlaybackPlayMode,
    has_intermission: bool,
    loops_completed: usize,
)
    ensures
        boundary_step_spec(
            overshoot,
            PlaybackLoopBehavior::DoNotLoop,
            play_mode,
            has_intermission,
            loops_completed,
        ) == boundary_step_spec(
            overshoot,
            PlaybackLoopBehavior::Amount(0),
            play_mode,
            has_intermission,
            loops_completed,
        ),
        required_loops(PlaybackLoopBehavior::DoNotLoop) == required_loops(
            PlaybackLoopBehavior::Amount(0),
        ),
{
}

/// A step never loses a completed loop and counts at most one more, and the
/// bounce direction flips only when the playhead left its segment.
pub proof fn lemma_loops_never_decrease(
    overshoot: Overshoot,
    looping: PlaybackLoopBehavior,
    play_mode: PlaybackPlayMode,
    has_intermission: bool,
    loops_completed: usize,
)
    requires
        overshoot != Overshoot::Within && keeps_looping(looping, loops_completed as nat)
            ==> loops_completed < usize::MAX,
    ensures
        ({
            let step = boundary_step_spec(
                overshoot,
                looping,
                play_mode,
                has_intermission,
                loops_completed,
            );
            &&& loops_completed <= step.loops_completed <= loops_completed + 1
            &&& step.flip_direction ==> overshoot != Overshoot::Within
        }),
{
}

/// For a finite loop behavior, the animation counts as complete exactly when
/// no further loop is owed.
pub proof fn lemma_complete_iff_loops_exhausted(looping: PlaybackLoopBehavior, loops_completed: nat)
    requires
        looping != PlaybackLoopBehavior::Loop,
    ensures
        (loops_completed >= required_loops(looping)) == !keeps_looping(looping, loops_completed),
{
}

/// The edge on the other side of the segment: the first frame and the last
/// frame trade places, and so do the two ways of wrapping around.
pub open spec fn mirrored(placement: FramePlacement) -> FramePlacement {
    match placement {
        FramePlacement::Unchanged => FramePlacement::Unchanged,
        FramePlacement::Start => FramePlacement::End,
        FramePlacement::End => FramePlacement::Start,
        FramePlacement::WrapFromStart => FramePlacement::WrapFromEnd,
        FramePlacement::WrapFromEnd => FramePlacement::WrapFromStart,
    }
}

/// The two edges of a segment are handled alike: leaving it before its
/// first frame counts loops, flips the bounce direction and starts an
/// intermission exactly as leaving it past its last frame does, and puts the
/// frame on the mirrored place.
pub proof fn lemma_edges_mirror(
    looping: PlaybackLoopBehavior,
    play_mode: PlaybackPlayMode,
    has_intermission: bool,
    loops_completed: usize,
)
    ensures
        ({
            let past = boundary_step_spec(
                Overshoot::PastEnd,
                looping,
                play_mode,
                has_intermission,
                loops_completed,
            );
            let before = boundary_step_spec(
                Overshoot::BeforeStart,
                looping,
                play_mode,
                has_intermission,
                loops_completed,
            );
            &&& before.loops_completed == past.loops_completed
            &&& before.flip_direction == past.flip_direction
            &&& before.start_intermission == past.start_intermission
            &&& before.placement == mirrored(past.placement)
        }),
{
}

/// When the playhead leaves its segment while another loop is owed and an
/// intermission is set, one more loop is counted, the intermission starts,
/// and the frame holds the edge that was crossed, whichever edge it is.
pub proof fn lemma_intermission_holds_edge(
    overshoot: Overshoot,
    looping: PlaybackLoopBehavior,
    play_mode: PlaybackPlayMode,
    loops_completed: usize,
)
    requires
        overshoot != Overshoot::Within,
        keeps_looping(looping, loops_completed as nat),
        loops_completed < usize::MAX,
    ensures
        ({
            let step = boundary_step_spec(overshoot, looping, play_mode, true, loops_completed);
            &&& step.start_intermission
            &&& step.loops_completed == loops_completed + 1
            &&& step.placement == (if overshoot == Overshoot::PastEnd {
                FramePlacement::End
            } else {
                FramePlacement::Start
            })
        }),
{
}

/// In normal play mode without an intermission, a playhead that leaves its
/// segment while another loop is owed wraps around to the other edge,
/// counting one more loop and starting no intermission.
pub proof fn lemma_loop_wraps(
    overshoot: Overshoot,
    looping: PlaybackLoopBehavior,
    loops_completed: usize,
)
    requires
        overshoot != Overshoot::Within,
        keeps_looping(looping, loops_completed as nat),
        loops_completed < usize::MAX,
    ensures
        ({
            let step = boundary_step_spec(
                overshoot,
                looping,
                PlaybackPlayMode::Normal,
                false,
                loops_completed,
            );
            &&& !step.start_intermission
            &&& !step.flip_direction
            &&& step.loops_completed == loops_completed + 1
            &&& step.placement == (if overshoot == Overshoot::PastEnd {
                FramePlacement::WrapFromStart
            } else {
                FramePlacement::WrapFromEnd
            })
        }),
{
}

/// A playhead inside its segment is left as it is: no loop is counted,
/// nothing flips and no intermission starts.
pub proof fn lemma_within_keeps_frame(
    looping: PlaybackLoopBehavior,
    play_mode: PlaybackPlayMode,
    has_intermission: bool,
    loops_completed: usize,
)
    ensures
        boundary_step_spec(
            Overshoot::Within,
            looping,
            play_mode,
            has_intermission,
            loops_completed,
        ) == (BoundaryStep {
            loops_completed,
            flip_direction: false,
            start_intermission: false,
            placement: FramePlacement::Unchanged,
        }),
{
}

} // verus!
