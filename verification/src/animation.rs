//! Directional animation state machine.
//!
//! A character sprite sheet holds 16 frames laid out as 4 rows of 4:
//! one 4-frame block per facing direction. The state machine tracks
//! which block is active, which frame within it is displayed, and how
//! much time has accumulated toward the next frame advance.
//!
//! Time is measured in integer ticks of whatever resolution the caller
//! chooses (the hosting runtime typically converts float seconds to
//! microseconds before calling in).

use vstd::prelude::*;

verus! {

/// Facing direction of a character sprite.
#[derive(Clone, Copy, PartialEq, Eq, Structural, Debug)]
pub enum Direction {
    South,
    West,
    East,
    North,
}

/// First frame index of the 4-frame block belonging to a direction.
pub open spec fn spec_first_index(d: Direction) -> usize {
    match d {
        Direction::South => 0usize,
        Direction::West => 4usize,
        Direction::East => 8usize,
        Direction::North => 12usize,
    }
}

/// Last frame index of the block: always three past the first.
pub open spec fn spec_last_index(d: Direction) -> usize {
    (spec_first_index(d) + 3) as usize
}

impl Direction {
    /// First frame index of this direction's block.
    pub fn first_index(&self) -> (r: usize)
        ensures
            r == spec_first_index(*self),
    {
        match self {
            Direction::South => 0,
            Direction::West => 4,
            Direction::East => 8,
            Direction::North => 12,
        }
    }

    /// Last frame index of this direction's block.
    pub fn last_index(&self) -> (r: usize)
        ensures
            r == spec_last_index(*self),
    {
        self.first_index() + 3
    }
}

/// The direction whose frame block covers sheet index `i`, for `i` in
/// `[0, 15]`.
pub open spec fn covering_direction(i: int) -> Direction {
    if i <= 3 {
        Direction::South
    } else if i <= 7 {
        Direction::West
    } else if i <= 11 {
        Direction::East
    } else {
        Direction::North
    }
}

/// The four direction blocks tile the 16-frame sheet exactly: each
/// block ends three frames after it begins, blocks of distinct
/// directions are disjoint, and every frame index in `[0, 15]` lies in
/// the block of its covering direction.
pub proof fn lemma_direction_blocks_partition()
    ensures
        forall|d: Direction| #[trigger] spec_last_index(d) == spec_first_index(d) + 3,
        forall|d1: Direction, d2: Direction|
            #![trigger spec_last_index(d1), spec_last_index(d2)]
            d1 != d2 ==> spec_last_index(d1) < spec_first_index(d2)
                || spec_last_index(d2) < spec_first_index(d1),
        forall|i: int|
            0 <= i <= 15 ==> spec_first_index(#[trigger] covering_direction(i)) <= i
                <= spec_last_index(covering_direction(i)),
{
}

/// The bounds of the frame block currently animated, together with the
/// direction they were derived from.
pub struct AnimationIndices {
    pub first: usize,
    pub last: usize,
    pub direction: Direction,
}

impl AnimationIndices {
    /// The bounds agree with the fixed direction-to-block table.
    pub open spec fn wf(self) -> bool {
        &&& self.first == spec_first_index(self.direction)
        &&& self.last == spec_last_index(self.direction)
    }

    /// Block bounds for a given facing direction.
    pub fn from_direction(direction: Direction) -> (r: Self)
        ensures
            r.direction == direction,
            r.wf(),
    {
        Self { first: direction.first_index(), last: direction.last_index(), direction }
    }

    /// Switch the active block to `dir`. Returns whether anything
    /// changed; on a request for the direction already active, the
    /// state is left untouched.
    pub fn change_direction(&mut self, dir: Direction) -> (changed: bool)
        ensures
            changed == (old(self).direction != dir),
            old(self).direction == dir ==> *final(self) == *old(self),
            old(self).direction != dir ==> final(self).direction == dir && final(self).wf(),
    {
        if self.direction == dir {
            return false;
        }

        self.direction = dir;
        self.first = self.direction.first_index();
        self.last = self.direction.last_index();

        true
    }
}

/// The frame shown after one advance: one past `frame`, wrapping from
/// `last` back to `first`.
pub open spec fn step_frame(first: nat, last: nat, frame: nat) -> nat {
    if frame == last {
        first
    } else {
        frame + 1
    }
}

/// Displayed frame and leftover elapsed time after draining an
/// accumulated `elapsed` against the frame cadence: while a full
/// `frame_duration` is available, it is subtracted and the frame
/// advances once.
pub open spec fn run_tick(first: nat, last: nat, frame: nat, elapsed: nat, frame_duration: nat) -> (
    nat,
    nat,
)
    decreases elapsed,
{
    if frame_duration > 0 && elapsed >= frame_duration {
        run_tick(
            first,
            last,
            step_frame(first, last, frame),
            (elapsed - frame_duration) as nat,
            frame_duration,
        )
    } else {
        (frame, elapsed)
    }
}

/// Full per-character animation state: the active frame block plus the
/// displayed frame and the time accumulated toward the next advance.
///
/// Time is in integer ticks; `frame_duration` below is in the same
/// unit.
pub struct AnimationState {
    pub indices: AnimationIndices,
    pub current_frame: usize,
    pub elapsed: u64,
}

impl AnimationState {
    /// The block bounds follow the direction table and the displayed
    /// frame lies inside the active block.
    pub open spec fn wf(self) -> bool {
        &&& self.indices.wf()
        &&& self.indices.first <= self.current_frame <= self.indices.last
    }

    /// Fresh state for a character spawned facing `direction`: the
    /// block's first pose is displayed and no time has accumulated.
    pub fn new(direction: Direction) -> (r: Self)
        ensures
            r.wf(),
            r.indices.direction == direction,
            r.current_frame == spec_first_index(direction),
            r.elapsed == 0,
    {
        let indices = AnimationIndices::from_direction(direction);
        let current_frame = indices.first;
        Self { indices, current_frame, elapsed: 0 }
    }

    /// Request a facing direction. A request for the direction already
    /// active changes nothing and returns false; any other request
    /// switches the block, resets the displayed frame to the new
    /// block's first pose, keeps the accumulated time, and returns
    /// true.
    pub fn request_direction(&mut self, dir: Direction) -> (changed: bool)
        ensures
            changed == (old(self).indices.direction != dir),
            !changed ==> *final(self) == *old(self),
            changed ==> final(self).indices.direction == dir && final(self).wf()
                && final(self).current_frame == spec_first_index(dir) && final(self).elapsed == old(
                self,
            ).elapsed,
    {
        if self.indices.change_direction(dir) {
            self.current_frame = self.indices.first;
            true
        } else {
            false
        }
    }

    /// Accumulate `delta` time ticks and advance the displayed frame
    /// once per full `frame_duration` available, wrapping from the last
    /// frame of the block to the first. No time is dropped: what does
    /// not amount to a full frame stays accumulated.
    pub fn tick(&mut self, delta: u64, frame_duration: u64)
        requires
            old(self).wf(),
            frame_duration > 0,
            old(self).elapsed + delta <= u64::MAX,
        ensures
            final(self).wf(),
            final(self).indices == old(self).indices,
            final(self).elapsed < frame_duration,
            (final(self).current_frame as nat, final(self).elapsed as nat) == run_tick(
                old(self).indices.first as nat,
                old(self).indices.last as nat,
                old(self).current_frame as nat,
                old(self).elapsed as nat + delta as nat,
                frame_duration as nat,
            ),
    {
        let ghost first = old(self).indices.first as nat;
        let ghost last = old(self).indices.last as nat;
        let ghost total = old(self).elapsed as nat + delta as nat;
        let ghost fd = frame_duration as nat;

        self.elapsed = self.elapsed + delta;
        while self.elapsed >= frame_duration
            invariant
                self.wf(),
                self.indices == old(self).indices,
                frame_duration > 0,
                first == old(self).indices.first as nat,
                last == old(self).indices.last as nat,
                fd == frame_duration as nat,
                run_tick(first, last, self.current_frame as nat, self.elapsed as nat, fd)
                    == run_tick(first, last, old(self).current_frame as nat, total, fd),
            decreases self.elapsed,
        {
            let ghost frame0 = self.current_frame as nat;
            let ghost elapsed0 = self.elapsed as nat;
            self.elapsed = self.elapsed - frame_duration;
            self.current_frame = if self.current_frame == self.indices.last {
                self.indices.first
            } else {
                self.current_frame + 1
            };
            proof {
                assert(self.current_frame as nat == step_frame(first, last, frame0));
                assert(run_tick(first, last, frame0, elapsed0, fd) == run_tick(
                    first,
                    last,
                    step_frame(first, last, frame0),
                    (elapsed0 - fd) as nat,
                    fd,
                ));
            }
        }
    }
}

/// Sum of a sequence of time deltas.
pub open spec fn sum_deltas(deltas: Seq<nat>) -> nat
    decreases deltas.len(),
{
    if deltas.len() == 0 {
        0
    } else {
        deltas[0] + sum_deltas(deltas.drop_first())
    }
}

/// State after a run of ticks, one per delta in order, starting from
/// `frame` with `elapsed` already accumulated.
pub open spec fn run_ticks(
    first: nat,
    last: nat,
    frame: nat,
    elapsed: nat,
    deltas: Seq<nat>,
    frame_duration: nat,
) -> (nat, nat)
    decreases deltas.len(),
{
    if deltas.len() == 0 {
        (frame, elapsed)
    } else {
        let s = run_tick(first, last, frame, elapsed + deltas[0], frame_duration);
        run_ticks(first, last, s.0, s.1, deltas.drop_first(), frame_duration)
    }
}

/// Draining leaves less than one frame duration accumulated.
proof fn lemma_run_tick_elapsed_below(first: nat, last: nat, frame: nat, elapsed: nat, fd: nat)
    requires
        fd > 0,
    ensures
        run_tick(first, last, frame, elapsed, fd).1 < fd,
    decreases elapsed,
{
    if elapsed >= fd {
        lemma_run_tick_elapsed_below(first, last, step_frame(first, last, frame), (elapsed - fd) as nat, fd);
    }
}

/// Draining time in two installments is the same as draining it at
/// once: adding `delta` after a drain and draining again ends where a
/// single drain of the combined time ends.
proof fn lemma_run_tick_accumulate(
    first: nat,
    last: nat,
    frame: nat,
    elapsed: nat,
    delta: nat,
    fd: nat,
)
    ensures
        run_tick(
            first,
            last,
            run_tick(first, last, frame, elapsed, fd).0,
            run_tick(first, last, frame, elapsed, fd).1 + delta,
            fd,
        ) == run_tick(first, last, frame, elapsed + delta, fd),
    decreases elapsed,
{
    if fd > 0 && elapsed >= fd {
        lemma_run_tick_accumulate(
            first,
            last,
            step_frame(first, last, frame),
            (elapsed - fd) as nat,
            delta,
            fd,
        );
    }
}

/// A run of ticks drains exactly the total of its deltas: feeding the
/// deltas one at a time ends in the same state as feeding their sum in
/// one call, so no time is ever dropped between ticks.
pub proof fn lemma_run_ticks_totals(
    first: nat,
    last: nat,
    frame: nat,
    elapsed: nat,
    deltas: Seq<nat>,
    fd: nat,
)
    requires
        fd > 0,
        elapsed < fd,
    ensures
        run_ticks(first, last, frame, elapsed, deltas, fd) == run_tick(
            first,
            last,
            frame,
            elapsed + sum_deltas(deltas),
            fd,
        ),
    decreases deltas.len(),
{
    if deltas.len() == 0 {
        assert(run_tick(first, last, frame, elapsed, fd) == (frame, elapsed));
    } else {
        let s = run_tick(first, last, frame, elapsed + deltas[0], fd);
        lemma_run_tick_elapsed_below(first, last, frame, elapsed + deltas[0], fd);
        lemma_run_ticks_totals(first, last, s.0, s.1, deltas.drop_first(), fd);
        lemma_run_tick_accumulate(
            first,
            last,
            frame,
            elapsed + deltas[0],
            sum_deltas(deltas.drop_first()),
            fd,
        );
    }
}

/// Ticks whose deltas sum to exactly one frame duration, starting with
/// nothing accumulated, advance the displayed frame by exactly one step
/// (wrapping from the block's last frame to its first) and end with
/// nothing accumulated again.
pub proof fn lemma_one_period_advances_one_frame(
    first: nat,
    last: nat,
    frame: nat,
    deltas: Seq<nat>,
    fd: nat,
)
    requires
        fd > 0,
        sum_deltas(deltas) == fd,
    ensures
        run_ticks(first, last, frame, 0, deltas, fd) == (step_frame(first, last, frame), 0nat),
{
    lemma_run_ticks_totals(first, last, frame, 0, deltas, fd);
    assert(run_tick(first, last, frame, fd, fd) == run_tick(
        first,
        last,
        step_frame(first, last, frame),
        0,
        fd,
    ));
}

} // verus!
