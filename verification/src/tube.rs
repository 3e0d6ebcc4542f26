//! The agent: a coloured particle that walks the canvas one step per tick,
//! turning at random and turning back at the edges.

use crate::canvas::{flat_index, pixel_index, stamp, stamped, HEIGHT, WIDTH};
use crate::facing::{rotate, rotated, Facing, Rotate};
use crate::point::{Coords, Point, ONE};
use crate::random::{draw_between, draw_coin};
use rand::rngs::ThreadRng;
use vstd::prelude::*;

verus! {

/// The furthest from zero, in sub-pixel units, that either coordinate of a
/// newly made agent may lie.
pub const COORD_LIMIT: i64 = 1_000_000_000_000_000_000;

/// The largest distance, in sub-pixel units, that an agent may cover per tick.
pub const SPEED_LIMIT: i64 = 1_000_000_000_000_000_000;

/// The mathematical value of a [`Tube`]: everything about the agent but its
/// source of chance.
pub struct TubeState {
    /// Distance covered per tick, in sub-pixel units.
    pub speed: int,
    /// Current heading.
    pub direction: Facing,
    /// Where the agent is.
    pub current_pos: Coords,
    /// Where the agent was before its latest move.
    pub last_pos: Coords,
    /// Probability of attempting a turn on a tick, as a fraction of [`ONE`].
    pub turn_chance: int,
    /// The four bytes (red, green, blue, alpha) of the trail.
    pub colour: Seq<u8>,
}

/// The heading after the boundary rule has looked at an agent heading
/// `direction` at `position`: an agent heading for an edge that it has
/// reached or passed is turned to face the other way. Only the edge that the
/// agent is heading for is looked at, and the four tests mirror one another:
/// less than one pixel from zero towards West or North, more than one pixel
/// short of the width or height towards East or South.
pub open spec fn bounced(direction: Facing, position: Coords) -> Facing {
    match direction {
        Facing::W => if position.x < ONE {
            Facing::E
        } else {
            Facing::W
        },
        Facing::E => if position.x > (WIDTH - 1) * ONE {
            Facing::W
        } else {
            Facing::E
        },
        Facing::N => if position.y < ONE {
            Facing::S
        } else {
            Facing::N
        },
        Facing::S => if position.y > (HEIGHT - 1) * ONE {
            Facing::N
        } else {
            Facing::S
        },
    }
}

/// Whether an agent heading `direction` at `position` is clear of the edge it
/// is heading for, so that the boundary rule leaves it alone.
pub open spec fn clear_of_edge(direction: Facing, position: Coords) -> bool {
    match direction {
        Facing::W => position.x >= ONE,
        Facing::E => position.x <= (WIDTH - 1) * ONE,
        Facing::N => position.y >= ONE,
        Facing::S => position.y <= (HEIGHT - 1) * ONE,
    }
}

impl TubeState {
    /// The position one step of length `speed` further along the heading.
    /// North is towards smaller `y`, West towards smaller `x`.
    pub open spec fn displaced(self) -> Coords {
        match self.direction {
            Facing::N => Coords { x: self.current_pos.x, y: self.current_pos.y - self.speed },
            Facing::S => Coords { x: self.current_pos.x, y: self.current_pos.y + self.speed },
            Facing::E => Coords { x: self.current_pos.x + self.speed, y: self.current_pos.y },
            Facing::W => Coords { x: self.current_pos.x - self.speed, y: self.current_pos.y },
        }
    }

    /// The agent after recording where it stands as its last position.
    pub open spec fn remembered(self) -> TubeState {
        TubeState { last_pos: self.current_pos, ..self }
    }

    /// The agent after moving one step along its heading.
    pub open spec fn moved(self) -> TubeState {
        TubeState { current_pos: self.displaced(), ..self }
    }

    /// Whether a roll, drawn uniformly from `0..ONE`, makes the agent turn.
    pub open spec fn turns_on(self, roll: int) -> bool {
        roll < self.turn_chance
    }

    /// The agent after a turn attempt in which `roll` was drawn and, if the
    /// roll calls for a turn, the coin came up `left`.
    pub open spec fn turned(self, roll: int, left: bool) -> TubeState {
        if self.turns_on(roll) {
            TubeState {
                direction: rotated(
                    self.direction,
                    if left {
                        Rotate::L
                    } else {
                        Rotate::R
                    },
                ),
                ..self
            }
        } else {
            self
        }
    }

    /// The agent after the boundary rule.
    pub open spec fn corrected(self) -> TubeState {
        TubeState { direction: bounced(self.direction, self.current_pos), ..self }
    }

    /// The agent after one whole tick with the given draws: remember, move,
    /// attempt a turn, then apply the boundary rule.
    pub open spec fn stepped(self, roll: int, left: bool) -> TubeState {
        self.remembered().moved().turned(roll, left).corrected()
    }

    /// Whether `next` is where one tick can take the agent: where
    /// [`TubeState::stepped`] takes it for some roll in `0..ONE` and some coin.
    pub open spec fn steps_to(self, next: TubeState) -> bool {
        exists|roll: int, left: bool| 0 <= roll < ONE && next == #[trigger] self.stepped(roll, left)
    }

    /// The agent is not heading for an edge that it has reached or passed.
    pub open spec fn settled(self) -> bool {
        clear_of_edge(self.direction, self.current_pos)
    }

    /// The parameters are those of an agent, and the position is close enough
    /// to zero for one more step to be computed.
    pub open spec fn ranged(self) -> bool {
        &&& 0 < self.speed <= SPEED_LIMIT
        &&& 0 <= self.turn_chance <= ONE
        &&& self.colour.len() == 4
        &&& self.current_pos.within(COORD_LIMIT + self.speed)
    }

    /// Well-formedness: the agent is in range, and either it is not heading
    /// for an edge that it has passed or it has room for the one step that
    /// such a heading can take it further out.
    pub open spec fn wf(self) -> bool {
        &&& self.ranged()
        &&& self.settled() || self.current_pos.within(COORD_LIMIT as int)
    }

    /// The agent stands on the canvas, edges included.
    pub open spec fn on_canvas(self) -> bool {
        &&& 0 <= self.current_pos.x <= WIDTH * ONE
        &&& 0 <= self.current_pos.y <= HEIGHT * ONE
    }

    /// The agent stands no further than one step outside the canvas.
    pub open spec fn near_canvas(self) -> bool {
        &&& -self.speed <= self.current_pos.x <= WIDTH * ONE + self.speed
        &&& -self.speed <= self.current_pos.y <= HEIGHT * ONE + self.speed
    }

    /// The flat pixel index at which the agent is drawn.
    pub open spec fn pixel(self) -> int {
        flat_index(self.current_pos)
    }
}

/// One agent. The public fields can be read and set freely; the operations
/// that compute with them ask for [`TubeState::wf`].
pub struct Tube {
    /// Distance covered per tick, in sub-pixel units. Positive.
    pub speed: i64,
    /// Current heading.
    pub direction: Facing,
    /// Where the agent is.
    pub current_pos: Point,
    /// Where the agent was before its latest move.
    pub last_pos: Point,
    /// Probability of attempting a turn on a tick, as a fraction of [`ONE`].
    pub turn_chance: i64,
    /// The four bytes (red, green, blue, alpha) of the trail.
    pub colour: [u8; 4],
    /// The agent's own handle to the calling thread's generator. The view
    /// leaves it out: nothing is known of what it will yield.
    pub rng: ThreadRng,
}

impl View for Tube {
    type V = TubeState;

    open spec fn view(&self) -> TubeState {
        TubeState {
            speed: self.speed as int,
            direction: self.direction,
            current_pos: self.current_pos@,
            last_pos: self.last_pos@,
            turn_chance: self.turn_chance as int,
            colour: self.colour@,
        }
    }
}

impl Tube {
    /// Whether the arguments describe an agent that [`Tube::new`] can make: a
    /// positive speed and a turn chance between zero and [`ONE`], with speed
    /// and starting position inside the limits of the representation.
    pub open spec fn valid_start(speed: i64, current_pos: Point, turn_chance: i64) -> bool {
        &&& 0 < speed <= SPEED_LIMIT
        &&& 0 <= turn_chance <= ONE
        &&& current_pos@.within(COORD_LIMIT as int)
    }

    /// A new agent that has not moved yet: its last position is its starting
    /// position. It draws from the calling thread's generator.
    pub fn new(
        speed: i64,
        direction: Facing,
        current_pos: Point,
        turn_chance: i64,
        colour: [u8; 4],
    ) -> (tube: Tube)
        requires
            Tube::valid_start(speed, current_pos, turn_chance),
        ensures
            tube@ == (TubeState {
                speed: speed as int,
                direction,
                current_pos: current_pos@,
                last_pos: current_pos@,
                turn_chance: turn_chance as int,
                colour: colour@,
            }),
            tube@.wf(),
    {
        Tube {
            speed,
            direction,
            current_pos,
            turn_chance,
            last_pos: current_pos,
            rng: rand::thread_rng(),
            colour,
        }
    }

    /// Makes the agent that [`Tube::new`] would make, or nothing when the
    /// arguments do not describe one.
    pub fn try_new(
        speed: i64,
        direction: Facing,
        current_pos: Point,
        turn_chance: i64,
        colour: [u8; 4],
    ) -> (made: Option<Tube>)
        ensures
            made is Some <==> Tube::valid_start(speed, current_pos, turn_chance),
            made matches Some(tube) ==> tube@.wf() && tube@ == (TubeState {
                speed: speed as int,
                direction,
                current_pos: current_pos@,
                last_pos: current_pos@,
                turn_chance: turn_chance as int,
                colour: colour@,
            }),
    {
        if 0 < speed && speed <= SPEED_LIMIT && 0 <= turn_chance && turn_chance <= ONE
            && -COORD_LIMIT <= current_pos.x && current_pos.x <= COORD_LIMIT && -COORD_LIMIT
            <= current_pos.y && current_pos.y <= COORD_LIMIT {
            Some(Tube::new(speed, direction, current_pos, turn_chance, colour))
        } else {
            None
        }
    }

    /// Whether the agent is well-formed. An agent that was made by
    /// [`Tube::new`] and only ever changed by its own operations always is.
    pub fn is_wf(&self) -> (ok: bool)
        ensures
            ok == self@.wf(),
    {
        if !(0 < self.speed && self.speed <= SPEED_LIMIT && 0 <= self.turn_chance
            && self.turn_chance <= ONE) {
            return false;
        }
        let reach: i64 = COORD_LIMIT + self.speed;
        let x: i64 = self.current_pos.x;
        let y: i64 = self.current_pos.y;
        if !(-reach <= x && x <= reach && -reach <= y && y <= reach) {
            return false;
        }
        let clear: bool = match self.direction {
            Facing::W => x >= ONE,
            Facing::E => x <= (WIDTH as i64 - 1) * ONE,
            Facing::N => y >= ONE,
            Facing::S => y <= (HEIGHT as i64 - 1) * ONE,
        };
        clear || (-COORD_LIMIT <= x && x <= COORD_LIMIT && -COORD_LIMIT <= y && y <= COORD_LIMIT)
    }

    /// Moves the agent by its speed along its heading. The position is not
    /// held back at the edges of the canvas, and nothing is drawn.
    pub fn move_forward(&mut self)
        requires
            old(self)@.displaced().representable(),
        ensures
            final(self)@ == old(self)@.moved(),
            final(self).rng == old(self).rng,
    {
        match self.direction {
            Facing::N => self.current_pos.y = self.current_pos.y - self.speed,
            Facing::S => self.current_pos.y = self.current_pos.y + self.speed,
            Facing::E => self.current_pos.x = self.current_pos.x + self.speed,
            Facing::W => self.current_pos.x = self.current_pos.x - self.speed,
        };
    }

    /// Applies the outcome of a turn attempt: if `roll` is below the turn
    /// chance, the agent turns by a quarter, to the left if `left` and to the
    /// right otherwise; else nothing changes. Nothing is drawn.
    pub fn turn_with(&mut self, roll: i64, left: bool)
        ensures
            final(self)@ == old(self)@.turned(roll as int, left),
            final(self).rng == old(self).rng,
    {
        if roll < self.turn_chance {
            self.direction = rotate(
                self.direction,
                if left {
                    Rotate::L
                } else {
                    Rotate::R
                },
            );
        }
    }

    /// Draws a roll uniformly from `0..ONE` and, if it is below the turn
    /// chance, a coin for the side, then turns accordingly.
    ///
    /// Whatever is drawn, only the heading can change. A turn chance of zero
    /// never turns; a turn chance of [`ONE`] always does.
    pub fn attempt_turn(&mut self)
        ensures
            exists|roll: int, left: bool|
                0 <= roll < ONE && final(self)@ == #[trigger] old(self)@.turned(roll, left),
            old(self).turn_chance <= 0 ==> final(self)@ == old(self)@,
            old(self).turn_chance >= ONE ==> final(self).direction != old(self).direction,
    {
        let roll: i64 = draw_between(&mut self.rng, 0, ONE);
        if roll < self.turn_chance {
            let left: bool = draw_coin(&mut self.rng);
            self.turn_with(roll, left);
            assert(self@ == old(self)@.turned(roll as int, left));
        } else {
            assert(self@ == old(self)@.turned(roll as int, true));
        }
    }

    /// The boundary rule: an agent heading for an edge that it has reached or
    /// passed is turned to face the other way. The position is left as it is,
    /// and nothing is drawn.
    pub fn fix_out_of_bounds(&mut self)
        ensures
            final(self)@ == old(self)@.corrected(),
            final(self)@.settled(),
            final(self).rng == old(self).rng,
    {
        if self.current_pos.x < ONE && self.direction == Facing::W {
            self.direction = Facing::E;
        } else if self.current_pos.x > (WIDTH as i64 - 1) * ONE && self.direction == Facing::E {
            self.direction = Facing::W;
        } else if self.current_pos.y < ONE && self.direction == Facing::N {
            self.direction = Facing::S;
        } else if self.current_pos.y > (HEIGHT as i64 - 1) * ONE && self.direction == Facing::S {
            self.direction = Facing::N;
        }
    }

    /// One tick with the draws given: records the position, moves, applies the
    /// turn that `roll` and `left` call for, then the boundary rule. The
    /// agent's own generator is left alone.
    pub fn increment_with(&mut self, roll: i64, left: bool)
        requires
            old(self)@.wf(),
        ensures
            final(self)@ == old(self)@.stepped(roll as int, left),
            final(self)@.wf(),
            final(self).rng == old(self).rng,
    {
        proof {
            lemma_step_keeps_wf(self@, roll as int, left);
        }
        self.last_pos = self.current_pos;
        self.move_forward();
        self.turn_with(roll, left);
        self.fix_out_of_bounds();
    }

    /// One tick: records the position, moves, attempts a turn, then applies
    /// the boundary rule.
    ///
    /// The result is that of [`Tube::increment_with`] for some roll in
    /// `0..ONE` and some coin.
    pub fn increment(&mut self)
        requires
            old(self)@.wf(),
        ensures
            old(self)@.steps_to(final(self)@),
            final(self)@.wf(),
            final(self)@.last_pos == old(self)@.current_pos,
            final(self)@.current_pos == old(self)@.displaced(),
            old(self).turn_chance == 0 ==> final(self).direction == bounced(
                old(self).direction,
                old(self)@.displaced(),
            ),
            old(self).turn_chance == ONE ==> final(self).direction != old(self).direction,
    {
        self.last_pos = self.current_pos;
        proof {
            lemma_wf_can_move(old(self)@);
        }
        self.move_forward();
        let ghost before_turn = self@;
        self.attempt_turn();
        let ghost after_turn = self@;
        self.fix_out_of_bounds();
        proof {
            let (roll, left) = choose|roll: int, left: bool|
                0 <= roll < ONE && after_turn == #[trigger] before_turn.turned(roll, left);
            assert(self@ == old(self)@.stepped(roll, left));
            lemma_step_keeps_wf(old(self)@, roll, left);
        }
    }

    /// Stamps the agent's colour into the pixel of `frame` that holds its
    /// current position. Nothing is written when the buffer does not hold
    /// that pixel; the agent itself is only read.
    pub fn draw(&self, frame: &mut [u8])
        ensures
            final(frame)@ == stamped(old(frame)@, self@.pixel(), self@.colour),
    {
        let index: i64 = pixel_index(&self.current_pos);
        stamp(frame, index, &self.colour);
    }
}

/// A well-formed agent has room for its next move.
pub proof fn lemma_wf_can_move(state: TubeState)
    requires
        state.wf(),
    ensures
        state.displaced().representable(),
        state.remembered().displaced().representable(),
        state.displaced().within(COORD_LIMIT + state.speed),
{
}

/// The boundary rule leaves every agent clear of the edge it is heading for,
/// and leaves alone every agent that already is.
pub proof fn lemma_corrected_is_settled(state: TubeState)
    ensures
        state.corrected().settled(),
        state.settled() ==> state.corrected() == state,
        state.corrected().corrected() == state.corrected(),
{
}

/// With a turn chance of zero no roll calls for a turn: the turn attempt
/// changes nothing, and a tick changes the heading only by the boundary rule.
pub proof fn lemma_zero_chance_never_turns(state: TubeState, roll: int, left: bool)
    requires
        state.turn_chance == 0,
        0 <= roll < ONE,
    ensures
        state.turned(roll, left) == state,
        state.stepped(roll, left) == state.remembered().moved().corrected(),
        state.stepped(roll, left).direction == bounced(state.direction, state.displaced()),
{
}

/// With a turn chance of [`ONE`] every roll calls for a turn: the turn attempt
/// always yields a quarter turn, and the boundary rule that follows can
/// reverse the new heading but never restore the old one.
pub proof fn lemma_full_chance_always_turns(state: TubeState, roll: int, left: bool)
    requires
        state.turn_chance == ONE,
        0 <= roll < ONE,
    ensures
        state.turns_on(roll),
        state.turned(roll, left).direction == rotated(
            state.direction,
            if left {
                Rotate::L
            } else {
                Rotate::R
            },
        ),
        state.turned(roll, left).direction != state.direction,
        state.stepped(roll, left).direction != state.direction,
        state.stepped(roll, left).direction != state.direction.reversed(),
{
}

/// On a tick without a turn, an agent that its move has taken to or past the
/// edge it is heading for comes out heading the other way: West becomes East
/// where `x` is below one pixel, East becomes West where `x` is above the
/// width less one pixel, North becomes South where `y` is below one pixel,
/// South becomes North where `y` is above the height less one pixel. In
/// particular an agent heading West from `x == 0` comes out heading East, and
/// likewise at the far edge and at the top and bottom.
pub proof fn lemma_step_bounces_off_edges(state: TubeState, roll: int, left: bool)
    requires
        !state.turns_on(roll),
    ensures
        state.stepped(roll, left).direction == bounced(state.direction, state.displaced()),
        state.direction == Facing::W && state.current_pos.x - state.speed < ONE ==> state.stepped(
            roll,
            left,
        ).direction == Facing::E,
        state.direction == Facing::E && state.current_pos.x + state.speed > (WIDTH - 1) * ONE
            ==> state.stepped(roll, left).direction == Facing::W,
        state.direction == Facing::N && state.current_pos.y - state.speed < ONE ==> state.stepped(
            roll,
            left,
        ).direction == Facing::S,
        state.direction == Facing::S && state.current_pos.y + state.speed > (HEIGHT - 1) * ONE
            ==> state.stepped(roll, left).direction == Facing::N,
        state.speed > 0 ==> {
            &&& state.direction == Facing::W && state.current_pos.x == 0 ==> state.stepped(
                roll,
                left,
            ).direction == Facing::E
            &&& state.direction == Facing::E && state.current_pos.x == WIDTH * ONE
                ==> state.stepped(roll, left).direction == Facing::W
            &&& state.direction == Facing::N && state.current_pos.y == 0 ==> state.stepped(
                roll,
                left,
            ).direction == Facing::S
            &&& state.direction == Facing::S && state.current_pos.y == HEIGHT * ONE
                ==> state.stepped(roll, left).direction == Facing::N
        },
{
}

/// The boundary rule keeps the walk near the canvas: an agent that is clear
/// of the edge it is heading for, and no further than one step outside the
/// canvas, is so again after a tick, whatever is drawn; and an agent on the
/// canvas is no further than one step outside it after a tick.
pub proof fn lemma_walk_stays_near_canvas(state: TubeState, roll: int, left: bool)
    requires
        state.speed > 0,
    ensures
        state.settled() && state.near_canvas() ==> state.stepped(roll, left).near_canvas(),
        state.on_canvas() ==> state.stepped(roll, left).near_canvas(),
        state.stepped(roll, left).settled(),
{
}

/// Well-formedness is an invariant of the walk: whatever is drawn, a tick
/// takes a well-formed agent to a well-formed agent.
pub proof fn lemma_step_keeps_wf(state: TubeState, roll: int, left: bool)
    requires
        state.wf(),
    ensures
        state.stepped(roll, left).wf(),
        state.stepped(roll, left).settled(),
{
}

} // verus!
