//! The game state machine: phases, the tick engine and the direction
//! controller, together with the spec-level model they are proved against.

use vstd::prelude::*;

verus! {

/// A direction of travel on the grid, one of the four axis-aligned moves.
#[derive(Clone, Copy, Debug, PartialEq, Eq, Structural)]
pub enum Direction {
    Up,
    Down,
    Left,
    Right,
}

/// A grid cell, as an `(x, y)` pair of integer coordinates.
#[derive(Clone, Copy, Debug, PartialEq, Eq, Structural)]
pub struct Position(pub i32, pub i32);

/// The segment chain, head first: index 0 is the head.
pub type Snake = Vec<Position>;

/// The mutable data of an active round.
#[derive(Debug)]
pub struct RunningState {
    pub direction: Direction,
    pub snake: Snake,
    pub marker: Option<Position>,
    pub collected: i32,
}

/// The top-level game phase.
#[derive(Debug)]
pub enum Game {
    NotStarted,
    Running(RunningState),
    Finished(i32),
}

/// Controls the tick rate and, through `GAME_LEVEL * 5`, the marker
/// respawn timeout in ticks.
pub const GAME_LEVEL: i32 = 15;

/// Side length of the square grid, in cells.
pub const GRID_SIZE: i32 = 32;

/// Whether a position lies on the grid: both coordinates in `0 .. GRID_SIZE`.
pub open spec fn pos_in_bounds(p: Position) -> bool {
    &&& 0 <= p.0 < GRID_SIZE
    &&& 0 <= p.1 < GRID_SIZE
}

/// The cell one step from `p` in direction `d`.
pub open spec fn stepped(p: Position, d: Direction) -> Position {
    match d {
        Direction::Up => Position(p.0, (p.1 - 1) as i32),
        Direction::Down => Position(p.0, (p.1 + 1) as i32),
        Direction::Left => Position((p.0 - 1) as i32, p.1),
        Direction::Right => Position((p.0 + 1) as i32, p.1),
    }
}

impl RunningState {
    /// Well-formedness of an active round: every chain segment lies on the grid.
    pub open spec fn wf(&self) -> bool {
        forall|i: int| 0 <= i < self.snake@.len() ==> pos_in_bounds(#[trigger] self.snake@[i])
    }
}

/// The candidate new head of a tick: one step from the current head.
pub open spec fn tick_head(st: RunningState) -> Position {
    stepped(st.snake@[0], st.direction)
}

/// Whether a tick collects the marker: a marker is present and sits exactly
/// on the candidate new head.
pub open spec fn tick_collects(st: RunningState) -> bool {
    &&& st.snake@.len() > 0
    &&& st.marker matches Some(m) && m == tick_head(st)
}

/// The chain after tail adjustment: kept whole when the marker is collected
/// (the chain grows), otherwise the tail segment is dropped.
pub open spec fn tick_adjusted(st: RunningState) -> Seq<Position> {
    if tick_collects(st) {
        st.snake@
    } else {
        st.snake@.drop_last()
    }
}

/// The chain after a tick: the candidate head prepended to the tail-adjusted
/// chain. An empty chain (impossible in a well-formed round) reseeds a single
/// segment at the origin.
pub open spec fn tick_chain(st: RunningState) -> Seq<Position> {
    if st.snake@.len() == 0 {
        seq![Position(0, 0)]
    } else {
        seq![tick_head(st)] + tick_adjusted(st)
    }
}

/// Whether a tick collides: the candidate head lies off the grid, or on some
/// segment of the tail-adjusted chain.
pub open spec fn tick_collision(st: RunningState) -> bool {
    &&& st.snake@.len() > 0
    &&& (tick_adjusted(st).contains(tick_head(st)) || !pos_in_bounds(tick_head(st)))
}

/// The score after a tick: exactly one more than before when the marker was
/// collected, unchanged otherwise.
pub open spec fn tick_score(st: RunningState) -> int {
    st.collected + if tick_collects(st) {
        1int
    } else {
        0int
    }
}

/// Whether a tick spawns a marker: the marker was collected, or the
/// incremented spawn counter reaches the respawn timeout `GAME_LEVEL * 5`.
pub open spec fn tick_spawns(st: RunningState, counter: i32) -> bool {
    tick_collects(st) || (counter + 1) % (GAME_LEVEL * 5) == 0
}

/// Whether the chain occupies every cell of the grid, leaving no room for
/// a marker.
pub open spec fn grid_full(chain: Seq<Position>) -> bool {
    forall|p: Position| pos_in_bounds(p) ==> chain.contains(p)
}

/// The fixed chain a round starts from: seven segments in a vertical line,
/// head at `(10, 10)`.
pub open spec fn initial_chain() -> Seq<Position> {
    seq![
        Position(10, 10),
        Position(10, 11),
        Position(10, 12),
        Position(10, 13),
        Position(10, 14),
        Position(10, 15),
        Position(10, 16),
    ]
}

/// Whether the chain occupies the cell `p`.
pub fn snake_contains(snake: &Snake, p: Position) -> (r: bool)
    ensures
        r == snake@.contains(p),
{
    let mut i: usize = 0;
    while i < snake.len()
        invariant
            i <= snake@.len(),
            forall|j: int| 0 <= j < i ==> snake@[j] != p,
        decreases snake@.len() - i,
    {
        if snake[i] == p {
            return true;
        }
        i += 1;
    }
    false
}

/// Create a fresh game that has not been started yet.
pub fn new() -> (g: Game)
    ensures
        g is NotStarted,
{
    Game::NotStarted
}

impl Game {
    /// Start a fresh round from the fixed seed configuration: the initial
    /// chain, heading `Right`, no marker, score zero — whatever the current
    /// phase holds.
    pub fn start(&self) -> (g: Game)
        ensures
            g matches Game::Running(st)
                && st.direction == Direction::Right
                && st.snake@ == initial_chain()
                && st.marker is None
                && st.collected == 0
                && st.wf(),
    {
        let snake: Snake = vec![
            Position(10, 10),
            Position(10, 11),
            Position(10, 12),
            Position(10, 13),
            Position(10, 14),
            Position(10, 15),
            Position(10, 16),
        ];
        proof {
            assert(snake@ =~= initial_chain());
            assert(forall|i: int| 0 <= i < snake@.len() ==> pos_in_bounds(#[trigger] snake@[i]));
        }
        Game::Running(
            RunningState {
                direction: Direction::Right,
                snake,
                marker: None,
                collected: 0,
            },
        )
    }
}

/// Whether `position` lies outside the fixed square grid.
pub fn outside_boundary(position: &Position) -> (r: bool)
    ensures
        r == !pos_in_bounds(*position),
{
    let x = position.0;
    let y = position.1;
    x < 0 || x >= GRID_SIZE || y < 0 || y >= GRID_SIZE
}

/// Move `position` one grid unit in `direction`.
pub fn increment_position(position: &Position, direction: &Direction) -> (r: Position)
    requires
        direction is Up ==> position.1 > i32::MIN,
        direction is Down ==> position.1 < i32::MAX,
        direction is Left ==> position.0 > i32::MIN,
        direction is Right ==> position.0 < i32::MAX,
    ensures
        r == stepped(*position, *direction),
{
    match direction {
        Direction::Up => Position(position.0, position.1 - 1),
        Direction::Down => Position(position.0, position.1 + 1),
        Direction::Right => Position(position.0 + 1, position.1),
        Direction::Left => Position(position.0 - 1, position.1),
    }
}

/// One simulation step of the chain alone: the candidate next chain, whether
/// the marker was collected, and whether the move collides with the boundary
/// or the chain's own body.
pub fn update_snake(state: &RunningState) -> (r: (Snake, bool, bool))
    requires
        state.wf(),
    ensures
        r.0@ == tick_chain(*state),
        r.1 == tick_collects(*state),
        r.2 == tick_collision(*state),
{
    let n = state.snake.len();
    if n == 0 {
        let updated: Snake = vec![Position(0, 0)];
        proof {
            assert(updated@ =~= tick_chain(*state));
        }
        return (updated, false, false);
    }
    proof {
        assert(pos_in_bounds(state.snake@[0]));
    }
    let h0: Position = state.snake[0];
    let head = increment_position(&h0, &state.direction);
    let collected_marker = match &state.marker {
        Some(m) => *m == head,
        None => false,
    };
    let keep: usize = if collected_marker {
        n
    } else {
        n - 1
    };
    let mut updated: Snake = Vec::new();
    updated.push(head);
    let mut hit = false;
    let mut i: usize = 0;
    while i < keep
        invariant
            i <= keep,
            keep <= state.snake@.len(),
            head == tick_head(*state),
            updated@ == seq![head] + state.snake@.subrange(0, i as int),
            hit == exists|j: int| 0 <= j < i && state.snake@[j] == head,
        decreases keep - i,
    {
        let seg: Position = state.snake[i];
        if seg == head {
            hit = true;
            proof {
                assert(state.snake@[i as int] == head);
            }
        }
        updated.push(seg);
        i += 1;
        proof {
            assert(updated@ =~= seq![head] + state.snake@.subrange(0, i as int));
        }
    }
    let collision = hit || outside_boundary(&head);
    proof {
        assert(state.snake@.subrange(0, keep as int) =~= tick_adjusted(*state));
        assert(updated@ =~= tick_chain(*state));
        assert(hit == tick_adjusted(*state).contains(head)) by {
            if hit {
                let j = choose|j: int| 0 <= j < keep && state.snake@[j] == head;
                assert(tick_adjusted(*state)[j] == head);
            } else {
                if tick_adjusted(*state).contains(head) {
                    let k = choose|k: int|
                        0 <= k < tick_adjusted(*state).len() && tick_adjusted(*state)[k] == head;
                    assert(state.snake@[k] == head);
                }
            }
        }
    }
    (updated, collected_marker, collision)
}

/// Law: movement is by exactly one grid unit — `Right` from `(x, y)` yields
/// `(x + 1, y)`, and analogously for the other three directions.
pub proof fn lemma_movement_deltas(p: Position)
    requires
        i32::MIN < p.0 < i32::MAX,
        i32::MIN < p.1 < i32::MAX,
    ensures
        stepped(p, Direction::Right).0 == p.0 + 1 && stepped(p, Direction::Right).1 == p.1,
        stepped(p, Direction::Left).0 == p.0 - 1 && stepped(p, Direction::Left).1 == p.1,
        stepped(p, Direction::Up).0 == p.0 && stepped(p, Direction::Up).1 == p.1 - 1,
        stepped(p, Direction::Down).0 == p.0 && stepped(p, Direction::Down).1 == p.1 + 1,
{
}

/// Law: a tick of a non-empty chain keeps the chain length unchanged when no
/// marker is collected, and grows it by exactly one when one is.
pub proof fn lemma_length_invariant(st: RunningState)
    requires
        st.snake@.len() > 0,
    ensures
        !tick_collects(st) ==> tick_chain(st).len() == st.snake@.len(),
        tick_collects(st) ==> tick_chain(st).len() == st.snake@.len() + 1,
{
}

/// Law: a candidate head off the grid — `x < 0`, `x >= GRID_SIZE`, `y < 0`
/// or `y >= GRID_SIZE` — always collides, so the tick ends the round.
pub proof fn lemma_boundary_collision(st: RunningState)
    requires
        st.snake@.len() > 0,
        !pos_in_bounds(tick_head(st)),
    ensures
        tick_collision(st),
{
}

/// Law: a candidate head equal to any segment of the tail-adjusted chain
/// collides, so the tick ends the round.
pub proof fn lemma_self_collision(st: RunningState, i: int)
    requires
        st.snake@.len() > 0,
        0 <= i < tick_adjusted(st).len(),
        tick_adjusted(st)[i] == tick_head(st),
    ensures
        tick_collision(st),
{
    assert(tick_adjusted(st).contains(tick_head(st)));
}

/// How many random cells are tried before the spawn falls back to scanning
/// the grid; bounds the rejection sampling so every spawn terminates.
const SPAWN_TRIES: u32 = 1024;

/// Relies on rand::random_range: a value drawn uniformly from the half-open
/// range `0 .. GRID_SIZE`.
#[verifier::external_body]
fn random_coord() -> (r: i32)
    ensures
        0 <= r < GRID_SIZE,
{
    rand::random_range(0..GRID_SIZE)
}

/// Choose a cell for a new marker: random cells are tried a bounded number of
/// times, then the grid is scanned in order; the result never lies on the
/// chain, and only a chain covering the whole grid yields `None`.
pub fn spawn_marker(snake: &Snake) -> (r: Option<Position>)
    ensures
        r matches Some(p) ==> pos_in_bounds(p) && !snake@.contains(p),
        r is None ==> grid_full(snake@),
{
    let mut tries: u32 = 0;
    while tries < SPAWN_TRIES
        invariant
            tries <= SPAWN_TRIES,
        decreases SPAWN_TRIES - tries,
    {
        let candidate = Position(random_coord(), random_coord());
        if !snake_contains(snake, candidate) {
            return Some(candidate);
        }
        tries += 1;
    }
    let mut x: i32 = 0;
    while x < GRID_SIZE
        invariant
            0 <= x <= GRID_SIZE,
            forall|a: i32, b: i32|
                0 <= a < x && 0 <= b < GRID_SIZE ==> #[trigger] snake@.contains(Position(a, b)),
        decreases GRID_SIZE - x,
    {
        let mut y: i32 = 0;
        while y < GRID_SIZE
            invariant
                0 <= x < GRID_SIZE,
                0 <= y <= GRID_SIZE,
                forall|a: i32, b: i32|
                    0 <= a < x && 0 <= b < GRID_SIZE ==> #[trigger] snake@.contains(Position(a, b)),
                forall|b: i32| 0 <= b < y ==> #[trigger] snake@.contains(Position(x, b)),
            decreases GRID_SIZE - y,
        {
            let candidate = Position(x, y);
            if !snake_contains(snake, candidate) {
                return Some(candidate);
            }
            y += 1;
        }
        x += 1;
    }
    proof {
        assert forall|p: Position| pos_in_bounds(p) implies snake@.contains(p) by {
            assert(snake@.contains(Position(p.0, p.1)));
        }
    }
    None
}

/// Whether `a` is the exact opposite of `b`.
pub open spec fn opposite(a: Direction, b: Direction) -> bool {
    match a {
        Direction::Up => b is Down,
        Direction::Down => b is Up,
        Direction::Left => b is Right,
        Direction::Right => b is Left,
    }
}

impl Game {
    /// Tick engine: one simulation step, threading the external spawn counter
    /// through. A round keeps running with the updated chain, marker and
    /// score, or ends with the final score on a collision — or on a chain
    /// that covers the whole grid when a marker should spawn. Ticking a phase
    /// that is not running only increments the counter.
    pub fn tick(self, counter: i32) -> (r: (Game, i32))
        requires
            0 <= counter < i32::MAX,
            self matches Game::Running(st) ==> st.wf() && st.collected < i32::MAX,
        ensures
            self is NotStarted ==> r.0 is NotStarted && r.1 == counter + 1,
            self matches Game::Finished(score) ==> r.0 == Game::Finished(score) && r.1 == counter
                + 1,
            self matches Game::Running(st) ==> {
                &&& !(r.0 is NotStarted)
                &&& r.1 == (if tick_spawns(st, counter) {
                    0int
                } else {
                    counter + 1
                })
                &&& (r.0 is Finished) == (tick_collision(st) || (tick_spawns(st, counter)
                    && grid_full(tick_chain(st))))
                &&& (r.0 matches Game::Finished(score) ==> score == tick_score(st))
                &&& (r.0 matches Game::Running(st2) ==> {
                    &&& st2.direction == st.direction
                    &&& st2.snake@ == tick_chain(st)
                    &&& st2.collected == tick_score(st)
                    &&& (tick_spawns(st, counter) ==> (st2.marker matches Some(m)
                        && pos_in_bounds(m) && !tick_chain(st).contains(m)))
                    &&& (!tick_spawns(st, counter) ==> st2.marker == st.marker)
                    &&& st2.wf()
                })
            },
    {
        let mut local_counter = counter + 1;
        match self {
            Game::NotStarted => (Game::NotStarted, local_counter),
            Game::Finished(score) => (Game::Finished(score), local_counter),
            Game::Running(mut state) => {
                let (snake, collected_marker, collision) = update_snake(&state);
                if collected_marker {
                    state.collected = state.collected + 1;
                }
                if collected_marker || local_counter % (GAME_LEVEL * 5) == 0 {
                    local_counter = 0;
                    match spawn_marker(&snake) {
                        Some(m) => {
                            state.marker = Some(m);
                        },
                        None => {
                            // The chain covers every cell: no marker can
                            // spawn, so the round ends as a full board.
                            return (Game::Finished(state.collected), 0);
                        },
                    }
                }
                state.snake = snake;
                if collision {
                    (Game::Finished(state.collected), local_counter)
                } else {
                    proof {
                        assert forall|i: int|
                            0 <= i < state.snake@.len() implies pos_in_bounds(
                            #[trigger] state.snake@[i],
                        ) by {
                        }
                    }
                    (Game::Running(state), local_counter)
                }
            },
        }
    }

    /// Direction controller: apply a requested direction to a running round.
    /// An exact reversal is silently rejected; any other request (including
    /// the current direction) replaces the direction. Phases that are not
    /// running, and empty requests, leave the game unchanged.
    pub fn change_direction(&mut self, direction: Option<Direction>)
        ensures
            !(*old(self) is Running) ==> *final(self) == *old(self),
            direction is None ==> *final(self) == *old(self),
            *old(self) matches Game::Running(st) ==> direction matches Some(d) ==> {
                if opposite(d, st.direction) {
                    *final(self) == *old(self)
                } else {
                    &&& *final(self) matches Game::Running(st2)
                    &&& st2.direction == d
                    &&& st2.snake == st.snake
                    &&& st2.marker == st.marker
                    &&& st2.collected == st.collected
                }
            },
    {
        match self {
            Game::Running(state) => {
                match direction {
                    Some(Direction::Up) => {
                        if state.direction != Direction::Down {
                            state.direction = Direction::Up;
                        }
                    },
                    Some(Direction::Down) => {
                        if state.direction != Direction::Up {
                            state.direction = Direction::Down;
                        }
                    },
                    Some(Direction::Left) => {
                        if state.direction != Direction::Right {
                            state.direction = Direction::Left;
                        }
                    },
                    Some(Direction::Right) => {
                        if state.direction != Direction::Left {
                            state.direction = Direction::Right;
                        }
                    },
                    None => (),
                }
            },
            _ => (),
        }
    }
}

} // verus!
