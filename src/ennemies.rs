use vstd::prelude::*;

use crate::collisions::{hits_any, overlap, overlaps_any, overlaps_at, HitBox};
use crate::constants::{
    DEFENSE_SCALE, ENNEMIES_NUMBER, ENNEMY_AGGRO_DISTANCE, ENNEMY_ATTACK, ENNEMY_ATTACK_DELAY,
    ENNEMY_ATTACK_RANGE, ENNEMY_DEFENSE_RATIO, ENNEMY_HEALTH, ENNEMY_HITBOX_HEIGHT,
    ENNEMY_HITBOX_WIDTH, ENNEMY_NORMAL_SPEED, ENNEMY_SPRINT_SPEED, MAP_SIZE, PLAYER_BOX_HEIGHT,
    PLAYER_BOX_WIDTH, PLAYER_DEFENSE_RATIO, SPAWN_MAX_X, SPAWN_MAX_Y, WANDER_MAX, WANDER_MIN,
};
use crate::player::Player;
use crate::random::random_in;

verus! {

/// One of the eight compass directions an actor can move or face.
#[derive(Clone, Copy, Debug, PartialEq, Eq, Structural)]
pub enum EnnemyFacingDirection {
    Left,
    TopLeft,
    Up,
    TopRight,
    Right,
    BottomRight,
    Down,
    BottomLeft,
}

impl EnnemyFacingDirection {
    /// Horizontal component: -1, 0 or 1.
    pub open spec fn dx(self) -> int {
        match self {
            EnnemyFacingDirection::Left => -1,
            EnnemyFacingDirection::TopLeft => -1,
            EnnemyFacingDirection::BottomLeft => -1,
            EnnemyFacingDirection::Right => 1,
            EnnemyFacingDirection::TopRight => 1,
            EnnemyFacingDirection::BottomRight => 1,
            _ => 0,
        }
    }

    /// Vertical component: -1, 0 or 1 (up is positive).
    pub open spec fn dy(self) -> int {
        match self {
            EnnemyFacingDirection::Up => 1,
            EnnemyFacingDirection::TopLeft => 1,
            EnnemyFacingDirection::TopRight => 1,
            EnnemyFacingDirection::Down => -1,
            EnnemyFacingDirection::BottomLeft => -1,
            EnnemyFacingDirection::BottomRight => -1,
            _ => 0,
        }
    }

    pub fn x_sign(&self) -> (r: i64)
        ensures
            r == self.dx(),
    {
        match self {
            EnnemyFacingDirection::Left => -1,
            EnnemyFacingDirection::TopLeft => -1,
            EnnemyFacingDirection::BottomLeft => -1,
            EnnemyFacingDirection::Right => 1,
            EnnemyFacingDirection::TopRight => 1,
            EnnemyFacingDirection::BottomRight => 1,
            _ => 0,
        }
    }

    pub fn y_sign(&self) -> (r: i64)
        ensures
            r == self.dy(),
    {
        match self {
            EnnemyFacingDirection::Up => 1,
            EnnemyFacingDirection::TopLeft => 1,
            EnnemyFacingDirection::TopRight => 1,
            EnnemyFacingDirection::Down => -1,
            EnnemyFacingDirection::BottomLeft => -1,
            EnnemyFacingDirection::BottomRight => -1,
            _ => 0,
        }
    }
}

pub open spec fn sign(v: int) -> int {
    if v < 0 {
        -1
    } else if v > 0 {
        1
    } else {
        0
    }
}

/// The direction whose components have the signs of `(dx, dy)`; none for the zero vector.
pub open spec fn direction_of(dx: int, dy: int) -> Option<EnnemyFacingDirection> {
    if dx < 0 {
        if dy < 0 {
            Some(EnnemyFacingDirection::BottomLeft)
        } else if dy > 0 {
            Some(EnnemyFacingDirection::TopLeft)
        } else {
            Some(EnnemyFacingDirection::Left)
        }
    } else if dx > 0 {
        if dy < 0 {
            Some(EnnemyFacingDirection::BottomRight)
        } else if dy > 0 {
            Some(EnnemyFacingDirection::TopRight)
        } else {
            Some(EnnemyFacingDirection::Right)
        }
    } else {
        if dy < 0 {
            Some(EnnemyFacingDirection::Down)
        } else if dy > 0 {
            Some(EnnemyFacingDirection::Up)
        } else {
            None
        }
    }
}

/// The direction bucket of `(to_x, to_y)` seen from `(from_x, from_y)`.
pub fn direction_towards(from_x: i32, from_y: i32, to_x: i32, to_y: i32) -> (r: Option<
    EnnemyFacingDirection,
>)
    ensures
        r == direction_of(to_x - from_x, to_y - from_y),
{
    if to_x < from_x {
        if to_y < from_y {
            Some(EnnemyFacingDirection::BottomLeft)
        } else if to_y > from_y {
            Some(EnnemyFacingDirection::TopLeft)
        } else {
            Some(EnnemyFacingDirection::Left)
        }
    } else if to_x > from_x {
        if to_y < from_y {
            Some(EnnemyFacingDirection::BottomRight)
        } else if to_y > from_y {
            Some(EnnemyFacingDirection::TopRight)
        } else {
            Some(EnnemyFacingDirection::Right)
        }
    } else {
        if to_y < from_y {
            Some(EnnemyFacingDirection::Down)
        } else if to_y > from_y {
            Some(EnnemyFacingDirection::Up)
        } else {
            None
        }
    }
}

/// The direction numbered `i` by the wander draw.
pub open spec fn direction_at(i: int) -> EnnemyFacingDirection {
    if i == 0 {
        EnnemyFacingDirection::Up
    } else if i == 1 {
        EnnemyFacingDirection::Down
    } else if i == 2 {
        EnnemyFacingDirection::Left
    } else if i == 3 {
        EnnemyFacingDirection::Right
    } else if i == 4 {
        EnnemyFacingDirection::TopLeft
    } else if i == 5 {
        EnnemyFacingDirection::TopRight
    } else if i == 6 {
        EnnemyFacingDirection::BottomLeft
    } else {
        EnnemyFacingDirection::BottomRight
    }
}

pub fn direction_from_index(i: u32) -> (r: EnnemyFacingDirection)
    requires
        i < 8,
    ensures
        r == direction_at(i as int),
{
    if i == 0 {
        EnnemyFacingDirection::Up
    } else if i == 1 {
        EnnemyFacingDirection::Down
    } else if i == 2 {
        EnnemyFacingDirection::Left
    } else if i == 3 {
        EnnemyFacingDirection::Right
    } else if i == 4 {
        EnnemyFacingDirection::TopLeft
    } else if i == 5 {
        EnnemyFacingDirection::TopRight
    } else if i == 6 {
        EnnemyFacingDirection::BottomLeft
    } else {
        EnnemyFacingDirection::BottomRight
    }
}

/// `v` moved by `amount` in the direction of the sign `s`.
pub open spec fn step(v: int, s: int, amount: int) -> int {
    if s < 0 {
        v - amount
    } else if s > 0 {
        v + amount
    } else {
        v
    }
}

fn shift(v: i32, s: i64, amount: u32) -> (r: i64)
    ensures
        r == step(v as int, s as int, amount as int),
{
    if s < 0 {
        v as i64 - amount as i64
    } else if s > 0 {
        v as i64 + amount as i64
    } else {
        v as i64
    }
}

/// Behaviour of an enemy for the current tick.
#[derive(Clone, Copy, Debug, PartialEq, Eq, Structural)]
pub enum EnnemyState {
    Roaming,
    Chasing,
}

/// A one-shot countdown in milliseconds that fixes an enemy's attack cadence.
/// Once `finished` is set it stays set, and further ticks do nothing, until `reset`.
#[derive(Clone, Copy, Debug, PartialEq, Eq, Structural)]
pub struct AttackDelay {
    pub duration_ms: u64,
    pub elapsed_ms: u64,
    pub finished: bool,
}

impl AttackDelay {
    pub open spec fn wf(self) -> bool {
        self.elapsed_ms <= self.duration_ms
    }

    /// A countdown of `delay` milliseconds, not started and not finished.
    pub fn new(delay: u64) -> (r: AttackDelay)
        ensures
            r == (AttackDelay { duration_ms: delay, elapsed_ms: 0, finished: false }),
    {
        AttackDelay { duration_ms: delay, elapsed_ms: 0, finished: false }
    }

    /// Advances the countdown by `delta_ms`, stopping at its duration, and
    /// marks it finished once the duration is reached. A finished countdown
    /// is left as it is.
    pub fn tick(&mut self, delta_ms: u64)
        requires
            old(self).wf(),
        ensures
            *final(self) == ticked(*old(self), delta_ms as int),
            final(self).wf(),
    {
        if self.finished {
            return;
        }
        if delta_ms >= self.duration_ms - self.elapsed_ms {
            self.elapsed_ms = self.duration_ms;
            self.finished = true;
        } else {
            self.elapsed_ms = self.elapsed_ms + delta_ms;
        }
    }

    pub fn finished(&self) -> (r: bool)
        ensures
            r == self.finished,
    {
        self.finished
    }

    /// Restarts the countdown from zero, not finished.
    pub fn reset(&mut self)
        ensures
            *final(self) == (AttackDelay { elapsed_ms: 0, finished: false, ..*old(self) }),
    {
        self.elapsed_ms = 0;
        self.finished = false;
    }
}

/// A countdown after one `tick` of `delta`.
pub open spec fn ticked(t: AttackDelay, delta: int) -> AttackDelay {
    if t.finished {
        t
    } else if t.elapsed_ms + delta >= t.duration_ms {
        AttackDelay { elapsed_ms: t.duration_ms, finished: true, ..t }
    } else {
        AttackDelay { elapsed_ms: (t.elapsed_ms + delta) as u64, ..t }
    }
}

/// Whether a countdown is finished after a tick of `delta`.
pub open spec fn fires(t: AttackDelay, delta: int) -> bool {
    ticked(t, delta).finished
}

/// A countdown advanced by `delta`, restarted at once if it finished.
pub open spec fn after_tick(t: AttackDelay, delta: int) -> AttackDelay {
    if fires(t, delta) {
        AttackDelay { elapsed_ms: 0, finished: false, ..t }
    } else {
        ticked(t, delta)
    }
}

/// An enemy actor. `current_direction` is the direction of the last
/// successful move; `roam_direction` is the heading last drawn while roaming,
/// kept until the wander counter runs out. `defense_ratio` is the chance, in
/// millionths, that an incoming attack is blocked.
#[derive(Clone, Copy, Debug, PartialEq, Eq, Structural)]
pub struct Ennemy {
    pub x: i32,
    pub y: i32,
    pub current_direction: Option<EnnemyFacingDirection>,
    pub roam_direction: Option<EnnemyFacingDirection>,
    pub current_speed: u32,
    pub direction_counter: i32,
    pub state: EnnemyState,
    pub health: i32,
    pub attack: i32,
    pub defense_ratio: u32,
    pub attack_delay: AttackDelay,
}

/// The play-area limits that a move in `d` ending at `(x, y)` must respect:
/// the center stays within `MAP_SIZE / 2` less half the box, bounds included.
/// Only the axes that `d` moves along are checked, each on the side it moves toward.
pub open spec fn inside_map(d: EnnemyFacingDirection, x: int, y: int) -> bool {
    &&& d.dy() > 0 ==> 2 * y <= MAP_SIZE as int - ENNEMY_HITBOX_HEIGHT as int
    &&& d.dy() < 0 ==> 2 * y >= ENNEMY_HITBOX_HEIGHT as int - MAP_SIZE as int
    &&& d.dx() > 0 ==> 2 * x <= MAP_SIZE as int - ENNEMY_HITBOX_WIDTH as int
    &&& d.dx() < 0 ==> 2 * x >= ENNEMY_HITBOX_WIDTH as int - MAP_SIZE as int
}

/// A move of `e` by `amount` in `d` stays in the play area and hits none of `obstacles`.
pub open spec fn can_move_spec(
    e: Ennemy,
    d: EnnemyFacingDirection,
    amount: int,
    obstacles: Seq<HitBox>,
) -> bool {
    let x = step(e.x as int, d.dx(), amount);
    let y = step(e.y as int, d.dy(), amount);
    inside_map(d, x, y) && !hits_any(
        x,
        y,
        ENNEMY_HITBOX_WIDTH as int,
        ENNEMY_HITBOX_HEIGHT as int,
        obstacles,
    )
}

/// `e` displaced by `amount` in `d`, now facing `d`.
pub open spec fn moved_spec(e: Ennemy, d: EnnemyFacingDirection, amount: int) -> Ennemy {
    Ennemy {
        x: step(e.x as int, d.dx(), amount) as i32,
        y: step(e.y as int, d.dy(), amount) as i32,
        current_direction: Some(d),
        ..e
    }
}

/// The outcome of an attempted move: the whole step, or nothing.
pub open spec fn after_move(
    e: Ennemy,
    d: EnnemyFacingDirection,
    amount: int,
    obstacles: Seq<HitBox>,
) -> Ennemy {
    if can_move_spec(e, d, amount, obstacles) {
        moved_spec(e, d, amount)
    } else {
        e
    }
}

/// The direction a chasing enemy takes toward `(px, py)`: the sign bucket of
/// the vector to the target scaled by its speed.
pub open spec fn chase_heading(e: Ennemy, px: int, py: int) -> Option<EnnemyFacingDirection> {
    if e.current_speed == 0 {
        None
    } else {
        direction_of(px - e.x, py - e.y)
    }
}

pub open spec fn chase_result(e: Ennemy, px: int, py: int, obstacles: Seq<HitBox>) -> Ennemy {
    match chase_heading(e, px, py) {
        Some(d) => after_move(e, d, e.current_speed as int, obstacles),
        None => e,
    }
}

/// The heading a roaming enemy tries: a fresh one when its counter has run
/// out, else the one it drew last, whether or not moves in it succeeded.
pub open spec fn roam_heading(e: Ennemy, fresh: EnnemyFacingDirection) -> Option<
    EnnemyFacingDirection,
> {
    if e.direction_counter <= 0 {
        Some(fresh)
    } else {
        e.roam_direction
    }
}

/// One roaming tick with the draws `fresh` (direction) and `fresh_counter`
/// (wander duration), which count only when the counter has run out.
pub open spec fn roam_result(
    e: Ennemy,
    fresh: EnnemyFacingDirection,
    fresh_counter: int,
    obstacles: Seq<HitBox>,
) -> Ennemy {
    let m = match roam_heading(e, fresh) {
        Some(d) => after_move(e, d, e.current_speed as int, obstacles),
        None => e,
    };
    Ennemy {
        direction_counter: (if e.direction_counter <= 0 {
            fresh_counter - 1
        } else {
            e.direction_counter - 1
        }) as i32,
        roam_direction: roam_heading(e, fresh),
        ..m
    }
}

/// The player is strictly closer to `e` than the aggro radius.
pub open spec fn within_aggro(e: Ennemy, px: int, py: int) -> bool {
    (px - e.x) * (px - e.x) + (py - e.y) * (py - e.y) < ENNEMY_AGGRO_DISTANCE as int
        * ENNEMY_AGGRO_DISTANCE as int
}

/// The state an enemy takes this tick: chasing a living player in range, else roaming.
pub open spec fn next_state(e: Ennemy, p: Player) -> EnnemyState {
    if within_aggro(e, p.x as int, p.y as int) && p.health > 0 {
        EnnemyState::Chasing
    } else {
        EnnemyState::Roaming
    }
}

/// One decision-and-move tick of `e` with the wander draws `fresh`, `fresh_counter`.
pub open spec fn aggro_result(
    e: Ennemy,
    p: Player,
    fresh: EnnemyFacingDirection,
    fresh_counter: int,
    obstacles: Seq<HitBox>,
) -> Ennemy {
    let s = Ennemy { state: next_state(e, p), ..e };
    match s.state {
        EnnemyState::Chasing => chase_result(s, p.x as int, p.y as int, obstacles),
        EnnemyState::Roaming => roam_result(s, fresh, fresh_counter, obstacles),
    }
}

/// `after` is `before` after one decision-and-move tick, for some wander draws.
pub open spec fn aggro_tick(before: Ennemy, after: Ennemy, p: Player, obstacles: Seq<HitBox>) -> bool {
    exists|d: EnnemyFacingDirection, c: int|
        WANDER_MIN <= c < WANDER_MAX && after == #[trigger] aggro_result(
            before,
            p,
            d,
            c,
            obstacles,
        )
}

pub open spec fn speed_for(s: EnnemyState) -> u32 {
    match s {
        EnnemyState::Roaming => ENNEMY_NORMAL_SPEED,
        EnnemyState::Chasing => ENNEMY_SPRINT_SPEED,
    }
}

/// The probe box of an enemy facing `d`: its own box moved by the attack range.
pub open spec fn probe_hits(e: Ennemy, d: EnnemyFacingDirection, p: Player) -> bool {
    overlap(
        step(e.x as int, d.dx(), ENNEMY_ATTACK_RANGE as int),
        step(e.y as int, d.dy(), ENNEMY_ATTACK_RANGE as int),
        ENNEMY_HITBOX_WIDTH as int,
        ENNEMY_HITBOX_HEIGHT as int,
        p.x as int,
        p.y as int,
        PLAYER_BOX_WIDTH as int,
        PLAYER_BOX_HEIGHT as int,
    )
}

/// The player lies in the direction bucket the enemy faces.
pub open spec fn aligned(e: Ennemy, d: EnnemyFacingDirection, p: Player) -> bool {
    direction_of(p.x - e.x, p.y - e.y) == Some(d)
}

/// An attack of `e` on `p` connects: `e` faces some direction, its probe box
/// overlaps the player, and the player lies in that direction.
pub open spec fn attack_connects(e: Ennemy, p: Player) -> bool {
    match e.current_direction {
        Some(d) => probe_hits(e, d, p) && aligned(e, d, p),
        None => false,
    }
}

/// The attack of `e` on `p` lands on a tick of `delta` with the draw `roll`:
/// the countdown finishes, the attack connects, and the draw beats the
/// player's defense ratio.
pub open spec fn lands(e: Ennemy, p: Player, delta: int, roll: int) -> bool {
    fires(e.attack_delay, delta) && attack_connects(e, p) && roll > PLAYER_DEFENSE_RATIO
}

/// Total attack power that lands on `p` from the enemies `es` in one attack
/// pass, enemy `i` drawing `rolls[i]`.
pub open spec fn landed_total(es: Seq<Ennemy>, p: Player, delta: int, rolls: Seq<u32>) -> int
    decreases es.len(),
{
    if es.len() == 0 || rolls.len() == 0 {
        0
    } else {
        landed_total(es.drop_last(), p, delta, rolls.drop_last()) + if lands(
            es.last(),
            p,
            delta,
            rolls.last() as int,
        ) {
            es.last().attack as int
        } else {
            0
        }
    }
}

/// `p` after a landed attack of power `attack`.
pub open spec fn hit(p: Player, attack: int) -> Player {
    Player { health: (p.health - attack) as i32, ..p }
}

/// `e` after a landed attack of power `attack`.
pub open spec fn wounded(e: Ennemy, attack: int) -> Ennemy {
    Ennemy { health: (e.health - attack) as i32, ..e }
}

impl Ennemy {
    pub fn new(x: i32, y: i32, health: i32, attack: i32, defense_ratio: u32) -> (e: Ennemy)
        ensures
            e == (Ennemy {
                x,
                y,
                current_direction: None,
                roam_direction: None,
                current_speed: ENNEMY_NORMAL_SPEED,
                direction_counter: 0,
                state: EnnemyState::Roaming,
                health,
                attack,
                defense_ratio,
                attack_delay: AttackDelay {
                    duration_ms: ENNEMY_ATTACK_DELAY,
                    elapsed_ms: 0,
                    finished: false,
                },
            }),
    {
        Ennemy {
            x,
            y,
            current_direction: None,
            roam_direction: None,
            current_speed: ENNEMY_NORMAL_SPEED,
            direction_counter: 0,
            state: EnnemyState::Roaming,
            health,
            attack,
            defense_ratio,
            attack_delay: AttackDelay::new(ENNEMY_ATTACK_DELAY),
        }
    }

    pub open spec fn hitbox(self) -> HitBox {
        HitBox { x: self.x, y: self.y, width: ENNEMY_HITBOX_WIDTH, height: ENNEMY_HITBOX_HEIGHT }
    }

    /// Whether this enemy's box, centered at `(x, y)`, would overlap `other`.
    pub fn would_collide(&self, x: i32, y: i32, other: &HitBox) -> (r: bool)
        ensures
            r == overlap(
                x as int,
                y as int,
                ENNEMY_HITBOX_WIDTH as int,
                ENNEMY_HITBOX_HEIGHT as int,
                other.x as int,
                other.y as int,
                other.width as int,
                other.height as int,
            ),
    {
        overlaps_at(x, y, ENNEMY_HITBOX_WIDTH, ENNEMY_HITBOX_HEIGHT, other)
    }

    pub fn can_move(
        &self,
        direction: &EnnemyFacingDirection,
        amount: u32,
        obstacles: &Vec<HitBox>,
    ) -> (r: bool)
        ensures
            r == can_move_spec(*self, *direction, amount as int, obstacles@),
    {
        let sx = direction.x_sign();
        let sy = direction.y_sign();
        let x = shift(self.x, sx, amount);
        let y = shift(self.y, sy, amount);
        let inside = (sy <= 0 || 2 * y <= MAP_SIZE as i64 - ENNEMY_HITBOX_HEIGHT as i64) && (sy
            >= 0 || 2 * y >= ENNEMY_HITBOX_HEIGHT as i64 - MAP_SIZE as i64) && (sx <= 0 || 2 * x
            <= MAP_SIZE as i64 - ENNEMY_HITBOX_WIDTH as i64) && (sx >= 0 || 2 * x
            >= ENNEMY_HITBOX_WIDTH as i64 - MAP_SIZE as i64);
        if !inside {
            return false;
        }
        !overlaps_any(x as i32, y as i32, ENNEMY_HITBOX_WIDTH, ENNEMY_HITBOX_HEIGHT, obstacles)
    }

    /// Moves by `amount` in `direction` and faces it, if the move is allowed;
    /// otherwise nothing changes. Returns whether it moved.
    pub fn move_in_direction(
        &mut self,
        direction: &EnnemyFacingDirection,
        amount: u32,
        obstacles: &Vec<HitBox>,
    ) -> (moved: bool)
        ensures
            moved == can_move_spec(*old(self), *direction, amount as int, obstacles@),
            *final(self) == after_move(*old(self), *direction, amount as int, obstacles@),
    {
        if self.can_move(direction, amount, obstacles) {
            let x = shift(self.x, direction.x_sign(), amount);
            let y = shift(self.y, direction.y_sign(), amount);
            self.x = x as i32;
            self.y = y as i32;
            self.current_direction = Some(*direction);
            true
        } else {
            false
        }
    }

    /// Steps toward the player by the current speed, in the direction bucket
    /// of the vector to the player; does nothing when standing on the player.
    pub fn chase_player(&mut self, player: &Player, obstacles: &Vec<HitBox>)
        ensures
            *final(self) == chase_result(*old(self), player.x as int, player.y as int, obstacles@),
    {
        if self.current_speed == 0 {
            return;
        }
        let heading = direction_towards(self.x, self.y, player.x, player.y);
        match heading {
            Some(d) => {
                let speed = self.current_speed;
                self.move_in_direction(&d, speed, obstacles);
            },
            None => {},
        }
    }

    /// One roaming tick given the draws it would use: when the counter has run
    /// out, `fresh_direction` becomes the heading and the counter restarts at
    /// `fresh_counter`; otherwise the heading drawn last is tried again. Either way
    /// the counter then drops by one.
    pub fn roam_with(
        &mut self,
        fresh_direction: EnnemyFacingDirection,
        fresh_counter: i32,
        obstacles: &Vec<HitBox>,
    )
        requires
            WANDER_MIN <= fresh_counter < WANDER_MAX,
        ensures
            *final(self) == roam_result(
                *old(self),
                fresh_direction,
                fresh_counter as int,
                obstacles@,
            ),
    {
        let heading: Option<EnnemyFacingDirection>;
        let counter: i32;
        if self.direction_counter <= 0 {
            heading = Some(fresh_direction);
            counter = fresh_counter;
        } else {
            heading = self.roam_direction;
            counter = self.direction_counter;
        }
        self.roam_direction = heading;
        match heading {
            Some(d) => {
                let speed = self.current_speed;
                self.move_in_direction(&d, speed, obstacles);
            },
            None => {},
        }
        self.direction_counter = counter - 1;
    }

    /// One roaming tick, drawing a direction and a wander duration in
    /// `WANDER_MIN .. WANDER_MAX` when the counter has run out.
    pub fn roaming(&mut self, obstacles: &Vec<HitBox>)
        ensures
            exists|d: EnnemyFacingDirection, c: int|
                WANDER_MIN <= c < WANDER_MAX && *final(self) == #[trigger] roam_result(
                    *old(self),
                    d,
                    c,
                    obstacles@,
                ),
    {
        let fresh_direction: EnnemyFacingDirection;
        let fresh_counter: i32;
        if self.direction_counter <= 0 {
            let i = random_in(0, 8);
            fresh_direction = direction_from_index(i as u32);
            fresh_counter = random_in(WANDER_MIN as i64, WANDER_MAX as i64) as i32;
        } else {
            // not used: the current heading is kept
            fresh_direction = EnnemyFacingDirection::Up;
            fresh_counter = WANDER_MIN;
        }
        self.roam_with(fresh_direction, fresh_counter, obstacles);
    }

    pub fn get_pos(&self) -> (r: (i32, i32))
        ensures
            r == (self.x, self.y),
    {
        (self.x, self.y)
    }

    pub fn get_hitbox(&self) -> (r: HitBox)
        ensures
            r == self.hitbox(),
    {
        HitBox { x: self.x, y: self.y, width: ENNEMY_HITBOX_WIDTH, height: ENNEMY_HITBOX_HEIGHT }
    }

    pub fn get_health(&self) -> (r: i32)
        ensures
            r == self.health,
    {
        self.health
    }

    /// The direction of the last successful move; none before the first one.
    pub fn get_facing_direction(&self) -> (r: Option<EnnemyFacingDirection>)
        ensures
            r == self.current_direction,
    {
        self.current_direction
    }

    pub fn is_dead(&self) -> (r: bool)
        ensures
            r == (self.health <= 0),
    {
        self.health <= 0
    }

    /// Whether the player is strictly within the aggro radius.
    pub fn sees(&self, player: &Player) -> (r: bool)
        ensures
            r == within_aggro(*self, player.x as int, player.y as int),
    {
        let dx: i64 = player.x as i64 - self.x as i64;
        let dy: i64 = player.y as i64 - self.y as i64;
        let adx: i64 = if dx < 0 {
            -dx
        } else {
            dx
        };
        let ady: i64 = if dy < 0 {
            -dy
        } else {
            dy
        };
        let a: i64 = ENNEMY_AGGRO_DISTANCE as i64;
        if adx >= a || ady >= a {
            assert(adx * adx >= a * a && ady * ady >= 0 || ady * ady >= a * a && adx * adx >= 0)
                by (nonlinear_arith)
                requires
                    adx >= a || ady >= a,
                    a >= 0,
                    adx >= 0,
                    ady >= 0,
            ;
            assert(dx * dx == adx * adx && dy * dy == ady * ady) by (nonlinear_arith)
                requires
                    adx == dx || adx == -dx,
                    ady == dy || ady == -dy,
            ;
            return false;
        }
        assert(adx * adx < a * a && ady * ady < a * a) by (nonlinear_arith)
            requires
                0 <= adx < a,
                0 <= ady < a,
        ;
        assert(dx * dx == adx * adx && dy * dy == ady * ady) by (nonlinear_arith)
            requires
                adx == dx || adx == -dx,
                ady == dy || ady == -dy,
        ;
        adx * adx + ady * ady < a * a
    }

    /// One decision-and-move tick with the wander draws given: enter the state
    /// that the player's distance and health call for, then chase or roam.
    pub fn aggro_step_with(
        &mut self,
        player: &Player,
        fresh_direction: EnnemyFacingDirection,
        fresh_counter: i32,
        obstacles: &Vec<HitBox>,
    )
        requires
            WANDER_MIN <= fresh_counter < WANDER_MAX,
        ensures
            *final(self) == aggro_result(
                *old(self),
                *player,
                fresh_direction,
                fresh_counter as int,
                obstacles@,
            ),
    {
        if self.sees(player) && !player.is_dead() {
            self.state = EnnemyState::Chasing;
            self.chase_player(player, obstacles);
        } else {
            self.state = EnnemyState::Roaming;
            self.roam_with(fresh_direction, fresh_counter, obstacles);
        }
    }

    /// One decision-and-move tick, drawing the wander choices when roaming needs them.
    pub fn aggro_step(&mut self, player: &Player, obstacles: &Vec<HitBox>)
        ensures
            aggro_tick(*old(self), *final(self), *player, obstacles@),
    {
        let mut fresh_direction = EnnemyFacingDirection::Up;
        let mut fresh_counter = WANDER_MIN;
        if !(self.sees(player) && !player.is_dead()) && self.direction_counter <= 0 {
            let i = random_in(0, 8);
            fresh_direction = direction_from_index(i as u32);
            fresh_counter = random_in(WANDER_MIN as i64, WANDER_MAX as i64) as i32;
        }
        self.aggro_step_with(player, fresh_direction, fresh_counter, obstacles);
        assert(*self == aggro_result(
            *old(self),
            *player,
            fresh_direction,
            fresh_counter as int,
            obstacles@,
        ));
    }

    /// Sets the speed from the state: normal while roaming, sprinting while chasing.
    pub fn state_speed_update(&mut self)
        ensures
            *final(self) == (Ennemy { current_speed: speed_for(old(self).state), ..*old(self) }),
    {
        match self.state {
            EnnemyState::Roaming => self.current_speed = ENNEMY_NORMAL_SPEED,
            EnnemyState::Chasing => self.current_speed = ENNEMY_SPRINT_SPEED,
        }
    }

    /// Whether an attack now would connect with the player.
    pub fn can_hit(&self, player: &Player) -> (r: bool)
        ensures
            r == attack_connects(*self, *player),
    {
        match self.current_direction {
            Some(d) => {
                let px = shift(self.x, d.x_sign(), ENNEMY_ATTACK_RANGE);
                let py = shift(self.y, d.y_sign(), ENNEMY_ATTACK_RANGE);
                let target = player.get_hitbox();
                let dx: i64 = px - target.x as i64;
                let dy: i64 = py - target.y as i64;
                let adx: i64 = if dx < 0 {
                    -dx
                } else {
                    dx
                };
                let ady: i64 = if dy < 0 {
                    -dy
                } else {
                    dy
                };
                let reach = 2 * adx < ENNEMY_HITBOX_WIDTH as i64 + target.width as i64 && 2 * ady
                    < ENNEMY_HITBOX_HEIGHT as i64 + target.height as i64;
                reach && direction_towards(self.x, self.y, player.x, player.y) == Some(d)
            },
            None => false,
        }
    }

    /// Applies an attack of power `attack` given the random draw `roll`
    /// (in millionths): it lands exactly when `roll` exceeds the defense
    /// ratio, and then lowers health by `attack`.
    pub fn resolve_attack(&mut self, attack: i32, roll: u32) -> (landed: bool)
        requires
            roll > old(self).defense_ratio ==> i32::MIN <= old(self).health - attack <= i32::MAX,
        ensures
            landed == (roll > old(self).defense_ratio),
            *final(self) == (if landed {
                wounded(*old(self), attack as int)
            } else {
                *old(self)
            }),
    {
        if roll > self.defense_ratio {
            self.health = self.health - attack;
            true
        } else {
            false
        }
    }

    /// Applies an attack of power `attack` with a fresh random draw below
    /// `DEFENSE_SCALE`: it may land only if the defense ratio is below the
    /// largest draw, and lowers health by exactly `attack` when it does.
    pub fn get_attacked(&mut self, attack: i32) -> (landed: bool)
        requires
            i32::MIN <= old(self).health - attack <= i32::MAX,
        ensures
            landed ==> old(self).defense_ratio < DEFENSE_SCALE - 1,
            *final(self) == (if landed {
                wounded(*old(self), attack as int)
            } else {
                *old(self)
            }),
    {
        let roll = random_in(0, DEFENSE_SCALE as i64);
        self.resolve_attack(attack, roll as u32)
    }

    /// Advances the attack countdown by `delta_ms`; when it finishes it
    /// restarts and, if the attack connects, the player takes it with the draw
    /// `roll`.
    pub fn attack_tick_with(&mut self, delta_ms: u64, player: &mut Player, roll: u32) -> (landed:
        bool)
        requires
            old(self).attack_delay.wf(),
            i32::MIN <= old(player).health - old(self).attack <= i32::MAX,
        ensures
            *final(self) == (Ennemy {
                attack_delay: after_tick(old(self).attack_delay, delta_ms as int),
                ..*old(self)
            }),
            landed == lands(*old(self), *old(player), delta_ms as int, roll as int),
            *final(player) == (if landed {
                hit(*old(player), old(self).attack as int)
            } else {
                *old(player)
            }),
    {
        self.attack_delay.tick(delta_ms);
        if self.attack_delay.finished() {
            self.attack_delay.reset();
            if self.can_hit(player) {
                return player.resolve_attack(self.attack, roll);
            }
        }
        false
    }

    /// `attack_tick_with` on a fresh draw below `DEFENSE_SCALE`.
    pub fn attack_tick(&mut self, delta_ms: u64, player: &mut Player) -> (landed: bool)
        requires
            old(self).attack_delay.wf(),
            i32::MIN <= old(player).health - old(self).attack <= i32::MAX,
        ensures
            *final(self) == (Ennemy {
                attack_delay: after_tick(old(self).attack_delay, delta_ms as int),
                ..*old(self)
            }),
            exists|roll: int|
                0 <= roll < DEFENSE_SCALE && landed == #[trigger] lands(
                    *old(self),
                    *old(player),
                    delta_ms as int,
                    roll,
                ),
            *final(player) == (if landed {
                hit(*old(player), old(self).attack as int)
            } else {
                *old(player)
            }),
    {
        let roll = random_in(0, DEFENSE_SCALE as i64) as u32;
        let landed = self.attack_tick_with(delta_ms, player, roll);
        assert(landed == lands(*old(self), *old(player), delta_ms as int, roll as int));
        landed
    }
}


/// Sum of the attack powers of `s`.
pub open spec fn total_attack(s: Seq<Ennemy>) -> int
    decreases s.len(),
{
    if s.len() == 0 {
        0
    } else {
        total_attack(s.drop_last()) + s.last().attack
    }
}

proof fn lemma_total_attack_prefix(s: Seq<Ennemy>, i: int)
    requires
        0 <= i <= s.len(),
        forall|j: int| 0 <= j < s.len() ==> s[j].attack >= 0,
    ensures
        total_attack(s.subrange(0, i)) <= total_attack(s),
    decreases s.len(),
{
    if i < s.len() {
        assert(s.drop_last().subrange(0, i) =~= s.subrange(0, i));
        lemma_total_attack_prefix(s.drop_last(), i);
    } else {
        assert(s.subrange(0, i) =~= s);
    }
}

/// Runs the decision-and-move tick of every enemy against the same obstacles.
pub fn ennemy_aggro_detection(ennemies: &mut Vec<Ennemy>, player: &Player, obstacles: &Vec<HitBox>)
    ensures
        final(ennemies).len() == old(ennemies).len(),
        forall|i: int|
            0 <= i < old(ennemies).len() ==> #[trigger] aggro_tick(
                old(ennemies)@[i],
                final(ennemies)@[i],
                *player,
                obstacles@,
            ),
{
    let ghost start = ennemies@;
    let mut i: usize = 0;
    while i < ennemies.len()
        invariant
            0 <= i <= ennemies.len(),
            ennemies.len() == start.len(),
            forall|j: int| i <= j < start.len() ==> ennemies@[j] == start[j],
            forall|j: int|
                0 <= j < i ==> #[trigger] aggro_tick(start[j], ennemies@[j], *player, obstacles@),
        decreases ennemies.len() - i,
    {
        let mut e = ennemies[i];
        e.aggro_step(player, obstacles);
        ennemies.set(i, e);
        i += 1;
    }
}

/// Sets every enemy's speed from its state.
pub fn state_speed_update(ennemies: &mut Vec<Ennemy>)
    ensures
        final(ennemies).len() == old(ennemies).len(),
        forall|i: int|
            0 <= i < old(ennemies).len() ==> final(ennemies)@[i] == (Ennemy {
                current_speed: speed_for(old(ennemies)@[i].state),
                ..old(ennemies)@[i]
            }),
{
    let ghost start = ennemies@;
    let mut i: usize = 0;
    while i < ennemies.len()
        invariant
            0 <= i <= ennemies.len(),
            ennemies.len() == start.len(),
            forall|j: int| i <= j < start.len() ==> ennemies@[j] == start[j],
            forall|j: int|
                0 <= j < i ==> ennemies@[j] == (Ennemy {
                    current_speed: speed_for(start[j].state),
                    ..start[j]
                }),
        decreases ennemies.len() - i,
    {
        let mut e = ennemies[i];
        e.state_speed_update();
        ennemies.set(i, e);
        i += 1;
    }
}

proof fn lemma_landed_total_bounds(es: Seq<Ennemy>, p: Player, delta: int, rolls: Seq<u32>)
    requires
        rolls.len() == es.len(),
        forall|j: int| 0 <= j < es.len() ==> es[j].attack >= 0,
    ensures
        0 <= landed_total(es, p, delta, rolls) <= total_attack(es),
    decreases es.len(),
{
    if es.len() > 0 {
        lemma_landed_total_bounds(es.drop_last(), p, delta, rolls.drop_last());
    }
}

/// One attack pass with the draws given: every enemy's countdown advances by
/// `delta_ms`, and enemy `i` attacks the player with the draw `rolls[i]`. The
/// player loses exactly the attack power of the enemies whose countdown
/// finishes, whose attack connects and whose draw beats the defense ratio;
/// nothing else changes.
pub fn ennemy_attack_with(
    ennemies: &mut Vec<Ennemy>,
    delta_ms: u64,
    player: &mut Player,
    rolls: &Vec<u32>,
)
    requires
        rolls.len() == old(ennemies).len(),
        forall|i: int|
            0 <= i < old(ennemies).len() ==> old(ennemies)@[i].attack_delay.wf()
                && old(ennemies)@[i].attack >= 0,
        old(player).health - total_attack(old(ennemies)@) >= i32::MIN,
    ensures
        final(ennemies).len() == old(ennemies).len(),
        forall|i: int|
            0 <= i < old(ennemies).len() ==> final(ennemies)@[i] == (Ennemy {
                attack_delay: after_tick(old(ennemies)@[i].attack_delay, delta_ms as int),
                ..old(ennemies)@[i]
            }),
        *final(player) == hit(
            *old(player),
            landed_total(old(ennemies)@, *old(player), delta_ms as int, rolls@),
        ),
{
    let ghost start = ennemies@;
    let ghost p0 = *player;
    proof {
        lemma_landed_total_bounds(start, p0, delta_ms as int, rolls@);
    }
    let mut i: usize = 0;
    while i < ennemies.len()
        invariant
            0 <= i <= ennemies.len(),
            ennemies.len() == start.len(),
            rolls.len() == start.len(),
            forall|j: int| 0 <= j < start.len() ==> start[j].attack_delay.wf() && start[j].attack >= 0,
            p0.health - total_attack(start) >= i32::MIN,
            forall|j: int| i <= j < start.len() ==> ennemies@[j] == start[j],
            forall|j: int|
                0 <= j < i ==> ennemies@[j] == (Ennemy {
                    attack_delay: after_tick(start[j].attack_delay, delta_ms as int),
                    ..start[j]
                }),
            *player == hit(
                p0,
                landed_total(
                    start.subrange(0, i as int),
                    p0,
                    delta_ms as int,
                    rolls@.subrange(0, i as int),
                ),
            ),
        decreases ennemies.len() - i,
    {
        let ghost es_i = start.subrange(0, i as int);
        let ghost rs_i = rolls@.subrange(0, i as int);
        let ghost es_n = start.subrange(0, i as int + 1);
        let ghost rs_n = rolls@.subrange(0, i as int + 1);
        proof {
            assert(es_n.drop_last() =~= es_i);
            assert(rs_n.drop_last() =~= rs_i);
            lemma_landed_total_bounds(es_i, p0, delta_ms as int, rs_i);
            lemma_landed_total_bounds(es_n, p0, delta_ms as int, rs_n);
            lemma_total_attack_prefix(start, i as int + 1);
        }
        let mut e = ennemies[i];
        let ghost cur = *player;
        assert(attack_connects(e, cur) == attack_connects(e, p0));
        e.attack_tick_with(delta_ms, player, rolls[i]);
        ennemies.set(i, e);
        i += 1;
    }
    proof {
        assert(start.subrange(0, start.len() as int) =~= start);
        assert(rolls@.subrange(0, start.len() as int) =~= rolls@);
    }
}

/// One attack pass with fresh draws below `DEFENSE_SCALE`: as
/// `ennemy_attack_with` for some such draws.
pub fn ennemy_attack(ennemies: &mut Vec<Ennemy>, delta_ms: u64, player: &mut Player)
    requires
        forall|i: int|
            0 <= i < old(ennemies).len() ==> old(ennemies)@[i].attack_delay.wf()
                && old(ennemies)@[i].attack >= 0,
        old(player).health - total_attack(old(ennemies)@) >= i32::MIN,
    ensures
        final(ennemies).len() == old(ennemies).len(),
        forall|i: int|
            0 <= i < old(ennemies).len() ==> final(ennemies)@[i] == (Ennemy {
                attack_delay: after_tick(old(ennemies)@[i].attack_delay, delta_ms as int),
                ..old(ennemies)@[i]
            }),
        exists|rolls: Seq<u32>|
            rolls.len() == old(ennemies).len() && (forall|j: int|
                0 <= j < rolls.len() ==> rolls[j] < DEFENSE_SCALE) && *final(player) == hit(
                *old(player),
                #[trigger] landed_total(old(ennemies)@, *old(player), delta_ms as int, rolls),
            ),
{
    let mut rolls: Vec<u32> = Vec::new();
    let mut i: usize = 0;
    while i < ennemies.len()
        invariant
            0 <= i <= ennemies.len(),
            rolls.len() == i,
            forall|j: int| 0 <= j < rolls.len() ==> rolls@[j] < DEFENSE_SCALE,
        decreases ennemies.len() - i,
    {
        rolls.push(random_in(0, DEFENSE_SCALE as i64) as u32);
        i += 1;
    }
    let ghost es0 = ennemies@;
    let ghost p0 = *player;
    ennemy_attack_with(ennemies, delta_ms, player, &rolls);
    assert(*player == hit(p0, landed_total(es0, p0, delta_ms as int, rolls@)));
}

/// Removes every enemy whose health has dropped to zero or below, keeping the others in order.
pub fn despawn_on_death(ennemies: &mut Vec<Ennemy>)
    ensures
        final(ennemies)@ == old(ennemies)@.filter(|e: Ennemy| e.health > 0),
{
    let ghost start = ennemies@;
    let mut kept: Vec<Ennemy> = Vec::new();
    let mut i: usize = 0;
    while i < ennemies.len()
        invariant
            0 <= i <= ennemies.len(),
            ennemies@ == start,
            kept@ == start.subrange(0, i as int).filter(|e: Ennemy| e.health > 0),
        decreases ennemies.len() - i,
    {
        proof {
            reveal(Seq::filter);
            assert(start.subrange(0, i as int + 1).drop_last() =~= start.subrange(0, i as int));
        }
        if ennemies[i].health > 0 {
            kept.push(ennemies[i]);
        }
        i += 1;
    }
    proof {
        assert(start.subrange(0, start.len() as int) =~= start);
    }
    *ennemies = kept;
}

/// Maps a draw in `0 .. 2 * max - 1` onto the nonzero values of `-max .. max`,
/// one to one, so a uniform draw gives a uniform nonzero coordinate.
pub fn spawn_coordinate(draw: i32, max: i32) -> (r: i32)
    requires
        0 < max,
        0 <= draw < 2 * max - 1,
    ensures
        r == (if draw < max {
            draw - max
        } else {
            draw - max + 1
        }),
        r != 0,
        -max <= r < max,
{
    if draw < max {
        draw - max
    } else {
        draw - max + 1
    }
}

/// A freshly spawned enemy at `(x, y)` with the standard health, attack and defense.
pub open spec fn spawned_at(x: i32, y: i32) -> Ennemy {
    Ennemy {
        x,
        y,
        current_direction: None,
        roam_direction: None,
        current_speed: ENNEMY_NORMAL_SPEED,
        direction_counter: 0,
        state: EnnemyState::Roaming,
        health: ENNEMY_HEALTH,
        attack: ENNEMY_ATTACK,
        defense_ratio: ENNEMY_DEFENSE_RATIO,
        attack_delay: AttackDelay {
            duration_ms: ENNEMY_ATTACK_DELAY,
            elapsed_ms: 0,
            finished: false,
        },
    }
}

/// `e` is a fresh standard enemy placed off both axes, outside the sanctuary margin.
pub open spec fn valid_spawn(e: Ennemy) -> bool {
    &&& e == spawned_at(e.x, e.y)
    &&& e.x != 0 && e.y != 0
    &&& -SPAWN_MAX_X <= e.x < SPAWN_MAX_X
    &&& -SPAWN_MAX_Y <= e.y < SPAWN_MAX_Y
}

/// A standard enemy at a random position with nonzero coordinates inside the spawn area.
pub fn summon_ennemy() -> (e: Ennemy)
    ensures
        valid_spawn(e),
{
    let dx = random_in(0, 2 * SPAWN_MAX_X as i64 - 1);
    let dy = random_in(0, 2 * SPAWN_MAX_Y as i64 - 1);
    let x = spawn_coordinate(dx as i32, SPAWN_MAX_X);
    let y = spawn_coordinate(dy as i32, SPAWN_MAX_Y);
    Ennemy::new(x, y, ENNEMY_HEALTH, ENNEMY_ATTACK, ENNEMY_DEFENSE_RATIO)
}

/// The starting population: `ENNEMIES_NUMBER` fresh enemies.
pub fn summon_ennemies() -> (v: Vec<Ennemy>)
    ensures
        v.len() == ENNEMIES_NUMBER,
        forall|i: int| 0 <= i < v.len() ==> valid_spawn(#[trigger] v@[i]),
{
    let mut v: Vec<Ennemy> = Vec::new();
    let mut i: usize = 0;
    while i < ENNEMIES_NUMBER
        invariant
            i <= ENNEMIES_NUMBER,
            v.len() == i,
            forall|j: int| 0 <= j < v.len() ==> valid_spawn(#[trigger] v@[j]),
        decreases ENNEMIES_NUMBER - i,
    {
        v.push(summon_ennemy());
        i += 1;
    }
    v
}

/// A move attempt either displaces the enemy by exactly `amount` times the
/// direction's unit vector (and it then faces that direction), or changes
/// nothing at all.
pub proof fn lemma_move_whole_step(
    e: Ennemy,
    d: EnnemyFacingDirection,
    amount: int,
    obstacles: Seq<HitBox>,
)
    requires
        0 <= amount,
    ensures
        can_move_spec(e, d, amount, obstacles) ==> {
            let r = after_move(e, d, amount, obstacles);
            &&& r.x == e.x + d.dx() * amount
            &&& r.y == e.y + d.dy() * amount
            &&& r.current_direction == Some(d)
        },
        !can_move_spec(e, d, amount, obstacles) ==> after_move(e, d, amount, obstacles) == e,
{
    if can_move_spec(e, d, amount, obstacles) {
        assert(d.dx() == -1 || d.dx() == 0 || d.dx() == 1);
        assert(d.dy() == -1 || d.dy() == 0 || d.dy() == 1);
        if d.dx() == -1 {
            assert(d.dx() * amount == -amount);
        } else if d.dx() == 1 {
            assert(d.dx() * amount == amount);
        }
        if d.dy() == -1 {
            assert(d.dy() * amount == -amount);
        } else if d.dy() == 1 {
            assert(d.dy() * amount == amount);
        }
    }
}

/// The wander counter drops by exactly one each roaming tick; a new heading
/// is taken exactly when the counter had run out, and the counter then
/// restarts from a draw in `WANDER_MIN .. WANDER_MAX`. Until then the drawn
/// heading is kept and tried on every tick, even when its moves fail.
pub proof fn lemma_wander_counter(
    e: Ennemy,
    fresh: EnnemyFacingDirection,
    fresh_counter: int,
    obstacles: Seq<HitBox>,
)
    requires
        WANDER_MIN <= fresh_counter < WANDER_MAX,
    ensures
        e.direction_counter > 0 ==> roam_result(e, fresh, fresh_counter, obstacles).direction_counter
            == e.direction_counter - 1 && roam_heading(e, fresh) == e.roam_direction,
        e.direction_counter <= 0 ==> roam_result(
            e,
            fresh,
            fresh_counter,
            obstacles,
        ).direction_counter == fresh_counter - 1 && roam_heading(e, fresh) == Some(fresh),
        roam_result(e, fresh, fresh_counter, obstacles).roam_direction == roam_heading(e, fresh),
{
}

/// A chasing enemy with a nonzero speed heads in the direction whose
/// horizontal and vertical signs are those of the vector to the player, and
/// stays put only when it stands on the player.
pub proof fn lemma_chase_follows_signs(e: Ennemy, px: int, py: int)
    requires
        e.current_speed > 0,
    ensures
        match chase_heading(e, px, py) {
            Some(d) => d.dx() == sign(px - e.x) && d.dy() == sign(py - e.y),
            None => px == e.x && py == e.y,
        },
{
}

/// An attack connects only when the probe box reaches the player and the
/// player lies in the faced direction; advancing the countdown changes
/// neither, so an enemy that fails either test keeps failing it on every
/// later tick until it moves.
pub proof fn lemma_attack_needs_reach_and_alignment(e: Ennemy, p: Player, delta: int)
    ensures
        attack_connects(e, p) ==> e.current_direction is Some && probe_hits(
            e,
            e.current_direction->Some_0,
            p,
        ) && aligned(e, e.current_direction->Some_0, p),
        attack_connects(Ennemy { attack_delay: after_tick(e.attack_delay, delta), ..e }, p)
            == attack_connects(e, p),
        attack_connects(e, Player { health: p.health, ..p }) == attack_connects(e, p),
{
}

} // verus!
