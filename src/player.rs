use vstd::prelude::*;

use crate::collisions::{hits_any, overlap, overlaps_any, overlaps_at, HitBox};
use crate::constants::{
    DEFENSE_SCALE, ENNEMY_HITBOX_HEIGHT, ENNEMY_HITBOX_WIDTH, PLAYER_BOUND, PLAYER_BOX_HEIGHT,
    PLAYER_BOX_WIDTH, PLAYER_DEFENSE_RATIO, PLAYER_HEALTH, PLAYER_NORMAL_SPEED,
    PLAYER_SPRINT_SPEED,
};
use crate::ennemies::{after_move, can_move_spec, Ennemy, EnnemyFacingDirection};
use crate::random::random_in;

verus! {

/// The single player actor.
#[derive(Clone, Copy, Debug, PartialEq, Eq, Structural)]
pub struct Player {
    pub x: i32,
    pub y: i32,
    pub facing_direction: EnnemyFacingDirection,
    pub sprinting: bool,
    pub health: i32,
}

/// The directional and sprint keys held during a tick.
#[derive(Clone, Copy, Debug, PartialEq, Eq, Structural)]
pub struct PlayerInput {
    pub left: bool,
    pub right: bool,
    pub up: bool,
    pub down: bool,
    pub sprint: bool,
}

/// The facing that the held keys select: diagonals first, then single keys;
/// with no directional key held the facing stays `current`.
pub open spec fn facing_from_keys(
    k: PlayerInput,
    current: EnnemyFacingDirection,
) -> EnnemyFacingDirection {
    if k.left && k.up {
        EnnemyFacingDirection::TopLeft
    } else if k.right && k.up {
        EnnemyFacingDirection::TopRight
    } else if k.left && k.down {
        EnnemyFacingDirection::BottomLeft
    } else if k.right && k.down {
        EnnemyFacingDirection::BottomRight
    } else if k.left {
        EnnemyFacingDirection::Left
    } else if k.right {
        EnnemyFacingDirection::Right
    } else if k.up {
        EnnemyFacingDirection::Up
    } else if k.down {
        EnnemyFacingDirection::Down
    } else {
        current
    }
}

pub open spec fn speed_of(k: PlayerInput) -> u32 {
    if k.sprint {
        PLAYER_SPRINT_SPEED
    } else {
        PLAYER_NORMAL_SPEED
    }
}

/// Where the keys ask the player to go on each axis (left wins over right, down over up).
pub open spec fn target_x(p: Player, k: PlayerInput) -> int {
    if k.left {
        p.x - speed_of(k)
    } else if k.right {
        p.x + speed_of(k)
    } else {
        p.x as int
    }
}

pub open spec fn target_y(p: Player, k: PlayerInput) -> int {
    if k.down {
        p.y - speed_of(k)
    } else if k.up {
        p.y + speed_of(k)
    } else {
        p.y as int
    }
}

pub open spec fn clamp(v: int) -> int {
    if v > PLAYER_BOUND {
        PLAYER_BOUND as int
    } else if v < -PLAYER_BOUND {
        -PLAYER_BOUND
    } else {
        v
    }
}

/// The direction in which a player facing `facing` pushes an enemy met
/// along the horizontal (or vertical) axis; none when it faces across it.
pub open spec fn push_direction(facing: EnnemyFacingDirection, horizontal: bool) -> Option<
    EnnemyFacingDirection,
> {
    if horizontal {
        if facing.dx() > 0 {
            Some(EnnemyFacingDirection::Right)
        } else if facing.dx() < 0 {
            Some(EnnemyFacingDirection::Left)
        } else {
            None
        }
    } else {
        if facing.dy() > 0 {
            Some(EnnemyFacingDirection::Up)
        } else if facing.dy() < 0 {
            Some(EnnemyFacingDirection::Down)
        } else {
            None
        }
    }
}

/// The player's tentative coordinate `v` on one axis meets enemy `k` of `es`.
/// The other coordinate is `fixed`; on a hit the enemy is pushed by `speed`,
/// and if it cannot move (or there is no push direction) `v` falls back to `start`.
pub open spec fn push_step(
    v: int,
    es: Seq<Ennemy>,
    k: int,
    horizontal: bool,
    fixed: int,
    start: int,
    push: Option<EnnemyFacingDirection>,
    speed: int,
    obstacles: Seq<HitBox>,
) -> (int, Seq<Ennemy>) {
    let e = es[k];
    let px = if horizontal {
        v
    } else {
        fixed
    };
    let py = if horizontal {
        fixed
    } else {
        v
    };
    if overlap(
        px,
        py,
        PLAYER_BOX_WIDTH as int,
        PLAYER_BOX_HEIGHT as int,
        e.x as int,
        e.y as int,
        ENNEMY_HITBOX_WIDTH as int,
        ENNEMY_HITBOX_HEIGHT as int,
    ) {
        match push {
            Some(d) => (
                if can_move_spec(e, d, speed, obstacles) {
                    v
                } else {
                    start
                },
                es.update(k, after_move(e, d, speed, obstacles)),
            ),
            None => (start, es),
        }
    } else {
        (v, es)
    }
}

/// `push_step` applied to the first `n` enemies in order.
pub open spec fn push_pass(
    n: int,
    v: int,
    es: Seq<Ennemy>,
    horizontal: bool,
    fixed: int,
    start: int,
    push: Option<EnnemyFacingDirection>,
    speed: int,
    obstacles: Seq<HitBox>,
) -> (int, Seq<Ennemy>)
    decreases n,
{
    if n <= 0 {
        (v, es)
    } else {
        let prev = push_pass(n - 1, v, es, horizontal, fixed, start, push, speed, obstacles);
        push_step(prev.0, prev.1, n - 1, horizontal, fixed, start, push, speed, obstacles)
    }
}

/// One axis of a player move: tentative step, fall back on a static
/// obstacle, push or fall back on enemies, then clamp to the play area.
pub open spec fn axis_move(
    start: int,
    target: int,
    fixed: int,
    horizontal: bool,
    push: Option<EnnemyFacingDirection>,
    speed: int,
    obstacles: Seq<HitBox>,
    es: Seq<Ennemy>,
) -> (int, Seq<Ennemy>) {
    let blocked = if horizontal {
        hits_any(target, fixed, PLAYER_BOX_WIDTH as int, PLAYER_BOX_HEIGHT as int, obstacles)
    } else {
        hits_any(fixed, target, PLAYER_BOX_WIDTH as int, PLAYER_BOX_HEIGHT as int, obstacles)
    };
    let v = if blocked {
        start
    } else {
        target
    };
    let r = push_pass(es.len() as int, v, es, horizontal, fixed, start, push, speed, obstacles);
    (clamp(r.0), r.1)
}

/// A whole player move: the horizontal axis, then the vertical one tested at
/// the old horizontal position against the enemies as the first axis left them.
pub open spec fn player_move_result(
    p: Player,
    k: PlayerInput,
    obstacles: Seq<HitBox>,
    es: Seq<Ennemy>,
) -> (Player, Seq<Ennemy>) {
    let sx = axis_move(
        p.x as int,
        target_x(p, k),
        p.y as int,
        true,
        push_direction(p.facing_direction, true),
        speed_of(k) as int,
        obstacles,
        es,
    );
    let sy = axis_move(
        p.y as int,
        target_y(p, k),
        p.x as int,
        false,
        push_direction(p.facing_direction, false),
        speed_of(k) as int,
        obstacles,
        sx.1,
    );
    (Player { x: sx.0 as i32, y: sy.0 as i32, sprinting: k.sprint, ..p }, sy.1)
}

/// Runs the enemy half of one axis of a player move; see `push_pass`.
fn push_ennemies(
    v: i32,
    horizontal: bool,
    fixed: i32,
    start: i32,
    push: Option<EnnemyFacingDirection>,
    speed: u32,
    obstacles: &Vec<HitBox>,
    ennemies: &mut Vec<Ennemy>,
) -> (r: i32)
    requires
        v == start || v == start - speed || v == start + speed,
    ensures
        (r as int, final(ennemies)@) == push_pass(
            old(ennemies).len() as int,
            v as int,
            old(ennemies)@,
            horizontal,
            fixed as int,
            start as int,
            push,
            speed as int,
            obstacles@,
        ),
        r == v || r == start,
{
    let ghost es0 = ennemies@;
    let mut cur = v;
    let mut i: usize = 0;
    while i < ennemies.len()
        invariant
            0 <= i <= ennemies.len(),
            ennemies.len() == es0.len(),
            cur == v || cur == start,
            (cur as int, ennemies@) == push_pass(
                i as int,
                v as int,
                es0,
                horizontal,
                fixed as int,
                start as int,
                push,
                speed as int,
                obstacles@,
            ),
        decreases ennemies.len() - i,
    {
        let e = ennemies[i];
        let (px, py) = if horizontal {
            (cur, fixed)
        } else {
            (fixed, cur)
        };
        if overlaps_at(px, py, PLAYER_BOX_WIDTH, PLAYER_BOX_HEIGHT, &e.get_hitbox()) {
            match push {
                Some(d) => {
                    let mut pushed = e;
                    if !pushed.move_in_direction(&d, speed, obstacles) {
                        cur = start;
                    }
                    ennemies.set(i, pushed);
                },
                None => {
                    cur = start;
                },
            }
        }
        i += 1;
    }
    cur
}

impl Player {
    /// A player at the origin, facing right, not sprinting, at full health.
    pub fn new() -> (p: Player)
        ensures
            p == (Player {
                x: 0,
                y: 0,
                facing_direction: EnnemyFacingDirection::Right,
                sprinting: false,
                health: PLAYER_HEALTH,
            }),
    {
        Player {
            x: 0,
            y: 0,
            facing_direction: EnnemyFacingDirection::Right,
            sprinting: false,
            health: PLAYER_HEALTH,
        }
    }

    pub open spec fn wf(self) -> bool {
        &&& -PLAYER_BOUND <= self.x <= PLAYER_BOUND
        &&& -PLAYER_BOUND <= self.y <= PLAYER_BOUND
    }

    pub fn is_facing_left(&self) -> (r: bool)
        ensures
            r == (self.facing_direction.dx() < 0),
    {
        self.facing_direction.x_sign() < 0
    }

    pub fn is_facing_right(&self) -> (r: bool)
        ensures
            r == (self.facing_direction.dx() > 0),
    {
        self.facing_direction.x_sign() > 0
    }

    pub fn is_facing_up(&self) -> (r: bool)
        ensures
            r == (self.facing_direction.dy() > 0),
    {
        self.facing_direction.y_sign() > 0
    }

    pub fn is_facing_down(&self) -> (r: bool)
        ensures
            r == (self.facing_direction.dy() < 0),
    {
        self.facing_direction.y_sign() < 0
    }

    /// Updates the facing from the held keys; it is kept when none is held.
    pub fn player_facing_direction(&mut self, keys: &PlayerInput)
        ensures
            *final(self) == (Player {
                facing_direction: facing_from_keys(*keys, old(self).facing_direction),
                ..*old(self)
            }),
    {
        if keys.left && keys.up {
            self.facing_direction = EnnemyFacingDirection::TopLeft;
        } else if keys.right && keys.up {
            self.facing_direction = EnnemyFacingDirection::TopRight;
        } else if keys.left && keys.down {
            self.facing_direction = EnnemyFacingDirection::BottomLeft;
        } else if keys.right && keys.down {
            self.facing_direction = EnnemyFacingDirection::BottomRight;
        } else if keys.left {
            self.facing_direction = EnnemyFacingDirection::Left;
        } else if keys.right {
            self.facing_direction = EnnemyFacingDirection::Right;
        } else if keys.up {
            self.facing_direction = EnnemyFacingDirection::Up;
        } else if keys.down {
            self.facing_direction = EnnemyFacingDirection::Down;
        }
    }

    /// Moves the player one tick from the held keys: each axis is stepped
    /// on its own, undone against a static obstacle, pushes the enemies it
    /// meets in the facing direction (undone if one cannot move), and is
    /// finally clamped to the play area.
    pub fn player_move(
        &mut self,
        keys: &PlayerInput,
        obstacles: &Vec<HitBox>,
        ennemies: &mut Vec<Ennemy>,
    )
        requires
            old(self).wf(),
        ensures
            final(self).wf(),
            (*final(self), final(ennemies)@) == player_move_result(
                *old(self),
                *keys,
                obstacles@,
                old(ennemies)@,
            ),
    {
        let speed: u32 = if keys.sprint {
            PLAYER_SPRINT_SPEED
        } else {
            PLAYER_NORMAL_SPEED
        };
        self.sprinting = keys.sprint;
        let actual_x = self.x;
        let actual_y = self.y;

        let mut new_x: i32 = if keys.left {
            actual_x - speed as i32
        } else if keys.right {
            actual_x + speed as i32
        } else {
            actual_x
        };
        if overlaps_any(new_x, actual_y, PLAYER_BOX_WIDTH, PLAYER_BOX_HEIGHT, obstacles) {
            new_x = actual_x;
        }
        let push_x = if self.is_facing_right() {
            Some(EnnemyFacingDirection::Right)
        } else if self.is_facing_left() {
            Some(EnnemyFacingDirection::Left)
        } else {
            None
        };
        new_x = push_ennemies(new_x, true, actual_y, actual_x, push_x, speed, obstacles, ennemies);
        if new_x > PLAYER_BOUND {
            new_x = PLAYER_BOUND;
        } else if new_x < -PLAYER_BOUND {
            new_x = -PLAYER_BOUND;
        }

        let mut new_y: i32 = if keys.down {
            actual_y - speed as i32
        } else if keys.up {
            actual_y + speed as i32
        } else {
            actual_y
        };
        if overlaps_any(actual_x, new_y, PLAYER_BOX_WIDTH, PLAYER_BOX_HEIGHT, obstacles) {
            new_y = actual_y;
        }
        let push_y = if self.is_facing_up() {
            Some(EnnemyFacingDirection::Up)
        } else if self.is_facing_down() {
            Some(EnnemyFacingDirection::Down)
        } else {
            None
        };
        new_y = push_ennemies(new_y, false, actual_x, actual_y, push_y, speed, obstacles, ennemies);
        if new_y > PLAYER_BOUND {
            new_y = PLAYER_BOUND;
        } else if new_y < -PLAYER_BOUND {
            new_y = -PLAYER_BOUND;
        }

        self.x = new_x;
        self.y = new_y;
    }

    pub fn is_dead(&self) -> (r: bool)
        ensures
            r == (self.health <= 0),
    {
        self.health <= 0
    }

    pub fn get_health(&self) -> (r: i32)
        ensures
            r == self.health,
    {
        self.health
    }

    pub fn get_pos(&self) -> (r: (i32, i32))
        ensures
            r == (self.x, self.y),
    {
        (self.x, self.y)
    }

    pub open spec fn hitbox(self) -> HitBox {
        HitBox { x: self.x, y: self.y, width: PLAYER_BOX_WIDTH, height: PLAYER_BOX_HEIGHT }
    }

    /// The box other actors test against: centered on the player.
    pub fn get_hitbox(&self) -> (r: HitBox)
        ensures
            r == self.hitbox(),
    {
        HitBox { x: self.x, y: self.y, width: PLAYER_BOX_WIDTH, height: PLAYER_BOX_HEIGHT }
    }

    /// Applies an attack of power `attack` given the random draw `roll`
    /// (in millionths): it lands exactly when `roll` exceeds the player's
    /// defense ratio, and then lowers health by `attack`.
    pub fn resolve_attack(&mut self, attack: i32, roll: u32) -> (landed: bool)
        requires
            roll > PLAYER_DEFENSE_RATIO ==> i32::MIN <= old(self).health - attack <= i32::MAX,
        ensures
            landed == (roll > PLAYER_DEFENSE_RATIO),
            *final(self) == (if landed {
                Player { health: (old(self).health - attack) as i32, ..*old(self) }
            } else {
                *old(self)
            }),
    {
        if roll > PLAYER_DEFENSE_RATIO {
            self.health = self.health - attack;
            true
        } else {
            false
        }
    }

    /// Applies an attack of power `attack` with a fresh random draw; whether
    /// it lands is up to chance, what it does when it lands is not.
    pub fn get_attacked(&mut self, attack: i32) -> (landed: bool)
        requires
            i32::MIN <= old(self).health - attack <= i32::MAX,
        ensures
            *final(self) == (if landed {
                Player { health: (old(self).health - attack) as i32, ..*old(self) }
            } else {
                *old(self)
            }),
    {
        let roll = random_in(0, DEFENSE_SCALE as i64);
        self.resolve_attack(attack, roll as u32)
    }
}

} // verus!
