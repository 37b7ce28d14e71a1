//! The game state machine: per-tick orchestration of input, collision
//! checks, death and win detection, pill resolution, movement and pill
//! spawning, in a fixed order every tick.

use vstd::prelude::*;
use crate::collision::{
    actor_collision, boundary_collision, exit_collision, first_hit_index, lemma_first_hit_skip,
    lemma_no_boundary_hit_head_in_arena, pill_collision, self_collision, spec_actor_collision,
    spec_boundary_collision, spec_exit_collision, spec_self_collision, wf_pills, Contact,
};
use crate::constants::{
    ENEMY_SPEED, EXIT_H, EXIT_W, EXIT_X, EXIT_Y, MAX_SPEED, MAX_STEP, MAX_TOTAL, PLAYER_SPEED,
    PLAYER_START_X, PLAYER_START_Y, SPAWN_ODDS, SPEED_BONUS,
};
use crate::entity::{
    spec_expand, spec_tick_distance, spec_trim_amount, AiSnek, Boundary, Exit, Snek,
};
use crate::geometry::{Direction, Point2d, Rect};
use crate::input::{direction, spec_direction, KeyState};
use crate::path::{spec_accept, spec_advance, spec_trim, step_clear};
use crate::pill::{kind_for_roll, spec_kind_for_roll, GameMode, Pill, PillType};

verus! {

/// Everything one tick draws from the process-wide generator, gathered
/// so that the deterministic tick can take it as plain values: the
/// spawn-odds roll, the pill-kind roll, two position rolls for a spawned
/// pill, two for a rival spawned by a pill, and one turn flip per rival
/// (one more than currently exist, for a rival spawned this very tick).
pub struct TickRolls {
    pub spawn: u64,
    pub kind: u64,
    pub pill_x: u64,
    pub pill_y: u64,
    pub enemy_x: u64,
    pub enemy_y: u64,
    pub turns: Vec<bool>,
}

/// The whole game state.
pub struct SnekGame {
    pub mode: GameMode,
    /// False until the first directional input; nothing moves before.
    pub ready: bool,
    pub game_over: bool,
    pub win: bool,
    pub frame_number: u64,
    pub exit: Exit,
    pub snek: Snek,
    pub boundary: Boundary,
    pub pills: Vec<Pill>,
    pub frames_since_pill_spawn: u64,
    pub enemy_sneks: Vec<AiSnek>,
}

impl SnekGame {
    /// Structural invariant: every actor, the arena, and every pill are
    /// well formed; the exit hatch sits at its fixed place; a won game
    /// is over.
    pub open spec fn wf(self) -> bool {
        &&& self.snek.wf()
        &&& self.boundary.wf()
        &&& wf_pills(self.pills@)
        &&& forall|i: int|
            0 <= i < self.enemy_sneks@.len() ==> (#[trigger] self.enemy_sneks@[i]).wf()
        &&& self.exit.rect == (Rect { x: EXIT_X, y: EXIT_Y, width: EXIT_W, height: EXIT_H })
        &&& self.win ==> self.game_over
    }

    /// Head room for one more tick: the counters can still count and no
    /// body is within one step of the length cap.  Growth is about two
    /// subunits a tick, so a run would take centuries to exhaust this.
    pub open spec fn spec_can_step(self) -> bool {
        &&& self.frame_number < u64::MAX
        &&& self.frames_since_pill_spawn < u64::MAX
        &&& self.enemy_sneks@.len() + 2 <= usize::MAX
        &&& self.snek.path.total() + MAX_STEP <= MAX_TOTAL
        &&& forall|i: int|
            0 <= i < self.enemy_sneks@.len() ==> (#[trigger] self.enemy_sneks@[i]).snek.path.total()
                + MAX_STEP <= MAX_TOTAL
    }

    /// Executable head-room test, for a driver that wants to stop
    /// cleanly rather than call `update` out of contract.
    pub fn can_step(&self) -> (r: bool)
        requires
            self.wf(),
        ensures
            r == self.spec_can_step(),
    {
        if self.frame_number == u64::MAX || self.frames_since_pill_spawn == u64::MAX {
            return false;
        }
        if self.enemy_sneks.len() > usize::MAX - 2 {
            return false;
        }
        if self.snek.path.total_length() + MAX_STEP > MAX_TOTAL {
            return false;
        }
        let mut i: usize = 0;
        while i < self.enemy_sneks.len()
            invariant
                self.wf(),
                0 <= i <= self.enemy_sneks@.len(),
                forall|k: int|
                    0 <= k < i ==> (#[trigger] self.enemy_sneks@[k]).snek.path.total() + MAX_STEP
                        <= MAX_TOTAL,
            decreases self.enemy_sneks@.len() - i,
        {
            if self.enemy_sneks[i].snek.path.total_length() + MAX_STEP > MAX_TOTAL {
                return false;
            }
            i = i + 1;
        }
        true
    }

    /// A fresh game in the given mode: not yet ready, player at the
    /// starting point facing up, the arena at its starting rectangle,
    /// no pills and no rivals.
    pub fn with_mode(mode: GameMode) -> (g: SnekGame)
        ensures
            g.wf(),
            g.spec_can_step(),
            g.mode == mode,
            !g.ready,
            !g.game_over,
            !g.win,
            g.frame_number == 0,
            g.frames_since_pill_spawn == 0,
            g.pills@.len() == 0,
            g.enemy_sneks@.len() == 0,
            g.snek.speed == PLAYER_SPEED,
            g.snek.color@ == "white"@,
            g.snek.direction == Direction::Up,
            g.snek.path@ == Snek::spec_initial_points(
                Point2d { x: PLAYER_START_X, y: PLAYER_START_Y },
                Direction::Up,
            ),
            g.boundary.spec_rect() == (Rect {
                x: crate::constants::ARENA_START_X,
                y: crate::constants::ARENA_START_Y,
                width: crate::constants::ARENA_START_W,
                height: crate::constants::ARENA_START_H,
            }),
    {
        SnekGame {
            mode,
            ready: false,
            game_over: false,
            win: false,
            frame_number: 0,
            exit: Exit::new(),
            snek: Snek::new(
                "white".to_owned(),
                PLAYER_SPEED,
                Point2d { x: PLAYER_START_X, y: PLAYER_START_Y },
                Direction::Up,
            ),
            boundary: Boundary::new(),
            pills: Vec::new(),
            frames_since_pill_spawn: 0,
            enemy_sneks: Vec::new(),
        }
    }

    /// A fresh extended-mode game, rivals and exit included.
    pub fn new() -> (g: SnekGame)
        ensures
            g.wf(),
            g.spec_can_step(),
            g.mode == GameMode::Extended,
            !g.ready,
            !g.game_over,
            !g.win,
            g.frame_number == 0,
            g.frames_since_pill_spawn == 0,
            g.pills@.len() == 0,
            g.enemy_sneks@.len() == 0,
            g.snek.speed == PLAYER_SPEED,
            g.snek.color@ == "white"@,
            g.snek.direction == Direction::Up,
            g.snek.path@ == Snek::spec_initial_points(
                Point2d { x: PLAYER_START_X, y: PLAYER_START_Y },
                Direction::Up,
            ),
            g.boundary.spec_rect() == (Rect {
                x: crate::constants::ARENA_START_X,
                y: crate::constants::ARENA_START_Y,
                width: crate::constants::ARENA_START_W,
                height: crate::constants::ARENA_START_H,
            }),
    {
        Self::with_mode(GameMode::Extended)
    }

    /// The player's head hit something deadly: its own body, the arena
    /// wall, or a rival's body.
    pub open spec fn spec_player_deadly(self) -> bool {
        ||| spec_self_collision(self.snek)
        ||| spec_boundary_collision(self.snek, self.boundary.spec_rect())
        ||| exists|i: int|
            0 <= i < self.enemy_sneks@.len() && spec_actor_collision(
                self.snek,
                (#[trigger] self.enemy_sneks@[i]).snek,
            )
    }

    /// What the player ran into this tick, in check order: the exit
    /// first, then anything deadly, then the first pill in list order.
    pub open spec fn spec_player_collision(self) -> Option<Contact> {
        if spec_exit_collision(self.snek, self.exit) {
            Option::Some(Contact::Exit)
        } else if self.spec_player_deadly() {
            Option::Some(Contact::Deadly)
        } else {
            match first_hit_index(self.snek, self.pills@, 0) {
                Option::Some(i) => Option::Some(Contact::Pill(i as usize)),
                Option::None => Option::None,
            }
        }
    }

    /// Executable player-collision check.
    pub fn player_collision(&self) -> (c: Option<Contact>)
        requires
            self.wf(),
        ensures
            c == self.spec_player_collision(),
    {
        if exit_collision(&self.snek, &self.exit) {
            return Option::Some(Contact::Exit);
        }
        if self_collision(&self.snek) || boundary_collision(&self.snek, self.boundary.rect()) {
            return Option::Some(Contact::Deadly);
        }
        let mut i: usize = 0;
        while i < self.enemy_sneks.len()
            invariant
                self.wf(),
                0 <= i <= self.enemy_sneks@.len(),
                !spec_exit_collision(self.snek, self.exit),
                !spec_self_collision(self.snek),
                !spec_boundary_collision(self.snek, self.boundary.spec_rect()),
                forall|k: int|
                    0 <= k < i ==> !spec_actor_collision(
                        self.snek,
                        (#[trigger] self.enemy_sneks@[k]).snek,
                    ),
            decreases self.enemy_sneks@.len() - i,
        {
            if actor_collision(&self.snek, &self.enemy_sneks[i].snek) {
                return Option::Some(Contact::Deadly);
            }
            i = i + 1;
        }
        let r = pill_collision(&self.snek, &self.pills);
        match r {
            Option::Some(i) => {
                proof {
                    lemma_first_hit_skip(self.snek, self.pills@, i as int);
                }
                Option::Some(Contact::Pill(i))
            },
            Option::None => {
                proof {
                    lemma_first_hit_skip(self.snek, self.pills@, self.pills@.len() as int);
                }
                Option::None
            },
        }
    }

    /// Rival `i` hit something that kills it this tick: itself, the
    /// player, the arena wall, or another rival.
    pub open spec fn spec_enemy_doomed(self, i: int) -> bool {
        let e = self.enemy_sneks@[i].snek;
        ||| spec_self_collision(e)
        ||| spec_actor_collision(e, self.snek)
        ||| spec_boundary_collision(e, self.boundary.spec_rect())
        ||| exists|j: int|
            0 <= j < self.enemy_sneks@.len() && j != i && spec_actor_collision(
                e,
                (#[trigger] self.enemy_sneks@[j]).snek,
            )
    }

    /// Marks every rival that collided this tick as dead; dead rivals
    /// stop moving but their bodies stay on as obstacles.  Nothing else
    /// changes.
    #[verifier::loop_isolation(false)]
    fn mark_doomed_enemies(&mut self)
        requires
            old(self).wf(),
        ensures
            final(self).wf(),
            *final(self) == (SnekGame { enemy_sneks: final(self).enemy_sneks, ..*old(self) }),
            final(self).enemy_sneks@.len() == old(self).enemy_sneks@.len(),
            forall|i: int|
                0 <= i < old(self).enemy_sneks@.len() ==> #[trigger] final(self).enemy_sneks@[i]
                    == (AiSnek {
                    alive: old(self).enemy_sneks@[i].alive && !old(self).spec_enemy_doomed(i),
                    ..old(self).enemy_sneks@[i]
                }),
    {
        let n = self.enemy_sneks.len();
        let mut doomed: Vec<bool> = Vec::new();
        let mut i: usize = 0;
        while i < n
            invariant
                0 <= i <= n,
                doomed@.len() == i,
                forall|k: int| 0 <= k < i ==> #[trigger] doomed@[k] == self.spec_enemy_doomed(k),
            decreases n - i,
        {
            let e = &self.enemy_sneks[i];
            let mut hit = self_collision(&e.snek) || actor_collision(&e.snek, &self.snek)
                || boundary_collision(&e.snek, self.boundary.rect());
            let mut j: usize = 0;
            while j < n
                invariant
                    0 <= j <= n,
                    i < n,
                    *e == self.enemy_sneks@[i as int],
                    hit == ({
                        ||| spec_self_collision(e.snek)
                        ||| spec_actor_collision(e.snek, self.snek)
                        ||| spec_boundary_collision(e.snek, self.boundary.spec_rect())
                        ||| exists|k: int|
                            0 <= k < j && k != i && spec_actor_collision(
                                e.snek,
                                (#[trigger] self.enemy_sneks@[k]).snek,
                            )
                    }),
                decreases n - j,
            {
                if j != i && actor_collision(&e.snek, &self.enemy_sneks[j].snek) {
                    hit = true;
                }
                j = j + 1;
            }
            doomed.push(hit);
            i = i + 1;
        }
        let ghost pre = *self;
        i = 0;
        while i < n
            invariant
                0 <= i <= n,
                *self == (SnekGame { enemy_sneks: self.enemy_sneks, ..pre }),
                self.enemy_sneks@.len() == n,
                doomed@.len() == n,
                forall|k: int| 0 <= k < n ==> #[trigger] doomed@[k] == pre.spec_enemy_doomed(k),
                forall|k: int|
                    i <= k < n ==> #[trigger] self.enemy_sneks@[k] == pre.enemy_sneks@[k],
                forall|k: int|
                    0 <= k < i ==> #[trigger] self.enemy_sneks@[k] == (AiSnek {
                        alive: pre.enemy_sneks@[k].alive && !pre.spec_enemy_doomed(k),
                        ..pre.enemy_sneks@[k]
                    }),
            decreases n - i,
        {
            if doomed[i] {
                let e = vstd::std_specs::vec::vec_index_mut(&mut self.enemy_sneks, i);
                e.die();
            } else {
                proof {
                    assert(self.enemy_sneks@[i as int] == (AiSnek {
                        alive: pre.enemy_sneks@[i as int].alive && !pre.spec_enemy_doomed(i as int),
                        ..pre.enemy_sneks@[i as int]
                    }));
                }
            }
            i = i + 1;
        }
    }

    /// Applies the effect of pill `i` per the resolution table and
    /// removes the pill from the list.  `spawn_pt` is where a rival
    /// spawned by a `SpawnEnemySnek` pill appears.
    fn resolve_pill(&mut self, i: usize, spawn_pt: Point2d)
        requires
            old(self).wf(),
            i < old(self).pills@.len(),
            -crate::constants::COORD_LIMIT + crate::constants::TAIL_OFFSET <= spawn_pt.x
                <= crate::constants::COORD_LIMIT - crate::constants::TAIL_OFFSET,
            -crate::constants::COORD_LIMIT + crate::constants::TAIL_OFFSET <= spawn_pt.y
                <= crate::constants::COORD_LIMIT - crate::constants::TAIL_OFFSET,
        ensures
            final(self).wf(),
            final(self).pills@ == old(self).pills@.remove(i as int),
            final(self).mode == old(self).mode,
            final(self).ready == old(self).ready,
            final(self).game_over == old(self).game_over,
            final(self).win == old(self).win,
            final(self).frame_number == old(self).frame_number,
            final(self).frames_since_pill_spawn == old(self).frames_since_pill_spawn,
            final(self).exit == old(self).exit,
            ({
                let k = old(self).pills@[i as int].pill_type;
                &&& final(self).boundary.spec_rect() == (if k is ExpandBoundary {
                    spec_expand(old(self).boundary.spec_rect())
                } else {
                    old(self).boundary.spec_rect()
                })
                &&& final(self).snek.path@ == (if k is ShortenSnek {
                    spec_trim(old(self).snek.path@, old(self).snek.path.total() / 10)
                } else {
                    old(self).snek.path@
                })
                &&& final(self).snek.speed == (if k is IncreaseSpeed {
                    spec_clamped_speed(old(self).snek.speed as int, SPEED_BONUS as int)
                } else {
                    old(self).snek.speed as int
                })
                &&& final(self).snek.direction == old(self).snek.direction
                &&& final(self).snek.color == old(self).snek.color
                &&& final(self).snek.path.spec_head() == old(self).snek.path.spec_head()
                &&& final(self).snek.path.total() <= old(self).snek.path.total()
                &&& final(self).enemy_sneks@.len() == old(self).enemy_sneks@.len() + (
                if k is SpawnEnemySnek {
                    1int
                } else {
                    0int
                })
                &&& forall|j: int|
                    0 <= j < old(self).enemy_sneks@.len() ==> final(self).enemy_sneks@[j] == (
                    #[trigger] old(self).enemy_sneks@[j])
                &&& k is SpawnEnemySnek ==> ({
                    let e = final(self).enemy_sneks@[old(self).enemy_sneks@.len() as int];
                    &&& e.alive
                    &&& e.frames_since_turn == 0
                    &&& e.snek.color@ == "red"@
                    &&& e.snek.speed == ENEMY_SPEED
                    &&& e.snek.direction == Direction::Up
                    &&& e.snek.path@ == Snek::spec_initial_points(spawn_pt, Direction::Up)
                    &&& e.snek.path.total() == crate::constants::TAIL_OFFSET
                })
            }),
    {
        let pill = self.pills.remove(i);
        match pill.pill_type {
            PillType::ExpandBoundary => {
                self.boundary.expand();
            },
            PillType::ShortenSnek => {
                self.snek.shorten(1, 10);
            },
            PillType::SpawnEnemySnek => {
                let e = AiSnek::new("red".to_owned(), ENEMY_SPEED, spawn_pt, Direction::Up);
                self.enemy_sneks.push(e);
            },
            PillType::IncreaseSpeed => {
                self.snek.increase_speed(SPEED_BONUS);
            },
        }
    }

    /// The spawn scheduler: a pill spawns this tick exactly when the
    /// spawn roll, reduced modulo `SPAWN_ODDS`, lands under the
    /// frames-since-last-spawn counter — probability
    /// `min(1, counter / SPAWN_ODDS)` for a uniform roll, growing
    /// linearly with the time since the last spawn.  The spawned pill's
    /// kind comes uniformly from the mode's kind set, its position from
    /// the arena's margin-inset interior, and the counter resets.
    fn maybe_spawn_pill(&mut self, spawn: u64, kind: u64, px: u64, py: u64)
        requires
            old(self).wf(),
        ensures
            final(self).wf(),
            *final(self) == (SnekGame {
                pills: final(self).pills,
                frames_since_pill_spawn: final(self).frames_since_pill_spawn,
                ..*old(self)
            }),
            ({
                let spawned = spawn % SPAWN_ODDS < old(self).frames_since_pill_spawn;
                let newpill = Pill {
                    pill_type: spec_kind_for_roll(old(self).mode, kind),
                    position: Boundary::spec_interior_point(old(self).boundary.spec_rect(), px, py),
                };
                &&& final(self).pills@ == (if spawned {
                    old(self).pills@.push(newpill)
                } else {
                    old(self).pills@
                })
                &&& final(self).frames_since_pill_spawn == (if spawned {
                    0int
                } else {
                    old(self).frames_since_pill_spawn as int
                })
            }),
    {
        if spawn % SPAWN_ODDS < self.frames_since_pill_spawn {
            let p = self.boundary.interior_point(px, py);
            let k = kind_for_roll(self.mode, kind);
            self.pills.push(Pill::new(k, p.x, p.y));
            self.frames_since_pill_spawn = 0;
        }
    }

    /// Moves every rival one tick, flipping rival `k`'s possible turn
    /// by `turns[k]`.  Dead rivals stay put.  Nothing else changes.
    #[verifier::loop_isolation(false)]
    #[verifier::spinoff_prover]
    fn move_rivals(&mut self, turns: &Vec<bool>)
        requires
            old(self).wf(),
            turns@.len() >= old(self).enemy_sneks@.len(),
            forall|k: int|
                0 <= k < old(self).enemy_sneks@.len() && (
                #[trigger] old(self).enemy_sneks@[k]).alive ==> step_clear(
                    old(self).enemy_sneks@[k].snek.path.spec_head(),
                ),
            forall|k: int|
                0 <= k < old(self).enemy_sneks@.len() ==> (
                #[trigger] old(self).enemy_sneks@[k]).snek.path.total() + MAX_STEP <= MAX_TOTAL,
        ensures
            final(self).wf(),
            *final(self) == (SnekGame { enemy_sneks: final(self).enemy_sneks, ..*old(self) }),
            final(self).enemy_sneks@.len() == old(self).enemy_sneks@.len(),
            forall|k: int|
                0 <= k < old(self).enemy_sneks@.len() ==> AiSnek::step_rel(
                    old(self).enemy_sneks@[k],
                    #[trigger] final(self).enemy_sneks@[k],
                    turns@[k],
                ),
    {
        let n = self.enemy_sneks.len();
        let mut i: usize = 0;
        while i < n
            invariant
                0 <= i <= n,
                n == self.enemy_sneks@.len(),
                *self == (SnekGame { enemy_sneks: self.enemy_sneks, ..*old(self) }),
                forall|k: int|
                    i <= k < n ==> #[trigger] self.enemy_sneks@[k] == old(self).enemy_sneks@[k],
                forall|k: int| 0 <= k < i ==> (#[trigger] self.enemy_sneks@[k]).wf(),
                forall|k: int|
                    0 <= k < i ==> AiSnek::step_rel(
                        old(self).enemy_sneks@[k],
                        #[trigger] self.enemy_sneks@[k],
                        turns@[k],
                    ),
            decreases n - i,
        {
            let choice = turns[i];
            let e = vstd::std_specs::vec::vec_index_mut(&mut self.enemy_sneks, i);
            e.step(choice);
            i = i + 1;
        }
    }

    /// The check-and-resolve half of a tick of a ready, unfinished
    /// game: exit, deadly and pill checks for the player; rival death
    /// marking; pill resolution; the player's move.  Rivals do not move
    /// here.
    #[verifier::rlimit(100)]
    #[verifier::spinoff_prover]
    fn tick_resolve(&mut self, key_state: &KeyState, ex: u64, ey: u64)
        requires
            old(self).wf(),
            old(self).ready,
            !old(self).game_over,
            old(self).snek.path.total() + MAX_STEP <= MAX_TOTAL,
        ensures
            final(self).wf(),
            if spec_exit_collision(old(self).snek, old(self).exit) {
                *final(self) == (SnekGame { game_over: true, win: true, ..*old(self) })
            } else if old(self).spec_player_deadly() {
                *final(self) == (SnekGame { game_over: true, ..*old(self) })
            } else {
                spec_after_checks(*old(self), *final(self), *key_state, ex, ey)
            },
    {
        let pc = self.player_collision();
        proof {
            crate::collision::lemma_first_hit_found(old(self).snek, old(self).pills@, 0);
        }
        match pc {
            Option::Some(Contact::Exit) => {
                self.game_over = true;
                self.win = true;
                return ;
            },
            Option::Some(Contact::Deadly) => {
                self.game_over = true;
                return ;
            },
            _ => {},
        }
        self.mark_doomed_enemies();
        let ghost marked = *self;
        let spawn_pt = self.boundary.interior_point(ex, ey);
        if let Option::Some(Contact::Pill(i)) = pc {
            self.resolve_pill(i, spawn_pt);
        }
        let ghost resolved = *self;
        proof {
            lemma_no_boundary_hit_head_in_arena(old(self).snek, old(self).boundary.spec_rect());
        }
        self.snek.update(key_state);
        proof {
            let pre = *old(self);
            let n0 = pre.enemy_sneks@.len() as int;
            assert(self.enemy_sneks == resolved.enemy_sneks);
            assert forall|k: int| 0 <= k < n0 implies #[trigger] self.enemy_sneks@[k] == (AiSnek {
                alive: pre.enemy_sneks@[k].alive && !pre.spec_enemy_doomed(k),
                ..pre.enemy_sneks@[k]
            }) by {
                assert(resolved.enemy_sneks@[k] == marked.enemy_sneks@[k]);
                assert(marked.enemy_sneks@[k] == (AiSnek {
                    alive: pre.enemy_sneks@[k].alive && !pre.spec_enemy_doomed(k),
                    ..pre.enemy_sneks@[k]
                }));
            }
            let hit = first_hit_index(pre.snek, pre.pills@, 0);
            let hit_kind = match hit {
                Option::Some(i) => Option::Some(pre.pills@[i].pill_type),
                Option::None => Option::<PillType>::None,
            };
            assert(pre.pills@.len() <= usize::MAX) by {
                assert(vstd::std_specs::vec::spec_vec_len(&pre.pills) == pre.pills@.len());
            }
            assert(match pc {
                Option::Some(Contact::Pill(i)) => hit == Option::Some(i as int),
                Option::None => hit is None,
                _ => false,
            });
        }
    }

    /// A full tick of a ready, unfinished game, after the
    /// bookkeeping: the checks and resolution of `tick_resolve`, then
    /// every rival's move and the possible pill spawn.
    #[verifier::rlimit(100)]
    #[verifier::spinoff_prover]
    fn tick_body(&mut self, key_state: &KeyState, rolls: &TickRolls)
        requires
            old(self).wf(),
            old(self).ready,
            !old(self).game_over,
            old(self).snek.path.total() + MAX_STEP <= MAX_TOTAL,
            forall|i: int|
                0 <= i < old(self).enemy_sneks@.len() ==> (
                #[trigger] old(self).enemy_sneks@[i]).snek.path.total() + MAX_STEP <= MAX_TOTAL,
            rolls.turns@.len() > old(self).enemy_sneks@.len(),
        ensures
            final(self).wf(),
            if spec_exit_collision(old(self).snek, old(self).exit) {
                *final(self) == (SnekGame { game_over: true, win: true, ..*old(self) })
            } else if old(self).spec_player_deadly() {
                *final(self) == (SnekGame { game_over: true, ..*old(self) })
            } else {
                spec_running_tick(
                    *old(self),
                    *final(self),
                    *key_state,
                    rolls.spawn,
                    rolls.kind,
                    rolls.pill_x,
                    rolls.pill_y,
                    rolls.enemy_x,
                    rolls.enemy_y,
                    rolls.turns@,
                )
            },
    {
        self.tick_resolve(key_state, rolls.enemy_x, rolls.enemy_y);
        if self.game_over {
            return ;
        }
        let ghost pre = *old(self);
        let ghost mid = *self;
        let ghost n0 = pre.enemy_sneks@.len() as int;
        proof {
            assert forall|k: int|
                0 <= k < mid.enemy_sneks@.len() implies ((#[trigger] mid.enemy_sneks@[k]).alive
                ==> step_clear(mid.enemy_sneks@[k].snek.path.spec_head()))
                && mid.enemy_sneks@[k].snek.path.total() + MAX_STEP <= MAX_TOTAL by {
                if k < n0 {
                    assert(mid.enemy_sneks@[k].snek == pre.enemy_sneks@[k].snek);
                    if mid.enemy_sneks@[k].alive {
                        assert(!pre.spec_enemy_doomed(k));
                        lemma_no_boundary_hit_head_in_arena(
                            pre.enemy_sneks@[k].snek,
                            pre.boundary.spec_rect(),
                        );
                    }
                } else {
                    assert(mid.enemy_sneks@[k].snek.path@.last()
                        == Boundary::spec_interior_point(
                        pre.boundary.spec_rect(),
                        rolls.enemy_x,
                        rolls.enemy_y,
                    ));
                }
            }
        }
        self.move_rivals(&rolls.turns);
        let ghost moved = *self;
        self.maybe_spawn_pill(rolls.spawn, rolls.kind, rolls.pill_x, rolls.pill_y);
        proof {
            assert(self.enemy_sneks == moved.enemy_sneks);
            assert forall|k: int|
                0 <= k < n0 implies AiSnek::step_rel(
                AiSnek {
                    alive: pre.enemy_sneks@[k].alive && !pre.spec_enemy_doomed(k),
                    ..pre.enemy_sneks@[k]
                },
                #[trigger] self.enemy_sneks@[k],
                rolls.turns@[k],
            ) by {
                assert(self.enemy_sneks@[k] == moved.enemy_sneks@[k]);
                assert(AiSnek::step_rel(
                    mid.enemy_sneks@[k],
                    moved.enemy_sneks@[k],
                    rolls.turns@[k],
                ));
                assert(mid.enemy_sneks@[k] == (AiSnek {
                    alive: pre.enemy_sneks@[k].alive && !pre.spec_enemy_doomed(k),
                    ..pre.enemy_sneks@[k]
                }));
            }
            let hit = first_hit_index(pre.snek, pre.pills@, 0);
            if hit is Some && pre.pills@[hit->0].pill_type is SpawnEnemySnek {
                assert(self.enemy_sneks@[n0] == moved.enemy_sneks@[n0]);
                assert(AiSnek::step_rel(
                    mid.enemy_sneks@[n0],
                    moved.enemy_sneks@[n0],
                    rolls.turns@[n0],
                ));
                assert(spec_fresh_rival(
                    self.enemy_sneks@[n0],
                    Boundary::spec_interior_point(
                        pre.boundary.spec_rect(),
                        rolls.enemy_x,
                        rolls.enemy_y,
                    ),
                ));
            }
        }
    }

    /// One deterministic simulation tick, every random draw handed in
    /// as a plain value.  A finished game's tick changes nothing — the
    /// terminal states are terminal.  Otherwise, in the tick's fixed
    /// order: bookkeeping and the ready latch; then, once the game is
    /// ready, the collision checks, pill resolution, movement and pill
    /// spawning.
    #[verifier::spinoff_prover]
    pub fn update_core(&mut self, key_state: &KeyState, rolls: &TickRolls)
        requires
            old(self).wf(),
            old(self).spec_can_step(),
            rolls.turns@.len() > old(self).enemy_sneks@.len(),
        ensures
            final(self).wf(),
            spec_tick(
                *old(self),
                *final(self),
                *key_state,
                rolls.spawn,
                rolls.kind,
                rolls.pill_x,
                rolls.pill_y,
                rolls.enemy_x,
                rolls.enemy_y,
                rolls.turns@,
            ),
    {
        if self.game_over {
            return ;
        }
        self.frame_number = self.frame_number + 1;
        self.frames_since_pill_spawn = self.frames_since_pill_spawn + 1;
        let req = direction(key_state);
        if req.is_some() {
            self.ready = true;
        }
        if !self.ready {
            return ;
        }
        proof {
            assert(self.spec_player_collision() == old(self).spec_player_collision());
        }
        self.tick_body(key_state, rolls);
    }

    /// One simulation tick with every random value drawn from the
    /// process-wide generator: whatever was drawn, the tick relation
    /// holds of some draws, and the bookkeeping clauses hold outright.
    /// A finished game's tick leaves the state untouched.
    pub fn update(&mut self, key_state: &KeyState)
        requires
            old(self).wf(),
            old(self).spec_can_step(),
        ensures
            final(self).wf(),
            final(self).mode == old(self).mode,
            old(self).game_over ==> *final(self) == *old(self),
            !old(self).game_over ==> final(self).frame_number == old(self).frame_number + 1,
            !old(self).game_over ==> final(self).ready == (old(self).ready || spec_direction(
                *key_state,
            ) is Some),
            exists|spawn: u64, kind: u64, px: u64, py: u64, ex: u64, ey: u64, turns: Seq<bool>|
                spec_tick(
                    *old(self),
                    *final(self),
                    *key_state,
                    spawn,
                    kind,
                    px,
                    py,
                    ex,
                    ey,
                    turns,
                ),
    {
        let spawn = rand::random::<u64>();
        let kind = rand::random::<u64>();
        let px = rand::random::<u64>();
        let py = rand::random::<u64>();
        let ex = rand::random::<u64>();
        let ey = rand::random::<u64>();
        let want = self.enemy_sneks.len() + 1;
        let mut turns: Vec<bool> = Vec::new();
        while turns.len() < want
            invariant
                turns@.len() <= want,
            decreases want - turns@.len(),
        {
            turns.push(rand::random::<bool>());
        }
        let rolls = TickRolls { spawn, kind, pill_x: px, pill_y: py, enemy_x: ex, enemy_y: ey, turns };
        self.update_core(key_state, &rolls);
    }
}

/// A speed raised by a bonus, saturating at the cap.
pub open spec fn spec_clamped_speed(speed: int, bonus: int) -> int {
    if speed + bonus <= MAX_SPEED {
        speed + bonus
    } else {
        MAX_SPEED as int
    }
}

/// The state between a running tick's resolution phase and its rival
/// movement: rivals are marked, at most one pill has resolved for the
/// player, and the player has moved.  `ex`, `ey` are the position rolls
/// for a rival spawned by a pill, which sits unmoved at its spawn
/// point, facing up.
pub open spec fn spec_after_checks(
    pre: SnekGame,
    post: SnekGame,
    ks: KeyState,
    ex: u64,
    ey: u64,
) -> bool {
    let n = pre.enemy_sneks@.len() as int;
    let hit = first_hit_index(pre.snek, pre.pills@, 0);
    let hit_kind = match hit {
        Option::Some(i) => Option::Some(pre.pills@[i].pill_type),
        Option::None => Option::<PillType>::None,
    };
    let arena1 = if hit_kind == Option::Some(PillType::ExpandBoundary) {
        spec_expand(pre.boundary.spec_rect())
    } else {
        pre.boundary.spec_rect()
    };
    let path1 = if hit_kind == Option::Some(PillType::ShortenSnek) {
        spec_trim(pre.snek.path@, pre.snek.path.total() / 10)
    } else {
        pre.snek.path@
    };
    let speed1 = if hit_kind == Option::Some(PillType::IncreaseSpeed) {
        spec_clamped_speed(pre.snek.speed as int, SPEED_BONUS as int)
    } else {
        pre.snek.speed as int
    };
    let req = spec_direction(ks);
    let dist = spec_tick_distance(speed1);
    let trim = spec_trim_amount(dist);
    let spawn_pt = Boundary::spec_interior_point(pre.boundary.spec_rect(), ex, ey);
    &&& !post.game_over
    &&& post.win == pre.win
    &&& post.ready == pre.ready
    &&& post.mode == pre.mode
    &&& post.exit == pre.exit
    &&& post.frame_number == pre.frame_number
    &&& post.frames_since_pill_spawn == pre.frames_since_pill_spawn
    &&& post.snek.color == pre.snek.color
    &&& post.snek.speed == speed1
    &&& post.snek.direction == spec_accept(pre.snek.direction, req)
    &&& post.snek.path@ == spec_trim(spec_advance(path1, pre.snek.direction, req, dist), trim)
    &&& post.boundary.spec_rect() == arena1
    &&& post.pills@ == (match hit {
        Option::Some(i) => pre.pills@.remove(i),
        Option::None => pre.pills@,
    })
    &&& post.enemy_sneks@.len() == n + (if hit_kind == Option::Some(PillType::SpawnEnemySnek) {
        1int
    } else {
        0int
    })
    &&& forall|k: int|
        0 <= k < n ==> #[trigger] post.enemy_sneks@[k] == (AiSnek {
            alive: pre.enemy_sneks@[k].alive && !pre.spec_enemy_doomed(k),
            ..pre.enemy_sneks@[k]
        })
    &&& hit_kind == Option::Some(PillType::SpawnEnemySnek) ==> ({
        let e = post.enemy_sneks@[n];
        &&& e.alive
        &&& e.frames_since_turn == 0
        &&& e.snek.color@ == "red"@
        &&& e.snek.speed == ENEMY_SPEED
        &&& e.snek.direction == Direction::Up
        &&& e.snek.path@ == Snek::spec_initial_points(spawn_pt, Direction::Up)
        &&& e.snek.path.total() == crate::constants::TAIL_OFFSET
    })
}

/// What one tick does while the game is running with no exit hit and
/// nothing deadly, `pre` taken after the tick's bookkeeping (so its
/// spawn counter already counts this tick).  At most one pill resolves
/// for the player; rivals are marked dead and every surviving one
/// moves; the player moves; a pill may spawn.
pub open spec fn spec_running_tick(
    pre: SnekGame,
    post: SnekGame,
    ks: KeyState,
    spawn: u64,
    kind: u64,
    px: u64,
    py: u64,
    ex: u64,
    ey: u64,
    turns: Seq<bool>,
) -> bool {
    let fs = pre.frames_since_pill_spawn as int;
    let n = pre.enemy_sneks@.len() as int;
    let hit = first_hit_index(pre.snek, pre.pills@, 0);
    let hit_kind = match hit {
        Option::Some(i) => Option::Some(pre.pills@[i].pill_type),
        Option::None => Option::<PillType>::None,
    };
    let arena1 = if hit_kind == Option::Some(PillType::ExpandBoundary) {
        spec_expand(pre.boundary.spec_rect())
    } else {
        pre.boundary.spec_rect()
    };
    let path1 = if hit_kind == Option::Some(PillType::ShortenSnek) {
        spec_trim(pre.snek.path@, pre.snek.path.total() / 10)
    } else {
        pre.snek.path@
    };
    let speed1 = if hit_kind == Option::Some(PillType::IncreaseSpeed) {
        spec_clamped_speed(pre.snek.speed as int, SPEED_BONUS as int)
    } else {
        pre.snek.speed as int
    };
    let pills1 = match hit {
        Option::Some(i) => pre.pills@.remove(i),
        Option::None => pre.pills@,
    };
    let req = spec_direction(ks);
    let dist = spec_tick_distance(speed1);
    let trim = spec_trim_amount(dist);
    let spawned = spawn % SPAWN_ODDS < fs;
    let newpill = Pill {
        pill_type: spec_kind_for_roll(pre.mode, kind),
        position: Boundary::spec_interior_point(arena1, px, py),
    };
    &&& !post.game_over
    &&& post.win == pre.win
    &&& post.ready == pre.ready
    &&& post.mode == pre.mode
    &&& post.exit == pre.exit
    &&& post.frame_number == pre.frame_number
    &&& post.snek.color == pre.snek.color
    &&& post.snek.speed == speed1
    &&& post.snek.direction == spec_accept(pre.snek.direction, req)
    &&& post.snek.path@ == spec_trim(spec_advance(path1, pre.snek.direction, req, dist), trim)
    &&& post.boundary.spec_rect() == arena1
    &&& post.enemy_sneks@.len() == n + (if hit_kind == Option::Some(PillType::SpawnEnemySnek) {
        1int
    } else {
        0int
    })
    &&& forall|i: int|
        0 <= i < n ==> AiSnek::step_rel(
            AiSnek {
                alive: pre.enemy_sneks@[i].alive && !pre.spec_enemy_doomed(i),
                ..pre.enemy_sneks@[i]
            },
            #[trigger] post.enemy_sneks@[i],
            turns[i],
        )
    &&& hit_kind == Option::Some(PillType::SpawnEnemySnek) ==> spec_fresh_rival(
        post.enemy_sneks@[n],
        Boundary::spec_interior_point(pre.boundary.spec_rect(), ex, ey),
    )
    &&& post.pills@ == (if spawned {
        pills1.push(newpill)
    } else {
        pills1
    })
    &&& post.frames_since_pill_spawn == (if spawned {
        0int
    } else {
        fs
    })
}

/// What one whole tick does.  The game-over states are terminal: a
/// tick on a finished game mutates nothing at all, counters included.
/// Otherwise: bookkeeping and the ready latch; then, once the game is
/// ready, the exit check, the deadly checks, and the running tick.  A
/// game not yet made ready only counts frames.
pub open spec fn spec_tick(
    pre: SnekGame,
    post: SnekGame,
    ks: KeyState,
    spawn: u64,
    kind: u64,
    px: u64,
    py: u64,
    ex: u64,
    ey: u64,
    turns: Seq<bool>,
) -> bool {
    if pre.game_over {
        post == pre
    } else {
        let ready1 = pre.ready || spec_direction(ks) is Some;
        let booked = SnekGame {
            frame_number: ((pre.frame_number + 1) as u64),
            frames_since_pill_spawn: ((pre.frames_since_pill_spawn + 1) as u64),
            ready: ready1,
            ..pre
        };
        &&& post.frame_number == (pre.frame_number + 1) as u64
        &&& post.ready == ready1
        &&& if !ready1 {
            post == booked
        } else if spec_exit_collision(pre.snek, pre.exit) {
            post == (SnekGame { game_over: true, win: true, ..booked })
        } else if pre.spec_player_deadly() {
            post == (SnekGame { game_over: true, ..booked })
        } else {
            spec_running_tick(booked, post, ks, spawn, kind, px, py, ex, ey, turns)
        }
    }
}

/// A rival freshly spawned at `pt` this tick, after the same-tick move
/// it makes along with everyone else: facing up, default speed, one
/// tick into its turn countdown, its body advanced and trimmed once.
pub open spec fn spec_fresh_rival(e: AiSnek, pt: Point2d) -> bool {
    let dist = spec_tick_distance(ENEMY_SPEED as int);
    let trim = spec_trim_amount(dist);
    &&& e.alive
    &&& e.frames_since_turn == 1
    &&& e.snek.color@ == "red"@
    &&& e.snek.speed == ENEMY_SPEED
    &&& e.snek.direction == Direction::Up
    &&& e.snek.path@ == spec_trim(
        spec_advance(
            Snek::spec_initial_points(pt, Direction::Up),
            Direction::Up,
            Option::None,
            dist,
        ),
        trim,
    )
}

} // verus!
