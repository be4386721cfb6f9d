//! Enemy behaviour: following the appearance trajectory, moving into the
//! formation, attacking, leaving the screen, animation, and enemy shots.

use vstd::prelude::*;
use crate::math::{Vec2, ANGLE, ONE, ONE_BIT, fits_i32, spec_clamp, clamp, square};
use crate::consts::{GAME_WIDTH, GAME_HEIGHT};
use crate::appearance_table::FormationIndex;
use crate::components::{
    AttackType, EneShot, Enemy, EnemyBase, EnemyState, EnemyType, HitBox, Posture, Speed, SpriteDrawable,
    TrajPose,
};

verus! {

/// What an enemy sees of the game while it moves: the current stage, and the
/// queue of shots that enemies have fired this frame.
pub struct EneBaseAccessorImpl {
    pub shots: Vec<Vec2>,
    pub stage_no: u16,
}

/// What an enemy needs of the game while it attacks: the current stage, and
/// a queue for the shots it fires.
pub trait EneBaseAccessorTrait {
    /// The shots queued so far.
    spec fn queued_shots(&self) -> Seq<Vec2>;

    /// The current stage.
    spec fn stage(&self) -> u16;

    /// Queues a shot from `pos`.
    fn fire_shot(&mut self, pos: &Vec2)
        ensures
            final(self).queued_shots() == old(self).queued_shots().push(*pos),
            final(self).stage() == old(self).stage(),
    ;

    /// The current stage.
    fn get_stage_no(&self) -> (r: u16)
        ensures
            r == self.stage(),
    ;
}

impl EneBaseAccessorImpl {
    /// An accessor over the given shot queue and stage.
    pub fn new(shots: Vec<Vec2>, stage_no: u16) -> (r: Self)
        ensures
            r.shots@ == shots@,
            r.stage_no == stage_no,
    {
        Self { shots, stage_no }
    }
}

impl EneBaseAccessorTrait for EneBaseAccessorImpl {
    open spec fn queued_shots(&self) -> Seq<Vec2> {
        self.shots@
    }

    open spec fn stage(&self) -> u16 {
        self.stage_no
    }

    fn fire_shot(&mut self, pos: &Vec2) {
        self.shots.push(*pos);
    }

    fn get_stage_no(&self) -> (r: u16) {
        self.stage_no
    }
}

/// How many shots an attack fires on stage `stage_no`: two, one more every
/// eight stages, at most five.
pub open spec fn shot_count(stage_no: u16) -> u32 {
    let n = 2 + stage_no / 8;
    if n < 5 { n as u32 } else { 5 }
}

/// The number of frames between two shots of an attack on stage `stage_no`.
pub open spec fn shot_interval(stage_no: u16) -> u32 {
    (20 - shot_count(stage_no) * 2) as u32
}

/// `true` when an attack fires on its frame `count` (counted from one).
pub open spec fn attack_fires(stage_no: u16, count: u32) -> bool {
    count <= shot_interval(stage_no) * shot_count(stage_no)
        && count % shot_interval(stage_no) == 0
}

/// An attack fires two to five shots, ten to sixteen frames apart, and
/// ends by its fiftieth frame; the frame on which it ends is one on which it
/// fires.
pub proof fn lemma_attack_bounds(stage_no: u16)
    ensures
        2 <= shot_count(stage_no) <= 5,
        10 <= shot_interval(stage_no) <= 16,
        shot_count(stage_no) * shot_interval(stage_no) <= 50,
        forall|c: u32| #[trigger] attack_ends(stage_no, c) ==> attack_fires(stage_no, c),
{
    let n = shot_count(stage_no);
    let iv = shot_interval(stage_no);
    assert(n * iv <= 50) by (nonlinear_arith)
        requires
            2 <= n <= 5,
            iv == 20 - 2 * n,
    ;
    assert forall|c: u32| #[trigger] attack_ends(stage_no, c) implies attack_fires(stage_no, c) by {
        vstd::arithmetic::div_mod::lemma_fundamental_div_mod_converse(c as int, iv as int, n as int, 0);
        assert(c as int == n * iv);
    }
}

/// The number of frames among the first `c` frames of an attack on which it
/// fires.
pub open spec fn fires_upto(stage_no: u16, c: nat) -> nat
    decreases c,
{
    if c == 0 {
        0
    } else {
        fires_upto(stage_no, (c - 1) as nat) + (if attack_fires(stage_no, c as u32) { 1nat } else { 0nat })
    }
}

/// Up to its end, an attack has fired once per full shot interval: within
/// its first `c` frames, `c / shot_interval` times.
pub proof fn lemma_fires_upto(stage_no: u16, c: nat)
    requires
        c <= shot_count(stage_no) * shot_interval(stage_no),
    ensures
        fires_upto(stage_no, c) == c / (shot_interval(stage_no) as nat),
    decreases c,
{
    lemma_attack_bounds(stage_no);
    let iv = shot_interval(stage_no) as int;
    if c == 0 {
    } else {
        let p = (c - 1) as nat;
        lemma_fires_upto(stage_no, p);
        vstd::arithmetic::div_mod::lemma_fundamental_div_mod(p as int, iv);
        let q = p as int / iv;
        let r = p as int % iv;
        assert(0 <= r < iv);
        assert(p as int == iv * q + r);
        let n = shot_count(stage_no);
        let ivu = shot_interval(stage_no);
        assert(ivu * n == n * ivu) by (nonlinear_arith);
        assert(c <= 50);
        assert((c as u32) as int == c as int);
        if r + 1 == iv {
            assert(c as int == (q + 1) * iv + 0) by (nonlinear_arith)
                requires
                    p as int == iv * q + r,
                    r + 1 == iv,
                    c == p + 1,
            ;
            vstd::arithmetic::div_mod::lemma_fundamental_div_mod_converse(c as int, iv, q + 1, 0);
            assert(attack_fires(stage_no, c as u32));
        } else {
            assert(c as int == q * iv + (r + 1)) by (nonlinear_arith)
                requires
                    p as int == iv * q + r,
                    c == p + 1,
            ;
            vstd::arithmetic::div_mod::lemma_fundamental_div_mod_converse(c as int, iv, q, r + 1);
            assert(!attack_fires(stage_no, c as u32));
        }
    }
}

/// A whole attack, from its first frame to the frame on which it ends,
/// fires exactly `shot_count` shots.
pub proof fn lemma_attack_fires_shot_count(stage_no: u16)
    ensures
        fires_upto(stage_no, (shot_count(stage_no) * shot_interval(stage_no)) as nat) == shot_count(stage_no),
{
    lemma_attack_bounds(stage_no);
    let n = shot_count(stage_no) as int;
    let iv = shot_interval(stage_no) as int;
    lemma_fires_upto(stage_no, (n * iv) as nat);
    vstd::arithmetic::div_mod::lemma_fundamental_div_mod_converse(n * iv, iv, n, 0);
}

/// The shots that the first `k` frames of an attack from `pos` queue, in
/// order: one `pos` for each frame on which the attack fires.
pub open spec fn attack_shots(stage_no: u16, pos: Vec2, k: nat) -> Seq<Vec2>
    decreases k,
{
    if k == 0 {
        seq![]
    } else {
        let prev = attack_shots(stage_no, pos, (k - 1) as nat);
        if attack_fires(stage_no, k as u32) { prev.push(pos) } else { prev }
    }
}

/// Counting the firing frames: as many shots as firing frames, all from
/// `pos`.
proof fn lemma_attack_shots_count(stage_no: u16, pos: Vec2, k: nat)
    requires
        k <= u32::MAX,
    ensures
        attack_shots(stage_no, pos, k).len() == fires_upto(stage_no, k),
        forall|j: int| 0 <= j < attack_shots(stage_no, pos, k).len() ==> #[trigger] attack_shots(stage_no, pos, k)[j] == pos,
    decreases k,
{
    if k > 0 {
        lemma_attack_shots_count(stage_no, pos, (k - 1) as nat);
    }
}

/// After its end an attack fires no more.
proof fn lemma_fires_after_end(stage_no: u16, k: nat)
    requires
        shot_count(stage_no) * shot_interval(stage_no) <= k <= u32::MAX,
    ensures
        fires_upto(stage_no, k) == shot_count(stage_no),
    decreases k,
{
    lemma_attack_bounds(stage_no);
    let e = (shot_count(stage_no) * shot_interval(stage_no)) as nat;
    if k == e {
        lemma_attack_fires_shot_count(stage_no);
    } else {
        lemma_fires_after_end(stage_no, (k - 1) as nat);
        let n = shot_count(stage_no);
        let iv = shot_interval(stage_no);
        assert(iv * n == n * iv) by (nonlinear_arith);
        assert((k as u32) as int == k as int);
        assert(!attack_fires(stage_no, k as u32));
    }
}

/// One attack frame, seen over a whole run of frames: when the first `k`
/// frames of an attack from `pos` have queued `attack_shots(.., k)` after
/// `queue`, the next frame (with shooting enabled) queues
/// `attack_shots(.., k + 1)` after it, and ends the attack exactly when it
/// is frame `shot_count * shot_interval`.
pub proof fn lemma_attack_step<T, A: EneBaseAccessorTrait>(
    old_base: EnemyBase<T>,
    old_acc: A,
    pos: Vec2,
    new_base: EnemyBase<T>,
    new_acc: A,
    r: bool,
    queue: Seq<Vec2>,
)
    requires
        old_acc.queued_shots() == queue + attack_shots(old_acc.stage(), pos, old_base.attack_frame_count as nat),
        attack_updated(old_base, old_acc, pos, true, new_base, new_acc, r),
    ensures
        new_base.attack_frame_count == old_base.attack_frame_count + 1,
        new_acc.stage() == old_acc.stage(),
        new_acc.queued_shots() == queue + attack_shots(new_acc.stage(), pos, new_base.attack_frame_count as nat),
        r == (new_base.attack_frame_count == shot_count(old_acc.stage()) * shot_interval(old_acc.stage())),
{
    let k = new_base.attack_frame_count as nat;
    assert(attack_shots(old_acc.stage(), pos, k) == (if attack_fires(old_acc.stage(), k as u32) {
        attack_shots(old_acc.stage(), pos, (k - 1) as nat).push(pos)
    } else {
        attack_shots(old_acc.stage(), pos, (k - 1) as nat)
    }));
    if attack_fires(old_acc.stage(), k as u32) {
        assert(new_acc.queued_shots() =~= queue + attack_shots(old_acc.stage(), pos, k));
    }
}

/// A run of `k` attack frames from a fresh count, shooting from `pos`,
/// queues one shot from `pos` per full shot interval up to the attack's
/// end, `min(k, shot_count * shot_interval) / shot_interval` in all, and
/// nothing after the end; the attack ends on exactly one frame, frame
/// `shot_count * shot_interval`.
pub proof fn lemma_attack_run(stage_no: u16, pos: Vec2, k: nat)
    requires
        k <= u32::MAX,
    ensures
        ({
            let e = shot_count(stage_no) * shot_interval(stage_no);
            let shots = attack_shots(stage_no, pos, k);
            &&& shots.len() == (if k < e { k } else { e as nat }) / (shot_interval(stage_no) as nat)
            &&& forall|j: int| 0 <= j < shots.len() ==> #[trigger] shots[j] == pos
            &&& k >= e ==> shots.len() == shot_count(stage_no)
            &&& forall|c: u32| #[trigger] attack_ends(stage_no, c) <==> c == e
        }),
{
    lemma_attack_bounds(stage_no);
    lemma_attack_shots_count(stage_no, pos, k);
    let e = shot_count(stage_no) * shot_interval(stage_no);
    if k < e {
        lemma_fires_upto(stage_no, k);
    } else {
        lemma_fires_after_end(stage_no, k);
        lemma_attack_fires_shot_count(stage_no);
        lemma_fires_upto(stage_no, e as nat);
    }
}

/// Shooting only decides whether shots are queued: an attack frame with
/// shooting disabled ends the attack and counts the frame exactly as one
/// with shooting enabled, and queues nothing.
pub proof fn lemma_attack_shot_enable<T, A: EneBaseAccessorTrait>(
    old_base: EnemyBase<T>,
    acc1: A,
    acc2: A,
    pos: Vec2,
    base1: EnemyBase<T>,
    new_acc1: A,
    r1: bool,
    base2: EnemyBase<T>,
    new_acc2: A,
    r2: bool,
)
    requires
        acc1.stage() == acc2.stage(),
        attack_updated(old_base, acc1, pos, true, base1, new_acc1, r1),
        attack_updated(old_base, acc2, pos, false, base2, new_acc2, r2),
    ensures
        r1 == r2,
        base1 == base2,
        new_acc2.queued_shots() == acc2.queued_shots(),
{
}

/// `new_base` and `new_acc` are the result of one attack frame of
/// `old_base` (see `EnemyBase::update_attack`), which returned `r`: the
/// frame count is one more; a shot from `pos` was queued exactly when the
/// attack fires on that frame and `shot_enable` holds; `r` says whether the
/// attack ends on that frame. The trajectory and the stage stay.
pub open spec fn attack_updated<T, A: EneBaseAccessorTrait>(
    old_base: EnemyBase<T>,
    old_acc: A,
    pos: Vec2,
    shot_enable: bool,
    new_base: EnemyBase<T>,
    new_acc: A,
    r: bool,
) -> bool {
    &&& new_base.attack_frame_count == old_base.attack_frame_count + 1
    &&& new_base.traj == old_base.traj
    &&& new_acc.stage() == old_acc.stage()
    &&& new_acc.queued_shots() == (if shot_enable && attack_fires(old_acc.stage(), new_base.attack_frame_count) {
        old_acc.queued_shots().push(pos)
    } else {
        old_acc.queued_shots()
    })
    &&& r == attack_ends(old_acc.stage(), new_base.attack_frame_count)
}

/// `true` when an attack ends on its frame `count` (counted from one): the frame of its last shot.
pub open spec fn attack_ends(stage_no: u16, count: u32) -> bool {
    count == shot_count(stage_no) * shot_interval(stage_no)
}

/// `new_base`, `new_posture` and `new_vel` are the result of one trajectory
/// step of `old_base` (see `EnemyBase::update_trajectory`), which returned
/// `r`. Without a trajectory nothing changes and `r` is `false`. With one,
/// `step` returned a trajectory, a pose and `r`; the pose's position and
/// heading went into the posture (its tilt stays), its speed and angular
/// velocity into the speed, and the trajectory is kept only when `r` holds.
/// The attack frame count stays.
pub open spec fn trajectory_updated<T, F: Fn(T) -> (T, TrajPose, bool)>(
    old_base: EnemyBase<T>,
    old_posture: Posture,
    old_vel: Speed,
    step: F,
    new_base: EnemyBase<T>,
    new_posture: Posture,
    new_vel: Speed,
    r: bool,
) -> bool {
    &&& new_base.attack_frame_count == old_base.attack_frame_count
    &&& old_base.traj is None ==> {
        &&& !r
        &&& new_base.traj is None
        &&& new_posture == old_posture
        &&& new_vel == old_vel
    }
    &&& old_base.traj is Some ==> exists|t2: T, pose: TrajPose|
        #[trigger] step.ensures((old_base.traj->0,), (t2, pose, r)) && {
            &&& new_posture.0 == pose.pos
            &&& new_posture.1 == old_posture.1
            &&& new_posture.2 == pose.angle
            &&& new_vel.0 == pose.speed
            &&& new_vel.1 == pose.vangle
            &&& new_base.traj == (if r { Some(t2) } else { None })
        }
}

impl<T> EnemyBase<T> {
    /// A base that follows `traj`, with no attack frame counted yet.
    pub fn new(traj: Option<T>) -> (r: Self)
        ensures
            r.traj == traj,
            r.attack_frame_count == 0,
    {
        Self { traj, attack_frame_count: 0 }
    }

    /// Advances the trajectory by one step, if there is one, and copies its
    /// pose into `posture` and `vel`. `step` performs one step of a
    /// trajectory and returns the trajectory after it, its pose, and whether
    /// it goes on. A trajectory that does not go on is dropped. Returns
    /// whether the trajectory goes on; `false` when there is none.
    pub fn update_trajectory<F: Fn(T) -> (T, TrajPose, bool)>(
        &mut self,
        posture: &mut Posture,
        vel: &mut Speed,
        step: &F,
    ) -> (r: bool)
        requires
            forall|t: T| step.requires((t,)),
        ensures
            trajectory_updated(
                *old(self),
                *old(posture),
                *old(vel),
                step,
                *final(self),
                *final(posture),
                *final(vel),
                r,
            ),
    {
        let cur = self.traj.take();
        match cur {
            Some(traj) => {
                let (t2, pose, cont) = step(traj);
                posture.0 = pose.pos;
                posture.2 = pose.angle;
                vel.0 = pose.speed;
                vel.1 = pose.vangle;
                if cont {
                    self.traj = Some(t2);
                    return true;
                }
                false
            },
            None => false,
        }
    }

    /// Counts one more frame of the attack. On the frames where the attack
    /// fires, a shot from `pos` is queued when `shot_enable` holds. Returns
    /// whether the attack ended with this frame.
    pub fn update_attack<A: EneBaseAccessorTrait>(
        &mut self,
        pos: &Vec2,
        shot_enable: bool,
        accessor: &mut A,
    ) -> (r: bool)
        requires
            old(self).attack_frame_count < u32::MAX,
        ensures
            attack_updated(*old(self), *old(accessor), *pos, shot_enable, *final(self), *final(accessor), r),
    {
        self.attack_frame_count += 1;

        let stage_no = accessor.get_stage_no();
        let n = 2 + stage_no / 8;
        let shot_count: u32 = if n < 5 { n as u32 } else { 5 };
        let shot_interval = 20 - shot_count * 2;
        assert(shot_interval * shot_count <= 100 && shot_count * shot_interval <= 100) by (nonlinear_arith)
            requires
                shot_count <= 5,
                shot_interval <= 20,
        ;
        if self.attack_frame_count <= shot_interval * shot_count
            && self.attack_frame_count % shot_interval == 0
        {
            if shot_enable {
                accessor.fire_shot(pos);
            }
            if self.attack_frame_count == shot_count * shot_interval {
                true
            } else {
                false
            }
        } else {
            proof {
                assert(self.attack_frame_count != shot_count * shot_interval) by (nonlinear_arith)
                    requires
                        shot_interval > 0,
                        !(self.attack_frame_count <= shot_interval * shot_count
                            && self.attack_frame_count % shot_interval == 0),
                ;
            }
            false
        }
    }
}


/// `v / 2` rounded toward zero, as integer division on `i32` does.
pub open spec fn half_toward_zero(v: int) -> int {
    if v >= 0 { v / 2 } else { -((-v) / 2) }
}

/// `a / b` rounded toward zero, for a positive `b`.
pub open spec fn div_toward_zero(a: int, b: int) -> int {
    if a >= 0 { a / b } else { -((-a) / b) }
}

/// The magnitude of `v`.
pub open spec fn abs(v: int) -> int {
    if v >= 0 { v } else { -v }
}

/// `true` when moving `posture` forward with `speed` cannot overflow,
/// whatever velocity `velocity` returns for the heading and speed.
pub open spec fn forward_safe<V: Fn(i32, i32) -> Vec2>(posture: Posture, speed: Speed, velocity: V) -> bool {
    &&& fits_i32(posture.2 + speed.1)
    &&& forall|v: Vec2| #[trigger] velocity.ensures((forward_heading(posture, speed), speed.0), v) ==> posture.0.plus_fits(v)
}

/// The angle at which `forward` samples the velocity: the heading plus half
/// the angular velocity.
pub open spec fn forward_heading(posture: Posture, speed: Speed) -> i32 {
    (posture.2 + half_toward_zero(speed.1 as int)) as i32
}

/// `new` is `old` moved forward with `speed`: the position moved by a
/// velocity that `velocity` returns for the heading of `forward_heading` and
/// the speed, and the heading turned by the angular velocity.
pub open spec fn moved_forward<V: Fn(i32, i32) -> Vec2>(old: Posture, speed: Speed, velocity: V, new: Posture) -> bool {
    &&& exists|v: Vec2| #[trigger] velocity.ensures((forward_heading(old, speed), speed.0), v)
        && new.0 == old.0.spec_plus(v)
    &&& new.1 == old.1
    &&& new.2 == old.2 + speed.1
}

/// Moves `posture` one frame forward: the position by the velocity for the
/// heading (plus half the angular velocity) and speed, then the heading by
/// the angular velocity. `velocity` gives the velocity vector of an angle
/// and a speed.
pub fn forward<V: Fn(i32, i32) -> Vec2>(posture: &mut Posture, speed: &Speed, velocity: &V)
    requires
        forall|a: i32, s: i32| velocity.requires((a, s)),
        forward_safe(*old(posture), *speed, velocity),
    ensures
        moved_forward(*old(posture), *speed, velocity, *final(posture)),
{
    let v = velocity(posture.2 + speed.1 / 2, speed.0);
    posture.0 = posture.0.plus(&v);
    posture.2 = posture.2 + speed.1;
}

/// `v >> 4` squared (4 is `ONE_BIT / 2`): the distance measure of
/// `move_to_target`, with half of the fractional bits dropped.
pub open spec fn sq_shr(v: i32) -> int {
    (v >> 4i32) * (v >> 4i32)
}

/// `true` when a target at offset `diff` counts as reached at speed `spd`:
/// its squared distance is no more than the squared speed.
pub open spec fn reached(diff: Vec2, spd: i32) -> bool {
    sq_shr(diff.x) + sq_shr(diff.y) <= sq_shr(spd)
}

/// The largest turn per frame at speed `spd`: `spd * 5 / 3`.
pub open spec fn turn_limit(spd: i32) -> int {
    div_toward_zero(spd * 5, 3)
}

/// `true` when `move_to_target` on these values cannot overflow, whatever
/// angles `atan2` and `diff_angle` return.
pub open spec fn move_safe<A: Fn(i32, i32) -> i32, D: Fn(i32, i32) -> i32>(
    posture: Posture,
    speed: Speed,
    target: Vec2,
    atan2: A,
    diff_angle: D,
) -> bool {
    let diff = target.spec_minus(posture.0);
    let dlimit = turn_limit(speed.0);
    &&& target.minus_fits(posture.0)
    &&& sq_shr(diff.x) + sq_shr(diff.y) <= i32::MAX
    &&& sq_shr(speed.0) <= i32::MAX
    &&& !reached(diff, speed.0) ==> {
        &&& fits_i32(speed.0 * 5)
        &&& diff.y != i32::MIN
        &&& forall|ta: i32, d: i32|
            #[trigger] atan2.ensures(((-diff.y) as i32, diff.x), ta)
            && #[trigger] diff_angle.ensures((ta, posture.2), d)
            ==> fits_i32(posture.2 + spec_clamp(d as int, -dlimit, dlimit))
    }
}

/// `new` and `new_speed` are the result of steering `old` toward `target`,
/// and `r` says whether the target was reached. A reached target leaves
/// everything as it was. Otherwise the position, tilt and speed stay, the
/// angular velocity becomes zero, and the heading turns by the angle
/// difference that `diff_angle` gives between the direction of the target
/// (which `atan2` gives of `-diff.y` and `diff.x`) and the heading, limited
/// to the turn limit of the speed.
pub open spec fn steered<A: Fn(i32, i32) -> i32, D: Fn(i32, i32) -> i32>(
    old: Posture,
    old_speed: Speed,
    target: Vec2,
    atan2: A,
    diff_angle: D,
    new: Posture,
    new_speed: Speed,
    r: bool,
) -> bool {
    let diff = target.spec_minus(old.0);
    let dlimit = turn_limit(old_speed.0);
    &&& r == reached(diff, old_speed.0)
    &&& r ==> new == old && new_speed == old_speed
    &&& !r ==> {
        &&& new.0 == old.0
        &&& new.1 == old.1
        &&& new_speed.0 == old_speed.0
        &&& new_speed.1 == 0
        &&& exists|ta: i32, d: i32|
            #[trigger] atan2.ensures(((-diff.y) as i32, diff.x), ta)
            && #[trigger] diff_angle.ensures((ta, old.2), d)
            && new.2 == old.2 + spec_clamp(d as int, -dlimit, dlimit)
    }
}

/// `true` when moving forward after steering toward `target` (as
/// `do_move_enemy` does) cannot overflow, whatever the outside functions
/// return: with the pose unchanged when the target is reached, else with
/// the heading turned and the angular velocity stopped.
pub open spec fn steer_forward_safe<A: Fn(i32, i32) -> i32, D: Fn(i32, i32) -> i32, V: Fn(i32, i32) -> Vec2>(
    posture: Posture,
    speed: Speed,
    target: Vec2,
    atan2: A,
    diff_angle: D,
    velocity: V,
) -> bool {
    let diff = target.spec_minus(posture.0);
    let dlimit = turn_limit(speed.0);
    &&& reached(diff, speed.0) ==> forward_safe(posture, speed, velocity)
    &&& !reached(diff, speed.0) ==> forall|ta: i32, d: i32, v: Vec2|
        #[trigger] atan2.ensures(((-diff.y) as i32, diff.x), ta)
        && #[trigger] diff_angle.ensures((ta, posture.2), d)
        && #[trigger] velocity.ensures(((posture.2 + spec_clamp(d as int, -dlimit, dlimit)) as i32, speed.0), v)
        ==> posture.0.plus_fits(v)
}

/// Steers toward `target`. When the target is no farther than the speed,
/// returns `true` and changes nothing. Otherwise turns the heading toward
/// the target by at most `speed * 5 / 3`, stops the angular velocity and
/// returns `false`. `atan2` gives the angle of a direction from its `y` and
/// `x`; `diff_angle` the signed difference from a heading to a target angle.
pub fn move_to_target<A: Fn(i32, i32) -> i32, D: Fn(i32, i32) -> i32>(
    posture: &mut Posture,
    speed: &mut Speed,
    target: Vec2,
    atan2: &A,
    diff_angle: &D,
) -> (r: bool)
    requires
        forall|a: i32, b: i32| atan2.requires((a, b)),
        forall|a: i32, b: i32| diff_angle.requires((a, b)),
        move_safe(*old(posture), *old(speed), target, atan2, diff_angle),
    ensures
        steered(*old(posture), *old(speed), target, atan2, diff_angle, *final(posture), *final(speed), r),
{
    let diff = target.minus(&posture.0);
    let spd = speed.0;
    proof {
        let sx = diff.x >> 4i32;
        let sy = diff.y >> 4i32;
        assert(sx * sx >= 0) by (nonlinear_arith);
        assert(sy * sy >= 0) by (nonlinear_arith);
    }

    let sq_distance = square(diff.x >> (ONE_BIT / 2)) + square(diff.y >> (ONE_BIT / 2));

    if sq_distance > square(spd >> (ONE_BIT / 2)) {
        let dlimit: i32 = spd * 5 / 3;
        let target_angle = atan2(-diff.y, diff.x);
        let d = diff_angle(target_angle, posture.2);
        let turn = clamp(d, -dlimit, dlimit);
        posture.2 = posture.2 + turn;
        speed.1 = 0;
        false
    } else {
        true
    }
}

/// The game area's width, height, and the margin outside it, in fixed point.
pub open spec fn game_w() -> int { GAME_WIDTH * ONE }
pub open spec fn game_h() -> int { GAME_HEIGHT * ONE }
pub open spec fn exit_margin() -> int { 16 * ONE }

/// Where an enemy at `pos` leaves the screen: straight up or down past the
/// nearer horizontal edge when that edge is nearer than both vertical ones,
/// else straight left past the left edge or right to the margin inside the
/// right edge, whichever side of the middle it is on.
pub open spec fn exit_target(pos: Vec2) -> Vec2 {
    let x = if pos.x <= game_w() / 2 { pos.x as int } else { game_w() - pos.x };
    let y = if pos.y <= game_h() / 2 { pos.y as int } else { game_h() - pos.y };
    if x > y {
        Vec2 { x: pos.x, y: (if pos.y <= game_h() / 2 { -exit_margin() } else { game_h() + exit_margin() }) as i32 }
    } else {
        Vec2 { x: (if pos.x <= game_w() / 2 { -exit_margin() } else { game_w() - exit_margin() }) as i32, y: pos.y }
    }
}

/// Steers toward the nearest way off the screen (see `exit_target`).
/// Returns whether that point is reached.
pub fn exit_screen<A: Fn(i32, i32) -> i32, D: Fn(i32, i32) -> i32>(
    posture: &mut Posture,
    speed: &mut Speed,
    atan2: &A,
    diff_angle: &D,
) -> (r: bool)
    requires
        forall|a: i32, b: i32| atan2.requires((a, b)),
        forall|a: i32, b: i32| diff_angle.requires((a, b)),
        move_safe(*old(posture), *old(speed), exit_target(old(posture).0), atan2, diff_angle),
    ensures
        steered(*old(posture), *old(speed), exit_target(old(posture).0), atan2, diff_angle, *final(posture), *final(speed), r),
{
    let pos = posture.0;
    let game_width = GAME_WIDTH * ONE;
    let game_height = GAME_HEIGHT * ONE;
    let margin = 16 * ONE;
    let x = {
        if pos.x <= game_width / 2 {
            pos.x
        } else {
            game_width - pos.x
        }
    };

    let y = {
        if pos.y <= game_height / 2 {
            pos.y
        } else {
            game_height - pos.y
        }
    };

    let target = if x > y {
        if pos.y <= game_height / 2 {
            Vec2::new(pos.x, -margin)
        } else {
            Vec2::new(pos.x, game_height + margin)
        }
    } else {
        if pos.x <= game_width / 2 {
            Vec2::new(-margin, pos.y)
        } else {
            Vec2::new(game_width - margin, pos.y)
        }
    };
    assert(target == exit_target(pos));

    move_to_target(posture, speed, target, atan2, diff_angle)
}

/// `true` when `move_to_formation` cannot overflow, wherever `formation`
/// puts the slot `fi`.
pub open spec fn formation_move_safe<P: Fn(FormationIndex) -> Vec2, A: Fn(i32, i32) -> i32, D: Fn(i32, i32) -> i32>(
    posture: Posture,
    speed: Speed,
    fi: FormationIndex,
    formation: P,
    atan2: A,
    diff_angle: D,
) -> bool {
    forall|t: Vec2| #[trigger] formation.ensures((fi,), t) ==> move_safe(posture, speed, t, atan2, diff_angle)
}

/// Steers toward the position of the formation slot `fi`, which `formation`
/// gives. Returns whether it is reached.
pub fn move_to_formation<P: Fn(FormationIndex) -> Vec2, A: Fn(i32, i32) -> i32, D: Fn(i32, i32) -> i32>(
    posture: &mut Posture,
    speed: &mut Speed,
    fi: &FormationIndex,
    formation: &P,
    atan2: &A,
    diff_angle: &D,
) -> (r: bool)
    requires
        forall|f: FormationIndex| formation.requires((f,)),
        forall|a: i32, b: i32| atan2.requires((a, b)),
        forall|a: i32, b: i32| diff_angle.requires((a, b)),
        formation_move_safe(*old(posture), *old(speed), *fi, formation, atan2, diff_angle),
    ensures
        exists|t: Vec2| #[trigger] formation.ensures((*fi,), t)
            && steered(*old(posture), *old(speed), t, atan2, diff_angle, *final(posture), *final(speed), r),
{
    let target = formation(*fi);
    move_to_target(posture, speed, target, atan2, diff_angle)
}


/// The tilt of an enemy that has settled in the formation: `tilt` brought
/// toward zero by at most `ANGLE * ONE / 128`.
pub open spec fn settled_tilt(tilt: i32) -> int {
    tilt - spec_clamp(tilt as int, -(ANGLE * ONE / 128), ANGLE * ONE / 128)
}

/// The position of a state in an enemy's life cycle, from appearing (0) to
/// destroyed (5).
pub open spec fn state_rank(s: EnemyState) -> int {
    match s {
        EnemyState::Appearance => 0,
        EnemyState::MoveToFormation => 1,
        EnemyState::Formation => 2,
        EnemyState::Attack(_) => 3,
        EnemyState::Disappearance => 4,
        EnemyState::Destroy => 5,
    }
}

/// `true` when one frame of `do_move_enemy` on these values cannot
/// overflow, whatever the outside functions return.
pub open spec fn move_enemy_safe<
    T,
    P: Fn(FormationIndex) -> Vec2,
    V: Fn(i32, i32) -> Vec2,
    A: Fn(i32, i32) -> i32,
    D: Fn(i32, i32) -> i32,
>(
    enemy: Enemy<T>,
    speed: Speed,
    posture: Posture,
    formation: P,
    velocity: V,
    atan2: A,
    diff_angle: D,
) -> bool {
    match enemy.state {
        EnemyState::MoveToFormation => {
            &&& formation_move_safe(posture, speed, enemy.formation_index, formation, atan2, diff_angle)
            &&& forall|t: Vec2| #[trigger] formation.ensures((enemy.formation_index,), t)
                ==> steer_forward_safe(posture, speed, t, atan2, diff_angle, velocity)
        },
        EnemyState::Attack(_) => enemy.base.attack_frame_count < u32::MAX,
        EnemyState::Disappearance => {
            &&& move_safe(posture, speed, exit_target(posture.0), atan2, diff_angle)
            &&& steer_forward_safe(posture, speed, exit_target(posture.0), atan2, diff_angle, velocity)
        },
        _ => true,
    }
}

/// One frame of an enemy, by the state it is in:
/// - appearing: follows its trajectory, and moves to the formation when the
///   trajectory ends;
/// - moving to the formation: steers toward its slot and moves forward,
///   settling in the formation when the slot is reached;
/// - in the formation: straightens its tilt and starts an attack;
/// - attacking: counts the attack frame, firing from its position, and
///   leaves when the attack ends;
/// - leaving: steers toward the nearest way off the screen and moves
///   forward, to be destroyed once there;
/// - destroyed: nothing changes.
///
/// Returns whether the enemy is to be removed (it was destroyed). The outside
/// functions: `step` one trajectory step, `formation` the position of a
/// formation slot, `velocity` the velocity of an angle and speed, `atan2`
/// the angle of a direction, `diff_angle` the difference between two angles.
pub fn do_move_enemy<
    T,
    S: Fn(T) -> (T, TrajPose, bool),
    P: Fn(FormationIndex) -> Vec2,
    V: Fn(i32, i32) -> Vec2,
    A: Fn(i32, i32) -> i32,
    D: Fn(i32, i32) -> i32,
    Acc: EneBaseAccessorTrait,
>(
    enemy: &mut Enemy<T>,
    speed: &mut Speed,
    posture: &mut Posture,
    accessor: &mut Acc,
    step: &S,
    formation: &P,
    velocity: &V,
    atan2: &A,
    diff_angle: &D,
) -> (remove: bool)
    requires
        forall|t: T| step.requires((t,)),
        forall|f: FormationIndex| formation.requires((f,)),
        forall|a: i32, s: i32| velocity.requires((a, s)),
        forall|a: i32, b: i32| atan2.requires((a, b)),
        forall|a: i32, b: i32| diff_angle.requires((a, b)),
        move_enemy_safe(*old(enemy), *old(speed), *old(posture), formation, velocity, atan2, diff_angle),
    ensures
        remove == (old(enemy).state == EnemyState::Destroy),
        state_rank(final(enemy).state) == state_rank(old(enemy).state)
            || state_rank(final(enemy).state) == state_rank(old(enemy).state) + 1,
        final(enemy).enemy_type == old(enemy).enemy_type,
        final(enemy).formation_index == old(enemy).formation_index,
        final(enemy).index_x == old(enemy).index_x,
        old(enemy).state != EnemyState::MoveToFormation ==> final(enemy).is_formation == old(enemy).is_formation,
        old(enemy).is_formation ==> final(enemy).is_formation,
        !(old(enemy).state is Attack) ==> *final(accessor) == *old(accessor),
        match old(enemy).state {
            EnemyState::Appearance => exists|r: bool| {
                &&& #[trigger] trajectory_updated(
                    old(enemy).base,
                    *old(posture),
                    *old(speed),
                    step,
                    final(enemy).base,
                    *final(posture),
                    *final(speed),
                    r,
                )
                &&& final(enemy).state == (if r { EnemyState::Appearance } else { EnemyState::MoveToFormation })
            },
            EnemyState::MoveToFormation => exists|t: Vec2, mid: Posture, r: bool| {
                &&& #[trigger] formation.ensures((old(enemy).formation_index,), t)
                &&& #[trigger] steered(*old(posture), *old(speed), t, atan2, diff_angle, mid, *final(speed), r)
                &&& moved_forward(mid, *final(speed), velocity, *final(posture))
                &&& final(enemy).state == (if r { EnemyState::Formation } else { EnemyState::MoveToFormation })
                &&& final(enemy).is_formation == (r || old(enemy).is_formation)
                &&& final(enemy).base == old(enemy).base
            },
            EnemyState::Formation => {
                &&& final(posture).0 == old(posture).0
                &&& final(posture).1 == settled_tilt(old(posture).1)
                &&& final(posture).2 == old(posture).2
                &&& *final(speed) == *old(speed)
                &&& final(enemy).state == EnemyState::Attack(AttackType::Normal)
                &&& final(enemy).base == old(enemy).base
            },
            EnemyState::Attack(_) => exists|r: bool| {
                &&& #[trigger] attack_updated(
                    old(enemy).base,
                    *old(accessor),
                    old(posture).0,
                    true,
                    final(enemy).base,
                    *final(accessor),
                    r,
                )
                &&& final(enemy).state == (if r { EnemyState::Disappearance } else { old(enemy).state })
                &&& *final(posture) == *old(posture)
                &&& *final(speed) == *old(speed)
            },
            EnemyState::Disappearance => exists|mid: Posture, r: bool| {
                &&& #[trigger] steered(
                    *old(posture),
                    *old(speed),
                    exit_target(old(posture).0),
                    atan2,
                    diff_angle,
                    mid,
                    *final(speed),
                    r,
                )
                &&& moved_forward(mid, *final(speed), velocity, *final(posture))
                &&& final(enemy).state == (if r { EnemyState::Destroy } else { EnemyState::Disappearance })
                &&& final(enemy).base == old(enemy).base
            },
            EnemyState::Destroy => {
                &&& *final(posture) == *old(posture)
                &&& *final(speed) == *old(speed)
                &&& final(enemy).state == EnemyState::Destroy
                &&& final(enemy).base == old(enemy).base
            },
        },
{
    match enemy.state {
        EnemyState::Appearance => {
            let cont = enemy.base.update_trajectory(posture, speed, step);
            if !cont {
                enemy.base.traj = None;
                enemy.state = EnemyState::MoveToFormation;
            }
            false
        },
        EnemyState::MoveToFormation => {
            let result = move_to_formation(posture, speed, &enemy.formation_index, formation, atan2, diff_angle);
            forward(posture, speed, velocity);
            if result {
                enemy.state = EnemyState::Formation;
                enemy.is_formation = true;
            }
            false
        },
        EnemyState::Formation => {
            let ang = ANGLE * ONE / 128;
            posture.1 = posture.1 - clamp(posture.1, -ang, ang);
            enemy.state = EnemyState::Attack(AttackType::Normal);
            false
        },
        EnemyState::Attack(_) => {
            let pos = posture.0;
            if enemy.base.update_attack(&pos, true, accessor) {
                enemy.state = EnemyState::Disappearance;
            }
            false
        },
        EnemyState::Disappearance => {
            let result = exit_screen(posture, speed, atan2, diff_angle);
            forward(posture, speed, velocity);
            if result {
                enemy.state = EnemyState::Destroy;
            }
            false
        },
        EnemyState::Destroy => true,
    }
}


/// The fairy sprite of animation frame `i`.
pub open spec fn spec_fairy_sprite(i: usize) -> &'static str {
    if i == 0 {
        "enemy0"
    } else if i == 1 {
        "enemy1"
    } else if i == 2 {
        "enemy2"
    } else {
        "enemy3"
    }
}

/// The fairy sprite of animation frame `i`.
pub fn fairy_sprite(i: usize) -> (r: &'static str)
    requires
        i < 4,
    ensures
        r == spec_fairy_sprite(i),
{
    if i == 0 {
        "enemy0"
    } else if i == 1 {
        "enemy1"
    } else if i == 2 {
        "enemy2"
    } else {
        "enemy3"
    }
}

/// The number of frames between two animation frames of an enemy.
pub const ANIMATION_SPAN: u32 = 10;

/// The animation frame that follows `i`: the next one, and the first after
/// the fourth.
pub open spec fn next_anim_index(i: usize) -> usize {
    if i + 1 > 3 { 0 } else { (i + 1) as usize }
}

/// Every `ANIMATION_SPAN` frames, advances the enemy to its next animation
/// frame (see `next_anim_index`) and shows that frame's sprite; on other
/// frames nothing changes.
pub fn do_animate_enemy<T>(enemy: &mut Enemy<T>, sprite: &mut SpriteDrawable, frame_count: u32)
    requires
        frame_count % ANIMATION_SPAN == 0 ==> old(enemy).index_x < usize::MAX,
    ensures
        final(enemy).enemy_type == old(enemy).enemy_type,
        final(enemy).formation_index == old(enemy).formation_index,
        final(enemy).state == old(enemy).state,
        final(enemy).base == old(enemy).base,
        final(enemy).is_formation == old(enemy).is_formation,
        final(sprite).offset == old(sprite).offset,
        final(sprite).alpha == old(sprite).alpha,
        frame_count % ANIMATION_SPAN == 0 ==> {
            &&& final(enemy).index_x == next_anim_index(old(enemy).index_x)
            &&& final(sprite).sprite_name == spec_fairy_sprite(final(enemy).index_x)
        },
        frame_count % ANIMATION_SPAN != 0 ==> {
            &&& final(enemy).index_x == old(enemy).index_x
            &&& final(sprite).sprite_name == old(sprite).sprite_name
        },
{
    if frame_count % ANIMATION_SPAN == 0 {
        enemy.index_x = enemy.index_x + 1;
        if enemy.index_x > 3 {
            enemy.index_x = 0;
        }
        sprite.sprite_name = match enemy.enemy_type {
            EnemyType::Fairy => fairy_sprite(enemy.index_x),
        };
    }
}

/// `true` when `pos` has left the area where enemy shots live: more than 8
/// units left of it, 3 units short of its right edge, 16 units above it or
/// 16 units below it.
pub open spec fn spec_out_of_screen(pos: Vec2) -> bool {
    pos.x < -8 * ONE
        || pos.x > (GAME_WIDTH - 3) * ONE
        || pos.y < -16 * ONE
        || pos.y > (GAME_HEIGHT + 16) * ONE
}

/// Whether `pos` has left the area where enemy shots live.
pub fn out_of_screen(pos: &Vec2) -> (r: bool)
    ensures
        r == spec_out_of_screen(*pos),
{
    pos.x < -8 * ONE
        || pos.x > (GAME_WIDTH - 3) * ONE
        || pos.y < -16 * ONE
        || pos.y > (GAME_HEIGHT + 16) * ONE
}

/// Moves an enemy shot by its velocity. Returns whether the shot is to be
/// removed: it has left the screen.
pub fn do_move_eneshot(shot: &EneShot, posture: &mut Posture) -> (remove: bool)
    requires
        old(posture).0.plus_fits(shot.0),
    ensures
        final(posture).0 == old(posture).0.spec_plus(shot.0),
        final(posture).1 == old(posture).1,
        final(posture).2 == old(posture).2,
        remove == spec_out_of_screen(final(posture).0),
{
    posture.0 = posture.0.plus(&shot.0);
    out_of_screen(&posture.0)
}

/// Which enemy shot hits the player, if any: none while the player is
/// invincible; else the first of `shots` (position and hit box) for which
/// `hits` says that it overlaps the player. `hits` is asked about the shots
/// in order, up to the first that hits.
pub fn enemy_shot_collision_check<H: Fn(Vec2, HitBox) -> bool>(
    player_invincible: bool,
    shots: &Vec<(Vec2, HitBox)>,
    hits: &H,
) -> (r: Option<usize>)
    requires
        forall|p: Vec2, b: HitBox| hits.requires((p, b)),
    ensures
        player_invincible ==> r is None,
        !player_invincible ==> match r {
            Some(i) => {
                &&& i < shots@.len()
                &&& hits.ensures((shots@[i as int].0, shots@[i as int].1), true)
                &&& forall|j: int| 0 <= j < i ==> #[trigger] hits.ensures((shots@[j].0, shots@[j].1), false)
            },
            None => forall|j: int| 0 <= j < shots@.len() ==> #[trigger] hits.ensures((shots@[j].0, shots@[j].1), false),
        },
{
    if player_invincible {
        return None;
    }
    let mut i: usize = 0;
    while i < shots.len()
        invariant
            !player_invincible,
            i <= shots@.len(),
            forall|p: Vec2, b: HitBox| hits.requires((p, b)),
            forall|j: int| 0 <= j < i ==> #[trigger] hits.ensures((shots@[j].0, shots@[j].1), false),
        decreases shots@.len() - i,
    {
        let (pos, hit_box) = shots[i];
        if hits(pos, hit_box) {
            return Some(i);
        }
        i = i + 1;
    }
    None
}

/// Whether the enemies stand still for the appearance schedule: every one
/// of them has settled in the formation.
pub fn is_stationary<T>(enemies: &[&Enemy<T>]) -> (r: bool)
    ensures
        r == forall|i: int| 0 <= i < enemies@.len() ==> #[trigger] enemies@[i].is_formation,
{
    let mut i: usize = 0;
    while i < enemies.len()
        invariant
            i <= enemies@.len(),
            forall|k: int| 0 <= k < i ==> #[trigger] enemies@[k].is_formation,
        decreases enemies@.len() - i,
    {
        if !enemies[i].is_formation {
            return false;
        }
        i = i + 1;
    }
    true
}

/// An enemy that the appearance schedule brings in: its kind, formation
/// slot, trajectory and starting position.
pub struct NewBorn<T> {
    pub enemy_type: EnemyType,
    pub fi: FormationIndex,
    pub traj: T,
    pub pos: Vec2,
}

/// The components of a newly appearing enemy: the enemy, its posture, speed,
/// hit box and sprite.
pub type EnemyBundle<T> = (Enemy<T>, Posture, Speed, HitBox, SpriteDrawable);

/// The components that `e` appears with: an appearing enemy following its
/// trajectory from its position, still, with a 32 by 32 hit box, and the
/// first fairy sprite drawn opaque and centred.
pub open spec fn spec_spawned<T>(e: NewBorn<T>) -> EnemyBundle<T> {
    (
        Enemy {
            enemy_type: e.enemy_type,
            formation_index: e.fi,
            index_x: 0,
            state: EnemyState::Appearance,
            base: EnemyBase { traj: Some(e.traj), attack_frame_count: 0 },
            is_formation: false,
        },
        Posture(e.pos, 0, 0),
        Speed(0, 0),
        HitBox { size: Vec2 { x: 32, y: 32 } },
        SpriteDrawable { sprite_name: "enemy0", offset: Vec2 { x: -16i32, y: -16i32 }, alpha: 255 },
    )
}

/// The components that `e` appears with (see `spec_spawned`).
pub fn spawn_enemy<T>(e: NewBorn<T>) -> (r: EnemyBundle<T>)
    ensures
        r == spec_spawned(e),
{
    let sprite_name = match e.enemy_type {
        EnemyType::Fairy => "enemy0",
    };
    let base = EnemyBase::new(Some(e.traj));
    let enemy = Enemy {
        enemy_type: e.enemy_type,
        formation_index: e.fi,
        index_x: 0,
        state: EnemyState::Appearance,
        base,
        is_formation: false,
    };
    let posture = Posture(e.pos, 0, 0);
    let speed = Speed(0, 0);
    let hit_box = HitBox { size: Vec2::new(32, 32) };
    let drawable = SpriteDrawable { sprite_name, offset: Vec2::new(-16, -16), alpha: 255 };
    (enemy, posture, speed, hit_box, drawable)
}

/// One frame of the appearance schedule. Once the schedule is `done`,
/// nothing happens. Otherwise `update` runs one frame of it and returns the
/// enemies that appear (if any) and whether the schedule is done after it;
/// the components of those enemies are returned in order, and the formation
/// learns that all enemies have appeared (`done_appearance`) when the
/// schedule is done.
pub fn run_appearance_enemy<T, U: FnOnce() -> (Option<Vec<NewBorn<T>>>, bool)>(
    done: bool,
    update: U,
    done_appearance: &mut bool,
) -> (r: Vec<EnemyBundle<T>>)
    requires
        !done ==> update.requires(()),
    ensures
        done ==> r@.len() == 0 && *final(done_appearance) == *old(done_appearance),
        !done ==> exists|new_borns: Option<Vec<NewBorn<T>>>, done_after: bool| {
            &&& #[trigger] update.ensures((), (new_borns, done_after))
            &&& r@.len() == (match new_borns {
                Some(v) => v@.len(),
                None => 0,
            })
            &&& forall|i: int| 0 <= i < r@.len() ==> #[trigger] r@[i] == spec_spawned(new_borns->0@[i])
            &&& *final(done_appearance) == (done_after || *old(done_appearance))
        },
{
    let mut r: Vec<EnemyBundle<T>> = Vec::new();
    if done {
        return r;
    }
    let (new_borns_opt, done_after) = update();
    let ghost nb = new_borns_opt;
    match new_borns_opt {
        Some(mut new_borns) => {
            let ghost all = new_borns@;
            let n = new_borns.len();
            let mut k: usize = 0;
            while k < n
                invariant
                    n == all.len(),
                    k <= n,
                    new_borns@ == all.subrange(k as int, n as int),
                    r@.len() == k,
                    forall|i: int| 0 <= i < k ==> #[trigger] r@[i] == spec_spawned(all[i]),
                decreases n - k,
            {
                let e = new_borns.remove(0);
                r.push(spawn_enemy(e));
                k = k + 1;
                assert(new_borns@ =~= all.subrange(k as int, n as int));
            }
        },
        None => {},
    }
    if done_after {
        *done_appearance = true;
    }
    r
}


/// The animation frame always stays among the four fairy frames, and four
/// animation steps from any of them come back to it.
pub proof fn lemma_anim_cycle(i: usize)
    requires
        i < usize::MAX,
    ensures
        next_anim_index(i) <= 3,
        i <= 3 ==> next_anim_index(next_anim_index(next_anim_index(next_anim_index(i)))) == i,
{
}

/// An enemy leaves the screen in a straight line along one axis: its exit
/// point keeps one of its coordinates, and the other is one past the
/// margin above or below the game area, past the margin left of it, or the
/// margin inside its right edge.
pub proof fn lemma_exit_target_axis(pos: Vec2)
    ensures
        ({
            let t = exit_target(pos);
            ||| t.x == pos.x && (t.y == -exit_margin() || t.y == game_h() + exit_margin())
            ||| t.y == pos.y && (t.x == -exit_margin() || t.x == game_w() - exit_margin())
        }),
{
}

/// Steering never moves the position, and turns the heading by no more
/// than the turn limit of the speed; a reached target changes nothing.
pub proof fn lemma_steer_bounds<A: Fn(i32, i32) -> i32, D: Fn(i32, i32) -> i32>(
    old: Posture,
    old_speed: Speed,
    target: Vec2,
    atan2: A,
    diff_angle: D,
    new: Posture,
    new_speed: Speed,
    r: bool,
)
    requires
        steered(old, old_speed, target, atan2, diff_angle, new, new_speed, r),
    ensures
        new.0 == old.0,
        new.1 == old.1,
        new_speed.0 == old_speed.0,
        abs(new.2 - old.2) <= abs(turn_limit(old_speed.0)),
        r ==> new == old && new_speed == old_speed,
{
    if !r {
        let diff = target.spec_minus(old.0);
        let (ta, d) = choose|ta: i32, d: i32|
            #[trigger] atan2.ensures(((-diff.y) as i32, diff.x), ta)
            && #[trigger] diff_angle.ensures((ta, old.2), d)
            && new.2 == old.2 + spec_clamp(d as int, -turn_limit(old_speed.0), turn_limit(old_speed.0));
        crate::math::lemma_clamp_symmetric_bound(d as int, turn_limit(old_speed.0));
    }
}

/// Settling in the formation brings the tilt toward zero without passing
/// it, and a tilt of at most `ANGLE * ONE / 128` becomes zero.
pub proof fn lemma_settled_tilt(t: i32)
    ensures
        abs(settled_tilt(t)) <= abs(t as int),
        t >= 0 ==> settled_tilt(t) >= 0,
        t <= 0 ==> settled_tilt(t) <= 0,
        abs(t as int) <= ANGLE * ONE / 128 ==> settled_tilt(t) == 0,
{
}

/// A target counts as reached by squared distance: with the offset
/// `(dx, dy)` from the position to the target and both it and the speed
/// `s` shifted right by 4, the target is reached exactly when
/// `dx² + dy² <= s²`. So it is never reached when one coordinate of the
/// offset alone is farther than the speed, and always when the offset is
/// zero.
pub proof fn lemma_reached_by_distance<A: Fn(i32, i32) -> i32, D: Fn(i32, i32) -> i32>(
    old: Posture,
    old_speed: Speed,
    target: Vec2,
    atan2: A,
    diff_angle: D,
    new: Posture,
    new_speed: Speed,
    r: bool,
)
    requires
        target.minus_fits(old.0),
        steered(old, old_speed, target, atan2, diff_angle, new, new_speed, r),
    ensures
        r == ({
            let dx = ((target.x - old.0.x) as i32) >> 4i32;
            let dy = ((target.y - old.0.y) as i32) >> 4i32;
            let sp = old_speed.0 >> 4i32;
            dx * dx + dy * dy <= sp * sp
        }),
        ({
            let dx = ((target.x - old.0.x) as i32) >> 4i32;
            let sp = old_speed.0 >> 4i32;
            dx * dx > sp * sp
        }) ==> !r,
        ({
            let dy = ((target.y - old.0.y) as i32) >> 4i32;
            let sp = old_speed.0 >> 4i32;
            dy * dy > sp * sp
        }) ==> !r,
        target == old.0 ==> r,
{
    let dx = ((target.x - old.0.x) as i32) >> 4i32;
    let dy = ((target.y - old.0.y) as i32) >> 4i32;
    assert(dx * dx >= 0) by (nonlinear_arith);
    assert(dy * dy >= 0) by (nonlinear_arith);
    let sp = old_speed.0 >> 4i32;
    assert(sp * sp >= 0) by (nonlinear_arith);
    if target == old.0 {
        let z: i32 = 0;
        assert(z >> 4i32 == 0i32) by (bit_vector)
            requires
                z == 0,
        ;
        assert((target.x - old.0.x) as i32 == z);
        assert((target.y - old.0.y) as i32 == z);
        assert(dx == 0 && dy == 0);
        assert(dx * dx + dy * dy == 0) by (nonlinear_arith)
            requires
                dx == 0,
                dy == 0,
        ;
        assert(reached(target.spec_minus(old.0), old_speed.0));
    }
}

/// The nearer of `a` and `b`.
pub open spec fn min_int(a: int, b: int) -> int {
    if a <= b { a } else { b }
}

/// An enemy inside the game area leaves by the nearest edge: straight up or
/// down (keeping its x) exactly when the nearer horizontal edge is nearer
/// than the nearer vertical edge, up exactly when it is in the upper half;
/// otherwise sideways (keeping its y), left exactly when it is in the left
/// half. The choice is the same for a position and its mirror image across
/// the middle.
pub proof fn lemma_exit_nearest_edge(pos: Vec2)
    requires
        0 <= pos.x <= game_w(),
        0 <= pos.y <= game_h(),
    ensures
        ({
            let t = exit_target(pos);
            let to_side = min_int(pos.x as int, game_w() - pos.x);
            let to_top_bottom = min_int(pos.y as int, game_h() - pos.y);
            let vertical = t.x == pos.x && (t.y == -exit_margin() || t.y == game_h() + exit_margin());
            let mirror = exit_target(Vec2 { x: (game_w() - pos.x) as i32, y: pos.y });
            &&& vertical == (to_top_bottom < to_side)
            &&& vertical ==> (t.y == -exit_margin()) == (pos.y <= game_h() / 2)
            &&& !vertical ==> t.y == pos.y && (t.x == -exit_margin()) == (pos.x <= game_w() / 2)
            &&& !vertical ==> (t.x == -exit_margin() || t.x == game_w() - exit_margin())
            &&& (mirror.x == game_w() - pos.x && mirror.y != pos.y) == vertical
        }),
{
}

/// Attacks get harder with the stage and then stay so: the number of shots
/// never falls as the stage grows, stages below 8 fire 2 shots 16 frames
/// apart, and every stage from 24 on fires 5 shots 10 frames apart, on
/// frames 10, 20, 30, 40 and 50, ending on frame 50.
pub proof fn lemma_attack_difficulty(s1: u16, s2: u16)
    ensures
        s1 <= s2 ==> shot_count(s1) <= shot_count(s2),
        s1 < 8 ==> shot_count(s1) == 2 && shot_interval(s1) == 16,
        s1 >= 24 ==> {
            &&& shot_count(s1) == 5
            &&& shot_interval(s1) == 10
            &&& forall|c: u32| #[trigger] attack_fires(s1, c) <==> (c % 10 == 0 && c <= 50)
            &&& forall|c: u32| #[trigger] attack_ends(s1, c) <==> c == 50
        },
{
}

/// Whether a present trajectory goes on or ends, its step decides the pose:
/// the position and heading come from the step, the speed is the step's
/// speed and angular velocity, and only the tilt stays.
pub proof fn lemma_trajectory_pose<T, F: Fn(T) -> (T, TrajPose, bool)>(
    old_base: EnemyBase<T>,
    old_posture: Posture,
    old_vel: Speed,
    step: F,
    new_base: EnemyBase<T>,
    new_posture: Posture,
    new_vel: Speed,
    r: bool,
)
    requires
        old_base.traj is Some,
        trajectory_updated(old_base, old_posture, old_vel, step, new_base, new_posture, new_vel, r),
    ensures
        exists|t2: T, pose: TrajPose| {
            &&& #[trigger] step.ensures((old_base.traj->0,), (t2, pose, r))
            &&& new_posture == Posture(pose.pos, old_posture.1, pose.angle)
            &&& new_vel == Speed(pose.speed, pose.vangle)
            &&& new_base.traj == (if r { Some(t2) } else { None })
        },
{
    let (t2, pose) = choose|t2: T, pose: TrajPose|
        #[trigger] step.ensures((old_base.traj->0,), (t2, pose, r)) && {
            &&& new_posture.0 == pose.pos
            &&& new_posture.1 == old_posture.1
            &&& new_posture.2 == pose.angle
            &&& new_vel.0 == pose.speed
            &&& new_vel.1 == pose.vangle
            &&& new_base.traj == (if r { Some(t2) } else { None })
        };
    assert(new_posture == Posture(pose.pos, old_posture.1, pose.angle));
    assert(new_vel == Speed(pose.speed, pose.vangle));
}

} // verus!
