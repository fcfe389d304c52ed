use vstd::prelude::*;

use crate::cursor::player_color;

verus! {

/// Length of a target shooting match in seconds.
pub const MATCH_SECONDS: u32 = 45;

/// The three kinds of target.
#[derive(Debug, Clone, Copy, PartialEq, Eq, Structural)]
pub enum TargetKind {
    /// Worth 100 points.
    Standard,
    /// Worth 300 points.
    Gold,
    /// Costs 150 points.
    Bomb,
}

/// Points a hit on a target of this kind is worth.
pub open spec fn target_points(kind: TargetKind) -> int {
    match kind {
        TargetKind::Standard => 100,
        TargetKind::Gold => 300,
        TargetKind::Bomb => -150,
    }
}

/// Radius of a target of this kind, in tenths of a percent of the screen.
pub open spec fn radius_tenths(kind: TargetKind) -> u32 {
    match kind {
        TargetKind::Standard => 45,
        TargetKind::Gold => 32,
        TargetKind::Bomb => 40,
    }
}

impl TargetKind {
    /// Radius of a target of this kind, in tenths of a percent of the
    /// screen (4.5 %, 3.2 % and 4 %).
    pub fn radius_tenths(self) -> (tenths: u32)
        ensures
            tenths == radius_tenths(self),
    {
        match self {
            TargetKind::Standard => 45,
            TargetKind::Gold => 32,
            TargetKind::Bomb => 40,
        }
    }
}

/// What a hit on a target shows and scores.
#[derive(Debug, Clone, Copy, PartialEq, Eq)]
pub struct HitEffect {
    pub points: i32,
    pub text: &'static str,
    pub color: &'static str,
}

/// Points, floating text and text colour of a hit by player slot `shooter`
/// (0 to 3) on a target of kind `kind`: a bomb shows in red, any other hit
/// in the shooter's colour.
pub fn hit_effect(kind: TargetKind, shooter: usize) -> (effect: HitEffect)
    requires
        shooter < 4,
    ensures
        effect.points == target_points(kind),
        effect.text@ == (match kind {
            TargetKind::Standard => "+100"@,
            TargetKind::Gold => "+300"@,
            TargetKind::Bomb => "-150"@,
        }),
        effect.color@ == (match kind {
            TargetKind::Bomb => "#ef4444"@,
            _ => crate::cursor::palette(crate::cursor::palette_index((shooter + 1) as usize)).1,
        }),
{
    let color = player_color(shooter + 1).primary;
    match kind {
        TargetKind::Standard => HitEffect { points: 100, text: "+100", color },
        TargetKind::Gold => HitEffect { points: 300, text: "+300", color },
        TargetKind::Bomb => HitEffect { points: -150, text: "-150", color: "#ef4444" },
    }
}

/// One player's tally in a match.
#[derive(Debug, Clone, Copy, PartialEq, Eq, Structural)]
pub struct PlayerScore {
    pub score: i32,
    pub shots_fired: u32,
    pub hits: u32,
}

impl Default for PlayerScore {
    /// No points, no shots, no hits.
    fn default() -> (score: Self)
        ensures
            score == (PlayerScore { score: 0, shots_fired: 0, hits: 0 }),
    {
        PlayerScore { score: 0, shots_fired: 0, hits: 0 }
    }
}

/// The tally after one more shot, which hit a target of kind `k` when
/// `hit == Some(k)`.
pub open spec fn after_shot(score: PlayerScore, hit: Option<TargetKind>) -> (int, int, int) {
    match hit {
        Some(kind) => (score.score + target_points(kind), score.shots_fired + 1, score.hits + 1),
        None => (score.score as int, score.shots_fired + 1, score.hits as int),
    }
}

/// Law: a player never has more hits than shots: registering a shot keeps
/// `hits <= shots_fired`.
pub proof fn hits_never_exceed_shots(score: PlayerScore, hit: Option<TargetKind>)
    requires
        score.hits <= score.shots_fired,
    ensures
        after_shot(score, hit).2 <= after_shot(score, hit).1,
{
}

impl PlayerScore {
    /// Counts one shot, and, when it hit a target of kind `k` (`hit ==
    /// Some(k)`), one hit and the target's points. The counters must not
    /// overflow.
    pub fn register_shot(&mut self, hit: Option<TargetKind>)
        requires
            old(self).shots_fired < u32::MAX,
            hit matches Some(kind) ==> old(self).hits < u32::MAX && i32::MIN <= old(self).score
                + target_points(kind) <= i32::MAX,
        ensures
            (final(self).score as int, final(self).shots_fired as int, final(self).hits as int)
                == after_shot(*old(self), hit),
    {
        self.shots_fired = self.shots_fired + 1;
        if let Some(kind) = hit {
            let points: i32 = match kind {
                TargetKind::Standard => 100,
                TargetKind::Gold => 300,
                TargetKind::Bomb => -150,
            };
            self.hits = self.hits + 1;
            self.score = self.score + points;
        }
    }
}

/// A pointer fires when A or B has just been pressed (held now, not at the
/// previous frame) while the pointer is active and the match is running.
pub fn fires(pressing_now: bool, pressing_before: bool, active: bool, game_over: bool) -> (fired: bool)
    ensures
        fired == (pressing_now && !pressing_before && active && !game_over),
{
    pressing_now && !pressing_before && active && !game_over
}

/// Where a hit target reappears, in whole percent of the screen.
pub open spec fn respawn_point(target_id: nat) -> (nat, nat) {
    ((10 + (target_id * 17) % 80) as nat, (15 + (target_id * 23) % 65) as nat)
}

/// Where target `target_id` reappears after being hit: x in 10..90 and y
/// in 15..80 percent of the screen.
pub fn respawn_spot(target_id: usize) -> (spot: (usize, usize))
    ensures
        (spot.0 as nat, spot.1 as nat) == respawn_point(target_id as nat),
{
    proof {
        vstd::arithmetic::div_mod::lemma_mul_mod_noop_left(target_id as int, 17, 80);
        vstd::arithmetic::div_mod::lemma_mul_mod_noop_left(target_id as int, 23, 65);
    }
    (10 + ((target_id % 80) * 17) % 80, 15 + ((target_id % 65) * 23) % 65)
}

/// The match clock after one more second: it counts down, and the match
/// ends (`true`) when it reaches zero.
pub fn clock_tick(time_left: u32) -> (next: (u32, bool))
    ensures
        next == (if time_left > 1 { ((time_left - 1) as u32, false) } else { (0u32, true) }),
{
    if time_left > 1 {
        (time_left - 1, false)
    } else {
        (0, true)
    }
}

/// Law: a shot adds exactly the points of the target it hit, with no
/// clamping: a standard target adds 100, a gold one 300, a bomb takes away
/// 150 (so the score may go below zero); a miss leaves the score as it was.
/// Every shot counts once, and only a hit counts as a hit.
pub proof fn shots_score_their_target(score: PlayerScore)
    ensures
        after_shot(score, Some(TargetKind::Standard)) == (score.score + 100, score.shots_fired + 1, score.hits + 1),
        after_shot(score, Some(TargetKind::Gold)) == (score.score + 300, score.shots_fired + 1, score.hits + 1),
        after_shot(score, Some(TargetKind::Bomb)) == (score.score - 150, score.shots_fired + 1, score.hits + 1),
        after_shot(score, None) == (score.score as int, score.shots_fired + 1, score.hits as int),
        score.score == 0 ==> after_shot(score, Some(TargetKind::Bomb)).0 < 0,
{
}

} // verus!
