//! The achievement classifier: a pure mapping from a level value to an
//! achievement tier label.

use vstd::prelude::*;

verus! {

/// An achievement tier, assigned from the level at mint.
#[derive(Clone, Copy, Debug, PartialEq, Eq, Structural)]
pub enum AchievementTier {
    Novice,
    Apprentice,
    Expert,
    Master,
    Grandmaster,
}

/// The tier of a level: 1-10 Novice, 11-25 Apprentice, 26-50 Expert,
/// 51-75 Master, anything else (level 0 included) Grandmaster.
pub open spec fn spec_achievement_tier(level: u64) -> AchievementTier {
    if 1 <= level && level <= 10 {
        AchievementTier::Novice
    } else if 11 <= level && level <= 25 {
        AchievementTier::Apprentice
    } else if 26 <= level && level <= 50 {
        AchievementTier::Expert
    } else if 51 <= level && level <= 75 {
        AchievementTier::Master
    } else {
        AchievementTier::Grandmaster
    }
}

pub fn achievement_tier(level: u64) -> (t: AchievementTier)
    ensures
        t == spec_achievement_tier(level),
{
    if 1 <= level && level <= 10 {
        AchievementTier::Novice
    } else if 11 <= level && level <= 25 {
        AchievementTier::Apprentice
    } else if 26 <= level && level <= 50 {
        AchievementTier::Expert
    } else if 51 <= level && level <= 75 {
        AchievementTier::Master
    } else {
        AchievementTier::Grandmaster
    }
}

impl AchievementTier {
    /// The display label of a tier.
    pub open spec fn spec_label(self) -> Seq<char> {
        match self {
            AchievementTier::Novice => "Novice"@,
            AchievementTier::Apprentice => "Apprentice"@,
            AchievementTier::Expert => "Expert"@,
            AchievementTier::Master => "Master"@,
            AchievementTier::Grandmaster => "Grandmaster"@,
        }
    }

    pub fn label(&self) -> (s: String)
        ensures
            s@ == self.spec_label(),
    {
        let l: &str = match self {
            AchievementTier::Novice => "Novice",
            AchievementTier::Apprentice => "Apprentice",
            AchievementTier::Expert => "Expert",
            AchievementTier::Master => "Master",
            AchievementTier::Grandmaster => "Grandmaster",
        };
        l.to_owned()
    }
}

} // verus!
