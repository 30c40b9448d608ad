//! How many projectiles were launched and how many hit.
use vstd::prelude::*;

verus! {

/// How many projectiles were launched and how many hit.
#[derive(Debug, Clone, Copy, PartialEq, Eq, Structural)]
pub struct ProjectileStatistics {
    pub launch_count: u32,
    pub accurate_count: u32,
}

impl Default for ProjectileStatistics {
    fn default() -> (r: Self)
        ensures
            r == (ProjectileStatistics { launch_count: 0, accurate_count: 0 }),
    {
        ProjectileStatistics { launch_count: 0, accurate_count: 0 }
    }
}

impl ProjectileStatistics {
    /// Counts a launch.
    pub fn increase_launch(&mut self)
        requires
            old(self).launch_count < u32::MAX,
        ensures
            *final(self) == (ProjectileStatistics {
                launch_count: (old(self).launch_count + 1) as u32,
                ..*old(self)
            }),
    {
        self.launch_count = self.launch_count + 1;
    }

    /// Counts a hit.
    pub fn increase_accurate(&mut self)
        requires
            old(self).accurate_count < u32::MAX,
        ensures
            *final(self) == (ProjectileStatistics {
                accurate_count: (old(self).accurate_count + 1) as u32,
                ..*old(self)
            }),
    {
        self.accurate_count = self.accurate_count + 1;
    }

    /// The share of hits in percent, as a fraction: a numerator and a denominator that is not zero.
    /// Without a launch the share is zero.
    pub fn accurate_pct(&self) -> (r: (u64, u64))
        ensures
            self.launch_count == 0 ==> r == (0u64, 1u64),
            self.launch_count != 0 ==> r == (
                (100 * self.accurate_count) as u64,
                self.launch_count as u64,
            ),
            r.0 <= 100 * u32::MAX,
            0 < r.1 <= u32::MAX,
    {
        if self.launch_count == 0 {
            return (0, 1);
        }
        (100 * self.accurate_count as u64, self.launch_count as u64)
    }
}

/// Where no more projectiles hit than were launched, the share lies between nothing and a hundred
/// percent, and it is a hundred percent where each one hit.
pub proof fn law_share_is_a_percentage(stats: ProjectileStatistics)
    requires
        stats.accurate_count <= stats.launch_count,
        stats.launch_count > 0,
    ensures
        0 <= 100 * stats.accurate_count <= 100 * stats.launch_count,
        stats.accurate_count == stats.launch_count <==> 100 * stats.accurate_count == 100
            * stats.launch_count,
{
}

/// A launch is counted as one launch and nothing else; a hit as one hit and nothing else.
pub proof fn law_calls_of_the_counters(
    launched: &mut ProjectileStatistics,
    hit: &mut ProjectileStatistics,
    r: (),
)
    requires
        call_ensures(ProjectileStatistics::increase_launch, (launched,), r),
        call_ensures(ProjectileStatistics::increase_accurate, (hit,), r),
        old(launched).launch_count < u32::MAX,
        old(hit).accurate_count < u32::MAX,
    ensures
        final(launched).launch_count == old(launched).launch_count + 1,
        final(launched).accurate_count == old(launched).accurate_count,
        final(hit).accurate_count == old(hit).accurate_count + 1,
        final(hit).launch_count == old(hit).launch_count,
{
}

/// The share of hits is in percent: a hundred times the hits over the launches, and nothing where
/// nothing was launched.
pub proof fn law_calls_of_accurate_pct(stats: ProjectileStatistics, r: (u64, u64))
    requires
        call_ensures(ProjectileStatistics::accurate_pct, (&stats,), r),
    ensures
        r.1 > 0,
        stats.launch_count == 0 ==> r.0 == 0,
        stats.launch_count > 0 ==> r.0 * stats.launch_count == 100 * stats.accurate_count * r.1,
{
    assert((100 * stats.accurate_count) * stats.launch_count == 100 * stats.accurate_count
        * stats.launch_count) by (nonlinear_arith);
}

} // verus!
