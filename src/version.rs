use vstd::prelude::*;

verus! {

/// Out of every hundred runs, about this many look up the latest release.
pub const VERSION_CHECK_PERCENTAGE: u8 = 10;

/// Whether a run whose roll (0 to 100) came out as `roll` looks up the latest
/// release.
pub fn should_check_version(roll: u8) -> (r: bool)
    ensures
        r == (roll <= VERSION_CHECK_PERCENTAGE),
{
    roll <= VERSION_CHECK_PERCENTAGE
}

/// Whether the release `latest` differs from the running one.
pub fn is_outdated(latest: &str, current: &str) -> (r: bool)
    ensures
        r == (latest@ != current@),
{
    String::from_str(latest) != String::from_str(current)
}

} // verus!
