//! The work categories that the repository synchronizer walks.
use vstd::prelude::*;

verus! {

/// The work categories, as repository paths, in the order they are synced.
pub open spec fn cathedral_categories() -> Seq<Seq<char>> {
    seq![
        "tarot-system/72-degrees-hermann-haindl"@,
        "circuitum99/33-living-chapters"@,
        "audio-system/vst3-strudel-integration"@,
        "mystical-system/alpha-omega-arcanae"@,
        "business-system/rebecca-professional-work"@,
        "game-system/fool-respawn-gate"@,
        "session-system/replit-connection"@,
        "design-system/affinity-designer-2/tarot-designs"@,
        "design-system/affinity-designer-2/business-designs"@,
        "design-system/affinity-designer-2/mystical-business"@,
        "design-system/affinity-designer-2/game-designs"@,
    ]
}

/// Lists the work categories.
pub fn get_cathedral_categories() -> (r: Vec<&'static str>)
    ensures
        r@.map_values(|s: &str| s@) == cathedral_categories(),
{
    let r = vec![
        "tarot-system/72-degrees-hermann-haindl",
        "circuitum99/33-living-chapters",
        "audio-system/vst3-strudel-integration",
        "mystical-system/alpha-omega-arcanae",
        "business-system/rebecca-professional-work",
        "game-system/fool-respawn-gate",
        "session-system/replit-connection",
        "design-system/affinity-designer-2/tarot-designs",
        "design-system/affinity-designer-2/business-designs",
        "design-system/affinity-designer-2/mystical-business",
        "design-system/affinity-designer-2/game-designs",
    ];
    assert(r@.map_values(|s: &str| s@) =~= cathedral_categories());
    r
}

} // verus!
