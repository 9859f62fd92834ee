use vstd::prelude::*;

use crate::Position;

verus! {

/// A rectangular screen region: integer offset and size, as reported by the
/// session-management collaborator.
#[derive(Clone, Copy, PartialEq, Eq, Structural, Debug)]
pub struct Zone {
    pub x: i32,
    pub y: i32,
    pub width: u32,
    pub height: u32,
}

/// The current screen geometry together with the generation token that must
/// be echoed back when submitting barriers.
#[derive(Debug)]
pub struct ZoneSet {
    pub zones: Vec<Zone>,
    pub generation: u32,
}

/// An identified pointer-barrier line segment with inclusive endpoints.
#[derive(Clone, Copy, PartialEq, Eq, Structural, Debug)]
pub struct Barrier {
    pub id: u32,
    pub x1: i32,
    pub y1: i32,
    pub x2: i32,
    pub y2: i32,
}

/// The rightmost column covered by the zone (inclusive-endpoint convention).
pub open spec fn zone_right(z: Zone) -> int {
    z.x + z.width - 1
}

/// The bottommost row covered by the zone (inclusive-endpoint convention).
pub open spec fn zone_bottom(z: Zone) -> int {
    z.y + z.height - 1
}

/// A zone is well formed when it is at least one pixel in each dimension and
/// its far edges still lie on the `i32` coordinate grid.
pub open spec fn zone_wf(z: Zone) -> bool {
    &&& 1 <= z.width
    &&& 1 <= z.height
    &&& zone_right(z) <= i32::MAX
    &&& zone_bottom(z) <= i32::MAX
}

/// The barrier for one zone on the chosen edge, inclusive endpoints:
/// a vertical segment on the left or right column, a horizontal segment on
/// the top or bottom row.
pub open spec fn spec_barrier_for(z: Zone, pos: Position, id: u32) -> Barrier {
    match pos {
        Position::Left => Barrier { id, x1: z.x, y1: z.y, x2: z.x, y2: zone_bottom(z) as i32 },
        Position::Right => Barrier {
            id,
            x1: zone_right(z) as i32,
            y1: z.y,
            x2: zone_right(z) as i32,
            y2: zone_bottom(z) as i32,
        },
        Position::Top => Barrier { id, x1: z.x, y1: z.y, x2: zone_right(z) as i32, y2: z.y },
        Position::Bottom => Barrier {
            id,
            x1: z.x,
            y1: zone_bottom(z) as i32,
            x2: zone_right(z) as i32,
            y2: zone_bottom(z) as i32,
        },
    }
}

/// One barrier per zone, ids assigned by enumeration index.
pub open spec fn spec_plan_barriers(zones: Seq<Zone>, pos: Position) -> Seq<Barrier> {
    Seq::new(zones.len(), |i: int| spec_barrier_for(zones[i], pos, i as u32))
}

/// Decides `zone_wf` at run time, for callers outside verified code.
pub fn zone_exec_wf(z: &Zone) -> (b: bool)
    ensures
        b == zone_wf(*z),
{
    1 <= z.width && 1 <= z.height && (z.x as i64) + (z.width as i64) - 1 <= i32::MAX as i64 && (
    z.y as i64) + (z.height as i64) - 1 <= i32::MAX as i64
}

/// Computes the barrier that `spec_barrier_for` describes for one zone.
pub fn barrier_for(z: &Zone, pos: Position, id: u32) -> (b: Barrier)
    requires
        zone_wf(*z),
    ensures
        b == spec_barrier_for(*z, pos, id),
{
    let x2: i32 = ((z.x as i64) + (z.width as i64) - 1) as i32;
    let y2: i32 = ((z.y as i64) + (z.height as i64) - 1) as i32;
    match pos {
        Position::Left => Barrier { id, x1: z.x, y1: z.y, x2: z.x, y2 },
        Position::Right => Barrier { id, x1: x2, y1: z.y, x2, y2 },
        Position::Top => Barrier { id, x1: z.x, y1: z.y, x2, y2: z.y },
        Position::Bottom => Barrier { id, x1: z.x, y1: y2, x2, y2 },
    }
}

/// Plans the pointer barriers for a zone set and a chosen screen edge:
/// one barrier per zone, on that edge, ids assigned by enumeration index.
/// Pure computation with no error conditions; replanning the same input
/// yields the identical list, so resubmission is idempotent.
pub fn plan_barriers(zones: &Vec<Zone>, pos: Position) -> (r: Vec<Barrier>)
    requires
        zones@.len() <= u32::MAX,
        forall|i: int| 0 <= i < zones@.len() ==> #[trigger] zone_wf(zones@[i]),
    ensures
        r@ == spec_plan_barriers(zones@, pos),
{
    let mut r: Vec<Barrier> = Vec::new();
    let mut n: usize = 0;
    while n < zones.len()
        invariant
            n <= zones@.len(),
            zones@.len() <= u32::MAX,
            forall|i: int| 0 <= i < zones@.len() ==> #[trigger] zone_wf(zones@[i]),
            r@.len() == n,
            forall|i: int| 0 <= i < n ==> r@[i] == #[trigger] spec_barrier_for(
                zones@[i],
                pos,
                i as u32,
            ),
        decreases zones@.len() - n,
    {
        let b = barrier_for(&zones[n], pos, n as u32);
        r.push(b);
        n += 1;
    }
    proof {
        assert(r@ =~= spec_plan_barriers(zones@, pos));
    }
    r
}

/// Law: barrier planning is deterministic and idempotent. Two plans over
/// identical zone sequences and the same edge are the same barrier list,
/// ids and coordinates alike.
pub proof fn lemma_plan_barriers_deterministic(z1: Seq<Zone>, z2: Seq<Zone>, pos: Position)
    requires
        z1 == z2,
    ensures
        spec_plan_barriers(z1, pos) == spec_plan_barriers(z2, pos),
{
}

/// Law: within one plan, barrier ids are the enumeration indices and hence
/// unique, and stable across replans of the same geometry.
pub proof fn lemma_plan_barrier_ids_unique(zones: Seq<Zone>, pos: Position)
    requires
        zones.len() <= u32::MAX,
    ensures
        forall|i: int| 0 <= i < zones.len() ==> (#[trigger] spec_plan_barriers(zones, pos)[i]).id
            == i as u32,
        forall|i: int, j: int| 0 <= i < zones.len() && 0 <= j < zones.len() && i != j ==> (
        #[trigger] spec_plan_barriers(zones, pos)[i]).id != (#[trigger] spec_plan_barriers(
            zones,
            pos,
        )[j]).id,
{
}

} // verus!
