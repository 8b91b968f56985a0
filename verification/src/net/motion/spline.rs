//! Server-authored paths.
use vstd::prelude::*;

verus! {

/// A path that the server gave a unit: through every point, at constant speed, over `duration_ms`.
pub struct Spline<P> {
    pub points: Vec<P>,
    /// The id that the acknowledgement of its end echoes.
    pub id: u32,
    pub duration_ms: u32,
    /// The path follows the terrain rather than its own heights.
    pub grounded: bool,
}

/// Is there a path to travel: not a stop, some time to travel in, and at least two points?
pub open spec fn travels(points: int, stop: bool, duration_ms: u32) -> bool {
    !stop && duration_ms != 0 && points >= 2
}

/// A monster move gives this path, or none.
pub open spec fn given<P>(
    r: Option<Spline<P>>,
    path: Seq<P>,
    id: u32,
    stop: bool,
    duration_ms: u32,
    flying: bool,
) -> bool {
    &&& r is Some <==> travels(path.len() as int, stop, duration_ms)
    &&& r matches Some(spline) ==> spline.points@ == path && spline.id == id && spline.duration_ms
        == duration_ms && spline.grounded == !flying
}

/// The path that a monster move gives, or `None` where it clears the path instead.
pub fn monster_move_spline<P>(path: Vec<P>, id: u32, stop: bool, duration_ms: u32, flying: bool) -> (r:
    Option<Spline<P>>)
    ensures
        given(r, path@, id, stop, duration_ms, flying),
{
    if stop || duration_ms == 0 || path.len() < 2 {
        return None;
    }
    Some(Spline { points: path, id, duration_ms, grounded: !flying })
}

/// A unit travels every point of the path that it was given, in the time that it was given, under the
/// id that it was given; on the ground unless it flies. A stop, a path of no time and a path of fewer
/// than two points clear it.
pub proof fn a_path_is_travelled_as_given<P>(
    r: Option<Spline<P>>,
    path: Seq<P>,
    id: u32,
    stop: bool,
    duration_ms: u32,
    flying: bool,
)
    requires
        given(r, path, id, stop, duration_ms, flying),
    ensures
        stop ==> r is None,
        duration_ms == 0 ==> r is None,
        path.len() < 2 ==> r is None,
        !stop && duration_ms > 0 && path.len() >= 2 ==> (r matches Some(spline) && spline.points@
            == path && spline.id == id && spline.duration_ms == duration_ms && (spline.grounded
            <==> !flying)),
{
}

} // verus!
