//! The navigation/interaction controller: coordinate-space-aware
//! hit-testing and the decisions driven by it.
//!
//! A pointer event arrives in screen space; the relevant camera turns it
//! into world space; markers are matched by Euclidean proximity (the
//! nearest within the fixed radius wins, the earliest on an exact tie);
//! a hit pushes the current map onto the history and switches maps, and
//! the cameras' limits are re-derived from the new content.  The event
//! loop around this module only performs I/O: it loads images, reports
//! their sizes, and hands events in as plain values.

use vstd::prelude::*;

use crate::camera::{
    limits_fits, limits_offset_min, limits_scale_max, limits_scale_min, positive_dims, Camera,
    CameraError, CameraId, CameraManager,
};
use crate::position::Position;
use crate::project_state::{MapData, MapId, Marker, ProjectState};
use crate::rational::{
    lemma_q_eq_trans, lemma_q_le_congr, lemma_q_le_lt_trans, lemma_q_norm_eq, lemma_q_ops_wf,
    q_add, q_div, q_eq, q_fits, q_int, q_le, q_lt, q_mul, q_norm, q_sub, q_wf, q_zero, Rational, Q,
};

verus! {

/// The proximity radius for marker hits, in world units.
pub const MARKER_SIZE: i64 = 20;

/// The parent-map inset's share of the window width.
pub const PARENT_MAP_X_RATIO_NUM: i64 = 3;

pub const PARENT_MAP_X_RATIO_DEN: i64 = 10;

/// The squared Euclidean distance between `(ax, ay)` and `(bx, by)`.
pub open spec fn d2(ax: Q, ay: Q, bx: Q, by: Q) -> Q {
    q_add(
        q_mul(q_sub(ax, bx), q_sub(ax, bx)),
        q_mul(q_sub(ay, by), q_sub(ay, by)),
    )
}

/// The squared distance of a marker to a world-space point.
pub open spec fn marker_d2(m: Marker, w: Position) -> Q {
    d2(m.position.x@, m.position.y@, w.x@, w.y@)
}

/// Marker `m` lies strictly within the hit radius of `w`.
pub open spec fn marker_in_radius(m: Marker, w: Position) -> bool {
    q_lt(marker_d2(m, w), q_int(400))
}

/// A squared distance is a well-formed fraction.
proof fn lemma_d2_wf(ax: Q, ay: Q, bx: Q, by: Q)
    requires
        q_wf(ax),
        q_wf(ay),
        q_wf(bx),
        q_wf(by),
    ensures
        q_wf(d2(ax, ay, bx, by)),
{
    lemma_q_ops_wf(ax, bx);
    lemma_q_ops_wf(ay, by);
    lemma_q_ops_wf(q_sub(ax, bx), q_sub(ax, bx));
    lemma_q_ops_wf(q_sub(ay, by), q_sub(ay, by));
    lemma_q_ops_wf(q_mul(q_sub(ax, bx), q_sub(ax, bx)), q_mul(q_sub(ay, by), q_sub(ay, by)));
}

/// Whether every exact intermediate of [`dist_sq`] has a machine
/// representation.
pub open spec fn d2_fits(ax: Q, ay: Q, bx: Q, by: Q) -> bool {
    let dx = q_norm(q_sub(ax, bx));
    let dy = q_norm(q_sub(ay, by));
    &&& q_fits(q_sub(ax, bx))
    &&& q_fits(q_mul(dx, dx))
    &&& q_fits(q_sub(ay, by))
    &&& q_fits(q_mul(dy, dy))
    &&& q_fits(q_add(q_norm(q_mul(dx, dx)), q_norm(q_mul(dy, dy))))
}

/// The exact squared Euclidean distance between two points.
pub fn dist_sq(a: &Position, b: &Position) -> (r: Option<Rational>)
    requires
        a.wf(),
        b.wf(),
    ensures
        r is Some <==> d2_fits(a.x@, a.y@, b.x@, b.y@),
        match r {
            Some(v) => v.wf() && q_eq(v@, d2(a.x@, a.y@, b.x@, b.y@)),
            None => true,
        },
{
    let dx = match a.x.sub(&b.x) {
        Some(v) => v,
        None => {
            return None;
        },
    };
    let sqx = match dx.mul(&dx) {
        Some(v) => v,
        None => {
            return None;
        },
    };
    let dy = match a.y.sub(&b.y) {
        Some(v) => v,
        None => {
            return None;
        },
    };
    let sqy = match dy.mul(&dy) {
        Some(v) => v,
        None => {
            return None;
        },
    };
    let total = match sqx.add(&sqy) {
        Some(v) => v,
        None => {
            return None;
        },
    };
    proof {
        let dx0 = q_sub(a.x@, b.x@);
        let dy0 = q_sub(a.y@, b.y@);
        lemma_q_ops_wf(a.x@, b.x@);
        lemma_q_ops_wf(a.y@, b.y@);
        lemma_q_norm_eq(dx0);
        lemma_q_norm_eq(dy0);
        lemma_q_ops_wf(q_norm(dx0), q_norm(dx0));
        lemma_q_ops_wf(q_norm(dy0), q_norm(dy0));
        lemma_q_ops_wf(dx0, dx0);
        lemma_q_ops_wf(dy0, dy0);
        crate::rational::lemma_q_mul_congr(q_norm(dx0), q_norm(dx0), dx0, dx0);
        crate::rational::lemma_q_mul_congr(q_norm(dy0), q_norm(dy0), dy0, dy0);
        lemma_q_norm_eq(q_mul(q_norm(dx0), q_norm(dx0)));
        lemma_q_norm_eq(q_mul(q_norm(dy0), q_norm(dy0)));
        lemma_q_eq_trans(sqx@, q_mul(q_norm(dx0), q_norm(dx0)), q_mul(dx0, dx0));
        lemma_q_eq_trans(sqy@, q_mul(q_norm(dy0), q_norm(dy0)), q_mul(dy0, dy0));
        crate::rational::lemma_q_add_sub_congr(sqx@, sqy@, q_mul(dx0, dx0), q_mul(dy0, dy0));
        lemma_q_ops_wf(sqx@, sqy@);
        lemma_q_ops_wf(q_mul(dx0, dx0), q_mul(dy0, dy0));
        lemma_q_norm_eq(q_add(sqx@, sqy@));
        lemma_q_eq_trans(
            total@,
            q_add(sqx@, sqy@),
            q_add(q_mul(dx0, dx0), q_mul(dy0, dy0)),
        );
    }
    Some(total)
}

/// Find the marker to act on for a click at world-space point `world`:
/// the nearest marker strictly within the hit radius, the earliest in
/// the list on an exact distance tie; `None` when no marker is in
/// range.
pub fn marker_hit(markers: &Vec<Marker>, world: &Position) -> (r: Result<
    Option<usize>,
    CameraError,
>)
    requires
        world.wf(),
        forall|t: int| 0 <= t < markers@.len() ==> (#[trigger] markers@[t]).position.wf(),
    ensures
        r is Ok <==> forall|t: int|
            0 <= t < markers@.len() ==> d2_fits(
                (#[trigger] markers@[t]).position.x@,
                markers@[t].position.y@,
                world.x@,
                world.y@,
            ),
        match r {
            Ok(opt) => match opt {
                Some(idx) => {
                    &&& 0 <= idx < markers@.len()
                    &&& marker_in_radius(markers@[idx as int], *world)
                    &&& forall|t: int|
                        0 <= t < markers@.len() && marker_in_radius(
                            #[trigger] markers@[t],
                            *world,
                        ) ==> q_le(marker_d2(markers@[idx as int], *world), marker_d2(
                            markers@[t],
                            *world,
                        ))
                    &&& forall|t: int|
                        0 <= t < idx && marker_in_radius(#[trigger] markers@[t], *world)
                            ==> q_lt(marker_d2(markers@[idx as int], *world), marker_d2(
                            markers@[t],
                            *world,
                        ))
                },
                None => forall|t: int|
                    0 <= t < markers@.len() ==> !marker_in_radius(
                        #[trigger] markers@[t],
                        *world,
                    ),
            },
            Err(e) => e == CameraError::Overflow,
        },
{
    let radius_sq = Rational::from_int(MARKER_SIZE * MARKER_SIZE);
    let mut best_i: usize = 0;
    let mut best_d = Rational::zero();
    let mut have = false;
    let n = markers.len();
    let mut j: usize = 0;
    while j < n
        invariant
            0 <= j <= n,
            n == markers@.len(),
            world.wf(),
            radius_sq.wf(),
            radius_sq@ == q_int(400),
            forall|t: int| 0 <= t < markers@.len() ==> (#[trigger] markers@[t]).position.wf(),
            forall|t: int|
                0 <= t < j ==> d2_fits(
                    (#[trigger] markers@[t]).position.x@,
                    markers@[t].position.y@,
                    world.x@,
                    world.y@,
                ),
            have ==> {
                &&& best_i < j
                &&& best_d.wf()
                &&& q_eq(best_d@, marker_d2(markers@[best_i as int], *world))
                &&& marker_in_radius(markers@[best_i as int], *world)
                &&& forall|t: int|
                    0 <= t < j && marker_in_radius(#[trigger] markers@[t], *world) ==> q_le(
                        marker_d2(markers@[best_i as int], *world),
                        marker_d2(markers@[t], *world),
                    )
                &&& forall|t: int|
                    0 <= t < best_i && marker_in_radius(#[trigger] markers@[t], *world)
                        ==> q_lt(marker_d2(markers@[best_i as int], *world), marker_d2(
                        markers@[t],
                        *world,
                    ))
            },
            !have ==> forall|t: int|
                0 <= t < j ==> !marker_in_radius(#[trigger] markers@[t], *world),
        decreases n - j,
    {
        let m = &markers[j];
        let dsq = match dist_sq(&m.position, world) {
            Some(v) => v,
            None => {
                return Err(CameraError::Overflow);
            },
        };
        proof {
            lemma_d2_wf(m.position.x@, m.position.y@, world.x@, world.y@);
            lemma_q_le_congr(dsq@, radius_sq@, marker_d2(markers@[j as int], *world), q_int(400));
        }
        if dsq.lt(&radius_sq) {
            if !have {
                have = true;
                best_i = j;
                best_d = dsq;
            } else {
                proof {
                    lemma_d2_wf(
                        markers@[best_i as int].position.x@,
                        markers@[best_i as int].position.y@,
                        world.x@,
                        world.y@,
                    );
                    lemma_q_le_congr(
                        dsq@,
                        best_d@,
                        marker_d2(markers@[j as int], *world),
                        marker_d2(markers@[best_i as int], *world),
                    );
                }
                if dsq.lt(&best_d) {
                    proof {
                        let dj = marker_d2(markers@[j as int], *world);
                        let db = marker_d2(markers@[best_i as int], *world);
                        assert forall|t: int|
                            0 <= t < j && marker_in_radius(#[trigger] markers@[t], *world)
                                implies q_lt(dj, marker_d2(markers@[t], *world)) by {
                            lemma_d2_wf(
                                markers@[t].position.x@,
                                markers@[t].position.y@,
                                world.x@,
                                world.y@,
                            );
                            lemma_d2_wf(
                                markers@[j as int].position.x@,
                                markers@[j as int].position.y@,
                                world.x@,
                                world.y@,
                            );
                            lemma_q_le_lt_trans(dj, db, marker_d2(markers@[t], *world));
                        }
                    }
                    best_i = j;
                    best_d = dsq;
                }
            }
        }
        j = j + 1;
    }
    if have {
        Ok(Some(best_i))
    } else {
        Ok(None)
    }
}

/// Why an interaction could not be carried out.
#[derive(Clone, Copy, Debug, PartialEq, Eq, Structural)]
pub enum NavError {
    /// A referenced map id is not among the loaded maps.
    MissingAsset,
    /// A camera operation was refused.
    Camera(CameraError),
}

/// The world-space point under the pointer, as the main-map camera
/// inverse-transforms it (the pointer itself when that camera was never
/// created), one axis each.
pub open spec fn click_world_x(cm: CameraManager, p: Position) -> Q {
    match cm.slot(CameraId::MainMap) {
        Some(c) => q_norm(q_div(q_norm(q_sub(p.x@, c.offset.x@)), c.scale@)),
        None => p.x@,
    }
}

pub open spec fn click_world_y(cm: CameraManager, p: Position) -> Q {
    match cm.slot(CameraId::MainMap) {
        Some(c) => q_norm(q_div(q_norm(q_sub(p.y@, c.offset.y@)), c.scale@)),
        None => p.y@,
    }
}

/// Marker `m` lies strictly within the hit radius of world point
/// `(wx, wy)`.
pub open spec fn hit_at(m: Marker, wx: Q, wy: Q) -> bool {
    q_lt(d2(m.position.x@, m.position.y@, wx, wy), q_int(400))
}

/// No marker of `m` is within the hit radius of `(wx, wy)`.
pub open spec fn no_hit_at(m: MapData, wx: Q, wy: Q) -> bool {
    forall|t: int| 0 <= t < m.markers@.len() ==> !hit_at(#[trigger] m.markers@[t], wx, wy)
}

/// Marker `i` of `m` is within the radius of `(wx, wy)`, no marker is
/// strictly nearer, and every earlier marker in the list is strictly
/// farther (the nearest-first tie-break).
pub open spec fn nearest_hit(m: MapData, wx: Q, wy: Q, i: int) -> bool {
    &&& 0 <= i < m.markers@.len()
    &&& hit_at(m.markers@[i], wx, wy)
    &&& forall|t: int|
        0 <= t < m.markers@.len() && hit_at(#[trigger] m.markers@[t], wx, wy) ==> q_le(
            d2(m.markers@[i].position.x@, m.markers@[i].position.y@, wx, wy),
            d2(m.markers@[t].position.x@, m.markers@[t].position.y@, wx, wy),
        )
    &&& forall|t: int|
        0 <= t < i && hit_at(#[trigger] m.markers@[t], wx, wy) ==> q_lt(
            d2(m.markers@[i].position.x@, m.markers@[i].position.y@, wx, wy),
            d2(m.markers@[t].position.x@, m.markers@[t].position.y@, wx, wy),
        )
}

/// The pointer lies strictly inside the parent-map inset's viewport
/// (`false` when that camera was never created).
pub open spec fn parent_inset_contains(cm: CameraManager, p: Position) -> bool {
    match cm.slot(CameraId::ParentMap) {
        Some(c) => c.contains_q(p),
        None => false,
    }
}

/// Whether every exact intermediate of [`handle_click`] has a machine
/// representation: the inverse transform of the pointer, every
/// marker's squared distance, and — only on the no-hit path with a
/// parent — the inset containment test's sums.
pub open spec fn click_fits(state: ProjectState, cm: CameraManager, p: Position) -> bool {
    let wx = click_world_x(cm, p);
    let wy = click_world_y(cm, p);
    let m = state.maps@[state.current_map.0];
    &&& (match cm.slot(CameraId::MainMap) {
        Some(c) => c.inverse_fits(p),
        None => true,
    })
    &&& (forall|t: int|
        0 <= t < m.markers@.len() ==> d2_fits(
            (#[trigger] m.markers@[t]).position.x@,
            m.markers@[t].position.y@,
            wx,
            wy,
        ))
    &&& (no_hit_at(m, wx, wy) && m.parent_id is Some ==> match cm.slot(CameraId::ParentMap) {
        Some(c) => q_fits(q_add(c.viewport_position.x@, c.viewport_size.x@)) && q_fits(
            q_add(c.viewport_position.y@, c.viewport_size.y@),
        ),
        None => true,
    })
}

/// Decide what a click at screen point `pointer` means: the target map
/// of the nearest marker within the hit radius of the
/// inverse-transformed pointer, else the parent map when the pointer
/// lies in the parent inset, else nothing.  Markers take precedence
/// over the parent inset, and the inset is not consulted once a marker
/// matched.
pub fn handle_click(state: &ProjectState, cm: &CameraManager, pointer: &Position) -> (r: Result<
    Option<MapId>,
    NavError,
>)
    requires
        state.wf(),
        cm.wf(),
        pointer.wf(),
        state.maps@.contains_key(state.current_map.0),
    ensures
        r is Ok <==> click_fits(*state, *cm, *pointer),
        match r {
            Ok(opt) => {
                let wx = click_world_x(*cm, *pointer);
                let wy = click_world_y(*cm, *pointer);
                let m = state.maps@[state.current_map.0];
                match opt {
                    Some(id) => (exists|i: int|
                        nearest_hit(m, wx, wy, i) && id == m.markers@[i].map_id) || (no_hit_at(
                        m,
                        wx,
                        wy,
                    ) && m.parent_id is Some && id == m.parent_id.unwrap() && parent_inset_contains(
                        *cm,
                        *pointer,
                    )),
                    None => no_hit_at(m, wx, wy) && !(m.parent_id is Some && parent_inset_contains(
                        *cm,
                        *pointer,
                    )),
                }
            },
            Err(e) => e is Camera,
        },
{
    let world = match cm.inv_transform_position(&CameraId::MainMap, pointer) {
        Ok(w) => w,
        Err(e) => {
            return Err(NavError::Camera(e));
        },
    };
    proof {
        cm.lemma_wf_slot(CameraId::MainMap);
        assert(world.x@ == click_world_x(*cm, *pointer));
        assert(world.y@ == click_world_y(*cm, *pointer));
    }
    let map = state.current_map();
    match marker_hit(&map.markers, &world) {
        Err(e) => Err(NavError::Camera(e)),
        Ok(Some(i)) => {
            proof {
                assert(nearest_hit(
                    state.maps@[state.current_map.0],
                    click_world_x(*cm, *pointer),
                    click_world_y(*cm, *pointer),
                    i as int,
                ));
            }
            Ok(Some(map.markers[i].map_id))
        },
        Ok(None) => {
            match &map.parent_id {
                Some(pid) => {
                    match cm.is_within(&CameraId::ParentMap, pointer) {
                        Err(e) => Err(NavError::Camera(e)),
                        Ok(true) => Ok(Some(*pid)),
                        Ok(false) => Ok(None),
                    }
                },
                None => Ok(None),
            }
        },
    }
}

/// The parent inset's viewport width: its share of the window width.
pub open spec fn parent_viewport_w(window: Position) -> Q {
    q_norm(q_mul(window.x@, Q { n: 3, d: 10 }))
}

/// The parent inset's viewport height: the width, scaled by the parent
/// image's aspect ratio.
pub open spec fn parent_viewport_h(window: Position, psize: Position) -> Q {
    q_norm(q_div(q_norm(q_mul(parent_viewport_w(window), psize.y@)), psize.x@))
}

/// Whether the whole camera refresh goes through: every exact
/// intermediate fits, every dimension it derives is positive.
pub open spec fn refresh_ok(window: Position, image: Position, parent: Option<Position>) -> bool {
    &&& positive_dims(window, image)
    &&& limits_fits(window.x@, window.y@, image.x@, image.y@)
    &&& match parent {
        Some(p) => {
            &&& q_fits(q_mul(window.x@, Q { n: 3, d: 10 }))
            &&& q_fits(q_mul(parent_viewport_w(window), p.y@))
            &&& q_lt(q_zero(), p.x@)
            &&& q_fits(q_div(q_norm(q_mul(parent_viewport_w(window), p.y@)), p.x@))
            &&& q_lt(q_zero(), parent_viewport_w(window))
            &&& q_lt(q_zero(), parent_viewport_h(window, p))
            &&& q_lt(q_zero(), p.y@)
            &&& limits_fits(parent_viewport_w(window), parent_viewport_h(window, p), p.x@, p.y@)
        },
        None => true,
    }
}

/// What the main-map camera looks like after a refresh: limits derived
/// from the window and content sizes, zoomed all the way out, panned to
/// the origin.
pub open spec fn refreshed_camera(c: Camera, vw: Q, vh: Q, cw: Q, ch: Q, vsize: Position) -> bool {
    &&& c.wf()
    &&& c.in_limits()
    &&& c.scale_min@ == limits_scale_min(vw, vh, cw, ch)
    &&& c.scale == c.scale_min
    &&& c.scale_max@ == limits_scale_max(vw, vh, cw, ch)
    &&& c.offset.x@ == q_zero()
    &&& c.offset.y@ == q_zero()
    &&& c.offset_min.x@ == limits_offset_min(vw, cw, c.scale_min@)
    &&& c.offset_min.y@ == limits_offset_min(vh, ch, c.scale_min@)
    &&& c.offset_max.x@ == q_zero()
    &&& c.offset_max.y@ == q_zero()
    &&& c.viewport_size == vsize
    &&& c.viewport_position.x@ == q_zero()
    &&& c.viewport_position.y@ == q_zero()
    &&& q_eq(q_mul(c.scale@, cw), vw) || q_eq(q_mul(c.scale@, ch), vh)
    &&& q_le(vw, q_mul(c.scale@, cw))
    &&& q_le(vh, q_mul(c.scale@, ch))
}

/// Re-derive the main-map camera's limits (and the parent inset's, when
/// the current map has a parent) from the window size and the content
/// image sizes, and reset both views.  Called on every map switch and
/// window resize.  The text-window camera is never touched.  On an
/// error nothing later in the sequence is applied; each camera itself
/// changes atomically.
pub fn refresh_cameras(
    cm: &mut CameraManager,
    window: &Position,
    image_size: &Position,
    parent_size: Option<&Position>,
) -> (r: Result<(), CameraError>)
    requires
        old(cm).wf(),
        window.wf(),
        image_size.wf(),
        match parent_size {
            Some(p) => p.wf(),
            None => true,
        },
    ensures
        final(cm).wf(),
        final(cm).slot(CameraId::TextWindow) == old(cm).slot(CameraId::TextWindow),
        r is Ok <==> refresh_ok(
            *window,
            *image_size,
            match parent_size {
                Some(p) => Some(*p),
                None => None,
            },
        ),
        match r {
            Ok(()) => {
                &&& final(cm).slot(CameraId::MainMap) is Some
                &&& refreshed_camera(
                    final(cm).slot(CameraId::MainMap).unwrap(),
                    window.x@,
                    window.y@,
                    image_size.x@,
                    image_size.y@,
                    *window,
                )
                &&& match parent_size {
                    Some(p) => final(cm).slot(CameraId::ParentMap) is Some && refreshed_camera(
                        final(cm).slot(CameraId::ParentMap).unwrap(),
                        parent_viewport_w(*window),
                        parent_viewport_h(*window, *p),
                        p.x@,
                        p.y@,
                        final(cm).slot(CameraId::ParentMap).unwrap().viewport_size,
                    ),
                    None => final(cm).slot(CameraId::ParentMap) == old(cm).slot(
                        CameraId::ParentMap,
                    ),
                }
            },
            Err(e) => {
                // each camera changes atomically: on an error it is
                // untouched, freshly created with its defaults, or (the
                // main map, when the parent fit failed later) already
                // fully refreshed
                &&& (e == CameraError::InvalidDimension || e == CameraError::Overflow)
                &&& (final(cm).slot(CameraId::MainMap) == old(cm).slot(CameraId::MainMap) || (
                old(cm).slot(CameraId::MainMap) is None && final(cm).slot(CameraId::MainMap)
                    is Some && final(cm).slot(CameraId::MainMap).unwrap().is_default()) || (
                final(cm).slot(CameraId::MainMap) is Some && refreshed_camera(
                    final(cm).slot(CameraId::MainMap).unwrap(),
                    window.x@,
                    window.y@,
                    image_size.x@,
                    image_size.y@,
                    *window,
                )))
                &&& (final(cm).slot(CameraId::ParentMap) == old(cm).slot(CameraId::ParentMap)
                    || (old(cm).slot(CameraId::ParentMap) is None && final(cm).slot(
                    CameraId::ParentMap,
                ) is Some && final(cm).slot(CameraId::ParentMap).unwrap().is_default()))
            },
        },
{
    let main = cm.get_camera(CameraId::MainMap);
    match main.set_limits(window, image_size, &Position::origin()) {
        Ok(()) => (),
        Err(e) => {
            return Err(e);
        },
    }
    main.zoom_out();
    match parent_size {
        Some(p) => {
            let ratio = Rational::from_ratio(PARENT_MAP_X_RATIO_NUM, PARENT_MAP_X_RATIO_DEN);
            let pvw = match window.x.mul(&ratio) {
                Some(v) => v,
                None => {
                    return Err(CameraError::Overflow);
                },
            };
            let num = match pvw.mul(&p.y) {
                Some(v) => v,
                None => {
                    return Err(CameraError::Overflow);
                },
            };
            if !p.x.is_positive() {
                return Err(CameraError::InvalidDimension);
            }
            let pvh = match num.div(&p.x) {
                Some(v) => v,
                None => {
                    return Err(CameraError::Overflow);
                },
            };
            let parent = cm.get_camera(CameraId::ParentMap);
            match parent.set_limits(&Position::new(pvw, pvh), p, &Position::origin()) {
                Ok(()) => (),
                Err(e) => {
                    return Err(e);
                },
            }
            parent.zoom_out();
            Ok(())
        },
        None => Ok(()),
    }
}

/// Jump to `target` and re-derive the cameras for the new map: push
/// the old current map onto the history, make `target` current, fit
/// the main-map camera to the new map's image, and fit the parent
/// inset when the new map has a parent.  A target that is not loaded
/// is refused with nothing changed.
pub fn apply_map_switch(
    state: &mut ProjectState,
    cm: &mut CameraManager,
    target: MapId,
    window: &Position,
    image_size: &Position,
    parent_size: Option<&Position>,
) -> (r: Result<(), NavError>)
    requires
        old(state).wf(),
        old(cm).wf(),
        window.wf(),
        image_size.wf(),
        match parent_size {
            Some(p) => p.wf(),
            None => true,
        },
    ensures
        final(state).wf(),
        final(cm).wf(),
        final(cm).slot(CameraId::TextWindow) == old(cm).slot(CameraId::TextWindow),
        r == Err::<(), NavError>(NavError::MissingAsset) <==> !old(state).maps@.contains_key(
            target.0,
        ),
        !old(state).maps@.contains_key(target.0) ==> final(state).current_map == old(state).current_map && final(state).maps@ == old(state).maps@ && final(state).map_history_stack
            == old(state).map_history_stack && *final(cm) == *old(cm),
        old(state).maps@.contains_key(target.0) ==> final(state).current_map == target && final(state).map_history_stack@ == old(state).map_history_stack@.push(old(state).current_map)
            && final(state).maps@ == old(state).maps@,
        r is Ok <==> old(state).maps@.contains_key(target.0) && refresh_ok(
            *window,
            *image_size,
            match parent_size {
                Some(p) => Some(*p),
                None => None,
            },
        ),
        match r {
            Ok(()) => {
                &&& final(cm).slot(CameraId::MainMap) is Some
                &&& refreshed_camera(
                    final(cm).slot(CameraId::MainMap).unwrap(),
                    window.x@,
                    window.y@,
                    image_size.x@,
                    image_size.y@,
                    *window,
                )
                &&& match parent_size {
                    Some(p) => final(cm).slot(CameraId::ParentMap) is Some && refreshed_camera(
                        final(cm).slot(CameraId::ParentMap).unwrap(),
                        parent_viewport_w(*window),
                        parent_viewport_h(*window, *p),
                        p.x@,
                        p.y@,
                        final(cm).slot(CameraId::ParentMap).unwrap().viewport_size,
                    ),
                    None => final(cm).slot(CameraId::ParentMap) == old(cm).slot(
                        CameraId::ParentMap,
                    ),
                }
            },
            Err(e) => match e {
                NavError::MissingAsset => *final(cm) == *old(cm),
                NavError::Camera(ce) => {
                    // the map switch has happened; each camera changed
                    // atomically or not at all
                    &&& (ce == CameraError::InvalidDimension || ce == CameraError::Overflow)
                    &&& (final(cm).slot(CameraId::MainMap) == old(cm).slot(CameraId::MainMap)
                        || (old(cm).slot(CameraId::MainMap) is None && final(cm).slot(
                        CameraId::MainMap,
                    ) is Some && final(cm).slot(CameraId::MainMap).unwrap().is_default()) || (
                    final(cm).slot(CameraId::MainMap) is Some && refreshed_camera(
                        final(cm).slot(CameraId::MainMap).unwrap(),
                        window.x@,
                        window.y@,
                        image_size.x@,
                        image_size.y@,
                        *window,
                    )))
                    &&& (final(cm).slot(CameraId::ParentMap) == old(cm).slot(CameraId::ParentMap)
                        || (old(cm).slot(CameraId::ParentMap) is None && final(cm).slot(
                        CameraId::ParentMap,
                    ) is Some && final(cm).slot(CameraId::ParentMap).unwrap().is_default()))
                },
            },
        },
{
    match state.switch_to_map(target) {
        Ok(()) => (),
        Err(_) => {
            return Err(NavError::MissingAsset);
        },
    }
    match refresh_cameras(cm, window, image_size, parent_size) {
        Ok(()) => Ok(()),
        Err(e) => Err(NavError::Camera(e)),
    }
}

/// Whether both exact pan sums of [`handle_drag`] have a machine
/// representation, on the main-map camera the drag will use (a fresh
/// default one when none was created yet).
pub open spec fn drag_fits(cm: CameraManager, delta: Position) -> bool {
    match cm.slot(CameraId::MainMap) {
        Some(c) => q_fits(q_add(c.offset.x@, delta.x@)) && q_fits(q_add(c.offset.y@, delta.y@)),
        None => q_fits(q_add(q_zero(), delta.x@)) && q_fits(q_add(q_zero(), delta.y@)),
    }
}

/// Pan the main map by a drag delta.
pub fn handle_drag(cm: &mut CameraManager, delta: &Position) -> (r: Result<(), CameraError>)
    requires
        old(cm).wf(),
        delta.wf(),
    ensures
        final(cm).wf(),
        final(cm).slot(CameraId::MainMap) is Some,
        forall|k: CameraId|
            k != CameraId::MainMap ==> #[trigger] final(cm).slot(k) == old(cm).slot(k),
        r is Ok <==> drag_fits(*old(cm), *delta),
        match r {
            Ok(()) => match old(cm).slot(CameraId::MainMap) {
                Some(c) => {
                    let nc = final(cm).slot(CameraId::MainMap).unwrap();
                    &&& nc.offset.x@ == crate::rational::q_clamp(
                        q_norm(q_add(c.offset.x@, delta.x@)),
                        c.offset_min.x@,
                        c.offset_max.x@,
                    )
                    &&& nc.offset.y@ == crate::rational::q_clamp(
                        q_norm(q_add(c.offset.y@, delta.y@)),
                        c.offset_min.y@,
                        c.offset_max.y@,
                    )
                    &&& q_le(nc.offset_min.x@, nc.offset.x@)
                    &&& q_le(nc.offset.x@, nc.offset_max.x@)
                    &&& q_le(nc.offset_min.y@, nc.offset.y@)
                    &&& q_le(nc.offset.y@, nc.offset_max.y@)
                    &&& nc.scale == c.scale
                    &&& nc.offset_min == c.offset_min
                    &&& nc.offset_max == c.offset_max
                    &&& nc.scale_min == c.scale_min
                    &&& nc.scale_max == c.scale_max
                    &&& nc.viewport_position == c.viewport_position
                    &&& nc.viewport_size == c.viewport_size
                },
                None => true,
            },
            Err(e) => e == CameraError::Overflow && (final(cm).slot(CameraId::MainMap) == old(cm).slot(CameraId::MainMap) || (old(cm).slot(CameraId::MainMap) is None && final(cm).slot(CameraId::MainMap).unwrap().is_default())),
        },
{
    let cam = cm.get_camera(CameraId::MainMap);
    cam.pan(delta)
}

/// The pointer lies strictly inside the text window's viewport
/// (`false` when that camera was never created).
pub open spec fn scroll_within_text(cm: CameraManager, p: Position) -> bool {
    match cm.slot(CameraId::TextWindow) {
        Some(c) => c.contains_q(p),
        None => false,
    }
}

/// The zoom factor a wheel notch produces: `1 + wheel/10`.
pub open spec fn scroll_factor(wheel: Q) -> Q {
    q_norm(q_add(q_int(1), q_norm(q_div(wheel, q_int(10)))))
}

/// Whether every exact intermediate of [`handle_scroll`] has a machine
/// representation: the containment test's sums, then either the text
/// pan or the main-map zoom (on a fresh default camera when none was
/// created yet).
pub open spec fn scroll_fits(cm: CameraManager, p: Position, wheel: Q) -> bool {
    &&& (match cm.slot(CameraId::TextWindow) {
        Some(c) => q_fits(q_add(c.viewport_position.x@, c.viewport_size.x@)) && q_fits(
            q_add(c.viewport_position.y@, c.viewport_size.y@),
        ),
        None => true,
    })
    &&& if scroll_within_text(cm, p) {
        match cm.slot(CameraId::TextWindow) {
            Some(c) => q_fits(q_mul(q_int(75), wheel)) && q_fits(q_add(c.offset.x@, q_zero()))
                && q_fits(q_add(c.offset.y@, q_norm(q_mul(q_int(75), wheel)))),
            None => true,
        }
    } else {
        &&& q_fits(q_div(wheel, q_int(10)))
        &&& q_fits(q_add(q_int(1), q_norm(q_div(wheel, q_int(10)))))
        &&& (match cm.slot(CameraId::MainMap) {
            Some(c) => crate::camera::zoom_fits(c, scroll_factor(wheel), p, true),
            None => forall|c: Camera|
                c.is_default() ==> crate::camera::zoom_fits(c, scroll_factor(wheel), p, true),
        })
    }
}

/// React to a mouse-wheel event at screen point `pointer`: inside the
/// text window the wheel scrolls the text (75 units per notch);
/// anywhere else it zooms the main map about the pointer by
/// `1 + wheel/10`, recentring the pan floor.  Exactly one camera is
/// affected on success; on an error every camera keeps its state (the
/// main-map camera may have been freshly created with its defaults).
pub fn handle_scroll(cm: &mut CameraManager, pointer: &Position, wheel: &Rational) -> (r: Result<
    (),
    CameraError,
>)
    requires
        old(cm).wf(),
        pointer.wf(),
        wheel.wf(),
    ensures
        final(cm).wf(),
        r is Ok <==> scroll_fits(*old(cm), *pointer, wheel@),
        match r {
            Ok(()) => {
                if (match old(cm).slot(CameraId::TextWindow) {
                    Some(c) => c.contains_q(*pointer),
                    None => false,
                }) {
                    // the wheel scrolled the text window
                    &&& final(cm).slot(CameraId::MainMap) == old(cm).slot(CameraId::MainMap)
                    &&& final(cm).slot(CameraId::ParentMap) == old(cm).slot(CameraId::ParentMap)
                    &&& final(cm).slot(CameraId::TextWindow) is Some
                    &&& {
                        let c = old(cm).slot(CameraId::TextWindow).unwrap();
                        let nc = final(cm).slot(CameraId::TextWindow).unwrap();
                        &&& nc.offset.y@ == crate::rational::q_clamp(
                            q_norm(
                                q_add(c.offset.y@, q_norm(q_mul(q_int(75), wheel@))),
                            ),
                            c.offset_min.y@,
                            c.offset_max.y@,
                        )
                        &&& q_le(nc.offset_min.y@, nc.offset.y@)
                        &&& q_le(nc.offset.y@, nc.offset_max.y@)
                        &&& nc.scale == c.scale
                        &&& nc.offset_min == c.offset_min
                        &&& nc.scale_min == c.scale_min
                        &&& nc.scale_max == c.scale_max
                        &&& nc.viewport_position == c.viewport_position
                        &&& nc.viewport_size == c.viewport_size
                    }
                } else {
                    // the wheel zoomed the main map about the pointer
                    &&& final(cm).slot(CameraId::ParentMap) == old(cm).slot(CameraId::ParentMap)
                    &&& final(cm).slot(CameraId::TextWindow) == old(cm).slot(CameraId::TextWindow)
                    &&& final(cm).slot(CameraId::MainMap) is Some
                    &&& match old(cm).slot(CameraId::MainMap) {
                        Some(c) => {
                            let nc = final(cm).slot(CameraId::MainMap).unwrap();
                            &&& nc.scale@ == crate::camera::zoom_scale(
                                c,
                                q_norm(q_add(q_int(1), q_norm(q_div(wheel@, q_int(10))))),
                            )
                            &&& q_le(nc.scale_min@, nc.scale@)
                            &&& q_le(nc.scale@, nc.scale_max@)
                            &&& q_le(nc.offset_min.x@, nc.offset.x@)
                            &&& q_le(nc.offset.x@, nc.offset_max.x@)
                            &&& q_le(nc.offset_min.y@, nc.offset.y@)
                            &&& q_le(nc.offset.y@, nc.offset_max.y@)
                            &&& nc.scale_min == c.scale_min
                            &&& nc.scale_max == c.scale_max
                            &&& nc.viewport_position == c.viewport_position
                            &&& nc.viewport_size == c.viewport_size
                        },
                        None => final(cm).slot(CameraId::MainMap).unwrap().wf(),
                    }
                }
            },
            Err(e) => e == CameraError::Overflow && final(cm).slot(CameraId::ParentMap) == old(
                cm,
            ).slot(CameraId::ParentMap) && final(cm).slot(CameraId::TextWindow) == old(cm).slot(
                CameraId::TextWindow,
            ) && (final(cm).slot(CameraId::MainMap) == old(cm).slot(CameraId::MainMap) || (old(
                cm,
            ).slot(CameraId::MainMap) is None && final(cm).slot(
                CameraId::MainMap,
            ).unwrap().is_default())),
        },
{
    let within = match cm.is_within(&CameraId::TextWindow, pointer) {
        Ok(b) => b,
        Err(e) => {
            return Err(e);
        },
    };
    if within {
        let step = match Rational::from_int(75).mul(wheel) {
            Some(v) => v,
            None => {
                return Err(CameraError::Overflow);
            },
        };
        let cam = cm.get_camera(CameraId::TextWindow);
        cam.pan(&Position::new(Rational::zero(), step))
    } else {
        let tenth = match wheel.div(&Rational::from_int(10)) {
            Some(v) => v,
            None => {
                return Err(CameraError::Overflow);
            },
        };
        let factor = match Rational::one().add(&tenth) {
            Some(v) => v,
            None => {
                return Err(CameraError::Overflow);
            },
        };
        let cam = cm.get_camera(CameraId::MainMap);
        let ghost pre = *cam;
        let res = cam.zoom(&factor, pointer, true);
        proof {
            assert(factor@ == scroll_factor(wheel@));
            if old(cm).slot(CameraId::MainMap) is None {
                // zoom feasibility depends only on the camera's views,
                // which is_default pins, so it is the same for every
                // fresh camera
                assert forall|c2: Camera| c2.is_default() implies crate::camera::zoom_fits(
                    c2,
                    scroll_factor(wheel@),
                    *pointer,
                    true,
                ) == crate::camera::zoom_fits(pre, scroll_factor(wheel@), *pointer, true) by {
                    assert(crate::camera::zoom_scale(c2, scroll_factor(wheel@))
                        == crate::camera::zoom_scale(pre, scroll_factor(wheel@)));
                    assert(crate::camera::zoom_ratio(c2, scroll_factor(wheel@))
                        == crate::camera::zoom_ratio(pre, scroll_factor(wheel@)));
                }
            }
        }
        res
    }
}

} // verus!
