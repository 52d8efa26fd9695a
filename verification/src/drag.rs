//! The drag controller: a state machine over the scene, evaluated once per
//! frame from edge-triggered pointer-button state. A press picks the topmost
//! draggable drawable under the pointer; while the button is held the item
//! tracks the pointer displacement applied to its press-time rectangle; on
//! release the item snaps to the topmost drop target under the pointer, or
//! stays at its dragged position if there is none.

use vstd::prelude::*;

use crate::geom::FbCoords;
use crate::geom::shifted_coord;
use crate::scene::Drawable;
use crate::scene::with_origin;

verus! {

/// The transient state of one press-to-release interaction: the dragged
/// item's index, its rectangle origin at press time, and the pointer position
/// at press time.
pub struct DragSession {
    pub item: usize,
    pub item_coords: FbCoords,
    pub pointer: FbCoords,
}

/// The scene as the drag controller sees it: the ordered back-to-front list
/// of drawables and the active drag session, if any.
pub struct SceneState {
    pub drawables: Vec<Drawable>,
    pub drag: Option<DragSession>,
}

impl SceneState {
    /// A drag session, when present, indexes a drawable that is draggable;
    /// picking filters on the drag capability, so this holds by construction.
    pub open spec fn wf(self) -> bool {
        match self.drag {
            Some(s) => s.item < self.drawables@.len()
                && self.drawables@[s.item as int].spec_draggable(),
            None => true,
        }
    }

    pub fn new(drawables: Vec<Drawable>) -> (r: SceneState)
        ensures
            r.drawables@ == drawables@,
            r.drag is None,
            r.wf(),
    {
        SceneState { drawables, drag: None }
    }
}

/// No drawable under the point can be picked up by a press.
pub open spec fn no_draggable_at(ds: Seq<Drawable>, coord: FbCoords) -> bool {
    forall|j: int|
        0 <= j < ds.len() ==> !(#[trigger] ds[j].spec_contains(coord) && ds[j].spec_draggable())
}

/// `i` is the topmost (last-added) drawable under the point that is
/// draggable: it qualifies, and nothing above it does.
pub open spec fn is_topmost_draggable_at(ds: Seq<Drawable>, coord: FbCoords, i: int) -> bool {
    &&& 0 <= i < ds.len()
    &&& ds[i].spec_contains(coord)
    &&& ds[i].spec_draggable()
    &&& forall|j: int|
        i < j < ds.len() ==> !(#[trigger] ds[j].spec_contains(coord) && ds[j].spec_draggable())
}

/// `t` is the topmost drawable other than the dragged one that is under the
/// point and accepts drops.
pub open spec fn is_topmost_target_at(
    ds: Seq<Drawable>,
    coord: FbCoords,
    dragged: int,
    t: int,
) -> bool {
    &&& 0 <= t < ds.len()
    &&& t != dragged
    &&& ds[t].spec_contains(coord)
    &&& ds[t].spec_accepts_drop()
    &&& forall|j: int|
        t < j < ds.len() && j != dragged ==> !(#[trigger] ds[j].spec_contains(coord)
            && ds[j].spec_accepts_drop())
}

/// No drawable other than the dragged one is under the point and accepts
/// drops.
pub open spec fn no_target_at(ds: Seq<Drawable>, coord: FbCoords, dragged: int) -> bool {
    forall|j: int|
        0 <= j < ds.len() && j != dragged ==> !(#[trigger] ds[j].spec_contains(coord)
            && ds[j].spec_accepts_drop())
}

/// Where a dragged item stands while the pointer has moved from `press` to
/// `cur`: the press-time origin plus the displacement, each axis clamped at
/// zero (and saturating at the top of the coordinate space).
pub open spec fn spec_drag_origin(item: FbCoords, cur: FbCoords, press: FbCoords) -> FbCoords {
    (
        shifted_coord(item.0 as int, cur.0 - press.0) as usize,
        shifted_coord(item.1 as int, cur.1 - press.1) as usize,
    )
}

/// Applies the pointer displacement since press to the press-time origin,
/// clamping each coordinate at zero.
pub fn dragged_origin(item: FbCoords, cur: FbCoords, press: FbCoords) -> (r: FbCoords)
    ensures
        r == spec_drag_origin(item, cur, press),
{
    (dragged_axis(item.0, cur.0, press.0), dragged_axis(item.1, cur.1, press.1))
}

fn dragged_axis(item: usize, cur: usize, press: usize) -> (r: usize)
    ensures
        r == shifted_coord(item as int, cur - press) as usize,
{
    if cur >= press {
        item.saturating_add(cur - press)
    } else {
        item.saturating_sub(press - cur)
    }
}

/// Scans the scene front-to-back (reverse of storage order) for the first
/// drawable under the point that is draggable: the topmost match wins, so
/// later-added drawables occlude earlier ones.
pub fn find_topmost_draggable(drawables: &Vec<Drawable>, coord: FbCoords) -> (r: Option<usize>)
    ensures
        match r {
            Some(i) => is_topmost_draggable_at(drawables@, coord, i as int),
            None => no_draggable_at(drawables@, coord),
        },
{
    let mut idx = drawables.len();
    while idx > 0
        invariant
            idx <= drawables@.len(),
            forall|j: int|
                idx <= j < drawables@.len() ==> !(#[trigger] drawables@[j].spec_contains(coord)
                    && drawables@[j].spec_draggable()),
        decreases idx,
    {
        idx = idx - 1;
        let item = &drawables[idx];
        if item.contains(coord) && item.is_draggable() {
            return Some(idx);
        }
    }
    None
}

/// Scans the scene front-to-back for the first drawable, other than the
/// dragged one, that is under the point and accepts drops.
pub fn find_release_target(drawables: &Vec<Drawable>, coord: FbCoords, dragged: usize) -> (r:
    Option<usize>)
    requires
        dragged < drawables@.len(),
        drawables@[dragged as int].spec_drag_type() is Some,
    ensures
        match r {
            Some(t) => is_topmost_target_at(drawables@, coord, dragged as int, t as int),
            None => no_target_at(drawables@, coord, dragged as int),
        },
{
    let mut idx = drawables.len();
    while idx > 0
        invariant
            idx <= drawables@.len(),
            dragged < drawables@.len(),
            drawables@[dragged as int].spec_drag_type() is Some,
            forall|j: int|
                idx <= j < drawables@.len() && j != dragged ==> !(
                #[trigger] drawables@[j].spec_contains(coord)
                    && drawables@[j].spec_accepts_drop()),
        decreases idx,
    {
        idx = idx - 1;
        if idx != dragged {
            let item = &drawables[idx];
            let dragged_item = &drawables[dragged];
            if item.contains(coord) && item.is_releasable(dragged_item) {
                return Some(idx);
            }
        }
    }
    None
}

/// One frame of the drag state machine, driven by the edge between the
/// previous and current pointer-button state.
///
/// On the press edge, the topmost draggable drawable under the pointer is
/// captured into a drag session; a press over nothing draggable establishes
/// no session and moves nothing. While the button stays held, the dragged
/// item stands at its press-time origin plus the pointer displacement,
/// clamped at zero; without a session, pointer movement has no effect on any
/// drawable. When the button is up, an active session is resolved: the item
/// snaps exactly to the origin of the topmost drop target under the release
/// point, or stays at its dragged position if there is no target; the session
/// is cleared unconditionally.
pub fn check_and_handle_drag(
    scene: &mut SceneState,
    mouse_down: bool,
    prev_mouse_down: bool,
    mouse: FbCoords,
)
    requires
        old(scene).wf(),
    ensures
        final(scene).wf(),
        final(scene).drawables@.len() == old(scene).drawables@.len(),
        mouse_down && !prev_mouse_down ==> {
            &&& final(scene).drawables@ == old(scene).drawables@
            &&& match final(scene).drag {
                Some(s) => is_topmost_draggable_at(old(scene).drawables@, mouse, s.item as int)
                    && s.item_coords == (
                    old(scene).drawables@[s.item as int].spec_rect().x,
                    old(scene).drawables@[s.item as int].spec_rect().y,
                ) && s.pointer == mouse,
                None => no_draggable_at(old(scene).drawables@, mouse),
            }
        },
        mouse_down && prev_mouse_down ==> {
            &&& match old(scene).drag {
                Some(s) => final(scene).drawables@ == old(scene).drawables@.update(
                    s.item as int,
                    with_origin(
                        old(scene).drawables@[s.item as int],
                        spec_drag_origin(s.item_coords, mouse, s.pointer),
                    ),
                ),
                None => final(scene).drawables@ == old(scene).drawables@,
            }
            &&& match (old(scene).drag, final(scene).drag) {
                (Some(s0), Some(s1)) => s0 == s1,
                (None, None) => true,
                _ => false,
            }
        },
        !mouse_down ==> {
            &&& final(scene).drag is None
            &&& match old(scene).drag {
                Some(s) => {
                    if no_target_at(old(scene).drawables@, mouse, s.item as int) {
                        final(scene).drawables@ == old(scene).drawables@.update(
                            s.item as int,
                            with_origin(
                                old(scene).drawables@[s.item as int],
                                spec_drag_origin(s.item_coords, mouse, s.pointer),
                            ),
                        )
                    } else {
                        exists|t: int|
                            #[trigger] is_topmost_target_at(
                                old(scene).drawables@,
                                mouse,
                                s.item as int,
                                t,
                            ) && final(scene).drawables@ == old(scene).drawables@.update(
                                s.item as int,
                                with_origin(
                                    old(scene).drawables@[s.item as int],
                                    (
                                        old(scene).drawables@[t].spec_rect().x,
                                        old(scene).drawables@[t].spec_rect().y,
                                    ),
                                ),
                            )
                    }
                },
                None => final(scene).drawables@ == old(scene).drawables@,
            }
        },
{
    if mouse_down {
        if !prev_mouse_down {
            // press edge: pick the topmost draggable item under the pointer
            match find_topmost_draggable(&scene.drawables, mouse) {
                Some(index) => {
                    let coords = scene.drawables[index].get_coords();
                    scene.drag = Some(DragSession { item: index, item_coords: coords, pointer: mouse });
                },
                None => {
                    scene.drag = None;
                },
            }
        } else {
            // button held: track the pointer from the press-time rectangle,
            // not incrementally from the live one, so no drift accumulates
            match &scene.drag {
                Some(s) => {
                    let index = s.item;
                    let coords = dragged_origin(s.item_coords, mouse, s.pointer);
                    let item = &mut scene.drawables[index];
                    item.move_to(coords);
                },
                None => {},
            }
        }
    } else {
        // button up: resolve and clear any active session
        match &scene.drag {
            Some(s) => {
                let index = s.item;
                match find_release_target(&scene.drawables, mouse, index) {
                    Some(t) => {
                        let target_coords = scene.drawables[t].get_coords();
                        let item = &mut scene.drawables[index];
                        item.move_to(target_coords);
                    },
                    None => {
                        let coords = dragged_origin(s.item_coords, mouse, s.pointer);
                        let item = &mut scene.drawables[index];
                        item.move_to(coords);
                    },
                }
                scene.drag = None;
            },
            None => {},
        }
    }
}

} // verus!
