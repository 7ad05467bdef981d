use vstd::prelude::*;
use crate::edge::{EdgeType, edge_type_next};

verus! {

/// `keys[j]` holds a key, no key is smaller, and every earlier key is larger:
/// the candidate that a minimum search keeping the first of equal minima
/// settles on.
pub open spec fn is_first_min_hit(keys: Seq<Option<u32>>, j: int) -> bool {
    &&& 0 <= j < keys.len()
    &&& keys[j] is Some
    &&& forall|i: int| 0 <= i < keys.len() && keys[i] is Some ==> keys[j]->0 <= keys[i]->0
    &&& forall|i: int| 0 <= i < j && keys[i] is Some ==> keys[j]->0 < keys[i]->0
}

/// No candidate is within reach.
pub open spec fn no_hit(keys: Seq<Option<u32>>) -> bool {
    forall|i: int| 0 <= i < keys.len() ==> keys[i] is None
}

/// The nearest hit as a function of the keys.
pub open spec fn first_min_hit(keys: Seq<Option<u32>>) -> Option<int> {
    if exists|j: int| is_first_min_hit(keys, j) {
        Some(choose|j: int| is_first_min_hit(keys, j))
    } else {
        None
    }
}

/// The control point to grab: among the candidates within reach (`Some`
/// key, ordered like the distance to the cursor), the nearest one, and of
/// equally near ones the first.
pub fn nearest_hit(keys: [Option<u32>; 4]) -> (r: Option<usize>)
    ensures
        r matches Some(j) ==> is_first_min_hit(keys@, j as int),
        r is None <==> no_hit(keys@),
        r matches Some(j) ==> first_min_hit(keys@) == Some(j as int),
        r is None ==> first_min_hit(keys@) is None,
{
    let mut best: Option<usize> = None;
    for i in 0usize..4
        invariant
            best matches Some(j) ==> (j < i && is_first_min_hit(keys@.take(i as int), j as int)),
            best is None ==> no_hit(keys@.take(i as int)),
    {
        match keys[i] {
            Some(k) => {
                match best {
                    Some(j) => {
                        let kj = keys[j].unwrap();
                        if k < kj {
                            best = Some(i);
                        }
                    },
                    None => {
                        best = Some(i);
                    },
                }
            },
            None => {},
        }
        assert(keys@.take(i + 1 as int) =~= keys@.take(i as int).push(keys@[i as int]));
    }
    assert(keys@.take(4) =~= keys@);
    proof {
        match best {
            Some(j) => {
                let c = choose|m: int| is_first_min_hit(keys@, m);
                lemma_first_min_hit_unique(keys@, j as int, c);
            },
            None => {
                if exists|m: int| is_first_min_hit(keys@, m) {
                    let c = choose|m: int| is_first_min_hit(keys@, m);
                    assert(keys@[c] is Some);
                }
            },
        }
    }
    best
}

/// The control-point editor: four control points, the edge type used to
/// draw the curve, and the control point being dragged, if any.
pub struct InteractiveScene<P> {
    pub points: [P; 4],
    pub edge_type: EdgeType,
    /// The control point being dragged, if any.
    pub dragging: Option<usize>,
}

/// The editor's state as mathematical values.
pub struct SceneView<P> {
    pub points: Seq<P>,
    pub edge_type: EdgeType,
    pub dragging: Option<int>,
}

impl<P> SceneView<P> {
    /// A press: the nearest control point within reach is grabbed, or none.
    pub open spec fn pressed(self, hit_keys: Seq<Option<u32>>) -> SceneView<P> {
        SceneView { dragging: first_min_hit(hit_keys), ..self }
    }

    /// A cursor move: a dragged control point follows the cursor.
    pub open spec fn moved(self, cursor: P) -> SceneView<P> {
        match self.dragging {
            Some(i) => SceneView { points: self.points.update(i, cursor), ..self },
            None => self,
        }
    }

    /// A release: nothing is dragged any more.
    pub open spec fn released(self) -> SceneView<P> {
        SceneView { dragging: None, ..self }
    }

    /// The edge type moves on to the next one.
    pub open spec fn cycled(self) -> SceneView<P> {
        SceneView { edge_type: edge_type_next(self.edge_type), ..self }
    }

    /// The control points are put back; edge type and drag state are kept.
    pub open spec fn reset_to(self, points: Seq<P>) -> SceneView<P> {
        SceneView { points, ..self }
    }
}

impl<P> View for InteractiveScene<P> {
    type V = SceneView<P>;

    open spec fn view(&self) -> SceneView<P> {
        SceneView {
            points: self.points@,
            edge_type: self.edge_type,
            dragging: match self.dragging {
                Some(i) => Some(i as int),
                None => None,
            },
        }
    }
}

impl<P: Copy> InteractiveScene<P> {
    /// A dragged control point is one of the four.
    pub open spec fn wf(&self) -> bool {
        self.dragging matches Some(i) ==> i < 4
    }

    /// Starts on the given control points, drawn as a hairline, with nothing
    /// being dragged.
    pub fn new(points: [P; 4]) -> (r: Self)
        ensures
            r.wf(),
            r@ == (SceneView {
                points: points@,
                edge_type: EdgeType::HairlineAA,
                dragging: None,
            }),
    {
        InteractiveScene { points, edge_type: EdgeType::HairlineAA, dragging: None }
    }

    /// Puts back the starting control points; the edge type and the drag
    /// state are kept.
    pub fn reset(&mut self, points: [P; 4])
        requires
            old(self).wf(),
        ensures
            final(self).wf(),
            final(self)@ == old(self)@.reset_to(points@),
    {
        self.points = points;
    }

    /// Moves on to the next edge type.
    pub fn cycle_edge_type(&mut self)
        requires
            old(self).wf(),
        ensures
            final(self).wf(),
            final(self)@ == old(self)@.cycled(),
    {
        self.edge_type = self.edge_type.cycle();
    }

    /// A press grabs the nearest control point within reach, or none;
    /// `hit_keys[i]` is `Some` for a control point within reach, ordered
    /// like its distance to the cursor.
    pub fn on_mouse_down(&mut self, hit_keys: [Option<u32>; 4])
        requires
            old(self).wf(),
        ensures
            final(self).wf(),
            final(self)@ == old(self)@.pressed(hit_keys@),
    {
        self.dragging = nearest_hit(hit_keys);
    }

    /// While a control point is dragged it follows the cursor; otherwise
    /// nothing changes.
    pub fn on_mouse_move(&mut self, cursor: P)
        requires
            old(self).wf(),
        ensures
            final(self).wf(),
            final(self)@ == old(self)@.moved(cursor),
    {
        match self.dragging {
            Some(i) => {
                self.points[i] = cursor;
            },
            None => {},
        }
    }

    /// A release lets go of the dragged control point.
    pub fn on_mouse_up(&mut self)
        requires
            old(self).wf(),
        ensures
            final(self).wf(),
            final(self)@ == old(self)@.released(),
    {
        self.dragging = None;
    }
}

/// The nearest hit is determined by the keys: two candidates that both
/// satisfy the choice are the same.
pub proof fn lemma_first_min_hit_unique(keys: Seq<Option<u32>>, j1: int, j2: int)
    requires
        is_first_min_hit(keys, j1),
        is_first_min_hit(keys, j2),
    ensures
        j1 == j2,
{
    if j1 < j2 {
        assert(keys[j2]->0 < keys[j1]->0);
    } else if j2 < j1 {
        assert(keys[j1]->0 < keys[j2]->0);
    }
}


/// Once released, moving the cursor changes nothing.
pub proof fn lemma_release_then_move_is_inert<P>(v: SceneView<P>, cursor: P)
    ensures
        v.released().moved(cursor) == v.released(),
{
}

/// While dragging, only the last cursor position matters: the dragged
/// control point sits under the cursor and the others stay put.
pub proof fn lemma_drag_follows_last_cursor<P>(v: SceneView<P>, c1: P, c2: P)
    requires
        v.dragging matches Some(i) ==> 0 <= i < v.points.len(),
    ensures
        v.moved(c1).moved(c2) == v.moved(c2),
{
    if let Some(i) = v.dragging {
        assert(v.points.update(i, c1).update(i, c2) =~= v.points.update(i, c2));
    }
}

/// A press with a control point within reach, then a move, puts exactly
/// that control point under the cursor.
pub proof fn lemma_press_then_move<P>(v: SceneView<P>, keys: Seq<Option<u32>>, j: int, cursor: P)
    requires
        is_first_min_hit(keys, j),
    ensures
        v.pressed(keys).moved(cursor).points == v.points.update(j, cursor),
        v.pressed(keys).moved(cursor).edge_type == v.edge_type,
{
    let c = choose|m: int| is_first_min_hit(keys, m);
    lemma_first_min_hit_unique(keys, j, c);
}

/// A press with nothing within reach grabs nothing, so the following moves
/// leave the curve as it was.
pub proof fn lemma_missed_press_is_inert<P>(v: SceneView<P>, keys: Seq<Option<u32>>, cursor: P)
    requires
        no_hit(keys),
    ensures
        v.pressed(keys).moved(cursor).points == v.points,
{
    if exists|m: int| is_first_min_hit(keys, m) {
        let c = choose|m: int| is_first_min_hit(keys, m);
        assert(keys[c] is Some);
    }
}

/// Cycling the edge type three times leaves the editor as it was.
pub proof fn lemma_cycle_three_times<P>(v: SceneView<P>)
    ensures
        v.cycled().cycled().cycled() == v,
{
    crate::edge::lemma_cycle_has_period_three(v.edge_type);
}

/// A reset puts exactly the given control points in place whatever the
/// drag state, and keeps the edge type and the drag state.
pub proof fn lemma_reset_sets_points<P>(v: SceneView<P>, points: Seq<P>)
    ensures
        v.reset_to(points).points == points,
        v.reset_to(points).edge_type == v.edge_type,
        v.reset_to(points).dragging == v.dragging,
{
}

/// Pressing, releasing and cycling the edge type never move a control
/// point; pressing and releasing keep the edge type; cycling keeps the drag.
pub proof fn lemma_only_moves_and_resets_move_points<P>(v: SceneView<P>, keys: Seq<Option<u32>>)
    ensures
        v.pressed(keys).points == v.points,
        v.released().points == v.points,
        v.cycled().points == v.points,
        v.pressed(keys).edge_type == v.edge_type,
        v.released().edge_type == v.edge_type,
        v.released().dragging is None,
        v.cycled().dragging == v.dragging,
        v.cycled().edge_type == edge_type_next(v.edge_type),
{
}

/// A move changes at most the dragged control point, to the cursor, and
/// never the edge type or the drag state.
pub proof fn lemma_move_changes_only_dragged_point<P>(v: SceneView<P>, cursor: P, k: int)
    requires
        0 <= k < v.points.len(),
        v.dragging matches Some(i) ==> 0 <= i < v.points.len(),
    ensures
        v.moved(cursor).points.len() == v.points.len(),
        v.moved(cursor).dragging == v.dragging,
        v.moved(cursor).edge_type == v.edge_type,
        v.dragging == Some(k) ==> v.moved(cursor).points[k] == cursor,
        v.dragging != Some(k) ==> v.moved(cursor).points[k] == v.points[k],
{
}

/// The grabbed control point is within reach, no other one is nearer, and
/// every one before it is farther; nothing is grabbed exactly when nothing
/// is within reach.
pub proof fn lemma_pressed_grabs_nearest<P>(v: SceneView<P>, keys: Seq<Option<u32>>)
    ensures
        v.pressed(keys).dragging matches Some(j) ==> (0 <= j < keys.len() && keys[j] is Some
            && (forall|i: int| 0 <= i < keys.len() && keys[i] is Some ==> keys[j]->0 <= keys[i]->0)
            && (forall|i: int| 0 <= i < j && keys[i] is Some ==> keys[j]->0 < keys[i]->0)),
        v.pressed(keys).dragging is None <==> (forall|i: int|
            0 <= i < keys.len() ==> keys[i] is None),
{
    if exists|m: int| is_first_min_hit(keys, m) {
        let c = choose|m: int| is_first_min_hit(keys, m);
        assert(is_first_min_hit(keys, c));
    } else {
        assert forall|i: int| 0 <= i < keys.len() implies keys[i] is None by {
            if keys[i] is Some {
                // the first nearest candidate would be a hit
                let m = choose_min_hit(keys, i);
                assert(is_first_min_hit(keys, m));
            }
        }
    }
}

/// Some candidate within reach is the first nearest one.
proof fn choose_min_hit_exists(keys: Seq<Option<u32>>, n: int, i: int)
    requires
        0 <= i < n <= keys.len(),
        keys[i] is Some,
    ensures
        exists|m: int| is_first_min_hit(keys.take(n), m),
    decreases n,
{
    if n - 1 == i && (forall|k: int| 0 <= k < i ==> keys[k] is None) {
        assert(is_first_min_hit(keys.take(n), i));
    } else if i < n - 1 {
        choose_min_hit_exists(keys, n - 1, i);
        let kp = keys.take(n - 1);
        let m = choose|m: int| is_first_min_hit(kp, m);
        let kt = keys.take(n);
        if keys[n - 1] is Some && keys[n - 1]->0 < keys[m]->0 {
            assert(is_first_min_hit(kt, n - 1));
        } else {
            assert(is_first_min_hit(kt, m));
        }
    } else {
        let k0 = choose|k: int| 0 <= k < i && #[trigger] keys[k] is Some;
        choose_min_hit_exists(keys, n - 1, k0);
        let kp = keys.take(n - 1);
        let m = choose|m: int| is_first_min_hit(kp, m);
        let kt = keys.take(n);
        if keys[n - 1]->0 < keys[m]->0 {
            assert(is_first_min_hit(kt, n - 1));
        } else {
            assert(is_first_min_hit(kt, m));
        }
    }
}

/// The index of the first nearest candidate, given that one exists.
proof fn choose_min_hit(keys: Seq<Option<u32>>, i: int) -> (m: int)
    requires
        0 <= i < keys.len(),
        keys[i] is Some,
    ensures
        is_first_min_hit(keys, m),
{
    choose_min_hit_exists(keys, keys.len() as int, i);
    assert(keys.take(keys.len() as int) =~= keys);
    choose|m: int| is_first_min_hit(keys, m)
}

} // verus!
