//! Which vector entities are handed to the renderer each frame.

use vstd::prelude::*;

verus! {

/// What the renderer needs to know about an entity to decide whether to draw
/// it this frame.
#[derive(Clone, Copy, Debug, PartialEq, Eq, Structural)]
pub struct ExtractCandidate {
    /// Whether a camera sees the entity (world entities only).
    pub view_visible: bool,
    /// Whether the entity and all its ancestors are visible.
    pub inherited_visible: bool,
    /// Whether the entity's asset has loaded.
    pub asset_loaded: bool,
    /// Whether the entity's render layers intersect those of some camera
    /// that renders vector graphics.
    pub on_camera_layer: bool,
}

/// Whether a world-space entity is drawn: it must be seen by a camera,
/// visible through its ancestors, loaded, and on a camera's render layers.
pub open spec fn extracts_world(c: ExtractCandidate) -> bool {
    c.view_visible && c.inherited_visible && c.asset_loaded && c.on_camera_layer
}

/// Whether a UI entity is drawn: UI does not check view visibility, only
/// inherited visibility, and the asset must be loaded and on a camera's
/// render layers.
pub open spec fn extracts_ui(c: ExtractCandidate) -> bool {
    c.inherited_visible && c.asset_loaded && c.on_camera_layer
}

/// Whether a world-space entity is drawn this frame.
pub fn should_extract_world(c: &ExtractCandidate) -> (drawn: bool)
    ensures
        drawn == extracts_world(*c),
{
    c.view_visible && c.inherited_visible && c.asset_loaded && c.on_camera_layer
}

/// Whether a UI entity is drawn this frame.
pub fn should_extract_ui(c: &ExtractCandidate) -> (drawn: bool)
    ensures
        drawn == extracts_ui(*c),
{
    c.inherited_visible && c.asset_loaded && c.on_camera_layer
}

/// The number of candidates among `cs` that satisfy `extracts`.
pub open spec fn count_drawn(cs: Seq<ExtractCandidate>, world: bool) -> nat
    decreases cs.len(),
{
    if cs.len() == 0 {
        0
    } else {
        count_drawn(cs.drop_last(), world) + if (if world {
            extracts_world(cs.last())
        } else {
            extracts_ui(cs.last())
        }) {
            1nat
        } else {
            0nat
        }
    }
}

/// Counts the entities drawn this frame, for the entity count diagnostics.
pub fn count_extracted(cs: &Vec<ExtractCandidate>, world: bool) -> (n: usize)
    ensures
        n == count_drawn(cs@, world),
{
    let mut n: usize = 0;
    let mut i: usize = 0;
    while i < cs.len()
        invariant
            i <= cs@.len(),
            n == count_drawn(cs@.take(i as int), world),
            n <= i,
        decreases cs@.len() - i,
    {
        let drawn = if world {
            should_extract_world(&cs[i])
        } else {
            should_extract_ui(&cs[i])
        };
        proof {
            assert(cs@.take(i + 1).drop_last() == cs@.take(i as int));
        }
        if drawn {
            n = n + 1;
        }
        i = i + 1;
    }
    proof {
        assert(cs@.take(cs@.len() as int) == cs@);
    }
    n
}

/// The render layers of an entity or a camera, as the layer indices it is
/// on; no layers given stands for the default, layer 0 alone.
pub open spec fn layer_set(layers: Option<Seq<usize>>) -> Set<usize> {
    match layers {
        Some(l) => l.to_set(),
        None => set![0usize],
    }
}

/// The layer indices of optional render layers, as a sequence.
pub open spec fn layers_view(layers: Option<Vec<usize>>) -> Option<Seq<usize>> {
    match layers {
        Some(l) => Some(l@),
        None => None,
    }
}

/// Whether two sets of render layers share a layer.
pub open spec fn layers_intersect(a: Option<Seq<usize>>, b: Option<Seq<usize>>) -> bool {
    exists|l: usize| #[trigger] layer_set(a).contains(l) && layer_set(b).contains(l)
}

/// Whether a layer index is among the given render layers.
fn on_layer(layers: &Option<Vec<usize>>, layer: usize) -> (on: bool)
    ensures
        on == layer_set(layers_view(*layers)).contains(layer),
{
    match layers {
        None => layer == 0,
        Some(l) => {
            assert(layers_view(*layers) == Some(l@));
            let mut i: usize = 0;
            while i < l.len()
                invariant
                    i <= l@.len(),
                    forall|j: int| 0 <= j < i ==> l@[j] != layer,
                layers_view(*layers) == Some(l@),
                decreases l@.len() - i,
            {
                if l[i] == layer {
                    assert(l@.to_set().contains(l@[i as int]));
                    assert(layers_view(*layers) == Some(l@));
                    return true;
                }
                i = i + 1;
            }
            proof {
                if l@.to_set().contains(layer) {
                    let j = choose|j: int| 0 <= j < l@.len() && l@[j] == layer;
                    assert(l@[j] != layer);
                }
            }
            false
        },
    }
}

/// Whether two sets of render layers share a layer.
fn intersects(a: &Option<Vec<usize>>, b: &Option<Vec<usize>>) -> (shared: bool)
    ensures
        shared == layers_intersect(layers_view(*a), layers_view(*b)),
{
    match a {
        None => {
            let on = on_layer(b, 0);
            proof {
                if layers_intersect(layers_view(*a), layers_view(*b)) {
                    let l = choose|l: usize| #[trigger] layer_set(layers_view(*a)).contains(l) && layer_set(layers_view(*b)).contains(l);
                    assert(l == 0);
                }
                if on {
                    assert(layer_set(layers_view(*a)).contains(0usize));
                }
            }
            on
        },
        Some(la) => {
            let mut i: usize = 0;
            while i < la.len()
                invariant
                    i <= la@.len(),
                    layers_view(*a) == Some(la@),
                    forall|j: int| 0 <= j < i ==> !#[trigger] layer_set(layers_view(*b)).contains(la@[j]),
                decreases la@.len() - i,
            {
                if on_layer(b, la[i]) {
                    assert(layer_set(layers_view(*a)).contains(la@[i as int]));
                    return true;
                }
                i = i + 1;
            }
            proof {
                if layers_intersect(layers_view(*a), layers_view(*b)) {
                    let l = choose|l: usize| #[trigger] layer_set(layers_view(*a)).contains(l) && layer_set(layers_view(*b)).contains(l);
                    let j = choose|j: int| 0 <= j < la@.len() && la@[j] == l;
                    assert(!layer_set(layers_view(*b)).contains(la@[j]));
                }
            }
            false
        },
    }
}

/// Whether some camera that renders vector graphics draws the entity's
/// render layers: the two share a layer.
pub fn on_camera_layer(entity: &Option<Vec<usize>>, cameras: &Vec<Option<Vec<usize>>>) -> (on: bool)
    ensures
        on == exists|k: int| 0 <= k < cameras@.len() && layers_intersect(layers_view(*entity), #[trigger] layers_view(cameras@[k])),
{
    let mut k: usize = 0;
    while k < cameras.len()
        invariant
            k <= cameras@.len(),
            forall|j: int| 0 <= j < k ==> !layers_intersect(layers_view(*entity), #[trigger] layers_view(cameras@[j])),
        decreases cameras@.len() - k,
    {
        if intersects(entity, &cameras[k]) {
            return true;
        }
        k = k + 1;
    }
    false
}

/// A drawn world entity would also be drawn in UI: world extraction asks
/// for everything UI extraction asks for, and view visibility on top.
pub proof fn lemma_world_implies_ui(c: ExtractCandidate)
    ensures
        extracts_world(c) ==> extracts_ui(c),
        extracts_ui(c) && c.view_visible ==> extracts_world(c),
{
}

} // verus!
