//! Scroll-node bookkeeping and the aggregate per-pass layout result.

use vstd::prelude::*;

use crate::box_model::{DirectionalOverflowInfo, OverflowInfo, PositionedRectangle};
use crate::geometry::LayoutRect;
use crate::text_layout::{InlineTextLayout, Words};

verus! {

/// Stable identifier of one node of the layout tree.
#[derive(Debug, Copy, Clone, PartialEq, Eq, Hash, Structural)]
pub struct NodeId {
    pub index: usize,
}

/// Identifier of the rendering pipeline a scroll id belongs to.
#[derive(Debug, Copy, Clone, PartialEq, Eq, Hash, Structural)]
pub struct PipelineId(pub u32, pub u32);

/// Hash of the DOM subtree a scroll node sits in.
#[derive(Debug, Copy, Clone, PartialEq, Eq, Hash, Structural)]
pub struct DomHash(pub u64);

/// Opaque tag marking a node as scrollable, used to correlate hit-test
/// input with scroll state.
#[derive(Debug, Copy, Clone, PartialEq, Eq, Hash, Structural)]
pub struct ScrollTagId(pub u64);

/// Stable cross-frame identifier of a scrollable node: a per-pipeline
/// counter value paired with the pipeline.  Unique per (pipeline, scroll
/// tag) pair while the node is live.
#[derive(Debug, Copy, Clone, PartialEq, Eq, Hash, Structural)]
pub struct ExternalScrollId(pub u64, pub PipelineId);

/// One registered scroll container: the geometry of its overflowing
/// children and the identifiers the renderer and hit-tester use for it.
#[derive(Debug, Copy, Clone, PartialEq, Eq, Structural)]
pub struct OverflowingScrollNode {
    pub child_rect: LayoutRect,
    pub parent_external_scroll_id: ExternalScrollId,
    pub parent_dom_hash: DomHash,
    pub scroll_tag_id: ScrollTagId,
}

/// Registry of the scrollable nodes of one layout pass: node to scroll
/// metadata, and scroll tag back to node.  Built fresh per pass.
#[derive(Debug, Clone, PartialEq)]
pub struct ScrolledNodes {
    pub overflowing_nodes: Vec<(NodeId, OverflowingScrollNode)>,
    pub tags_to_node_ids: Vec<(ScrollTagId, NodeId)>,
}

impl Default for ScrolledNodes {
    fn default() -> (r: Self)
        ensures
            r.overflowing_nodes@ == Seq::<(NodeId, OverflowingScrollNode)>::empty(),
            r.tags_to_node_ids@ == Seq::<(ScrollTagId, NodeId)>::empty(),
    {
        ScrolledNodes { overflowing_nodes: Vec::new(), tags_to_node_ids: Vec::new() }
    }
}

impl ScrolledNodes {
    /// Looks a node up in the registry: its entry at the first position
    /// carrying the node's id, nothing when the node is not registered.
    pub fn get_overflowing_node(&self, node_id: NodeId) -> (r: Option<&OverflowingScrollNode>)
        ensures
            match r {
                Option::Some(n) => exists|i: int|
                    0 <= i < self.overflowing_nodes@.len() && #[trigger] self.overflowing_nodes@[i]
                        == (node_id, *n),
                Option::None => forall|i: int|
                    0 <= i < self.overflowing_nodes@.len()
                        ==> (#[trigger] self.overflowing_nodes@[i]).0 != node_id,
            },
    {
        let mut i: usize = 0;
        while i < self.overflowing_nodes.len()
            invariant
                0 <= i <= self.overflowing_nodes@.len(),
                forall|j: int|
                    0 <= j < i ==> (#[trigger] self.overflowing_nodes@[j]).0 != node_id,
            decreases self.overflowing_nodes@.len() - i,
        {
            let entry = &self.overflowing_nodes[i];
            if entry.0.index == node_id.index {
                return Some(&entry.1);
            }
            i += 1;
        }
        None
    }

    /// Looks a scroll tag up: the id of the first node registered under
    /// it, nothing when the tag is unknown.
    pub fn get_node_for_tag(&self, tag: ScrollTagId) -> (r: Option<NodeId>)
        ensures
            match r {
                Option::Some(n) => exists|i: int|
                    0 <= i < self.tags_to_node_ids@.len() && #[trigger] self.tags_to_node_ids@[i]
                        == (tag, n),
                Option::None => forall|i: int|
                    0 <= i < self.tags_to_node_ids@.len()
                        ==> (#[trigger] self.tags_to_node_ids@[i]).0 != tag,
            },
    {
        let mut i: usize = 0;
        while i < self.tags_to_node_ids.len()
            invariant
                0 <= i <= self.tags_to_node_ids@.len(),
                forall|j: int| 0 <= j < i ==> (#[trigger] self.tags_to_node_ids@[j]).0 != tag,
            decreases self.tags_to_node_ids@.len() - i,
        {
            let entry = self.tags_to_node_ids[i];
            if entry.0.0 == tag.0 {
                return Some(entry.1);
            }
            i += 1;
        }
        None
    }
}

/// What the box-model solver hands the scroll registry for one node.
#[derive(Debug, Copy, Clone, PartialEq, Eq, Structural)]
pub struct ScrollClipInput {
    pub node_id: NodeId,
    pub dom_hash: DomHash,
    /// The node's scroll tag; a node without one is never registered.
    pub scroll_tag_id: Option<ScrollTagId>,
    /// The node's resolved overflow on both axes.
    pub overflow: OverflowInfo,
    /// The rectangle of the node's overflowing children.
    pub children_rect: LayoutRect,
}

/// One axis asks for scrolling when its mode is `Scroll`, or when it is
/// `Auto` and a positive overflow amount was measured.
pub open spec fn spec_axis_needs_scroll(d: DirectionalOverflowInfo) -> bool {
    match d {
        DirectionalOverflowInfo::Scroll { .. } => true,
        DirectionalOverflowInfo::Auto { amount } => match amount {
            Option::Some(a) => a > 0,
            Option::None => false,
        },
        _ => false,
    }
}

/// A node is registered when either axis asks for scrolling and the node
/// carries a scroll tag.
pub open spec fn spec_node_registers(n: ScrollClipInput) -> bool {
    &&& spec_axis_needs_scroll(n.overflow.overflow_x) || spec_axis_needs_scroll(
        n.overflow.overflow_y,
    )
    &&& n.scroll_tag_id is Some
}

pub fn axis_needs_scroll(d: &DirectionalOverflowInfo) -> (r: bool)
    ensures
        r == spec_axis_needs_scroll(*d),
{
    match d {
        DirectionalOverflowInfo::Scroll { .. } => true,
        DirectionalOverflowInfo::Auto { amount: Some(a) } => *a > 0,
        _ => false,
    }
}

/// The registry entry made for node `n` under counter value `id`.
pub open spec fn spec_scroll_entry(n: ScrollClipInput, id: u64, pipeline: PipelineId) -> (
    NodeId,
    OverflowingScrollNode,
) {
    (
        n.node_id,
        OverflowingScrollNode {
            child_rect: n.children_rect,
            parent_external_scroll_id: ExternalScrollId(id, pipeline),
            parent_dom_hash: n.dom_hash,
            scroll_tag_id: n.scroll_tag_id.unwrap(),
        },
    )
}

/// The registry entries for the nodes from index `i` on, numbering
/// registered nodes from `counter` up, appended to `acc`.
pub open spec fn spec_collect_scrolled(
    s: Seq<ScrollClipInput>,
    i: int,
    pipeline: PipelineId,
    counter: u64,
    acc: Seq<(NodeId, OverflowingScrollNode)>,
) -> Seq<(NodeId, OverflowingScrollNode)>
    decreases s.len() - i,
{
    if i < 0 || i >= s.len() {
        acc
    } else if spec_node_registers(s[i]) {
        spec_collect_scrolled(
            s,
            i + 1,
            pipeline,
            (counter + 1) as u64,
            acc.push(spec_scroll_entry(s[i], counter, pipeline)),
        )
    } else {
        spec_collect_scrolled(s, i + 1, pipeline, counter, acc)
    }
}

/// All registry entries for the pass: the qualifying nodes in input
/// order, with external scroll ids counted up from `start`.
pub open spec fn spec_scrolled_entries(
    s: Seq<ScrollClipInput>,
    pipeline: PipelineId,
    start: u64,
) -> Seq<(NodeId, OverflowingScrollNode)> {
    spec_collect_scrolled(s, 0, pipeline, start, Seq::empty())
}

/// Builds the scroll registry of one layout pass.
///
/// Every node whose overflow mode is `Scroll` on either axis, or `Auto`
/// with a positive measured amount, and that carries a scroll tag, is
/// registered under an external scroll id drawn from the per-pipeline
/// counter, in input order; the registry also maps each scroll tag back
/// to its node.  Passing the same nodes with the same counter start
/// yields the same external ids, which keeps them stable across passes.
pub fn collect_scrolled_nodes(
    nodes: &Vec<ScrollClipInput>,
    pipeline: PipelineId,
    scroll_id_start: u64,
) -> (r: ScrolledNodes)
    requires
        scroll_id_start + nodes@.len() <= u64::MAX,
    ensures
        r.overflowing_nodes@ == spec_scrolled_entries(nodes@, pipeline, scroll_id_start),
        r.tags_to_node_ids@ == spec_scrolled_entries(nodes@, pipeline, scroll_id_start).map_values(
            |e: (NodeId, OverflowingScrollNode)| (e.1.scroll_tag_id, e.0),
        ),
{
    let mut overflowing_nodes: Vec<(NodeId, OverflowingScrollNode)> = Vec::new();
    let mut tags_to_node_ids: Vec<(ScrollTagId, NodeId)> = Vec::new();
    let mut counter: u64 = scroll_id_start;
    let mut i: usize = 0;
    while i < nodes.len()
        invariant
            0 <= i <= nodes@.len(),
            scroll_id_start + nodes@.len() <= u64::MAX,
            scroll_id_start <= counter,
            counter - scroll_id_start <= i,
            spec_collect_scrolled(nodes@, 0, pipeline, scroll_id_start, Seq::empty())
                == spec_collect_scrolled(nodes@, i as int, pipeline, counter, overflowing_nodes@),
            tags_to_node_ids@ == overflowing_nodes@.map_values(
                |e: (NodeId, OverflowingScrollNode)| (e.1.scroll_tag_id, e.0),
            ),
        decreases nodes@.len() - i,
    {
        let node = &nodes[i];
        let needs_scroll = axis_needs_scroll(&node.overflow.overflow_x) || axis_needs_scroll(
            &node.overflow.overflow_y,
        );
        match node.scroll_tag_id {
            Some(tag) if needs_scroll => {
                let entry = OverflowingScrollNode {
                    child_rect: node.children_rect,
                    parent_external_scroll_id: ExternalScrollId(counter, pipeline),
                    parent_dom_hash: node.dom_hash,
                    scroll_tag_id: tag,
                };
                let ghost prev = overflowing_nodes@;
                overflowing_nodes.push((node.node_id, entry));
                tags_to_node_ids.push((tag, node.node_id));
                proof {
                    assert(overflowing_nodes@ == prev.push(
                        spec_scroll_entry(nodes@[i as int], counter, pipeline),
                    ));
                    assert(tags_to_node_ids@ =~= overflowing_nodes@.map_values(
                        |e: (NodeId, OverflowingScrollNode)| (e.1.scroll_tag_id, e.0),
                    ));
                }
                counter = counter + 1;
            },
            _ => {
                proof {
                    assert(!spec_node_registers(nodes@[i as int]));
                }
            },
        }
        i += 1;
    }
    ScrolledNodes { overflowing_nodes, tags_to_node_ids }
}

/// The counter values of the entries that `spec_collect_scrolled` builds
/// climb strictly, and every one lies below the final counter value, so
/// no id ever repeats.
proof fn lemma_collect_ids_increase(
    s: Seq<ScrollClipInput>,
    i: int,
    pipeline: PipelineId,
    counter: u64,
    acc: Seq<(NodeId, OverflowingScrollNode)>,
)
    requires
        0 <= i,
        counter + s.len() - i <= u64::MAX,
        forall|k: int|
            0 <= k < acc.len() ==> (#[trigger] acc[k]).1.parent_external_scroll_id.0 < counter,
        forall|j: int, k: int|
            0 <= j < k < acc.len() ==> (#[trigger] acc[j]).1.parent_external_scroll_id.0 < (
            #[trigger] acc[k]).1.parent_external_scroll_id.0,
    ensures
        forall|j: int, k: int|
            0 <= j < k < spec_collect_scrolled(s, i, pipeline, counter, acc).len() ==> (
            #[trigger] spec_collect_scrolled(s, i, pipeline, counter, acc)[j]).1.parent_external_scroll_id.0
                < (#[trigger] spec_collect_scrolled(
                s,
                i,
                pipeline,
                counter,
                acc,
            )[k]).1.parent_external_scroll_id.0,
    decreases s.len() - i,
{
    if 0 <= i < s.len() {
        if spec_node_registers(s[i]) {
            let acc2 = acc.push(spec_scroll_entry(s[i], counter, pipeline));
            assert forall|k: int|
                0 <= k < acc2.len() implies (#[trigger] acc2[k]).1.parent_external_scroll_id.0 < (
            counter + 1) as u64 by {
                if k < acc.len() {
                    assert(acc2[k] == acc[k]);
                }
            }
            assert forall|j: int, k: int|
                0 <= j < k < acc2.len() implies (#[trigger] acc2[j]).1.parent_external_scroll_id.0
                < (#[trigger] acc2[k]).1.parent_external_scroll_id.0 by {
                if k < acc.len() {
                    assert(acc2[j] == acc[j] && acc2[k] == acc[k]);
                } else {
                    assert(acc2[j] == acc[j]);
                    assert(acc2[k].1.parent_external_scroll_id.0 == counter);
                }
            }
            lemma_collect_ids_increase(s, i + 1, pipeline, (counter + 1) as u64, acc2);
            assert(spec_collect_scrolled(s, i, pipeline, counter, acc) == spec_collect_scrolled(
                s,
                i + 1,
                pipeline,
                (counter + 1) as u64,
                acc2,
            ));
        } else {
            lemma_collect_ids_increase(s, i + 1, pipeline, counter, acc);
            assert(spec_collect_scrolled(s, i, pipeline, counter, acc) == spec_collect_scrolled(
                s,
                i + 1,
                pipeline,
                counter,
                acc,
            ));
        }
    }
}

/// Law: the external scroll ids of one pass are pairwise distinct — each
/// registered node draws a fresh value of the per-pipeline counter, so
/// an id is never reused within the pass.
pub proof fn lemma_scroll_ids_unique(s: Seq<ScrollClipInput>, pipeline: PipelineId, start: u64)
    requires
        start + s.len() <= u64::MAX,
    ensures
        forall|j: int, k: int|
            0 <= j < k < spec_scrolled_entries(s, pipeline, start).len() ==> (
            #[trigger] spec_scrolled_entries(s, pipeline, start)[j]).1.parent_external_scroll_id
                != (#[trigger] spec_scrolled_entries(s, pipeline, start)[k]).1.parent_external_scroll_id,
{
    lemma_collect_ids_increase(s, 0, pipeline, start, Seq::empty());
}

/// Key a renderer uses to pick one sized instance of a font face.
#[derive(Debug, Copy, Clone, PartialEq, Eq, Hash, Structural)]
pub struct FontInstanceKey(pub u64);

/// The shaped words of one node, scaled to pixels: the width of each
/// word and the advance of the space glyph between them.
#[derive(Debug, Clone, PartialEq)]
pub struct ScaledWords {
    pub word_widths: Vec<i64>,
    pub space_advance_px: i64,
}

/// Where the words of one node ended up: the line-broken layout.
#[derive(Debug, Clone, PartialEq)]
pub struct WordPositions {
    pub text_layout: InlineTextLayout,
}

/// One glyph placed at an absolute position.
#[derive(Debug, Copy, Clone, PartialEq, Eq, Structural)]
pub struct GlyphInstance {
    pub index: u32,
    pub point: crate::geometry::LayoutPoint,
}

/// The positioned glyphs of one node.
#[derive(Debug, Clone, PartialEq)]
pub struct LayoutedGlyphs {
    pub glyphs: Vec<GlyphInstance>,
}

/// The aggregate, retained output of one layout pass: per-node positioned
/// rectangles, the word and glyph caches keyed by node, and the
/// depth-ordered node list.  A new pass supersedes it wholesale; it is
/// never patched in place.
#[derive(Debug, Clone, PartialEq)]
pub struct LayoutResult {
    /// The positioned rectangle of every node, indexed by node id.
    pub rects: Vec<PositionedRectangle>,
    pub word_cache: Vec<(NodeId, Words)>,
    pub scaled_words: Vec<(NodeId, ScaledWords, FontInstanceKey)>,
    pub positioned_word_cache: Vec<(NodeId, WordPositions, FontInstanceKey)>,
    pub layouted_glyph_cache: Vec<(NodeId, LayoutedGlyphs)>,
    /// Nodes in depth order: (depth, node id).
    pub node_depths: Vec<(usize, NodeId)>,
}

impl LayoutResult {
    /// A result is well formed when every node the depth list names has
    /// a rectangle.
    pub open spec fn wf(self) -> bool {
        forall|i: int|
            0 <= i < self.node_depths@.len() ==> (#[trigger] self.node_depths@[i]).1.index
                < self.rects@.len()
    }

    /// The positioned rectangle of a node, nothing for a node outside
    /// this pass.
    pub fn get_rect(&self, node_id: NodeId) -> (r: Option<&PositionedRectangle>)
        ensures
            node_id.index < self.rects@.len() ==> r == Option::Some(
                &self.rects@[node_id.index as int],
            ),
            node_id.index >= self.rects@.len() ==> r is None,
    {
        if node_id.index < self.rects.len() {
            Some(&self.rects[node_id.index])
        } else {
            None
        }
    }
}

impl Default for LayoutResult {
    fn default() -> (r: Self)
        ensures
            r.rects@.len() == 0,
            r.word_cache@.len() == 0,
            r.scaled_words@.len() == 0,
            r.positioned_word_cache@.len() == 0,
            r.layouted_glyph_cache@.len() == 0,
            r.node_depths@.len() == 0,
    {
        LayoutResult {
            rects: Vec::new(),
            word_cache: Vec::new(),
            scaled_words: Vec::new(),
            positioned_word_cache: Vec::new(),
            layouted_glyph_cache: Vec::new(),
            node_depths: Vec::new(),
        }
    }
}

} // verus!
