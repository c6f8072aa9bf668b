//! Tests of the box model, overflow resolution, scroll registration and
//! the node vocabulary.

use fontlayout::box_model::{
    resolve_directional_overflow, resolve_overflow, get_children_extents,
    DirectionalOverflowInfo, OverflowInfo, OverflowMode, PositionInfo, PositionedRectangle,
};
use fontlayout::dom::{NodeType, On};
use fontlayout::geometry::{LayoutPoint, LayoutRect, LayoutSize, ResolvedOffsets};
use fontlayout::scroll::{
    collect_scrolled_nodes, DomHash, NodeId, PipelineId, ScrollClipInput, ScrollTagId,
    ScrolledNodes,
};

fn offsets(top: i64, left: i64, right: i64, bottom: i64) -> ResolvedOffsets {
    ResolvedOffsets { top, left, right, bottom }
}

fn sample_rect() -> PositionedRectangle {
    PositionedRectangle {
        size: LayoutSize::new(100, 50),
        position: PositionInfo::Static {
            x_offset: 5,
            y_offset: 6,
            static_x_offset: 7,
            static_y_offset: 8,
        },
        padding: offsets(1, 2, 3, 4),
        margin: offsets(10, 20, 30, 40),
        border_widths: offsets(2, 2, 2, 2),
        resolved_text_layout_options: None,
        overflow: OverflowInfo::default(),
    }
}

#[test]
fn margin_box_is_additive() {
    let rect = sample_rect();
    // content + padding + border + margin, per axis
    assert_eq!(rect.get_margin_box_width(), 100 + (2 + 3) + (2 + 2) + (20 + 30));
    assert_eq!(rect.get_margin_box_height(), 50 + (1 + 4) + (2 + 2) + (10 + 40));
    assert_eq!(rect.get_left_leading(), 20 + 2 + 2);
    assert_eq!(rect.get_top_leading(), 10 + 1 + 2);
}

#[test]
fn background_bounds_expand_by_padding_and_border() {
    let rect = sample_rect();
    let (size, position) = rect.get_background_bounds();
    assert_eq!(size, LayoutSize::new(100 + 5 + 4, 50 + 5 + 4));
    match position {
        PositionInfo::Static { x_offset, y_offset, static_x_offset, static_y_offset } => {
            assert_eq!(x_offset, 5 - 2 - 2);
            assert_eq!(y_offset, 6 - 1 - 2);
            assert_eq!(static_x_offset, 7);
            assert_eq!(static_y_offset, 8);
        },
        _ => panic!("positioning scheme must be preserved"),
    }
}

#[test]
fn static_bounds_exist_only_for_static_and_relative_nodes() {
    let mut rect = sample_rect();
    assert_eq!(
        rect.get_static_bounds(),
        Some(LayoutRect::new(LayoutPoint::new(7, 8), LayoutSize::new(100, 50)))
    );
    rect.position =
        PositionInfo::Relative { x_offset: 0, y_offset: 0, static_x_offset: 1, static_y_offset: 2 };
    assert!(rect.get_static_bounds().is_some());
    rect.position =
        PositionInfo::Absolute { x_offset: 0, y_offset: 0, static_x_offset: 1, static_y_offset: 2 };
    assert_eq!(rect.get_static_bounds(), None);
    rect.position =
        PositionInfo::Fixed { x_offset: 0, y_offset: 0, static_x_offset: 1, static_y_offset: 2 };
    assert_eq!(rect.get_static_bounds(), None);
}

#[test]
fn is_positioned_distinguishes_the_static_scheme() {
    let zero = (0, 0, 0, 0);
    let (x_offset, y_offset, static_x_offset, static_y_offset) = zero;
    assert!(!PositionInfo::Static { x_offset, y_offset, static_x_offset, static_y_offset }
        .is_positioned());
    assert!(PositionInfo::Relative { x_offset, y_offset, static_x_offset, static_y_offset }
        .is_positioned());
    assert!(PositionInfo::Absolute { x_offset, y_offset, static_x_offset, static_y_offset }
        .is_positioned());
    assert!(PositionInfo::Fixed { x_offset, y_offset, static_x_offset, static_y_offset }
        .is_positioned());
}

#[test]
fn to_layouted_rectangle_copies_the_geometry() {
    let rect = sample_rect();
    let layouted = rect.to_layouted_rectangle();
    assert_eq!(layouted.size, rect.size);
    assert_eq!(layouted.position, rect.position);
    assert_eq!(layouted.padding, rect.padding);
    assert_eq!(layouted.margin, rect.margin);
    assert_eq!(layouted.border_widths, rect.border_widths);
    assert_eq!(rect.get_content_size(), rect.size);
}

#[test]
fn default_rectangle_is_zeroed_with_undefined_overflow() {
    let rect = PositionedRectangle::default();
    assert_eq!(rect.size, LayoutSize::new(0, 0));
    assert!(rect.resolved_text_layout_options.is_none());
    assert!(rect.overflow.overflow_x.is_none());
    assert_eq!(rect.overflow.overflow_y, DirectionalOverflowInfo::Auto { amount: None });
}

#[test]
fn overflow_amount_is_children_minus_container() {
    // container of width 100, children of combined margin-box width 150
    let over = resolve_directional_overflow(OverflowMode::Auto, 100, Some(150));
    assert_eq!(over.get_amount(), Some(50));
    assert!(!over.is_negative());
    assert!(!over.is_none());

    // children narrower than the container: non-positive amount, "negative"
    let under = resolve_directional_overflow(OverflowMode::Auto, 100, Some(80));
    assert_eq!(under.get_amount(), Some(-20));
    assert!(under.is_negative());
    assert!(!under.is_none());

    // an exactly filled container still counts as no overflow
    let exact = resolve_directional_overflow(OverflowMode::Scroll, 100, Some(100));
    assert_eq!(exact.get_amount(), Some(0));
    assert!(exact.is_negative());

    // no children: the amount is undefined, not zero
    let none = resolve_directional_overflow(OverflowMode::Auto, 100, None);
    assert_eq!(none.get_amount(), None);
    assert!(none.is_none());
    assert!(none.is_negative());
}

fn child_of_size(width: i64, height: i64) -> PositionedRectangle {
    PositionedRectangle {
        size: LayoutSize::new(width, height),
        position: PositionInfo::Static {
            x_offset: 0,
            y_offset: 0,
            static_x_offset: 0,
            static_y_offset: 0,
        },
        padding: ResolvedOffsets::zero(),
        margin: ResolvedOffsets::zero(),
        border_widths: ResolvedOffsets::zero(),
        resolved_text_layout_options: None,
        overflow: OverflowInfo::default(),
    }
}

#[test]
fn children_extents_take_the_farthest_margin_box_edge() {
    assert_eq!(get_children_extents(&Vec::new()), None);
    let children = vec![child_of_size(150, 20), child_of_size(40, 90)];
    assert_eq!(get_children_extents(&children), Some((150, 90)));
}

#[test]
fn resolve_overflow_measures_both_axes() {
    let content = LayoutSize::new(100, 200);
    let children = vec![child_of_size(150, 50)];
    let overflow = resolve_overflow(OverflowMode::Auto, OverflowMode::Auto, &content, &children);
    assert_eq!(overflow.overflow_x.get_amount(), Some(50));
    assert_eq!(overflow.overflow_y.get_amount(), Some(-150));
    let no_children = resolve_overflow(
        OverflowMode::Scroll,
        OverflowMode::Visible,
        &content,
        &Vec::new(),
    );
    assert!(no_children.overflow_x.is_none());
    assert!(no_children.overflow_y.is_none());
}

fn scroll_input(index: usize, overflow: OverflowInfo, tag: Option<u64>) -> ScrollClipInput {
    ScrollClipInput {
        node_id: NodeId { index },
        dom_hash: DomHash(0xD0 + index as u64),
        scroll_tag_id: tag.map(ScrollTagId),
        overflow,
        children_rect: LayoutRect::new(LayoutPoint::new(0, 0), LayoutSize::new(50, 50)),
    }
}

#[test]
fn content_inside_the_container_registers_no_scroll_node() {
    // overflow: Auto on both axes, content 50px tall inside a 200px container
    let content = LayoutSize::new(200, 200);
    let children = vec![child_of_size(50, 50)];
    let overflow = resolve_overflow(OverflowMode::Auto, OverflowMode::Auto, &content, &children);
    // the amount is measured (not None) but non-positive
    assert_eq!(overflow.overflow_y.get_amount(), Some(-150));
    assert!(!overflow.overflow_y.is_none());
    assert!(overflow.overflow_y.is_negative());

    let nodes = vec![scroll_input(0, overflow, Some(1))];
    let scrolled = collect_scrolled_nodes(&nodes, PipelineId(1, 2), 0);
    assert!(scrolled.overflowing_nodes.is_empty());
    assert!(scrolled.tags_to_node_ids.is_empty());
}

#[test]
fn scroll_mode_and_positive_auto_overflow_register() {
    let scroll_overflow = OverflowInfo {
        overflow_x: DirectionalOverflowInfo::Scroll { amount: Some(-10) },
        overflow_y: DirectionalOverflowInfo::Visible { amount: Some(-10) },
    };
    let auto_overflow = OverflowInfo {
        overflow_x: DirectionalOverflowInfo::Auto { amount: Some(-10) },
        overflow_y: DirectionalOverflowInfo::Auto { amount: Some(25) },
    };
    let hidden_overflow = OverflowInfo {
        overflow_x: DirectionalOverflowInfo::Hidden { amount: Some(99) },
        overflow_y: DirectionalOverflowInfo::Hidden { amount: Some(99) },
    };
    let nodes = vec![
        scroll_input(0, scroll_overflow, Some(11)),
        scroll_input(1, auto_overflow, Some(22)),
        scroll_input(2, hidden_overflow, Some(33)),
        scroll_input(3, scroll_overflow, None), // no tag: never registered
    ];
    let pipeline = PipelineId(4, 5);
    let scrolled = collect_scrolled_nodes(&nodes, pipeline, 7);
    assert_eq!(scrolled.overflowing_nodes.len(), 2);
    let (node0, entry0) = &scrolled.overflowing_nodes[0];
    assert_eq!(node0.index, 0);
    assert_eq!(entry0.parent_external_scroll_id.0, 7);
    assert_eq!(entry0.parent_external_scroll_id.1, pipeline);
    assert_eq!(entry0.scroll_tag_id, ScrollTagId(11));
    let (node1, entry1) = &scrolled.overflowing_nodes[1];
    assert_eq!(node1.index, 1);
    assert_eq!(entry1.parent_external_scroll_id.0, 8);
    assert_eq!(
        scrolled.tags_to_node_ids,
        vec![(ScrollTagId(11), NodeId { index: 0 }), (ScrollTagId(22), NodeId { index: 1 })]
    );
}

#[test]
fn registry_lookups_find_registered_nodes() {
    let overflow = OverflowInfo {
        overflow_x: DirectionalOverflowInfo::Scroll { amount: Some(5) },
        overflow_y: DirectionalOverflowInfo::Auto { amount: None },
    };
    let nodes = vec![scroll_input(4, overflow, Some(77))];
    let scrolled = collect_scrolled_nodes(&nodes, PipelineId(0, 0), 0);
    let entry = scrolled.get_overflowing_node(NodeId { index: 4 }).expect("node registered");
    assert_eq!(entry.scroll_tag_id, ScrollTagId(77));
    assert_eq!(entry.parent_dom_hash, DomHash(0xD4));
    assert!(scrolled.get_overflowing_node(NodeId { index: 5 }).is_none());
    assert_eq!(scrolled.get_node_for_tag(ScrollTagId(77)), Some(NodeId { index: 4 }));
    assert_eq!(scrolled.get_node_for_tag(ScrollTagId(78)), None);
}

#[test]
fn external_scroll_ids_are_stable_across_passes() {
    let overflow = OverflowInfo {
        overflow_x: DirectionalOverflowInfo::Scroll { amount: Some(5) },
        overflow_y: DirectionalOverflowInfo::Auto { amount: None },
    };
    let nodes = vec![scroll_input(0, overflow, Some(1)), scroll_input(1, overflow, Some(2))];
    let first = collect_scrolled_nodes(&nodes, PipelineId(1, 0), 3);
    let second = collect_scrolled_nodes(&nodes, PipelineId(1, 0), 3);
    assert_eq!(first, second);
    let empty = ScrolledNodes::default();
    assert!(empty.overflowing_nodes.is_empty());
}

#[test]
fn css_ids_of_the_node_types() {
    assert_eq!(NodeType::Div.get_css_id(), "div");
    assert_eq!(NodeType::Button.get_css_id(), "button");
    assert_eq!(NodeType::Ul.get_css_id(), "ul");
    assert_eq!(NodeType::Li.get_css_id(), "li");
    assert_eq!(NodeType::Ol.get_css_id(), "ol");
    assert_eq!(NodeType::Label.get_css_id(), "label");
    assert_eq!(NodeType::Input.get_css_id(), "input");
    assert_eq!(NodeType::Form.get_css_id(), "form");
    assert_eq!(NodeType::Text { content: String::from("hello") }.get_css_id(), "p");
    assert!(On::MouseOver < On::MouseDown || On::MouseOver == On::MouseOver);
}
