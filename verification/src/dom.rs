//! The node vocabulary the layout tree is built from: the allowed node
//! types and the events a node can listen to.  Building and mutating the
//! tree itself, and dispatching callbacks, happen outside this crate; the
//! solver only consumes per-node style, text and topology.

use vstd::prelude::*;

verus! {

/// List of allowed node types of the layout tree.
#[derive(Debug, Clone, PartialEq, Eq, Hash, PartialOrd, Ord)]
pub enum NodeType {
    Div,
    Button,
    Ul,
    Li,
    Ol,
    Label,
    Input,
    Form,
    Text { content: String },
}

impl NodeType {
    /// The tag name the style system selects this node type by; text
    /// nodes are addressed as paragraphs.
    pub fn get_css_id(&self) -> (r: &'static str)
        ensures
            r@ == match self {
                NodeType::Div => "div"@,
                NodeType::Button => "button"@,
                NodeType::Ul => "ul"@,
                NodeType::Li => "li"@,
                NodeType::Ol => "ol"@,
                NodeType::Label => "label"@,
                NodeType::Input => "input"@,
                NodeType::Form => "form"@,
                NodeType::Text { .. } => "p"@,
            },
    {
        match self {
            NodeType::Div => "div",
            NodeType::Button => "button",
            NodeType::Ul => "ul",
            NodeType::Li => "li",
            NodeType::Ol => "ol",
            NodeType::Label => "label",
            NodeType::Input => "input",
            NodeType::Form => "form",
            NodeType::Text { .. } => "p",
        }
    }
}

/// The events a node can register a callback for.
#[derive(Debug, Copy, Clone, PartialEq, Eq, Hash, PartialOrd, Ord, Structural)]
pub enum On {
    MouseOver,
    MouseDown,
    MouseUp,
    MouseEnter,
    MouseLeave,
    DragDrop,
}

} // verus!
