//! Assembling `Ui` nodes: every field is optional, and the hover and click
//! colors that are not set take the idle color that is in force when the node
//! is built.
use vstd::prelude::*;

use crate::geometry::UNIT;
use crate::ui::{Align, Ui};

verus! {

/// The value that is set, or the fallback.
pub open spec fn or_else<T>(o: Option<T>, fallback: T) -> T {
    match o {
        Some(v) => v,
        None => fallback,
    }
}

/// Chained configuration of one `Ui` node; `build` applies the defaults.
#[derive(Debug)]
pub struct UiBuilder {
    pub origin: Option<[u16; 2]>,
    pub size: Option<[u16; 2]>,
    pub background: Option<[u16; 4]>,
    pub background_hover: Option<[u16; 4]>,
    pub background_click: Option<[u16; 4]>,
    pub text: Option<String>,
    pub font: Option<Option<usize>>,
    pub font_size: Option<u32>,
    pub align: Option<Align>,
    pub color: Option<[u16; 4]>,
    pub color_hover: Option<[u16; 4]>,
    pub color_click: Option<[u16; 4]>,
    pub action: Option<Option<u32>>,
    pub children: Option<Vec<Ui>>,
}

impl UiBuilder {
    pub open spec fn default_background_spec(&self) -> [u16; 4] {
        or_else(self.background, [0, 0, 0, 0])
    }

    pub open spec fn default_color_spec(&self) -> [u16; 4] {
        or_else(self.color, [0, 0, 0, UNIT])
    }

    /// The children pushed so far, in order.
    pub open spec fn children_spec(&self) -> Seq<Ui> {
        match self.children {
            Some(v) => v@,
            None => Seq::empty(),
        }
    }

    /// The text set so far, empty where none is.
    pub open spec fn text_spec(&self) -> Seq<char> {
        match self.text {
            Some(t) => t@,
            None => Seq::empty(),
        }
    }

    /// A setter leaves every field but the one it sets as it was.
    pub open spec fn same_except_children(&self, other: &UiBuilder) -> bool {
        &&& self.origin == other.origin
        &&& self.size == other.size
        &&& self.background == other.background
        &&& self.background_hover == other.background_hover
        &&& self.background_click == other.background_click
        &&& self.text == other.text
        &&& self.font == other.font
        &&& self.font_size == other.font_size
        &&& self.align == other.align
        &&& self.color == other.color
        &&& self.color_hover == other.color_hover
        &&& self.color_click == other.color_click
        &&& self.action == other.action
    }

    /// The idle background: the one set, else fully transparent. Hover and
    /// click backgrounds that are not set take this value.
    pub fn default_background(&self) -> (r: [u16; 4])
        ensures
            r == self.default_background_spec(),
    {
        match self.background {
            Some(v) => v,
            None => [0, 0, 0, 0],
        }
    }

    /// The idle text color: the one set, else opaque black. Hover and click
    /// colors that are not set take this value.
    pub fn default_color(&self) -> (r: [u16; 4])
        ensures
            r == self.default_color_spec(),
    {
        match self.color {
            Some(v) => v,
            None => [0, 0, 0, UNIT],
        }
    }

    /// Sets the position, as fractions of the parent's width and height.
    pub fn origin(self, value: [u16; 2]) -> (r: UiBuilder)
        ensures
            r == (UiBuilder { origin: Some(value), ..self }),
    {
        UiBuilder { origin: Some(value), ..self }
    }

    /// Sets the extent, as fractions of the parent's width and height.
    pub fn size(self, value: [u16; 2]) -> (r: UiBuilder)
        ensures
            r == (UiBuilder { size: Some(value), ..self }),
    {
        UiBuilder { size: Some(value), ..self }
    }

    /// Sets the idle background.
    pub fn background(self, value: [u16; 4]) -> (r: UiBuilder)
        ensures
            r == (UiBuilder { background: Some(value), ..self }),
    {
        UiBuilder { background: Some(value), ..self }
    }

    /// Sets the background while the pointer is over the node.
    pub fn background_hover(self, value: [u16; 4]) -> (r: UiBuilder)
        ensures
            r == (UiBuilder { background_hover: Some(value), ..self }),
    {
        UiBuilder { background_hover: Some(value), ..self }
    }

    /// Sets the background while the node is pressed.
    pub fn background_click(self, value: [u16; 4]) -> (r: UiBuilder)
        ensures
            r == (UiBuilder { background_click: Some(value), ..self }),
    {
        UiBuilder { background_click: Some(value), ..self }
    }

    /// Sets the text.
    pub fn text(self, value: String) -> (r: UiBuilder)
        ensures
            r == (UiBuilder { text: Some(value), ..self }),
    {
        UiBuilder { text: Some(value), ..self }
    }

    /// Sets the font, as the host's index of it; without one no text is drawn.
    pub fn font(self, value: Option<usize>) -> (r: UiBuilder)
        ensures
            r == (UiBuilder { font: Some(value), ..self }),
    {
        UiBuilder { font: Some(value), ..self }
    }

    /// Sets the text size.
    pub fn font_size(self, value: u32) -> (r: UiBuilder)
        ensures
            r == (UiBuilder { font_size: Some(value), ..self }),
    {
        UiBuilder { font_size: Some(value), ..self }
    }

    /// Sets the horizontal placement of the text.
    pub fn align(self, value: Align) -> (r: UiBuilder)
        ensures
            r == (UiBuilder { align: Some(value), ..self }),
    {
        UiBuilder { align: Some(value), ..self }
    }

    /// Sets the idle text color.
    pub fn color(self, value: [u16; 4]) -> (r: UiBuilder)
        ensures
            r == (UiBuilder { color: Some(value), ..self }),
    {
        UiBuilder { color: Some(value), ..self }
    }

    /// Sets the text color while the pointer is over the node.
    pub fn color_hover(self, value: [u16; 4]) -> (r: UiBuilder)
        ensures
            r == (UiBuilder { color_hover: Some(value), ..self }),
    {
        UiBuilder { color_hover: Some(value), ..self }
    }

    /// Sets the text color while the node is pressed.
    pub fn color_click(self, value: [u16; 4]) -> (r: UiBuilder)
        ensures
            r == (UiBuilder { color_click: Some(value), ..self }),
    {
        UiBuilder { color_click: Some(value), ..self }
    }

    /// Sets the action that a press on the node reports.
    pub fn action(self, value: Option<u32>) -> (r: UiBuilder)
        ensures
            r == (UiBuilder { action: Some(value), ..self }),
    {
        UiBuilder { action: Some(value), ..self }
    }

    /// Appends `child` after the children pushed so far.
    pub fn push(self, child: Ui) -> (r: UiBuilder)
        ensures
            r.same_except_children(&self),
            r.children_spec() == self.children_spec().push(child),
    {
        let mut b = self;
        match b.children {
            Some(mut v) => {
                v.push(child);
                b.children = Some(v);
            },
            None => {
                let mut v: Vec<Ui> = Vec::new();
                v.push(child);
                assert(v@ =~= Seq::<Ui>::empty().push(child));
                b.children = Some(v);
            },
        }
        b
    }

    /// The node, with each field that was not set at its default: origin
    /// `(0, 0)`, size `(1, 1)`, transparent background, opaque black text, an
    /// empty text without font at size 12, left-aligned, no action, no
    /// children; hover and click colors as the idle ones.
    pub fn build(self) -> (r: Ui)
        ensures
            r.origin == or_else(self.origin, [0, 0]),
            r.size == or_else(self.size, [UNIT, UNIT]),
            r.background == self.default_background_spec(),
            r.background_hover == or_else(self.background_hover, self.default_background_spec()),
            r.background_click == or_else(self.background_click, self.default_background_spec()),
            r.text@ == self.text_spec(),
            r.font == or_else(self.font, None),
            r.font_size == or_else(self.font_size, 12),
            r.align == or_else(self.align, Align::Left),
            r.color == self.default_color_spec(),
            r.color_hover == or_else(self.color_hover, self.default_color_spec()),
            r.color_click == or_else(self.color_click, self.default_color_spec()),
            r.action == or_else(self.action, None),
            r.children@ == self.children_spec(),
    {
        let background = self.default_background();
        let color = self.default_color();
        Ui {
            origin: match self.origin {
                Some(v) => v,
                None => [0, 0],
            },
            size: match self.size {
                Some(v) => v,
                None => [UNIT, UNIT],
            },
            background,
            background_hover: match self.background_hover {
                Some(v) => v,
                None => background,
            },
            background_click: match self.background_click {
                Some(v) => v,
                None => background,
            },
            text: match self.text {
                Some(t) => t,
                None => String::new(),
            },
            font: match self.font {
                Some(v) => v,
                None => None,
            },
            font_size: match self.font_size {
                Some(v) => v,
                None => 12,
            },
            align: match self.align {
                Some(v) => v,
                None => Align::Left,
            },
            color,
            color_hover: match self.color_hover {
                Some(v) => v,
                None => color,
            },
            color_click: match self.color_click {
                Some(v) => v,
                None => color,
            },
            action: match self.action {
                Some(v) => v,
                None => None,
            },
            children: match self.children {
                Some(v) => v,
                None => Vec::new(),
            },
        }
    }
}

impl Default for UiBuilder {
    /// A builder with nothing set.
    fn default() -> (r: UiBuilder)
        ensures
            r.origin.is_none() && r.size.is_none() && r.background.is_none(),
            r.background_hover.is_none() && r.background_click.is_none(),
            r.text.is_none() && r.font.is_none() && r.font_size.is_none() && r.align.is_none(),
            r.color.is_none() && r.color_hover.is_none() && r.color_click.is_none(),
            r.action.is_none() && r.children.is_none(),
    {
        UiBuilder {
            origin: None,
            size: None,
            background: None,
            background_hover: None,
            background_click: None,
            text: None,
            font: None,
            font_size: None,
            align: None,
            color: None,
            color_hover: None,
            color_click: None,
            action: None,
            children: None,
        }
    }
}

} // verus!
