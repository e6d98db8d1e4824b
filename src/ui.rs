//! A tree of rectangular nodes laid out as fractions of their parent, with
//! idle, hover and pressed colors chosen from the pointer each frame.
use vstd::prelude::*;

use crate::geometry::{contains_spec, layout, layout_fits, layout_h, layout_spec, layout_w, layout_x, layout_y, scale_exec, Point, Rect};

verus! {

/// Horizontal placement of a node's text within its rectangle.
#[derive(Clone, Copy, Debug, PartialEq, Eq, Structural)]
pub enum Align {
    Left,
    Center,
    Right,
}

/// The three looks a node can take on a frame.
#[derive(Clone, Copy, Debug, PartialEq, Eq, Structural)]
pub enum VisualState {
    Idle,
    Hover,
    Pressed,
}

/// One node of the tree. Colors are four channels (red, green, blue, alpha),
/// each a fraction of `UNIT`; `origin` and `size` are fractions of the parent's
/// rectangle. `action` is an identifier that the host maps to what a click does.
#[derive(Debug)]
pub struct Ui {
    pub origin: [u16; 2],
    pub size: [u16; 2],
    pub background: [u16; 4],
    pub background_hover: [u16; 4],
    pub background_click: [u16; 4],
    pub text: String,
    pub font: Option<usize>,
    pub font_size: u32,
    pub align: Align,
    pub color: [u16; 4],
    pub color_hover: [u16; 4],
    pub color_click: [u16; 4],
    pub action: Option<u32>,
    pub children: Vec<Ui>,
}

/// Text to draw in a node's rectangle, vertically centered.
#[derive(Clone, Debug, PartialEq, Eq)]
pub struct TextCommand {
    pub text: String,
    pub font: usize,
    pub font_size: u32,
    pub align: Align,
    pub color: [u16; 4],
}

/// What the host draws for one node: a filled rectangle, then its text if any.
/// `action` is the node's action when the node is pressed on this frame.
#[derive(Clone, Debug, PartialEq, Eq)]
pub struct DrawCommand {
    pub rect: Rect,
    pub state: VisualState,
    pub background: [u16; 4],
    pub text: Option<TextCommand>,
    pub action: Option<u32>,
}

/// The pointer lies in the node's rectangle within `parent`, edges included,
/// computed exactly (not clipped by `parent`).
pub open spec fn focus_spec(node: Ui, parent: Rect, p: Point) -> bool {
    &&& layout_x(node.origin, parent) <= p.x <= layout_x(node.origin, parent) + layout_w(node.size, parent)
    &&& layout_y(node.origin, parent) <= p.y <= layout_y(node.origin, parent) + layout_h(node.size, parent)
}

/// Pressed when focused with the primary button down, hovered when focused only.
pub open spec fn state_spec(focus: bool, pressed: bool) -> VisualState {
    if focus && pressed {
        VisualState::Pressed
    } else if focus {
        VisualState::Hover
    } else {
        VisualState::Idle
    }
}

pub open spec fn background_for(node: Ui, state: VisualState) -> [u16; 4] {
    match state {
        VisualState::Idle => node.background,
        VisualState::Hover => node.background_hover,
        VisualState::Pressed => node.background_click,
    }
}

pub open spec fn color_for(node: Ui, state: VisualState) -> [u16; 4] {
    match state {
        VisualState::Idle => node.color,
        VisualState::Hover => node.color_hover,
        VisualState::Pressed => node.color_click,
    }
}

/// Text is drawn where the node has a font and a non-empty text.
pub open spec fn text_spec(node: Ui, state: VisualState) -> Option<TextCommand> {
    if node.font.is_some() && node.text@.len() > 0 {
        Some(
            TextCommand {
                text: node.text,
                font: node.font.unwrap(),
                font_size: node.font_size,
                align: node.align,
                color: color_for(node, state),
            },
        )
    } else {
        None
    }
}

/// The command for one node, whose rectangle within `parent` fits.
pub open spec fn command_spec(node: Ui, parent: Rect, p: Point, pressed: bool) -> DrawCommand {
    let state = state_spec(focus_spec(node, parent, p), pressed);
    DrawCommand {
        rect: layout_spec(node.origin, node.size, parent),
        state,
        background: background_for(node, state),
        text: text_spec(node, state),
        action: if state == VisualState::Pressed {
            node.action
        } else {
            None
        },
    }
}

/// The commands of a node and its descendants, parent before children and
/// children in order. A node whose rectangle leaves the range of a `Rect` is
/// not drawn, nor anything under it.
pub open spec fn draw_spec(node: Ui, parent: Rect, p: Point, pressed: bool) -> Seq<DrawCommand>
    decreases node, node.children.len() + 1,
{
    if layout_fits(node.origin, node.size, parent) {
        let rect = layout_spec(node.origin, node.size, parent);
        seq![command_spec(node, parent, p, pressed)] + children_spec(
            node,
            node.children.len() as int,
            rect,
            p,
            pressed,
        )
    } else {
        Seq::empty()
    }
}

/// The commands of the first `n` children of `node`, whose rectangle is `rect`.
pub open spec fn children_spec(node: Ui, n: int, rect: Rect, p: Point, pressed: bool) -> Seq<
    DrawCommand,
>
    decreases node, n,
{
    if n <= 0 || n > node.children.len() {
        Seq::empty()
    } else {
        children_spec(node, n - 1, rect, p, pressed) + draw_spec(
            node.children[n - 1],
            rect,
            p,
            pressed,
        )
    }
}

/// On every frame the first command drawn for a node whose rectangle fits is
/// its own, in that rectangle: idle colors when the pointer is outside the
/// rectangle, hover colors when it is inside with the button up, click colors
/// when it is inside with the button down.
pub proof fn lemma_color_state(node: Ui, parent: Rect, p: Point, pressed: bool)
    requires
        layout_fits(node.origin, node.size, parent),
    ensures
        draw_spec(node, parent, p, pressed).len() >= 1,
        ({
            let c = draw_spec(node, parent, p, pressed)[0];
            let inside = contains_spec(c.rect, p);
            &&& c.rect == layout_spec(node.origin, node.size, parent)
            &&& !inside ==> c.state == VisualState::Idle && c.background == node.background
            &&& inside && !pressed ==> c.state == VisualState::Hover && c.background == node.background_hover
            &&& inside && pressed ==> c.state == VisualState::Pressed && c.background == node.background_click
            &&& c.text.is_some() ==> c.text.unwrap().color == color_for(node, c.state)
        }),
{
    let rect = layout_spec(node.origin, node.size, parent);
    assert(contains_spec(rect, p) == focus_spec(node, parent, p));
}

/// The look of a node: pressed when focused with the primary button down,
/// hovered when focused only, idle otherwise.
pub fn visual_state(focus: bool, pressed: bool) -> (r: VisualState)
    ensures
        r == state_spec(focus, pressed),
{
    if focus && pressed {
        VisualState::Pressed
    } else if focus {
        VisualState::Hover
    } else {
        VisualState::Idle
    }
}

impl Ui {
    /// Whether the pointer lies in this node's rectangle within `parent`.
    /// Only this node's own rectangle counts: it is not clipped by `parent`.
    pub fn has_focus(&self, parent: Rect, pointer: Point) -> (r: bool)
        ensures
            r == focus_spec(*self, parent, pointer),
    {
        let x = scale_exec(self.origin[0], parent.w) as i128 + parent.x as i128;
        let y = scale_exec(self.origin[1], parent.h) as i128 + parent.y as i128;
        let w = scale_exec(self.size[0], parent.w) as i128;
        let h = scale_exec(self.size[1], parent.h) as i128;
        let px = pointer.x as i128;
        let py = pointer.y as i128;
        x <= px && px <= x + w && y <= py && py <= y + h
    }

    /// The background and text colors of this node in `state`.
    pub fn colors(&self, state: VisualState) -> (r: ([u16; 4], [u16; 4]))
        ensures
            r == (background_for(*self, state), color_for(*self, state)),
    {
        match state {
            VisualState::Idle => (self.background, self.color),
            VisualState::Hover => (self.background_hover, self.color_hover),
            VisualState::Pressed => (self.background_click, self.color_click),
        }
    }

    fn command(&self, parent: Rect, rect: Rect, pointer: Point, pressed: bool) -> (r: DrawCommand)
        requires
            rect == layout_spec(self.origin, self.size, parent),
        ensures
            r == command_spec(*self, parent, pointer, pressed),
    {
        let state = visual_state(self.has_focus(parent, pointer), pressed);
        let (background, color) = self.colors(state);
        let text = if self.font.is_some() && !self.text.as_str().is_empty() {
            Some(
                TextCommand {
                    text: self.text.clone(),
                    font: self.font.unwrap(),
                    font_size: self.font_size,
                    align: self.align,
                    color,
                },
            )
        } else {
            None
        };
        let action = if state == VisualState::Pressed {
            self.action
        } else {
            None
        };
        DrawCommand { rect, state, background, text, action }
    }

    fn draw_into(&self, parent: Rect, pointer: Point, pressed: bool, out: &mut Vec<DrawCommand>)
        ensures
            final(out)@ == old(out)@ + draw_spec(*self, parent, pointer, pressed),
        decreases self,
    {
        match layout(self.origin, self.size, parent) {
            None => {},
            Some(rect) => {
                let cmd = self.command(parent, rect, pointer, pressed);
                out.push(cmd);
                let ghost head = old(out)@ + seq![cmd];
                assert(children_spec(*self, 0, rect, pointer, pressed) =~= Seq::empty());
                assert(out@ =~= head + children_spec(*self, 0, rect, pointer, pressed));
                let mut i: usize = 0;
                while i < self.children.len()
                    invariant
                        i <= self.children.len(),
                        out@ == head + children_spec(*self, i as int, rect, pointer, pressed),
                    decreases self.children.len() - i,
                {
                    let ghost before = out@;
                    self.children[i].draw_into(rect, pointer, pressed, out);
                    assert(out@ =~= head + children_spec(*self, i + 1, rect, pointer, pressed));
                    i += 1;
                }
                assert(head + children_spec(*self, self.children.len() as int, rect, pointer, pressed)
                    =~= old(out)@ + draw_spec(*self, parent, pointer, pressed));
            },
        }
    }

    /// What to draw for this tree on one frame, root first, each node before its
    /// children and children in order, so that later commands cover earlier ones.
    /// `parent` is the rectangle the root is laid out in (the viewport), `pointer`
    /// the pointer's position and `pressed` whether the primary button is down.
    pub fn draw(&self, parent: Rect, pointer: Point, pressed: bool) -> (r: Vec<DrawCommand>)
        ensures
            r@ == draw_spec(*self, parent, pointer, pressed),
    {
        let mut out: Vec<DrawCommand> = Vec::new();
        self.draw_into(parent, pointer, pressed, &mut out);
        assert(out@ =~= draw_spec(*self, parent, pointer, pressed));
        out
    }
}

} // verus!
