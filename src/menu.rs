//! The program's screens: the main menu tree and what its actions do to the
//! game state.
use vstd::prelude::*;

use crate::builder::UiBuilder;
use crate::geometry::UNIT;
use crate::ui::{Align, DrawCommand, Ui};

verus! {

/// The game state that pressing the main menu's title switches to.
pub const START_STATE: u32 = 2;

/// The game state after a frame's commands: each action reported by a pressed
/// node sets the state to its value, later ones overriding earlier ones.
pub open spec fn after_actions(state: u32, commands: Seq<DrawCommand>) -> u32
    decreases commands.len(),
{
    if commands.len() == 0 {
        state
    } else {
        match commands.last().action {
            Some(a) => a,
            None => after_actions(state, commands.drop_last()),
        }
    }
}

/// Applies the actions of a frame's commands to `state`.
pub fn apply_actions(state: u32, commands: &Vec<DrawCommand>) -> (r: u32)
    ensures
        r == after_actions(state, commands@),
{
    let mut s = state;
    let mut i: usize = 0;
    while i < commands.len()
        invariant
            i <= commands.len(),
            s == after_actions(state, commands@.subrange(0, i as int)),
        decreases commands.len() - i,
    {
        assert(commands@.subrange(0, i + 1).drop_last() =~= commands@.subrange(0, i as int));
        match commands[i].action {
            Some(a) => {
                s = a;
            },
            None => {},
        }
        i += 1;
    }
    assert(commands@.subrange(0, commands.len() as int) =~= commands@);
    s
}

/// The main menu: a full-window root holding one title, 80% wide and 10% high,
/// at 10% from the left and 5% from the top, centered in the given font at
/// size 32, red, green under the pointer and blue when pressed, on a
/// half-transparent grey that lightens under the pointer and when pressed.
/// Pressing it switches the game state to `START_STATE`.
pub fn main_menu(font: usize) -> (r: Ui)
    ensures
        r.origin == [0u16, 0],
        r.size == [UNIT, UNIT],
        r.background == [0u16, 0, 0, 0],
        r.action.is_none(),
        r.children@.len() == 1,
        r.children@[0].origin == [1000u16, 500],
        r.children@[0].size == [8000u16, 1000],
        r.children@[0].text@ == "RS-ARCADE"@,
        r.children@[0].font == Some(font),
        r.children@[0].font_size == 32,
        r.children@[0].align == Align::Center,
        r.children@[0].color == [UNIT, 0, 0, UNIT],
        r.children@[0].color_hover == [0, UNIT, 0, UNIT],
        r.children@[0].color_click == [0, 0, UNIT, UNIT],
        r.children@[0].background == [1000u16, 1000, 1000, 5000],
        r.children@[0].background_hover == [2000u16, 2000, 2000, 5000],
        r.children@[0].background_click == [3000u16, 3000, 3000, 5000],
        r.children@[0].action == Some(START_STATE),
        r.children@[0].children@.len() == 0,
{
    let title = UiBuilder::default()
        .size([8000, 1000])
        .origin([1000, 500])
        .text("RS-ARCADE".to_owned())
        .align(Align::Center)
        .font_size(32)
        .font(Some(font))
        .color([UNIT, 0, 0, UNIT])
        .color_hover([0, UNIT, 0, UNIT])
        .color_click([0, 0, UNIT, UNIT])
        .background([1000, 1000, 1000, 5000])
        .background_hover([2000, 2000, 2000, 5000])
        .background_click([3000, 3000, 3000, 5000])
        .action(Some(START_STATE))
        .build();
    UiBuilder::default().push(title).build()
}

} // verus!
