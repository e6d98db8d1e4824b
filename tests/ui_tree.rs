use rcade::builder::UiBuilder;
use rcade::geometry::{Point, Rect, UNIT};
use rcade::ui::{visual_state, Align, Ui, VisualState};

const IDLE_BG: [u16; 4] = [1000, 1000, 1000, 5000];
const HOVER_BG: [u16; 4] = [2000, 2000, 2000, 5000];
const CLICK_BG: [u16; 4] = [3000, 3000, 3000, 5000];
const IDLE_FG: [u16; 4] = [UNIT, 0, 0, UNIT];
const HOVER_FG: [u16; 4] = [0, UNIT, 0, UNIT];
const CLICK_FG: [u16; 4] = [0, 0, UNIT, UNIT];

fn button() -> Ui {
    UiBuilder::default()
        .origin([5000, 5000])
        .size([5000, 5000])
        .background(IDLE_BG)
        .background_hover(HOVER_BG)
        .background_click(CLICK_BG)
        .color(IDLE_FG)
        .color_hover(HOVER_FG)
        .color_click(CLICK_FG)
        .text("go".to_string())
        .font(Some(3))
        .font_size(20)
        .align(Align::Right)
        .action(Some(7))
        .build()
}

fn viewport() -> Rect {
    Rect { x: 0, y: 0, w: 100, h: 100 }
}

#[test]
fn idle_colors_when_pointer_outside() {
    let cmds = button().draw(viewport(), Point { x: 10, y: 10 }, true);
    assert_eq!(cmds.len(), 1);
    assert_eq!(cmds[0].rect, Rect { x: 50, y: 50, w: 50, h: 50 });
    assert_eq!(cmds[0].state, VisualState::Idle);
    assert_eq!(cmds[0].background, IDLE_BG);
    assert_eq!(cmds[0].text.as_ref().unwrap().color, IDLE_FG);
    assert_eq!(cmds[0].action, None);
}

#[test]
fn hover_colors_when_pointer_inside_button_up() {
    let cmds = button().draw(viewport(), Point { x: 75, y: 75 }, false);
    assert_eq!(cmds[0].state, VisualState::Hover);
    assert_eq!(cmds[0].background, HOVER_BG);
    assert_eq!(cmds[0].text.as_ref().unwrap().color, HOVER_FG);
    assert_eq!(cmds[0].action, None);
}

#[test]
fn click_colors_when_pointer_inside_button_down() {
    let cmds = button().draw(viewport(), Point { x: 75, y: 75 }, true);
    assert_eq!(cmds[0].state, VisualState::Pressed);
    assert_eq!(cmds[0].background, CLICK_BG);
    let text = cmds[0].text.as_ref().unwrap();
    assert_eq!(text.color, CLICK_FG);
    assert_eq!(text.text, "go");
    assert_eq!(text.font, 3);
    assert_eq!(text.font_size, 20);
    assert_eq!(text.align, Align::Right);
    assert_eq!(cmds[0].action, Some(7));
}

#[test]
fn hit_test_twice_gives_same_answer() {
    let node = button();
    let inside = Point { x: 50, y: 100 };
    let outside = Point { x: 49, y: 100 };
    assert!(node.has_focus(viewport(), inside));
    assert!(node.has_focus(viewport(), inside));
    assert!(!node.has_focus(viewport(), outside));
    assert!(!node.has_focus(viewport(), outside));
}

#[test]
fn child_outside_parent_still_takes_focus() {
    let child = UiBuilder::default().origin([UNIT, UNIT]).size([UNIT, UNIT]).build();
    let parent = Rect { x: 0, y: 0, w: 10, h: 10 };
    // the child's rectangle is (10, 10, 10, 10), outside its parent but for a corner
    assert!(child.has_focus(parent, Point { x: 15, y: 15 }));
    assert!(!child.has_focus(parent, Point { x: 5, y: 5 }));
}

#[test]
fn draw_orders_parent_then_children_in_sequence() {
    let a = UiBuilder::default().size([5000, UNIT]).background([1, 0, 0, 0]).build();
    let b = UiBuilder::default()
        .origin([5000, 0])
        .size([5000, UNIT])
        .background([2, 0, 0, 0])
        .push(UiBuilder::default().size([5000, 5000]).background([3, 0, 0, 0]).build())
        .build();
    let c = UiBuilder::default().origin([0, 5000]).size([UNIT, 5000]).background([4, 0, 0, 0]).build();
    let root = UiBuilder::default().push(a).push(b).push(c).build();
    let cmds = root.draw(Rect { x: 0, y: 0, w: 200, h: 100 }, Point { x: -1, y: -1 }, false);
    let reds: Vec<u16> = cmds.iter().map(|c| c.background[0]).collect();
    assert_eq!(reds, vec![0, 1, 2, 3, 4]);
    assert_eq!(cmds[0].rect, Rect { x: 0, y: 0, w: 200, h: 100 });
    assert_eq!(cmds[1].rect, Rect { x: 0, y: 0, w: 100, h: 100 });
    assert_eq!(cmds[2].rect, Rect { x: 100, y: 0, w: 100, h: 100 });
    assert_eq!(cmds[3].rect, Rect { x: 100, y: 0, w: 50, h: 50 });
    assert_eq!(cmds[4].rect, Rect { x: 0, y: 50, w: 200, h: 50 });
}

#[test]
fn text_needs_font_and_content() {
    let no_font = UiBuilder::default().text("hello".to_string()).build();
    let no_text = UiBuilder::default().font(Some(0)).build();
    let both = UiBuilder::default().text("hello".to_string()).font(Some(0)).build();
    let p = Point { x: 0, y: 0 };
    assert!(no_font.draw(viewport(), p, false)[0].text.is_none());
    assert!(no_text.draw(viewport(), p, false)[0].text.is_none());
    let t = both.draw(viewport(), p, false)[0].text.clone().unwrap();
    assert_eq!(t.text, "hello");
    assert_eq!(t.font_size, 12);
    assert_eq!(t.align, Align::Left);
    assert_eq!(t.color, [0, 0, 0, UNIT]);
}

#[test]
fn subtree_out_of_range_is_not_drawn() {
    let far = UiBuilder::default().origin([UNIT, 0]).build();
    let root = UiBuilder::default().push(far).build();
    let cmds = root.draw(Rect { x: i64::MAX - 5, y: 0, w: 10, h: 10 }, Point { x: 0, y: 0 }, false);
    assert_eq!(cmds.len(), 1);
}

#[test]
fn visual_state_table() {
    assert_eq!(visual_state(false, false), VisualState::Idle);
    assert_eq!(visual_state(false, true), VisualState::Idle);
    assert_eq!(visual_state(true, false), VisualState::Hover);
    assert_eq!(visual_state(true, true), VisualState::Pressed);
}

#[test]
fn colors_follow_state() {
    let node = button();
    assert_eq!(node.colors(VisualState::Idle), (IDLE_BG, IDLE_FG));
    assert_eq!(node.colors(VisualState::Hover), (HOVER_BG, HOVER_FG));
    assert_eq!(node.colors(VisualState::Pressed), (CLICK_BG, CLICK_FG));
}
