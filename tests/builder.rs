use rcade::builder::UiBuilder;
use rcade::geometry::UNIT;
use rcade::ui::Align;

#[test]
fn background_alone_sets_hover_and_click() {
    let node = UiBuilder::default().background([1000, 1000, 1000, 5000]).build();
    assert_eq!(node.background, [1000, 1000, 1000, 5000]);
    assert_eq!(node.background_hover, node.background);
    assert_eq!(node.background_click, node.background);
}

#[test]
fn defaults_of_an_empty_builder() {
    let node = UiBuilder::default().build();
    assert_eq!(node.origin, [0, 0]);
    assert_eq!(node.size, [UNIT, UNIT]);
    assert_eq!(node.background, [0, 0, 0, 0]);
    assert_eq!(node.background_hover, [0, 0, 0, 0]);
    assert_eq!(node.background_click, [0, 0, 0, 0]);
    assert_eq!(node.color, [0, 0, 0, UNIT]);
    assert_eq!(node.color_hover, [0, 0, 0, UNIT]);
    assert_eq!(node.color_click, [0, 0, 0, UNIT]);
    assert_eq!(node.text, "");
    assert_eq!(node.font, None);
    assert_eq!(node.font_size, 12);
    assert_eq!(node.align, Align::Left);
    assert_eq!(node.action, None);
    assert!(node.children.is_empty());
}

#[test]
fn explicit_hover_and_click_are_kept() {
    let node = UiBuilder::default()
        .color([1, 2, 3, 4])
        .color_hover([5, 6, 7, 8])
        .background_click([9, 9, 9, 9])
        .build();
    assert_eq!(node.color_hover, [5, 6, 7, 8]);
    assert_eq!(node.color_click, [1, 2, 3, 4]);
    assert_eq!(node.background_click, [9, 9, 9, 9]);
    assert_eq!(node.background_hover, [0, 0, 0, 0]);
}

#[test]
fn later_change_of_background_leaves_hover() {
    let mut node = UiBuilder::default().background([5, 5, 5, 5]).build();
    node.background = [6, 6, 6, 6];
    assert_eq!(node.background_hover, [5, 5, 5, 5]);
    assert_eq!(node.background_click, [5, 5, 5, 5]);
}

#[test]
fn default_background_and_color() {
    let empty = UiBuilder::default();
    assert_eq!(empty.default_background(), [0, 0, 0, 0]);
    assert_eq!(empty.default_color(), [0, 0, 0, UNIT]);
    let set = UiBuilder::default().background([1, 2, 3, 4]).color([5, 6, 7, 8]);
    assert_eq!(set.default_background(), [1, 2, 3, 4]);
    assert_eq!(set.default_color(), [5, 6, 7, 8]);
}

#[test]
fn push_keeps_order() {
    let node = UiBuilder::default()
        .push(UiBuilder::default().font_size(1).build())
        .push(UiBuilder::default().font_size(2).build())
        .push(UiBuilder::default().font_size(3).build())
        .build();
    let sizes: Vec<u32> = node.children.iter().map(|c| c.font_size).collect();
    assert_eq!(sizes, vec![1, 2, 3]);
}
