use bevy_kot::style_stack::StyleStack;
use std::sync::Arc;

const BG: u64 = 1;
const FONT: u64 = 2;

#[test]
fn style_stack_get_latest() {
    let mut s: StyleStack<u32> = StyleStack::new();
    assert_eq!(s.get(BG), None);
    s.add(vec![(BG, 1), (FONT, 10), (BG, 2)]);
    assert_eq!(s.get(BG), Some(Arc::new(2)));
    assert_eq!(s.get_clone(FONT), Some(10));
}

#[test]
fn style_stack_pop_restores() {
    let mut s: StyleStack<u32> = StyleStack::new();
    s.add(vec![(BG, 1)]);
    s.push();
    s.add(vec![(BG, 5), (FONT, 7)]);
    assert_eq!(s.get(BG), Some(Arc::new(5)));
    s.pop();
    assert_eq!(s.get(BG), Some(Arc::new(1)));
    assert_eq!(s.get(FONT), None);
    // the root frame cannot be popped
    s.pop();
    assert_eq!(s.get(BG), Some(Arc::new(1)));
}

#[test]
fn style_stack_hide() {
    let mut s: StyleStack<u32> = StyleStack::new();
    s.add(vec![(BG, 1)]);
    s.push();
    s.hide_style(BG);
    assert_eq!(s.get(BG), None);
    assert_eq!(s.edit(BG, |v| v + 1), Err(()));
    s.pop();
    assert_eq!(s.get(BG), Some(Arc::new(1)));
}

#[test]
fn style_stack_edit() {
    let mut s: StyleStack<u32> = StyleStack::new();
    s.add(vec![(BG, 1)]);
    s.push();
    assert_eq!(s.edit(BG, |v| v * 10), Ok(Arc::new(10)));
    assert_eq!(s.get(BG), Some(Arc::new(10)));
    s.pop();
    assert_eq!(s.get(BG), Some(Arc::new(1)));
    assert_eq!(s.edit(FONT, |v| v), Err(()));
}

#[test]
fn style_stack_clear() {
    let mut s: StyleStack<u32> = StyleStack::new();
    s.add(vec![(BG, 1)]);
    s.push();
    s.add(vec![(FONT, 2)]);
    s.clear();
    assert_eq!(s.get(BG), None);
    assert_eq!(s.get(FONT), None);
    s.pop();
    assert_eq!(s.get(BG), None);
}

#[test]
fn style_stack_reuses_frames() {
    let mut s: StyleStack<u32> = StyleStack::new();
    for i in 0..3u32 {
        s.push();
        s.add(vec![(BG, i)]);
        assert_eq!(s.get(BG), Some(Arc::new(i)));
        s.pop();
        assert_eq!(s.get(BG), None);
    }
}

#[test]
fn style_stack_nested_frames_restore() {
    let mut s: StyleStack<u32> = StyleStack::new();
    s.add(vec![(BG, 1), (FONT, 2)]);
    s.push();
    s.add(vec![(BG, 3)]);
    s.push();
    s.hide_style(FONT);
    s.add(vec![(BG, 4)]);
    assert_eq!(s.get(FONT), None);
    s.pop();
    assert_eq!(s.get(BG), Some(Arc::new(3)));
    assert_eq!(s.get(FONT), Some(Arc::new(2)));
    assert_eq!(s.edit(FONT, |v| v + 5), Ok(Arc::new(7)));
    s.pop();
    assert_eq!(s.get(BG), Some(Arc::new(1)));
    assert_eq!(s.get(FONT), Some(Arc::new(2)));
}
