//! Tests for layout splits and rendering.

use fast_rich::bidi::TextDirection;
use fast_rich::console::RenderContext;
use fast_rich::layout::Layout;
use fast_rich::renderable::Renderable;

#[test]
fn test_calculate_splits_ratios() {
    let mut layout = Layout::new();
    layout.split_row(vec![
        Layout::new().with_ratio(1),
        Layout::new().with_ratio(1),
    ]);
    let splits = layout.calculate_splits(100);
    assert_eq!(splits, vec![50, 50]);

    let mut layout = Layout::new();
    layout.split_row(vec![
        Layout::new().with_ratio(1),
        Layout::new().with_ratio(3),
    ]);
    let splits = layout.calculate_splits(100);
    assert_eq!(splits, vec![25, 75]);
}

#[test]
fn test_calculate_splits_fixed() {
    let mut layout = Layout::new();
    layout.split_row(vec![
        Layout::new().with_size(10),
        Layout::new().with_size(20),
    ]);
    let splits = layout.calculate_splits(100);
    assert_eq!(splits[0], 10);
    assert_eq!(splits[1], 20);
}

#[test]
fn test_calculate_splits_mixed() {
    let mut layout = Layout::new();
    layout.split_row(vec![
        Layout::new().with_size(10),
        Layout::new().with_ratio(1),
        Layout::new().with_ratio(1),
    ]);
    let splits = layout.calculate_splits(100);
    assert_eq!(splits, vec![10, 45, 45]);
}

#[test]
fn test_calculate_splits_rounding() {
    let mut layout = Layout::new();
    layout.split_row(vec![
        Layout::new().with_ratio(1),
        Layout::new().with_ratio(1),
        Layout::new().with_ratio(1),
    ]);
    let splits = layout.calculate_splits(100);
    assert_eq!(splits, vec![33, 33, 34]);
    assert_eq!(splits.iter().sum::<u16>(), 100);
}

#[test]
fn test_calculate_splits_min_size_simple() {
    let mut layout = Layout::new();
    layout.split_row(vec![
        Layout::new().with_ratio(1).with_minimum_size(60),
        Layout::new().with_ratio(1),
    ]);
    let splits = layout.calculate_splits(100);
    assert_eq!(splits, vec![60, 40]);
}

#[test]
fn test_calculate_splits_min_size_priority() {
    let mut layout = Layout::new();
    layout.split_row(vec![
        Layout::new().with_ratio(1).with_minimum_size(80),
        Layout::new().with_ratio(1).with_minimum_size(10),
    ]);
    let splits = layout.calculate_splits(100);
    assert_eq!(splits, vec![80, 20]);
}

#[test]
fn test_calculate_splits_complex_min() {
    let mut layout = Layout::new();
    layout.split_row(vec![
        Layout::new().with_size(5),
        Layout::new().with_ratio(1).with_minimum_size(10),
        Layout::new().with_ratio(1),
    ]);
    let splits = layout.calculate_splits(20);
    assert_eq!(splits, vec![5, 10, 5]);
}

#[test]
fn test_vertical_split_ratios() {
    let mut layout = Layout::new();
    layout.split_column(vec![
        Layout::new().with_ratio(1).with_name("Top"),
        Layout::new().with_ratio(1).with_name("Bottom"),
    ]);

    let context = RenderContext {
        width: 80,
        height: Some(10),
        direction: TextDirection::Auto,
    };
    let segments = layout.render(&context);

    assert_eq!(segments.len(), 10);
    if !segments.is_empty() {
        assert_eq!(segments[0].plain_text().len(), 80);
    }
}

#[test]
fn test_vertical_split_stacking() {
    let mut layout = Layout::new();
    layout.split_column(vec![
        Layout::new().with_size(1).with_name("Top"),
        Layout::new().with_name("Bottom"),
    ]);

    let context = RenderContext {
        width: 80,
        height: None,
        direction: TextDirection::Auto,
    };
    let segments = layout.render(&context);

    assert_eq!(segments.len(), 2);
}

#[test]
fn test_horizontal_split_propagates_height() {
    let mut layout = Layout::new();
    layout.split_row(vec![
        Layout::new().with_ratio(1),
        Layout::new().with_ratio(1),
    ]);

    let context = RenderContext {
        width: 80,
        height: Some(5),
        direction: TextDirection::Auto,
    };
    let segments = layout.render(&context);

    assert_eq!(segments.len(), 5);
}
