//! Tests for progress bars, spinners, pagers, prompts, logs, inspection and
//! measurement.

use fast_rich::bidi::TextDirection;
use fast_rich::console::RenderContext;
use fast_rich::inspect::{inspect, inspect_with_config, InspectConfig};
use fast_rich::log::{LogLevel, LogMessage};
use fast_rich::measure::Measurement;
use fast_rich::nested_progress::NestedProgress;
use fast_rich::pager::Pager;
use fast_rich::progress::{BarColumn, Progress, ProgressColumn, Spinner, SpinnerStyle, Task};
use fast_rich::prompt::Prompt;
use fast_rich::renderable::Renderable;
use fast_rich::text::Text;

fn ctx(width: usize) -> RenderContext {
    RenderContext {
        width,
        height: None,
        direction: TextDirection::Auto,
    }
}

#[test]
fn test_spinner_frames() {
    let style = SpinnerStyle::Dots;
    let frames = style.frames();
    assert!(!frames.is_empty());
    assert_eq!(frames[0], "⠋");
}

#[test]
fn test_spinner_render() {
    let spinner = Spinner::new("Loading...");
    let spans = spinner.render();
    assert_eq!(spans.len(), 3);
}

#[test]
fn test_all_spinner_styles_have_frames() {
    for name in SpinnerStyle::all_names() {
        let style = SpinnerStyle::from_name(name)
            .unwrap_or_else(|| panic!("Failed to find style: {}", name));
        let frames = style.frames();
        assert!(!frames.is_empty(), "{} has no frames", name);
        assert!(style.interval_ms() > 0, "{} has invalid interval", name);
    }
}

#[test]
fn test_spinner_from_name() {
    assert!(SpinnerStyle::from_name("dots").is_some());
    assert!(SpinnerStyle::from_name("Dots").is_some());
    assert!(SpinnerStyle::from_name("DOTS").is_some());
    assert!(SpinnerStyle::from_name("moon").is_some());
    assert!(SpinnerStyle::from_name("bouncingBar").is_some());
    assert!(SpinnerStyle::from_name("bouncing_bar").is_some());
    assert!(SpinnerStyle::from_name("invalid_name").is_none());
}

#[test]
fn test_emoji_spinners() {
    let clock = SpinnerStyle::Clock;
    assert!(clock.frames().iter().any(|f| f.contains("🕐")));

    let moon = SpinnerStyle::Moon;
    assert!(moon.frames().iter().any(|f| f.contains("🌕")));
}

#[test]
fn test_progress_add_task() {
    let mut progress = Progress::new();
    let id1 = progress.add_task("Task 1", Some(100));
    let id2 = progress.add_task("Task 2", Some(200));

    assert_eq!(id1, 0);
    assert_eq!(id2, 1);
}

#[test]
fn test_progress_advance() {
    let mut progress = Progress::new();
    let id = progress.add_task("Test", Some(100));

    progress.advance(id, 25);
    progress.advance(id, 25);

    assert_eq!(progress.tasks[0].completed, 50);
}

#[test]
fn test_progress_bar_render() {
    let bar_col = BarColumn::new(10);
    let mut task = Task::new(0, "Test", Some(100));
    task.completed = 50;

    let spans = bar_col.render(&task);
    assert_eq!(spans.len(), 2);
}

#[test]
fn test_progress_finish_and_remove() {
    let mut progress = Progress::new();
    let id = progress.add_task("Test", Some(10));
    assert!(!progress.is_finished());
    progress.finish(id);
    assert!(progress.is_finished());
    progress.remove(id);
    assert_eq!(progress.tasks.len(), 0);
    assert!(progress.is_finished());
}

#[test]
fn test_nested_progress_creation() {
    let nested = NestedProgress::new("Root task", 100);
    assert_eq!(nested.child_count(), 0);
}

#[test]
fn test_add_child() {
    let mut nested = NestedProgress::new("Parent", 100);
    nested.add_child("Child task", 50);
    assert_eq!(nested.child_count(), 1);
}

#[test]
fn test_nested_update_clamps() {
    let mut nested = NestedProgress::new("Task", 100);
    nested.update(50);
    assert_eq!(nested.current, 50);
    nested.update(500);
    assert_eq!(nested.current, 100);
}

#[test]
fn test_pager_creation() {
    let pager = Pager::new("Line 1\nLine 2\nLine 3");

    assert_eq!(pager.line_count(), 3);
    assert_eq!(pager.current_line, 0);
}

#[test]
fn test_scroll_down() {
    let content = (0..100)
        .map(|i| format!("Line {}", i))
        .collect::<Vec<_>>()
        .join("\n");
    let mut pager = Pager::new(&content);

    pager.scroll_down(10);
    assert_eq!(pager.current_line, 10);
}

#[test]
fn test_scroll_up() {
    let content = (0..100)
        .map(|i| format!("Line {}", i))
        .collect::<Vec<_>>()
        .join("\n");
    let mut pager = Pager::new(&content);

    pager.scroll_down(20);
    pager.scroll_up(5);
    assert_eq!(pager.current_line, 15);
}

#[test]
fn test_scroll_bounds() {
    let mut pager = Pager::new("Line 1\nLine 2\nLine 3");

    pager.scroll_up(10);
    assert_eq!(pager.current_line, 0);

    pager.scroll_down(1000);
    assert!(pager.current_line <= pager.line_count());
}

#[test]
fn test_prompt_creation() {
    let _prompt = Prompt::<String>::new("Enter name");
}

#[test]
fn test_prompt_with_default() {
    let _prompt = Prompt::new("Enter name").default("Alice".to_string());
}

#[test]
fn test_prompt_int() {
    let _prompt = Prompt::<i32>::new("Enter number");
}

#[test]
fn test_prompt_float() {
    let _prompt = Prompt::<f64>::new("Enter decimal");
}

#[test]
fn test_prompt_secret() {
    let _prompt = Prompt::<String>::new("Password").secret();
}

#[test]
fn test_prompt_choices() {
    let choices = vec!["one".to_string(), "two".to_string()];
    let _prompt = Prompt::new("Select").choices(choices);
}

#[test]
fn test_log_message_format_time() {
    let msg = LogMessage::new("test");
    let time = msg.format_time();
    assert!(time.contains(':'));
    assert!(time.contains('.'));
}

#[test]
fn test_log_message_render() {
    let msg = LogMessage::new("Hello").level(LogLevel::Info);
    let segments = msg.render(&ctx(80));

    assert_eq!(segments.len(), 1);
    let text = segments[0].plain_text();
    assert!(text.contains("INFO"));
    assert!(text.contains("Hello"));
}

#[test]
fn test_log_time_formatting_exact() {
    let mut msg = LogMessage::new("x");
    msg.time_millis = 3_723_456;
    assert_eq!(msg.format_time(), "01:02:03.456");
    msg.time_millis = 7;
    assert_eq!(msg.format_time(), "00:00:00.007");
}

#[test]
fn test_inspect_primitive() {
    let value = 42i32;
    let inspection = inspect(&value);

    assert!(inspection.kind_name.contains("i32"));
    assert_eq!(inspection.size, 4);
    assert!(inspection.debug_value.contains("42"));
}

#[test]
fn test_inspect_struct() {
    #[derive(Debug)]
    struct TestStruct {
        name: String,
        value: i32,
    }

    let value = TestStruct {
        name: "test".to_string(),
        value: 123,
    };

    let inspection = inspect(&value);
    assert!(inspection.kind_name.contains("TestStruct"));
    assert!(inspection.debug_value.contains("test"));
    assert!(inspection.debug_value.contains("123"));
    let _ = (value.name, value.value);
}

#[test]
fn test_inspect_vec() {
    let value = vec![1, 2, 3, 4, 5];
    let inspection = inspect(&value);

    assert!(inspection.kind_name.contains("Vec"));
    assert!(inspection.debug_value.contains("1"));
    assert!(inspection.debug_value.contains("5"));
}

#[test]
fn test_inspect_config() {
    let value = 42;
    let config = InspectConfig::new()
        .show_type(true)
        .show_size(false)
        .title("My Value");

    let inspection = inspect_with_config(&value, config);
    assert!(!inspection.config.show_size);
}

#[test]
fn test_inspect_render() {
    let value = vec!["hello", "world"];
    let inspection = inspect(&value);

    let segments = inspection.render(&ctx(60));

    assert!(!segments.is_empty());
}

#[test]
fn test_measurement_creation() {
    let m = Measurement::new(10, 50, 3);
    assert_eq!(m.minimum, 10);
    assert_eq!(m.maximum, 50);
    assert_eq!(m.lines, 3);
}

#[test]
fn test_measure_text() {
    let text = Text::plain("Hello, World!");
    let m = Measurement::measure(&text, 80);

    assert!(m.minimum > 0);
    assert!(m.lines > 0);
}

#[test]
fn test_fits() {
    let m = Measurement::new(10, 40, 3);
    assert!(m.fits(50, 5));
    assert!(!m.fits(5, 5));
    assert!(!m.fits(50, 2));
}

#[test]
fn test_area() {
    let m = Measurement::new(10, 20, 5);
    assert_eq!(m.area(), 100);
}

#[test]
fn test_format_duration_exact() {
    assert_eq!(fast_rich::progress::format_duration(3661), "01:01:01");
    assert_eq!(fast_rich::progress::format_duration(65), "01:05");
    assert_eq!(fast_rich::progress::format_duration(0), "00:00");
}
