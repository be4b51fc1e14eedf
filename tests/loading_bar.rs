use scene_flow::progress::Ratio;
use scene_flow::ui::{
    is_placeable, update_loading_bar, CustomUi, UiLoadingBar, UiText, UiTransform, SPACING,
};

fn background() -> UiTransform {
    UiTransform { local_x: 100, width: 210, height: 40 }
}

fn run(num: u64, den: u64) -> (UiTransform, String) {
    let mut bar = UiTransform { local_x: 0, width: 0, height: 30 };
    let mut text = UiText { text: String::new() };
    update_loading_bar(&mut bar, background(), &mut text, Ratio { num, den });
    (bar, text.text)
}

#[test]
fn empty_bar_has_no_width() {
    let (bar, text) = run(0, 1);
    assert_eq!(bar.width, 0);
    assert_eq!(bar.local_x, 105);
    assert_eq!(bar.height, 30);
    assert_eq!(text, "0%");
}

#[test]
fn full_bar_spans_background_less_spacing() {
    let (bar, text) = run(1, 1);
    assert_eq!(bar.width, 210 - SPACING);
    assert_eq!(bar.local_x, 100 + 5 + 100);
    assert_eq!(text, "100%");
}

#[test]
fn half_bar_label() {
    let (bar, text) = run(1, 2);
    assert_eq!(text, "50%");
    assert_eq!(bar.width, 100);
    assert_eq!(bar.local_x, 155);
}

#[test]
fn label_rounds_to_nearest_percent() {
    assert_eq!(run(2, 3).1, "67%");
    assert_eq!(run(1, 3).1, "33%");
    assert_eq!(run(1, 8).1, "13%");
    assert_eq!(run(42, 100).1, "42%");
    assert_eq!(run(2, 3).0.width, 133);
}

#[test]
fn background_narrower_than_padding() {
    let mut bar = UiTransform { local_x: 0, width: 7, height: 1 };
    let mut text = UiText { text: String::new() };
    let bg = UiTransform { local_x: -20, width: 6, height: 4 };
    update_loading_bar(&mut bar, bg, &mut text, Ratio { num: 1, den: 1 });
    assert_eq!(bar.width, 0);
    assert_eq!(bar.local_x, -15);
}

#[test]
fn native_widget_layout() {
    let w = UiLoadingBar { progress: Ratio { num: 1, den: 4 } }.native_widget(background());
    assert_eq!(w.background, background());
    assert_eq!(w.bar.width, 50);
    assert_eq!(w.bar.local_x, 130);
    assert_eq!(w.bar.height, 30);
    assert_eq!(w.label.text, "0.00%");
    assert_eq!(w.label_transform, UiTransform { local_x: 0, width: 210, height: 40 });
}

#[test]
fn custom_ui_builds_loading_bar() {
    let ui = CustomUi::LoadingBar {
        transform: background(),
        loading_bar: UiLoadingBar { progress: Ratio { num: 0, den: 1 } },
    };
    let w = ui.to_native_widget();
    assert_eq!(w.bar.width, 0);
    assert_eq!(w.bar.height, 30);
}

#[test]
fn placement_limit() {
    assert!(is_placeable(background()));
    assert!(!is_placeable(UiTransform { local_x: i64::MAX, width: 1, height: 1 }));
}
