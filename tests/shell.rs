use rayz_gui::layout::{
    claim_order, clamp_sidebar_width, compose, FrameSizes, Rect, Region, SIDEBAR_DEFAULT_WIDTH,
    WINDOW_HEIGHT, WINDOW_WIDTH,
};
use rayz_gui::page::{nav_buttons, render, Asset, Page, PageContent};
use rayz_gui::state::{AppState, UiEvent};

#[test]
fn starts_on_test_page_with_sidebar() {
    let s = AppState::new();
    assert_eq!(s.page, Page::Test);
    assert!(s.show_sidebar);
    assert_eq!(AppState::default(), s);
}

#[test]
fn toggle_parity() {
    for n in 0..7usize {
        let mut s = AppState::new();
        let events = vec![UiEvent::ToggleSidebar; n];
        s.apply_all(&events);
        assert_eq!(s.show_sidebar, n % 2 == 0);
        assert_eq!(s.page, Page::Test);
    }
}

#[test]
fn double_toggle_restores_visibility() {
    let mut s = AppState::new();
    s.toggle_sidebar();
    assert!(!s.show_sidebar);
    s.toggle_sidebar();
    assert!(s.show_sidebar);
}

#[test]
fn navigation_sets_page() {
    let mut s = AppState::new();
    s.apply(UiEvent::Navigate(Page::Settings));
    assert_eq!(s.page, Page::Settings);
    assert!(s.show_sidebar);
    s.apply(UiEvent::Navigate(Page::Test));
    assert_eq!(s.page, Page::Test);
    s.select_page(Page::Test);
    assert_eq!(s.page, Page::Test);
}

#[test]
fn toggle_keeps_page() {
    let mut s = AppState::new();
    s.select_page(Page::Settings);
    s.apply_all(&vec![
        UiEvent::ToggleSidebar,
        UiEvent::ToggleSidebar,
        UiEvent::ToggleSidebar,
    ]);
    assert_eq!(s.page, Page::Settings);
    assert!(!s.show_sidebar);
}

#[test]
fn mixed_clicks_apply_in_order() {
    let mut s = AppState::new();
    s.apply_all(&vec![
        UiEvent::Navigate(Page::Settings),
        UiEvent::ToggleSidebar,
        UiEvent::Navigate(Page::Test),
        UiEvent::Navigate(Page::Settings),
    ]);
    assert_eq!(s, AppState { page: Page::Settings, show_sidebar: false });
}

#[test]
fn render_is_fixed_per_page() {
    assert_eq!(render(Page::Test), PageContent::Image(Asset::Ferris));
    assert_eq!(render(Page::Settings), PageContent::Empty);
    let mut a = AppState::new();
    let first = a.central_content();
    a.toggle_sidebar();
    assert_eq!(a.central_content(), first);
    a.select_page(Page::Settings);
    assert_eq!(a.central_content(), PageContent::Empty);
    a.toggle_sidebar();
    assert_eq!(a.central_content(), PageContent::Empty);
}

#[test]
fn toggle_label_follows_visibility() {
    let mut s = AppState::new();
    assert_eq!(s.toggle_label(), "<<");
    s.toggle_sidebar();
    assert_eq!(s.toggle_label(), "☰");
}

#[test]
fn one_nav_button_per_page() {
    let b = nav_buttons();
    assert_eq!(b.len(), 2);
    assert_eq!(b[0].label, "测试");
    assert_eq!(b[0].page, Page::Test);
    assert_eq!(b[1].label, "设置");
    assert_eq!(b[1].page, Page::Settings);
}

#[test]
fn claim_order_is_fixed() {
    assert_eq!(
        claim_order(true),
        vec![Region::Top, Region::Left, Region::Bottom, Region::Central]
    );
    assert_eq!(claim_order(false), vec![Region::Top, Region::Bottom, Region::Central]);
}

#[test]
fn sidebar_width_is_clamped() {
    assert_eq!(clamp_sidebar_width(10), 80);
    assert_eq!(clamp_sidebar_width(80), 80);
    assert_eq!(clamp_sidebar_width(150), 150);
    assert_eq!(clamp_sidebar_width(200), 200);
    assert_eq!(clamp_sidebar_width(500), 200);
}

fn window(top: u32, sidebar: u32, bottom: u32) -> FrameSizes {
    FrameSizes {
        window_width: WINDOW_WIDTH,
        window_height: WINDOW_HEIGHT,
        top_height: top,
        sidebar_width: sidebar,
        bottom_height: bottom,
    }
}

#[test]
fn compose_default_window() {
    let l = compose(&window(20, SIDEBAR_DEFAULT_WIDTH, 18), true);
    assert_eq!(l.top, Rect { x: 0, y: 0, width: 1920, height: 30 });
    assert_eq!(l.left, Some(Rect { x: 0, y: 30, width: 150, height: 1050 }));
    assert_eq!(l.bottom, Rect { x: 150, y: 1062, width: 1770, height: 18 });
    assert_eq!(l.central, Rect { x: 150, y: 30, width: 1770, height: 1032 });
}

#[test]
fn sidebar_narrows_central_by_its_width() {
    let s = window(20, 170, 18);
    let hidden = compose(&s, false);
    let shown = compose(&s, true);
    assert_eq!(hidden.left, None);
    assert_eq!(hidden.central.width, 1920);
    assert_eq!(shown.central.width, 1920 - 170);
    assert_eq!(shown.central.height, hidden.central.height);
    assert_eq!(shown.central.x, 170);
}

#[test]
fn bar_content_keeps_central_width() {
    let a = compose(&window(10, 150, 0), true);
    let b = compose(&window(25, 150, 0), true);
    assert_eq!(a.central, b.central);
    let c = compose(&window(60, 150, 40), true);
    assert_eq!(c.central.width, a.central.width);
    assert_eq!(c.central.x, a.central.x);
    assert_eq!(c.central.height, 1080 - 60 - 40);
}

#[test]
fn tiny_window_is_shared_without_overflow() {
    let s = FrameSizes {
        window_width: 50,
        window_height: 20,
        top_height: 5,
        sidebar_width: 150,
        bottom_height: 10,
    };
    let l = compose(&s, true);
    assert_eq!(l.top.height, 20);
    assert_eq!(l.left, Some(Rect { x: 0, y: 20, width: 50, height: 0 }));
    assert_eq!(l.central, Rect { x: 50, y: 20, width: 0, height: 0 });
    assert_eq!(l.bottom.height, 0);
}
