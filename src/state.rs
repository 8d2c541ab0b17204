use vstd::prelude::*;
use crate::page::{Page, PageContent, page_content, render};

verus! {

/// Everything the shell remembers between frames.
#[derive(Clone, Copy, Debug, PartialEq, Eq, Structural)]
pub struct AppState {
    /// The page shown in the central region.
    pub page: Page,
    /// Whether the left sidebar is claimed this frame.
    pub show_sidebar: bool,
}

/// A click that the user made during a frame.
#[derive(Clone, Copy, Debug, PartialEq, Eq, Structural)]
pub enum UiEvent {
    /// The toggle control of the top bar.
    ToggleSidebar,
    /// A navigation control of the sidebar.
    Navigate(Page),
}

/// The state the shell starts in.
pub open spec fn initial_state() -> AppState {
    AppState { page: Page::Test, show_sidebar: true }
}

/// The state after one click.
pub open spec fn step(s: AppState, e: UiEvent) -> AppState {
    match e {
        UiEvent::ToggleSidebar => AppState { show_sidebar: !s.show_sidebar, ..s },
        UiEvent::Navigate(p) => AppState { page: p, ..s },
    }
}

/// The state after a sequence of clicks, taken in order.
pub open spec fn run(s: AppState, events: Seq<UiEvent>) -> AppState
    decreases events.len(),
{
    if events.len() == 0 {
        s
    } else {
        step(run(s, events.drop_last()), events.last())
    }
}

/// Whether every click in `events` is on the sidebar toggle.
pub open spec fn all_toggles(events: Seq<UiEvent>) -> bool {
    forall|i: int| 0 <= i < events.len() ==> #[trigger] events[i] == UiEvent::ToggleSidebar
}

impl AppState {
    /// The state at start-up: the test page, with the sidebar shown.
    pub fn new() -> (r: AppState)
        ensures
            r == initial_state(),
    {
        AppState { page: Page::Test, show_sidebar: true }
    }

    /// Flips the visibility of the sidebar; the page stays.
    pub fn toggle_sidebar(&mut self)
        ensures
            final(self).show_sidebar == !old(self).show_sidebar,
            final(self).page == old(self).page,
    {
        self.show_sidebar = !self.show_sidebar;
    }

    /// Selects `page`, whatever was shown before; the sidebar stays as it was.
    pub fn select_page(&mut self, page: Page)
        ensures
            final(self).page == page,
            final(self).show_sidebar == old(self).show_sidebar,
    {
        self.page = page;
    }

    /// Applies one click.
    pub fn apply(&mut self, e: UiEvent)
        ensures
            *final(self) == step(*old(self), e),
    {
        match e {
            UiEvent::ToggleSidebar => self.toggle_sidebar(),
            UiEvent::Navigate(p) => self.select_page(p),
        }
    }

    /// Applies the clicks of `events` in order.
    pub fn apply_all(&mut self, events: &Vec<UiEvent>)
        ensures
            *final(self) == run(*old(self), events@),
    {
        let n = events.len();
        let mut i: usize = 0;
        while i < n
            invariant
                n == events@.len(),
                i <= n,
                *self == run(*old(self), events@.subrange(0, i as int)),
            decreases n - i,
        {
            let e = events[i];
            self.apply(e);
            proof {
                let pre = events@.subrange(0, i as int + 1);
                assert(pre.drop_last() =~= events@.subrange(0, i as int));
                assert(pre.last() == e);
            }
            i = i + 1;
        }
        assert(events@.subrange(0, n as int) =~= events@);
    }

    /// The caption of the toggle control: it points the way the sidebar would go.
    pub fn toggle_label(&self) -> (r: &'static str)
        ensures
            self.show_sidebar ==> r@ == "<<"@,
            !self.show_sidebar ==> r@ == "☰"@,
    {
        if self.show_sidebar {
            "<<"
        } else {
            "☰"
        }
    }

    /// What the central region shows this frame.
    pub fn central_content(&self) -> (r: PageContent)
        ensures
            r == page_content(self.page),
    {
        render(self.page)
    }
}

impl Default for AppState {
    fn default() -> (r: AppState)
        ensures
            r == initial_state(),
    {
        AppState::new()
    }
}

/// After any number of clicks on the sidebar toggle alone, the sidebar is shown exactly
/// when the count is even and it was shown before, or odd and it was hidden; the page
/// never changes.
pub proof fn lemma_toggle_parity(s: AppState, events: Seq<UiEvent>)
    requires
        all_toggles(events),
    ensures
        run(s, events).show_sidebar == (s.show_sidebar == (events.len() % 2 == 0)),
        run(s, events).page == s.page,
    decreases events.len(),
{
    if events.len() > 0 {
        let rest = events.drop_last();
        assert(all_toggles(rest)) by {
            assert forall|i: int| 0 <= i < rest.len() implies #[trigger] rest[i]
                == UiEvent::ToggleSidebar by {
                assert(rest[i] == events[i]);
            }
        }
        assert(events.last() == events[events.len() - 1]);
        lemma_toggle_parity(s, rest);
    }
}

/// From the start-up state, `n` toggle clicks leave the sidebar shown exactly when `n` is
/// even, and the test page selected.
pub proof fn lemma_toggles_from_start(events: Seq<UiEvent>)
    requires
        all_toggles(events),
    ensures
        run(initial_state(), events).show_sidebar == (events.len() % 2 == 0),
        run(initial_state(), events).page == Page::Test,
{
    lemma_toggle_parity(initial_state(), events);
}

/// Two toggle clicks in a row give back the state before them.
pub proof fn lemma_double_toggle(s: AppState)
    ensures
        step(step(s, UiEvent::ToggleSidebar), UiEvent::ToggleSidebar) == s,
{
}

/// A toggle click, wherever it stands among other clicks, leaves the page that the clicks
/// select unchanged.
pub proof fn lemma_toggle_keeps_page(s: AppState, before: Seq<UiEvent>, after: Seq<UiEvent>)
    ensures
        run(s, before + seq![UiEvent::ToggleSidebar] + after).page == run(s, before + after).page,
        run(s, before + seq![UiEvent::ToggleSidebar] + after).show_sidebar
            == !run(s, before + after).show_sidebar,
    decreases after.len(),
{
    let with = before + seq![UiEvent::ToggleSidebar] + after;
    let without = before + after;
    if after.len() == 0 {
        assert(with.drop_last() =~= before);
        assert(without =~= before);
    } else {
        let rest = after.drop_last();
        assert(with.drop_last() =~= before + seq![UiEvent::ToggleSidebar] + rest);
        assert(without.drop_last() =~= before + rest);
        assert(with.last() == after.last());
        assert(without.last() == after.last());
        lemma_toggle_keeps_page(s, before, rest);
    }
}

/// A navigation click selects its page from every state: "Settings" from the test page,
/// "Test" from any page.
pub proof fn lemma_navigation(s: AppState, p: Page)
    ensures
        step(s, UiEvent::Navigate(p)).page == p,
        step(s, UiEvent::Navigate(p)).show_sidebar == s.show_sidebar,
        s.page == Page::Test ==> step(s, UiEvent::Navigate(Page::Settings)).page
            == Page::Settings,
        step(s, UiEvent::Navigate(Page::Test)).page == Page::Test,
{
}

/// What the central region shows depends on the page alone: not on the sidebar, nor on
/// any clicks that led to the state.
pub proof fn lemma_content_depends_on_page_only(a: AppState, b: AppState)
    requires
        a.page == b.page,
    ensures
        page_content(a.page) == page_content(b.page),
        a.page == Page::Test ==> page_content(a.page) == PageContent::Image(
            crate::page::Asset::Ferris,
        ),
        a.page == Page::Settings ==> page_content(a.page) == PageContent::Empty,
{
}

} // verus!
