use vstd::prelude::*;

verus! {

/// The pages that the navigation controls can select.
#[derive(Clone, Copy, Debug, PartialEq, Eq, Structural)]
pub enum Page {
    Test,
    Settings,
}

/// The images that the shell shows.
#[derive(Clone, Copy, Debug, PartialEq, Eq, Structural)]
pub enum Asset {
    /// The picture shown on the test page.
    Ferris,
    /// The logo at the head of the sidebar.
    Logo,
}

/// What the central region shows for a page.
#[derive(Clone, Copy, Debug, PartialEq, Eq, Structural)]
pub enum PageContent {
    Image(Asset),
    Empty,
}

/// The content of each page: the test page shows one picture, the settings page nothing.
pub open spec fn page_content(page: Page) -> PageContent {
    match page {
        Page::Test => PageContent::Image(Asset::Ferris),
        Page::Settings => PageContent::Empty,
    }
}

/// Decides what the central region renders for `page`.
pub fn render(page: Page) -> (r: PageContent)
    ensures
        r == page_content(page),
{
    match page {
        Page::Test => PageContent::Image(Asset::Ferris),
        Page::Settings => PageContent::Empty,
    }
}

/// A navigation control of the sidebar: its caption and the page it selects.
#[derive(Clone, Copy, Debug)]
pub struct NavButton {
    pub label: &'static str,
    pub page: Page,
}

/// The navigation controls, one per page, in the order they are listed.
pub fn nav_buttons() -> (r: Vec<NavButton>)
    ensures
        r@.len() == 2,
        r@[0].page == Page::Test,
        r@[0].label@ == "测试"@,
        r@[1].page == Page::Settings,
        r@[1].label@ == "设置"@,
{
    vec![
        NavButton { label: "测试", page: Page::Test },
        NavButton { label: "设置", page: Page::Settings },
    ]
}

} // verus!
