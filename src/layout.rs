use vstd::prelude::*;

verus! {

/// Initial width of the window, in logical pixels.
pub const WINDOW_WIDTH: u32 = 1920;
/// Initial height of the window, in logical pixels.
pub const WINDOW_HEIGHT: u32 = 1080;
/// The top bar is never lower than this.
pub const TOP_MIN_HEIGHT: u32 = 30;
/// The bottom bar is never lower than this.
pub const BOTTOM_MIN_HEIGHT: u32 = 0;
/// Width of the sidebar before the user drags it.
pub const SIDEBAR_DEFAULT_WIDTH: u32 = 150;
/// Narrowest the sidebar can be dragged.
pub const SIDEBAR_MIN_WIDTH: u32 = 80;
/// Widest the sidebar can be dragged.
pub const SIDEBAR_MAX_WIDTH: u32 = 200;
/// Widest the logo at the head of the sidebar is drawn.
pub const LOGO_MAX_WIDTH: u32 = 100;
/// Space above and below the logo in the sidebar.
pub const SIDEBAR_SPACING: u32 = 20;

/// The regions of the window, each claimed at most once per frame.
#[derive(Clone, Copy, Debug, PartialEq, Eq, Structural)]
pub enum Region {
    Top,
    Left,
    Bottom,
    Central,
}

/// The order in which regions are claimed: the sidebar only while it is shown.
pub open spec fn spec_claim_order(show_sidebar: bool) -> Seq<Region> {
    if show_sidebar {
        seq![Region::Top, Region::Left, Region::Bottom, Region::Central]
    } else {
        seq![Region::Top, Region::Bottom, Region::Central]
    }
}

/// The regions to claim this frame, first claimed first.
pub fn claim_order(show_sidebar: bool) -> (r: Vec<Region>)
    ensures
        r@ == spec_claim_order(show_sidebar),
{
    let mut r: Vec<Region> = Vec::new();
    r.push(Region::Top);
    if show_sidebar {
        r.push(Region::Left);
    }
    r.push(Region::Bottom);
    r.push(Region::Central);
    assert(r@ =~= spec_claim_order(show_sidebar));
    r
}

/// A rectangle of the window, in logical pixels from its top left corner.
#[derive(Clone, Copy, Debug, PartialEq, Eq, Structural)]
pub struct Rect {
    pub x: u32,
    pub y: u32,
    pub width: u32,
    pub height: u32,
}

/// What the regions ask for in a frame.
#[derive(Clone, Copy, Debug, PartialEq, Eq, Structural)]
pub struct FrameSizes {
    pub window_width: u32,
    pub window_height: u32,
    /// Height that the top bar's content needs.
    pub top_height: u32,
    /// Width that the user gave the sidebar.
    pub sidebar_width: u32,
    /// Height that the bottom bar's content needs.
    pub bottom_height: u32,
}

/// Where each region lies; `left` is absent while the sidebar is hidden.
#[derive(Clone, Copy, Debug, PartialEq, Eq, Structural)]
pub struct Layout {
    pub top: Rect,
    pub left: Option<Rect>,
    pub bottom: Rect,
    pub central: Rect,
}

pub open spec fn min_u32(a: u32, b: u32) -> u32 {
    if a <= b { a } else { b }
}

pub open spec fn max_u32(a: u32, b: u32) -> u32 {
    if a >= b { a } else { b }
}

/// A requested sidebar width brought into the allowed range.
pub open spec fn spec_clamp_sidebar_width(w: u32) -> u32 {
    if w < SIDEBAR_MIN_WIDTH {
        SIDEBAR_MIN_WIDTH
    } else if w > SIDEBAR_MAX_WIDTH {
        SIDEBAR_MAX_WIDTH
    } else {
        w
    }
}

/// Height of the top bar: its content, at least the minimum, at most the window.
pub open spec fn top_height_of(s: FrameSizes) -> u32 {
    min_u32(max_u32(s.top_height, TOP_MIN_HEIGHT), s.window_height)
}

/// Width of the sidebar: its clamped width, at most the window; none while hidden.
pub open spec fn left_width_of(s: FrameSizes, show_sidebar: bool) -> u32 {
    if show_sidebar {
        min_u32(spec_clamp_sidebar_width(s.sidebar_width), s.window_width)
    } else {
        0
    }
}

/// Height of the bottom bar: its content, at least the minimum, at most what the top
/// bar left.
pub open spec fn bottom_height_of(s: FrameSizes) -> u32 {
    min_u32(
        max_u32(s.bottom_height, BOTTOM_MIN_HEIGHT),
        (s.window_height - top_height_of(s)) as u32,
    )
}

/// The window partitioned by claiming, in order, a full-width top bar, the sidebar down
/// the left of what remains, a bottom bar right of the sidebar, and the rest for the
/// central region.
pub open spec fn spec_compose(s: FrameSizes, show_sidebar: bool) -> Layout {
    let th = top_height_of(s);
    let lw = left_width_of(s, show_sidebar);
    let bh = bottom_height_of(s);
    let below_top = (s.window_height - th) as u32;
    let right_of_left = (s.window_width - lw) as u32;
    Layout {
        top: Rect { x: 0, y: 0, width: s.window_width, height: th },
        left: if show_sidebar {
            Some(Rect { x: 0, y: th, width: lw, height: below_top })
        } else {
            None
        },
        bottom: Rect { x: lw, y: (s.window_height - bh) as u32, width: right_of_left, height: bh },
        central: Rect { x: lw, y: th, width: right_of_left, height: (below_top - bh) as u32 },
    }
}

/// Brings a requested sidebar width into the allowed range.
pub fn clamp_sidebar_width(w: u32) -> (r: u32)
    ensures
        r == spec_clamp_sidebar_width(w),
        SIDEBAR_MIN_WIDTH <= r <= SIDEBAR_MAX_WIDTH,
{
    if w < SIDEBAR_MIN_WIDTH {
        SIDEBAR_MIN_WIDTH
    } else if w > SIDEBAR_MAX_WIDTH {
        SIDEBAR_MAX_WIDTH
    } else {
        w
    }
}

/// Models how the GUI toolkit partitions the window among the regions of a frame, claimed
/// in order: each panel reserves its space, and the central region fills the rest.
pub fn compose(s: &FrameSizes, show_sidebar: bool) -> (r: Layout)
    ensures
        r == spec_compose(*s, show_sidebar),
{
    let wanted_top = if s.top_height >= TOP_MIN_HEIGHT { s.top_height } else { TOP_MIN_HEIGHT };
    let th = if wanted_top <= s.window_height { wanted_top } else { s.window_height };
    let lw = if show_sidebar {
        let cw = clamp_sidebar_width(s.sidebar_width);
        if cw <= s.window_width { cw } else { s.window_width }
    } else {
        0
    };
    let below_top = s.window_height - th;
    let wanted_bottom = if s.bottom_height >= BOTTOM_MIN_HEIGHT {
        s.bottom_height
    } else {
        BOTTOM_MIN_HEIGHT
    };
    let bh = if wanted_bottom <= below_top { wanted_bottom } else { below_top };
    let right_of_left = s.window_width - lw;
    let left = if show_sidebar {
        Some(Rect { x: 0, y: th, width: lw, height: below_top })
    } else {
        None
    };
    Layout {
        top: Rect { x: 0, y: 0, width: s.window_width, height: th },
        left,
        bottom: Rect { x: lw, y: s.window_height - bh, width: right_of_left, height: bh },
        central: Rect { x: lw, y: th, width: right_of_left, height: below_top - bh },
    }
}

/// The regions tile the window: top, central and bottom stack to its height, and the
/// sidebar (while shown) and the central region sit side by side across its width.
pub proof fn lemma_regions_tile_window(s: FrameSizes, show_sidebar: bool)
    ensures
        ({
            let l = spec_compose(s, show_sidebar);
            &&& l.top.height + l.central.height + l.bottom.height == s.window_height
            &&& l.central.y == l.top.height
            &&& l.bottom.y == l.central.y + l.central.height
            &&& l.central.x == l.bottom.x
            &&& l.central.width == l.bottom.width
            &&& show_sidebar ==> l.left.unwrap().width + l.central.width == s.window_width
            &&& !show_sidebar ==> l.central.width == s.window_width
        }),
{
}

/// Showing the sidebar narrows the central region by exactly the sidebar's width (its
/// clamped width, where the window is wide enough for it) and moves it right by as much;
/// the central region's height does not change.
pub proof fn lemma_sidebar_narrows_central(s: FrameSizes)
    ensures
        ({
            let hidden = spec_compose(s, false);
            let shown = spec_compose(s, true);
            &&& hidden.central.width == shown.central.width + shown.left.unwrap().width
            &&& shown.central.x == hidden.central.x + shown.left.unwrap().width
            &&& shown.central.height == hidden.central.height
            &&& shown.central.y == hidden.central.y
            &&& spec_clamp_sidebar_width(s.sidebar_width) <= s.window_width
                ==> shown.left.unwrap().width == spec_clamp_sidebar_width(s.sidebar_width)
        }),
{
}

/// What the top and bottom bars hold never moves nor narrows the central region; top-bar
/// content that fits within the bar's minimum height leaves the central region as it was.
pub proof fn lemma_bars_keep_central_width(s: FrameSizes, t: FrameSizes, show_sidebar: bool)
    requires
        s.window_width == t.window_width,
        s.window_height == t.window_height,
        s.sidebar_width == t.sidebar_width,
    ensures
        spec_compose(s, show_sidebar).central.x == spec_compose(t, show_sidebar).central.x,
        spec_compose(s, show_sidebar).central.width == spec_compose(t, show_sidebar).central.width,
        s.top_height <= TOP_MIN_HEIGHT && t.top_height <= TOP_MIN_HEIGHT && s.bottom_height
            == t.bottom_height ==> spec_compose(s, show_sidebar).central == spec_compose(
            t,
            show_sidebar,
        ).central,
{
}

} // verus!
