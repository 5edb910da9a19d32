//! The window-creation protocol: the exact sequence of display-server
//! requests that creates, tags and maps a new window.
//!
//! The core plans the protocol as plain data; an unverified shell translates
//! each [`XRequest`] into the concrete wire call. Planning here pins down the
//! part that matters for correctness: which requests are issued, with which
//! arguments, and in which order (the window-type property must be set
//! before the map request so the compositor sees the hint when it places the
//! window).

use vstd::prelude::*;

use crate::errors::WindowError;
use crate::window_type::WindowType;

verus! {

/// The facts about one configured screen that window creation reads: the
/// root window to parent against, the root visual to bind surfaces with, the
/// black pixel for the window background, and the size in pixels.
#[derive(Clone, Copy, Debug, PartialEq, Eq, Structural)]
pub struct ScreenInfo {
    /// The screen's root window id.
    pub root: u32,
    /// The id of the screen's root visual type.
    pub root_visual: u32,
    /// The screen's black pixel value.
    pub black_pixel: u32,
    /// Screen width in pixels.
    pub width_px: u16,
    /// Screen height in pixels.
    pub height_px: u16,
}

/// One display-server request of the window-creation protocol.
#[derive(Debug, PartialEq, Eq)]
pub enum XRequest {
    /// Create an input/output window against a screen's root window,
    /// inheriting the parent's depth and visual, with exposure-event
    /// delivery requested and the background set to the screen's black
    /// pixel.
    CreateWindow {
        /// The id the new window is created under.
        id: u32,
        /// The parent window (the screen's root).
        parent: u32,
        /// Horizontal position relative to the parent.
        x: i16,
        /// Vertical position relative to the parent.
        y: i16,
        /// Requested width in pixels.
        width: u16,
        /// Requested height in pixels.
        height: u16,
        /// Border width in pixels.
        border_width: u16,
        /// Background pixel value.
        background_pixel: u32,
        /// Whether exposure events are requested.
        exposure_events: bool,
    },
    /// Replace a string property on a window; the property and type names
    /// are interned by the executor.
    ChangeProperty {
        /// The window whose property is replaced.
        window: u32,
        /// The property name to intern and set.
        property: String,
        /// The name of the property's type atom.
        property_type: String,
        /// The property value.
        value: String,
    },
    /// Make a window visible.
    MapWindow {
        /// The window to map.
        id: u32,
    },
    /// Flush buffered requests to the server.
    Flush,
}

/// `reqs` is exactly the creation protocol for window `id` of type `t` with
/// the given size on `screen`: create, set the window-type hint, map, flush.
pub open spec fn is_window_creation_plan(
    reqs: Seq<XRequest>,
    screen: ScreenInfo,
    t: WindowType,
    id: u32,
    width: u16,
    height: u16,
) -> bool {
    &&& reqs.len() == 4
    &&& (reqs[0] matches XRequest::CreateWindow {
        id: wid,
        parent,
        x,
        y,
        width: w,
        height: h,
        border_width,
        background_pixel,
        exposure_events,
    } && wid == id && parent == screen.root && x == 0 && y == 0 && w == width && h == height
        && border_width == 0 && background_pixel == screen.black_pixel && exposure_events)
    &&& (reqs[1] matches XRequest::ChangeProperty { window, property, property_type, value }
        && window == id && property@ == "_NET_WM_WINDOW_TYPE"@ && property_type@
        == "UTF8_STRING"@ && value@ == t.spec_ewmh_str())
    &&& (reqs[2] matches XRequest::MapWindow { id: mid } && mid == id)
    &&& reqs[3] is Flush
}

/// Plan the creation of window `id` of type `t` on `screen`.
pub fn creation_requests(
    screen: &ScreenInfo,
    t: &WindowType,
    id: u32,
    width: u16,
    height: u16,
) -> (reqs: Vec<XRequest>)
    ensures
        is_window_creation_plan(reqs@, *screen, *t, id, width, height),
{
    let mut reqs: Vec<XRequest> = Vec::new();
    reqs.push(
        XRequest::CreateWindow {
            id,
            parent: screen.root,
            x: 0,
            y: 0,
            width,
            height,
            border_width: 0,
            background_pixel: screen.black_pixel,
            exposure_events: true,
        },
    );
    reqs.push(
        XRequest::ChangeProperty {
            window: id,
            property: "_NET_WM_WINDOW_TYPE".to_owned(),
            property_type: "UTF8_STRING".to_owned(),
            value: t.as_ewmh_str().to_owned(),
        },
    );
    reqs.push(XRequest::MapWindow { id });
    reqs.push(XRequest::Flush);
    reqs
}

/// In a window-creation plan, every property change is issued before every
/// map request, so the compositor sees the window-type hint no later than
/// the window becomes visible.
pub proof fn lemma_property_precedes_map(
    reqs: Seq<XRequest>,
    screen: ScreenInfo,
    t: WindowType,
    id: u32,
    width: u16,
    height: u16,
)
    requires
        is_window_creation_plan(reqs, screen, t, id, width, height),
    ensures
        forall|i: int, j: int|
            0 <= i < reqs.len() && 0 <= j < reqs.len() && (reqs[i] is ChangeProperty) && (reqs[j]
                is MapWindow) ==> i < j,
{
    assert forall|i: int, j: int|
        0 <= i < reqs.len() && 0 <= j < reqs.len() && (reqs[i] is ChangeProperty) && (reqs[j]
            is MapWindow) implies i < j by {
        assert(i == 1);
        assert(j == 2);
    }
}

/// The position of the visual type matching a screen's root visual among the
/// visual ids the connection advertises (flattened in advertisement order),
/// or a [`WindowError`] when no visual matches and no surface can be bound.
pub fn visual_for_root(visual_ids: &Vec<u32>, root_visual: u32) -> (r: Result<usize, WindowError>)
    ensures
        match r {
            Ok(i) => i < visual_ids@.len() && visual_ids@[i as int] == root_visual && forall|j: int|
                0 <= j < i ==> visual_ids@[j] != root_visual,
            Err(_) => !visual_ids@.contains(root_visual),
        },
{
    let mut i: usize = 0;
    while i < visual_ids.len()
        invariant
            i <= visual_ids@.len(),
            forall|j: int| 0 <= j < i ==> visual_ids@[j] != root_visual,
        decreases visual_ids@.len() - i,
    {
        if visual_ids[i] == root_visual {
            return Ok(i);
        }
        i += 1;
    }
    assert(forall|j: int| 0 <= j < visual_ids@.len() ==> visual_ids@[j] != root_visual);
    Err(WindowError)
}

} // verus!
