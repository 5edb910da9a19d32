//! The drawing manager and per-window drawing contexts.
//!
//! [`Draw`] owns the long-lived state of the drawing core: the facts about
//! the configured screens, the font registry, and the registry of windows
//! that have a rendering surface. [`DrawContext`] is a short-lived cursor
//! bound to one window for one render pass: it keeps the active font, the
//! active color and the coordinate origin, and records every drawing
//! primitive as a [`RenderOp`] for an unverified shell to execute against
//! the real rendering backend.

use vstd::prelude::*;

use crate::color::Color;
use crate::errors::{ContextError, FontError, ScreenError, TextError, WindowError};
use crate::protocol::{creation_requests, is_window_creation_plan, ScreenInfo, XRequest};
use crate::window_type::WindowType;

verus! {

/// A process-unique window handle assigned by the display server.
pub type WinId = u32;

/// A registered font selected into a context: the registered name together
/// with the point size to scale its description to.
#[derive(Debug)]
pub struct FontChoice {
    /// The name the font was registered under.
    pub name: String,
    /// The point size the font description is scaled to.
    pub point_size: i32,
}

/// The name and point size of an optional font choice, for contracts.
pub open spec fn font_view(f: Option<FontChoice>) -> Option<(Seq<char>, int)> {
    match f {
        None => None,
        Some(fc) => Some((fc.name@, fc.point_size as int)),
    }
}

/// One recorded drawing primitive, executed in order against the window's
/// surface by an unverified shell.
#[derive(Debug)]
pub enum RenderOp {
    /// Set the active source color for subsequent fills.
    SetColor {
        /// The color to select.
        color: Color,
    },
    /// Shift the surface's coordinate origin by `(dx, dy)` pixels.
    Translate {
        /// Horizontal shift in pixels.
        dx: i64,
        /// Vertical shift in pixels.
        dy: i64,
    },
    /// Draw and fill an axis-aligned rectangle with the active color.
    FillRectangle {
        /// Left edge relative to the current origin.
        x: i64,
        /// Top edge relative to the current origin.
        y: i64,
        /// Width in pixels.
        w: i64,
        /// Height in pixels.
        h: i64,
    },
    /// Render a measured, end-ellipsized text layout at the current origin,
    /// constrained to exactly the measured size.
    ShowText {
        /// The text content of the layout.
        text: String,
        /// The font the layout uses; the backend default when `None`.
        font: Option<FontChoice>,
        /// The measured layout width the layout is re-constrained to.
        width: usize,
        /// The measured layout height the layout is re-constrained to.
        height: usize,
    },
}

/// The mathematical value of one [`RenderOp`].
pub enum OpView {
    /// Set the active source color.
    SetColor {
        /// The color to select.
        color: Color,
    },
    /// Shift the coordinate origin.
    Translate {
        /// Horizontal shift in pixels.
        dx: int,
        /// Vertical shift in pixels.
        dy: int,
    },
    /// Fill an axis-aligned rectangle.
    FillRectangle {
        /// Left edge relative to the current origin.
        x: int,
        /// Top edge relative to the current origin.
        y: int,
        /// Width in pixels.
        w: int,
        /// Height in pixels.
        h: int,
    },
    /// Render a measured text layout.
    ShowText {
        /// The text content.
        text: Seq<char>,
        /// The font name and point size, or `None` for the default font.
        font: Option<(Seq<char>, int)>,
        /// The measured layout width.
        width: int,
        /// The measured layout height.
        height: int,
    },
}

impl View for RenderOp {
    type V = OpView;

    open spec fn view(&self) -> OpView {
        match self {
            RenderOp::SetColor { color } => OpView::SetColor { color: *color },
            RenderOp::Translate { dx, dy } => OpView::Translate {
                dx: *dx as int,
                dy: *dy as int,
            },
            RenderOp::FillRectangle { x, y, w, h } => OpView::FillRectangle {
                x: *x as int,
                y: *y as int,
                w: *w as int,
                h: *h as int,
            },
            RenderOp::ShowText { text, font, width, height } => OpView::ShowText {
                text: text@,
                font: font_view(*font),
                width: *width as int,
                height: *height as int,
            },
        }
    }
}

/// What the rendering backend is asked to lay out before a `text` call: the
/// content, the font to apply (the backend default when `None`), and
/// end-ellipsization, so overlong text is truncated with a trailing
/// ellipsis instead of wrapping or overflowing.
#[derive(Debug)]
pub struct LayoutRequest {
    /// The text content to lay out.
    pub text: String,
    /// The font to apply, or `None` for the backend default.
    pub font: Option<FontChoice>,
    /// Whether overlong text is truncated with a trailing ellipsis.
    pub ellipsize_end: bool,
}

/// The total extent of a text rendering: the measured layout size plus the
/// `(left, right, top, bottom)` padding around it.
pub open spec fn spec_text_extent(w: int, h: int, l: int, r: int, t: int, b: int) -> (int, int) {
    (w + l + r, h + t + b)
}

/// The layout size a backend measurement stands for: empty content has
/// zero size, whatever the backend reports for an empty layout (a text
/// engine typically reports its line height there).
pub open spec fn effective_layout_size(s: Seq<char>, sz: (usize, usize)) -> (int, int) {
    if s.len() == 0 {
        (0, 0)
    } else {
        (sz.0 as int, sz.1 as int)
    }
}

/// Rendering empty content costs exactly the padding: a zero-size layout
/// with padding `(l, r, t, b)` occupies `(l + r, t + b)`.
pub proof fn lemma_empty_text_extent(l: int, r: int, t: int, b: int)
    ensures
        spec_text_extent(0, 0, l, r, t, b) == (l + r, t + b),
{
}

/// With no padding, the reported extent is exactly the measured layout
/// size, so rendering visually matches the returned extent.
pub proof fn lemma_zero_padding_extent(w: int, h: int)
    ensures
        spec_text_extent(w, h, 0, 0, 0, 0) == (w, h),
{
}

/// A per-window drawing cursor, valid for one render pass.
///
/// It holds a snapshot of the owning [`Draw`]'s font registry taken when the
/// context was created, so later font registrations do not affect it.
pub struct DrawContext {
    /// The window this context renders to.
    pub window: WinId,
    /// The font registry snapshot taken at context creation.
    pub fonts: Vec<String>,
    /// The currently selected font, `None` until `font` succeeds.
    pub active_font: Option<FontChoice>,
    /// The currently selected color.
    pub active_color: Color,
    /// The surface origin's current horizontal translation in pixels.
    pub origin_x: i64,
    /// The surface origin's current vertical translation in pixels.
    pub origin_y: i64,
    /// The drawing primitives recorded so far, in issue order.
    pub ops: Vec<RenderOp>,
}

impl DrawContext {
    /// Whether `name` is in this context's font snapshot.
    pub open spec fn has_font(self, name: Seq<char>) -> bool {
        exists|i: int| 0 <= i < self.fonts@.len() && self.fonts@[i]@ == name
    }

    /// The recorded drawing primitives as mathematical values.
    pub open spec fn ops_view(self) -> Seq<OpView> {
        self.ops@.map_values(|op: RenderOp| op@)
    }

    /// Select a registered font at `point_size` points as the active font.
    ///
    /// Succeeds exactly for names in the context's snapshot of the font
    /// registry; an unregistered name leaves the context unchanged.
    pub fn font(&mut self, font_name: &str, point_size: i32) -> (r: Result<(), FontError>)
        ensures
            r is Ok <==> old(self).has_font(font_name@),
            r is Ok ==> font_view(final(self).active_font) == Some(
                (font_name@, point_size as int),
            ),
            r is Err ==> *final(self) == *old(self),
            final(self).window == old(self).window,
            final(self).fonts == old(self).fonts,
            final(self).active_color == old(self).active_color,
            final(self).origin_x == old(self).origin_x,
            final(self).origin_y == old(self).origin_y,
            final(self).ops == old(self).ops,
    {
        let owned: String = font_name.to_owned();
        let mut i: usize = 0;
        while i < self.fonts.len()
            invariant
                i <= self.fonts@.len(),
                forall|j: int| 0 <= j < i ==> self.fonts@[j]@ != font_name@,
                owned@ == font_name@,
                *self == *old(self),
            decreases self.fonts@.len() - i,
        {
            if self.fonts[i] == owned {
                self.active_font = Some(FontChoice { name: owned, point_size });
                return Ok(());
            }
            i += 1;
        }
        Err(FontError)
    }

    /// Select the color denoted by a `0xRRGGBB` value for subsequent
    /// drawing; there is no failure path.
    pub fn color(&mut self, color: u32)
        ensures
            final(self).active_color == Color::spec_from_hex(color),
            final(self).ops_view() == old(self).ops_view().push(
                OpView::SetColor { color: Color::spec_from_hex(color) },
            ),
            final(self).window == old(self).window,
            final(self).fonts == old(self).fonts,
            final(self).active_font == old(self).active_font,
            final(self).origin_x == old(self).origin_x,
            final(self).origin_y == old(self).origin_y,
    {
        let c = Color::new_from_hex(color);
        self.active_color = c;
        self.ops.push(RenderOp::SetColor { color: c });
        assert(self.ops_view() =~= old(self).ops_view().push(
            OpView::SetColor { color: Color::spec_from_hex(color) },
        ));
    }

    /// Shift the surface's coordinate origin by `(x, y)` pixels. The caller
    /// is responsible for the symmetric inverse shift if the origin must be
    /// restored.
    pub fn translate(&mut self, x: i64, y: i64)
        requires
            i64::MIN <= old(self).origin_x + x <= i64::MAX,
            i64::MIN <= old(self).origin_y + y <= i64::MAX,
        ensures
            final(self).origin_x == old(self).origin_x + x,
            final(self).origin_y == old(self).origin_y + y,
            final(self).ops_view() == old(self).ops_view().push(
                OpView::Translate { dx: x as int, dy: y as int },
            ),
            final(self).window == old(self).window,
            final(self).fonts == old(self).fonts,
            final(self).active_font == old(self).active_font,
            final(self).active_color == old(self).active_color,
    {
        self.origin_x = self.origin_x + x;
        self.origin_y = self.origin_y + y;
        self.ops.push(RenderOp::Translate { dx: x, dy: y });
        assert(self.ops_view() =~= old(self).ops_view().push(
            OpView::Translate { dx: x as int, dy: y as int },
        ));
    }

    /// Record a filled axis-aligned rectangle at `(x, y)` with size
    /// `(w, h)`, using the active color at execution time.
    pub fn rectangle(&mut self, x: i64, y: i64, w: i64, h: i64)
        ensures
            final(self).ops_view() == old(self).ops_view().push(
                OpView::FillRectangle { x: x as int, y: y as int, w: w as int, h: h as int },
            ),
            final(self).window == old(self).window,
            final(self).fonts == old(self).fonts,
            final(self).active_font == old(self).active_font,
            final(self).active_color == old(self).active_color,
            final(self).origin_x == old(self).origin_x,
            final(self).origin_y == old(self).origin_y,
    {
        self.ops.push(RenderOp::FillRectangle { x, y, w, h });
        assert(self.ops_view() =~= old(self).ops_view().push(
            OpView::FillRectangle { x: x as int, y: y as int, w: w as int, h: h as int },
        ));
    }

    /// What the backend is asked to lay out and measure for `s`: the text
    /// under the active font (or the backend default), end-ellipsized.
    pub fn layout_request(&self, s: &str) -> (req: LayoutRequest)
        ensures
            req.text@ == s@,
            font_view(req.font) == font_view(self.active_font),
            req.ellipsize_end,
    {
        let font: Option<FontChoice> = match &self.active_font {
            None => None,
            Some(fc) => Some(FontChoice { name: fc.name.clone(), point_size: fc.point_size }),
        };
        LayoutRequest { text: s.to_owned(), font, ellipsize_end: true }
    }

    /// Record the rendering of `s` and report the extent it occupies.
    ///
    /// `layout_size` is the backend's measurement of the layout requested
    /// through [`DrawContext::layout_request`] for `s`, or `None` when the
    /// backend could not create a layout object — the only failure, which
    /// leaves the context unchanged. Empty content has zero size, whatever
    /// the backend reports for an empty layout, so `text("", padding)`
    /// occupies exactly the padding sums.
    ///
    /// On success the context records a shift of the origin by the left and
    /// top padding, the rendering of the layout re-constrained to exactly
    /// its measured size, and the symmetric inverse shift, so the origin
    /// ends where it began; the reported extent is the measured size plus
    /// the padding, the contract callers use to lay out adjacent segments
    /// without re-measuring.
    pub fn text(
        &mut self,
        s: &str,
        layout_size: Option<(usize, usize)>,
        padding: (usize, usize, usize, usize),
    ) -> (r: Result<(usize, usize), TextError>)
        requires
            padding.0 as int <= i64::MAX as int,
            padding.2 as int <= i64::MAX as int,
            old(self).origin_x + padding.0 as int <= i64::MAX as int,
            old(self).origin_y + padding.2 as int <= i64::MAX as int,
            padding.0 + padding.1 <= usize::MAX,
            padding.2 + padding.3 <= usize::MAX,
            s@.len() > 0 ==> (layout_size matches Some(sz) ==> sz.0 + padding.0 + padding.1
                <= usize::MAX && sz.1 + padding.2 + padding.3 <= usize::MAX),
        ensures
            match r {
                Ok(extent) => {
                    &&& layout_size matches Some(sz) && (extent.0 as int, extent.1 as int)
                        == spec_text_extent(
                        effective_layout_size(s@, sz).0,
                        effective_layout_size(s@, sz).1,
                        padding.0 as int,
                        padding.1 as int,
                        padding.2 as int,
                        padding.3 as int,
                    )
                    &&& s@.len() == 0 ==> extent.0 == padding.0 + padding.1 && extent.1
                        == padding.2 + padding.3
                    &&& layout_size matches Some(sz) && final(self).ops_view() == old(
                        self,
                    ).ops_view() + seq![
                        OpView::Translate { dx: padding.0 as int, dy: padding.2 as int },
                        OpView::ShowText {
                            text: s@,
                            font: font_view(old(self).active_font),
                            width: effective_layout_size(s@, sz).0,
                            height: effective_layout_size(s@, sz).1,
                        },
                        OpView::Translate { dx: -(padding.0 as int), dy: -(padding.2 as int) },
                    ]
                },
                Err(_) => layout_size is None && *final(self) == *old(self),
            },
            r is Ok <==> layout_size is Some,
            final(self).origin_x == old(self).origin_x,
            final(self).origin_y == old(self).origin_y,
            final(self).window == old(self).window,
            final(self).fonts == old(self).fonts,
            final(self).active_font == old(self).active_font,
            final(self).active_color == old(self).active_color,
    {
        let (w, h) = match layout_size {
            None => {
                return Err(TextError);
            },
            Some(sz) => sz,
        };
        let (w, h): (usize, usize) = if s.is_empty() {
            (0, 0)
        } else {
            (w, h)
        };
        let (l, r, t, b) = padding;
        let lx = l as i64;
        let ty = t as i64;
        self.translate(lx, ty);
        let font: Option<FontChoice> = match &self.active_font {
            None => None,
            Some(fc) => Some(FontChoice { name: fc.name.clone(), point_size: fc.point_size }),
        };
        let shown = RenderOp::ShowText { text: s.to_owned(), font, width: w, height: h };
        self.ops.push(shown);
        let ghost v2 = self.ops_view();
        assert(v2 =~= old(self).ops_view().push(
            OpView::Translate { dx: l as int, dy: t as int },
        ).push(
            OpView::ShowText {
                text: s@,
                font: font_view(old(self).active_font),
                width: w as int,
                height: h as int,
            },
        ));
        self.translate(-lx, -ty);
        assert(self.ops_view() =~= old(self).ops_view() + seq![
            OpView::Translate { dx: l as int, dy: t as int },
            OpView::ShowText {
                text: s@,
                font: font_view(old(self).active_font),
                width: w as int,
                height: h as int,
            },
            OpView::Translate { dx: -(l as int), dy: -(t as int) },
        ]);
        Ok((w + l + r, h + t + b))
    }
}

/// The long-lived drawing manager: the configured screens as read at
/// connection time, the font registry, and the set of windows with a bound
/// rendering surface.
pub struct Draw {
    /// The configured screens, in server order.
    pub screens: Vec<ScreenInfo>,
    /// The registered font names; registration is keyed by the name the
    /// description is parsed from, so the name stands for the entry.
    pub fonts: Vec<String>,
    /// The ids of windows created through this manager, each with a bound
    /// rendering surface.
    pub windows: Vec<WinId>,
}

impl Draw {
    /// Every configured screen reports a positive pixel size.
    pub open spec fn wf(self) -> bool {
        forall|i: int|
            0 <= i < self.screens@.len() ==> self.screens@[i].width_px > 0
                && self.screens@[i].height_px > 0
    }

    /// Whether `name` is currently registered.
    pub open spec fn has_font(self, name: Seq<char>) -> bool {
        exists|i: int| 0 <= i < self.fonts@.len() && self.fonts@[i]@ == name
    }

    /// Whether `id` was recorded as a window with a bound surface.
    pub open spec fn has_window(self, id: WinId) -> bool {
        self.windows@.contains(id)
    }

    /// A fresh manager over the screens the display connection reports,
    /// with empty font and surface registries.
    ///
    /// Requires positive screen sizes, which a display server guarantees of
    /// its configured screens.
    pub fn new(screens: Vec<ScreenInfo>) -> (d: Draw)
        requires
            forall|i: int|
                0 <= i < screens@.len() ==> screens@[i].width_px > 0 && screens@[i].height_px > 0,
        ensures
            d.wf(),
            d.screens@ == screens@,
            forall|n: Seq<char>| !d.has_font(n),
            forall|id: WinId| !d.has_window(id),
    {
        Draw { screens, fonts: Vec::new(), windows: Vec::new() }
    }

    /// The pixel size of the screen at `ix`: positive width and height for
    /// an index within the configured screens, [`ScreenError`] exactly when
    /// `ix` is out of range.
    pub fn screen_size(&self, ix: usize) -> (r: Result<(usize, usize), ScreenError>)
        requires
            self.wf(),
        ensures
            match r {
                Ok(sz) => ix < self.screens@.len() && sz.0 == self.screens@[ix as int].width_px
                    && sz.1 == self.screens@[ix as int].height_px && sz.0 > 0 && sz.1 > 0,
                Err(_) => ix >= self.screens@.len(),
            },
    {
        if ix < self.screens.len() {
            let s = self.screens[ix];
            Ok((s.width_px as usize, s.height_px as usize))
        } else {
            Err(ScreenError)
        }
    }

    /// Register `font_name` in the font registry, keyed by the name its
    /// description is parsed from. Re-registering a name overwrites its
    /// entry; there is no failure path — a malformed description surfaces
    /// only when a context later selects it.
    pub fn register_font(&mut self, font_name: &str)
        ensures
            final(self).has_font(font_name@),
            forall|n: Seq<char>|
                n != font_name@ ==> (final(self).has_font(n) <==> old(self).has_font(n)),
            final(self).screens == old(self).screens,
            final(self).windows == old(self).windows,
            final(self).wf() == old(self).wf(),
    {
        let owned: String = font_name.to_owned();
        let mut i: usize = 0;
        while i < self.fonts.len()
            invariant
                i <= self.fonts@.len(),
                owned@ == font_name@,
                *self == *old(self),
            decreases self.fonts@.len() - i,
        {
            if self.fonts[i] == owned {
                assert(old(self).has_font(font_name@));
                return ;
            }
            i += 1;
        }
        self.fonts.push(owned);
        assert(self.fonts@[self.fonts@.len() - 1]@ == font_name@);
        assert forall|n: Seq<char>| n != font_name@ implies (self.has_font(n) <==> old(
            self,
        ).has_font(n)) by {
            if self.has_font(n) {
                let i = choose|i: int| 0 <= i < self.fonts@.len() && self.fonts@[i]@ == n;
                assert(i < self.fonts@.len() - 1);
                assert(old(self).fonts@[i]@ == n);
            }
            if old(self).has_font(n) {
                let i = choose|i: int|
                    0 <= i < old(self).fonts@.len() && old(self).fonts@[i]@ == n;
                assert(self.fonts@[i]@ == n);
            }
        }
    }

    /// Plan the creation of a new window of type `t` with size
    /// `(width, height)` under the server-assigned id `id`, against the
    /// first configured screen. Fails exactly when no screen is configured.
    ///
    /// Together with [`Draw::record_window`] this is window creation: the
    /// caller executes the plan, binds a surface to the window, and then
    /// records the id.
    pub fn prepare_window(&self, t: &WindowType, id: WinId, width: u16, height: u16) -> (r: Result<
        Vec<XRequest>,
        WindowError,
    >)
        ensures
            match r {
                Ok(reqs) => self.screens@.len() > 0 && is_window_creation_plan(
                    reqs@,
                    self.screens@[0],
                    *t,
                    id,
                    width,
                    height,
                ),
                Err(_) => self.screens@.len() == 0,
            },
    {
        if self.screens.len() == 0 {
            return Err(WindowError);
        }
        let screen = self.screens[0];
        Ok(creation_requests(&screen, t, id, width, height))
    }

    /// Record that window `id` was created and a rendering surface bound to
    /// it; [`Draw::context_for`] succeeds for it from now on. Entries are
    /// never removed: surfaces live as long as the manager.
    pub fn record_window(&mut self, id: WinId)
        ensures
            final(self).has_window(id),
            forall|w: WinId| w != id ==> (final(self).has_window(w) <==> old(self).has_window(w)),
            final(self).screens == old(self).screens,
            final(self).fonts == old(self).fonts,
            final(self).wf() == old(self).wf(),
    {
        self.windows.push(id);
        assert(self.windows@ == old(self).windows@.push(id));
        assert(self.windows@[self.windows@.len() - 1] == id);
        assert forall|w: WinId| w != id implies (self.has_window(w) <==> old(self).has_window(
            w,
        )) by {
            if self.has_window(w) {
                let i = choose|i: int| 0 <= i < self.windows@.len() && self.windows@[i] == w;
                assert(i < self.windows@.len() - 1);
                assert(old(self).windows@[i] == w);
            }
            if old(self).has_window(w) {
                let i = choose|i: int|
                    0 <= i < old(self).windows@.len() && old(self).windows@[i] == w;
                assert(self.windows@[i] == w);
            }
        }
    }

    /// A fresh drawing context for window `id`: bound to its surface, with
    /// no active font and a snapshot of the current font registry. Fails
    /// with [`ContextError`] exactly when `id` has no recorded surface.
    pub fn context_for(&self, id: WinId) -> (r: Result<DrawContext, ContextError>)
        ensures
            r is Ok <==> self.has_window(id),
            match r {
                Ok(ctx) => {
                    &&& ctx.window == id
                    &&& ctx.fonts@ == self.fonts@
                    &&& forall|n: Seq<char>| ctx.has_font(n) <==> self.has_font(n)
                    &&& ctx.active_font is None
                    &&& ctx.active_color == Color::spec_from_hex(0)
                    &&& ctx.origin_x == 0
                    &&& ctx.origin_y == 0
                    &&& ctx.ops_view() == Seq::<OpView>::empty()
                },
                Err(_) => !self.has_window(id),
            },
    {
        let mut found: bool = false;
        let mut i: usize = 0;
        while i < self.windows.len()
            invariant
                i <= self.windows@.len(),
                found <==> exists|j: int| 0 <= j < i && self.windows@[j] == id,
            decreases self.windows@.len() - i,
        {
            if self.windows[i] == id {
                found = true;
            }
            i += 1;
        }
        if !found {
            return Err(ContextError);
        }
        let mut snapshot: Vec<String> = Vec::new();
        let mut k: usize = 0;
        while k < self.fonts.len()
            invariant
                k <= self.fonts@.len(),
                snapshot@.len() == k,
                forall|j: int| 0 <= j < k ==> snapshot@[j] == self.fonts@[j],
            decreases self.fonts@.len() - k,
        {
            snapshot.push(self.fonts[k].clone());
            k += 1;
        }
        assert(snapshot@ =~= self.fonts@);
        let ctx = DrawContext {
            window: id,
            fonts: snapshot,
            active_font: None,
            active_color: Color::new_from_hex(0),
            origin_x: 0,
            origin_y: 0,
            ops: Vec::new(),
        };
        assert(ctx.ops_view() =~= Seq::<OpView>::empty());
        Ok(ctx)
    }
}

/// Snapshot isolation of font registries: a context whose snapshot was
/// taken from a registry state `before` is unaffected by a later
/// registration that turned `before` into `after` — the added name is
/// absent from the context, and every other name is in the context exactly
/// as it is in `after`.
pub proof fn lemma_snapshot_isolation(
    ctx: DrawContext,
    before: Draw,
    after: Draw,
    added: Seq<char>,
)
    requires
        forall|m: Seq<char>| ctx.has_font(m) <==> before.has_font(m),
        after.has_font(added),
        forall|m: Seq<char>| m != added ==> (after.has_font(m) <==> before.has_font(m)),
        !before.has_font(added),
    ensures
        !ctx.has_font(added),
        forall|m: Seq<char>| m != added ==> (ctx.has_font(m) <==> after.has_font(m)),
{
}

} // verus!
