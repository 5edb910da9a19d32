//! EWMH window types and their protocol-level string identifiers.

use vstd::prelude::*;

verus! {

/// An EWMH window type, advertised to the compositor at window creation so
/// it can make placement and decoration decisions.
#[derive(Clone, Copy, Debug, PartialEq, Eq, Structural)]
pub enum WindowType {
    /// A dock / status bar
    Dock,
    /// A menu
    Menu,
    /// A normal window
    Normal,
}

impl WindowType {
    /// The `_NET_WM_WINDOW_TYPE` property value this window type denotes.
    pub open spec fn spec_ewmh_str(self) -> Seq<char> {
        match self {
            WindowType::Dock => "_NET_WM_WINDOW_TYPE_DOCK"@,
            WindowType::Menu => "_NET_WM_WINDOW_TYPE_MENU"@,
            WindowType::Normal => "_NET_WM_WINDOW_TYPE_NORMAL"@,
        }
    }

    /// The `_NET_WM_WINDOW_TYPE` property value to advertise for this type.
    pub fn as_ewmh_str(&self) -> (r: &'static str)
        ensures
            r@ == self.spec_ewmh_str(),
    {
        match self {
            WindowType::Dock => "_NET_WM_WINDOW_TYPE_DOCK",
            WindowType::Menu => "_NET_WM_WINDOW_TYPE_MENU",
            WindowType::Normal => "_NET_WM_WINDOW_TYPE_NORMAL",
        }
    }
}

/// The mapping from window types to EWMH strings is a bijection onto its
/// range: two window types map to the same string exactly when they are the
/// same type.
pub proof fn lemma_ewmh_str_injective(a: WindowType, b: WindowType)
    ensures
        a.spec_ewmh_str() == b.spec_ewmh_str() <==> a == b,
{
    reveal_strlit("_NET_WM_WINDOW_TYPE_DOCK");
    reveal_strlit("_NET_WM_WINDOW_TYPE_MENU");
    reveal_strlit("_NET_WM_WINDOW_TYPE_NORMAL");
    let dock = "_NET_WM_WINDOW_TYPE_DOCK"@;
    let menu = "_NET_WM_WINDOW_TYPE_MENU"@;
    let normal = "_NET_WM_WINDOW_TYPE_NORMAL"@;
    assert(dock[20] != menu[20]);
    assert(dock.len() != normal.len());
    assert(menu.len() != normal.len());
}

} // verus!
