use vstd::prelude::*;

verus! {

/// Pixel sizes of the context menu. The menu's position comes from the
/// pointer and is not part of these.
#[derive(Clone, Copy, Debug, PartialEq, Eq, Structural)]
pub struct MenuLayout {
    /// Width of the whole menu.
    pub menu_width: u32,
    /// Padding on every side of the menu, around its options.
    pub menu_padding: u32,
    /// Padding on every side of an option, around its label.
    pub option_padding: u32,
    /// Font size of an option's label.
    pub label_font_size: u32,
}

/// The layout that every context menu uses.
pub fn menu_layout() -> (r: MenuLayout)
    ensures
        r == (MenuLayout { menu_width: 300, menu_padding: 3, option_padding: 5, label_font_size: 12 }),
{
    MenuLayout { menu_width: 300, menu_padding: 3, option_padding: 5, label_font_size: 12 }
}

/// The pointer entering or leaving a menu option.
#[derive(Clone, Copy, Debug, PartialEq, Eq, Structural)]
pub enum PointerMove {
    Over,
    Out,
}

/// The shape of the window's mouse cursor.
#[derive(Clone, Copy, Debug, PartialEq, Eq, Structural)]
pub enum CursorShape {
    /// The pointing hand, shown over something clickable.
    Pointer,
    /// The system's usual arrow.
    Standard,
}

/// How a menu option and the cursor look after a pointer move.
#[derive(Clone, Copy, Debug, PartialEq, Eq, Structural)]
pub struct OptionFeedback {
    /// Whether the option shows the theme's hover background; otherwise its
    /// background is transparent.
    pub highlighted: bool,
    pub cursor: CursorShape,
}

/// The feedback for `m`: an option under the pointer is highlighted and
/// shows the pointing hand; one that the pointer leaves is cleared and
/// brings back the usual arrow.
pub open spec fn feedback_for(m: PointerMove) -> OptionFeedback {
    match m {
        PointerMove::Over => OptionFeedback { highlighted: true, cursor: CursorShape::Pointer },
        PointerMove::Out => OptionFeedback { highlighted: false, cursor: CursorShape::Standard },
    }
}

/// Decides how an option and the cursor react to the pointer.
pub fn option_feedback(m: PointerMove) -> (r: OptionFeedback)
    ensures
        r == feedback_for(m),
{
    match m {
        PointerMove::Over => OptionFeedback { highlighted: true, cursor: CursorShape::Pointer },
        PointerMove::Out => OptionFeedback { highlighted: false, cursor: CursorShape::Standard },
    }
}

/// What a click on a menu option does: the menu whose root is `despawn`
/// goes away, with all that it holds, and the option's callback runs on
/// `target`, the entity that the menu was opened for.
pub struct OptionClick<E> {
    pub despawn: E,
    pub target: E,
}

/// Handles a click on a menu option. `ancestors` lists the option's
/// ancestors from its parent up to the top of the hierarchy, which is the
/// menu's root. An option without ancestors belongs to no menu, and the
/// click does nothing.
pub fn on_option_click<E: Copy>(ancestors: &Vec<E>, target: E) -> (r: Option<OptionClick<E>>)
    ensures
        r is None <==> ancestors@.len() == 0,
        r is Some ==> r->0.despawn == ancestors@.last() && r->0.target == target,
{
    let n = ancestors.len();
    if n == 0 {
        None
    } else {
        let root = ancestors[n - 1];
        Some(OptionClick { despawn: root, target })
    }
}

} // verus!
