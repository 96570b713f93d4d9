//! The declarative main-menu tree: a full-window container holding an
//! auto-sized inner container, holding one "Start Game" button, holding a
//! text label.
//!
//! Colors and lengths are plain integer values; the host runtime translates
//! them into its own units when it draws the tree.

use vstd::prelude::*;

use crate::dispatch::{ButtonColor, ButtonId};

verus! {

/// A color, each channel in thousandths of full intensity.
#[derive(Clone, Copy, Debug, PartialEq, Eq, Structural)]
pub struct Rgb {
    pub r: u16,
    pub g: u16,
    pub b: u16,
}

impl Rgb {
    /// No channel exceeds full intensity.
    pub open spec fn wf(self) -> bool {
        self.r <= 1000 && self.g <= 1000 && self.b <= 1000
    }
}

/// The base (idle) button color: a dark gray.
pub open spec fn base_color() -> Rgb {
    Rgb { r: 150, g: 150, b: 150 }
}

/// The highlight (hovered) button color: a lighter gray.
pub open spec fn highlight_color() -> Rgb {
    Rgb { r: 250, g: 250, b: 250 }
}

/// The accent (pressed) button color: green.
pub open spec fn accent_color() -> Rgb {
    Rgb { r: 350, g: 750, b: 350 }
}

/// The window background color.
pub open spec fn window_background() -> Rgb {
    Rgb { r: 100, g: 100, b: 100 }
}

/// The label text color: white.
pub open spec fn text_color() -> Rgb {
    Rgb { r: 1000, g: 1000, b: 1000 }
}

/// The concrete channel values each symbolic button color is drawn with.
pub open spec fn rgb_of(c: ButtonColor) -> Rgb {
    match c {
        ButtonColor::Base => base_color(),
        ButtonColor::Highlight => highlight_color(),
        ButtonColor::Accent => accent_color(),
    }
}

/// The channel values to draw a symbolic button color with.
pub fn color_value(c: ButtonColor) -> (v: Rgb)
    ensures
        v == rgb_of(c),
        v.wf(),
{
    match c {
        ButtonColor::Base => Rgb { r: 150, g: 150, b: 150 },
        ButtonColor::Highlight => Rgb { r: 250, g: 250, b: 250 },
        ButtonColor::Accent => Rgb { r: 350, g: 750, b: 350 },
    }
}

/// A length in the layout: left unset, automatic, in pixels, or as a percent
/// of the parent.
#[derive(Clone, Copy, Debug, PartialEq, Eq, Structural)]
pub enum Dim {
    Unset,
    Auto,
    Px(u32),
    Percent(u32),
}

/// The four edge lengths of a margin or a padding.
#[derive(Clone, Copy, Debug, PartialEq, Eq, Structural)]
pub struct Edges {
    pub left: Dim,
    pub right: Dim,
    pub top: Dim,
    pub bottom: Dim,
}

impl Edges {
    /// The same length on all four edges.
    pub fn all(v: Dim) -> (e: Edges)
        ensures
            e == (Edges { left: v, right: v, top: v, bottom: v }),
    {
        Edges { left: v, right: v, top: v, bottom: v }
    }

    /// `v` on the left and right edges, the vertical edges unset.
    pub fn horizontal(v: Dim) -> (e: Edges)
        ensures
            e == (Edges { left: v, right: v, top: Dim::Unset, bottom: Dim::Unset }),
    {
        Edges { left: v, right: v, top: Dim::Unset, bottom: Dim::Unset }
    }

    /// `v` on the top and bottom edges, the horizontal edges unset.
    pub fn vertical(v: Dim) -> (e: Edges)
        ensures
            e == (Edges { left: Dim::Unset, right: Dim::Unset, top: v, bottom: v }),
    {
        Edges { left: Dim::Unset, right: Dim::Unset, top: v, bottom: v }
    }
}

/// The direction a flex container stacks its children in.
#[derive(Clone, Copy, Debug, PartialEq, Eq, Structural)]
pub enum FlexDir {
    Row,
    Column,
}

/// How a node lays out: stacking direction, whether its content is centered,
/// its size, and its margin and padding.
#[derive(Clone, Copy, Debug, PartialEq, Eq, Structural)]
pub struct LayoutStyle {
    pub direction: FlexDir,
    pub centered: bool,
    pub width: Dim,
    pub height: Dim,
    pub margin: Edges,
    pub padding: Edges,
}

/// Layout of the full-window root container: a centered column filling the
/// window, padded ten pixels all around.
pub open spec fn root_style() -> LayoutStyle {
    LayoutStyle {
        direction: FlexDir::Column,
        centered: true,
        width: Dim::Percent(100),
        height: Dim::Percent(100),
        margin: Edges { left: Dim::Auto, right: Dim::Auto, top: Dim::Auto, bottom: Dim::Auto },
        padding: Edges { left: Dim::Px(10), right: Dim::Px(10), top: Dim::Px(10), bottom: Dim::Px(10) },
    }
}

/// Layout of the auto-sized inner container: a centered column.
pub open spec fn inner_style() -> LayoutStyle {
    LayoutStyle {
        direction: FlexDir::Column,
        centered: true,
        width: Dim::Auto,
        height: Dim::Auto,
        margin: Edges { left: Dim::Auto, right: Dim::Auto, top: Dim::Auto, bottom: Dim::Auto },
        padding: Edges { left: Dim::Unset, right: Dim::Unset, top: Dim::Unset, bottom: Dim::Unset },
    }
}

/// Layout of the button: a fixed 250 by 65 pixel centered column, with a
/// small horizontal padding and vertical margin.
pub open spec fn button_style() -> LayoutStyle {
    LayoutStyle {
        direction: FlexDir::Column,
        centered: true,
        width: Dim::Px(250),
        height: Dim::Px(65),
        margin: Edges { left: Dim::Unset, right: Dim::Unset, top: Dim::Px(4), bottom: Dim::Px(4) },
        padding: Edges { left: Dim::Px(12), right: Dim::Px(12), top: Dim::Unset, bottom: Dim::Unset },
    }
}

/// The button's text label.
#[derive(Clone, Copy, Debug, PartialEq, Eq)]
pub struct Label {
    pub text: &'static str,
    pub font: &'static str,
    pub font_size: u32,
    pub color: Rgb,
}

/// The interactive element of the menu: an identity-tagged button holding
/// its label.
#[derive(Clone, Copy, Debug, PartialEq, Eq)]
pub struct MenuButton {
    pub id: ButtonId,
    pub style: LayoutStyle,
    pub color: ButtonColor,
    pub label: Label,
}

/// A plain container node, optionally with a background color of its own.
#[derive(Clone, Copy, Debug, PartialEq, Eq)]
pub struct Panel {
    pub style: LayoutStyle,
    pub background: Option<Rgb>,
}

/// The whole menu tree. The full-window root panel contains the auto-sized
/// inner panel, which contains the button, which contains its label.
#[derive(Clone, Copy, Debug, PartialEq, Eq)]
pub struct MainMenu {
    pub root: Panel,
    pub inner: Panel,
    pub button: MenuButton,
}

impl MainMenu {
    /// The menu tree exactly as the builder produces it: the fixed layout,
    /// the window background, and one "Start Game" button, idle and drawn in
    /// the base color, labeled in white at size 40 with the menu font.
    pub open spec fn wf(self) -> bool {
        &&& self.root.style == root_style()
        &&& self.root.background == Some(window_background())
        &&& self.inner.style == inner_style()
        &&& self.inner.background is None
        &&& self.button.id == ButtonId::StartGame
        &&& self.button.style == button_style()
        &&& self.button.color == ButtonColor::Base
        &&& self.button.label.text@ == "Start Game"@
        &&& self.button.label.font@ == "fonts/FiraMono-Medium.ttf"@
        &&& self.button.label.font_size == 40
        &&& self.button.label.color == text_color()
    }
}

/// Build the main menu: the fixed tree of containers around one
/// "Start Game" button with its text label.
pub fn create_main_menu() -> (m: MainMenu)
    ensures
        m.wf(),
{
    let root = Panel {
        style: LayoutStyle {
            direction: FlexDir::Column,
            centered: true,
            width: Dim::Percent(100),
            height: Dim::Percent(100),
            margin: Edges::all(Dim::Auto),
            padding: Edges::all(Dim::Px(10)),
        },
        background: Some(Rgb { r: 100, g: 100, b: 100 }),
    };
    let inner = Panel {
        style: LayoutStyle {
            direction: FlexDir::Column,
            centered: true,
            width: Dim::Auto,
            height: Dim::Auto,
            margin: Edges::all(Dim::Auto),
            padding: Edges::all(Dim::Unset),
        },
        background: None,
    };
    let label = Label {
        text: "Start Game",
        font: "fonts/FiraMono-Medium.ttf",
        font_size: 40,
        color: Rgb { r: 1000, g: 1000, b: 1000 },
    };
    let button = MenuButton { id: ButtonId::StartGame, style: LayoutStyle {
        direction: FlexDir::Column,
        centered: true,
        width: Dim::Px(250),
        height: Dim::Px(65),
        margin: Edges::vertical(Dim::Px(4)),
        padding: Edges::horizontal(Dim::Px(12)),
    }, color: ButtonColor::Base, label: label };
    MainMenu { root: root, inner: inner, button: button }
}

} // verus!
