//! Text assets and the enums that place and align text.

use vstd::prelude::*;

verus! {

/// A font asset: the raw font file and the family name it registers.
#[derive(Clone, Debug)]
pub struct VelloFont {
    /// The family name under which the font is looked up.
    pub family_name: String,
    pub bytes: Vec<u8>,
}

impl VelloFont {
    /// A font from raw font data, registered under the default family name
    /// `"Fira Mono"`.
    pub fn new(font_data: Vec<u8>) -> (font: Self)
        ensures
            font.bytes@ == font_data@,
            font.family_name@ == "Fira Mono"@,
    {
        VelloFont { bytes: font_data, family_name: "Fira Mono".to_string() }
    }
}

/// Describes how the text is positioned relative to its transform. It
/// defaults to [`VelloTextAnchor::Center`].
#[derive(Clone, Copy, Debug, PartialEq, Eq, Structural)]
pub enum VelloTextAnchor {
    /// Bounds start from the render position and advance up and to the right.
    BottomLeft,
    /// Bounds start from the render position and advance up.
    Bottom,
    /// Bounds start from the render position and advance up and to the left.
    BottomRight,
    /// Bounds start from the render position and advance right.
    Left,
    /// Bounds start from the render position and advance equally on both axes.
    Center,
    /// Bounds start from the render position and advance left.
    Right,
    /// Bounds start from the render position and advance down and to the right.
    TopLeft,
    /// Bounds start from the render position and advance down.
    Top,
    /// Bounds start from the render position and advance down and to the left.
    TopRight,
}

impl Default for VelloTextAnchor {
    fn default() -> (a: Self)
        ensures
            a == VelloTextAnchor::Center,
    {
        VelloTextAnchor::Center
    }
}

/// Alignment of a text layout.
#[derive(Clone, Copy, Debug, PartialEq, Eq, Hash, Structural)]
pub enum VelloTextAlign {
    /// Left for left-to-right text and right for right-to-left text.
    Start,
    /// Right for left-to-right text and left for right-to-left text.
    End,
    /// Align content to the left edge.
    Left,
    /// Align each line centered within the container.
    Middle,
    /// Align content to the right edge.
    Right,
    /// Justify each line by spacing out content, except for the last line.
    Justified,
}

impl Default for VelloTextAlign {
    fn default() -> (a: Self)
        ensures
            a == VelloTextAlign::Start,
    {
        VelloTextAlign::Start
    }
}

/// A fraction of a box's extent along one axis, measured from its top or
/// left edge.
#[derive(Clone, Copy, Debug, PartialEq, Eq, Structural)]
pub enum AnchorFraction {
    /// The top or left edge.
    Zero,
    /// The middle.
    Half,
    /// The bottom or right edge.
    Whole,
}

/// The fraction as a number of halves: 0, 1 or 2.
pub open spec fn halves(f: AnchorFraction) -> int {
    match f {
        AnchorFraction::Zero => 0,
        AnchorFraction::Half => 1,
        AnchorFraction::Whole => 2,
    }
}

/// The column of an anchor: left edge, middle or right edge.
pub open spec fn anchor_column(anchor: VelloTextAnchor) -> AnchorFraction {
    match anchor {
        VelloTextAnchor::TopLeft | VelloTextAnchor::Left | VelloTextAnchor::BottomLeft => AnchorFraction::Zero,
        VelloTextAnchor::Top | VelloTextAnchor::Center | VelloTextAnchor::Bottom => AnchorFraction::Half,
        VelloTextAnchor::TopRight | VelloTextAnchor::Right | VelloTextAnchor::BottomRight => AnchorFraction::Whole,
    }
}

/// The row of an anchor: top edge, middle or bottom edge.
pub open spec fn anchor_row(anchor: VelloTextAnchor) -> AnchorFraction {
    match anchor {
        VelloTextAnchor::TopLeft | VelloTextAnchor::Top | VelloTextAnchor::TopRight => AnchorFraction::Zero,
        VelloTextAnchor::Left | VelloTextAnchor::Center | VelloTextAnchor::Right => AnchorFraction::Half,
        VelloTextAnchor::BottomLeft | VelloTextAnchor::Bottom | VelloTextAnchor::BottomRight => AnchorFraction::Whole,
    }
}

impl VelloTextAnchor {
    /// Where along the text's width the anchor sits: the text is shifted left
    /// by this fraction of its width (in world space), or placed this
    /// fraction of the free width from the node's left edge (in UI).
    pub fn column(&self) -> (f: AnchorFraction)
        ensures
            f == anchor_column(*self),
    {
        match self {
            VelloTextAnchor::TopLeft | VelloTextAnchor::Left | VelloTextAnchor::BottomLeft => AnchorFraction::Zero,
            VelloTextAnchor::Top | VelloTextAnchor::Center | VelloTextAnchor::Bottom => AnchorFraction::Half,
            VelloTextAnchor::TopRight | VelloTextAnchor::Right | VelloTextAnchor::BottomRight => AnchorFraction::Whole,
        }
    }

    /// Where along the text's height the anchor sits: the text is shifted up
    /// by this fraction of its height (in world space), or placed this
    /// fraction of the free height from the node's top edge (in UI).
    pub fn row(&self) -> (f: AnchorFraction)
        ensures
            f == anchor_row(*self),
    {
        match self {
            VelloTextAnchor::TopLeft | VelloTextAnchor::Top | VelloTextAnchor::TopRight => AnchorFraction::Zero,
            VelloTextAnchor::Left | VelloTextAnchor::Center | VelloTextAnchor::Right => AnchorFraction::Half,
            VelloTextAnchor::BottomLeft | VelloTextAnchor::Bottom | VelloTextAnchor::BottomRight => AnchorFraction::Whole,
        }
    }
}

/// Anchors are exactly the nine combinations of a column and a row: distinct
/// anchors differ in their column or their row.
pub proof fn lemma_anchor_grid_is_complete(a: VelloTextAnchor, b: VelloTextAnchor)
    ensures
        a != b ==> anchor_column(a) != anchor_column(b) || anchor_row(a) != anchor_row(b),
        halves(anchor_column(VelloTextAnchor::Center)) == 1 && halves(
            anchor_row(VelloTextAnchor::Center),
        ) == 1,
{
}

/// Anchors that share a word share its row or column. Every top anchor
/// (`TopLeft`, `Top`, `TopRight`) hangs the text from its top edge, every
/// bottom anchor stands it on its bottom edge, and the anchors without
/// either word hold it at its middle; likewise every left anchor holds the
/// text at its left edge, every right anchor at its right edge, and the
/// others at its middle.
pub proof fn lemma_anchor_words_fix_position(a: VelloTextAnchor)
    ensures
        (a == VelloTextAnchor::TopLeft || a == VelloTextAnchor::Top || a
            == VelloTextAnchor::TopRight) <==> anchor_row(a) == AnchorFraction::Zero,
        (a == VelloTextAnchor::Left || a == VelloTextAnchor::Center || a
            == VelloTextAnchor::Right) <==> anchor_row(a) == AnchorFraction::Half,
        (a == VelloTextAnchor::BottomLeft || a == VelloTextAnchor::Bottom || a
            == VelloTextAnchor::BottomRight) <==> anchor_row(a) == AnchorFraction::Whole,
        (a == VelloTextAnchor::TopLeft || a == VelloTextAnchor::Left || a
            == VelloTextAnchor::BottomLeft) <==> anchor_column(a) == AnchorFraction::Zero,
        (a == VelloTextAnchor::Top || a == VelloTextAnchor::Center || a
            == VelloTextAnchor::Bottom) <==> anchor_column(a) == AnchorFraction::Half,
        (a == VelloTextAnchor::TopRight || a == VelloTextAnchor::Right || a
            == VelloTextAnchor::BottomRight) <==> anchor_column(a) == AnchorFraction::Whole,
{
}

/// Describes how a lottie is positioned relative to its transform. It
/// defaults to [`VelloLottieAnchor::Center`]. Has no effect in UI nodes.
#[derive(Clone, Copy, Debug, PartialEq, Eq, Structural)]
pub enum VelloLottieAnchor {
    /// Bounds start from the render position and advance up and to the right.
    BottomLeft,
    /// Bounds start from the render position and advance up.
    Bottom,
    /// Bounds start from the render position and advance up and to the left.
    BottomRight,
    /// Bounds start from the render position and advance right.
    Left,
    /// Bounds start from the render position and advance equally on both axes.
    Center,
    /// Bounds start from the render position and advance left.
    Right,
    /// Bounds start from the render position and advance down and to the right.
    TopLeft,
    /// Bounds start from the render position and advance down.
    Top,
    /// Bounds start from the render position and advance down and to the left.
    TopRight,
}

impl Default for VelloLottieAnchor {
    fn default() -> (a: Self)
        ensures
            a == VelloLottieAnchor::Center,
    {
        VelloLottieAnchor::Center
    }
}

} // verus!
