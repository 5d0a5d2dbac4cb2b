use vstd::prelude::*;

verus! {

/// A rectangular region of a character grid: its top-left corner and its
/// extent, as a terminal layout engine hands it out.
#[derive(Clone, Copy, Debug, PartialEq, Eq, Structural)]
pub struct Rect {
    pub x: u16,
    pub y: u16,
    pub width: u16,
    pub height: u16,
}

/// Which side of a rectangle an inner padding is taken from.
pub enum PaddingDirection {
    Top,
    Bottom,
    Left,
    Right,
    All,
}

/// Shrink `rect` by `n` cells from the given side (from every side for
/// `All`): the facing edge moves inward and the extent shrinks, stopping
/// at zero rather than wrapping.
pub fn add_padding(rect: Rect, n: u16, direction: PaddingDirection) -> (r: Rect)
    requires
        direction matches PaddingDirection::Top ==> rect.y + n <= u16::MAX,
        direction matches PaddingDirection::Left ==> rect.x + n <= u16::MAX,
        direction matches PaddingDirection::All ==> rect.y + n <= u16::MAX && rect.x + n
            <= u16::MAX && n * 2 <= u16::MAX,
    ensures
        match direction {
            PaddingDirection::Top => r == (Rect {
                y: (rect.y + n) as u16,
                height: rect.height.saturating_sub(n),
                ..rect
            }),
            PaddingDirection::Bottom => r == (Rect { height: rect.height.saturating_sub(n), ..rect }),
            PaddingDirection::Left => r == (Rect {
                x: (rect.x + n) as u16,
                width: rect.width.saturating_sub(n),
                ..rect
            }),
            PaddingDirection::Right => r == (Rect { width: rect.width.saturating_sub(n), ..rect }),
            PaddingDirection::All => r == (Rect {
                x: (rect.x + n) as u16,
                y: (rect.y + n) as u16,
                width: rect.width.saturating_sub((n * 2) as u16),
                height: rect.height.saturating_sub((n * 2) as u16),
            }),
        },
{
    let mut rect = rect;
    match direction {
        PaddingDirection::Top => {
            rect.y = rect.y + n;
            rect.height = rect.height.saturating_sub(n);
            rect
        },
        PaddingDirection::Bottom => {
            rect.height = rect.height.saturating_sub(n);
            rect
        },
        PaddingDirection::Left => {
            rect.x = rect.x + n;
            rect.width = rect.width.saturating_sub(n);
            rect
        },
        PaddingDirection::Right => {
            rect.width = rect.width.saturating_sub(n);
            rect
        },
        PaddingDirection::All => {
            rect.y = rect.y + n;
            rect.height = rect.height.saturating_sub(n * 2);
            rect.x = rect.x + n;
            rect.width = rect.width.saturating_sub(n * 2);
            rect
        },
    }
}

} // verus!
