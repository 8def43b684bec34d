use vstd::prelude::*;

verus! {

/// A cursor shape that the GUI library asks for.
#[derive(Clone, Copy, Debug, PartialEq, Eq, Structural)]
pub enum CursorIcon {
    Default,
    /// No cursor shown.
    Hidden,
    ContextMenu,
    Help,
    PointingHand,
    Progress,
    Wait,
    Cell,
    Crosshair,
    Text,
    VerticalText,
    Alias,
    Copy,
    Move,
    NoDrop,
    NotAllowed,
    Grab,
    Grabbing,
    AllScroll,
    ResizeHorizontal,
    ResizeNeSw,
    ResizeNwSe,
    ResizeVertical,
    ResizeEast,
    ResizeSouthEast,
    ResizeSouth,
    ResizeSouthWest,
    ResizeWest,
    ResizeNorthWest,
    ResizeNorth,
    ResizeNorthEast,
    ResizeColumn,
    ResizeRow,
    ZoomIn,
    ZoomOut,
}

/// A cursor shape of the toolkit's windows.
#[derive(Clone, Copy, Debug, PartialEq, Eq, Structural)]
pub enum Cursor {
    Default,
    Arrow,
    Cross,
    Wait,
    Insert,
    Hand,
    Help,
    Move,
    NS,
    WE,
    NWSE,
    NESW,
    N,
    NE,
    E,
    SE,
    S,
    SW,
    W,
    NW,
    /// No cursor shown.
    Hidden,
}

/// The toolkit cursor shown for a requested icon; icons the toolkit has no
/// shape for get the arrow.
pub open spec fn spec_cursor_for(icon: CursorIcon) -> Cursor {
    match icon {
        CursorIcon::Hidden => Cursor::Hidden,
        CursorIcon::Default => Cursor::Arrow,
        CursorIcon::Help => Cursor::Help,
        CursorIcon::PointingHand => Cursor::Hand,
        CursorIcon::ResizeHorizontal => Cursor::WE,
        CursorIcon::ResizeNeSw => Cursor::NESW,
        CursorIcon::ResizeNwSe => Cursor::NWSE,
        CursorIcon::ResizeVertical => Cursor::NS,
        CursorIcon::Text => Cursor::Insert,
        CursorIcon::Crosshair => Cursor::Cross,
        CursorIcon::NotAllowed => Cursor::Wait,
        CursorIcon::NoDrop => Cursor::Wait,
        CursorIcon::Wait => Cursor::Wait,
        CursorIcon::Progress => Cursor::Wait,
        CursorIcon::Grab => Cursor::Hand,
        CursorIcon::Grabbing => Cursor::Move,
        CursorIcon::Move => Cursor::Move,
        _ => Cursor::Arrow,
    }
}

/// The toolkit cursor shown for a requested icon.
pub fn cursor_for_icon(icon: CursorIcon) -> (r: Cursor)
    ensures
        r == spec_cursor_for(icon),
{
    match icon {
        CursorIcon::Hidden => Cursor::Hidden,
        CursorIcon::Default => Cursor::Arrow,
        CursorIcon::Help => Cursor::Help,
        CursorIcon::PointingHand => Cursor::Hand,
        CursorIcon::ResizeHorizontal => Cursor::WE,
        CursorIcon::ResizeNeSw => Cursor::NESW,
        CursorIcon::ResizeNwSe => Cursor::NWSE,
        CursorIcon::ResizeVertical => Cursor::NS,
        CursorIcon::Text => Cursor::Insert,
        CursorIcon::Crosshair => Cursor::Cross,
        CursorIcon::NotAllowed => Cursor::Wait,
        CursorIcon::NoDrop => Cursor::Wait,
        CursorIcon::Wait => Cursor::Wait,
        CursorIcon::Progress => Cursor::Wait,
        CursorIcon::Grab => Cursor::Hand,
        CursorIcon::Grabbing => Cursor::Move,
        CursorIcon::Move => Cursor::Move,
        _ => Cursor::Arrow,
    }
}

/// The cursor last applied to the window.
pub struct FusedCursor {
    pub cursor_icon: Cursor,
}

impl FusedCursor {
    /// Starts from the arrow cursor.
    pub fn new() -> (r: Self)
        ensures
            r.cursor_icon == Cursor::Arrow,
    {
        FusedCursor { cursor_icon: Cursor::Arrow }
    }
}

impl Default for FusedCursor {
    fn default() -> (r: Self)
        ensures
            r.cursor_icon == Cursor::Arrow,
    {
        FusedCursor::new()
    }
}

/// Maps the requested icon to a toolkit cursor and records it. Returns the
/// cursor to apply to the window, or `None` where it is the one already shown.
pub fn translate_cursor(fused: &mut FusedCursor, cursor_icon: CursorIcon) -> (r: Option<Cursor>)
    ensures
        final(fused).cursor_icon == spec_cursor_for(cursor_icon),
        r == (if spec_cursor_for(cursor_icon) != old(fused).cursor_icon {
            Some(spec_cursor_for(cursor_icon))
        } else {
            None
        }),
{
    let tmp_icon = cursor_for_icon(cursor_icon);
    if tmp_icon != fused.cursor_icon {
        fused.cursor_icon = tmp_icon;
        Some(tmp_icon)
    } else {
        None
    }
}

} // verus!
