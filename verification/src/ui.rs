//! Layout arithmetic for the panels: which lines fit, where overlays go,
//! and how long texts are cut to fit.
use vstd::prelude::*;
use vstd::string::*;
use crate::text::push_char;

verus! {

/// The text cut to `width` characters; where it had to be cut and there is
/// room for more than one character, the last kept one becomes `…`.
pub open spec fn fitted(s: Seq<char>, width: nat) -> Seq<char> {
    if s.len() <= width {
        s
    } else if width > 1 {
        s.subrange(0, width - 1).push('\u{2026}')
    } else {
        s.subrange(0, width as int)
    }
}

/// Cuts a text to at most `width` characters, marking a cut with `…`.
pub fn fit_text(value: &str, width: u16) -> (res: String)
    ensures
        res@ == fitted(value@, width as nat),
        res@.len() <= width,
{
    let n = value.unicode_len();
    let max = width as usize;
    if n <= max {
        String::from_str(value)
    } else if max > 1 {
        let mut res = String::from_str(value.substring_char(0, max - 1));
        push_char(&mut res, '\u{2026}');
        res
    } else {
        String::from_str(value.substring_char(0, max))
    }
}

/// The lines of the terminal panel: with `total` lines, a panel `height`
/// rows tall (two of them border), scrolled back `scroll` lines, the first
/// line shown and how many are taken from there.
pub open spec fn terminal_window_spec(total: int, height: int, scroll: int) -> (int, int) {
    let rows = if height >= 2 { height - 2 } else { 0 };
    let start = if total > rows {
        if total - rows >= scroll { total - rows - scroll } else { 0 }
    } else {
        0
    };
    (start, if rows > 0 { rows } else { 1 })
}

/// Which lines the terminal panel shows: the first one and how many.
pub fn terminal_window(total: usize, height: u16, scroll: usize) -> (res: (usize, usize))
    ensures
        (res.0 as int, res.1 as int) == terminal_window_spec(total as int, height as int, scroll as int),
        res.0 <= total,
        scroll == 0 && height >= 3 && total > res.1 ==> res.0 + res.1 == total,
{
    let rows: usize = if height >= 2 { (height - 2) as usize } else { 0 };
    let start = if total > rows {
        if total - rows >= scroll { total - rows - scroll } else { 0 }
    } else {
        0
    };
    (start, if rows > 0 { rows } else { 1 })
}

/// The commands the quick-send panel shows: each takes two rows, a hint
/// row is kept where `show_hint`, at least one command is shown, and the
/// window starts late enough to hold the selected command.
pub open spec fn quick_send_window_spec(height: int, show_hint: bool, selected: int) -> (int, int) {
    let free = if show_hint { if height >= 1 { height - 1 } else { 0 } } else { height };
    let visible = if free / 2 >= 1 { free / 2 } else { 1 };
    (if selected >= visible { selected - visible + 1 } else { 0 }, visible)
}

/// Which commands the quick-send panel shows: the first one and how many.
pub fn quick_send_window(height: u16, show_hint: bool, selected: usize) -> (res: (usize, usize))
    ensures
        (res.0 as int, res.1 as int) == quick_send_window_spec(height as int, show_hint, selected as int),
        res.1 >= 1,
        res.0 <= selected < res.0 + res.1,
{
    let free: u16 = if show_hint {
        if height >= 1 { height - 1 } else { 0 }
    } else {
        height
    };
    let visible: usize = if free / 2 >= 1 { (free / 2) as usize } else { 1 };
    let start = if selected >= visible { selected - visible + 1 } else { 0 };
    (start, visible)
}

/// Where the focus hint goes in an area at (`x`, `y`) of `width` by
/// `height`: 20 by 6 in its top right corner, or nowhere if it does not fit.
pub open spec fn tab_hint_spec(x: int, y: int, width: int, height: int) -> Option<(int, int, int, int)> {
    if width < 20 || height < 6 {
        None
    } else {
        Some((x + width - 20, y, 20, 6))
    }
}

/// Where the focus hint goes: its left, top, width and height.
pub fn tab_hint_area(x: u16, y: u16, width: u16, height: u16) -> (res: Option<(u16, u16, u16, u16)>)
    requires
        x + width <= u16::MAX,
    ensures
        match res {
            Some(r) => tab_hint_spec(x as int, y as int, width as int, height as int) == Some(
                (r.0 as int, r.1 as int, r.2 as int, r.3 as int),
            ),
            None => tab_hint_spec(x as int, y as int, width as int, height as int) is None,
        },
{
    if width < 20 || height < 6 {
        None
    } else {
        Some((x + width - 20, y, 20, 6))
    }
}

/// Where the export dialog goes in an area at (`x`, `y`) of `width` by
/// `height`: 44 by 7, centred, or nowhere if it does not fit.
pub open spec fn export_dialog_spec(x: int, y: int, width: int, height: int) -> Option<(int, int, int, int)> {
    if width < 44 || height < 7 {
        None
    } else {
        Some((x + (width - 44) / 2, y + (height - 7) / 2, 44, 7))
    }
}

/// Where the export dialog goes: its left, top, width and height.
pub fn export_dialog_area(x: u16, y: u16, width: u16, height: u16) -> (res: Option<(u16, u16, u16, u16)>)
    requires
        x + width <= u16::MAX,
        y + height <= u16::MAX,
    ensures
        match res {
            Some(r) => export_dialog_spec(x as int, y as int, width as int, height as int) == Some(
                (r.0 as int, r.1 as int, r.2 as int, r.3 as int),
            ),
            None => export_dialog_spec(x as int, y as int, width as int, height as int) is None,
        },
{
    if width < 44 || height < 7 {
        None
    } else {
        Some((x + (width - 44) / 2, y + (height - 7) / 2, 44, 7))
    }
}

} // verus!
