//! The text field of the forms: how its text wraps into rows, how tall the
//! field grows, how far it scrolls, and where the cursor stands in it.
use vstd::prelude::*;

use crate::layout::Area;
use crate::text::chars_of;

verus! {

/// The widest the field grows, border included.
pub const FIELD_MAX_WIDTH: u16 = 72;

/// The number of terminal columns that ratatui gives the character `c`.
pub uninterp spec fn terminal_columns(c: char) -> usize;

/// `ratatui::text::Span::width` of the one-character text `c`: the terminal
/// columns it takes (none for a combining mark, two for a wide character).
/// Which characters take how many is left to the name `terminal_columns`.
#[verifier::external_body]
fn char_columns(c: char) -> (r: usize)
    ensures
        r == terminal_columns(c),
{
    ratatui::text::Span::raw(c.to_string()).width()
}

/// Whether a character `k` columns wide, typed at column `c` of a row `w`
/// columns wide, goes to the next row: it does not fit, and the row is not empty.
pub open spec fn wraps(c: nat, k: nat, w: nat) -> bool {
    c > 0 && c + k > w
}

/// The row and column where typing goes on after the characters `t`, in rows
/// `w` columns wide: a newline starts the next row, and so does a character
/// that does not fit in what is left of its row.
pub open spec fn place(t: Seq<char>, w: nat) -> (nat, nat)
    decreases t.len(),
{
    if t.len() == 0 {
        (0, 0)
    } else {
        let p = place(t.drop_last(), w);
        let k = terminal_columns(t.last()) as nat;
        if t.last() == '\n' {
            (p.0 + 1, 0)
        } else if wraps(p.1, k, w) {
            (p.0 + 1, k)
        } else {
            (p.0, p.1 + k)
        }
    }
}

/// The row on which the character at `i` of `t` is drawn.
pub open spec fn char_row(t: Seq<char>, i: int, w: nat) -> nat {
    let p = place(t.take(i), w);
    if t[i] != '\n' && wraps(p.1, terminal_columns(t[i]) as nat, w) {
        p.0 + 1
    } else {
        p.0
    }
}

/// The row and column of the cursor after the characters `t`: where typing
/// goes on, or the start of the next row once a row is full.
pub open spec fn cursor_spot(t: Seq<char>, w: nat) -> (nat, nat) {
    let p = place(t, w);
    if p.1 >= w {
        (p.0 + 1, 0)
    } else {
        p
    }
}

/// How the field is laid out.
#[derive(Debug)]
pub struct TextField {
    /// The bordered box of the field.
    pub area: Area,
    /// The row of the text on which each character stands.
    pub rows: Vec<usize>,
    /// The first row of the text shown.
    pub scroll: usize,
    /// Where the terminal's cursor goes.
    pub cursor: (u16, u16),
    /// The line of the help below the box.
    pub help_row: u16,
}

pub struct TextFieldView {
    pub area: Area,
    pub rows: Seq<usize>,
    pub scroll: usize,
    pub cursor: (u16, u16),
    pub help_row: u16,
}

impl View for TextField {
    type V = TextFieldView;

    open spec fn view(&self) -> TextFieldView {
        TextFieldView {
            area: self.area,
            rows: self.rows@,
            scroll: self.scroll,
            cursor: self.cursor,
            help_row: self.help_row,
        }
    }
}

/// The width of the box in a frame `width` columns wide.
pub open spec fn box_width(width: u16) -> u16 {
    if width <= FIELD_MAX_WIDTH {
        width
    } else {
        FIELD_MAX_WIDTH
    }
}

/// The row and column of the cursor at `index` in `t`, in a box `width` wide.
pub open spec fn field_cursor(width: u16, t: Seq<char>, index: usize) -> (nat, nat) {
    let k = if index <= t.len() {
        index as int
    } else {
        t.len() as int
    };
    cursor_spot(t.take(k), (box_width(width) - 2) as nat)
}

/// The rows of text that the box shows: as many as the text and the cursor
/// need, as far as the frame's height leaves room for the borders and the help.
pub open spec fn visible_rows(height: u16, last: nat, cursor_row: nat) -> int {
    let room = height - 3;
    if last >= room || cursor_row >= room {
        room
    } else if last >= cursor_row {
        last + 1int
    } else {
        cursor_row + 1int
    }
}

/// The field of the text `t` with the cursor at `index`, in `frame`: at most
/// `FIELD_MAX_WIDTH` columns wide and centred; one row high and centred with
/// the help below it, growing downwards with the text as far as the frame
/// allows; scrolled so that the cursor's row is shown.
pub open spec fn field_view(frame: Area, t: Seq<char>, index: usize) -> TextFieldView {
    let bw = box_width(frame.width);
    let iw = (bw - 2) as nat;
    let cur = field_cursor(frame.width, t, index);
    let last = place(t, iw).0;
    let visible = visible_rows(frame.height, last, cur.0);
    let scroll = if cur.0 >= visible {
        cur.0 - visible + 1
    } else {
        0
    };
    let centred = (frame.height - 4) / 2;
    let bottom = frame.height - (visible + 3);
    let top = if centred <= bottom {
        centred
    } else {
        bottom
    };
    let bx = frame.x + (frame.width - bw) / 2;
    let by = frame.y + top;
    TextFieldView {
        area: Area { x: bx as u16, y: by as u16, width: bw, height: (visible + 2) as u16 },
        rows: Seq::new(t.len(), |j: int| char_row(t, j, iw) as usize),
        scroll: scroll as usize,
        cursor: ((bx + 1 + cur.1) as u16, (by + 1 + cur.0 - scroll) as u16),
        help_row: (by + visible + 2) as u16,
    }
}

/// The row of each character of `t` in rows `w` columns wide, the row where
/// typing goes on after all of them, and the cursor's row and column after
/// the first `k` of them.
fn wrap_text(t: &Vec<char>, k: usize, w: usize) -> (res: (Vec<usize>, usize, usize, usize))
    requires
        t.len() < usize::MAX,
        k <= t.len(),
        w >= 1,
    ensures
        res.0@ == Seq::new(t@.len(), |j: int| char_row(t@, j, w as nat) as usize),
        res.1 == place(t@, w as nat).0,
        (res.2 as nat, res.3 as nat) == cursor_spot(t@.take(k as int), w as nat),
        res.1 <= t.len(),
{
    let n = t.len();
    let ghost s = t@;
    let ghost wn = w as nat;
    let mut rows: Vec<usize> = Vec::new();
    let mut r: usize = 0;
    let mut c: usize = 0;
    let mut cr: usize = 0;
    let mut cc: usize = 0;
    let mut i: usize = 0;
    assert(s.take(0) =~= Seq::<char>::empty());
    while i < n
        invariant
            i <= n,
            n == s.len(),
            s == t@,
            n < usize::MAX,
            k <= n,
            wn == w,
            (r as nat, c as nat) == place(s.take(i as int), wn),
            r <= i,
            rows@.len() == i,
            forall|j: int| 0 <= j < i ==> rows@[j] == char_row(s, j, wn) as usize,
            i > k ==> (cr as nat, cc as nat) == place(s.take(k as int), wn) && cr <= k,
        decreases n - i,
    {
        if i == k {
            cr = r;
            cc = c;
        }
        let ch = t[i];
        let kw = char_columns(ch);
        assert(s.take(i + 1).drop_last() =~= s.take(i as int));
        assert(s.take(i + 1).last() == ch);
        let ghost old_rows = rows@;
        if ch == '\n' {
            rows.push(r);
            r = r + 1;
            c = 0;
        } else if c > 0 && (c > w || kw > w - c) {
            r = r + 1;
            rows.push(r);
            c = kw;
        } else {
            rows.push(r);
            c = c + kw;
        }
        assert(rows@[i as int] == char_row(s, i as int, wn) as usize);
        assert forall|j: int| 0 <= j < i + 1 implies rows@[j] == char_row(s, j, wn) as usize by {
            if j < i {
                assert(rows@[j] == old_rows[j]);
            }
        }
        i = i + 1;
    }
    if k == n {
        cr = r;
        cc = c;
    }
    assert(s.take(n as int) =~= s);
    assert(rows@ =~= Seq::new(s.len(), |j: int| char_row(s, j, wn) as usize));
    if cc >= w {
        (rows, r, cr + 1, 0)
    } else {
        (rows, r, cr, cc)
    }
}

/// Lays out the field of `text`, the cursor `index` characters in, in
/// `frame`; none when the frame is too small for a box around one character
/// and the help below it.
pub fn text_field(frame: Area, text: &str, index: usize) -> (r: Option<TextField>)
    requires
        frame.x + frame.width <= u16::MAX,
        frame.y + frame.height <= u16::MAX,
        text@.len() < usize::MAX,
    ensures
        r is None <==> frame.width < 3 || frame.height < 4,
        r matches Some(f) ==> f@ == field_view(frame, text@, index),
        r matches Some(f) ==> {
            let cur = field_cursor(frame.width, text@, index);
            &&& f.area.x < f.cursor.0 < f.area.x + f.area.width - 1
            &&& f.area.y < f.cursor.1 < f.area.y + f.area.height - 1
            &&& frame.x <= f.area.x && f.area.x + f.area.width <= frame.x + frame.width
            &&& frame.y <= f.area.y && f.area.y + f.area.height <= f.help_row
            &&& f.help_row < frame.y + frame.height
            &&& f.scroll <= cur.0 < f.scroll + f.area.height - 2
            &&& f.cursor.1 == f.area.y + 1 + cur.0 - f.scroll
            &&& f.cursor.0 == f.area.x + 1 + cur.1
        },
{
    if frame.width < 3 || frame.height < 4 {
        return None;
    }
    let chars = chars_of(text);
    let n = chars.len();
    let k = if index <= n {
        index
    } else {
        n
    };
    let bw: u16 = if frame.width <= FIELD_MAX_WIDTH {
        frame.width
    } else {
        FIELD_MAX_WIDTH
    };
    let iw: usize = (bw - 2) as usize;
    let (rows, last, crow, ccol) = wrap_text(&chars, k, iw);
    let room: u16 = frame.height - 3;
    let visible: u16 = if last >= room as usize || crow >= room as usize {
        room
    } else if last >= crow {
        (last + 1) as u16
    } else {
        (crow + 1) as u16
    };
    let scroll: usize = if crow >= visible as usize {
        crow - visible as usize + 1
    } else {
        0
    };
    let centred: u16 = (frame.height - 4) / 2;
    let bottom: u16 = frame.height - (visible + 3);
    let top: u16 = if centred <= bottom {
        centred
    } else {
        bottom
    };
    let bx: u16 = frame.x + (frame.width - bw) / 2;
    let by: u16 = frame.y + top;
    Some(
        TextField {
            area: Area { x: bx, y: by, width: bw, height: visible + 2 },
            rows,
            scroll,
            cursor: (bx + 1 + ccol as u16, by + 1 + (crow - scroll) as u16),
            help_row: by + visible + 2,
        },
    )
}

} // verus!
