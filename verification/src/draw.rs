//! Laying the message picker out: its box, the label of each candidate, and
//! the rows a click can land on.

use vstd::prelude::*;
use vstd::string::*;

use crate::geometry::{bordered_inner, bordered_inner_of, PickRect};
use crate::message::{Message, Role};
use crate::pick::{count_true, first_hit_from, App, PICK_EMPTY_STATUS};
use crate::text::{
    clock, clock_of, decimal, decimal_string, first_line, first_nonblank_line, fit, fit_of,
    is_printable_ascii, str_width,
};

verus! {

/// The widest the picker gets.
pub const PICK_MAX_WIDTH: u16 = 90;

/// What stands for the time of a message without a readable timestamp.
pub open spec fn no_time() -> Seq<char> {
    "     "@
}

/// `HH:MM  first line of the message`: the picker's label for `m`.
pub open spec fn pick_label_of(m: Message) -> Seq<char> {
    let time = match m.at {
        Some(at) => match clock_of(at@) {
            Some(t) => t,
            None => no_time(),
        },
        None => no_time(),
    };
    time + "  "@ + first_nonblank_line(m.text@)
}

/// `HH:MM  first line of the message`.
pub fn pick_label(message: &Message) -> (r: String)
    ensures
        r@ == pick_label_of(*message),
{
    let mut label = match &message.at {
        Some(at) => match clock(at.as_str()) {
            Some(time) => time,
            None => "     ".to_owned(),
        },
        None => "     ".to_owned(),
    };
    label.append("  ");
    let first = first_line(message.text.as_str());
    label.append(first.as_str());
    label
}

/// The row at `index` of `rows`, or the empty string past the end.
pub fn row(rows: &[String], index: usize) -> (r: &str)
    ensures
        r@ == (if index < rows@.len() {
            rows@[index as int]@
        } else {
            Seq::<char>::empty()
        }),
{
    if index < rows.len() {
        rows[index].as_str()
    } else {
        proof {
            reveal_strlit("");
        }
        ""
    }
}

/// How a role is labelled in the picker.
pub open spec fn role_label_of(role: Role) -> Seq<char> {
    match role {
        Role::Human => "You"@,
        Role::Assistant => "Assistant"@,
    }
}

/// How a role is labelled in the picker.
pub fn role_label(role: Role) -> (r: &'static str)
    ensures
        r@ == role_label_of(role),
        is_printable_ascii(r@),
        r@.len() == if role == Role::Human {
            3nat
        } else {
            9nat
        },
{
    proof {
        reveal_strlit("You");
        reveal_strlit("Assistant");
    }
    match role {
        Role::Human => "You",
        Role::Assistant => "Assistant",
    }
}

/// The colours the picker draws in.
#[derive(Clone, Copy, Debug, PartialEq, Eq, Structural)]
pub enum PickColor {
    Yellow,
    Cyan,
}

/// The colour a role's label is drawn in: yellow for the human, cyan for the
/// assistant.
pub open spec fn role_color_of(role: Role) -> PickColor {
    match role {
        Role::Human => PickColor::Yellow,
        Role::Assistant => PickColor::Cyan,
    }
}

/// The colour a role's label is drawn in.
pub fn role_color(role: Role) -> (r: PickColor)
    ensures
        r == role_color_of(role),
{
    match role {
        Role::Human => PickColor::Yellow,
        Role::Assistant => PickColor::Cyan,
    }
}

/// How one span of a picker line is drawn: its foreground colour, when it has
/// one, and whether it is reversed.
#[derive(Clone, Copy, Debug, PartialEq, Eq, Structural)]
pub struct SpanStyle {
    pub color: Option<PickColor>,
    pub reversed: bool,
}

/// The check box of a candidate in the picker.
pub open spec fn checkbox_of(selected: bool) -> Seq<char> {
    if selected {
        " [x] "@
    } else {
        " [ ] "@
    }
}

/// The picker's width in a terminal `area_width` columns wide.
pub open spec fn pick_width_of(area_width: u16) -> u16 {
    let room = area_width.saturating_sub(4);
    let narrow = if room <= PICK_MAX_WIDTH {
        room
    } else {
        PICK_MAX_WIDTH
    };
    if narrow >= 20 {
        narrow
    } else {
        20
    }
}

/// The picker's height for `rows` candidates in a terminal `area_height` rows high.
pub open spec fn pick_height_of(area_height: u16, rows: u16) -> u16 {
    let room = area_height.saturating_sub(2);
    let tall = if rows + 2 <= room {
        (rows + 2) as u16
    } else {
        room
    };
    if tall >= 3 {
        tall
    } else {
        3
    }
}

/// The picker's box, centred in `area`, for `rows` candidates.
pub open spec fn pick_rect_of(area: PickRect, rows: u16) -> PickRect {
    let width = pick_width_of(area.width);
    let height = pick_height_of(area.height, rows);
    PickRect {
        x: ((area.width - width) / 2) as u16,
        y: ((area.height - height) / 2) as u16,
        width,
        height,
    }
}

/// The picker is as tall as its candidates and border need, within the room
/// the terminal leaves (all but two rows) and never under three rows; its
/// border leaves two rows less for the candidates, so every candidate is
/// listed when the terminal has room, else as many as fit. It is centred.
pub proof fn law_pick_height(area: PickRect, rows: u16)
    requires
        rows + 2 <= u16::MAX,
        area.height >= 3,
    ensures
        ({
            let r = pick_rect_of(area, rows);
            &&& r.height >= 3
            &&& r.height <= rows + 2 || r.height == 3
            &&& area.height >= 5 ==> r.height <= area.height - 2
            &&& area.height >= 5 ==> (r.height >= rows + 2 || r.height >= area.height - 2)
            &&& bordered_inner_of(r).height == r.height - 2
            &&& area.height >= 5 ==> (if rows <= area.height - 4 {
                bordered_inner_of(r).height >= rows
            } else {
                bordered_inner_of(r).height == area.height - 4
            })
            &&& r.y + r.height + r.y <= area.height <= r.y + r.height + r.y + 1
        }),
{
}

/// The picker is at least 20 columns wide and at most 90, and otherwise
/// leaves four columns of the terminal free; it is centred.
pub proof fn law_pick_width(area: PickRect, rows: u16)
    requires
        rows + 2 <= u16::MAX,
        area.width >= 20,
    ensures
        ({
            let r = pick_rect_of(area, rows);
            &&& 20 <= r.width <= 90
            &&& area.width >= 24 ==> r.width <= area.width - 4
            &&& r.width == 90 || r.width == 20 || r.width == area.width - 4
            &&& r.x + r.width + r.x <= area.width <= r.x + r.width + r.x + 1
        }),
{
}

/// The columns left for a message's label after the check box, the role and
/// the spaces around them.
pub open spec fn text_width_of(inner_width: u16, role: Role) -> usize {
    let used = 6 + role_label_of(role).len();
    if inner_width >= used {
        (inner_width - used) as usize
    } else {
        0
    }
}

/// The picker's title: the empty-selection notice while it stands, else the prompt.
pub open spec fn pick_title_of(status: Option<String>) -> Seq<char> {
    if status matches Some(t) && t@ == PICK_EMPTY_STATUS@ {
        PICK_EMPTY_STATUS@
    } else {
        " select one or more messages "@
    }
}

/// The picker's bottom line, with the number of selected candidates.
pub open spec fn pick_footer_of(count: nat) -> Seq<char> {
    " space toggle \u{b7} enter review \u{b7} esc newest asst \u{b7} q quit \u{b7} "@ + decimal(count)
        + " selected "@
}

/// One listed candidate as drawn: its screen row and candidate index, and its
/// three spans (the check box, the role label, the label text after it), each
/// with its style. The spans are reversed on the line under the cursor.
pub struct PickLine {
    pub row: PickRect,
    pub index: usize,
    pub role: Role,
    pub checkbox: String,
    pub checkbox_style: SpanStyle,
    pub label: String,
    pub label_style: SpanStyle,
    pub text: String,
    pub text_style: SpanStyle,
}

/// The picker as drawn: its box and the colour of its border, the area inside
/// the border, the title, the bottom line, and the listed candidates.
pub struct PickFrame {
    pub rect: PickRect,
    pub border_color: PickColor,
    pub inner: PickRect,
    pub title: String,
    pub footer: String,
    pub lines: Vec<PickLine>,
}

/// The row of the `k`th listed candidate inside `inner`.
pub open spec fn pick_row_of(inner: PickRect, k: int) -> PickRect {
    PickRect { x: inner.x, y: (inner.y + k) as u16, width: inner.width, height: 1 }
}

/// Line `k` of the picker drawn for `app` inside `inner`.
pub open spec fn pick_line_is(line: PickLine, app: App, inner: PickRect, k: int) -> bool {
    let m = app.candidates@[k];
    &&& line.row == pick_row_of(inner, k)
    &&& line.index == k
    &&& line.checkbox@ == checkbox_of(app.pick_selected@[k])
    &&& line.role == m.role
    &&& line.label@ == role_label_of(m.role)
    &&& line.text@ == " "@ + fit_of(pick_label_of(m), text_width_of(inner.width, m.role))
    &&& line.checkbox_style == SpanStyle { color: None, reversed: k == app.pick_cursor }
    &&& line.label_style == SpanStyle {
        color: Some(role_color_of(m.role)),
        reversed: k == app.pick_cursor,
    }
    &&& line.text_style == SpanStyle { color: None, reversed: k == app.pick_cursor }
}

/// A click on the first cell of a row the picker drew lands on that row's
/// candidate: the drawn rows lie on distinct screen rows.
pub proof fn law_click_drawn_row(inner: PickRect, lines: Seq<PickLine>, k: int)
    requires
        inner.width > 0,
        inner.x + inner.width <= u16::MAX,
        inner.y + lines.len() <= u16::MAX,
        0 <= k < lines.len(),
        forall|j: int|
            0 <= j < lines.len() ==> (#[trigger] lines[j]).row == pick_row_of(inner, j)
                && lines[j].index == j,
    ensures
        ({
            let rows = lines.map_values(|l: PickLine| (l.row, l.index));
            let hit = first_hit_from(rows, inner.x, (inner.y + k) as u16, 0);
            hit == k && rows[hit].1 == k
        }),
{
    let rows = lines.map_values(|l: PickLine| (l.row, l.index));
    let column = inner.x;
    let y = (inner.y + k) as u16;
    assert forall|j: int| 0 <= j <= k implies first_hit_from(rows, column, y, j) == k by {
        lemma_hit_scan(rows, inner, column, y, j, k);
    }
}

proof fn lemma_hit_scan(rows: Seq<(PickRect, usize)>, inner: PickRect, column: u16, y: u16, j: int, k: int)
    requires
        inner.width > 0,
        inner.x + inner.width <= u16::MAX,
        column == inner.x,
        0 <= j <= k < rows.len(),
        y == inner.y + k,
        forall|i: int| 0 <= i < rows.len() ==> (#[trigger] rows[i]).0 == pick_row_of(inner, i),
        inner.y + rows.len() <= u16::MAX,
    ensures
        first_hit_from(rows, column, y, j) == k,
    decreases k - j,
{
    assert(rows[j].0 == pick_row_of(inner, j));
    if j < k {
        lemma_hit_scan(rows, inner, column, y, j + 1, k);
    }
}

impl App {
    /// Lay the picker out in `area` and record where each listed candidate
    /// was drawn; the caller paints what comes back.
    pub fn draw_pick(&mut self, area: PickRect) -> (frame: PickFrame)
        requires
            old(self).wf(),
            area.width >= 20,
            area.height >= 3,
            (old(self).candidates@.len() as u16) + 2 <= u16::MAX,
        ensures
            final(self).wf(),
            frame.rect == pick_rect_of(area, old(self).candidates@.len() as u16),
            frame.border_color == PickColor::Cyan,
            frame.inner == bordered_inner_of(frame.rect),
            frame.title@ == pick_title_of(old(self).status),
            frame.footer@ == pick_footer_of(count_true(old(self).pick_selected@)),
            frame.lines@.len() == (if old(self).candidates@.len() <= frame.inner.height {
                old(self).candidates@.len()
            } else {
                frame.inner.height as nat
            }),
            forall|k: int|
                0 <= k < frame.lines@.len() ==> pick_line_is(
                    #[trigger] frame.lines@[k],
                    *old(self),
                    frame.inner,
                    k,
                ),
            final(self).pick_rows@ == frame.lines@.map_values(|l: PickLine| (l.row, l.index)),
            final(self).same_document(&*old(self)),
            final(self).width == old(self).width,
            final(self).message_host == old(self).message_host,
            final(self).message_transcript == old(self).message_transcript,
            final(self).candidates == old(self).candidates,
            final(self).mode == old(self).mode,
            final(self).status == old(self).status,
            final(self).quit == old(self).quit,
            final(self).pick_selected == old(self).pick_selected,
            final(self).pick_cursor == old(self).pick_cursor,
    {
        let room = area.width.saturating_sub(4);
        let narrow = if room <= PICK_MAX_WIDTH {
            room
        } else {
            PICK_MAX_WIDTH
        };
        let width = if narrow >= 20 {
            narrow
        } else {
            20
        };
        let rows = self.candidates.len() as u16;
        let height_room = area.height.saturating_sub(2);
        let tall = if rows + 2 <= height_room {
            rows + 2
        } else {
            height_room
        };
        let height = if tall >= 3 {
            tall
        } else {
            3
        };
        let rect = PickRect { x: (area.width - width) / 2, y: (area.height - height) / 2, width, height };
        let empty_notice = PICK_EMPTY_STATUS.to_owned();
        let notice_stands = match &self.status {
            Some(status) => status.eq(&empty_notice),
            None => false,
        };
        let title = if notice_stands {
            empty_notice
        } else {
            " select one or more messages ".to_owned()
        };
        let mut footer = " space toggle \u{b7} enter review \u{b7} esc newest asst \u{b7} q quit \u{b7} ".to_owned();
        let count = decimal_string(self.selected_count());
        footer.append(count.as_str());
        footer.append(" selected ");
        let inner = bordered_inner(rect);
        let n = self.candidates.len();
        let shown = if n <= inner.height as usize {
            n
        } else {
            inner.height as usize
        };
        let mut lines: Vec<PickLine> = Vec::new();
        let mut pick_rows: Vec<(PickRect, usize)> = Vec::new();
        let mut k: usize = 0;
        while k < shown
            invariant
                self.wf(),
                n == self.candidates@.len(),
                shown <= n,
                shown <= inner.height,
                inner == bordered_inner_of(rect),
                inner.y + inner.height <= u16::MAX,
                k <= shown,
                lines@.len() == k,
                forall|j: int| 0 <= j < k ==> pick_line_is(#[trigger] lines@[j], *self, inner, j),
                pick_rows@ == lines@.map_values(|l: PickLine| (l.row, l.index)),
            decreases shown - k,
        {
            let message = &self.candidates[k];
            let row = PickRect { x: inner.x, y: inner.y + k as u16, width: inner.width, height: 1 };
            let checkbox = if self.pick_selected[k] {
                " [x] ".to_owned()
            } else {
                " [ ] ".to_owned()
            };
            let role = role_label(message.role);
            let used = 6 + str_width(role);
            let width = (inner.width as usize).saturating_sub(used);
            let label = pick_label(message);
            let fitted = fit(label.as_str(), width);
            let mut text = " ".to_owned();
            text.append(fitted.as_str());
            let reversed = k == self.pick_cursor;
            let line = PickLine {
                row,
                index: k,
                role: message.role,
                checkbox,
                checkbox_style: SpanStyle { color: None, reversed },
                label: role.to_owned(),
                label_style: SpanStyle { color: Some(role_color(message.role)), reversed },
                text,
                text_style: SpanStyle { color: None, reversed },
            };
            pick_rows.push((row, k));
            lines.push(line);
            proof {
                assert(pick_rows@ =~= lines@.map_values(|l: PickLine| (l.row, l.index)));
            }
            k = k + 1;
        }
        self.pick_rows = pick_rows;
        PickFrame { rect, border_color: PickColor::Cyan, inner, title, footer, lines }
    }

}

} // verus!
