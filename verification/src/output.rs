//! The received text: how it is cut into lines, how many lines are kept, and
//! how many screen rows they take.
use vstd::prelude::*;

use crate::app::{
    compute_line_height, line_height, line_views, App, AppView, Area, CachedLine, LineView, Selection,
    MAX_OUTPUT_LINES,
};
use crate::ui::{is_window, visible_window, Window};

verus! {

/// What `strip_ansi_escapes::strip_str` leaves of a text: its value is named,
/// not stated; it comes from the crate's escape-sequence parser.
pub uninterp spec fn ansi_stripped(text: Seq<char>) -> Seq<char>;

/// `strip_ansi_escapes::strip_str` on the text made of `text`'s characters.
#[verifier::external_body]
fn strip_ansi(text: &Vec<char>) -> (s: String)
    ensures
        s@ == ansi_stripped(text@),
{
    let raw: String = text.iter().collect();
    strip_ansi_escapes::strip_str(&raw)
}

/// Cuts `buf` at each line break: the complete lines, without their breaks,
/// and what follows the last break.
pub open spec fn split_lines(buf: Seq<char>) -> (Seq<Seq<char>>, Seq<char>)
    decreases buf.len(),
{
    if buf.len() == 0 {
        (seq![], seq![])
    } else {
        let prev = split_lines(buf.drop_last());
        if buf.last() == '\n' {
            (prev.0.push(prev.1), seq![])
        } else {
            (prev.0, prev.1.push(buf.last()))
        }
    }
}

/// The lines joined back, each followed by its break.
pub open spec fn joined_lines(lines: Seq<Seq<char>>) -> Seq<char>
    decreases lines.len(),
{
    if lines.len() == 0 {
        seq![]
    } else {
        joined_lines(lines.drop_last()) + lines.last().push('\n')
    }
}

/// How a complete line is kept: escape sequences removed, its height
/// computed at `width`.
pub open spec fn stored_line(raw: Seq<char>, width: u16) -> LineView {
    LineView { text: ansi_stripped(raw), height: line_height(ansi_stripped(raw), width) }
}

pub open spec fn stored_lines(raws: Seq<Seq<char>>, width: u16) -> Seq<LineView> {
    raws.map_values(|r: Seq<char>| stored_line(r, width))
}

/// The total height of some lines.
pub open spec fn sum_heights(lines: Seq<LineView>) -> nat
    decreases lines.len(),
{
    if lines.len() == 0 {
        0
    } else {
        sum_heights(lines.drop_last()) + lines.last().height as nat
    }
}

/// `n`, or `u16::MAX` when it is larger.
pub open spec fn capped(n: nat) -> u16 {
    if n > u16::MAX {
        u16::MAX
    } else {
        n as u16
    }
}

impl AppView {
    /// After `s` arrives: the pending text and `s` are cut into lines, the
    /// complete ones kept, the rest left pending.
    #[verifier::opaque]
    pub open spec fn appended(self, s: Seq<char>) -> AppView {
        let cut = split_lines(self.output_pending + s);
        AppView {
            output_lines: self.output_lines + stored_lines(cut.0, self.cached_width),
            output_pending: cut.1,
            dirty: true,
            ..self
        }
    }

    /// After the oldest lines beyond the limit are dropped: the scroll
    /// position, the known height and the selection move up by the rows they
    /// took.
    #[verifier::opaque]
    pub open spec fn truncated(self) -> AppView {
        if self.output_lines.len() <= MAX_OUTPUT_LINES {
            self
        } else {
            let excess = self.output_lines.len() - MAX_OUTPUT_LINES;
            let dropped = capped(sum_heights(self.output_lines.take(excess)));
            AppView {
                output_lines: self.output_lines.skip(excess),
                scroll_top: if !self.auto_scroll {
                    self.scroll_top.saturating_sub(dropped)
                } else {
                    self.scroll_top
                },
                last_total_visual_lines: self.last_total_visual_lines.saturating_sub(dropped),
                selection: match self.selection {
                    Some(sel) => Some(
                        Selection {
                            anchor: (sel.anchor.0, sel.anchor.1.saturating_sub(dropped)),
                            cursor: (sel.cursor.0, sel.cursor.1.saturating_sub(dropped)),
                            mode: sel.mode,
                        },
                    ),
                    None => None,
                },
                dirty: true,
                ..self
            }
        }
    }

    /// Rows taken by the output: the complete lines, and the pending text when
    /// there is some, capped at `u16::MAX`.
    pub open spec fn visual_lines(self) -> u16 {
        let pending: nat = if self.output_pending.len() == 0 {
            0
        } else {
            line_height(ansi_stripped(self.output_pending), self.cached_width) as nat
        };
        capped(sum_heights(self.output_lines) + pending)
    }

    /// After the line heights are computed for `width`. A width of 0, or the
    /// width they were computed for, changes nothing; a change of width after
    /// the first drops the selection, whose coordinates no longer hold.
    #[verifier::opaque]
    pub open spec fn rewrapped(self, width: u16) -> AppView {
        if width == self.cached_width || width == 0 {
            self
        } else {
            AppView {
                selection: if self.cached_width != 0 {
                    None
                } else {
                    self.selection
                },
                copy_pending: if self.cached_width != 0 {
                    false
                } else {
                    self.copy_pending
                },
                output_lines: self.output_lines.map_values(
                    |l: LineView| LineView { text: l.text, height: line_height(l.text, width) },
                ),
                cached_width: width,
                ..self
            }
        }
    }
}

proof fn lemma_split_step(buf: Seq<char>, i: int)
    requires
        0 <= i < buf.len(),
    ensures
        split_lines(buf.take(i + 1)) == (if buf[i] == '\n' {
            (split_lines(buf.take(i)).0.push(split_lines(buf.take(i)).1), seq![])
        } else {
            (split_lines(buf.take(i)).0, split_lines(buf.take(i)).1.push(buf[i]))
        }),
{
    assert(buf.take(i + 1).drop_last() =~= buf.take(i));
}

/// What the output area shows: the lines in view and the pending text.
#[derive(Debug)]
pub struct OutputPlan {
    /// Indices into the complete lines, followed by the pending line when
    /// there is one.
    pub window: Window,
    /// The pending text without escape sequences; empty when nothing is
    /// pending.
    pub pending_text: String,
}

/// The pending text as shown: without escape sequences.
pub open spec fn pending_plain(v: AppView) -> Seq<char> {
    if v.output_pending.len() == 0 {
        seq![]
    } else {
        ansi_stripped(v.output_pending)
    }
}

/// The heights of the lines shown in an area `width` columns wide: the
/// complete lines, then the pending text if it shows anything.
pub open spec fn shown_heights(v: AppView, width: u16) -> Seq<u16> {
    v.output_lines.map_values(|l: LineView| l.height) + if pending_plain(v).len() > 0 {
        seq![line_height(pending_plain(v), width)]
    } else {
        seq![]
    }
}

impl AppView {
    /// The session as the output area of `area` is drawn: the area is
    /// remembered; unless an error is shown instead, the heights follow its
    /// width and the scroll position is settled, following the output or kept
    /// within it.
    #[verifier::opaque]
    pub open spec fn prepared(self, area: Area) -> AppView {
        let v = AppView { last_output_height: area.height, last_output_area: area, ..self };
        if v.port_error is Some {
            v
        } else {
            v.rewrapped(area.width).settled(area.height)
        }
    }

    /// The scroll position settled for a viewport of `height` rows: at the
    /// bottom when following the output, else kept within the output.
    pub open spec fn settled(self, height: u16) -> AppView {
        let total = self.visual_lines();
        let max_offset = total.saturating_sub(height);
        let scroll = if self.auto_scroll {
            max_offset
        } else if self.scroll_top < max_offset {
            self.scroll_top
        } else {
            max_offset
        };
        AppView {
            scroll_top: if self.auto_scroll {
                self.scroll_top
            } else {
                scroll
            },
            last_total_visual_lines: total,
            last_scroll: scroll,
            ..self
        }
    }
}

/// Cutting a text into lines and joining them back gives the text: the
/// lines, each followed by its break, then what is left pending. Neither a
/// complete line nor what is left holds a line break.
pub proof fn law_split_lines_reassemble(buf: Seq<char>)
    ensures
        joined_lines(split_lines(buf).0) + split_lines(buf).1 == buf,
        !split_lines(buf).1.contains('\n'),
        forall|k: int|
            0 <= k < split_lines(buf).0.len() ==> !(#[trigger] split_lines(buf).0[k]).contains(
                '\n',
            ),
    decreases buf.len(),
{
    if buf.len() > 0 {
        let prev = split_lines(buf.drop_last());
        law_split_lines_reassemble(buf.drop_last());
        if buf.last() == '\n' {
            assert(prev.0.push(prev.1).drop_last() =~= prev.0);
            assert(joined_lines(prev.0.push(prev.1)) + seq![] =~= joined_lines(prev.0) + prev.1
                + seq!['\n']);
            assert(buf =~= buf.drop_last().push('\n'));
            assert(!seq![].contains('\n'));
            assert forall|k: int| 0 <= k < prev.0.push(prev.1).len() implies !(#[trigger] prev.0.push(
                prev.1,
            )[k]).contains('\n') by {
                if k < prev.0.len() {
                    assert(prev.0.push(prev.1)[k] == prev.0[k]);
                }
            }
        } else {
            assert(joined_lines(prev.0) + prev.1.push(buf.last()) =~= (joined_lines(prev.0)
                + prev.1).push(buf.last()));
            assert(buf =~= buf.drop_last().push(buf.last()));
            assert forall|c: char| prev.1.push(buf.last()).contains(c) implies c != '\n' by {
                let j = choose|j: int| 0 <= j < prev.1.push(buf.last()).len() && prev.1.push(buf.last())[j] == c;
                if j < prev.1.len() {
                    assert(prev.1.contains(prev.1[j]));
                }
            }
        }
    }
}

/// Text without a line break is all pending.
proof fn lemma_split_no_break(r: Seq<char>)
    requires
        !r.contains('\n'),
    ensures
        split_lines(r) == (Seq::<Seq<char>>::empty(), r),
    decreases r.len(),
{
    if r.len() > 0 {
        assert(r.drop_last().len() < r.len());
        assert forall|c: char| r.drop_last().contains(c) implies c != '\n' by {
            let j = choose|j: int| 0 <= j < r.drop_last().len() && r.drop_last()[j] == c;
            assert(r[j] == c);
        }
        lemma_split_no_break(r.drop_last());
        assert(r[r.len() - 1] != '\n');
        assert(r.drop_last().push(r.last()) =~= r);
    }
}

/// Cutting `x + y` is cutting `x`, then cutting what `x` left pending
/// followed by `y`.
pub proof fn lemma_split_concat(x: Seq<char>, y: Seq<char>)
    ensures
        split_lines(x + y) == ({
            let first = split_lines(x);
            let second = split_lines(first.1 + y);
            (first.0 + second.0, second.1)
        }),
    decreases y.len(),
{
    let first = split_lines(x);
    if y.len() == 0 {
        assert(x + y =~= x);
        assert(first.1 + y =~= first.1);
        law_split_lines_reassemble(x);
        lemma_split_no_break(first.1);
        assert(first.0 + Seq::<Seq<char>>::empty() =~= first.0);
    } else {
        lemma_split_concat(x, y.drop_last());
        assert((x + y).drop_last() =~= x + y.drop_last());
        assert((first.1 + y).drop_last() =~= first.1 + y.drop_last());
        assert((x + y).last() == y.last());
        assert((first.1 + y).last() == y.last());
        let second_prev = split_lines(first.1 + y.drop_last());
        assert((first.0 + second_prev.0).push(second_prev.1) =~= first.0 + second_prev.0.push(
            second_prev.1,
        ));
    }
}

/// Text that arrives in two pieces leaves the same lines and the same
/// pending text as when it arrives at once.
pub proof fn law_append_in_pieces(v: AppView, a: Seq<char>, b: Seq<char>)
    ensures
        v.appended(a).appended(b) == v.appended(a + b),
{
    reveal(AppView::appended);
    let first = split_lines(v.output_pending + a);
    lemma_split_concat(v.output_pending + a, b);
    assert(v.output_pending + (a + b) =~= (v.output_pending + a) + b);
    let second = split_lines(first.1 + b);
    assert(stored_lines(first.0 + second.0, v.cached_width) =~= stored_lines(
        first.0,
        v.cached_width,
    ) + stored_lines(second.0, v.cached_width));
    assert(v.output_lines + stored_lines(first.0, v.cached_width) + stored_lines(
        second.0,
        v.cached_width,
    ) =~= v.output_lines + stored_lines(first.0 + second.0, v.cached_width));
}

impl App {
    /// Takes in received text: each completed line is stored without its
    /// escape sequences, with its height at the current width.
    pub fn append_output(&mut self, s: &Vec<char>)
        ensures
            final(self)@ == old(self)@.appended(s@),
            final(self).last_output_area == old(self).last_output_area,
            final(self).menu_cursor == old(self).menu_cursor,
    {
        reveal(AppView::appended);
        let mut buf: Vec<char> = Vec::new();
        std::mem::swap(&mut buf, &mut self.output_pending);
        crate::text::push_chars(&mut buf, s);
        let mut lines: Vec<CachedLine> = Vec::new();
        std::mem::swap(&mut lines, &mut self.output_lines);
        let ghost whole = buf@;
        let ghost old_lines = line_views(lines@);
        let ghost mut raws: Seq<Seq<char>> = seq![];
        let width = self.cached_width;
        let mut pending: Vec<char> = Vec::new();
        let mut i: usize = 0;
        assert(buf@.take(0) =~= seq![]);
        assert(stored_lines(raws, width) =~= seq![]);
        assert(old_lines + stored_lines(raws, width) =~= old_lines);
        while i < buf.len()
            invariant
                buf@ == whole,
                i <= buf.len(),
                split_lines(whole.take(i as int)) == (raws, pending@),
                line_views(lines@) == old_lines + stored_lines(raws, width),
            decreases buf.len() - i,
        {
            proof {
                lemma_split_step(whole, i as int);
            }
            let c = buf[i];
            if c == '\n' {
                let text = strip_ansi(&pending);
                let height = if width > 0 {
                    compute_line_height(text.as_str(), width)
                } else {
                    1
                };
                let ghost before = lines@;
                lines.push(CachedLine { text, height });
                proof {
                    assert(stored_lines(raws.push(pending@), width) =~= stored_lines(raws, width).push(
                        stored_line(pending@, width),
                    ));
                    assert(line_views(lines@) =~= line_views(before).push(
                        stored_line(pending@, width),
                    ));
                    raws = raws.push(pending@);
                }
                pending = Vec::new();
            } else {
                pending.push(c);
            }
            i = i + 1;
        }
        assert(whole.take(buf.len() as int) =~= whole);
        self.output_lines = lines;
        self.output_pending = pending;
        self.dirty = true;
    }

    /// Drops the oldest lines beyond `MAX_OUTPUT_LINES`, moving the scroll
    /// position, the known height and the selection up by the rows they took.
    pub fn truncate_old_lines(&mut self)
        ensures
            final(self)@ == old(self)@.truncated(),
    {
        reveal(AppView::truncated);
        if self.output_lines.len() <= MAX_OUTPUT_LINES {
            return;
        }
        let excess = self.output_lines.len() - MAX_OUTPUT_LINES;
        let ghost views = line_views(self.output_lines@);
        let mut acc: u32 = 0;
        let mut i: usize = 0;
        assert(views.take(0) =~= seq![]);
        while i < excess
            invariant
                excess <= self.output_lines.len(),
                views == line_views(self.output_lines@),
                i <= excess,
                acc == capped(sum_heights(views.take(i as int))),
            decreases excess - i,
        {
            assert(views.take(i + 1).drop_last() =~= views.take(i as int));
            assert(views[i as int] == self.output_lines@[i as int]@);
            let h = self.output_lines[i].height as u32;
            acc = if acc + h > 65535 {
                65535
            } else {
                acc + h
            };
            i = i + 1;
        }
        let dropped = acc as u16;
        let tail = self.output_lines.split_off(excess);
        self.output_lines = tail;
        assert(line_views(self.output_lines@) =~= views.skip(excess as int));
        if !self.auto_scroll {
            self.scroll_top = self.scroll_top.saturating_sub(dropped);
        }
        self.last_total_visual_lines = self.last_total_visual_lines.saturating_sub(dropped);
        if let Some(sel) = self.selection {
            self.selection = Some(
                Selection {
                    anchor: (sel.anchor.0, sel.anchor.1.saturating_sub(dropped)),
                    cursor: (sel.cursor.0, sel.cursor.1.saturating_sub(dropped)),
                    mode: sel.mode,
                },
            );
        }
        self.dirty = true;
    }

    /// Rows the whole output takes at the current width, capped at
    /// `u16::MAX`.
    pub fn total_visual_lines(&self) -> (r: u16)
        ensures
            r == self@.visual_lines(),
    {
        let ghost views = line_views(self.output_lines@);
        let mut acc: u32 = 0;
        let mut i: usize = 0;
        assert(views.take(0) =~= seq![]);
        while i < self.output_lines.len()
            invariant
                views == line_views(self.output_lines@),
                i <= self.output_lines.len(),
                acc == capped(sum_heights(views.take(i as int))),
            decreases self.output_lines.len() - i,
        {
            assert(views.take(i + 1).drop_last() =~= views.take(i as int));
            assert(views[i as int] == self.output_lines@[i as int]@);
            let h = self.output_lines[i].height as u32;
            acc = if acc + h > 65535 {
                65535
            } else {
                acc + h
            };
            i = i + 1;
        }
        assert(views.take(self.output_lines.len() as int) =~= views);
        let pending: u32 = if self.output_pending.len() == 0 {
            0
        } else if self.cached_width > 0 {
            let stripped = strip_ansi(&self.output_pending);
            compute_line_height(stripped.as_str(), self.cached_width) as u32
        } else {
            1
        };
        if acc + pending > 65535 {
            65535
        } else {
            (acc + pending) as u16
        }
    }

    /// Computes the line heights for a new width.
    pub fn recompute_heights_for_width(&mut self, width: u16)
        ensures
            final(self)@ == old(self)@.rewrapped(width),
            final(self).last_output_area == old(self).last_output_area,
            final(self).menu_cursor == old(self).menu_cursor,
    {
        reveal(AppView::rewrapped);
        if width == self.cached_width || width == 0 {
            return;
        }
        if self.cached_width != 0 {
            self.selection = None;
            self.copy_pending = false;
        }
        let mut lines: Vec<CachedLine> = Vec::new();
        std::mem::swap(&mut lines, &mut self.output_lines);
        let ghost views = line_views(lines@);
        let mut i: usize = 0;
        while i < lines.len()
            invariant
                lines@.len() == views.len(),
                i <= lines.len(),
                forall|k: int|
                    0 <= k < i ==> (#[trigger] lines@[k])@ == (LineView {
                        text: views[k].text,
                        height: line_height(views[k].text, width),
                    }),
                forall|k: int| i <= k < lines@.len() ==> (#[trigger] lines@[k])@ == views[k],
            decreases lines.len() - i,
        {
            let text = lines[i].text.clone();
            let h = compute_line_height(text.as_str(), width);
            lines.set(i, CachedLine { text, height: h });
            i = i + 1;
        }
        assert(line_views(lines@) =~= views.map_values(
            |l: LineView| LineView { text: l.text, height: line_height(l.text, width) },
        ));
        self.output_lines = lines;
        self.cached_width = width;
    }

    fn settle_scroll(&mut self, height: u16) -> (scroll: u16)
        ensures
            final(self)@ == old(self)@.settled(height),
            scroll == final(self).last_scroll,
    {
        let total = self.total_visual_lines();
        let max_offset = total.saturating_sub(height);
        let scroll = if self.auto_scroll {
            max_offset
        } else {
            self.scroll_top = if self.scroll_top < max_offset {
                self.scroll_top
            } else {
                max_offset
            };
            self.scroll_top
        };
        self.last_total_visual_lines = total;
        self.last_scroll = scroll;
        scroll
    }

    fn pending_text(&self) -> (r: String)
        ensures
            r@ == pending_plain(self@),
    {
        if self.output_pending.len() == 0 {
            String::new()
        } else {
            strip_ansi(&self.output_pending)
        }
    }

    fn heights_shown(&self, pending_text: &String, width: u16) -> (heights: Vec<u16>)
        requires
            pending_text@ == pending_plain(self@),
        ensures
            heights@ == shown_heights(self@, width),
    {
        let mut heights: Vec<u16> = Vec::new();
        let ghost views = line_views(self.output_lines@);
        let mut i: usize = 0;
        while i < self.output_lines.len()
            invariant
                i <= self.output_lines.len(),
                views == line_views(self.output_lines@),
                heights@ == views.take(i as int).map_values(|l: LineView| l.height),
            decreases self.output_lines.len() - i,
        {
            assert(views[i as int] == self.output_lines@[i as int]@);
            heights.push(self.output_lines[i].height);
            assert(views.take(i + 1).map_values(|l: LineView| l.height) =~= views.take(
                i as int,
            ).map_values(|l: LineView| l.height).push(views[i as int].height));
            i = i + 1;
        }
        assert(views.take(self.output_lines.len() as int) =~= views);
        if pending_text.as_str().unicode_len() > 0 {
            heights.push(compute_line_height(pending_text.as_str(), width));
        }
        assert(heights@ =~= shown_heights(self@, width));
        heights
    }

    /// Readies the output area `area` for drawing. Returns what it shows,
    /// or nothing when an error message is shown in its place.
    pub fn prepare_output(&mut self, area: Area) -> (r: Option<OutputPlan>)
        requires
            old(self).wf(),
            area.wf(),
        ensures
            final(self)@ == old(self)@.prepared(area),
            final(self).wf(),
            r is None <==> old(self).port_error is Some,
            r matches Some(plan) ==> {
                &&& plan.pending_text@ == pending_plain(final(self)@)
                &&& is_window(
                    shown_heights(final(self)@, area.width),
                    final(self).last_scroll,
                    area.height,
                    plan.window,
                )
            },
    {
        reveal(AppView::prepared);
        self.last_output_height = area.height;
        self.last_output_area = area;
        if self.port_error.is_some() {
            return None;
        }
        self.recompute_heights_for_width(area.width);
        let scroll = self.settle_scroll(area.height);
        let pending_text = self.pending_text();
        let heights = self.heights_shown(&pending_text, area.width);
        let window = visible_window(&heights, scroll, area.height);
        Some(OutputPlan { window, pending_text })
    }
}

} // verus!
