use vstd::prelude::*;
use vstd::utf8::valid_utf8;
use crate::classify::{classify_output, is_visible_spec, DiagnosticItem};
use crate::selection::{next_selection, previous_selection, NavigableList};

verus! {

/// The fixed interval, in milliseconds, after which the loop redraws even
/// without input.
pub const TICK_RATE_MS: u64 = 250;

/// A key press, as far as the dashboard tells keys apart.
#[derive(Clone, Copy, Debug, PartialEq, Eq, Structural)]
pub enum Key {
    Char(char),
    Down,
    Up,
    Left,
    Other,
}

/// Whether the render loop goes on.
#[derive(Clone, Copy, Debug, PartialEq, Eq, Structural)]
pub enum Phase {
    Running,
    Stopped,
}

/// The visible items of a sequence, in their order.
pub open spec fn visible_items(items: Seq<DiagnosticItem>) -> Seq<DiagnosticItem>
    decreases items.len(),
{
    if items.len() == 0 {
        Seq::empty()
    } else {
        let rest = visible_items(items.drop_last());
        if is_visible_spec(items.last()) {
            rest.push(items.last())
        } else {
            rest
        }
    }
}

/// How a key moves the selection of a list of `n` items.
pub open spec fn key_selection(sel: Option<usize>, n: nat, key: Option<Key>) -> Option<usize> {
    match key {
        Some(Key::Down) => next_selection(sel, n),
        Some(Key::Up) => previous_selection(sel, n),
        Some(Key::Left) => None,
        _ => sel,
    }
}

/// The quit key.
pub open spec fn is_quit(key: Option<Key>) -> bool {
    key == Some(Key::Char('q'))
}

/// The phase after one iteration's input: a stopped loop stays stopped; a
/// running one stops on the quit key or once the notice was emitted.
pub open spec fn phase_after(phase: Phase, notice_shown: bool, key: Option<Key>) -> Phase {
    if phase == Phase::Stopped || is_quit(key) || notice_shown {
        Phase::Stopped
    } else {
        Phase::Running
    }
}

/// What one frame shows, as text.
pub enum FrameModel {
    /// The list pane's rows, its highlighted row, and the detail pane's text.
    Panes { rows: Seq<Seq<char>>, selected: Option<usize>, detail: Seq<char> },
    /// Nothing is painted: there is nothing to show.
    Empty,
}

/// The contents of the two panes.
pub struct PaneView {
    pub rows: Vec<String>,
    pub selected: Option<usize>,
    pub detail: String,
}

/// One frame to paint.
pub enum Frame {
    Panes(PaneView),
    Empty,
}

impl Frame {
    pub open spec fn model(&self) -> FrameModel {
        match self {
            Frame::Panes(p) => FrameModel::Panes {
                rows: p.rows@.map_values(|r: String| r@),
                selected: p.selected,
                detail: p.detail@,
            },
            Frame::Empty => FrameModel::Empty,
        }
    }
}

/// What a draw yields: the frame, and whether the one-time notice that there
/// is nothing to display is due now.
pub struct DrawOutput {
    pub frame: Frame,
    pub notice: bool,
}

/// The state of one dashboard session.
pub struct SessionState {
    /// Every classified item, shown or not.
    pub items: Vec<DiagnosticItem>,
    /// The visible items, with the selection.
    pub list: NavigableList<DiagnosticItem>,
    /// Whether the notice that there is nothing to display was emitted.
    pub notice_shown: bool,
    pub phase: Phase,
}

/// The frame that a state shows.
pub open spec fn frame_of(s: SessionState) -> FrameModel {
    if s.list.items@.len() == 0 {
        FrameModel::Empty
    } else {
        FrameModel::Panes {
            rows: s.list.items@.map_values(|it: DiagnosticItem| it.raw_text@),
            selected: s.list.selected,
            detail: match s.list.selected {
                Some(i) => s.list.items@[i as int].raw_text@,
                None => Seq::empty(),
            },
        }
    }
}

/// The state after a draw: only the notice flag may change.
pub open spec fn drawn_state(s: SessionState) -> SessionState {
    SessionState {
        notice_shown: s.notice_shown || s.list.items@.len() == 0,
        ..s
    }
}

impl SessionState {
    pub open spec fn wf(&self) -> bool {
        &&& self.list.wf()
        &&& self.list.items@ == visible_items(self.items@)
    }

    /// A running session over classified items; the list holds the visible
    /// ones, in order, with nothing selected.
    pub fn new(items: Vec<DiagnosticItem>) -> (r: Self)
        ensures
            r.wf(),
            r.items@ == items@,
            r.list.selected is None,
            !r.notice_shown,
            r.phase == Phase::Running,
    {
        let mut visible: Vec<DiagnosticItem> = Vec::new();
        let mut i: usize = 0;
        while i < items.len()
            invariant
                i <= items@.len(),
                visible@ == visible_items(items@.take(i as int)),
            decreases items@.len() - i,
        {
            assert(items@.take(i + 1).drop_last() =~= items@.take(i as int));
            if items[i].is_visible() {
                visible.push(items[i].duplicate());
            }
            i = i + 1;
        }
        assert(items@.take(items@.len() as int) =~= items@);
        SessionState {
            items,
            list: NavigableList::with_items(visible),
            notice_shown: false,
            phase: Phase::Running,
        }
    }

    /// A running session over what a build wrote to standard output and
    /// standard error.
    pub fn from_output(stdout: &[u8], stderr: &[u8]) -> (r: Self)
        ensures
            r.wf(),
            r.items@.len() == 2,
            r.items@[0].raw_text@ == crate::classify::stream_text(stdout@),
            r.items@[0].classification == crate::classify::stdout_classification(stdout@),
            r.items@[1].raw_text@ == crate::classify::stream_text(stderr@),
            r.items@[1].classification == crate::classify::stderr_stream_classification(stderr@),
            !valid_utf8(stdout@) ==> r.list.items@[0] == r.items@[0],
            !valid_utf8(stderr@) ==> r.list.items@.last() == r.items@[1],
            r.list.selected is None,
            !r.notice_shown,
            r.phase == Phase::Running,
    {
        let r = SessionState::new(classify_output(stdout, stderr));
        assert(r.items@.drop_last().drop_last() =~= Seq::<DiagnosticItem>::empty());
        assert(r.items@.drop_last() =~= seq![r.items@[0]]);
        assert(visible_items(r.items@.drop_last().drop_last()) == Seq::<DiagnosticItem>::empty());
        assert(visible_items(r.items@.drop_last()) == if is_visible_spec(r.items@[0]) {
            seq![r.items@[0]]
        } else {
            Seq::<DiagnosticItem>::empty()
        });
        r
    }

    pub fn is_stopped(&self) -> (r: bool)
        ensures
            r == (self.phase == Phase::Stopped),
    {
        match self.phase {
            Phase::Stopped => true,
            Phase::Running => false,
        }
    }

    /// Composes the frame for the current state. With no visible item the
    /// frame is empty and, the first time only, the notice is due.
    pub fn draw(&mut self) -> (r: DrawOutput)
        requires
            old(self).wf(),
        ensures
            r.frame.model() == frame_of(*old(self)),
            r.notice == (old(self).list.items@.len() == 0 && !old(self).notice_shown),
            *final(self) == drawn_state(*old(self)),
    {
        if self.list.items.len() == 0 {
            let notice = !self.notice_shown;
            self.notice_shown = true;
            return DrawOutput { frame: Frame::Empty, notice };
        }
        let mut rows: Vec<String> = Vec::new();
        let mut i: usize = 0;
        while i < self.list.items.len()
            invariant
                i <= self.list.items@.len(),
                rows@.len() == i,
                forall|j: int| 0 <= j < i ==> #[trigger] rows@[j]@ == self.list.items@[j].raw_text@,
            decreases self.list.items@.len() - i,
        {
            rows.push(self.list.items[i].raw_text.clone());
            i = i + 1;
        }
        let detail = match self.list.selected {
            Some(k) => self.list.items[k].raw_text.clone(),
            None => String::new(),
        };
        let view = PaneView { rows, selected: self.list.selected, detail };
        assert(view.rows@.map_values(|r: String| r@) =~= self.list.items@.map_values(
            |it: DiagnosticItem| it.raw_text@,
        ));
        DrawOutput { frame: Frame::Panes(view), notice: false }
    }

    /// Acts on the input of one loop iteration (a key, or none when the poll
    /// timed out): `q` stops the loop, down and up move the selection forward
    /// and back, left clears it, other keys are ignored. A session whose notice
    /// was emitted stops at the end of the iteration. A stopped session stays
    /// as it is.
    pub fn handle(&mut self, key: Option<Key>)
        requires
            old(self).wf(),
        ensures
            final(self).wf(),
            final(self).items@ == old(self).items@,
            final(self).list.items@ == old(self).list.items@,
            final(self).notice_shown == old(self).notice_shown,
            final(self).phase == phase_after(old(self).phase, old(self).notice_shown, key),
            old(self).phase == Phase::Stopped ==> final(self).list.selected == old(self).list.selected,
            old(self).phase == Phase::Running ==> final(self).list.selected == key_selection(
                old(self).list.selected,
                old(self).list.items@.len(),
                key,
            ),
    {
        if self.is_stopped() {
            return;
        }
        match key {
            Some(Key::Char(c)) => {
                if c == 'q' {
                    self.phase = Phase::Stopped;
                }
            },
            Some(Key::Down) => self.list.next(),
            Some(Key::Up) => self.list.previous(),
            Some(Key::Left) => self.list.unselect(),
            _ => {},
        }
        if self.notice_shown {
            self.phase = Phase::Stopped;
        }
    }
}

/// Drawing a state twice in a row, with no input between, yields the same
/// frame both times, and the second draw leaves the state as the first left it.
pub proof fn lemma_draw_twice_same_frame(s: SessionState)
    requires
        s.wf(),
    ensures
        drawn_state(s).wf(),
        frame_of(drawn_state(s)) == frame_of(s),
        drawn_state(drawn_state(s)) == drawn_state(s),
{
}

/// The quit key stops a running loop in the iteration that reads it,
/// whatever is selected and whether or not the notice was emitted.
pub proof fn lemma_quit_stops(s: SessionState)
    requires
        s.wf(),
    ensures
        phase_after(s.phase, s.notice_shown, Some(Key::Char('q'))) == Phase::Stopped,
{
}

/// With nothing to show, the first draw emits the notice and the loop stops
/// at the end of that same iteration, whatever the input.
pub proof fn lemma_empty_list_stops_after_one_draw(s: SessionState, key: Option<Key>)
    requires
        s.wf(),
        s.list.items@.len() == 0,
    ensures
        frame_of(s) == FrameModel::Empty,
        drawn_state(s).notice_shown,
        phase_after(drawn_state(s).phase, drawn_state(s).notice_shown, key) == Phase::Stopped,
{
}

/// How long the loop may wait for input before the next tick, in
/// milliseconds: what is left of the tick interval, or nothing once it passed.
pub fn poll_timeout(tick_rate_ms: u64, elapsed_ms: u64) -> (r: u64)
    ensures
        r == if elapsed_ms >= tick_rate_ms { 0 } else { tick_rate_ms - elapsed_ms },
{
    if elapsed_ms >= tick_rate_ms {
        0
    } else {
        tick_rate_ms - elapsed_ms
    }
}

/// Whether the tick deadline has passed, so that it is to be reset.
pub fn tick_due(tick_rate_ms: u64, elapsed_ms: u64) -> (r: bool)
    ensures
        r == (elapsed_ms >= tick_rate_ms),
{
    elapsed_ms >= tick_rate_ms
}

} // verus!
