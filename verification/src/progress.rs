//! The progress display of a cargo build.
//!
//! Cargo writes its progress to stderr. The bytes are cut into lines at
//! `\n` and `\r`, each line updates a small state (step, number of steps,
//! the crate being compiled, whether a bar is shown), and the state decides
//! what the bar looks like.
use vstd::prelude::*;
use vstd::utf8::{decode_utf8, valid_utf8};
use crate::text::{
    chars_of, is_whitespace, lemma_rskip_ws, lemma_skip_ws, rskip_ws, skip_ws, starts_with,
    starts_with_exec, trim, trim_exec, trim_start, white_space,
};
use crate::utils::{cargo_progress, compiling_crate, parse_cargo_progress, parse_compiling_crate};

verus! {

/// Number of cells of the progress bar.
pub const BAR_WIDTH: usize = 30;

// ───────────────────────── cutting stderr into lines ─────────────────────────

/// A line break for the stderr reader: `\n` or `\r`.
pub open spec fn is_break(b: u8) -> bool {
    b == 10 || b == 13
}

/// Collects stderr bytes until a line break.
pub struct LineSplitter {
    pub buffer: Vec<u8>,
}

/// What one byte does to the pending bytes: the completed line (if any) and
/// the bytes pending afterwards.
pub open spec fn split_step(pending: Seq<u8>, b: u8) -> (Option<Seq<u8>>, Seq<u8>) {
    if is_break(b) {
        if pending.len() > 0 {
            (Some(pending), seq![])
        } else {
            (None, pending)
        }
    } else {
        (None, pending.push(b))
    }
}

impl LineSplitter {
    /// A splitter with nothing pending.
    pub fn new() -> (r: Self)
        ensures
            r.buffer@ == Seq::<u8>::empty(),
    {
        LineSplitter { buffer: Vec::new() }
    }

    /// Feeds one byte; returns the line that it completes, if any. Empty
    /// lines are not reported.
    pub fn push_byte(&mut self, b: u8) -> (line: Option<Vec<u8>>)
        ensures
            ({
                let (emitted, pending) = split_step(old(self).buffer@, b);
                &&& final(self).buffer@ == pending
                &&& match line {
                    Some(l) => emitted == Some(l@),
                    None => emitted is None,
                }
            }),
    {
        if b == 10 || b == 13 {
            if self.buffer.len() > 0 {
                let mut line: Vec<u8> = Vec::new();
                std::mem::swap(&mut line, &mut self.buffer);
                Some(line)
            } else {
                None
            }
        } else {
            self.buffer.push(b);
            None
        }
    }
}

/// The lines and the pending bytes after feeding `bytes`, starting from
/// `pending`.
pub open spec fn feed(pending: Seq<u8>, bytes: Seq<u8>) -> (Seq<Seq<u8>>, Seq<u8>)
    decreases bytes.len(),
{
    if bytes.len() == 0 {
        (seq![], pending)
    } else {
        let (lines, p) = feed(pending, bytes.drop_last());
        let (emitted, p2) = split_step(p, bytes.last());
        match emitted {
            Some(l) => (lines.push(l), p2),
            None => (lines, p2),
        }
    }
}

/// The line-break-free pieces of `bytes` that are followed by a break:
/// each maximal run of non-break bytes that ends at a `\n` or `\r`, with
/// the empty runs left out.
pub open spec fn terminated_pieces(bytes: Seq<u8>) -> Seq<Seq<u8>>
    decreases bytes.len(),
{
    if bytes.len() == 0 {
        seq![]
    } else {
        let k = last_break_before(bytes, bytes.len() as int);
        if k < 0 {
            seq![]
        } else {
            let before = bytes.subrange(0, k);
            let j = last_break_before(before, k);
            let piece = bytes.subrange(j + 1, k);
            proof {
                lemma_last_break_before(bytes, bytes.len() as int);
                lemma_last_break_before(before, k);
            }
            if piece.len() > 0 {
                terminated_pieces(before).push(piece)
            } else {
                terminated_pieces(before)
            }
        }
    }
}

/// The position of the last break strictly before `j` (-1 if there is none).
pub open spec fn last_break_before(bytes: Seq<u8>, j: int) -> int
    decreases j,
{
    if j <= 0 || j > bytes.len() {
        -1
    } else if is_break(bytes[j - 1]) {
        j - 1
    } else {
        last_break_before(bytes, j - 1)
    }
}

pub proof fn lemma_last_break_before(bytes: Seq<u8>, j: int)
    requires
        0 <= j <= bytes.len(),
    ensures
        -1 <= last_break_before(bytes, j) < j,
        last_break_before(bytes, j) >= 0 ==> is_break(bytes[last_break_before(bytes, j)]),
        forall|t: int| last_break_before(bytes, j) < t < j ==> !is_break(bytes[t]),
    decreases j,
{
    if j > 0 && !is_break(bytes[j - 1]) {
        lemma_last_break_before(bytes, j - 1);
    }
}

/// The bytes after the last break.
pub open spec fn unterminated_tail(bytes: Seq<u8>) -> Seq<u8> {
    bytes.subrange(last_break_before(bytes, bytes.len() as int) + 1, bytes.len() as int)
}

/// Feeding a whole byte stream, one byte at a time, to an empty splitter
/// reports exactly the non-empty pieces that end at a line break, in order,
/// and keeps the bytes after the last break pending.
pub proof fn lemma_feed_reports_terminated_pieces(bytes: Seq<u8>)
    ensures
        feed(Seq::<u8>::empty(), bytes) == (terminated_pieces(bytes), unterminated_tail(bytes)),
    decreases bytes.len(),
{
    lemma_last_break_before(bytes, bytes.len() as int);
    if bytes.len() > 0 {
        let init = bytes.drop_last();
        let b = bytes.last();
        let n = bytes.len() as int;
        lemma_feed_reports_terminated_pieces(init);
        lemma_last_break_before(init, n - 1);
        lemma_last_break_same_prefix(bytes, init, n - 1);
        let k0 = last_break_before(init, n - 1);
        let p = unterminated_tail(init);
        if is_break(b) {
            assert(last_break_before(bytes, n) == n - 1);
            assert(bytes.subrange(0, n - 1) =~= init);
            assert(bytes.subrange(k0 + 1, n - 1) =~= p);
            assert(unterminated_tail(bytes) =~= Seq::<u8>::empty());
            if p.len() == 0 {
                assert(p =~= Seq::<u8>::empty());
            }
        } else {
            assert(last_break_before(bytes, n) == k0);
            assert(unterminated_tail(bytes) =~= p.push(b));
            if k0 >= 0 {
                let before = bytes.subrange(0, k0);
                assert(before =~= init.subrange(0, k0));
                let j = last_break_before(before, k0);
                lemma_last_break_before(before, k0);
                assert(bytes.subrange(j + 1, k0) =~= init.subrange(j + 1, k0));
                assert(terminated_pieces(bytes) == terminated_pieces(init));
            } else {
                assert(terminated_pieces(bytes) =~= Seq::<Seq<u8>>::empty());
                assert(terminated_pieces(init) =~= Seq::<Seq<u8>>::empty());
            }
        }
    }
}

/// Two byte sequences that agree before `j` have the same last break before
/// `j`.
proof fn lemma_last_break_same_prefix(a: Seq<u8>, b: Seq<u8>, j: int)
    requires
        0 <= j <= a.len(),
        j <= b.len(),
        forall|t: int| 0 <= t < j ==> a[t] == b[t],
    ensures
        last_break_before(a, j) == last_break_before(b, j),
    decreases j,
{
    if j > 0 {
        lemma_last_break_same_prefix(a, b, j - 1);
    }
}

/// The name of what `String::from_utf8_lossy` makes of some bytes.
pub uninterp spec fn utf8_lossy(bytes: Seq<u8>) -> Seq<char>;

/// `String::from_utf8_lossy`: the text of the bytes, with invalid sequences
/// replaced; on valid UTF-8 it is the decoded text, as its documentation
/// says. The replacement of invalid sequences is not restated.
#[verifier::external_body]
pub(crate) fn utf8_lossy_string(bytes: &Vec<u8>) -> (s: String)
    ensures
        s@ == utf8_lossy(bytes@),
        valid_utf8(bytes@) ==> s@ == decode_utf8(bytes@),
{
    String::from_utf8_lossy(bytes).to_string()
}

// ───────────────────────── the progress state ─────────────────────────

/// What the progress display knows about the build.
pub struct ProgressState {
    pub current: usize,
    pub total: usize,
    pub last_crate_action: String,
    pub last_crate: String,
    pub active: bool,
}

/// The model of a progress state.
pub struct ProgressModel {
    pub current: nat,
    pub total: nat,
    pub action: Seq<char>,
    pub krate: Seq<char>,
    pub active: bool,
}

impl View for ProgressState {
    type V = ProgressModel;

    open spec fn view(&self) -> ProgressModel {
        ProgressModel {
            current: self.current as nat,
            total: self.total as nat,
            action: self.last_crate_action@,
            krate: self.last_crate@,
            active: self.active,
        }
    }
}

/// What a stderr line leads to on the screen.
pub enum LineOutcome {
    /// A progress line: the bar is redrawn.
    Progress,
    /// A line naming the crate being compiled: the bar is redrawn.
    Crate,
    /// Any other line. `finished` (a `Running `, `Doc-tests ` or `Finished `
    /// line): the bar is hidden and the line cleared. `echo` (a non-empty
    /// line other than `Fresh ` and `Finished ` lines): the line is printed
    /// and the bar redrawn.
    Other { finished: bool, echo: bool },
}

/// A line that ends the build's progress.
pub open spec fn is_finish_line(t: Seq<char>) -> bool {
    starts_with(t, "Running "@) || starts_with(t, "Doc-tests "@) || starts_with(t, "Finished "@)
}

/// A line that is printed above the bar.
pub open spec fn is_echo_line(t: Seq<char>) -> bool {
    t.len() > 0 && !starts_with(t, "Fresh "@) && !starts_with(t, "Finished "@)
}

/// The state after a stderr line, and what the line leads to.
pub open spec fn next_progress(m: ProgressModel, line: Seq<char>) -> (ProgressModel, LineOutcome) {
    match cargo_progress(line) {
        Some((cur, tot, _)) => (
            ProgressModel { current: cur, total: tot, active: true, ..m },
            LineOutcome::Progress,
        ),
        None => match compiling_crate(line) {
            Some((action, name)) => (
                ProgressModel { action: action, krate: name, ..m },
                LineOutcome::Crate,
            ),
            None => {
                let t = trim(line);
                let finished = is_finish_line(t);
                (
                    ProgressModel { active: if finished { false } else { m.active }, ..m },
                    LineOutcome::Other { finished: finished, echo: is_echo_line(t) },
                )
            },
        },
    }
}

impl ProgressState {
    /// The state before the first line: nothing known, no bar.
    pub fn new() -> (r: Self)
        ensures
            r@.current == 0,
            r@.total == 0,
            r@.action == "Compiling"@,
            r@.krate == Seq::<char>::empty(),
            !r@.active,
    {
        ProgressState {
            current: 0,
            total: 0,
            last_crate_action: String::from_str("Compiling"),
            last_crate: String::new(),
            active: false,
        }
    }

    /// Updates the state with one stderr line.
    pub fn handle_line(&mut self, line: &str) -> (out: LineOutcome)
        ensures
            (final(self)@, out) == next_progress(old(self)@, line@),
    {
        if let Some((current, total, _details)) = parse_cargo_progress(line) {
            self.current = current;
            self.total = total;
            self.active = true;
            return LineOutcome::Progress;
        }
        if let Some((action, crate_name)) = parse_compiling_crate(line) {
            self.last_crate_action = action;
            self.last_crate = crate_name;
            return LineOutcome::Crate;
        }
        let lv = chars_of(line);
        let t = trim_exec(&lv);
        let finished = starts_with_exec(&t, &chars_of("Running ")) || starts_with_exec(
            &t,
            &chars_of("Doc-tests "),
        ) || starts_with_exec(&t, &chars_of("Finished "));
        if finished {
            self.active = false;
        }
        let echo = t.len() > 0 && !starts_with_exec(&t, &chars_of("Fresh ")) && !starts_with_exec(
            &t,
            &chars_of("Finished "),
        );
        LineOutcome::Other { finished, echo }
    }

    /// Updates the state with one raw stderr line: its bytes, read as text
    /// the lossy way.
    pub fn handle_raw_line(&mut self, bytes: &Vec<u8>) -> (out: LineOutcome)
        ensures
            (final(self)@, out) == next_progress(old(self)@, utf8_lossy(bytes@)),
    {
        let line = utf8_lossy_string(bytes);
        self.handle_line(line.as_str())
    }
}

// ───────────────────────── the bar ─────────────────────────

/// The colours of the bar.
pub enum Tone {
    Magenta,
    Cyan,
    Yellow,
    Green,
}

/// The label in front of the crate name.
pub enum ActionLabel {
    Checking,
    Documenting,
    Compiling,
}

/// What the bar shows.
pub struct ProgressBar {
    /// One entry per cell: the colour of a filled cell, `None` for an empty
    /// one.
    pub cells: Vec<Option<Tone>>,
    pub percent: usize,
    pub percent_tone: Tone,
    pub label: ActionLabel,
    /// The crate being compiled, `None` before the first one is known.
    pub crate_name: Option<String>,
    pub current: usize,
    pub total: usize,
}

/// The colour of filled cell `i`: a gradient over the width of the bar.
pub open spec fn cell_tone(i: int) -> Tone {
    if i < 8 {
        Tone::Magenta
    } else if i < 16 {
        Tone::Cyan
    } else if i < 24 {
        Tone::Yellow
    } else {
        Tone::Green
    }
}

/// The colour of the percentage.
pub open spec fn percent_tone(pct: int) -> Tone {
    if pct < 33 {
        Tone::Magenta
    } else if pct < 66 {
        Tone::Cyan
    } else if pct < 90 {
        Tone::Yellow
    } else {
        Tone::Green
    }
}

/// The label for the last cargo action.
pub open spec fn action_label(action: Seq<char>) -> ActionLabel {
    if starts_with(action, "Check"@) {
        ActionLabel::Checking
    } else if starts_with(action, "Doc"@) {
        ActionLabel::Documenting
    } else {
        ActionLabel::Compiling
    }
}

/// The number of filled cells.
pub open spec fn filled_cells(m: ProgressModel) -> int {
    (m.current * BAR_WIDTH as nat) as int / m.total as int
}

fn tone_of_cell(i: usize) -> (t: Tone)
    ensures
        t == cell_tone(i as int),
{
    if i < 8 {
        Tone::Magenta
    } else if i < 16 {
        Tone::Cyan
    } else if i < 24 {
        Tone::Yellow
    } else {
        Tone::Green
    }
}

fn tone_of_percent(p: usize) -> (t: Tone)
    ensures
        t == percent_tone(p as int),
{
    if p < 33 {
        Tone::Magenta
    } else if p < 66 {
        Tone::Cyan
    } else if p < 90 {
        Tone::Yellow
    } else {
        Tone::Green
    }
}

/// What the bar shows for a state; `None` while no bar is shown (before a
/// progress line, after a finish line, or with no steps).
pub fn progress_bar(state: &ProgressState) -> (r: Option<ProgressBar>)
    requires
        state.current * 100 <= usize::MAX,
    ensures
        !state.active || state.total == 0 <==> r is None,
        r matches Some(bar) ==> {
            &&& bar.cells.len() == BAR_WIDTH
            &&& forall|i: int|
                0 <= i < BAR_WIDTH ==> #[trigger] bar.cells@[i] == if i < filled_cells(state@) {
                    Some(cell_tone(i))
                } else {
                    None::<Tone>
                }
            &&& bar.percent == (state.current * 100) as int / state.total as int
            &&& bar.percent_tone == percent_tone(bar.percent as int)
            &&& bar.label == action_label(state.last_crate_action@)
            &&& match bar.crate_name {
                None => state.last_crate@.len() == 0,
                Some(n) => state.last_crate@.len() > 0 && n@ == state.last_crate@,
            }
            &&& bar.current == state.current
            &&& bar.total == state.total
        },
{
    if !state.active || state.total == 0 {
        return None;
    }
    let completed = (state.current * BAR_WIDTH) / state.total;
    let mut cells: Vec<Option<Tone>> = Vec::new();
    let mut i: usize = 0;
    while i < BAR_WIDTH
        invariant
            i <= BAR_WIDTH,
            cells.len() == i,
            completed == filled_cells(state@),
            forall|j: int|
                0 <= j < i ==> #[trigger] cells@[j] == if j < completed {
                    Some(cell_tone(j))
                } else {
                    None::<Tone>
                },
        decreases BAR_WIDTH - i,
    {
        if i < completed {
            cells.push(Some(tone_of_cell(i)));
        } else {
            cells.push(None);
        }
        i += 1;
    }
    let pct = (state.current * 100) / state.total;
    let action = chars_of(state.last_crate_action.as_str());
    let label = if starts_with_exec(&action, &chars_of("Check")) {
        ActionLabel::Checking
    } else if starts_with_exec(&action, &chars_of("Doc")) {
        ActionLabel::Documenting
    } else {
        ActionLabel::Compiling
    };
    let crate_name = if state.last_crate.as_str().is_empty() {
        None
    } else {
        Some(state.last_crate.clone())
    };
    Some(
        ProgressBar {
            cells,
            percent: pct,
            percent_tone: tone_of_percent(pct),
            label,
            crate_name,
            current: state.current,
            total: state.total,
        },
    )
}

/// The extra arguments that make cargo print its progress bar in a pipe.
pub fn cargo_progress_config_args() -> (r: Vec<&'static str>)
    ensures
        r@.len() == 4,
        r@[0]@ == "--config"@,
        r@[1]@ == "term.progress.when=\"always\""@,
        r@[2]@ == "--config"@,
        r@[3]@ == "term.progress.width=100"@,
{
    vec!["--config", "term.progress.when=\"always\"", "--config", "term.progress.width=100"]
}

// ───────────────────────── laws of the progress display ─────────────────────────

/// A progress line always shows the bar when it has steps: after it the
/// state is active and holds the line's numbers.
pub proof fn lemma_progress_line_activates(m: ProgressModel, line: Seq<char>)
    requires
        cargo_progress(line) is Some,
    ensures
        next_progress(m, line).0.active,
        cargo_progress(line) matches Some((cur, tot, _)) && next_progress(m, line).0.current == cur
            && next_progress(m, line).0.total == tot,
        next_progress(m, line).1 is Progress,
{
}

/// A `Finished ` line hides the bar: afterwards no bar is drawn until the
/// next progress line.
pub proof fn lemma_finished_line_hides_bar(m: ProgressModel, line: Seq<char>)
    requires
        starts_with(trim(line), "Finished "@),
    ensures
        !next_progress(m, line).0.active,
        next_progress(m, line).0.current == m.current,
        next_progress(m, line).0.total == m.total,
        next_progress(m, line).1 == (LineOutcome::Other { finished: true, echo: false }),
{
    reveal_strlit("Finished ");
    reveal_strlit("Building [");
    reveal_strlit("Compiling ");
    reveal_strlit("Checking ");
    reveal_strlit("Documenting ");
    let t = trim(line);
    let ts = trim_start(line);
    lemma_skip_ws(line, 0);
    lemma_rskip_ws(ts, ts.len() as int);
    assert(t.subrange(0, 9) == "Finished "@);
    assert("Finished "@[0] == 'F');
    assert(t.subrange(0, 9)[0] == t[0]);
    assert(t[0] == 'F');
    assert(ts[0] == t[0]);
    assert(!starts_with(ts, "Building ["@)) by {
        if starts_with(ts, "Building ["@) {
            assert(ts.subrange(0, 10)[0] == 'B');
        }
    }
    assert(cargo_progress(line) is None);
    assert(!starts_with(t, "Compiling "@)) by {
        if starts_with(t, "Compiling "@) {
            assert(t.subrange(0, 10)[0] == 'C');
        }
    }
    assert(!starts_with(t, "Checking "@)) by {
        if starts_with(t, "Checking "@) {
            assert(t.subrange(0, 9)[0] == 'C');
        }
    }
    assert(!starts_with(t, "Documenting "@)) by {
        if starts_with(t, "Documenting "@) {
            assert(t.subrange(0, 12)[0] == 'D');
        }
    }
    assert(compiling_crate(line) is None);
}

} // verus!
