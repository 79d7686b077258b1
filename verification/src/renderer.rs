//! The differential renderer: turns a character grid (and optionally the
//! previous frame's grid) into the minimal ordered set of line writes.

use vstd::prelude::*;
use vstd::arithmetic::div_mod::{lemma_fundamental_div_mod, lemma_fundamental_div_mod_converse, lemma_mod_bound};
use crate::config::RenderConfig;
use crate::grid::CharacterGrid;

verus! {

/// One hardware write: the zero-based row and the text to place there.
pub struct WriteInstruction {
    pub row: usize,
    pub text: Vec<char>,
}

/// The characters treated as whitespace when deciding that a line is blank:
/// the Unicode white-space code points (tab through carriage return, space,
/// next line, no-break space, ogham space mark, the en-quad to hair-space
/// range, the line and paragraph separators, narrow no-break space, medium
/// mathematical space, and ideographic space).
pub open spec fn is_space_spec(c: char) -> bool {
    let u = c as int;
    ||| 0x09 <= u <= 0x0D
    ||| u == 0x20
    ||| u == 0x85
    ||| u == 0xA0
    ||| u == 0x1680
    ||| 0x2000 <= u <= 0x200A
    ||| u == 0x2028
    ||| u == 0x2029
    ||| u == 0x202F
    ||| u == 0x205F
    ||| u == 0x3000
}

/// A line is blank when every character of it is whitespace.
pub open spec fn is_blank_spec(line: Seq<char>) -> bool {
    forall|i: int| 0 <= i < line.len() ==> is_space_spec(#[trigger] line[i])
}

/// The line cut to the hardware column ceiling: unchanged when it already
/// fits, else its first `width` characters.
pub open spec fn truncate_spec(line: Seq<char>, width: int) -> Seq<char> {
    if line.len() <= width {
        line
    } else {
        line.subrange(0, width)
    }
}

/// True when the previous frame has a row `r` identical to the current one:
/// the write may be skipped.
pub open spec fn prev_line_matches(cur: Seq<Seq<char>>, prev: Option<Seq<Seq<char>>>, r: int) -> bool {
    match prev {
        Some(p) => 0 <= r < p.len() && p[r] == cur[r],
        None => false,
    }
}

/// Row `r` produces a write: it is under both ceilings, it differs from the
/// previous frame (or there is none), and its truncated text is not blank.
pub open spec fn line_kept(
    cur: Seq<Seq<char>>,
    prev: Option<Seq<Seq<char>>>,
    r: int,
    width: int,
    count: int,
) -> bool {
    &&& 0 <= r < count
    &&& r < cur.len()
    &&& !prev_line_matches(cur, prev, r)
    &&& !is_blank_spec(truncate_spec(cur[r], width))
}

/// The view of an optional previous grid.
pub open spec fn prev_view(previous: Option<&CharacterGrid>) -> Option<Seq<Seq<char>>> {
    match previous {
        Some(g) => Some(g@),
        None => None,
    }
}

/// Truncation is idempotent: a line that already fits the column ceiling is
/// kept as it is, so re-rendering an already-truncated line yields the very
/// same text, and cutting twice is the same as cutting once.
pub proof fn lemma_truncate_idempotent(line: Seq<char>, width: int)
    requires
        0 <= width,
    ensures
        truncate_spec(line, width).len() <= width || truncate_spec(line, width) == line,
        line.len() <= width ==> truncate_spec(line, width) == line,
        truncate_spec(truncate_spec(line, width), width) == truncate_spec(line, width),
{
}

/// Against an identical previous frame no row is kept: a repeated frame
/// renders to an empty instruction sequence.
pub proof fn lemma_identical_frames_keep_nothing(cur: Seq<Seq<char>>, r: int, width: int, count: int)
    ensures
        !line_kept(cur, Some(cur), r, width, count),
{
}

/// Without a previous frame a row is kept exactly when it is under both
/// ceilings and not blank after truncation: the first frame of a sequence
/// writes every non-blank eligible line, and nothing else.
pub proof fn lemma_first_frame_keeps_nonblank(cur: Seq<Seq<char>>, r: int, width: int, count: int)
    ensures
        line_kept(cur, None, r, width, count) <==> (0 <= r < count && r < cur.len()
            && !is_blank_spec(truncate_spec(cur[r], width))),
{
}

/// Decides `is_space_spec`.
pub fn is_space(c: char) -> (b: bool)
    ensures
        b == is_space_spec(c),
{
    let u = c as u32;
    (0x09 <= u && u <= 0x0D)
        || u == 0x20
        || u == 0x85
        || u == 0xA0
        || u == 0x1680
        || (0x2000 <= u && u <= 0x200A)
        || u == 0x2028
        || u == 0x2029
        || u == 0x202F
        || u == 0x205F
        || u == 0x3000
}

/// Decides `is_blank_spec`.
pub fn is_blank(line: &Vec<char>) -> (b: bool)
    ensures
        b == is_blank_spec(line@),
{
    let mut i: usize = 0;
    while i < line.len()
        invariant
            0 <= i <= line@.len(),
            forall|j: int| 0 <= j < i ==> is_space_spec(#[trigger] line@[j]),
        decreases line@.len() - i,
    {
        if !is_space(line[i]) {
            return false;
        }
        i = i + 1;
    }
    true
}

/// Computes `truncate_spec`.
pub fn truncate_line(line: &Vec<char>, width: usize) -> (t: Vec<char>)
    ensures
        t@ == truncate_spec(line@, width as int),
{
    let n = if line.len() <= width { line.len() } else { width };
    let mut t: Vec<char> = Vec::new();
    let mut i: usize = 0;
    while i < n
        invariant
            0 <= i <= n,
            n == if line@.len() <= width { line@.len() as int } else { width as int },
            t@.len() == i,
            forall|j: int| 0 <= j < i ==> t@[j] == line@[j],
        decreases n - i,
    {
        t.push(line[i]);
        i = i + 1;
    }
    proof {
        assert(t@ =~= truncate_spec(line@, width as int));
    }
    t
}

/// Decides character-for-character equality of two lines.
pub fn lines_equal(a: &Vec<char>, b: &Vec<char>) -> (eq: bool)
    ensures
        eq == (a@ == b@),
{
    if a.len() != b.len() {
        return false;
    }
    let mut i: usize = 0;
    while i < a.len()
        invariant
            0 <= i <= a@.len(),
            a@.len() == b@.len(),
            forall|j: int| 0 <= j < i ==> a@[j] == b@[j],
        decreases a@.len() - i,
    {
        if a[i] != b[i] {
            return false;
        }
        i = i + 1;
    }
    proof {
        assert(a@ =~= b@);
    }
    true
}

/// The line-diff renderer: emits, in strictly increasing row order, one
/// write for exactly the rows that `line_kept` selects, each carrying the
/// row's truncated text. Identical frames produce no write at all.
pub fn render(
    current: &CharacterGrid,
    previous: Option<&CharacterGrid>,
    config: &RenderConfig,
) -> (out: Vec<WriteInstruction>)
    ensures
        forall|i: int| 0 <= i < out@.len() ==> line_kept(
            current@,
            prev_view(previous),
            (#[trigger] out@[i]).row as int,
            config.display_line_width as int,
            config.display_line_count as int,
        ),
        forall|i: int| 0 <= i < out@.len() ==> (#[trigger] out@[i]).text@ == truncate_spec(
            current@[out@[i].row as int],
            config.display_line_width as int,
        ),
        forall|r: int| #[trigger] line_kept(
            current@,
            prev_view(previous),
            r,
            config.display_line_width as int,
            config.display_line_count as int,
        ) ==> exists|i: int| 0 <= i < out@.len() && (#[trigger] out@[i]).row == r,
        forall|i: int, j: int| 0 <= i < j < out@.len()
            ==> (#[trigger] out@[i]).row < (#[trigger] out@[j]).row,
        forall|i: int, j: int| 0 <= i < out@.len() && 0 <= j < out@.len() && i != j
            ==> (#[trigger] out@[i]).row != (#[trigger] out@[j]).row,
        prev_view(previous) matches Some(p) && p == current@ ==> out@.len() == 0,
{
    let width = config.display_line_width;
    let count = config.display_line_count;
    let lines = current.line_count();
    let n = if lines < count { lines } else { count };
    let ghost pv = prev_view(previous);
    let mut out: Vec<WriteInstruction> = Vec::new();
    let mut r: usize = 0;
    while r < n
        invariant
            0 <= r <= n,
            n == if current@.len() < count { current@.len() as int } else { count as int },
            width == config.display_line_width,
            count == config.display_line_count,
            pv == prev_view(previous),
            forall|i: int| 0 <= i < out@.len() ==> line_kept(
                current@, pv, (#[trigger] out@[i]).row as int, width as int, count as int,
            ),
            forall|i: int| 0 <= i < out@.len() ==> (#[trigger] out@[i]).text@ == truncate_spec(
                current@[out@[i].row as int], width as int,
            ),
            forall|i: int| 0 <= i < out@.len() ==> (#[trigger] out@[i]).row < r,
            forall|rr: int| 0 <= rr < r && #[trigger] line_kept(current@, pv, rr, width as int, count as int)
                ==> exists|i: int| 0 <= i < out@.len() && (#[trigger] out@[i]).row == rr,
            forall|i: int, j: int| 0 <= i < j < out@.len()
                ==> (#[trigger] out@[i]).row < (#[trigger] out@[j]).row,
        decreases n - r,
    {
        let line = current.line(r);
        let mut same_as_previous = false;
        match previous {
            Some(prev_grid) => {
                if r < prev_grid.line_count() {
                    if lines_equal(prev_grid.line(r), line) {
                        same_as_previous = true;
                    }
                }
            }
            None => {}
        }
        if !same_as_previous {
            let text = truncate_line(line, width);
            if !is_blank(&text) {
                let ghost old_out = out@;
                out.push(WriteInstruction { row: r, text });
                proof {
                    assert(out@.len() == old_out.len() + 1);
                    assert(out@[out@.len() - 1].row == r);
                    assert(forall|i: int| 0 <= i < old_out.len() ==> out@[i] == old_out[i]);
                    assert(forall|rr: int| 0 <= rr < r
                        && #[trigger] line_kept(current@, pv, rr, width as int, count as int)
                        ==> exists|i: int| 0 <= i < out@.len() && (#[trigger] out@[i]).row == rr);
                }
            } else {
                proof {
                    assert(!line_kept(current@, pv, r as int, width as int, count as int));
                }
            }
        } else {
            proof {
                assert(prev_line_matches(current@, pv, r as int));
                assert(!line_kept(current@, pv, r as int, width as int, count as int));
            }
        }
        r = r + 1;
    }
    proof {
        assert(forall|rr: int| #[trigger] line_kept(current@, pv, rr, width as int, count as int)
            ==> 0 <= rr < n);
        if let Some(prev_grid) = previous {
            if prev_grid@ == current@ {
                if out@.len() > 0 {
                    assert(line_kept(current@, pv, out@[0].row as int, width as int, count as int));
                    assert(false);
                }
            }
        }
    }
    out
}

/// Chunk `k` of a logical line: the characters from `k * width` up to the
/// next chunk boundary or the end of the line, whichever comes first.
pub open spec fn chunk_spec(line: Seq<char>, k: int, width: int) -> Seq<char> {
    line.subrange(
        k * width,
        if (k + 1) * width <= line.len() { (k + 1) * width } else { line.len() as int },
    )
}

/// The display row where chunk `k` of logical row `r` lands in the chunked
/// layout: full-height bands stacked below one another.
pub open spec fn chunk_row(k: int, r: int, grid_len: int) -> int {
    k * grid_len + r
}

/// Chunk `k` of row `r` produces a write in the chunked layout: the chunk
/// starts inside the line, its display row is under the line ceiling, and
/// its text is not blank.
pub open spec fn chunk_kept(cur: Seq<Seq<char>>, k: int, r: int, width: int, count: int) -> bool {
    &&& 0 <= r < cur.len()
    &&& 0 <= k
    &&& k * width < cur[r].len()
    &&& chunk_row(k, r, cur.len() as int) < count
    &&& !is_blank_spec(chunk_spec(cur[r], k, width))
}

/// A write at display row `row` carrying `text` is the one the chunked
/// layout owes: the band and logical row recovered from `row` select a kept
/// chunk whose text is exactly `text`.
pub open spec fn chunk_write_ok(
    cur: Seq<Seq<char>>,
    row: int,
    text: Seq<char>,
    width: int,
    count: int,
) -> bool {
    &&& cur.len() >= 1
    &&& chunk_kept(cur, row / cur.len() as int, row % cur.len() as int, width, count)
    &&& row == chunk_row(row / cur.len() as int, row % cur.len() as int, cur.len() as int)
    &&& text == chunk_spec(cur[row % cur.len() as int], row / cur.len() as int, width)
}

/// For a positive chunk width, chunk `k` starts inside a non-empty line
/// exactly when `k` is at most `(len - 1) / width`.
proof fn lemma_chunk_start_bound(k: int, width: int, len: int)
    requires
        width >= 1,
        k >= 0,
        len >= 1,
    ensures
        k <= (len - 1) / width <==> k * width < len,
{
    let q = (len - 1) / width;
    lemma_fundamental_div_mod(len - 1, width);
    lemma_mod_bound(len - 1, width);
    if k <= q {
        assert(k * width <= q * width) by (nonlinear_arith)
            requires k <= q && width >= 0;
        assert(q * width == width * q) by (nonlinear_arith);
    }
    if k > q {
        assert(k * width >= (q + 1) * width) by (nonlinear_arith)
            requires k >= q + 1 && width >= 0;
        assert((q + 1) * width == width * q + width) by (nonlinear_arith);
    }
}

/// The chunked-stacking legacy renderer: exactly the chunks that
/// `chunk_kept` selects are written, in strictly increasing row order, each
/// at the row `chunk_row` computes; it never diffs against a previous frame.
pub fn render_chunked(current: &CharacterGrid, config: &RenderConfig) -> (out: Vec<WriteInstruction>)
    requires
        config.wf(),
    ensures
        forall|i: int| 0 <= i < out@.len() ==> chunk_write_ok(
            current@,
            (#[trigger] out@[i]).row as int,
            out@[i].text@,
            config.display_line_width as int,
            config.display_line_count as int,
        ),
        forall|k: int, r: int| #[trigger] chunk_kept(current@, k, r,
            config.display_line_width as int, config.display_line_count as int)
            ==> exists|i: int| 0 <= i < out@.len()
                && (#[trigger] out@[i]).row == chunk_row(k, r, current@.len() as int),
        forall|i: int, j: int| 0 <= i < j < out@.len()
            ==> (#[trigger] out@[i]).row < (#[trigger] out@[j]).row,
        forall|i: int, j: int| 0 <= i < out@.len() && 0 <= j < out@.len() && i != j
            ==> (#[trigger] out@[i]).row != (#[trigger] out@[j]).row,
{
    let width = config.display_line_width;
    let count = config.display_line_count;
    let grid_len = current.line_count();
    let ghost wi = width as int;
    let ghost ci = count as int;
    let ghost gl = grid_len as int;

    let mut max_len: usize = 0;
    let mut scan: usize = 0;
    while scan < grid_len
        invariant
            0 <= scan <= gl,
            gl == current@.len(),
            grid_len == gl,
            forall|rr: int| 0 <= rr < scan ==> (#[trigger] current@[rr]).len() <= max_len,
        decreases gl - scan,
    {
        if current.line(scan).len() > max_len {
            max_len = current.line(scan).len();
        }
        scan = scan + 1;
    }

    let mut out: Vec<WriteInstruction> = Vec::new();
    let mut k: usize = 0;
    while k < max_len
        invariant
            0 <= k <= max_len,
            gl == current@.len(),
            grid_len == gl,
            width == wi,
            count == ci,
            wi == config.display_line_width,
            ci == config.display_line_count,
            wi >= 1,
            forall|rr: int| 0 <= rr < gl ==> (#[trigger] current@[rr]).len() <= max_len,
            forall|i: int| 0 <= i < out@.len() ==> chunk_write_ok(
                current@, (#[trigger] out@[i]).row as int, out@[i].text@, wi, ci,
            ),
            forall|kk: int, rr: int| kk < k && #[trigger] chunk_kept(current@, kk, rr, wi, ci)
                ==> exists|i: int| 0 <= i < out@.len()
                    && (#[trigger] out@[i]).row == chunk_row(kk, rr, gl),
            forall|i: int| 0 <= i < out@.len() ==> (#[trigger] out@[i]).row < k * gl,
            forall|i: int, j: int| 0 <= i < j < out@.len()
                ==> (#[trigger] out@[i]).row < (#[trigger] out@[j]).row,
        decreases max_len - k,
    {
        match k.checked_mul(grid_len) {
            None => {
                proof {
                    assert(k * gl > usize::MAX);
                    assert forall|rr: int| !(#[trigger] chunk_kept(current@, k as int, rr, wi, ci)) by {
                        if 0 <= rr {
                            assert(chunk_row(k as int, rr, gl) == k * gl + rr);
                        }
                    }
                    assert(k * gl <= (k + 1) * gl) by (nonlinear_arith)
                        requires k >= 0 && gl >= 0;
                }
            }
            Some(base) => {
                let mut r: usize = 0;
                while r < grid_len
                    invariant
                        0 <= r <= gl,
                        0 <= k,
                        gl == current@.len(),
                        grid_len == gl,
                        width == wi,
                        count == ci,
                        wi == config.display_line_width,
                        ci == config.display_line_count,
                        wi >= 1,
                        base == k * gl,
                        forall|rr: int| 0 <= rr < gl ==> (#[trigger] current@[rr]).len() <= max_len,
                        forall|i: int| 0 <= i < out@.len() ==> chunk_write_ok(
                            current@, (#[trigger] out@[i]).row as int, out@[i].text@, wi, ci,
                        ),
                        forall|kk: int, rr: int|
                            (kk < k || (kk == k && rr < r))
                            && #[trigger] chunk_kept(current@, kk, rr, wi, ci)
                            ==> exists|i: int| 0 <= i < out@.len()
                                && (#[trigger] out@[i]).row == chunk_row(kk, rr, gl),
                        forall|i: int| 0 <= i < out@.len()
                            ==> (#[trigger] out@[i]).row < k * gl + r,
                        forall|i: int, j: int| 0 <= i < j < out@.len()
                            ==> (#[trigger] out@[i]).row < (#[trigger] out@[j]).row,
                    decreases gl - r,
                {
                    let line = current.line(r);
                    let llen = line.len();
                    if llen > 0 && k <= (llen - 1) / width {
                        proof {
                            lemma_chunk_start_bound(k as int, wi, llen as int);
                            assert((k as int) * wi < llen);
                        }
                        let start = k * width;
                        let end = if width > llen - start { llen } else { start + width };
                        let mut text: Vec<char> = Vec::new();
                        let mut c: usize = start;
                        while c < end
                            invariant
                                start <= c <= end,
                                end <= llen,
                                llen == line@.len(),
                                text@.len() == c - start,
                                forall|j: int| 0 <= j < c - start
                                    ==> #[trigger] text@[j] == line@[start + j],
                            decreases end - c,
                        {
                            text.push(line[c]);
                            c = c + 1;
                        }
                        proof {
                            assert((k as int + 1) * wi == (k as int) * wi + wi) by (nonlinear_arith);
                            assert(text@ =~= chunk_spec(current@[r as int], k as int, wi));
                        }
                        if base < count && r < count - base {
                            let row = base + r;
                            if !is_blank(&text) {
                                let ghost old_out = out@;
                                let ghost text_view = text@;
                                out.push(WriteInstruction { row, text });
                                proof {
                                    assert(chunk_kept(current@, k as int, r as int, wi, ci));
                                    lemma_fundamental_div_mod_converse(
                                        row as int, gl, k as int, r as int);
                                    assert(chunk_write_ok(current@, row as int, text_view, wi, ci));
                                    assert(out@.len() == old_out.len() + 1);
                                    assert(out@[out@.len() - 1].row == row);
                                    assert(out@[out@.len() - 1].text@ == text_view);
                                    assert(forall|i: int| 0 <= i < old_out.len()
                                        ==> out@[i] == old_out[i]);
                                    assert(forall|kk: int, rr: int|
                                        (kk < k || (kk == k && rr < r))
                                        && #[trigger] chunk_kept(current@, kk, rr, wi, ci)
                                        ==> exists|i: int| 0 <= i < out@.len()
                                            && (#[trigger] out@[i]).row == chunk_row(kk, rr, gl));
                                }
                            } else {
                                proof {
                                    assert(!chunk_kept(current@, k as int, r as int, wi, ci));
                                }
                            }
                        } else {
                            proof {
                                assert(chunk_row(k as int, r as int, gl) >= ci);
                                assert(!chunk_kept(current@, k as int, r as int, wi, ci));
                            }
                        }
                    } else {
                        proof {
                            if llen > 0 {
                                lemma_chunk_start_bound(k as int, wi, llen as int);
                            } else {
                                assert((k as int) * wi >= 0) by (nonlinear_arith)
                                    requires k >= 0 && wi >= 0;
                            }
                            assert(!chunk_kept(current@, k as int, r as int, wi, ci));
                        }
                    }
                    r = r + 1;
                }
                proof {
                    assert((k as int + 1) * gl == (k as int) * gl + gl) by (nonlinear_arith);
                }
            }
        }
        k = k + 1;
    }
    proof {
        assert forall|kk: int, rr: int| #[trigger] chunk_kept(current@, kk, rr, wi, ci)
            implies kk < max_len by {
            assert(kk * wi >= kk) by (nonlinear_arith)
                requires kk >= 0 && wi >= 1;
            assert(current@[rr].len() <= max_len);
        }
    }
    out
}

} // verus!
