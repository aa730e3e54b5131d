use vstd::prelude::*;
use crate::strings::{concat2, concat3, join_strings, push_str, svec, u64_string};
use crate::text::{
    chars_of, dec, extend_chars, join, join_chars, parse_u32, parse_u32_exec, split, split_chars,
    string_from_chars, trim, trim_chars, u64_to_dec, views,
};

verus! {

/// What a `COLSxROWS` (or `WIDTHxHEIGHT`) text means: exactly two pieces around one
/// `x`, each a `u32` once surrounding whitespace is dropped.
pub open spec fn thumbnail_pair(s: Seq<char>) -> Option<(u32, u32)> {
    let parts = split(s, 'x');
    if parts.len() != 2 {
        None
    } else {
        match (parse_u32(trim(parts[0])), parse_u32(trim(parts[1]))) {
            (Some(a), Some(b)) => Some((a, b)),
            _ => None,
        }
    }
}

/// Parses a `COLSxROWS` pair such as `3x3` or `320x180`.
pub fn parse_thumbnail_string(s: &str) -> (r: Option<(u32, u32)>)
    ensures
        r == thumbnail_pair(s@),
{
    let c = chars_of(s);
    let parts = split_chars(c.as_slice(), 'x');
    if parts.len() != 2 {
        return None;
    }
    proof {
        assert(views(parts@)[0] == parts@[0]@);
        assert(views(parts@)[1] == parts@[1]@);
    }
    let first = trim_chars(parts[0].as_slice());
    let col = match parse_u32_exec(first.as_slice()) {
        Some(v) => v,
        None => return None,
    };
    let second = trim_chars(parts[1].as_slice());
    let row = match parse_u32_exec(second.as_slice()) {
        Some(v) => v,
        None => return None,
    };
    Some((col, row))
}

/// The `x_y` offset of the frame at position `i` (row-major) in a grid of `cols`
/// columns of `fw` by `fh` frames.
pub open spec fn xstack_cell(cols: u32, fw: u32, fh: u32, i: int) -> Seq<char> {
    dec(((i % (cols as int)) * fw) as nat) + "_"@ + dec(((i / (cols as int)) * fh) as nat)
}

/// The offsets of every frame of a `cols` by `rows` grid, row by row.
pub open spec fn xstack_cells(cols: u32, rows: u32, fw: u32, fh: u32) -> Seq<Seq<char>> {
    Seq::new((cols * rows) as nat, |i: int| xstack_cell(cols, fw, fh, i))
}

/// The ffmpeg `xstack` layout: the frame offsets joined by `|`.
pub open spec fn xstack_layout(cols: u32, rows: u32, fw: u32, fh: u32) -> Seq<char> {
    join(xstack_cells(cols, rows, fw, fh), "|"@)
}

fn xstack_piece(col: u32, row: u32, fw: u32, fh: u32) -> (v: Vec<char>)
    ensures
        v@ == dec((col * fw) as nat) + "_"@ + dec((row * fh) as nat),
{
    proof {
        assert(col * fw <= u32::MAX * u32::MAX) by (nonlinear_arith);
        assert(row * fh <= u32::MAX * u32::MAX) by (nonlinear_arith);
    }
    let mut v = u64_to_dec(col as u64 * fw as u64);
    extend_chars(&mut v, chars_of("_").as_slice());
    extend_chars(&mut v, u64_to_dec(row as u64 * fh as u64).as_slice());
    v
}

/// Builds the `xstack` layout for a grid of `cols` by `rows` frames of
/// `frame_width` by `frame_height` pixels, such as `0_0|320_0|0_180|320_180`.
pub fn build_xstack_layout(cols: u32, rows: u32, frame_width: u32, frame_height: u32) -> (r:
    Result<String, String>)
    requires
        cols * rows <= u32::MAX,
        cols > 0 && rows > 0 ==> (cols - 1) * frame_width <= u32::MAX && (rows - 1)
            * frame_height <= u32::MAX,
    ensures
        r matches Ok(s) && s@ == xstack_layout(cols, rows, frame_width, frame_height),
{
    let ghost cells = xstack_cells(cols, rows, frame_width, frame_height);
    let mut layout: Vec<Vec<char>> = Vec::new();
    let mut row: u32 = 0;
    while row < rows
        invariant
            row <= rows,
            cells == xstack_cells(cols, rows, frame_width, frame_height),
            cols * rows <= u32::MAX,
            views(layout@) == cells.take(row * cols),
        decreases rows - row,
    {
        let mut col: u32 = 0;
        while col < cols
            invariant
                col <= cols,
                row < rows,
                cells == xstack_cells(cols, rows, frame_width, frame_height),
                cols * rows <= u32::MAX,
                views(layout@) == cells.take(row * cols + col),
            decreases cols - col,
        {
            let piece = xstack_piece(col, row, frame_width, frame_height);
            proof {
                let i = row * cols + col;
                assert(i < cols * rows) by (nonlinear_arith)
                    requires
                        col < cols,
                        row < rows,
                        i == row * cols + col,
                ;
                vstd::arithmetic::div_mod::lemma_fundamental_div_mod_converse(
                    i,
                    cols as int,
                    row as int,
                    col as int,
                );
                assert(cells[i] == piece@);
                assert(views(layout@.push(piece)) == views(layout@).push(piece@));
                assert(cells.take(i + 1) == cells.take(i).push(cells[i]));
            }
            layout.push(piece);
            col = col + 1;
        }
        proof {
            assert(row * cols + cols == (row + 1) * cols) by (nonlinear_arith);
        }
        row = row + 1;
    }
    proof {
        assert(row == rows);
        assert(row * cols == cols * rows) by (nonlinear_arith)
            requires
                row == rows,
        ;
        assert(cells.take(row * cols) == cells);
    }
    let joined = join_chars(&layout, chars_of("|").as_slice());
    Ok(string_from_chars(joined.as_slice()))
}

/// The filter piece that scales frame `i` to `w` by `h` and labels it `v{i}`.
pub open spec fn scale_part(i: nat, w: u32, h: u32) -> Seq<char> {
    "["@ + dec(i) + ":v]scale="@ + dec(w as nat) + ":"@ + dec(h as nat) + "[v"@ + dec(i) + "];"@
}

/// The label of scaled frame `i`.
pub open spec fn frame_label(i: nat) -> Seq<char> {
    "[v"@ + dec(i) + "]"@
}

/// The ffmpeg filter that scales `n` frames and stacks them into a `cols` by
/// `rows` grid.
pub open spec fn grid_filter(n: nat, cols: u32, rows: u32, w: u32, h: u32) -> Seq<char> {
    join(Seq::new(n, |i: int| scale_part(i as nat, w, h)), ""@) + join(
        Seq::new(n, |i: int| frame_label(i as nat)),
        ""@,
    ) + "xstack=inputs="@ + dec(n) + ":layout="@ + xstack_layout(cols, rows, w, h) + "[v]"@
}

/// `-i` and the path, for each frame in order.
pub open spec fn input_args(paths: Seq<Seq<char>>) -> Seq<Seq<char>>
    decreases paths.len(),
{
    if paths.len() == 0 {
        Seq::empty()
    } else {
        input_args(paths.drop_last()) + seq!["-i"@, paths.last()]
    }
}

/// What making a grid thumbnail from extracted frames comes to.
#[derive(Debug)]
pub enum GridStep {
    /// One frame: it is the thumbnail; copy it to the output.
    CopyFrame,
    /// Run ffmpeg with these arguments.
    Run(Vec<String>),
}

/// The error for a grid whose frame count overflows.
pub open spec fn grid_too_large() -> Seq<char> {
    "Thumbnail grid is too large"@
}

/// The error for an empty grid.
pub open spec fn grid_empty() -> Seq<char> {
    "Thumbnail grid must contain at least one frame"@
}

/// Plans making a `cols` by `rows` grid thumbnail at `output` from frames of
/// `fw` by `fh` pixels: the frame count must be `cols * rows` (which must fit in
/// 32 bits and not be zero); one frame is copied as it is; more are stacked by
/// ffmpeg.
pub fn grid_from_frames(
    frame_paths: &Vec<String>,
    output: &str,
    cols: u32,
    rows: u32,
    fw: u32,
    fh: u32,
) -> (r: Result<GridStep, String>)
    requires
        cols * rows <= u32::MAX && cols * rows == frame_paths@.len() && frame_paths@.len() > 1
            ==> (cols - 1) * fw <= u32::MAX && (rows - 1) * fh <= u32::MAX,
    ensures
        cols * rows > u32::MAX ==> (r matches Err(m) && m@ == grid_too_large()),
        cols * rows == 0 ==> (r matches Err(m) && m@ == grid_empty()),
        0 < cols * rows <= u32::MAX && cols * rows != frame_paths@.len() ==> (r matches Err(m) && m@
            == "Expected "@ + dec((cols * rows) as nat) + " frames, got "@ + dec(frame_paths@.len())),
        cols * rows == frame_paths@.len() == 1 ==> r matches Ok(GridStep::CopyFrame),
        cols * rows <= u32::MAX && cols * rows == frame_paths@.len() > 1 ==> (r matches Ok(GridStep::Run(args)) && svec(args@)
            == input_args(svec(frame_paths@)) + seq![
            "-filter_complex"@,
            grid_filter(frame_paths@.len(), cols, rows, fw, fh),
            "-map"@,
            "[v]"@,
            "-q:v"@,
            "2"@,
            output@,
        ]),
{
    let expected = match cols.checked_mul(rows) {
        Some(e) => e,
        None => return Err("Thumbnail grid is too large".to_owned()),
    };
    if expected == 0 {
        return Err("Thumbnail grid must contain at least one frame".to_owned());
    }
    let n = frame_paths.len();
    if n != expected as usize {
        let e = u64_string(expected as u64);
        let g = u64_string(n as u64);
        let head = concat3("Expected ", e.as_str(), " frames, got ");
        return Err(concat2(head.as_str(), g.as_str()));
    }
    if n == 1 {
        return Ok(GridStep::CopyFrame);
    }
    let w = u64_string(fw as u64);
    let h = u64_string(fh as u64);
    let mut scales: Vec<String> = Vec::new();
    let mut labels: Vec<String> = Vec::new();
    let mut inputs: Vec<String> = Vec::new();
    let ghost ps = svec(frame_paths@);
    let ghost sf = |i: int| scale_part(i as nat, fw, fh);
    let ghost lf = |i: int| frame_label(i as nat);
    let mut i: usize = 0;
    while i < n
        invariant
            i <= n == frame_paths@.len(),
            ps == svec(frame_paths@),
            w@ == dec(fw as nat),
            h@ == dec(fh as nat),
            sf == (|i: int| scale_part(i as nat, fw, fh)),
            lf == (|i: int| frame_label(i as nat)),
            svec(scales@) == Seq::new(i as nat, sf),
            svec(labels@) == Seq::new(i as nat, lf),
            svec(inputs@) == input_args(ps.take(i as int)),
        decreases n - i,
    {
        let k = u64_string(i as u64);
        let a = concat3("[", k.as_str(), ":v]scale=");
        let b = concat3(a.as_str(), w.as_str(), ":");
        let c = concat3(b.as_str(), h.as_str(), "[v");
        let d = concat3(c.as_str(), k.as_str(), "];");
        let ghost s0 = svec(scales@);
        scales.push(d);
        assert(svec(scales@) =~= Seq::new((i + 1) as nat, sf)) by {
            assert(svec(scales@) =~= s0.push(d@));
            assert(d@ =~= scale_part(i as nat, fw, fh));
        }
        let l = concat3("[v", k.as_str(), "]");
        let ghost l0 = svec(labels@);
        labels.push(l);
        assert(svec(labels@) =~= Seq::new((i + 1) as nat, lf)) by {
            assert(svec(labels@) =~= l0.push(l@));
        }
        assert(ps.take(i + 1).drop_last() =~= ps.take(i as int));
        assert(ps.take(i + 1).last() == frame_paths@[i as int]@);
        let ghost in0 = svec(inputs@);
        push_str(&mut inputs, "-i");
        push_str(&mut inputs, frame_paths[i].as_str());
        assert(svec(inputs@) =~= in0 + seq!["-i"@, frame_paths@[i as int]@]);
        i = i + 1;
    }
    assert(ps.take(n as int) =~= ps);
    proof {
        assert((cols - 1) * fw <= u32::MAX && (rows - 1) * fh <= u32::MAX);
    }
    let layout = match build_xstack_layout(cols, rows, fw, fh) {
        Ok(l) => l,
        Err(e) => return Err(e),
    };
    let all_scales = join_strings(&scales, "");
    let all_labels = join_strings(&labels, "");
    let count = u64_string(n as u64);
    let f1 = concat3(all_scales.as_str(), all_labels.as_str(), "xstack=inputs=");
    let f2 = concat3(f1.as_str(), count.as_str(), ":layout=");
    let filter = concat3(f2.as_str(), layout.as_str(), "[v]");
    assert(filter@ =~= grid_filter(n as nat, cols, rows, fw, fh));
    let mut args = inputs;
    let ghost a0 = svec(args@);
    push_str(&mut args, "-filter_complex");
    push_str(&mut args, filter.as_str());
    push_str(&mut args, "-map");
    push_str(&mut args, "[v]");
    push_str(&mut args, "-q:v");
    push_str(&mut args, "2");
    push_str(&mut args, output);
    assert(svec(args@) =~= a0 + seq![
        "-filter_complex"@,
        filter@,
        "-map"@,
        "[v]"@,
        "-q:v"@,
        "2"@,
        output@,
    ]);
    Ok(GridStep::Run(args))
}

/// The ffmpeg arguments that take one frame at `timestamp` (seconds, as text) from
/// `input`, scaled to `w` by `h`, into `output`.
pub fn frame_args(timestamp: &str, input: &str, output: &str, w: u32, h: u32) -> (v: Vec<String>)
    ensures
        svec(v@) == seq![
            "-ss"@,
            timestamp@,
            "-i"@,
            input@,
            "-vf"@,
            "scale="@ + dec(w as nat) + ":"@ + dec(h as nat),
            "-frames:v"@,
            "1"@,
            "-q:v"@,
            "2"@,
            output@,
        ],
{
    let ws = u64_string(w as u64);
    let hs = u64_string(h as u64);
    let scale = concat3("scale=", ws.as_str(), ":");
    let scale = concat2(scale.as_str(), hs.as_str());
    let mut v: Vec<String> = Vec::new();
    push_str(&mut v, "-ss");
    push_str(&mut v, timestamp);
    push_str(&mut v, "-i");
    push_str(&mut v, input);
    push_str(&mut v, "-vf");
    push_str(&mut v, scale.as_str());
    push_str(&mut v, "-frames:v");
    push_str(&mut v, "1");
    push_str(&mut v, "-q:v");
    push_str(&mut v, "2");
    push_str(&mut v, output);
    assert(scale@ =~= "scale="@ + dec(w as nat) + ":"@ + dec(h as nat));
    v
}

/// The frame size and grid of a thumbnail: parsed from `WIDTHxHEIGHT` and
/// `COLSxROWS`, falling back to 320x180 and 3x3 when unreadable; the grid must
/// hold at least one frame and its frame count must fit in 32 bits.
pub fn thumbnail_dimensions(size_str: &str, grid_str: &str) -> (r: Result<(u32, u32, u32, u32), String>)
    ensures
        ({
            let (w, h) = match thumbnail_pair(size_str@) {
                Some(p) => p,
                None => (320u32, 180u32),
            };
            let (c, n) = match thumbnail_pair(grid_str@) {
                Some(p) => p,
                None => (3u32, 3u32),
            };
            if c * n > u32::MAX {
                r matches Err(m) && m@ == grid_too_large()
            } else if c * n == 0 {
                r matches Err(m) && m@ == grid_empty()
            } else {
                r == Ok::<(u32, u32, u32, u32), String>((w, h, c, n))
            }
        }),
{
    let (w, h) = match parse_thumbnail_string(size_str) {
        Some(p) => p,
        None => (320, 180),
    };
    let (c, n) = match parse_thumbnail_string(grid_str) {
        Some(p) => p,
        None => (3, 3),
    };
    match c.checked_mul(n) {
        None => Err("Thumbnail grid is too large".to_owned()),
        Some(0) => Err("Thumbnail grid must contain at least one frame".to_owned()),
        Some(_) => Ok((w, h, c, n)),
    }
}

} // verus!
