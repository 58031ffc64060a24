//! The sparse effect-file encoder: serializes an `Effect` into the UTF-8
//! structured document the lighting-control front end consumes. Per frame
//! only pixels that do not quantize to black are emitted, keyed by row then
//! column as decimal-string keys; an all-black frame encodes as an empty
//! mapping, never an omitted frame.

use vstd::prelude::*;

use crate::color::{spec_to_hex, Color};
use crate::effect::{Effect, EffectMatrix};
use crate::strutil::chars_to_string;

verus! {

/// The decimal digit character of a value below ten.
pub open spec fn digit_char(d: int) -> char {
    if d == 0 { '0' }
    else if d == 1 { '1' }
    else if d == 2 { '2' }
    else if d == 3 { '3' }
    else if d == 4 { '4' }
    else if d == 5 { '5' }
    else if d == 6 { '6' }
    else if d == 7 { '7' }
    else if d == 8 { '8' }
    else { '9' }
}

/// The decimal rendering of a number, without sign or padding.
pub open spec fn dec_of(n: nat) -> Seq<char>
    decreases n,
{
    if n < 10 {
        seq![digit_char(n as int)]
    } else {
        dec_of(n / 10).push(digit_char((n % 10) as int))
    }
}

/// How one character is written inside a JSON string: quote and backslash
/// get a backslash, the named control characters their short escapes, other
/// control characters a `\u00..` escape, and everything else stands as is.
pub open spec fn escape_char(c: char) -> Seq<char> {
    if c == '"' {
        seq!['\\', '"']
    } else if c == '\\' {
        seq!['\\', '\\']
    } else if c == '\u{8}' {
        seq!['\\', 'b']
    } else if c == '\t' {
        seq!['\\', 't']
    } else if c == '\n' {
        seq!['\\', 'n']
    } else if c == '\u{c}' {
        seq!['\\', 'f']
    } else if c == '\r' {
        seq!['\\', 'r']
    } else if (c as int) < 0x20 {
        seq!['\\', 'u', '0', '0', digit_char(c as int / 16), hex_char_lower(c as int % 16)]
    } else {
        seq![c]
    }
}

/// The lowercase hexadecimal digit character for a value below 16.
pub open spec fn hex_char_lower(v: int) -> char {
    if v < 10 {
        digit_char(v)
    } else if v == 10 { 'a' }
    else if v == 11 { 'b' }
    else if v == 12 { 'c' }
    else if v == 13 { 'd' }
    else if v == 14 { 'e' }
    else { 'f' }
}

/// A string escaped for JSON, character by character.
pub open spec fn escape_seq(s: Seq<char>) -> Seq<char>
    decreases s.len(),
{
    if s.len() == 0 {
        Seq::empty()
    } else {
        escape_seq(s.drop_last()) + escape_char(s.last())
    }
}

/// A JSON string: the escaped text between quotes.
pub open spec fn quoted(s: Seq<char>) -> Seq<char> {
    seq!['"'] + escape_seq(s) + seq!['"']
}

/// The given parts joined with commas.
pub open spec fn join_comma(parts: Seq<Seq<char>>) -> Seq<char>
    decreases parts.len(),
{
    if parts.len() == 0 {
        Seq::empty()
    } else if parts.len() == 1 {
        parts[0]
    } else {
        join_comma(parts.drop_last()) + seq![','] + parts.last()
    }
}

/// One cell of a frame mapping: the column index as a decimal-string key and
/// the pixel's uppercase hex rendering.
pub open spec fn cell_entry(m: EffectMatrix, x: u32, y: u32) -> Seq<char> {
    seq!['"'] + dec_of(x as nat) + seq!['"', ':', '"'] + spec_to_hex(m.pixel(x, y)) + seq!['"']
}

/// The cell entries of row `y` among the first `x` columns: one per pixel
/// that does not quantize to black, in ascending column order.
pub open spec fn cell_entries_upto(m: EffectMatrix, y: u32, x: u32) -> Seq<Seq<char>>
    decreases x,
{
    if x == 0 {
        Seq::empty()
    } else {
        cell_entries_upto(m, y, (x - 1) as u32) + (if !m.pixel((x - 1) as u32, y).spec_is_black() {
            seq![cell_entry(m, (x - 1) as u32, y)]
        } else {
            Seq::empty()
        })
    }
}

/// Row `y` holds at least one pixel that does not quantize to black.
pub open spec fn row_has_lit(m: EffectMatrix, y: u32) -> bool {
    exists|x: u32| x < m.spec_width() && !(#[trigger] m.pixel(x, y)).spec_is_black()
}

/// One row of a frame mapping: the row index as a decimal-string key and the
/// mapping of its lit cells.
pub open spec fn row_entry(m: EffectMatrix, y: u32) -> Seq<char> {
    seq!['"'] + dec_of(y as nat) + seq!['"', ':', '{'] + join_comma(
        cell_entries_upto(m, y, m.spec_width()),
    ) + seq!['}']
}

/// The row entries among the first `y` rows: one per row with a lit pixel,
/// in ascending row order.
pub open spec fn row_entries_upto(m: EffectMatrix, y: u32) -> Seq<Seq<char>>
    decreases y,
{
    if y == 0 {
        Seq::empty()
    } else {
        row_entries_upto(m, (y - 1) as u32) + (if row_has_lit(m, (y - 1) as u32) {
            seq![row_entry(m, (y - 1) as u32)]
        } else {
            Seq::empty()
        })
    }
}

/// One frame of the document: the mapping from row keys to lit-cell
/// mappings; an all-black frame is the empty mapping.
pub open spec fn spec_frame_json(m: EffectMatrix) -> Seq<char> {
    seq!['{'] + join_comma(row_entries_upto(m, m.spec_height())) + seq!['}']
}

/// The document entries of the first `k` frames: exactly one per frame.
pub open spec fn frame_parts_upto(frames: Seq<EffectMatrix>, k: int) -> Seq<Seq<char>>
    decreases k,
{
    if k <= 0 {
        Seq::empty()
    } else {
        frame_parts_upto(frames, k - 1).push(spec_frame_json(frames[k - 1]))
    }
}

/// The document entries of an effect's frames: exactly one per frame, in
/// order; frames are never omitted.
pub open spec fn frame_parts(frames: Seq<EffectMatrix>) -> Seq<Seq<char>> {
    frame_parts_upto(frames, frames.len() as int)
}

/// The whole effect document, with its fixed format-identifying constants:
/// effect type 3, save format 8, revision 1. The icon is the path the caller
/// resolved.
pub open spec fn spec_effect_document(e: Effect, icon: Seq<char>) -> Seq<char> {
    "{\"name\":"@ + quoted(e.spec_name()) + ",\"type\":3,\"author\":"@ + quoted(e.spec_author())
        + ",\"icon\":"@ + quoted(icon) + ",\"summary\":"@ + quoted(e.spec_summary())
        + ",\"map_device\":"@ + quoted(e.spec_device().spec_display_name())
        + ",\"map_device_icon\":"@ + quoted(e.spec_device().spec_icon()) + ",\"map_graphic\":"@
        + quoted("blackwidow_v3_en_US.svg"@) + ",\"map_cols\":"@ + dec_of(e.spec_width() as nat)
        + ",\"map_rows\":"@ + dec_of(e.spec_height() as nat)
        + ",\"save_format\":8,\"revision\":1,\"fps\":"@ + dec_of(e.spec_fps() as nat)
        + ",\"loop\":"@ + (if e.spec_looped() {
        "true"@
    } else {
        "false"@
    }) + ",\"frames\":["@ + join_comma(frame_parts(e.spec_frames())) + "]}"@
}

/// Law: encoding an effect whose every pixel in every frame quantizes to
/// black produces one document entry per frame, each the empty mapping;
/// frames are never omitted.
pub proof fn lemma_all_black_effect_frames(e: Effect)
    requires
        e.wf(),
        forall|k: int|
            0 <= k < e.spec_frames().len() ==> (#[trigger] e.spec_frames()[k]).all_black(),
    ensures
        frame_parts(e.spec_frames()).len() == e.spec_frames().len(),
        forall|k: int|
            0 <= k < e.spec_frames().len() ==> frame_parts(e.spec_frames())[k] == "{}"@,
{
    lemma_one_entry_per_frame(e.spec_frames());
    assert forall|k: int|
        0 <= k < e.spec_frames().len() implies frame_parts(e.spec_frames())[k] == "{}"@ by {
        lemma_black_frame_encodes_empty(e.spec_frames()[k]);
    }
}

/// Law: a frame whose every pixel quantizes to black encodes as the empty
/// mapping, not an omitted frame.
pub proof fn lemma_black_frame_encodes_empty(m: EffectMatrix)
    requires
        m.wf(),
        m.all_black(),
    ensures
        spec_frame_json(m) == "{}"@,
{
    lemma_black_rows_empty(m, m.spec_height());
    reveal_strlit("{}");
    assert("{}"@ =~= seq!['{', '}']);
    assert(spec_frame_json(m) =~= "{}"@);
}

proof fn lemma_black_rows_empty(m: EffectMatrix, y: u32)
    requires
        m.wf(),
        m.all_black(),
        y <= m.spec_height(),
    ensures
        row_entries_upto(m, y) == Seq::<Seq<char>>::empty(),
    decreases y,
{
    if y > 0 {
        lemma_black_rows_empty(m, (y - 1) as u32);
        assert forall|x: u32| x < m.spec_width() implies (#[trigger] m.pixel(
            x,
            (y - 1) as u32,
        )).spec_is_black() by {
            m.lemma_pos_in_range(x, (y - 1) as u32);
        }
        assert(!row_has_lit(m, (y - 1) as u32));
        assert(row_entries_upto(m, y) =~= Seq::<Seq<char>>::empty());
    }
}

/// Law: the document holds exactly one entry per frame, in order; no frame is
/// ever omitted, whatever it holds.
pub proof fn lemma_one_entry_per_frame(frames: Seq<EffectMatrix>)
    ensures
        frame_parts(frames).len() == frames.len(),
        forall|k: int|
            0 <= k < frames.len() ==> frame_parts(frames)[k] == spec_frame_json(frames[k]),
{
    lemma_frame_parts_upto(frames, frames.len() as int);
}

pub(crate) proof fn lemma_frame_parts_upto(frames: Seq<EffectMatrix>, k: int)
    requires
        k <= frames.len(),
    ensures
        frame_parts_upto(frames, k).len() == (if k <= 0 { 0int } else { k }),
        forall|j: int|
            0 <= j < k ==> frame_parts_upto(frames, k)[j] == spec_frame_json(frames[j]),
    decreases k,
{
    if k > 0 {
        lemma_frame_parts_upto(frames, k - 1);
    }
}

/// Appends the characters of a string unchanged.
pub(crate) fn push_str_chars(out: &mut Vec<char>, s: &str)
    ensures
        final(out)@ == old(out)@ + s@,
{
    let n = s.unicode_len();
    let mut i: usize = 0;
    while i < n
        invariant
            i <= n,
            n == s@.len(),
            out@ == old(out)@ + s@.subrange(0, i as int),
        decreases n - i,
    {
        out.push(s.get_char(i));
        i += 1;
        proof {
            assert(out@ =~= old(out)@ + s@.subrange(0, i as int));
        }
    }
    proof {
        assert(out@ =~= old(out)@ + s@);
    }
}

/// The decimal digit character of a value below ten.
fn digit_char_exec(d: u32) -> (c: char)
    requires
        d < 10,
    ensures
        c == digit_char(d as int),
{
    if d == 0 { '0' }
    else if d == 1 { '1' }
    else if d == 2 { '2' }
    else if d == 3 { '3' }
    else if d == 4 { '4' }
    else if d == 5 { '5' }
    else if d == 6 { '6' }
    else if d == 7 { '7' }
    else if d == 8 { '8' }
    else { '9' }
}

/// Appends the decimal rendering of a number.
pub(crate) fn push_dec(out: &mut Vec<char>, n: u32)
    ensures
        final(out)@ == old(out)@ + dec_of(n as nat),
    decreases n,
{
    if n < 10 {
        out.push(digit_char_exec(n));
        proof {
            assert(out@ =~= old(out)@ + dec_of(n as nat));
        }
    } else {
        push_dec(out, n / 10);
        out.push(digit_char_exec(n % 10));
        proof {
            assert(out@ =~= old(out)@ + dec_of(n as nat));
        }
    }
}

/// The lowercase hexadecimal digit character for a value below 16.
fn hex_char_lower_exec(v: u32) -> (c: char)
    requires
        v < 16,
    ensures
        c == hex_char_lower(v as int),
{
    if v < 10 {
        digit_char_exec(v)
    } else if v == 10 { 'a' }
    else if v == 11 { 'b' }
    else if v == 12 { 'c' }
    else if v == 13 { 'd' }
    else if v == 14 { 'e' }
    else { 'f' }
}

/// Appends one character, escaped for a JSON string.
fn push_escaped_char(out: &mut Vec<char>, c: char)
    ensures
        final(out)@ == old(out)@ + escape_char(c),
{
    if c == '"' {
        out.push('\\');
        out.push('"');
    } else if c == '\\' {
        out.push('\\');
        out.push('\\');
    } else if c == '\u{8}' {
        out.push('\\');
        out.push('b');
    } else if c == '\t' {
        out.push('\\');
        out.push('t');
    } else if c == '\n' {
        out.push('\\');
        out.push('n');
    } else if c == '\u{c}' {
        out.push('\\');
        out.push('f');
    } else if c == '\r' {
        out.push('\\');
        out.push('r');
    } else if (c as u32) < 0x20 {
        out.push('\\');
        out.push('u');
        out.push('0');
        out.push('0');
        out.push(digit_char_exec((c as u32) / 16));
        out.push(hex_char_lower_exec((c as u32) % 16));
    } else {
        out.push(c);
    }
    proof {
        assert(out@ =~= old(out)@ + escape_char(c));
    }
}

/// Appends a whole JSON string: quote, escaped text, quote.
pub(crate) fn push_quoted(out: &mut Vec<char>, s: &str)
    ensures
        final(out)@ == old(out)@ + quoted(s@),
{
    out.push('"');
    let n = s.unicode_len();
    let mut i: usize = 0;
    proof {
        assert(escape_seq(s@.subrange(0, 0)) =~= Seq::<char>::empty());
        assert(out@ =~= old(out)@ + seq!['"'] + escape_seq(s@.subrange(0, 0)));
    }
    while i < n
        invariant
            i <= n,
            n == s@.len(),
            out@ == old(out)@ + seq!['"'] + escape_seq(s@.subrange(0, i as int)),
        decreases n - i,
    {
        let ghost pre = out@;
        push_escaped_char(out, s.get_char(i));
        i += 1;
        proof {
            assert(s@.subrange(0, i as int).drop_last() =~= s@.subrange(0, i - 1));
            assert(s@.subrange(0, i as int).last() == s@[i - 1]);
            assert(out@ =~= old(out)@ + seq!['"'] + escape_seq(s@.subrange(0, i as int)));
        }
    }
    out.push('"');
    proof {
        assert(s@.subrange(0, n as int) =~= s@);
        assert(out@ =~= old(out)@ + quoted(s@));
    }
}

/// Encodes one frame as its sparse row mapping.
#[verifier::rlimit(30)]
pub(crate) fn frame_to_json(m: &EffectMatrix) -> (out: Vec<char>)
    requires
        m.wf(),
    ensures
        out@ == spec_frame_json(*m),
{
    let mut out: Vec<char> = Vec::new();
    out.push('{');
    let w = m.width();
    let h = m.height();
    let mut y: u32 = 0;
    let mut emitted_rows: usize = 0;
    proof {
        assert(join_comma(row_entries_upto(*m, 0)) =~= Seq::<char>::empty());
        assert(out@ =~= seq!['{'] + join_comma(row_entries_upto(*m, 0)));
    }
    while y < h
        invariant
            y <= h,
            w == m.spec_width(),
            h == m.spec_height(),
            m.wf(),
            emitted_rows == row_entries_upto(*m, y).len(),
            emitted_rows <= y,
            out@ == seq!['{'] + join_comma(row_entries_upto(*m, y)),
        decreases h - y,
    {
        let mut has_lit = false;
        let mut x: u32 = 0;
        while x < w
            invariant
                x <= w,
                w == m.spec_width(),
                m.wf(),
                y < h,
                h == m.spec_height(),
                has_lit == exists|x0: u32|
                    x0 < x && !(#[trigger] m.pixel(x0, y)).spec_is_black(),
            decreases w - x,
        {
            proof {
                m.lemma_pos_in_range(x, y);
            }
            let c = match m.get(x, y) {
                Some(c) => *c,
                None => Color { r: 0, g: 0, b: 0 },
            };
            if !c.is_black() {
                has_lit = true;
            }
            x += 1;
        }
        proof {
            assert(has_lit == row_has_lit(*m, y));
        }
        if has_lit {
            let ghost pre_rows = row_entries_upto(*m, y);
            if emitted_rows > 0 {
                out.push(',');
            }
            let mut entry = row_entry_to_json(m, y);
            out.append(&mut entry);
            emitted_rows += 1;
            proof {
                let rows2 = row_entries_upto(*m, (y + 1) as u32);
                assert(rows2 == pre_rows + seq![row_entry(*m, y)]);
                assert(rows2.drop_last() =~= pre_rows);
                assert(rows2.last() == row_entry(*m, y));
                if pre_rows.len() == 0 {
                    assert(join_comma(rows2) == rows2[0]);
                    assert(out@ =~= seq!['{'] + join_comma(rows2));
                } else {
                    assert(join_comma(rows2) == join_comma(pre_rows) + seq![','] + rows2.last());
                    assert(out@ =~= seq!['{'] + join_comma(rows2));
                }
            }
        } else {
            proof {
                assert(row_entries_upto(*m, (y + 1) as u32) =~= row_entries_upto(*m, y));
            }
        }
        y += 1;
    }
    out.push('}');
    proof {
        assert(out@ =~= spec_frame_json(*m));
    }
    out
}

/// Encodes one row's key and lit-cell mapping.
pub(crate) fn row_entry_to_json(m: &EffectMatrix, y: u32) -> (out: Vec<char>)
    requires
        m.wf(),
        y < m.spec_height(),
    ensures
        out@ == row_entry(*m, y),
{
    let mut out: Vec<char> = Vec::new();
    out.push('"');
    push_dec(&mut out, y);
    out.push('"');
    out.push(':');
    out.push('{');
    let w = m.width();
    let mut x: u32 = 0;
    let mut emitted: usize = 0;
    let ghost head = seq!['"'] + dec_of(y as nat) + seq!['"', ':', '{'];
    proof {
        assert(join_comma(cell_entries_upto(*m, y, 0)) =~= Seq::<char>::empty());
        assert(out@ =~= head + join_comma(cell_entries_upto(*m, y, 0)));
    }
    while x < w
        invariant
            x <= w,
            w == m.spec_width(),
            m.wf(),
            y < m.spec_height(),
            emitted == cell_entries_upto(*m, y, x).len(),
            emitted <= x,
            out@ == head + join_comma(cell_entries_upto(*m, y, x)),
            head == seq!['"'] + dec_of(y as nat) + seq!['"', ':', '{'],
        decreases w - x,
    {
        proof {
            m.lemma_pos_in_range(x, y);
        }
        let c = match m.get(x, y) {
            Some(c) => *c,
            None => Color { r: 0, g: 0, b: 0 },
        };
        if !c.is_black() {
            let ghost pre_cells = cell_entries_upto(*m, y, x);
            if emitted > 0 {
                out.push(',');
            }
            out.push('"');
            push_dec(&mut out, x);
            out.push('"');
            out.push(':');
            out.push('"');
            let hex = c.to_hex();
            push_str_chars(&mut out, hex.as_str());
            out.push('"');
            emitted += 1;
            proof {
                let cells2 = cell_entries_upto(*m, y, (x + 1) as u32);
                assert(cells2 == pre_cells + seq![cell_entry(*m, x, y)]);
                assert(cells2.drop_last() =~= pre_cells);
                assert(cells2.last() == cell_entry(*m, x, y));
                if pre_cells.len() == 0 {
                    assert(join_comma(cells2) == cells2[0]);
                    assert(out@ =~= head + join_comma(cells2));
                } else {
                    assert(join_comma(cells2) == join_comma(pre_cells) + seq![','] + cells2.last());
                    assert(out@ =~= head + join_comma(cells2));
                }
            }
        } else {
            proof {
                assert(cell_entries_upto(*m, y, (x + 1) as u32) =~= cell_entries_upto(*m, y, x));
            }
        }
        x += 1;
    }
    out.push('}');
    proof {
        assert(out@ =~= row_entry(*m, y));
    }
    out
}

} // verus!
