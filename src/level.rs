use vstd::prelude::*;

use crate::grid::{blank_map, create_default_map, rows_of, BIG_PELLET, EMPTY, SMALL_PELLET, WALL};

verus! {

/// The tile code that a character of a level file stands for.
pub open spec fn tile_of_char(c: char) -> u8 {
    if c == '#' {
        WALL
    } else if c == '.' {
        SMALL_PELLET
    } else if c == 'o' {
        BIG_PELLET
    } else {
        EMPTY
    }
}

/// The character that a tile code is written as; unknown codes are written as a space.
pub open spec fn char_of_tile(t: u8) -> char {
    if t == WALL {
        '#'
    } else if t == SMALL_PELLET {
        '.'
    } else if t == BIG_PELLET {
        'o'
    } else {
        ' '
    }
}

/// The pieces of `s` between newline characters, in order: one more than there are newlines.
pub open spec fn segments(s: Seq<char>) -> Seq<Seq<char>>
    decreases s.len(),
{
    if s.len() == 0 {
        seq![Seq::<char>::empty()]
    } else {
        let prev = segments(s.drop_last());
        if s.last() == '\n' {
            prev.push(Seq::<char>::empty())
        } else {
            prev.update(prev.len() - 1, prev.last().push(s.last()))
        }
    }
}

/// A line that was ended by `"\r\n"` loses its carriage return.
pub open spec fn strip_cr(l: Seq<char>) -> Seq<char> {
    if l.len() > 0 && l.last() == '\r' {
        l.drop_last()
    } else {
        l
    }
}

/// The lines of `s`: they end at `"\n"` or `"\r\n"`, the last one may lack an ending,
/// and an empty text has no lines.
pub open spec fn lines(s: Seq<char>) -> Seq<Seq<char>> {
    let segs = segments(s);
    let ended = segs.drop_last().map_values(|l: Seq<char>| strip_cr(l));
    if segs.last().len() == 0 {
        ended
    } else {
        ended.push(segs.last())
    }
}

/// The tile codes of one line.
pub open spec fn tiles(l: Seq<char>) -> Seq<u8> {
    l.map_values(|c: char| tile_of_char(c))
}

/// The rows of tiles of a text, before padding.
pub open spec fn raw_rows(s: Seq<char>) -> Seq<Seq<u8>> {
    lines(s).map_values(|l: Seq<char>| tiles(l))
}

/// The length of the longest row, 0 when there are none.
pub open spec fn max_width(rows: Seq<Seq<u8>>) -> nat
    decreases rows.len(),
{
    if rows.len() == 0 {
        0
    } else {
        let w = max_width(rows.drop_last());
        if rows.last().len() > w {
            rows.last().len()
        } else {
            w
        }
    }
}

/// `row` extended with empty cells to `width` cells.
pub open spec fn pad(row: Seq<u8>, width: nat) -> Seq<u8> {
    row + Seq::new((width - row.len()) as nat, |i: int| EMPTY)
}

/// The map that a level text describes: one row per line, one cell per character, every row
/// padded with empty cells to the length of the longest line.
pub open spec fn parse_level(s: Seq<char>) -> Seq<Seq<u8>> {
    let rows = raw_rows(s);
    let w = max_width(rows);
    rows.map_values(|r: Seq<u8>| pad(r, w))
}

/// The characters of one row.
pub open spec fn row_text(row: Seq<u8>) -> Seq<char> {
    row.map_values(|t: u8| char_of_tile(t))
}

/// The lines joined with a newline between each two.
pub open spec fn join_lines(ls: Seq<Seq<char>>) -> Seq<char>
    decreases ls.len(),
{
    if ls.len() == 0 {
        Seq::empty()
    } else if ls.len() == 1 {
        ls[0]
    } else {
        join_lines(ls.drop_last()) + seq!['\n'] + ls.last()
    }
}

/// The text of a map: its rows, one per line, with no newline after the last.
pub open spec fn level_text(map: Seq<Seq<u8>>) -> Seq<char> {
    join_lines(map.map_values(|r: Seq<u8>| row_text(r)))
}

/// Every row has length `w` and holds only the codes of the level format.
pub open spec fn uniform_level(map: Seq<Seq<u8>>, w: nat) -> bool {
    forall|i: int|
        0 <= i < map.len() ==> {
            &&& #[trigger] map[i].len() == w
            &&& forall|j: int| 0 <= j < w ==> #[trigger] map[i][j] <= BIG_PELLET
        }
}

proof fn lemma_segments_nonempty(s: Seq<char>)
    ensures
        segments(s).len() >= 1,
    decreases s.len(),
{
    if s.len() > 0 {
        lemma_segments_nonempty(s.drop_last());
    }
}

/// A text without newlines is one segment.
proof fn lemma_segments_single(s: Seq<char>)
    requires
        !s.contains('\n'),
    ensures
        segments(s) == seq![s],
    decreases s.len(),
{
    if s.len() > 0 {
        let p = s.drop_last();
        assert(!p.contains('\n')) by {
            if p.contains('\n') {
                let k = choose|k: int| 0 <= k < p.len() && p[k] == '\n';
                assert(s[k] == '\n');
            }
        }
        lemma_segments_single(p);
        assert(s.last() != '\n') by {
            assert(s[s.len() - 1] == s.last());
        }
        assert(p.push(s.last()) =~= s);
        assert(seq![p].update(0, p.push(s.last())) =~= seq![s]);
    } else {
        assert(s =~= Seq::<char>::empty());
    }
}

/// Appending newline-free text extends the last segment.
proof fn lemma_segments_extend(a: Seq<char>, b: Seq<char>)
    requires
        !b.contains('\n'),
    ensures
        segments(a + b) == segments(a).update(segments(a).len() - 1, segments(a).last() + b),
    decreases b.len(),
{
    lemma_segments_nonempty(a);
    if b.len() == 0 {
        assert(a + b =~= a);
        assert(segments(a).last() + b =~= segments(a).last());
        assert(segments(a).update(segments(a).len() - 1, segments(a).last()) =~= segments(a));
    } else {
        let bp = b.drop_last();
        assert(!bp.contains('\n')) by {
            if bp.contains('\n') {
                let k = choose|k: int| 0 <= k < bp.len() && bp[k] == '\n';
                assert(b[k] == '\n');
            }
        }
        lemma_segments_extend(a, bp);
        assert((a + b).drop_last() =~= a + bp);
        assert((a + b).last() == b.last());
        assert(b.last() != '\n') by {
            assert(b[b.len() - 1] == b.last());
        }
        lemma_segments_nonempty(a + bp);
        let sa = segments(a);
        assert((sa.last() + bp).push(b.last()) =~= sa.last() + b);
        assert(sa.update(sa.len() - 1, sa.last() + bp).update(sa.len() - 1, sa.last() + b)
            =~= sa.update(sa.len() - 1, sa.last() + b));
    }
}

/// Newline-free lines joined by newlines split back into the same lines.
proof fn lemma_segments_join(ls: Seq<Seq<char>>)
    requires
        ls.len() >= 1,
        forall|i: int| 0 <= i < ls.len() ==> !(#[trigger] ls[i]).contains('\n'),
    ensures
        segments(join_lines(ls)) == ls,
    decreases ls.len(),
{
    if ls.len() == 1 {
        lemma_segments_single(ls[0]);
        assert(seq![ls[0]] =~= ls);
    } else {
        let prev = ls.drop_last();
        lemma_segments_join(prev);
        let a = join_lines(prev) + seq!['\n'];
        assert(a.drop_last() =~= join_lines(prev));
        assert(a.last() == '\n');
        assert(segments(a) == prev.push(Seq::<char>::empty()));
        assert(!ls.last().contains('\n')) by {
            assert(ls.last() == ls[ls.len() - 1]);
        }
        lemma_segments_extend(a, ls.last());
        assert(Seq::<char>::empty() + ls.last() =~= ls.last());
        assert(prev.push(Seq::<char>::empty()).update(prev.len() as int, ls.last()) =~= ls);
    }
}

/// `max_width` bounds every row, and is the length of one of them when there is one.
proof fn lemma_max_width(rows: Seq<Seq<u8>>)
    ensures
        forall|i: int| 0 <= i < rows.len() ==> #[trigger] rows[i].len() <= max_width(rows),
        rows.len() > 0 ==> exists|i: int| 0 <= i < rows.len() && #[trigger] rows[i].len() == max_width(rows),
    decreases rows.len(),
{
    if rows.len() > 0 {
        let p = rows.drop_last();
        lemma_max_width(p);
        assert forall|i: int| 0 <= i < rows.len() implies #[trigger] rows[i].len() <= max_width(rows) by {
            if i < p.len() {
                assert(rows[i] == p[i]);
            }
        }
        if rows.last().len() > max_width(p) {
            assert(rows[rows.len() - 1].len() == max_width(rows));
        } else if p.len() > 0 {
            let k = choose|k: int| 0 <= k < p.len() && #[trigger] p[k].len() == max_width(p);
            assert(rows[k].len() == max_width(rows));
        } else {
            assert(rows[0].len() == max_width(rows));
        }
    }
}

/// A parsed text has rows of the width of its longest line, holding only format codes.
proof fn lemma_parse_uniform(s: Seq<char>)
    ensures
        uniform_level(parse_level(s), max_width(raw_rows(s))),
{
    let rows = raw_rows(s);
    let w = max_width(rows);
    lemma_max_width(rows);
    let g = parse_level(s);
    assert forall|i: int| 0 <= i < g.len() implies {
        &&& #[trigger] g[i].len() == w
        &&& forall|j: int| 0 <= j < w ==> #[trigger] g[i][j] <= BIG_PELLET
    } by {
        assert(rows[i].len() <= w);
        assert(g[i] == pad(rows[i], w));
        assert forall|j: int| 0 <= j < w implies #[trigger] g[i][j] <= BIG_PELLET by {
            if j < rows[i].len() {
                assert(g[i][j] == rows[i][j]);
                assert(rows[i] == tiles(lines(s)[i]));
            }
        }
    }
}

/// Writing out a uniform map of positive width and reading it back gives the same map.
proof fn lemma_uniform_round_trip(g: Seq<Seq<u8>>, w: nat)
    requires
        uniform_level(g, w),
        g.len() == 0 || w > 0,
    ensures
        parse_level(level_text(g)) == g,
{
    let t = g.map_values(|r: Seq<u8>| row_text(r));
    let s = level_text(g);
    if g.len() == 0 {
        assert(t =~= Seq::<Seq<char>>::empty());
        assert(s =~= Seq::<char>::empty());
        assert(lines(s) =~= Seq::<Seq<char>>::empty());
        assert(raw_rows(s) =~= Seq::<Seq<u8>>::empty());
        assert(parse_level(s) =~= g);
    } else {
        assert forall|i: int| 0 <= i < t.len() implies !(#[trigger] t[i]).contains('\n') by {
            if t[i].contains('\n') {
                let k = choose|k: int| 0 <= k < t[i].len() && t[i][k] == '\n';
                assert(t[i][k] == char_of_tile(g[i][k]));
            }
        }
        lemma_segments_join(t);
        assert(segments(s) == t);
        assert(t.last().len() == w) by {
            assert(t.last() == t[t.len() - 1]);
        }
        let ended = t.drop_last().map_values(|l: Seq<char>| strip_cr(l));
        assert(ended =~= t.drop_last()) by {
            assert forall|i: int| 0 <= i < ended.len() implies #[trigger] ended[i] == t.drop_last()[i] by {
                let l = t[i];
                if l.len() > 0 {
                    assert(l.last() == char_of_tile(g[i][l.len() - 1]));
                }
            }
        }
        assert(lines(s) =~= t);
        let rows = raw_rows(s);
        assert(rows =~= g) by {
            assert forall|i: int| 0 <= i < rows.len() implies #[trigger] rows[i] == g[i] by {
                assert(rows[i] =~= g[i]) by {
                    assert forall|j: int| 0 <= j < g[i].len() implies #[trigger] rows[i][j] == g[i][j] by {
                        assert(g[i][j] <= BIG_PELLET);
                    }
                }
            }
        }
        lemma_max_width(g);
        let k = choose|k: int| 0 <= k < g.len() && #[trigger] g[k].len() == max_width(g);
        assert(max_width(g) == w);
        assert(parse_level(s) =~= g) by {
            assert forall|i: int| 0 <= i < g.len() implies #[trigger] parse_level(s)[i] == g[i] by {
                assert(pad(g[i], w) =~= g[i]);
            }
        }
    }
}

/// The segments of `s` followed by one more character.
proof fn lemma_segments_push(s: Seq<char>, c: char)
    ensures
        segments(s.push(c)) == if c == '\n' {
            segments(s).push(Seq::<char>::empty())
        } else {
            segments(s).update(segments(s).len() - 1, segments(s).last().push(c))
        },
{
    assert(s.push(c).drop_last() =~= s);
}

/// Round trip: a map read from any text, written out and read again, is the same map. It
/// fails only for texts whose lines are all empty but that have at least one line, such as
/// `"\n"`: their rows have no cells, and the written text is empty.
pub proof fn lemma_level_round_trip(text: Seq<char>)
    requires
        parse_level(text).len() == 0 || parse_level(text)[0].len() > 0,
    ensures
        parse_level(level_text(parse_level(text))) == parse_level(text),
{
    let g = parse_level(text);
    let w = max_width(raw_rows(text));
    lemma_parse_uniform(text);
    lemma_uniform_round_trip(g, w);
}

/// The tile code of one character of a level file.
fn tile_code(c: char) -> (t: u8)
    ensures
        t == tile_of_char(c),
{
    if c == '#' {
        WALL
    } else if c == '.' {
        SMALL_PELLET
    } else if c == 'o' {
        BIG_PELLET
    } else {
        EMPTY
    }
}

/// The tile codes of a line, without its carriage return when the line was `ended` by a newline.
fn line_tiles(line: &Vec<char>, ended: bool) -> (r: Vec<u8>)
    ensures
        r@ == tiles(if ended { strip_cr(line@) } else { line@ }),
{
    let ghost l = if ended { strip_cr(line@) } else { line@ };
    let mut n = line.len();
    if ended && n > 0 && line[n - 1] == '\r' {
        n = n - 1;
    }
    assert(l =~= line@.take(n as int));
    let mut out: Vec<u8> = Vec::new();
    let mut i: usize = 0;
    while i < n
        invariant
            n <= line@.len(),
            l == line@.take(n as int),
            i <= n,
            out@ == tiles(l.take(i as int)),
        decreases n - i,
    {
        out.push(tile_code(line[i]));
        i = i + 1;
        assert(out@ =~= tiles(l.take(i as int)));
    }
    assert(l.take(n as int) =~= l);
    out
}

/// Reads a level from text: `#` is a wall, `.` a small pellet, `o` a big pellet and any
/// other character an empty cell; one row per line, every row padded with empty cells to
/// the length of the longest line.
pub fn load_level_from_string(content: &str) -> (r: Vec<Vec<u8>>)
    ensures
        rows_of(&r) == parse_level(content@),
{
    let ghost s = content@;
    let mut ended: Vec<Vec<u8>> = Vec::new();
    let mut cur: Vec<char> = Vec::new();
    for c in it: content.chars()
        invariant
            it.seq() == s,
            segments(s.take(it.index())).len() >= 1,
            rows_of(&ended) == segments(s.take(it.index())).drop_last().map_values(
                |l: Seq<char>| tiles(strip_cr(l)),
            ),
            cur@ == segments(s.take(it.index())).last(),
    {
        let ghost before = s.take(it.index());
        let ghost old_rows = rows_of(&ended);
        let ghost segs = segments(before);
        proof {
            assert(s.take(it.index() + 1) =~= before.push(c));
            lemma_segments_push(before, c);
            lemma_segments_nonempty(before.push(c));
        }
        if c == '\n' {
            let line = line_tiles(&cur, true);
            ended.push(line);
            cur = Vec::new();
            proof {
                assert(rows_of(&ended) =~= old_rows.push(tiles(strip_cr(segs.last()))));
                assert(segs.push(Seq::<char>::empty()).drop_last() =~= segs);
                assert(rows_of(&ended) =~= segs.map_values(|l: Seq<char>| tiles(strip_cr(l))));
            }
        } else {
            cur.push(c);
            proof {
                assert(segs.update(segs.len() - 1, segs.last().push(c)).drop_last() =~= segs.drop_last());
            }
        }
    }
    let ghost segs = segments(s);
    proof {
        assert(s.take(s.len() as int) =~= s);
    }
    let ghost done_rows = rows_of(&ended);
    let ghost ended_lines = segs.drop_last().map_values(|l: Seq<char>| strip_cr(l));
    assert(done_rows =~= ended_lines.map_values(|l: Seq<char>| tiles(l)));
    if cur.len() > 0 {
        let line = line_tiles(&cur, false);
        ended.push(line);
        assert(rows_of(&ended) =~= done_rows.push(tiles(segs.last())));
        assert(lines(s) == ended_lines.push(segs.last()));
        assert(rows_of(&ended) =~= raw_rows(s));
    } else {
        assert(lines(s) == ended_lines);
    }
    assert(rows_of(&ended) =~= raw_rows(s));
    let ghost rows = raw_rows(s);
    let mut width: usize = 0;
    let mut i: usize = 0;
    while i < ended.len()
        invariant
            rows_of(&ended) == rows,
            i <= rows.len(),
            width as nat == max_width(rows.take(i as int)),
        decreases rows.len() - i,
    {
        assert(rows.take(i as int + 1).drop_last() =~= rows.take(i as int));
        if ended[i].len() > width {
            width = ended[i].len();
        }
        i = i + 1;
    }
    assert(rows.take(rows.len() as int) =~= rows);
    proof {
        lemma_max_width(rows);
    }
    let mut out: Vec<Vec<u8>> = Vec::new();
    let mut k: usize = 0;
    while k < ended.len()
        invariant
            rows_of(&ended) == rows,
            width as nat == max_width(rows),
            forall|j: int| 0 <= j < rows.len() ==> #[trigger] rows[j].len() <= width,
            k <= rows.len(),
            out@.len() == k,
            forall|j: int| 0 <= j < k ==> #[trigger] out@[j]@ == pad(rows[j], width as nat),
        decreases rows.len() - k,
    {
        let mut row: Vec<u8> = ended[k].clone();
        assert(row@ == rows[k as int]);
        let ghost base = row@;
        while row.len() < width
            invariant
                base.len() <= width,
                base.len() <= row@.len() <= width,
                row@ == base + Seq::new((row@.len() - base.len()) as nat, |x: int| EMPTY),
            decreases width - row@.len(),
        {
            row.push(EMPTY);
            assert(row@ =~= base + Seq::new((row@.len() - base.len()) as nat, |x: int| EMPTY));
        }
        assert(row@ =~= pad(base, width as nat));
        out.push(row);
        k = k + 1;
    }
    assert(rows_of(&out) =~= parse_level(s));
    out
}

/// Appends the character that tile code `t` is written as.
fn push_tile_char(out: &mut String, t: u8)
    ensures
        final(out)@ == old(out)@.push(char_of_tile(t)),
{
    proof {
        reveal_strlit("#");
        reveal_strlit(".");
        reveal_strlit("o");
        reveal_strlit(" ");
    }
    if t == WALL {
        out.append("#");
    } else if t == SMALL_PELLET {
        out.append(".");
    } else if t == BIG_PELLET {
        out.append("o");
    } else {
        out.append(" ");
    }
    assert(final(out)@ =~= old(out)@.push(char_of_tile(t)));
}

/// Writes a map as level text: `#` for a wall, `.` for a small pellet, `o` for a big pellet
/// and a space for anything else, one line per row, rows separated by a newline.
pub fn save_level_to_string(map: &Vec<Vec<u8>>) -> (r: String)
    ensures
        r@ == level_text(rows_of(map)),
{
    let ghost g = rows_of(map);
    let mut out = String::new();
    let mut i: usize = 0;
    while i < map.len()
        invariant
            g == rows_of(map),
            i <= g.len(),
            out@ == level_text(g.take(i as int)),
        decreases g.len() - i,
    {
        proof {
            reveal_strlit("\n");
        }
        let ghost t = g.take(i as int + 1).map_values(|r: Seq<u8>| row_text(r));
        assert(t.drop_last() =~= g.take(i as int).map_values(|r: Seq<u8>| row_text(r)));
        if i > 0 {
            out.append("\n");
        }
        let ghost start = out@;
        let row = &map[i];
        assert(row@ == g[i as int]);
        let mut j: usize = 0;
        while j < row.len()
            invariant
                j <= row@.len(),
                out@ == start + row_text(row@.take(j as int)),
            decreases row@.len() - j,
        {
            push_tile_char(&mut out, row[j]);
            j = j + 1;
            assert(out@ =~= start + row_text(row@.take(j as int)));
        }
        assert(row@.take(row@.len() as int) =~= row@);
        assert(t.last() == row_text(g[i as int]));
        assert(out@ =~= join_lines(t));
        i = i + 1;
    }
    assert(g.take(g.len() as int) =~= g);
    out
}

/// The map to edit: the level text when the file could be read, the blank map otherwise.
pub fn level_or_default(content: Option<&str>) -> (r: Vec<Vec<u8>>)
    ensures
        content is Some ==> rows_of(&r) == parse_level(content->0@),
        content is None ==> rows_of(&r) == blank_map(),
{
    match content {
        Some(text) => load_level_from_string(text),
        None => create_default_map(),
    }
}

} // verus!
