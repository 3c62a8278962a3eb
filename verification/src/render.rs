//! Styled text: what is shown, as pieces with a color each, leaving the
//! painting to the terminal side.
use vstd::prelude::*;

verus! {

/// The color a piece of text is shown in (`Plain` for none).
#[derive(Clone, Copy, Debug, PartialEq, Eq)]
pub enum Color {
    Plain,
    Red,
    Green,
    Yellow,
    Cyan,
    BrightBlack,
}

/// A piece of a displayed line: a text in a color, or an amount of lamports
/// shown in SOL (lamports divided by 10^9, as a floating-point number).
#[derive(Debug, PartialEq)]
pub enum Span {
    Text(String, Color),
    Sol(u64),
}

/// The mathematical value of a `Span`.
pub enum SpanView {
    Text(Seq<char>, Color),
    Sol(u64),
}

impl View for Span {
    type V = SpanView;

    open spec fn view(&self) -> SpanView {
        match self {
            Span::Text(t, c) => SpanView::Text(t@, *c),
            Span::Sol(l) => SpanView::Sol(*l),
        }
    }
}

/// A displayed line: its pieces, in order.
pub type Line = Vec<Span>;

/// The values of the pieces of a line.
pub open spec fn line_view(line: Seq<Span>) -> Seq<SpanView> {
    line.map_values(|s: Span| s@)
}

/// The values of the lines.
pub open spec fn lines_view(lines: Seq<Line>) -> Seq<Seq<SpanView>> {
    lines.map_values(|l: Line| line_view(l@))
}

/// A text piece.
pub open spec fn styled(t: Seq<char>, c: Color) -> SpanView {
    SpanView::Text(t, c)
}

/// An uncolored text piece.
pub open spec fn plain(t: Seq<char>) -> SpanView {
    SpanView::Text(t, Color::Plain)
}

/// A line of one piece, from a literal.
pub fn line_of(t: &str, c: Color) -> (l: Line)
    ensures
        line_view(l@) == seq![styled(t@, c)],
{
    let mut l: Line = Vec::new();
    l.push(Span::Text(t.to_owned(), c));
    assert(line_view(l@) =~= seq![styled(t@, c)]);
    l
}

/// Appends a text piece to a line.
pub fn push_text(l: &mut Line, t: String, c: Color)
    ensures
        line_view(final(l)@) == line_view(old(l)@).push(styled(t@, c)),
{
    l.push(Span::Text(t, c));
    assert(line_view(l@) =~= line_view(old(l)@).push(styled(t@, c)));
}

/// Appends the pieces of `more` to a line.
pub fn append_spans(l: &mut Line, more: Line)
    ensures
        line_view(final(l)@) == line_view(old(l)@) + line_view(more@),
{
    let mut more = more;
    let ghost m = more@;
    l.append(&mut more);
    assert(line_view(l@) =~= line_view(old(l)@) + line_view(m));
}

/// The items with `sep` between each two of them.
pub open spec fn interleave(items: Seq<SpanView>, sep: SpanView) -> Seq<SpanView>
    decreases items.len(),
{
    if items.len() <= 1 {
        items
    } else {
        interleave(items.drop_last(), sep) + seq![sep, items.last()]
    }
}

/// Nothing when there are no items; otherwise `open`, the items separated
/// by `sep`, and `close`, the three of them uncolored.
pub open spec fn bracketed(open: Seq<char>, items: Seq<SpanView>, sep: Seq<char>, close: Seq<char>) -> Seq<
    SpanView,
> {
    if items.len() == 0 {
        Seq::empty()
    } else {
        seq![plain(open)] + interleave(items, plain(sep)) + seq![plain(close)]
    }
}

/// The pieces of the given texts and colors.
pub open spec fn tags_view(tags: Seq<(&str, Color)>) -> Seq<SpanView> {
    tags.map_values(|t: (&str, Color)| styled(t.0@, t.1))
}

/// The tags between `open` and `close`, separated by `sep`, as `bracketed`
/// says (as `format!("{open}{}{close}", tags.join(sep))` shows them).
pub fn bracket(tags: &Vec<(&str, Color)>, open: &str, sep: &str, close: &str) -> (l: Line)
    ensures
        line_view(l@) == bracketed(open@, tags_view(tags@), sep@, close@),
{
    let mut l: Line = Vec::new();
    let n = tags.len();
    if n == 0 {
        assert(line_view(l@) =~= bracketed(open@, tags_view(tags@), sep@, close@));
        return l;
    }
    l.push(Span::Text(open.to_owned(), Color::Plain));
    let ghost items = tags_view(tags@);
    for i in 0..n
        invariant
            n == tags@.len(),
            n > 0,
            items == tags_view(tags@),
            i == 0 ==> line_view(l@) =~= seq![plain(open@)],
            i > 0 ==> line_view(l@) =~= seq![plain(open@)] + interleave(items.take(i as int), plain(sep@)),
    {
        let ghost before = line_view(l@);
        if i > 0 {
            l.push(Span::Text(sep.to_owned(), Color::Plain));
        }
        let (t, c) = tags[i];
        l.push(Span::Text(t.to_owned(), c));
        proof {
            let next = items.take(i + 1);
            assert(next.drop_last() =~= items.take(i as int));
            assert(next.last() == items[i as int]);
            assert(items[i as int] == styled(t@, c));
            if i == 0 {
                assert(interleave(next, plain(sep@)) =~= next);
                assert(line_view(l@) =~= before + seq![styled(t@, c)]);
            } else {
                assert(interleave(next, plain(sep@)) == interleave(items.take(i as int), plain(sep@))
                    + seq![plain(sep@), items[i as int]]);
                assert(line_view(l@) =~= before + seq![plain(sep@), styled(t@, c)]);
            }
        }
    }
    l.push(Span::Text(close.to_owned(), Color::Plain));
    assert(items.take(n as int) =~= items);
    assert(line_view(l@) =~= bracketed(open@, tags_view(tags@), sep@, close@));
    l
}

/// Appends a line to the lines.
pub fn push_line(lines: &mut Vec<Line>, line: Line)
    ensures
        lines_view(final(lines)@) == lines_view(old(lines)@).push(line_view(line@)),
{
    let ghost before = lines@;
    lines.push(line);
    assert(lines_view(lines@) =~= lines_view(before).push(line_view(line@)));
}

/// Appends the lines of `more` to the lines.
pub fn append_lines(lines: &mut Vec<Line>, more: Vec<Line>)
    ensures
        lines_view(final(lines)@) == lines_view(old(lines)@) + lines_view(more@),
{
    let mut more = more;
    let ghost m = more@;
    lines.append(&mut more);
    assert(lines_view(lines@) =~= lines_view(old(lines)@) + lines_view(m));
}

/// A line of one uncolored piece.
pub fn plain_line(t: String) -> (l: Line)
    ensures
        line_view(l@) == seq![plain(t@)],
{
    let mut l: Line = Vec::new();
    push_text(&mut l, t, Color::Plain);
    assert(line_view(l@) =~= seq![plain(t@)]);
    l
}

} // verus!
