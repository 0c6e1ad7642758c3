//! The unit of layout: a piece of styled text together with the number of
//! terminal columns it occupies.

use vstd::prelude::*;

verus! {

/// A piece of the line, ready to be written to the terminal.
///
/// `part` already carries its escape sequences, so nothing can be read off
/// its length; `len` is the number of columns it occupies and is the only
/// width the layout ever uses. `tab_index` names the tab that a click on
/// this piece selects, if any.
#[derive(Debug)]
pub struct LinePart {
    pub part: String,
    pub len: usize,
    pub tab_index: Option<usize>,
}

/// What a `LinePart` is to the contracts.
pub struct LinePartView {
    pub part: Seq<char>,
    pub len: nat,
    pub tab_index: Option<nat>,
}

impl View for LinePart {
    type V = LinePartView;

    open spec fn view(&self) -> LinePartView {
        LinePartView {
            part: self.part@,
            len: self.len as nat,
            tab_index: match self.tab_index {
                Some(i) => Some(i as nat),
                None => None,
            },
        }
    }
}

impl Default for LinePart {
    /// The empty piece: no text, no width, no tab.
    fn default() -> (r: LinePart)
        ensures
            r@ == empty_part(),
    {
        LinePart { part: String::new(), len: 0, tab_index: None }
    }
}

/// The empty piece.
pub open spec fn empty_part() -> LinePartView {
    LinePartView { part: Seq::empty(), len: 0, tab_index: None }
}

/// The views of a row of pieces, in order.
pub open spec fn views(parts: Seq<LinePart>) -> Seq<LinePartView> {
    parts.map_values(|p: LinePart| p@)
}

/// The columns that a row of pieces occupies.
pub open spec fn total_width(parts: Seq<LinePartView>) -> nat
    decreases parts.len(),
{
    if parts.len() == 0 {
        0
    } else {
        total_width(parts.drop_last()) + parts.last().len
    }
}

/// The width of a row made of two rows is the sum of their widths.
pub proof fn lemma_total_width_add(a: Seq<LinePartView>, b: Seq<LinePartView>)
    ensures
        total_width(a + b) == total_width(a) + total_width(b),
    decreases b.len(),
{
    if b.len() == 0 {
        assert(a + b =~= a);
    } else {
        assert((a + b).drop_last() =~= a + b.drop_last());
        lemma_total_width_add(a, b.drop_last());
    }
}

/// A row of one piece is as wide as that piece.
pub proof fn lemma_total_width_one(p: LinePartView)
    ensures
        total_width(seq![p]) == p.len,
{
    assert(seq![p].drop_last() =~= Seq::<LinePartView>::empty());
    reveal_with_fuel(total_width, 2);
}

/// Taking views and cutting a row commute, as do taking views and joining
/// two rows.
pub proof fn lemma_views_cut(parts: Seq<LinePart>, at: int)
    requires
        0 <= at <= parts.len(),
    ensures
        views(parts.take(at)) == views(parts).take(at),
        views(parts.skip(at)) == views(parts).skip(at),
{
    assert(views(parts.take(at)) =~= views(parts).take(at));
    assert(views(parts.skip(at)) =~= views(parts).skip(at));
}

/// The views of two rows joined are the views of each, joined.
pub proof fn lemma_views_add(a: Seq<LinePart>, b: Seq<LinePart>)
    ensures
        views(a + b) == views(a) + views(b),
{
    assert(views(a + b) =~= views(a) + views(b));
}

/// The columns occupied by the pieces of `current_title`, where a `usize`
/// can hold them.
pub fn get_current_title_len(current_title: &Vec<LinePart>) -> (len: usize)
    requires
        total_width(views(current_title@)) <= usize::MAX,
    ensures
        len == total_width(views(current_title@)),
{
    let mut len: usize = 0;
    let mut i: usize = 0;
    while i < current_title.len()
        invariant
            i <= current_title.len(),
            len == total_width(views(current_title@.take(i as int))),
            total_width(views(current_title@)) <= usize::MAX,
        decreases current_title.len() - i,
    {
        proof {
            let all = views(current_title@);
            let done = views(current_title@.take(i as int));
            let next = views(current_title@.take(i + 1));
            assert(next.drop_last() =~= done);
            assert(next.last() == current_title@[i as int]@);
            assert(all =~= next + views(current_title@.skip(i + 1)));
            lemma_total_width_add(next, views(current_title@.skip(i + 1)));
        }
        len = len + current_title[i].len;
        i = i + 1;
    }
    assert(current_title@.take(i as int) =~= current_title@);
    len
}

/// The columns occupied by the pieces of `parts`, or nothing where a
/// `usize` cannot hold them.
pub fn checked_title_len(parts: &Vec<LinePart>) -> (len: Option<usize>)
    ensures
        match len {
            Some(len) => len == total_width(views(parts@)),
            None => total_width(views(parts@)) > usize::MAX,
        },
{
    let mut len: usize = 0;
    let mut i: usize = 0;
    while i < parts.len()
        invariant
            i <= parts.len(),
            len == total_width(views(parts@.take(i as int))),
        decreases parts.len() - i,
    {
        proof {
            let all = views(parts@);
            let done = views(parts@.take(i as int));
            let next = views(parts@.take(i + 1));
            assert(next.drop_last() =~= done);
            assert(next.last() == parts@[i as int]@);
            assert(all =~= next + views(parts@.skip(i + 1)));
            lemma_total_width_add(next, views(parts@.skip(i + 1)));
        }
        match len.checked_add(parts[i].len) {
            Some(sum) => {
                len = sum;
            },
            None => {
                return None;
            },
        }
        i = i + 1;
    }
    assert(parts@.take(i as int) =~= parts@);
    Some(len)
}

} // verus!
