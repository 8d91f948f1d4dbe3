//! The custom-coloured folder image: the template folder SVG with its two colours
//! replaced, line by line.
use vstd::prelude::*;
use crate::text::{chars_of, lemma_split_len, push_all, replace_all, replace_all_exec, split, split_exec, string_of, views};

verus! {

/// A line without the carriage return that ended it.
pub open spec fn strip_cr(l: Seq<char>) -> Seq<char> {
    if l.len() > 0 && l.last() == '\r' {
        l.drop_last()
    } else {
        l
    }
}

/// The lines of a text as `str::lines` yields them: split at `\n`, a `\r` before a
/// `\n` dropped, and no empty line after a final `\n`.
pub open spec fn lines(s: Seq<char>) -> Seq<Seq<char>> {
    let p = split(s, '\n');
    let terminated = p.drop_last().map_values(|l: Seq<char>| strip_cr(l));
    if p.last().len() == 0 {
        terminated
    } else {
        terminated.push(p.last())
    }
}

/// The light colour of the template folder.
pub open spec fn primary_template() -> Seq<char> {
    seq!['a', '4', 'c', 'a', 'e', 'e']
}

/// The dark colour of the template folder.
pub open spec fn secondary_template() -> Seq<char> {
    seq!['4', '3', '8', 'd', 'e', '6']
}

/// One line with the template colours replaced: first the light colour, then, in
/// what that gave, the dark colour.
pub open spec fn recolor_line(l: Seq<char>, primary: Seq<char>, secondary: Seq<char>) -> Seq<char> {
    replace_all(replace_all(l, primary_template(), primary), secondary_template(), secondary)
}

/// The lines recoloured, each followed by `\n`.
pub open spec fn recolor_lines(ls: Seq<Seq<char>>, primary: Seq<char>, secondary: Seq<char>) -> Seq<char>
    decreases ls.len(),
{
    if ls.len() == 0 {
        Seq::<char>::empty()
    } else {
        recolor_lines(ls.drop_last(), primary, secondary) + recolor_line(ls.last(), primary, secondary)
            + seq!['\n']
    }
}

fn strip_cr_exec(l: &Vec<char>) -> (r: Vec<char>)
    ensures
        r@ == strip_cr(l@),
{
    let mut r = l.clone();
    if r.len() > 0 && r[r.len() - 1] == '\r' {
        r.pop();
        assert(r@ =~= l@.drop_last());
    }
    r
}

fn recolor_line_exec(l: &Vec<char>, primary: &Vec<char>, secondary: &Vec<char>) -> (r: Vec<char>)
    ensures
        r@ == recolor_line(l@, primary@, secondary@),
{
    let mut a: Vec<char> = Vec::new();
    a.push('a');
    a.push('4');
    a.push('c');
    a.push('a');
    a.push('e');
    a.push('e');
    assert(a@ =~= primary_template());
    let mut b: Vec<char> = Vec::new();
    b.push('4');
    b.push('3');
    b.push('8');
    b.push('d');
    b.push('e');
    b.push('6');
    assert(b@ =~= secondary_template());
    let first = replace_all_exec(l, &a, primary);
    replace_all_exec(&first, &b, secondary)
}

/// The template folder SVG with its light colour replaced by `primary_color` and its
/// dark colour by `secondary_color`, every line ended by `\n`.
pub fn create_custom_folder_color(svg: &str, primary_color: &str, secondary_color: &str) -> (r: String)
    ensures
        r@ == recolor_lines(lines(svg@), primary_color@, secondary_color@),
{
    let text = chars_of(svg);
    let primary = chars_of(primary_color);
    let secondary = chars_of(secondary_color);
    let parts = split_exec(&text, '\n');
    let ghost p = split(svg@, '\n');
    let ghost terminated = p.drop_last().map_values(|l: Seq<char>| strip_cr(l));
    proof {
        lemma_split_len(svg@, '\n');
    }
    assert(views(parts@) == p);
    let last = parts.len() - 1;
    let mut out: Vec<char> = Vec::new();
    let mut k: usize = 0;
    assert(terminated.take(0) =~= Seq::<Seq<char>>::empty());
    while k < last
        invariant
            views(parts@) == p,
            last == p.len() - 1,
            terminated == p.drop_last().map_values(|l: Seq<char>| strip_cr(l)),
            k <= last,
            primary@ == primary_color@,
            secondary@ == secondary_color@,
            out@ == recolor_lines(terminated.take(k as int), primary_color@, secondary_color@),
        decreases last - k,
    {
        assert(parts@[k as int]@ == p[k as int]);
        let line = strip_cr_exec(&parts[k]);
        let colored = recolor_line_exec(&line, &primary, &secondary);
        push_all(&mut out, &colored);
        out.push('\n');
        let ghost next = terminated.take(k + 1);
        assert(next.drop_last() =~= terminated.take(k as int));
        assert(next.last() == strip_cr(p[k as int]));
        assert(out@ =~= recolor_lines(next, primary_color@, secondary_color@));
        k = k + 1;
    }
    assert(terminated.take(last as int) =~= terminated);
    assert(parts@[last as int]@ == p.last());
    if parts[last].len() > 0 {
        let colored = recolor_line_exec(&parts[last], &primary, &secondary);
        push_all(&mut out, &colored);
        out.push('\n');
        let ghost all = terminated.push(p.last());
        assert(all.drop_last() =~= terminated);
        assert(out@ =~= recolor_lines(all, primary_color@, secondary_color@));
    }
    string_of(&out)
}

} // verus!
