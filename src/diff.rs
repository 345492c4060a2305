use vstd::prelude::*;
use vstd::std_specs::iter::IteratorSpec;

verus! {

broadcast use {vstd::string::axiom_spec_iter, vstd::string::next_postcondition};

/// Splitting on every newline: one piece more than there are newlines.
pub open spec fn split_newlines(s: Seq<char>) -> Seq<Seq<char>>
    decreases s.len(),
{
    if s.len() == 0 {
        seq![Seq::<char>::empty()]
    } else {
        let pieces = split_newlines(s.drop_last());
        if s.last() == '\n' {
            pieces.push(Seq::<char>::empty())
        } else {
            pieces.update(pieces.len() - 1, pieces.last().push(s.last()))
        }
    }
}

/// A line that ended in a newline loses a carriage return before it.
pub open spec fn strip_cr(l: Seq<char>) -> Seq<char> {
    if l.len() > 0 && l.last() == '\r' {
        l.drop_last()
    } else {
        l
    }
}

/// The lines of a text: pieces between newlines, where a `\r\n` also ends a
/// line, and where a final newline does not begin an empty last line.
pub open spec fn lines_of(s: Seq<char>) -> Seq<Seq<char>> {
    let pieces = split_newlines(s);
    let ended = pieces.drop_last().map_values(|l: Seq<char>| strip_cr(l));
    if pieces.last().len() == 0 {
        ended
    } else {
        ended.push(pieces.last())
    }
}

/// The line at index `i`, or the empty line past the end.
pub open spec fn line_at(ls: Seq<Seq<char>>, i: int) -> Seq<char> {
    if 0 <= i < ls.len() {
        ls[i]
    } else {
        Seq::<char>::empty()
    }
}

/// A report line: a two-character marker, the text, and a newline.
pub open spec fn marked(m: char, l: Seq<char>) -> Seq<char> {
    seq![m, ' '] + l + seq!['\n']
}

/// A pending run of lines, each marked, where empty lines are left out.
pub open spec fn pend(run: Seq<char>, m: char, l: Seq<char>) -> Seq<char> {
    if l.len() > 0 {
        run + marked(m, l)
    } else {
        run
    }
}

/// The report after the first `i` line pairs: the text emitted so far, then
/// the pending removed run and the pending added run.
pub open spec fn diff_prefix(e: Seq<Seq<char>>, a: Seq<Seq<char>>, i: nat) -> (Seq<char>, Seq<char>, Seq<char>)
    decreases i,
{
    if i == 0 {
        (Seq::<char>::empty(), Seq::<char>::empty(), Seq::<char>::empty())
    } else {
        let (out, minus, plus) = diff_prefix(e, a, (i - 1) as nat);
        let x = line_at(e, i - 1);
        let y = line_at(a, i - 1);
        if x != y {
            (out, pend(minus, '-', x), pend(plus, '+', y))
        } else {
            (out + minus + plus + marked(' ', x), Seq::<char>::empty(), Seq::<char>::empty())
        }
    }
}

/// The line report of `expected` against `actual`: pairs of lines are walked
/// by index; a run of differing pairs is shown as all its removed lines, then
/// all its added lines; an equal pair is shown as context.
pub open spec fn diff_report(expected: Seq<char>, actual: Seq<char>) -> Seq<char> {
    let e = lines_of(expected);
    let a = lines_of(actual);
    let n = if e.len() >= a.len() { e.len() } else { a.len() };
    let (out, minus, plus) = diff_prefix(e, a, n);
    out + minus + plus
}

/// The lines held in a vector, as character sequences.
pub open spec fn views(v: Seq<Vec<char>>) -> Seq<Seq<char>> {
    v.map_values(|l: Vec<char>| l@)
}

/// Relies on `String::push`: the character is appended at the end.
#[verifier::external_body]
fn push_char(s: &mut String, c: char)
    ensures
        final(s)@ == old(s)@.push(c),
{
    s.push(c)
}

/// The characters of a string slice, in order.
fn chars_of(s: &str) -> (r: Vec<char>)
    ensures
        r@ == s@,
{
    let mut r: Vec<char> = Vec::new();
    let mut it = s.chars();
    loop
        invariant
            it.obeys_prophetic_iter_laws(),
            it.decrease() is Some,
            r@ + it.remaining() == s@,
        ensures
            r@ == s@,
        decreases it.decrease()->0,
    {
        match it.next() {
            Some(c) => {
                r.push(c);
            },
            None => {
                assert(r@ + it.remaining() =~= r@);
                break;
            },
        }
    }
    r
}

/// The lines of a text, as `lines_of` describes them.
fn split_lines(s: &Vec<char>) -> (r: Vec<Vec<char>>)
    ensures
        views(r@) == lines_of(s@),
{
    let mut done: Vec<Vec<char>> = Vec::new();
    let mut cur: Vec<char> = Vec::new();
    let mut i: usize = 0;
    while i < s.len()
        invariant
            i <= s.len(),
            views(done@) == split_newlines(s@.take(i as int)).drop_last().map_values(
                |l: Seq<char>| strip_cr(l),
            ),
            cur@ == split_newlines(s@.take(i as int)).last(),
            split_newlines(s@.take(i as int)).len() > 0,
        decreases s.len() - i,
    {
        let ghost before = split_newlines(s@.take(i as int));
        let c = s[i];
        assert(s@.take(i + 1).drop_last() =~= s@.take(i as int));
        assert(s@.take(i + 1).last() == c);
        if c == '\n' {
            let ghost done_before = views(done@);
            let mut line = cur;
            if line.len() > 0 && line[line.len() - 1] == '\r' {
                line.pop();
            }
            assert(line@ == strip_cr(before.last()));
            done.push(line);
            assert(views(done@) =~= done_before.push(line@));
            cur = Vec::new();
            let ghost after = before.push(Seq::<char>::empty());
            assert(after.drop_last() =~= before);
            assert(before.drop_last().push(before.last()) =~= before);
            assert(views(done@) =~= after.drop_last().map_values(|l: Seq<char>| strip_cr(l)));
        } else {
            cur.push(c);
            let ghost after = before.update(before.len() - 1, before.last().push(c));
            assert(after.drop_last() =~= before.drop_last());
        }
        i = i + 1;
    }
    assert(s@.take(i as int) =~= s@);
    let ghost pieces = split_newlines(s@);
    if cur.len() > 0 {
        let ghost done_before = views(done@);
        done.push(cur);
        assert(views(done@) =~= done_before.push(pieces.last()));
        assert(views(done@) =~= lines_of(s@));
    }
    done
}

/// Whether two lines hold the same characters.
fn lines_equal(x: &Vec<char>, y: &Vec<char>) -> (r: bool)
    ensures
        r == (x@ == y@),
{
    if x.len() != y.len() {
        return false;
    }
    let mut i: usize = 0;
    while i < x.len()
        invariant
            x.len() == y.len(),
            i <= x.len(),
            forall|j: int| 0 <= j < i ==> x@[j] == y@[j],
        decreases x.len() - i,
    {
        if x[i] != y[i] {
            return false;
        }
        i = i + 1;
    }
    assert(x@ =~= y@);
    true
}

/// Appends a marker, a space, the line and a newline.
fn push_marked(out: &mut String, m: char, l: &Vec<char>)
    ensures
        final(out)@ == old(out)@ + marked(m, l@),
{
    push_char(out, m);
    push_char(out, ' ');
    let mut i: usize = 0;
    while i < l.len()
        invariant
            i <= l.len(),
            out@ == old(out)@ + seq![m, ' '] + l@.take(i as int),
        decreases l.len() - i,
    {
        push_char(out, l[i]);
        assert(l@.take(i + 1) =~= l@.take(i as int).push(l@[i as int]));
        i = i + 1;
    }
    push_char(out, '\n');
    assert(l@.take(l.len() as int) =~= l@);
    assert(out@ =~= old(out)@ + marked(m, l@));
}

/// The line report of `expected` against `actual`, as `diff_report` states it.
pub fn diff_lines(expected: &str, actual: &str) -> (r: String)
    ensures
        r@ == diff_report(expected@, actual@),
{
    let e_chars = chars_of(expected);
    let a_chars = chars_of(actual);
    let e = split_lines(&e_chars);
    let a = split_lines(&a_chars);
    let ghost el = views(e@);
    let ghost al = views(a@);
    let n: usize = if e.len() >= a.len() { e.len() } else { a.len() };
    let empty: Vec<char> = Vec::new();
    let mut out = String::new();
    let mut minus = String::new();
    let mut plus = String::new();
    let mut i: usize = 0;
    while i < n
        invariant
            el == views(e@),
            al == views(a@),
            el.len() == e.len(),
            al.len() == a.len(),
            n == if el.len() >= al.len() { el.len() } else { al.len() },
            empty@.len() == 0,
            i <= n,
            (out@, minus@, plus@) == diff_prefix(el, al, i as nat),
        decreases n - i,
    {
        let x: &Vec<char> = if i < e.len() { &e[i] } else { &empty };
        let y: &Vec<char> = if i < a.len() { &a[i] } else { &empty };
        assert(x@ == line_at(el, i as int));
        assert(y@ == line_at(al, i as int));
        if !lines_equal(x, y) {
            if x.len() > 0 {
                push_marked(&mut minus, '-', x);
            }
            if y.len() > 0 {
                push_marked(&mut plus, '+', y);
            }
        } else {
            out.append(minus.as_str());
            out.append(plus.as_str());
            push_marked(&mut out, ' ', x);
            minus = String::new();
            plus = String::new();
        }
        i = i + 1;
    }
    out.append(minus.as_str());
    out.append(plus.as_str());
    out
}

} // verus!
