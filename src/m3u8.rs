//! The playlist file format: plain text, one path per line, no header and
//! no escaping.
use vstd::prelude::*;

verus! {

/// The pieces of `t` between newlines, empty pieces included: `""` gives one
/// empty piece, `"a\n"` gives `"a"` and an empty piece.
pub open spec fn segments(t: Seq<char>) -> Seq<Seq<char>>
    decreases t.len(),
{
    if t.len() == 0 {
        seq![Seq::empty()]
    } else {
        let s = segments(t.drop_last());
        if t.last() == '\n' {
            s.push(Seq::empty())
        } else {
            s.update(s.len() - 1, s.last().push(t.last()))
        }
    }
}

/// A line without the carriage return that ends it, if any.
pub open spec fn strip_cr(l: Seq<char>) -> Seq<char> {
    if l.len() > 0 && l.last() == '\r' {
        l.drop_last()
    } else {
        l
    }
}

/// The lines of a text: the pieces between newlines, each without a carriage
/// return that ends it before its newline, and the piece after the last
/// newline as it stands unless it is empty.
pub open spec fn text_lines(t: Seq<char>) -> Seq<Seq<char>> {
    let s = segments(t);
    let ended = s.drop_last().map_values(|l: Seq<char>| strip_cr(l));
    if s.last().len() == 0 {
        ended
    } else {
        ended.push(s.last())
    }
}

/// The paths joined by single newlines, with none after the last one.
pub open spec fn join_lines(paths: Seq<Seq<char>>) -> Seq<char>
    decreases paths.len(),
{
    if paths.len() == 0 {
        Seq::empty()
    } else if paths.len() == 1 {
        paths[0]
    } else {
        join_lines(paths.drop_last()) + seq!['\n'] + paths.last()
    }
}

/// A path that ends in a carriage return.
pub open spec fn ends_in_cr(p: Seq<char>) -> bool {
    p.len() > 0 && p.last() == '\r'
}

proof fn lemma_segments_extend(a: Seq<char>, b: Seq<char>)
    requires
        !b.contains('\n'),
    ensures
        segments(a + b) == segments(a).update(
            segments(a).len() - 1,
            segments(a).last() + b,
        ),
        segments(a + b).len() == segments(a).len(),
    decreases b.len(),
{
    lemma_segments_nonempty(a);
    if b.len() == 0 {
        assert(a + b =~= a);
        assert(segments(a).last() + b =~= segments(a).last());
        assert(segments(a).update(segments(a).len() - 1, segments(a).last()) =~= segments(a));
    } else {
        let b0 = b.drop_last();
        assert(!b0.contains('\n')) by {
            if b0.contains('\n') {
                let k = choose|k: int| 0 <= k < b0.len() && b0[k] == '\n';
                assert(b[k] == '\n');
            }
        }
        lemma_segments_extend(a, b0);
        assert((a + b).drop_last() =~= a + b0);
        assert((a + b).last() == b.last());
        assert(b.last() != '\n') by {
            assert(b[b.len() - 1] == b.last());
        }
        assert(segments(a).last() + b0 + seq![b.last()] =~= segments(a).last() + b);
        assert((segments(a).last() + b0).push(b.last()) =~= segments(a).last() + b);
        let s = segments(a + b0);
        assert(segments(a + b) == s.update(s.len() - 1, s.last().push(b.last())));
        assert(segments(a + b) =~= segments(a).update(
            segments(a).len() - 1,
            segments(a).last() + b,
        ));
    }
}

proof fn lemma_segments_nonempty(t: Seq<char>)
    ensures
        segments(t).len() >= 1,
    decreases t.len(),
{
    if t.len() > 0 {
        lemma_segments_nonempty(t.drop_last());
    }
}

proof fn lemma_segments_of_join(paths: Seq<Seq<char>>)
    requires
        paths.len() >= 1,
        forall|i: int| 0 <= i < paths.len() ==> !(#[trigger] paths[i]).contains('\n'),
    ensures
        segments(join_lines(paths)) == paths,
    decreases paths.len(),
{
    if paths.len() == 1 {
        lemma_segments_extend(Seq::empty(), paths[0]);
        assert(Seq::<char>::empty() + paths[0] =~= paths[0]);
        assert(segments(Seq::<char>::empty()) =~= seq![Seq::<char>::empty()]);
        assert(segments(paths[0]) =~= paths);
    } else {
        let init = paths.drop_last();
        assert forall|i: int| 0 <= i < init.len() implies !(#[trigger] init[i]).contains('\n') by {
            assert(init[i] == paths[i]);
        }
        lemma_segments_of_join(init);
        let a = join_lines(init) + seq!['\n'];
        assert(a.drop_last() =~= join_lines(init));
        assert(segments(a) =~= init.push(Seq::empty()));
        assert(!paths.last().contains('\n')) by {
            assert(paths[paths.len() - 1] == paths.last());
        }
        lemma_segments_extend(a, paths.last());
        assert(Seq::<char>::empty() + paths.last() =~= paths.last());
        assert(segments(a + paths.last()) =~= paths);
    }
}

/// Writing a list of paths out and reading the text back gives the same
/// list, provided no path holds a newline, no path but the last ends in a
/// carriage return, and the last path is not empty.
pub proof fn lemma_round_trip(paths: Seq<Seq<char>>)
    requires
        forall|i: int| 0 <= i < paths.len() ==> !(#[trigger] paths[i]).contains('\n'),
        forall|i: int| 0 <= i < paths.len() - 1 ==> !ends_in_cr(#[trigger] paths[i]),
        paths.len() > 0 ==> paths.last().len() > 0,
    ensures
        text_lines(join_lines(paths)) == paths,
{
    if paths.len() == 0 {
        assert(segments(join_lines(paths)) =~= seq![Seq::<char>::empty()]);
        assert(text_lines(join_lines(paths)) =~= paths);
    } else {
        lemma_segments_of_join(paths);
        assert(paths.last() == paths[paths.len() - 1]);
        let init = paths.drop_last();
        assert forall|i: int| 0 <= i < init.len() implies strip_cr(#[trigger] init[i]) == init[i] by {
            assert(init[i] == paths[i]);
            assert(!ends_in_cr(paths[i]));
        }
        assert(init.map_values(|l: Seq<char>| strip_cr(l)) =~= init);
        assert(init.push(paths.last()) =~= paths);
    }
}

proof fn lemma_join_extend_last(s: Seq<Seq<char>>, c: char)
    requires
        s.len() >= 1,
    ensures
        join_lines(s.update(s.len() - 1, s.last().push(c))) == join_lines(s).push(c),
{
    let u = s.update(s.len() - 1, s.last().push(c));
    if s.len() == 1 {
        assert(u[0] == s[0].push(c));
    } else {
        assert(u.drop_last() =~= s.drop_last());
        assert(u.last() == s.last().push(c));
        assert(join_lines(u) =~= join_lines(s).push(c));
    }
}

proof fn lemma_join_segments(t: Seq<char>)
    ensures
        join_lines(segments(t)) == t,
    decreases t.len(),
{
    if t.len() == 0 {
        assert(segments(t) =~= seq![Seq::<char>::empty()]);
    } else {
        let init = t.drop_last();
        lemma_join_segments(init);
        lemma_segments_nonempty(init);
        let s = segments(init);
        if t.last() == '\n' {
            assert(s.push(Seq::empty()).drop_last() =~= s);
            assert(join_lines(s.push(Seq::empty())) =~= init + seq!['\n'] + Seq::<char>::empty());
        } else {
            lemma_join_extend_last(s, t.last());
        }
        assert(init.push(t.last()) =~= t);
    }
}

/// Reading a playlist file and writing the paths out again gives the same
/// text, provided the text holds no carriage return and does not end in a
/// newline.
pub proof fn lemma_text_round_trip(t: Seq<char>)
    requires
        !t.contains('\r'),
        t.len() > 0 ==> t.last() != '\n',
    ensures
        join_lines(text_lines(t)) == t,
{
    let s = segments(t);
    lemma_join_segments(t);
    lemma_segments_nonempty(t);
    if t.len() == 0 {
        assert(s =~= seq![Seq::<char>::empty()]);
        assert(text_lines(t) =~= Seq::<Seq<char>>::empty());
    } else {
        assert(s.last().len() > 0) by {
            lemma_segments_nonempty(t.drop_last());
        }
        let init = s.drop_last();
        assert forall|i: int| 0 <= i < init.len() implies strip_cr(#[trigger] init[i]) == init[i] by {
            lemma_segments_hold_no(t, '\r', i);
            assert(init[i] == s[i]);
        }
        assert(init.map_values(|l: Seq<char>| strip_cr(l)) =~= init);
        assert(init.push(s.last()) =~= s);
    }
}

/// No piece of `t` holds a character that `t` does not hold.
proof fn lemma_segments_hold_no(t: Seq<char>, c: char, i: int)
    requires
        !t.contains(c),
        0 <= i < segments(t).len(),
    ensures
        !segments(t)[i].contains(c),
    decreases t.len(),
{
    if t.len() > 0 {
        let init = t.drop_last();
        assert(!init.contains(c)) by {
            if init.contains(c) {
                let k = choose|k: int| 0 <= k < init.len() && init[k] == c;
                assert(t[k] == c);
            }
        }
        lemma_segments_nonempty(init);
        let s = segments(init);
        assert(t.last() != c) by {
            assert(t[t.len() - 1] == t.last());
        }
        if t.last() == '\n' {
            if i < s.len() {
                lemma_segments_hold_no(init, c, i);
            }
        } else {
            lemma_segments_hold_no(init, c, i);
            if i == s.len() - 1 {
                let l = s.last().push(t.last());
                assert(!l.contains(c)) by {
                    if l.contains(c) {
                        let k = choose|k: int| 0 <= k < l.len() && l[k] == c;
                        if k < s.last().len() {
                            assert(s.last()[k] == c);
                        }
                    }
                }
            }
        }
    }
}

/// The path each line of a playlist file names, in order.
pub fn m3u8_paths(text: &str) -> (r: Vec<String>)
    ensures
        r@.map_values(|s: String| s@) == text_lines(text@),
{
    let n = text.unicode_len();
    let mut out: Vec<String> = Vec::new();
    let mut start: usize = 0;
    let mut i: usize = 0;
    while i < n
        invariant
            n == text@.len(),
            start <= i <= n,
            segments(text@.subrange(0, i as int)).len() == out@.len() + 1,
            segments(text@.subrange(0, i as int)).last() == text@.subrange(start as int, i as int),
            forall|k: int|
                0 <= k < out@.len() ==> (#[trigger] out@[k])@ == strip_cr(
                    segments(text@.subrange(0, i as int))[k],
                ),
        decreases n - i,
    {
        let c = text.get_char(i);
        assert(text@.subrange(0, i + 1).drop_last() =~= text@.subrange(0, i as int));
        assert(text@.subrange(0, i + 1).last() == c);
        if c == '\n' {
            let line = line_at(text, start, i);
            out.push(line);
            start = i + 1;
            assert(text@.subrange(start as int, i + 1) =~= Seq::<char>::empty());
        } else {
            assert(text@.subrange(start as int, i + 1) =~= text@.subrange(start as int, i as int).push(c));
        }
        i = i + 1;
    }
    assert(text@.subrange(0, n as int) =~= text@);
    let ghost s = segments(text@);
    let ghost ended = s.drop_last().map_values(|l: Seq<char>| strip_cr(l));
    assert(out@.map_values(|s: String| s@) =~= ended);
    if start < n {
        out.push(text.substring_char(start, n).to_owned());
        assert(out@.map_values(|s: String| s@) =~= ended.push(s.last()));
    }
    out
}

/// The characters of `text` from `start` up to `end`, without a carriage
/// return at the end.
fn line_at(text: &str, start: usize, end: usize) -> (r: String)
    requires
        start <= end <= text@.len(),
    ensures
        r@ == strip_cr(text@.subrange(start as int, end as int)),
{
    let stop = if end > start && text.get_char(end - 1) == '\r' {
        end - 1
    } else {
        end
    };
    if end > start {
        assert(text@.subrange(start as int, end as int).drop_last() =~= text@.subrange(
            start as int,
            end - 1,
        ));
    }
    text.substring_char(start, stop).to_owned()
}

} // verus!
