//! Text helpers: comparison of strings, splitting into lines, and the
//! timestamped console output.
use vstd::prelude::*;

verus! {

/// Whether two strings hold the same characters.
pub fn text_eq(a: &str, b: &str) -> (r: bool)
    ensures
        r == (a@ == b@),
{
    let n = a.unicode_len();
    if n != b.unicode_len() {
        return false;
    }
    let mut i: usize = 0;
    while i < n
        invariant
            n == a@.len(),
            n == b@.len(),
            i <= n,
            forall|j: int| 0 <= j < i ==> a@[j] == b@[j],
        decreases n - i,
    {
        if a.get_char(i) != b.get_char(i) {
            return false;
        }
        i = i + 1;
    }
    assert(a@ =~= b@);
    true
}

/// A line without the carriage return that ended it, if any.
pub open spec fn strip_cr(line: Seq<char>) -> Seq<char> {
    if line.len() > 0 && line.last() == '\r' {
        line.drop_last()
    } else {
        line
    }
}

/// The lines of `s`, given that `cur` has been read of the current line.
/// A line ends at `'\n'`; a `'\r'` just before that `'\n'` is not part of
/// it; the text after the last `'\n'` is a line of its own unless it is
/// empty.
pub open spec fn lines_from(s: Seq<char>, cur: Seq<char>) -> Seq<Seq<char>>
    decreases s.len(),
{
    if s.len() == 0 {
        if cur.len() == 0 {
            Seq::<Seq<char>>::empty()
        } else {
            seq![cur]
        }
    } else if s[0] == '\n' {
        seq![strip_cr(cur)] + lines_from(s.drop_first(), Seq::<char>::empty())
    } else {
        lines_from(s.drop_first(), cur.push(s[0]))
    }
}

/// The lines of a text, as `str::lines` splits it.
pub open spec fn lines(s: Seq<char>) -> Seq<Seq<char>> {
    lines_from(s, Seq::<char>::empty())
}

/// The lines joined with `'\n'` between them.
pub open spec fn join_lines(ls: Seq<Seq<char>>) -> Seq<char>
    decreases ls.len(),
{
    if ls.len() == 0 {
        Seq::<char>::empty()
    } else if ls.len() == 1 {
        ls[0]
    } else {
        join_lines(ls.drop_last()) + seq!['\n'] + ls.last()
    }
}

/// A line of output preceded by a timestamp and a space.
pub open spec fn stamped_line(timestamp: Seq<char>, line: Seq<char>) -> Seq<char> {
    timestamp + seq![' '] + line
}

/// Every line of `output` preceded by the timestamp.
pub open spec fn stamped_lines(timestamp: Seq<char>, output: Seq<char>) -> Seq<Seq<char>> {
    lines(output).map_values(|l: Seq<char>| stamped_line(timestamp, l))
}

/// Each line of `output`, preceded by `timestamp` and a space, the lines
/// joined by `'\n'`.
pub open spec fn spec_prefix_output_with_timestamp(timestamp: Seq<char>, output: Seq<char>) -> Seq<
    char,
> {
    join_lines(stamped_lines(timestamp, output))
}

proof fn lemma_join_push(ls: Seq<Seq<char>>, x: Seq<char>)
    ensures
        join_lines(ls.push(x)) == if ls.len() == 0 {
            x
        } else {
            join_lines(ls) + seq!['\n'] + x
        },
{
    assert(ls.push(x).drop_last() =~= ls);
}

/// Appends one stamped line to an output that holds `done.len()` of them.
fn push_stamped(
    out: &mut String,
    timestamp: &str,
    line: &str,
    first: bool,
    Ghost(done): Ghost<Seq<Seq<char>>>,
)
    requires
        first == (done.len() == 0),
        old(out)@ == join_lines(done.map_values(|l: Seq<char>| stamped_line(timestamp@, l))),
    ensures
        final(out)@ == join_lines(
            done.push(line@).map_values(|l: Seq<char>| stamped_line(timestamp@, l)),
        ),
{
    let ghost f = |l: Seq<char>| stamped_line(timestamp@, l);
    let ghost before = done.map_values(f);
    if !first {
        proof { reveal_strlit("\n"); }
        out.append("\n");
    }
    out.append(timestamp);
    proof { reveal_strlit(" "); }
    out.append(" ");
    out.append(line);
    proof {
        assert(done.push(line@).map_values(f) =~= before.push(f(line@)));
        lemma_join_push(before, f(line@));
        if done.len() > 0 {
            assert(final(out)@ =~= join_lines(before) + seq!['\n'] + f(line@));
        } else {
            assert(final(out)@ =~= f(line@));
        }
    }
}

/// Precedes every line of `output` with `timestamp` and a space.
pub fn prefix_output_with_timestamp(timestamp: &str, output: &str) -> (r: String)
    ensures
        r@ == spec_prefix_output_with_timestamp(timestamp@, output@),
{
    let n = output.unicode_len();
    let mut res = String::new();
    let mut start: usize = 0;
    let mut i: usize = 0;
    let mut first = true;
    let ghost s = output@;
    let ghost mut done: Seq<Seq<char>> = Seq::empty();
    proof {
        assert(s.skip(0) =~= s);
        assert(s.subrange(0, 0) =~= Seq::<char>::empty());
        assert(res@ =~= join_lines(done.map_values(|l: Seq<char>| stamped_line(timestamp@, l))));
    }
    while i < n
        invariant
            n == s.len(),
            s == output@,
            start <= i <= n,
            first == (done.len() == 0),
            lines(s) == done + lines_from(s.skip(i as int), s.subrange(start as int, i as int)),
            res@ == join_lines(done.map_values(|l: Seq<char>| stamped_line(timestamp@, l))),
        decreases n - i,
    {
        let c = output.get_char(i);
        let ghost cur = s.subrange(start as int, i as int);
        proof {
            assert(s.skip(i as int)[0] == c);
            assert(s.skip(i as int).drop_first() =~= s.skip(i + 1));
        }
        if c == '\n' {
            let mut end = i;
            if i > start && output.get_char(i - 1) == '\r' {
                end = i - 1;
            }
            let line = output.substring_char(start, end);
            proof {
                assert(line@ =~= strip_cr(cur));
                assert(s.subrange(i + 1, i + 1) =~= Seq::<char>::empty());
            }
            push_stamped(&mut res, timestamp, line, first, Ghost(done));
            first = false;
            proof {
                assert(done + lines_from(s.skip(i as int), cur) =~= done.push(line@) + lines_from(
                    s.skip(i + 1),
                    Seq::<char>::empty(),
                ));
                done = done.push(line@);
            }
            start = i + 1;
        } else {
            proof {
                assert(cur.push(c) =~= s.subrange(start as int, i + 1));
            }
        }
        i = i + 1;
    }
    proof {
        assert(s.skip(n as int) =~= Seq::<char>::empty());
    }
    if start < n {
        let line = output.substring_char(start, n);
        push_stamped(&mut res, timestamp, line, first, Ghost(done));
        proof {
            assert(lines(s) =~= done.push(line@));
        }
    } else {
        proof {
            assert(lines(s) =~= done);
        }
    }
    res
}

/// Whether `s` holds no line feed.
pub open spec fn no_newline(s: Seq<char>) -> bool {
    forall|i: int| 0 <= i < s.len() ==> #[trigger] s[i] != '\n'
}

proof fn lemma_lines_from_run(a: Seq<char>, rest: Seq<char>, cur: Seq<char>)
    requires
        no_newline(a),
    ensures
        lines_from(a + rest, cur) == lines_from(rest, cur + a),
    decreases a.len(),
{
    if a.len() == 0 {
        assert(a + rest =~= rest);
        assert(cur + a =~= cur);
    } else {
        let s = a + rest;
        assert(s[0] == a[0]);
        assert(s.drop_first() =~= a.drop_first() + rest);
        assert(cur.push(a[0]) + a.drop_first() =~= cur + a);
        lemma_lines_from_run(a.drop_first(), rest, cur.push(a[0]));
    }
}

/// Law: a text splits into lines at line feeds exactly: the empty text has
/// none; a text without a line feed is one line as it is; and a line
/// feed ends the line before it, which loses one carriage return just
/// before the line feed, if there is one, and nothing else.
pub proof fn lemma_lines_split(a: Seq<char>, b: Seq<char>)
    requires
        no_newline(a),
    ensures
        lines(Seq::<char>::empty()) == Seq::<Seq<char>>::empty(),
        a.len() > 0 ==> lines(a) == seq![a],
        (a.len() == 0 || a.last() != '\r') ==> lines(a + seq!['\n'] + b) == seq![a] + lines(b),
        a.len() > 0 && a.last() == '\r' ==> lines(a + seq!['\n'] + b) == seq![a.drop_last()]
            + lines(b),
{
    lemma_lines_from_run(a, Seq::<char>::empty(), Seq::<char>::empty());
    assert(a + Seq::<char>::empty() =~= a);
    assert(Seq::<char>::empty() + a =~= a);
    lemma_lines_from_run(a, seq!['\n'] + b, Seq::<char>::empty());
    assert(a + seq!['\n'] + b =~= a + (seq!['\n'] + b));
    assert((seq!['\n'] + b).drop_first() =~= b);
}

proof fn lemma_join_front(x: Seq<char>, rest: Seq<Seq<char>>)
    requires
        rest.len() > 0,
    ensures
        join_lines(seq![x] + rest) == x + seq!['\n'] + join_lines(rest),
    decreases rest.len(),
{
    let all = seq![x] + rest;
    if rest.len() == 1 {
        assert(all.drop_last() =~= seq![x]);
        assert(join_lines(seq![x]) == x);
        assert(join_lines(rest) == rest[0]);
        assert(all.last() == rest[0]);
        assert(join_lines(all) == join_lines(all.drop_last()) + seq!['\n'] + all.last());
    } else {
        lemma_join_front(x, rest.drop_last());
        assert(all.drop_last() =~= seq![x] + rest.drop_last());
        assert(all.last() == rest.last());
        assert(join_lines(all) == join_lines(all.drop_last()) + seq!['\n'] + all.last());
        assert(join_lines(rest) == join_lines(rest.drop_last()) + seq!['\n'] + rest.last());
        assert(join_lines(all) =~= x + seq!['\n'] + join_lines(rest));
    }
}

/// Law: stamping the lines of a text puts the timestamp and a space in
/// front of every line and changes nothing else: no text gives no output,
/// a single line gives that line stamped, and a line followed by a line
/// feed and more text gives that line stamped, a line feed, and the rest
/// stamped the same way.
pub proof fn lemma_prefix_output_lines(timestamp: Seq<char>, a: Seq<char>, b: Seq<char>)
    requires
        no_newline(a),
        a.len() == 0 || a.last() != '\r',
    ensures
        spec_prefix_output_with_timestamp(timestamp, Seq::<char>::empty()) == Seq::<char>::empty(),
        a.len() > 0 ==> spec_prefix_output_with_timestamp(timestamp, a) == timestamp + seq![' ']
            + a,
        lines(b).len() > 0 ==> spec_prefix_output_with_timestamp(timestamp, a + seq!['\n'] + b)
            == timestamp + seq![' '] + a + seq!['\n'] + spec_prefix_output_with_timestamp(
            timestamp,
            b,
        ),
{
    lemma_lines_split(a, b);
    let f = |l: Seq<char>| stamped_line(timestamp, l);
    assert(stamped_lines(timestamp, Seq::<char>::empty()) =~= Seq::<Seq<char>>::empty());
    if a.len() > 0 {
        assert(stamped_lines(timestamp, a) =~= seq![f(a)]);
    }
    if lines(b).len() > 0 {
        assert(stamped_lines(timestamp, a + seq!['\n'] + b) =~= seq![f(a)] + stamped_lines(
            timestamp,
            b,
        ));
        lemma_join_front(f(a), stamped_lines(timestamp, b));
    }
}

} // verus!
