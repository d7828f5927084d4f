use vstd::prelude::*;

verus! {

/// The plain-text rendering of an HTML fragment at the fixed display width,
/// read as the empty sequence on the inputs the renderer rejects (markup
/// nested too deeply to fit the width). The outcome depends on the markup
/// characters alone, so it is given a name here rather than being restated;
/// `render_html` is the only producer.
pub uninterp spec fn rendered_of(markup: Seq<char>) -> Seq<char>;

#[verifier::external_type_specification]
#[verifier::external_body]
pub struct ExHtmlError(html2text::Error);

/// Relies on `html2text::from_read`: renders an HTML fragment as plain text
/// wrapped to 60 columns, or reports an error when the markup nests too
/// deeply for that width; either outcome is a pure function of the input
/// markup.
#[verifier::external_body]
fn render_html(html: &str) -> (r: Result<String, html2text::Error>)
    ensures
        r matches Ok(s) ==> s@ == rendered_of(html@),
        r is Err ==> rendered_of(html@) =~= Seq::<char>::empty(),
{
    html2text::from_read(html.as_bytes(), 60)
}

/// Renders an HTML fragment as plain text wrapped to the fixed display width;
/// a fragment the renderer rejects renders as the empty text.
pub fn from_html(html: &str) -> (r: String)
    ensures
        r@ == rendered_of(html@),
{
    match render_html(html) {
        Ok(s) => s,
        Err(_) => String::new(),
    }
}

/// Splits a character sequence into lines the way `str::lines` does: a line
/// ends at `'\n'` or at `"\r\n"`, and a final line ending produces no extra
/// empty line.
pub open spec fn spec_lines(s: Seq<char>) -> Seq<Seq<char>>
    decreases s.len(),
{
    if s.len() == 0 {
        seq![]
    } else if s[0] == '\n' {
        seq![Seq::<char>::empty()] + spec_lines(s.skip(1))
    } else if s[0] == '\r' && s.len() >= 2 && s[1] == '\n' {
        seq![Seq::<char>::empty()] + spec_lines(s.skip(2))
    } else {
        prepend_to_first(s[0], spec_lines(s.skip(1)))
    }
}

/// Pushes one character onto the front of the first line, creating the line
/// if there is none yet.
pub open spec fn prepend_to_first(c: char, ls: Seq<Seq<char>>) -> Seq<Seq<char>> {
    if ls.len() == 0 {
        seq![seq![c]]
    } else {
        seq![seq![c] + ls[0]] + ls.skip(1)
    }
}

/// A line with a trailing carriage return removed.
pub open spec fn strip_cr(l: Seq<char>) -> Seq<char> {
    if l.len() > 0 && l.last() == '\r' {
        l.drop_last()
    } else {
        l
    }
}

/// The first `k` elements, or all of them when there are fewer than `k`.
pub open spec fn take_up_to(ls: Seq<Seq<char>>, k: int) -> Seq<Seq<char>> {
    if 0 <= k <= ls.len() {
        ls.take(k)
    } else {
        ls
    }
}

/// Lines joined with a period-space separator.
pub open spec fn join_descr(ls: Seq<Seq<char>>) -> Seq<char>
    decreases ls.len(),
{
    if ls.len() == 0 {
        Seq::<char>::empty()
    } else if ls.len() == 1 {
        ls[0]
    } else {
        ls[0] + ". "@ + join_descr(ls.skip(1))
    }
}

/// The short description derived from a rendered body: its first three lines
/// joined with a period-space separator.
pub open spec fn description_of(body: Seq<char>) -> Seq<char> {
    join_descr(take_up_to(spec_lines(body), 3))
}

/// A non-empty sequence has at least one line.
proof fn lemma_lines_nonempty(s: Seq<char>)
    requires
        s.len() > 0,
    ensures
        spec_lines(s).len() > 0,
{
}

/// Splitting off the first line: if the characters before position `n` hold no
/// newline and `n` is either the end or a newline, the lines are the stripped
/// prefix followed by the lines of what comes after the newline.
proof fn lemma_lines_first(s: Seq<char>, n: int)
    requires
        0 <= n <= s.len(),
        forall|j: int| 0 <= j < n ==> s[j] != '\n',
        n < s.len() ==> s[n] == '\n',
    ensures
        n == s.len() && n > 0 ==> spec_lines(s) =~= seq![s],
        n < s.len() ==> spec_lines(s) =~= seq![strip_cr(s.take(n))] + spec_lines(s.skip(n + 1)),
    decreases n,
{
    if n == 0 {
        if s.len() > 0 {
            assert(s[0] == '\n');
            assert(strip_cr(s.take(0)) =~= Seq::<char>::empty());
        }
    } else {
        // n >= 1, so s[0] != '\n'.
        let t = s.skip(1);
        if s[0] == '\r' && s.len() >= 2 && s[1] == '\n' {
            // Then n == 1 and the first line is empty after stripping.
            assert(n == 1);
            assert(strip_cr(s.take(1)) =~= Seq::<char>::empty());
            assert(s.skip(2) =~= t.skip(1));
        } else {
            lemma_lines_first(t, n - 1);
            if n == s.len() {
                if t.len() == 0 {
                    assert(spec_lines(t) =~= Seq::<Seq<char>>::empty());
                    assert(spec_lines(s) == prepend_to_first(s[0], spec_lines(t)));
                    assert(seq![s[0]] =~= s);
                } else {
                    assert(spec_lines(t) =~= seq![t]);
                    assert(seq![s[0]] + t =~= s);
                }
            } else {
                let rest = spec_lines(t.skip(n));
                assert(spec_lines(t) =~= seq![strip_cr(t.take(n - 1))] + rest);
                assert(t.skip(n) =~= s.skip(n + 1));
                // Prepending the head character to the stripped first line of the
                // tail gives the stripped first line of the whole.
                let tl = t.take(n - 1);
                assert(seq![s[0]] + tl =~= s.take(n));
                if tl.len() > 0 && tl.last() == '\r' {
                    assert(s.take(n).last() == '\r');
                    assert(seq![s[0]] + strip_cr(tl) =~= strip_cr(s.take(n)));
                } else {
                    if s.take(n).len() > 0 && s.take(n).last() == '\r' {
                        // The first line cannot end in a bare '\r' here: that
                        // would be the head character itself standing right
                        // before the newline, which the branch above handled.
                        assert(tl.len() == 0);
                        assert(n == 1);
                        assert(s[0] == '\r' && s[1] == '\n');
                        assert(false);
                    }
                    assert(seq![s[0]] + strip_cr(tl) =~= strip_cr(s.take(n)));
                }
                assert(spec_lines(s) =~= prepend_to_first(s[0], spec_lines(t)));
                assert(prepend_to_first(s[0], spec_lines(t)) =~= seq![strip_cr(s.take(n))]
                    + rest);
            }
        }
    }
}

/// Index of the first newline in `s`, or its length when it has none.
fn find_newline(s: &str) -> (n: usize)
    ensures
        n <= s@.len(),
        forall|j: int| 0 <= j < n ==> s@[j] != '\n',
        n < s@.len() ==> s@[n as int] == '\n',
{
    let len = s.unicode_len();
    let mut n: usize = 0;
    while n < len && s.get_char(n) != '\n'
        invariant
            n <= len,
            len == s@.len(),
            forall|j: int| 0 <= j < n ==> s@[j] != '\n',
        decreases len - n,
    {
        n = n + 1;
    }
    n
}

/// Joins the first `k` lines of `s` with a period-space separator.
pub fn take_lines_joined(s: &str, k: usize) -> (r: String)
    ensures
        r@ == join_descr(take_up_to(spec_lines(s@), k as int)),
    decreases s@.len(),
{
    let len = s.unicode_len();
    if k == 0 || len == 0 {
        return String::new();
    }
    let n = find_newline(s);
    proof {
        lemma_lines_first(s@, n as int);
    }
    if n == len {
        // A single line without a terminator.
        s.to_owned()
    } else {
        let line_end = if n > 0 && s.get_char(n - 1) == '\r' {
            n - 1
        } else {
            n
        };
        let line = s.substring_char(0, line_end);
        proof {
            if n > 0 && s@[n - 1] == '\r' {
                assert(line@ =~= strip_cr(s@.take(n as int)));
            } else {
                assert(line@ =~= strip_cr(s@.take(n as int)));
            }
        }
        let rest = s.substring_char(n + 1, len);
        let ghost all = spec_lines(s@);
        let ghost rest_lines = spec_lines(rest@);
        assert(all =~= seq![line@] + rest_lines);
        let mut r = line.to_owned();
        if k >= 2 && rest.unicode_len() > 0 {
            proof {
                lemma_lines_nonempty(rest@);
            }
            let tail = take_lines_joined(rest, k - 1);
            r.append(". ");
            r.append(tail.as_str());
            proof {
                let taken = take_up_to(all, k as int);
                assert(taken =~= seq![line@] + take_up_to(rest_lines, k as int - 1));
                assert(taken.len() >= 2);
                assert(taken.skip(1) =~= take_up_to(rest_lines, k as int - 1));
                assert(r@ =~= join_descr(taken));
            }
        } else {
            proof {
                let taken = take_up_to(all, k as int);
                if rest@.len() == 0 {
                    assert(rest_lines =~= Seq::<Seq<char>>::empty());
                    assert(all =~= seq![line@]);
                    assert(taken =~= seq![line@]);
                } else {
                    // k == 1
                    assert(taken =~= seq![line@]);
                }
                assert(r@ =~= join_descr(taken));
            }
        }
        r
    }
}

} // verus!
