use vstd::prelude::*;
use vstd::utf8::{encode_utf8, is_char_boundary, length_of_first_scalar};

verus! {

/// The UTF-8 encoding of a text, as a `String` holds it.
pub open spec fn utf8_bytes(s: Seq<char>) -> Seq<u8> {
    encode_utf8(s)
}

/// `String::insert` of std: inserts the character at a byte position. It
/// panics when the position is not a character boundary, which `requires`
/// leaves out; the new string, like every `String`, is no longer than
/// `usize::MAX` bytes.
#[verifier::external_body]
pub(crate) fn string_insert(s: &mut String, idx: usize, ch: char)
    requires
        is_char_boundary(utf8_bytes(old(s)@), idx as int),
    ensures
        utf8_bytes(final(s)@) == utf8_bytes(old(s)@).take(idx as int) + utf8_bytes(seq![ch])
            + utf8_bytes(old(s)@).skip(idx as int),
        utf8_bytes(final(s)@).len() <= usize::MAX,
{
    s.insert(idx, ch)
}

/// `String::remove` of std: removes and returns the character that starts
/// at a byte position. It panics when the position is past the last
/// character or not a character boundary, which `requires` leaves out.
#[verifier::external_body]
pub(crate) fn string_remove(s: &mut String, idx: usize) -> (r: char)
    requires
        is_char_boundary(utf8_bytes(old(s)@), idx as int),
        idx < utf8_bytes(old(s)@).len(),
    ensures
        ({
            let b = utf8_bytes(old(s)@);
            let k = length_of_first_scalar(b.skip(idx as int));
            &&& utf8_bytes(seq![r]) == b.subrange(idx as int, idx + k)
            &&& utf8_bytes(final(s)@) == b.take(idx as int) + b.skip(idx + k)
        }),
{
    s.remove(idx)
}

/// `String::push` of std: appends a character.
#[verifier::external_body]
pub(crate) fn string_push(s: &mut String, ch: char)
    ensures
        final(s)@ == old(s)@.push(ch),
{
    s.push(ch)
}

/// `String::len` of std: the length of the string in bytes.
#[verifier::external_body]
pub(crate) fn byte_len(s: &String) -> (r: usize)
    ensures
        r == utf8_bytes(s@).len(),
{
    s.len()
}

/// The lines of a text, as `str::lines` gives them: the text is cut after
/// each `\n`; a line so cut loses the `\n` and then one `\r` before it;
/// a last line without `\n` is kept as it is, and none follows a final `\n`.
pub open spec fn text_lines(s: Seq<char>) -> Seq<Seq<char>> {
    lines_from(s, seq![], seq![])
}

/// Cutting `s` into lines, after the lines `done` and the start `cur` of
/// the current line.
pub open spec fn lines_from(s: Seq<char>, cur: Seq<char>, done: Seq<Seq<char>>) -> Seq<Seq<char>>
    decreases s.len(),
{
    if s.len() == 0 {
        if cur.len() == 0 { done } else { done.push(cur) }
    } else if s[0] == '\n' {
        lines_from(s.drop_first(), seq![], done.push(without_cr(cur)))
    } else {
        lines_from(s.drop_first(), cur.push(s[0]), done)
    }
}

/// A line with one trailing `\r` removed.
pub open spec fn without_cr(line: Seq<char>) -> Seq<char> {
    if line.len() > 0 && line.last() == '\r' { line.drop_last() } else { line }
}

/// The lines joined with `\n` between them.
pub open spec fn joined(lines: Seq<Seq<char>>) -> Seq<char>
    decreases lines.len(),
{
    if lines.len() == 0 {
        seq![]
    } else if lines.len() == 1 {
        lines[0]
    } else {
        joined(lines.drop_last()) + seq!['\n'] + lines.last()
    }
}

/// The views of a sequence of strings.
pub open spec fn views(lines: Seq<String>) -> Seq<Seq<char>> {
    lines.map_values(|l: String| l@)
}

/// Whether a text holds no carriage return.
pub open spec fn has_no_cr(s: Seq<char>) -> bool {
    forall|i: int| 0 <= i < s.len() ==> s[i] != '\r'
}

/// Whether a text is empty or does not end with a line break.
pub open spec fn no_final_break(s: Seq<char>) -> bool {
    s.len() == 0 || s.last() != '\n'
}

/// The lines already cut stay in front of those still to come.
proof fn lemma_lines_from_done(s: Seq<char>, cur: Seq<char>, done: Seq<Seq<char>>)
    ensures
        lines_from(s, cur, done) == done + lines_from(s, cur, seq![]),
    decreases s.len(),
{
    if s.len() == 0 {
        assert(done + Seq::<Seq<char>>::empty() =~= done);
        assert(done.push(cur) =~= done + seq![cur]);
    } else if s[0] == '\n' {
        let w = without_cr(cur);
        lemma_lines_from_done(s.drop_first(), seq![], done.push(w));
        lemma_lines_from_done(s.drop_first(), seq![], seq![w]);
        assert(Seq::<Seq<char>>::empty().push(w) =~= seq![w]);
        assert(done.push(w) + lines_from(s.drop_first(), seq![], seq![]) =~= done + (seq![w]
            + lines_from(s.drop_first(), seq![], seq![])));
    } else {
        lemma_lines_from_done(s.drop_first(), cur.push(s[0]), done);
    }
}

/// Joining a line in front of other lines puts a line break between.
proof fn lemma_joined_front(x: Seq<char>, l: Seq<Seq<char>>)
    requires
        l.len() > 0,
    ensures
        joined(seq![x] + l) == x + seq!['\n'] + joined(l),
    decreases l.len(),
{
    let xl = seq![x] + l;
    assert(xl.drop_last() =~= seq![x] + l.drop_last());
    assert(xl.last() == l.last());
    assert(xl.len() >= 2);
    assert(joined(xl) == joined(xl.drop_last()) + seq!['\n'] + xl.last());
    if l.len() == 1 {
        assert(seq![x] + l.drop_last() =~= seq![x]);
        assert(joined(seq![x]) == x);
        assert(joined(l) == l[0]);
        assert(l.last() == l[0]);
    } else {
        assert(joined(l) == joined(l.drop_last()) + seq!['\n'] + l.last());
        lemma_joined_front(x, l.drop_last());
        assert(x + seq!['\n'] + joined(l.drop_last()) + seq!['\n'] + l.last() =~= x + seq!['\n']
            + (joined(l.drop_last()) + seq!['\n'] + l.last()));
    }
}

/// Cutting a text into lines and joining them gives the text back, when it
/// holds no carriage return and does not end with a line break.
proof fn lemma_join_lines_from(s: Seq<char>, cur: Seq<char>)
    requires
        has_no_cr(s),
        has_no_cr(cur),
        no_final_break(s),
    ensures
        joined(lines_from(s, cur, seq![])) == cur + s,
    decreases s.len(),
{
    if s.len() == 0 {
        assert(cur + s =~= cur);
        if cur.len() > 0 {
            assert(Seq::<Seq<char>>::empty().push(cur) =~= seq![cur]);
        }
    } else if s[0] == '\n' {
        let rest = s.drop_first();
        assert(s.len() >= 2);
        assert(rest.last() == s.last());
        assert(without_cr(cur) == cur) by {
            if cur.len() > 0 {
                assert(cur.last() == cur[cur.len() - 1]);
            }
        }
        assert(Seq::<Seq<char>>::empty().push(cur) =~= seq![cur]);
        lemma_lines_from_done(rest, seq![], seq![cur]);
        lemma_join_lines_from(rest, seq![]);
        let l = lines_from(rest, seq![], seq![]);
        assert(Seq::<char>::empty() + rest =~= rest);
        if l.len() == 0 {
            assert(joined(l) =~= Seq::<char>::empty());
        }
        lemma_joined_front(cur, l);
        assert(cur + seq!['\n'] + rest =~= cur + s);
    } else {
        let rest = s.drop_first();
        if rest.len() > 0 {
            assert(rest.last() == s.last());
        }
        lemma_join_lines_from(rest, cur.push(s[0]));
        assert(cur.push(s[0]) + rest =~= cur + s);
    }
}

/// Cutting a text into lines and joining them gives the text back, when it
/// holds no carriage return and does not end with a line break.
pub proof fn lemma_lines_round_trip(s: Seq<char>)
    requires
        has_no_cr(s),
        no_final_break(s),
    ensures
        joined(text_lines(s)) == s,
{
    lemma_join_lines_from(s, seq![]);
    assert(Seq::<char>::empty() + s =~= s);
}

/// The lines of a text.
pub fn split_lines(s: &str) -> (r: Vec<String>)
    ensures
        views(r@) == text_lines(s@),
{
    let n = s.unicode_len();
    let mut done: Vec<String> = Vec::new();
    let mut cur = String::new();
    let mut i: usize = 0;
    assert(s@.skip(0) == s@);
    assert(views(done@) == Seq::<Seq<char>>::empty());
    while i < n
        invariant
            n == s@.len(),
            i <= n,
            lines_from(s@, seq![], seq![]) == lines_from(s@.skip(i as int), cur@, views(done@)),
        decreases n - i,
    {
        let c = s.get_char(i);
        assert(s@.skip(i as int).drop_first() == s@.skip(i + 1));
        if c == '\n' {
            let line = drop_trailing_cr(&cur);
            assert(views(done@.push(line)) == views(done@).push(line@));
            done.push(line);
            cur = String::new();
        } else {
            string_push(&mut cur, c);
        }
        i = i + 1;
    }
    assert(s@.skip(n as int).len() == 0);
    if cur.unicode_len() > 0 {
        assert(views(done@.push(cur)) == views(done@).push(cur@));
        done.push(cur);
    }
    done
}

/// A copy of the line without one trailing `\r`.
fn drop_trailing_cr(line: &String) -> (r: String)
    ensures
        r@ == without_cr(line@),
{
    let n = line.as_str().unicode_len();
    if n > 0 && line.as_str().get_char(n - 1) == '\r' {
        let mut r = String::new();
        let mut i: usize = 0;
        while i < n - 1
            invariant
                n == line@.len(),
                n > 0,
                i <= n - 1,
                r@ == line@.take(i as int),
            decreases n - 1 - i,
        {
            let c = line.as_str().get_char(i);
            string_push(&mut r, c);
            assert(line@.take(i + 1) == line@.take(i as int).push(line@[i as int]));
            i = i + 1;
        }
        assert(line@.take((n - 1) as int) == line@.drop_last());
        r
    } else {
        line.clone()
    }
}

/// The lines joined with `\n` between them.
pub fn join_lines(lines: &Vec<String>) -> (r: String)
    ensures
        r@ == joined(views(lines@)),
{
    let mut r = String::new();
    let mut i: usize = 0;
    while i < lines.len()
        invariant
            i <= lines@.len(),
            r@ == joined(views(lines@).take(i as int)),
        decreases lines@.len() - i,
    {
        let ghost before = views(lines@).take(i as int);
        let ghost after = views(lines@).take(i + 1);
        assert(after.drop_last() == before);
        if i > 0 {
            r.append("\n");
            proof { reveal_strlit("\n"); }
        } else {
            assert(before.len() == 0);
        }
        r.append(lines[i].as_str());
        i = i + 1;
    }
    assert(views(lines@).take(lines@.len() as int) == views(lines@));
    r
}

} // verus!
