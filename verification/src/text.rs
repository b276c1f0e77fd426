//! Text as sequences of characters: the line grammar of a terminal's output,
//! sub-string search, splitting on a separator, and decimal numerals.
//!
//! Every function here works on whole characters, never on bytes, so no
//! result can cut a multi-byte character in two.
use vstd::prelude::*;

verus! {

/// `String::push` of the standard library appends one character and changes
/// nothing else.
pub assume_specification[ String::push ](s: &mut String, c: char)
    ensures
        final(s)@ == old(s)@.push(c),
;

/// What the `{:?}` rendering of a string gives: the text between double
/// quotes, with quotes, backslashes and control characters escaped.
pub uninterp spec fn debug_text(s: Seq<char>) -> Seq<char>;

/// Renders `s` as `{:?}` does. The standard library's `Debug` for `str`
/// decides the escapes; the contract only names the result.
#[verifier::external_body]
pub(crate) fn debug_string(s: &str) -> (out: String)
    ensures
        out@ == debug_text(s@),
{
    format!("{:?}", s)
}

/// The characters of `s`, in order.
pub fn chars_of(s: &str) -> (out: Vec<char>)
    ensures
        out@ == s@,
{
    let mut out: Vec<char> = Vec::new();
    for c in it: s.chars()
        invariant
            out@ == it.seq().take(it.index() as int),
    {
        out.push(c);
    }
    out
}

/// The string made of `chars[from..to]`.
pub fn string_of(chars: &Vec<char>, from: usize, to: usize) -> (out: String)
    requires
        from <= to <= chars.len(),
    ensures
        out@ == chars@.subrange(from as int, to as int),
{
    let mut out = String::new();
    let mut i: usize = from;
    while i < to
        invariant
            from <= i <= to <= chars.len(),
            out@ == chars@.subrange(from as int, i as int),
        decreases to - i,
    {
        out.push(chars[i]);
        i += 1;
    }
    out
}

// ---------------------------------------------------------------------------
// Lines
// ---------------------------------------------------------------------------
/// Index of the first line feed in `s`, or `s.len()` if it has none.
pub open spec fn first_newline(s: Seq<char>) -> int
    decreases s.len(),
{
    if s.len() == 0 || s[0] == '\n' {
        0
    } else {
        1 + first_newline(s.drop_first())
    }
}

/// `s` without the carriage return that ended it, if one did.
pub open spec fn chomp_cr(s: Seq<char>) -> Seq<char> {
    if s.len() > 0 && s.last() == '\r' {
        s.drop_last()
    } else {
        s
    }
}

/// The lines of `s`. A line ends at a line feed, or at a carriage return
/// directly followed by one; the ending is not part of the line. Text after
/// the last line feed is a line of its own if it is not empty, so a final
/// line ending is optional. Empty lines are kept and nothing else is removed.
pub open spec fn lines_of(s: Seq<char>) -> Seq<Seq<char>>
    decreases s.len(),
{
    if s.len() == 0 {
        Seq::empty()
    } else {
        let n = first_newline(s);
        if n < 0 || n >= s.len() {
            seq![s]
        } else {
            seq![chomp_cr(s.subrange(0, n))] + lines_of(s.subrange(n + 1, s.len() as int))
        }
    }
}

/// `first_newline` is the least index that holds a line feed.
pub proof fn lemma_first_newline(s: Seq<char>, k: int)
    requires
        0 <= k <= s.len(),
        forall|j: int| 0 <= j < k ==> s[j] != '\n',
        k < s.len() ==> s[k] == '\n',
    ensures
        first_newline(s) == k,
    decreases s.len(),
{
    if s.len() == 0 || s[0] == '\n' {
    } else {
        lemma_first_newline(s.drop_first(), k - 1);
    }
}

/// `first_newline` stays within `s`, and nothing before it is a line feed.
pub proof fn lemma_first_newline_bounds(s: Seq<char>)
    ensures
        0 <= first_newline(s) <= s.len(),
        forall|j: int| 0 <= j < first_newline(s) ==> s[j] != '\n',
        first_newline(s) < s.len() ==> s[first_newline(s)] == '\n',
    decreases s.len(),
{
    if s.len() == 0 || s[0] == '\n' {
    } else {
        let t = s.drop_first();
        lemma_first_newline_bounds(t);
        assert forall|j: int| 0 <= j < first_newline(s) implies s[j] != '\n' by {
            if j > 0 {
                assert(s[j] == t[j - 1]);
            }
        }
    }
}

/// No line holds a line feed: the line feeds of a text are all spent on
/// ending its lines.
pub proof fn law_lines_hold_no_line_feed(s: Seq<char>)
    ensures
        forall|i: int, j: int|
            0 <= i < lines_of(s).len() && 0 <= j < lines_of(s)[i].len() ==> lines_of(s)[i][j]
                != '\n',
    decreases s.len(),
{
    if s.len() > 0 {
        let n = first_newline(s);
        lemma_first_newline_bounds(s);
        if n < s.len() {
            let rest = lines_of(s.subrange(n + 1, s.len() as int));
            law_lines_hold_no_line_feed(s.subrange(n + 1, s.len() as int));
            assert forall|i: int, j: int|
                0 <= i < lines_of(s).len() && 0 <= j < lines_of(s)[i].len() implies lines_of(
                s,
            )[i][j] != '\n' by {
                if i > 0 {
                    assert(lines_of(s)[i] == rest[i - 1]);
                }
            }
        }
    }
}

/// A text without line feeds is one line, unless it is empty.
pub proof fn law_text_without_line_feed_is_one_line(s: Seq<char>)
    requires
        s.len() > 0,
        forall|j: int| 0 <= j < s.len() ==> s[j] != '\n',
    ensures
        lines_of(s) == seq![s],
{
    lemma_first_newline(s, s.len() as int);
}

/// A line feed at the end of a text ends its last line and begins no new
/// one: the text has the same lines with it and without it.
pub proof fn law_final_line_feed_is_optional(s: Seq<char>)
    requires
        s.len() > 0,
        s.last() != '\n',
        s.last() != '\r',
    ensures
        lines_of(s.push('\n')) == lines_of(s),
    decreases s.len(),
{
    let t = s.push('\n');
    let n = first_newline(s);
    lemma_first_newline_bounds(s);
    if n >= s.len() {
        lemma_first_newline(t, s.len() as int);
        assert(t.subrange(0, s.len() as int) == s);
        assert(lines_of(t) == seq![chomp_cr(s)] + lines_of(
            t.subrange(s.len() as int + 1, t.len() as int),
        ));
    } else {
        lemma_first_newline(t, n);
        let rest = s.subrange(n + 1, s.len() as int);
        assert(t.subrange(0, n) == s.subrange(0, n));
        assert(t.subrange(n + 1, t.len() as int) == rest.push('\n'));
        law_final_line_feed_is_optional(rest);
    }
}

/// `lines`, each with a line feed behind it.
pub open spec fn lines_text(lines: Seq<Seq<char>>) -> Seq<char>
    decreases lines.len(),
{
    if lines.len() == 0 {
        Seq::empty()
    } else {
        lines_text(lines.drop_last()) + lines.last() + "\n"@
    }
}

/// Writing a line in front of others writes it, then a line feed, then the
/// others.
pub proof fn lemma_lines_text_begins_with_first(first: Seq<char>, others: Seq<Seq<char>>)
    ensures
        lines_text(seq![first] + others) == first + "\n"@ + lines_text(others),
    decreases others.len(),
{
    let all = seq![first] + others;
    if others.len() == 0 {
        assert(all.drop_last() == Seq::<Seq<char>>::empty());
        assert(all.last() == first);
        assert(lines_text(all.drop_last()) == Seq::<char>::empty());
        assert(lines_text(all) == Seq::<char>::empty() + first + "\n"@);
        assert(Seq::<char>::empty() + first + "\n"@ == first + "\n"@ + Seq::<char>::empty());
    } else {
        assert(all.drop_last() == seq![first] + others.drop_last());
        assert(all.last() == others.last());
        lemma_lines_text_begins_with_first(first, others.drop_last());
        assert(first + "\n"@ + lines_text(others.drop_last()) + others.last() + "\n"@ == first
            + "\n"@ + (lines_text(others.drop_last()) + others.last() + "\n"@));
    }
}

/// Splitting a text into lines loses nothing but the line endings: where
/// every line of a text ends with a line feed, and none with a carriage
/// return before it, writing the lines out again gives the text back.
pub proof fn law_lines_written_out_are_the_text(s: Seq<char>)
    requires
        s.len() > 0 ==> s.last() == '\n',
        forall|j: int| 0 <= j < s.len() ==> s[j] != '\r',
    ensures
        lines_text(lines_of(s)) == s,
    decreases s.len(),
{
    if s.len() > 0 {
        reveal_strlit("\n");
        let n = first_newline(s);
        lemma_first_newline_bounds(s);
        let first = s.subrange(0, n);
        let rest = s.subrange(n + 1, s.len() as int);
        assert(chomp_cr(first) == first);
        if rest.len() > 0 {
            assert(rest.last() == s.last());
        }
        law_lines_written_out_are_the_text(rest);
        lemma_lines_text_begins_with_first(first, lines_of(rest));
        assert(first + "\n"@ + rest == s);
    }
}

/// The lines of `chars`, each as a string of its own.
pub fn split_lines(chars: &Vec<char>) -> (out: Vec<String>)
    ensures
        out.deep_view() == lines_of(chars@),
{
    let n = chars.len();
    let mut out: Vec<String> = Vec::new();
    let mut start: usize = 0;
    let mut i: usize = 0;
    assert(chars@.skip(0) == chars@);
    while i < n
        invariant
            n == chars.len(),
            start <= i <= n,
            forall|j: int| start <= j < i ==> chars@[j] != '\n',
            lines_of(chars@) == out.deep_view() + lines_of(chars@.skip(start as int)),
        decreases n - i,
    {
        if chars[i] == '\n' {
            let end = if i > start && chars[i - 1] == '\r' {
                i - 1
            } else {
                i
            };
            let line = string_of(chars, start, end);
            proof {
                let rest = chars@.skip(start as int);
                let k = i - start;
                lemma_first_newline(rest, k);
                assert(rest.subrange(k + 1, rest.len() as int) == chars@.skip(i + 1));
                assert(line@ == chomp_cr(rest.subrange(0, k)));
            }
            out.push(line);
            start = i + 1;
        }
        i += 1;
    }
    if start < n {
        let line = string_of(chars, start, n);
        proof {
            let rest = chars@.skip(start as int);
            lemma_first_newline(rest, rest.len() as int);
        }
        out.push(line);
    }
    out
}

// ---------------------------------------------------------------------------
// Prefixes, suffixes and sub-strings
// ---------------------------------------------------------------------------
/// `p` stands in `s` at index `i`.
pub open spec fn occurs_at(s: Seq<char>, p: Seq<char>, i: int) -> bool {
    0 <= i && i + p.len() <= s.len() && s.subrange(i, i + p.len()) == p
}

/// `s` begins with `p`.
pub open spec fn starts_with(s: Seq<char>, p: Seq<char>) -> bool {
    occurs_at(s, p, 0)
}

/// `s` ends with `p`.
pub open spec fn ends_with(s: Seq<char>, p: Seq<char>) -> bool {
    occurs_at(s, p, s.len() - p.len())
}

/// `p` stands somewhere in `s`.
pub open spec fn has_substring(s: Seq<char>, p: Seq<char>) -> bool {
    exists|i: int| occurs_at(s, p, i)
}

/// `s` without its first `n` characters, and empty if it has no more than `n`.
pub open spec fn without_first(s: Seq<char>, n: nat) -> Seq<char> {
    if n <= s.len() {
        s.skip(n as int)
    } else {
        Seq::empty()
    }
}

/// `s` without `p` in front of it, if `s` begins with `p`.
pub open spec fn without_prefix(s: Seq<char>, p: Seq<char>) -> Seq<char> {
    if starts_with(s, p) {
        s.skip(p.len() as int)
    } else {
        s
    }
}

/// `s` without `p` behind it, if `s` ends with `p`.
pub open spec fn without_suffix(s: Seq<char>, p: Seq<char>) -> Seq<char> {
    if ends_with(s, p) {
        s.subrange(0, s.len() - p.len())
    } else {
        s
    }
}

/// Whether `p` stands in `s` at index `i`.
pub fn matches_at(s: &Vec<char>, p: &Vec<char>, i: usize) -> (found: bool)
    ensures
        found == occurs_at(s@, p@, i as int),
{
    if p.len() > s.len() || i > s.len() - p.len() {
        return false;
    }
    let mut k: usize = 0;
    while k < p.len()
        invariant
            k <= p.len(),
            i + p.len() <= s.len(),
            forall|j: int| 0 <= j < k ==> s@[i + j] == p@[j],
        decreases p.len() - k,
    {
        if s[i + k] != p[k] {
            return false;
        }
        k += 1;
    }
    assert(s@.subrange(i as int, i + p.len()) =~= p@);
    true
}

/// Index of the first place at or after `from` where `p` stands in `s`.
pub fn find_from(s: &Vec<char>, p: &Vec<char>, from: usize) -> (at: Option<usize>)
    ensures
        match at {
            Some(i) => from <= i && occurs_at(s@, p@, i as int) && forall|j: int|
                from <= j < i ==> !occurs_at(s@, p@, j),
            None => forall|j: int| from <= j ==> !occurs_at(s@, p@, j),
        },
{
    if p.len() > s.len() {
        return None;
    }
    let last = s.len() - p.len();
    let mut i: usize = from;
    while i <= last
        invariant
            from <= i,
            last == s.len() - p.len(),
            forall|j: int| from <= j < i ==> !occurs_at(s@, p@, j),
        decreases last + 1 - i,
    {
        if matches_at(s, p, i) {
            return Some(i);
        }
        if i == last {
            return None;
        }
        i += 1;
    }
    None
}

/// Whether `needle` stands somewhere in `hay`.
pub fn contains(hay: &str, needle: &str) -> (found: bool)
    ensures
        found == has_substring(hay@, needle@),
{
    let s = chars_of(hay);
    let p = chars_of(needle);
    find_from(&s, &p, 0).is_some()
}

/// `s` without its first `n` characters, and empty if it has no more than `n`.
pub fn skip_chars(s: &str, n: usize) -> (out: String)
    ensures
        out@ == without_first(s@, n as nat),
{
    let chars = chars_of(s);
    if n <= chars.len() {
        string_of(&chars, n, chars.len())
    } else {
        String::new()
    }
}

/// `s` without `prefix` in front of it and then without `suffix` behind it,
/// each only where it stands there.
pub fn strip_marks(s: &str, prefix: &str, suffix: &str) -> (out: String)
    ensures
        out@ == without_suffix(without_prefix(s@, prefix@), suffix@),
{
    let chars = chars_of(s);
    let front = chars_of(prefix);
    let back = chars_of(suffix);
    let from = if matches_at(&chars, &front, 0) {
        front.len()
    } else {
        0
    };
    let ghost rest = chars@.skip(from as int);
    assert(rest == without_prefix(s@, prefix@));
    let to = if back.len() <= chars.len() - from && matches_at(
        &chars,
        &back,
        chars.len() - back.len(),
    ) {
        assert(rest.subrange(rest.len() - back.len(), rest.len() as int) == chars@.subrange(
            chars.len() - back.len(),
            chars.len() as int,
        ));
        chars.len() - back.len()
    } else {
        proof {
            if ends_with(rest, suffix@) {
                assert(rest.subrange(rest.len() - back.len(), rest.len() as int)
                    == chars@.subrange(chars.len() - back.len(), chars.len() as int));
            }
        }
        chars.len()
    };
    assert(chars@.subrange(from as int, to as int) == rest.subrange(0, to - from));
    assert(rest.subrange(0, rest.len() as int) == rest);
    string_of(&chars, from, to)
}

/// Each of `lines` without its first `n` characters.
pub fn skip_chars_each(lines: &Vec<String>, n: usize) -> (out: Vec<String>)
    ensures
        out.deep_view() == lines.deep_view().map_values(
            |line: Seq<char>| without_first(line, n as nat),
        ),
{
    let ghost all = lines.deep_view();
    let ghost cut = |line: Seq<char>| without_first(line, n as nat);
    let mut out: Vec<String> = Vec::new();
    let mut i: usize = 0;
    while i < lines.len()
        invariant
            i <= lines.len(),
            all == lines.deep_view(),
            cut == |line: Seq<char>| without_first(line, n as nat),
            out.deep_view() == all.take(i as int).map_values(cut),
        decreases lines.len() - i,
    {
        let ghost before = out.deep_view();
        out.push(skip_chars(lines[i].as_str(), n));
        assert(all.take(i + 1).map_values(cut) == before.push(cut(all[i as int])));
        i += 1;
    }
    out
}

// ---------------------------------------------------------------------------
// Splitting on a separator
// ---------------------------------------------------------------------------
/// Index of the first place where `sep` stands in `s`, or `s.len()` if there
/// is none.
pub open spec fn first_match(s: Seq<char>, sep: Seq<char>) -> int
    decreases s.len(),
{
    if occurs_at(s, sep, 0) || s.len() == 0 {
        0
    } else {
        1 + first_match(s.drop_first(), sep)
    }
}

/// The pieces of `s` between the places where `sep` stands, read from the
/// left and never overlapping. There is always at least one piece; an `s`
/// that ends with `sep` ends with an empty piece. An empty `sep` stands
/// between no two pieces: `s` is then the one piece.
pub open spec fn split_on(s: Seq<char>, sep: Seq<char>) -> Seq<Seq<char>>
    decreases s.len(),
{
    let n = first_match(s, sep);
    if sep.len() == 0 || !occurs_at(s, sep, n) {
        seq![s]
    } else {
        seq![s.subrange(0, n)] + split_on(s.subrange(n + sep.len(), s.len() as int), sep)
    }
}

/// `first_match` is the least index at which `sep` stands.
pub proof fn lemma_first_match(s: Seq<char>, sep: Seq<char>, k: int)
    requires
        0 <= k <= s.len(),
        forall|j: int| 0 <= j < k ==> !occurs_at(s, sep, j),
        occurs_at(s, sep, k) || k == s.len(),
    ensures
        first_match(s, sep) == k,
    decreases s.len(),
{
    if occurs_at(s, sep, 0) || s.len() == 0 {
    } else {
        let t = s.drop_first();
        assert forall|j: int| 0 <= j < k - 1 implies !occurs_at(t, sep, j) by {
            if occurs_at(t, sep, j) {
                assert(s.subrange(j + 1, j + 1 + sep.len()) == t.subrange(j, j + sep.len()));
                assert(occurs_at(s, sep, j + 1));
            }
        }
        if k < s.len() {
            assert(t.subrange(k - 1, k - 1 + sep.len()) == s.subrange(k, k + sep.len()));
        }
        lemma_first_match(t, sep, k - 1);
    }
}

/// The pieces of `s` between the places where `sep` stands: see
/// [`split_on`].
pub fn split_pieces(s: &Vec<char>, sep: &Vec<char>) -> (out: Vec<String>)
    ensures
        out.deep_view() == split_on(s@, sep@),
{
    let n = s.len();
    let mut out: Vec<String> = Vec::new();
    if sep.len() == 0 {
        let whole = string_of(s, 0, n);
        out.push(whole);
        assert(s@.subrange(0, n as int) == s@);
        assert(out.deep_view() == seq![s@]);
        return out;
    }
    let mut start: usize = 0;
    assert(s@.skip(0) == s@);
    loop
        invariant_except_break
            n == s.len(),
            sep.len() > 0,
            start <= n,
            split_on(s@, sep@) == out.deep_view() + split_on(s@.skip(start as int), sep@),
        ensures
            out.deep_view() == split_on(s@, sep@),
        decreases n - start,
    {
        let ghost rest = s@.skip(start as int);
        match find_from(s, sep, start) {
            Some(i) => {
                proof {
                    let k = i - start;
                    assert forall|j: int| 0 <= j < k implies !occurs_at(rest, sep@, j) by {
                        if occurs_at(rest, sep@, j) {
                            assert(s@.subrange(start + j, start + j + sep.len())
                                == rest.subrange(j, j + sep.len()));
                            assert(occurs_at(s@, sep@, start + j));
                        }
                    }
                    assert(rest.subrange(k, k + sep.len()) == s@.subrange(
                        i as int,
                        i + sep.len(),
                    ));
                    lemma_first_match(rest, sep@, k);
                    assert(rest.subrange(0, k) == s@.subrange(start as int, i as int));
                    assert(rest.subrange(k + sep.len(), rest.len() as int) == s@.skip(
                        i + sep.len(),
                    ));
                }
                let piece = string_of(s, start, i);
                out.push(piece);
                start = i + sep.len();
            },
            None => {
                proof {
                    let k = first_match(rest, sep@);
                    lemma_first_match_bounds(rest, sep@);
                    if occurs_at(rest, sep@, k) {
                        assert(s@.subrange(start + k, start + k + sep.len()) == rest.subrange(
                            k,
                            k + sep.len(),
                        ));
                        assert(occurs_at(s@, sep@, start + k));
                    }
                }
                let piece = string_of(s, start, n);
                out.push(piece);
                break ;
            },
        }
    }
    out
}

/// `first_match` stays within `s`.
pub proof fn lemma_first_match_bounds(s: Seq<char>, sep: Seq<char>)
    ensures
        0 <= first_match(s, sep) <= s.len(),
    decreases s.len(),
{
    if occurs_at(s, sep, 0) || s.len() == 0 {
    } else {
        lemma_first_match_bounds(s.drop_first(), sep);
    }
}

// ---------------------------------------------------------------------------
// Decimal numerals
// ---------------------------------------------------------------------------
/// The character that writes the digit `d`.
pub open spec fn digit_char(d: int) -> char {
    if d == 0 {
        '0'
    } else if d == 1 {
        '1'
    } else if d == 2 {
        '2'
    } else if d == 3 {
        '3'
    } else if d == 4 {
        '4'
    } else if d == 5 {
        '5'
    } else if d == 6 {
        '6'
    } else if d == 7 {
        '7'
    } else if d == 8 {
        '8'
    } else {
        '9'
    }
}

/// `n` written in base ten, without sign or leading zeros.
pub open spec fn decimal_of(n: nat) -> Seq<char>
    decreases n,
{
    if n < 10 {
        seq![digit_char(n as int)]
    } else {
        decimal_of(n / 10).push(digit_char((n % 10) as int))
    }
}

fn digit(d: usize) -> (c: char)
    requires
        d < 10,
    ensures
        c == digit_char(d as int),
{
    if d == 0 {
        '0'
    } else if d == 1 {
        '1'
    } else if d == 2 {
        '2'
    } else if d == 3 {
        '3'
    } else if d == 4 {
        '4'
    } else if d == 5 {
        '5'
    } else if d == 6 {
        '6'
    } else if d == 7 {
        '7'
    } else if d == 8 {
        '8'
    } else {
        '9'
    }
}

/// `n` written in base ten.
pub fn decimal(n: usize) -> (out: String)
    ensures
        out@ == decimal_of(n as nat),
{
    // Digits come out lowest first; `low` holds them in that order.
    let mut low: Vec<char> = Vec::new();
    let mut rest: usize = n;
    while rest >= 10
        invariant
            decimal_of(n as nat) == decimal_of(rest as nat) + low@.reverse(),
        decreases rest,
    {
        low.push(digit(rest % 10));
        rest = rest / 10;
    }
    let mut out = String::new();
    out.push(digit(rest));
    let mut i: usize = low.len();
    while i > 0
        invariant
            i <= low.len(),
            out@ == decimal_of(rest as nat) + low@.reverse().subrange(0, low.len() - i),
        decreases i,
    {
        i -= 1;
        out.push(low[i]);
    }
    out
}

// ---------------------------------------------------------------------------
// Lists of strings, as `{:?}` writes them
// ---------------------------------------------------------------------------
/// The items of `items`, each as `{:?}` renders it, with a comma and a space
/// between neighbours.
pub open spec fn debug_items(items: Seq<Seq<char>>) -> Seq<char>
    decreases items.len(),
{
    if items.len() == 0 {
        Seq::empty()
    } else if items.len() == 1 {
        debug_text(items[0])
    } else {
        debug_items(items.drop_last()) + ", "@ + debug_text(items.last())
    }
}

/// A list of strings as `{:?}` renders it: the items between square brackets.
pub open spec fn debug_list(items: Seq<Seq<char>>) -> Seq<char> {
    "["@ + debug_items(items) + "]"@
}

/// Renders `items` as `{:?}` renders a list of strings.
pub fn debug_strings(items: &Vec<String>) -> (out: String)
    ensures
        out@ == debug_list(items.deep_view()),
{
    let ghost all = items.deep_view();
    let mut out = "[".to_owned();
    let mut i: usize = 0;
    while i < items.len()
        invariant
            i <= items.len(),
            all == items.deep_view(),
            out@ == "["@ + debug_items(all.take(i as int)),
        decreases items.len() - i,
    {
        if i > 0 {
            out.append(", ");
        }
        out.append(debug_string(items[i].as_str()).as_str());
        assert(all.take(i + 1).drop_last() == all.take(i as int));
        i += 1;
    }
    assert(all.take(items.len() as int) == all);
    out.append("]");
    out
}

} // verus!
