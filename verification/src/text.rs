//! Text helpers: decimal numerals, white space, lines and Unix paths, each
//! stated over the characters of a string.

use vstd::prelude::*;
use vstd::string::*;

verus! {

/// `String::push` of the standard library: appends one character.
pub assume_specification[ std::string::String::push ](s: &mut std::string::String, c: char)
    ensures
        final(s)@ == old(s)@.push(c),
;

/// Whether two texts have the same characters.
pub fn same(a: &str, b: &str) -> (r: bool)
    ensures
        r == (a@ == b@),
{
    a.to_owned() == b.to_owned()
}

/// The text that `Debug` writes for a text: quoted, with what cannot be printed
/// escaped.
pub uninterp spec fn debug_text(s: Seq<char>) -> Seq<char>;

/// `Debug` of a string slice, by the slice alone.
#[verifier::external_body]
pub(crate) fn quoted(s: &str) -> (r: String)
    ensures
        r@ == debug_text(s@),
{
    format!("{:?}", s)
}

/// The numeral for a digit below ten.
pub open spec fn digit_char(d: int) -> char
    recommends
        0 <= d < 10,
{
    (48 + d) as char
}

/// The decimal numeral of a natural number, without leading zeros.
pub open spec fn decimal(n: nat) -> Seq<char>
    decreases n,
{
    if n < 10 {
        seq![digit_char(n as int)]
    } else {
        decimal(n / 10).push(digit_char((n % 10) as int))
    }
}

/// The decimal numeral of an integer: a minus sign before the magnitude of a
/// negative one.
pub open spec fn signed_decimal(i: int) -> Seq<char> {
    if i < 0 {
        seq!['-'] + decimal((-i) as nat)
    } else {
        decimal(i as nat)
    }
}

/// Appends the decimal numeral of `n`.
pub fn push_u64(s: &mut String, n: u64)
    ensures
        final(s)@ == old(s)@ + decimal(n as nat),
    decreases n,
{
    if n >= 10 {
        push_u64(s, n / 10);
    }
    let d: u8 = (n % 10) as u8;
    let c: char = (48 + d) as char;
    s.push(c);
}

/// Appends the decimal numeral of `i`.
pub fn push_i64(s: &mut String, i: i64)
    ensures
        final(s)@ == old(s)@ + signed_decimal(i as int),
{
    if i < 0 {
        s.push('-');
        let magnitude: u64 = (-(i as i128)) as u64;
        push_u64(s, magnitude);
    } else {
        push_u64(s, i as u64);
    }
}

/// A Unix path below a directory: an absolute name stands alone, any other is
/// put behind the directory and one slash.
pub open spec fn joined_path(dir: Seq<char>, name: Seq<char>) -> Seq<char> {
    if name.len() > 0 && name[0] == '/' {
        name
    } else if dir.len() == 0 || dir.last() == '/' {
        dir + name
    } else {
        dir.push('/') + name
    }
}

/// Puts a name below a directory.
pub fn join_path(dir: &str, name: &str) -> (r: String)
    ensures
        r@ == joined_path(dir@, name@),
{
    let n: usize = name.unicode_len();
    if n > 0 && name.get_char(0) == '/' {
        return name.to_owned();
    }
    let d: usize = dir.unicode_len();
    let mut out: String = dir.to_owned();
    if d > 0 && dir.get_char(d - 1) != '/' {
        out.push('/');
    }
    out.append(name);
    out
}

/// The characters of a text.
pub fn chars_of(s: &str) -> (r: Vec<char>)
    ensures
        r@ == s@,
{
    let mut out: Vec<char> = Vec::new();
    for c in it: s.chars()
        invariant
            it.seq() == s@,
            out@ == s@.take(it.index()),
    {
        out.push(c);
        assert(out@ =~= s@.take(it.index() + 1));
    }
    assert(out@ =~= s@);
    out
}

/// A stretch of characters as a text.
pub fn text_of(chars: &Vec<char>, from: usize, to: usize) -> (r: String)
    requires
        from <= to <= chars@.len(),
    ensures
        r@ == chars@.subrange(from as int, to as int),
{
    let mut out: String = String::new();
    for i in from..to
        invariant
            from <= to <= chars@.len(),
            out@ == chars@.subrange(from as int, i as int),
    {
        out.push(chars[i]);
        assert(out@ =~= chars@.subrange(from as int, i + 1));
    }
    assert(out@ =~= chars@.subrange(from as int, to as int));
    out
}

/// Whether a character is white space: the characters with Unicode's property
/// `White_Space`.
pub open spec fn is_white(c: char) -> bool {
    ||| 0x09 <= c as int <= 0x0d
    ||| c as int == 0x20
    ||| c as int == 0x85
    ||| c as int == 0xa0
    ||| c as int == 0x1680
    ||| 0x2000 <= c as int <= 0x200a
    ||| c as int == 0x2028
    ||| c as int == 0x2029
    ||| c as int == 0x202f
    ||| c as int == 0x205f
    ||| c as int == 0x3000
}

/// Whether a character is white space.
pub fn white(c: char) -> (r: bool)
    ensures
        r == is_white(c),
{
    let n: u32 = c as u32;
    (0x09 <= n && n <= 0x0d) || n == 0x20 || n == 0x85 || n == 0xa0 || n == 0x1680 || (0x2000 <= n
        && n <= 0x200a) || n == 0x2028 || n == 0x2029 || n == 0x202f || n == 0x205f || n == 0x3000
}

/// A text without the white space before it.
pub open spec fn trimmed_start(s: Seq<char>) -> Seq<char>
    decreases s.len(),
{
    if s.len() > 0 && is_white(s[0]) {
        trimmed_start(s.skip(1))
    } else {
        s
    }
}

/// A text without the white space behind it.
pub open spec fn trimmed_end(s: Seq<char>) -> Seq<char>
    decreases s.len(),
{
    if s.len() > 0 && is_white(s.last()) {
        trimmed_end(s.drop_last())
    } else {
        s
    }
}

/// A text without the white space around it.
pub open spec fn trimmed(s: Seq<char>) -> Seq<char> {
    trimmed_end(trimmed_start(s))
}

/// Where the first character from `from` on is that is no white space.
fn skip_white(chars: &Vec<char>, from: usize) -> (r: usize)
    requires
        from <= chars@.len(),
    ensures
        from <= r <= chars@.len(),
        trimmed_start(chars@.skip(from as int)) == chars@.skip(r as int),
        r < chars@.len() ==> !is_white(chars@[r as int]),
{
    let mut i: usize = from;
    while i < chars.len() && white(chars[i])
        invariant
            from <= i <= chars@.len(),
            trimmed_start(chars@.skip(from as int)) == trimmed_start(chars@.skip(i as int)),
        decreases chars@.len() - i,
    {
        assert(chars@.skip(i as int).skip(1) =~= chars@.skip(i + 1));
        i = i + 1;
    }
    i
}

/// Takes the white space off both ends.
pub fn trim(s: &str) -> (r: String)
    ensures
        r@ == trimmed(s@),
{
    let chars = chars_of(s);
    assert(chars@.skip(0) =~= chars@);
    let from: usize = skip_white(&chars, 0);
    let mut to: usize = chars.len();
    assert(chars@.subrange(from as int, to as int) =~= chars@.skip(from as int));
    while from < to && white(chars[to - 1])
        invariant
            from <= to <= chars@.len(),
            trimmed_end(chars@.skip(from as int)) == trimmed_end(
                chars@.subrange(from as int, to as int),
            ),
        decreases to - from,
    {
        assert(chars@.subrange(from as int, to as int).drop_last() =~= chars@.subrange(
            from as int,
            to - 1,
        ));
        to = to - 1;
    }
    text_of(&chars, from, to)
}

/// Whether a text ends in another.
pub open spec fn has_suffix(s: Seq<char>, suffix: Seq<char>) -> bool {
    s.len() >= suffix.len() && s.skip(s.len() - suffix.len()) == suffix
}

/// Whether a text begins with another.
pub open spec fn has_prefix(s: Seq<char>, prefix: Seq<char>) -> bool {
    s.len() >= prefix.len() && s.take(prefix.len() as int) == prefix
}

/// Whether a text ends in another.
pub fn ends_with(s: &str, suffix: &str) -> (r: bool)
    ensures
        r == has_suffix(s@, suffix@),
{
    let a = chars_of(s);
    let b = chars_of(suffix);
    if a.len() < b.len() {
        return false;
    }
    let total: usize = a.len();
    let off: usize = total - b.len();
    for i in 0..b.len()
        invariant
            off + b@.len() == a@.len(),
            a@.len() == total,
            a@ == s@,
            b@ == suffix@,
            forall|k: int| 0 <= k < i ==> a@[off + k] == b@[k],
    {
        if a[off + i] != b[i] {
            assert(s@.skip(s@.len() - suffix@.len())[i as int] != suffix@[i as int]);
            return false;
        }
    }
    assert(s@.skip(s@.len() - suffix@.len()) =~= suffix@);
    true
}

/// Whether a text begins with another.
pub fn starts_with(s: &str, prefix: &str) -> (r: bool)
    ensures
        r == has_prefix(s@, prefix@),
{
    let a = chars_of(s);
    let b = chars_of(prefix);
    if a.len() < b.len() {
        return false;
    }
    for i in 0..b.len()
        invariant
            b@.len() <= a@.len(),
            a@ == s@,
            b@ == prefix@,
            forall|k: int| 0 <= k < i ==> a@[k] == b@[k],
    {
        if a[i] != b[i] {
            assert(s@.take(prefix@.len() as int)[i as int] != prefix@[i as int]);
            return false;
        }
    }
    assert(s@.take(prefix@.len() as int) =~= prefix@);
    true
}

/// How many characters at the front of a text are no white space.
pub open spec fn word_len(s: Seq<char>) -> nat
    decreases s.len(),
{
    if s.len() == 0 || is_white(s[0]) {
        0
    } else {
        1 + word_len(s.skip(1))
    }
}

/// A word is part of its text, and not empty where the text begins with one.
pub proof fn lemma_word_len(s: Seq<char>)
    ensures
        word_len(s) <= s.len(),
        s.len() > 0 && !is_white(s[0]) ==> word_len(s) > 0,
    decreases s.len(),
{
    if s.len() > 0 && !is_white(s[0]) {
        lemma_word_len(s.skip(1));
    }
}

/// Taking off white space adds nothing and leaves none in front.
pub proof fn lemma_trimmed_start(s: Seq<char>)
    ensures
        trimmed_start(s).len() <= s.len(),
        trimmed_start(s).len() > 0 ==> !is_white(trimmed_start(s)[0]),
    decreases s.len(),
{
    if s.len() > 0 && is_white(s[0]) {
        lemma_trimmed_start(s.skip(1));
    }
}

/// The words of a text: what stands between white space.
pub open spec fn words(s: Seq<char>) -> Seq<Seq<char>>
    decreases s.len(),
{
    let t = trimmed_start(s);
    if t.len() == 0 {
        Seq::empty()
    } else {
        proof {
            lemma_trimmed_start(s);
            lemma_word_len(t);
        }
        seq![t.take(word_len(t) as int)] + words(t.skip(word_len(t) as int))
    }
}

/// What a list of texts says.
pub open spec fn texts(s: Seq<String>) -> Seq<Seq<char>> {
    Seq::new(s.len(), |i: int| s[i]@)
}

/// The words of a text.
pub fn split_words(s: &str) -> (r: Vec<String>)
    ensures
        texts(r@) == words(s@),
{
    let chars = chars_of(s);
    let mut out: Vec<String> = Vec::new();
    assert(chars@.skip(0) =~= chars@);
    assert(texts(out@) + words(chars@) =~= words(s@));
    let mut at: usize = 0;
    loop
        invariant
            chars@ == s@,
            at <= chars@.len(),
            texts(out@) + words(chars@.skip(at as int)) == words(s@),
        ensures
            texts(out@) == words(s@),
        decreases chars@.len() - at,
    {
        let from: usize = skip_white(&chars, at);
        if from >= chars.len() {
            assert(chars@.skip(from as int).len() == 0);
            assert(texts(out@) + words(chars@.skip(at as int)) =~= texts(out@));
            break;
        }
        let ghost t = chars@.skip(from as int);
        let mut to: usize = from;
        while to < chars.len() && !white(chars[to])
            invariant
                from <= to <= chars@.len(),
                t == chars@.skip(from as int),
                word_len(t) == (to - from) + word_len(chars@.skip(to as int)),
            decreases chars@.len() - to,
        {
            assert(chars@.skip(to as int).skip(1) =~= chars@.skip(to + 1));
            to = to + 1;
        }
        proof {
            assert(word_len(chars@.skip(to as int)) == 0);
            lemma_word_len(t);
            assert(t.take(to - from) =~= chars@.subrange(from as int, to as int));
            assert(t.skip(to - from) =~= chars@.skip(to as int));
        }
        let ghost before = out@;
        out.push(text_of(&chars, from, to));
        proof {
            assert(texts(out@) =~= texts(before).push(chars@.subrange(from as int, to as int)));
            assert(texts(out@) + words(chars@.skip(to as int)) =~= texts(before) + words(
                chars@.skip(at as int),
            ));
        }
        at = to;
    }
    out
}

/// Where the first line feed of a text is; its length where there is none.
pub open spec fn line_len(s: Seq<char>) -> nat
    decreases s.len(),
{
    if s.len() == 0 || s[0] == '\n' {
        0
    } else {
        1 + line_len(s.skip(1))
    }
}

/// A line is part of its text and ends at a line feed or with the text.
pub proof fn lemma_line_len(s: Seq<char>)
    ensures
        line_len(s) <= s.len(),
        line_len(s) < s.len() ==> s[line_len(s) as int] == '\n',
    decreases s.len(),
{
    if s.len() > 0 && s[0] != '\n' {
        lemma_line_len(s.skip(1));
    }
}

/// A line without the carriage return before its line feed.
pub open spec fn without_return(s: Seq<char>) -> Seq<char> {
    if s.len() > 0 && s.last() == '\r' {
        s.drop_last()
    } else {
        s
    }
}

/// The lines of a text. Each ends at a line feed, with or without a carriage
/// return before it; a last line needs none.
pub open spec fn lines(s: Seq<char>) -> Seq<Seq<char>>
    decreases s.len(),
{
    if s.len() == 0 {
        Seq::empty()
    } else {
        let n = line_len(s);
        if n >= s.len() {
            seq![s]
        } else {
            proof {
                lemma_line_len(s);
            }
            seq![without_return(s.take(n as int))] + lines(s.skip(n as int + 1))
        }
    }
}

/// The lines of a text.
pub fn split_lines(s: &str) -> (r: Vec<String>)
    ensures
        texts(r@) == lines(s@),
{
    let chars = chars_of(s);
    let mut out: Vec<String> = Vec::new();
    assert(chars@.skip(0) =~= chars@);
    assert(texts(out@) + lines(chars@) =~= lines(s@));
    let mut at: usize = 0;
    while at < chars.len()
        invariant
            chars@ == s@,
            at <= chars@.len(),
            texts(out@) + lines(chars@.skip(at as int)) == lines(s@),
        decreases chars@.len() - at,
    {
        let ghost t = chars@.skip(at as int);
        let mut to: usize = at;
        while to < chars.len() && chars[to] != '\n'
            invariant
                at <= to <= chars@.len(),
                t == chars@.skip(at as int),
                line_len(t) == (to - at) + line_len(chars@.skip(to as int)),
            decreases chars@.len() - to,
        {
            assert(chars@.skip(to as int).skip(1) =~= chars@.skip(to + 1));
            to = to + 1;
        }
        let ghost before = out@;
        if to == chars.len() {
            out.push(text_of(&chars, at, to));
            proof {
                assert(t =~= chars@.subrange(at as int, to as int));
                assert(lines(t) =~= seq![t]);
                assert(lines(chars@.skip(to as int)) =~= Seq::empty());
                assert(texts(out@) + lines(chars@.skip(to as int)) =~= texts(before) + lines(t));
            }
            at = to;
        } else {
            let end: usize = if to > at && chars[to - 1] == '\r' {
                to - 1
            } else {
                to
            };
            out.push(text_of(&chars, at, end));
            proof {
                lemma_line_len(t);
                assert(t.take(to - at) =~= chars@.subrange(at as int, to as int));
                assert(without_return(t.take(to - at)) =~= chars@.subrange(at as int, end as int));
                assert(t.skip(to - at + 1) =~= chars@.skip(to + 1));
                assert(texts(out@) =~= texts(before).push(
                    chars@.subrange(at as int, end as int),
                ));
                assert(texts(out@) + lines(chars@.skip(to + 1)) =~= texts(before) + lines(t));
            }
            at = to + 1;
        }
    }
    proof {
        assert(chars@.skip(at as int).len() == 0);
        assert(texts(out@) + lines(chars@.skip(at as int)) =~= texts(out@));
    }
    out
}

/// Where the first slash of a text is; its length where there is none.
pub open spec fn segment_len(s: Seq<char>) -> nat
    decreases s.len(),
{
    if s.len() == 0 || s[0] == '/' {
        0
    } else {
        1 + segment_len(s.skip(1))
    }
}

/// A segment is part of its text.
pub proof fn lemma_segment_len(s: Seq<char>)
    ensures
        segment_len(s) <= s.len(),
    decreases s.len(),
{
    if s.len() > 0 && s[0] != '/' {
        lemma_segment_len(s.skip(1));
    }
}

/// What a segment adds to a path: an empty one nothing, and a dot nothing unless
/// it is where the path begins.
pub open spec fn part(segment: Seq<char>, first: bool) -> Seq<Seq<char>> {
    if segment.len() == 0 || (segment == seq!['.'] && !first) {
        Seq::empty()
    } else {
        seq![segment]
    }
}

/// The parts of a Unix path, or of its rest behind a slash where this is not
/// where it begins.
pub open spec fn path_parts(s: Seq<char>, first: bool) -> Seq<Seq<char>>
    decreases s.len(),
{
    if s.len() == 0 {
        Seq::empty()
    } else {
        let n = segment_len(s);
        if n >= s.len() {
            part(s, first)
        } else {
            part(s.take(n as int), first) + path_parts(s.skip(n as int + 1), false)
        }
    }
}

/// Whether a path begins at the root.
pub open spec fn is_rooted(s: Seq<char>) -> bool {
    s.len() > 0 && s[0] == '/'
}

/// Whether two Unix paths have the same parts, from the same beginning.
pub open spec fn paths_agree(a: Seq<char>, b: Seq<char>) -> bool {
    is_rooted(a) == is_rooted(b) && path_parts(a, true) == path_parts(b, true)
}

/// The parts of a Unix path.
fn split_path(s: &str) -> (r: Vec<String>)
    ensures
        texts(r@) == path_parts(s@, true),
{
    let chars = chars_of(s);
    let mut out: Vec<String> = Vec::new();
    assert(chars@.skip(0) =~= chars@);
    assert(texts(out@) + path_parts(chars@, true) =~= path_parts(s@, true));
    let mut at: usize = 0;
    let mut first: bool = true;
    while at < chars.len()
        invariant
            chars@ == s@,
            at <= chars@.len(),
            texts(out@) + path_parts(chars@.skip(at as int), first) == path_parts(s@, true),
        decreases chars@.len() - at,
    {
        let ghost t = chars@.skip(at as int);
        let mut to: usize = at;
        while to < chars.len() && chars[to] != '/'
            invariant
                at <= to <= chars@.len(),
                t == chars@.skip(at as int),
                segment_len(t) == (to - at) + segment_len(chars@.skip(to as int)),
            decreases chars@.len() - to,
        {
            assert(chars@.skip(to as int).skip(1) =~= chars@.skip(to + 1));
            to = to + 1;
        }
        let ghost before = out@;
        let ghost segment = chars@.subrange(at as int, to as int);
        let dot = to - at == 1 && chars[at] == '.';
        proof {
            assert(segment_len(chars@.skip(to as int)) == 0);
            assert(t.take(to - at) =~= segment);
            assert((segment == seq!['.']) == dot) by {
                if dot {
                    assert(segment =~= seq!['.']);
                }
            }
        }
        if to > at && (!dot || first) {
            out.push(text_of(&chars, at, to));
        }
        proof {
            assert(texts(out@) =~= texts(before) + part(segment, first));
            if to == chars@.len() {
                assert(t =~= segment);
            }
        }
        if to == chars.len() {
            proof {
                assert(path_parts(chars@.skip(to as int), false) =~= Seq::empty());
                assert(texts(out@) + path_parts(chars@.skip(to as int), false) =~= texts(before)
                    + path_parts(t, first));
            }
            at = to;
        } else {
            proof {
                assert(t.skip(to - at + 1) =~= chars@.skip(to + 1));
                assert(texts(out@) + path_parts(chars@.skip(to + 1), false) =~= texts(before)
                    + path_parts(t, first));
            }
            at = to + 1;
        }
        first = false;
    }
    proof {
        assert(chars@.skip(at as int).len() == 0);
        assert(texts(out@) + path_parts(chars@.skip(at as int), first) =~= texts(out@));
    }
    out
}

/// Whether a path begins at the root.
fn rooted(s: &str) -> (r: bool)
    ensures
        r == is_rooted(s@),
{
    let chars = chars_of(s);
    chars.len() > 0 && chars[0] == '/'
}

/// Whether two Unix paths are the same: repeated slashes, slashes at the end and
/// dots that are not at the beginning make no difference.
pub fn same_path(a: &str, b: &str) -> (r: bool)
    ensures
        r == paths_agree(a@, b@),
{
    let first = split_path(a);
    let second = split_path(b);
    if rooted(a) != rooted(b) || first.len() != second.len() {
        proof {
            assert(texts(first@).len() == first@.len());
            assert(texts(second@).len() == second@.len());
        }
        return false;
    }
    for i in 0..first.len()
        invariant
            first@.len() == second@.len(),
            texts(first@) == path_parts(a@, true),
            texts(second@) == path_parts(b@, true),
            forall|k: int| 0 <= k < i ==> texts(first@)[k] == texts(second@)[k],
    {
        if !same(first[i].as_str(), second[i].as_str()) {
            assert(texts(first@)[i as int] != texts(second@)[i as int]);
            return false;
        }
    }
    assert(texts(first@) =~= texts(second@));
    true
}

/// A path is the same with a slash at its end.
pub proof fn law_trailing_slash_makes_no_difference(s: Seq<char>)
    requires
        s.len() > 0,
    ensures
        paths_agree(s, s.push('/')),
{
    lemma_trailing_slash(s, true);
}

/// The parts of a path are the same with a slash at its end.
proof fn lemma_trailing_slash(s: Seq<char>, first: bool)
    ensures
        path_parts(s.push('/'), first) == path_parts(s, first),
    decreases s.len(),
{
    let t = s.push('/');
    lemma_segment_len(s);
    lemma_segment_push(s);
    let n = segment_len(s) as int;
    if s.len() == 0 {
        assert(t.take(0).len() == 0);
        assert(t.skip(1).len() == 0);
        assert(path_parts(t.skip(1), false) =~= Seq::empty());
    } else if n >= s.len() {
        assert(t.take(n) =~= s);
        assert(t.skip(n + 1).len() == 0);
        assert(path_parts(t.skip(n + 1), false) =~= Seq::empty());
        assert(path_parts(t, first) =~= part(s, first));
    } else {
        assert(t.take(n) =~= s.take(n));
        assert(t.skip(n + 1) =~= s.skip(n + 1).push('/'));
        lemma_trailing_slash(s.skip(n + 1), false);
    }
}

/// A slash at the end leaves the first segment as it is.
proof fn lemma_segment_push(s: Seq<char>)
    ensures
        segment_len(s.push('/')) == segment_len(s),
    decreases s.len(),
{
    if s.len() > 0 && s[0] != '/' {
        assert(s.push('/').skip(1) =~= s.skip(1).push('/'));
        lemma_segment_push(s.skip(1));
    }
}

/// The number that a string of digits of a base spells.
pub open spec fn digits_value(s: Seq<char>, base: nat) -> Option<nat>
    decreases s.len(),
{
    if s.len() == 0 {
        Some(0)
    } else {
        match (digits_value(s.drop_last(), base), digit_value(s.last(), base)) {
            (Some(front), Some(d)) => Some(front * base + d),
            _ => None,
        }
    }
}

/// What a digit of a base, of either case, stands for.
pub open spec fn digit_value(c: char, base: nat) -> Option<nat> {
    let d = if '0' <= c <= '9' {
        c as int - 48
    } else if 'a' <= c <= 'z' {
        c as int - 87
    } else if 'A' <= c <= 'Z' {
        c as int - 55
    } else {
        99
    };
    if d < base {
        Some(d as nat)
    } else {
        None
    }
}

/// The unsigned number that a text spells: digits, with or without a plus sign
/// before them.
pub open spec fn unsigned_number(s: Seq<char>, base: nat) -> Option<nat> {
    let digits = if s.len() > 0 && s[0] == '+' {
        s.skip(1)
    } else {
        s
    };
    if digits.len() == 0 {
        None
    } else {
        digits_value(digits, base)
    }
}

proof fn lemma_digits_grow(s: Seq<char>, base: nat, n: int)
    requires
        0 <= n <= s.len(),
        base > 0,
    ensures
        match digits_value(s, base) {
            Some(v) => digits_value(s.take(n), base) is Some && digits_value(s.take(n), base)->0
                <= v,
            None => true,
        },
    decreases s.len() - n,
{
    if n < s.len() {
        lemma_digits_grow(s, base, n + 1);
        assert(s.take(n + 1).drop_last() =~= s.take(n));
        if let Some(front) = digits_value(s.take(n), base) {
            assert(front * base >= front) by (nonlinear_arith)
                requires
                    base > 0,
            ;
        }
    } else {
        assert(s.take(n) =~= s);
    }
}

/// Reads an unsigned number of the given base, up to 64 bits.
pub fn parse_unsigned(s: &str, base: u64) -> (r: Option<u64>)
    requires
        2 <= base <= 36,
    ensures
        match r {
            Some(n) => unsigned_number(s@, base as nat) == Some(n as nat),
            None => match unsigned_number(s@, base as nat) {
                Some(n) => n > u64::MAX,
                None => true,
            },
        },
{
    let chars = chars_of(s);
    let mut at: usize = 0;
    if chars.len() > 0 && chars[0] == '+' {
        at = 1;
    }
    let ghost digits = chars@.skip(at as int);
    assert(chars@.skip(0) =~= chars@);
    if at >= chars.len() {
        return None;
    }
    let first: usize = at;
    let mut value: u64 = 0;
    while at < chars.len()
        invariant
            first <= at <= chars@.len(),
            2 <= base <= 36,
            digits == chars@.skip(first as int),
            digits.len() > 0,
            unsigned_number(s@, base as nat) == digits_value(digits, base as nat),
            digits_value(digits.take(at - first), base as nat) == Some(value as nat),
        decreases chars@.len() - at,
    {
        let c: char = chars[at];
        let ghost n = at - first;
        proof {
            assert(digits.take(n + 1).drop_last() =~= digits.take(n));
            assert(digits.take(n + 1).last() == c);
            lemma_digits_grow(digits, base as nat, n + 1);
        }
        let d: u64 = if '0' <= c && c <= '9' {
            (c as u32 - 48) as u64
        } else if 'a' <= c && c <= 'z' {
            (c as u32 - 87) as u64
        } else if 'A' <= c && c <= 'Z' {
            (c as u32 - 55) as u64
        } else {
            99
        };
        if d >= base {
            return None;
        }
        assert(value as u128 * base as u128 <= 0xffff_ffff_ffff_ffff * 36) by (nonlinear_arith)
            requires
                value <= 0xffff_ffff_ffff_ffff,
                base <= 36,
        ;
        let wide: u128 = value as u128 * base as u128 + d as u128;
        if wide > u64::MAX as u128 {
            return None;
        }
        value = wide as u64;
        at = at + 1;
    }
    assert(digits.take(at - first) =~= digits);
    Some(value)
}

/// What a text holds behind a prefix, where it has that prefix.
pub fn strip_prefix(s: &str, prefix: &str) -> (r: Option<String>)
    ensures
        match r {
            Some(rest) => has_prefix(s@, prefix@) && rest@ == s@.skip(prefix@.len() as int),
            None => !has_prefix(s@, prefix@),
        },
{
    if !starts_with(s, prefix) {
        return None;
    }
    let chars = chars_of(s);
    let skipped = chars_of(prefix);
    let from: usize = skipped.len();
    let to: usize = chars.len();
    assert(from <= to);
    let rest = text_of(&chars, from, to);
    assert(rest@ =~= s@.skip(prefix@.len() as int));
    Some(rest)
}

/// The unsigned 64-bit number that a text spells; zero where it spells none.
pub open spec fn number_or_zero(s: Seq<char>) -> u64 {
    match unsigned_number(s, 10) {
        Some(n) => if n <= u64::MAX {
            n as u64
        } else {
            0
        },
        None => 0,
    }
}

/// Reads an unsigned number; zero where there is none.
pub fn parse_or_zero(s: &str) -> (r: u64)
    ensures
        r == number_or_zero(s@),
{
    match parse_unsigned(s, 10) {
        Some(n) => n,
        None => 0,
    }
}

/// The place of the first text of a list that equals `x`; the length of the list
/// where there is none.
pub open spec fn position(s: Seq<Seq<char>>, x: Seq<char>) -> nat
    decreases s.len(),
{
    if s.len() == 0 || s[0] == x {
        0
    } else {
        1 + position(s.skip(1), x)
    }
}

/// Finds the place of a text in a list.
pub fn find_text(items: &Vec<String>, x: &str) -> (r: usize)
    ensures
        r == position(texts(items@), x@),
        r <= items@.len(),
{
    let ghost all = texts(items@);
    assert(all.skip(0) =~= all);
    for i in 0..items.len()
        invariant
            all == texts(items@),
            position(all, x@) == i + position(all.skip(i as int), x@),
    {
        assert(all.skip(i as int)[0] == items@[i as int]@);
        if same(items[i].as_str(), x) {
            return i;
        }
        assert(all.skip(i as int).skip(1) =~= all.skip(i + 1));
    }
    assert(all.skip(all.len() as int).len() == 0);
    items.len()
}

/// The numeral of a number spells the number, and has no zero in front unless it
/// is zero.
pub proof fn law_numerals_spell_their_numbers(n: u64)
    ensures
        number_or_zero(decimal(n as nat)) == n,
        unsigned_number(decimal(n as nat), 10) == Some(n as nat),
        n > 0 ==> decimal(n as nat)[0] != '0',
{
    lemma_decimal(n as nat);
}

/// The digits of a numeral.
proof fn lemma_decimal(n: nat)
    ensures
        decimal(n).len() > 0,
        decimal(n)[0] != '+',
        n > 0 ==> decimal(n)[0] != '0',
        digits_value(decimal(n), 10) == Some(n),
    decreases n,
{
    let d = digit_char((n % 10) as int);
    assert(digit_value(d, 10) == Some(n % 10));
    if n >= 10 {
        lemma_decimal(n / 10);
        let front = decimal(n / 10);
        assert(front.push(d).drop_last() =~= front);
        assert(n / 10 * 10 + n % 10 == n);
    } else {
        assert(seq![d].drop_last() =~= Seq::<char>::empty());
        assert(digits_value(Seq::<char>::empty(), 10) == Some(0nat));
        reveal_with_fuel(digits_value, 2);
    }
}

/// A negative number has a minus sign before the numeral of its magnitude, any
/// other none.
pub proof fn law_minus_sign_tells_the_negative(i: int)
    ensures
        i >= 0 ==> signed_decimal(i) == decimal(i as nat),
        i < 0 ==> signed_decimal(i)[0] == '-' && signed_decimal(i).skip(1) == decimal((-i) as nat),
{
    if i < 0 {
        assert(signed_decimal(i).skip(1) =~= decimal((-i) as nat));
    }
}

/// A path below a directory: a name that begins at the root stands alone; any
/// other follows the directory, with exactly one slash between where the directory
/// has none at its end.
pub proof fn law_paths_are_joined_by_one_slash(dir: Seq<char>, name: Seq<char>)
    ensures
        name.len() > 0 && name[0] == '/' ==> joined_path(dir, name) == name,
        !(name.len() > 0 && name[0] == '/') ==> joined_path(dir, name) == (if dir.len() > 0
            && dir[dir.len() - 1] != '/' {
            dir + "/"@ + name
        } else {
            dir + name
        }),
{
    reveal_strlit("/");
    assert(dir.push('/') =~= dir + "/"@);
}

/// Taking white space off takes nothing else off, and takes off all of it.
pub proof fn law_trimming_takes_white_space_off(s: Seq<char>)
    ensures
        exists|a: int, b: int|
            0 <= a <= b <= s.len() && trimmed(s) == #[trigger] s.subrange(a, b) && (forall|i: int|
                (0 <= i < a || b <= i < s.len()) ==> is_white(#[trigger] s[i])),
        trimmed(s).len() > 0 ==> !is_white(trimmed(s)[0]) && !is_white(trimmed(s).last()),
{
    let a = lemma_start(s);
    let t = s.skip(a);
    let b = lemma_end(t);
    assert(t.take(b) =~= s.subrange(a, a + b));
    assert forall|i: int| (0 <= i < a || a + b <= i < s.len()) implies is_white(
        #[trigger] s[i],
    ) by {
        if i >= a + b {
            assert(t[i - a] == s[i]);
        }
    }
    lemma_trimmed_start(s);
    if trimmed(s).len() > 0 {
        assert(trimmed(s)[0] == t[0]);
    }
}

/// Where a text begins without the white space before it.
proof fn lemma_start(s: Seq<char>) -> (a: int)
    ensures
        0 <= a <= s.len(),
        trimmed_start(s) == s.skip(a),
        forall|i: int| 0 <= i < a ==> is_white(#[trigger] s[i]),
    decreases s.len(),
{
    if s.len() > 0 && is_white(s[0]) {
        let t = s.skip(1);
        let a = lemma_start(t);
        assert(t.skip(a) =~= s.skip(a + 1));
        assert forall|i: int| 0 <= i < a + 1 implies is_white(#[trigger] s[i]) by {
            if i > 0 {
                assert(t[i - 1] == s[i]);
            }
        }
        a + 1
    } else {
        assert(s.skip(0) =~= s);
        0
    }
}

/// Where a text ends without the white space behind it.
proof fn lemma_end(s: Seq<char>) -> (b: int)
    ensures
        0 <= b <= s.len(),
        trimmed_end(s) == s.take(b),
        forall|i: int| b <= i < s.len() ==> is_white(#[trigger] s[i]),
        b > 0 ==> !is_white(s[b - 1]),
    decreases s.len(),
{
    if s.len() > 0 && is_white(s.last()) {
        let t = s.drop_last();
        let b = lemma_end(t);
        assert(t.take(b) =~= s.take(b));
        assert forall|i: int| b <= i < s.len() implies is_white(#[trigger] s[i]) by {
            if i < t.len() {
                assert(t[i] == s[i]);
            }
        }
        b
    } else {
        assert(s.take(s.len() as int) =~= s);
        s.len() as int
    }
}

/// White space parts words: the words of two texts with white space between are
/// the words of each, and a text without any is one word.
pub proof fn law_white_space_parts_words(a: Seq<char>, c: char, b: Seq<char>)
    requires
        is_white(c),
    ensures
        words(a.push(c) + b) == words(a) + words(b),
    decreases a.len(),
{
    let s = a.push(c) + b;
    if a.len() == 0 {
        assert(s.skip(1) =~= b);
        assert(words(s) == words(b));
        assert(words(a) + words(b) =~= words(b));
    } else if is_white(a[0]) {
        assert(s.skip(1) =~= a.skip(1).push(c) + b);
        law_white_space_parts_words(a.skip(1), c, b);
        assert(words(s) == words(s.skip(1)));
        assert(words(a) == words(a.skip(1)));
    } else {
        let n = word_len(a);
        lemma_word_len(a);
        lemma_word_ends(a, c, b);
        assert(trimmed_start(s) == s);
        assert(trimmed_start(a) == a);
        assert(s.take(n as int) =~= a.take(n as int));
        assert(s.skip(n as int) =~= a.skip(n as int).push(c) + b);
        law_white_space_parts_words(a.skip(n as int), c, b);
        assert(words(s) =~= words(a) + words(b));
    }
}

/// A word ends where white space begins.
proof fn lemma_word_ends(a: Seq<char>, c: char, b: Seq<char>)
    requires
        is_white(c),
    ensures
        word_len(a.push(c) + b) == word_len(a),
    decreases a.len(),
{
    let s = a.push(c) + b;
    if a.len() > 0 && !is_white(a[0]) {
        assert(s.skip(1) =~= a.skip(1).push(c) + b);
        lemma_word_ends(a.skip(1), c, b);
    }
}

/// A text without white space is one word, and an empty one none.
pub proof fn law_text_without_white_space_is_one_word(s: Seq<char>)
    requires
        forall|i: int| 0 <= i < s.len() ==> !is_white(#[trigger] s[i]),
    ensures
        s.len() > 0 ==> words(s) == seq![s],
        s.len() == 0 ==> words(s).len() == 0,
{
    lemma_whole_word(s);
    if s.len() > 0 {
        assert(!is_white(s[0]));
        assert(s.take(s.len() as int) =~= s);
        assert(s.skip(s.len() as int) =~= Seq::<char>::empty());
        assert(words(Seq::<char>::empty()) =~= Seq::empty());
        assert(words(s) =~= seq![s]);
    }
}

/// A text without white space is a word to its end.
proof fn lemma_whole_word(s: Seq<char>)
    requires
        forall|i: int| 0 <= i < s.len() ==> !is_white(#[trigger] s[i]),
    ensures
        word_len(s) == s.len(),
    decreases s.len(),
{
    if s.len() > 0 {
        let t = s.skip(1);
        assert(!is_white(s[0]));
        assert forall|i: int| 0 <= i < t.len() implies !is_white(#[trigger] t[i]) by {
            assert(t[i] == s[i + 1]);
        }
        lemma_whole_word(t);
    }
}

/// Line feeds part lines: what stands before the first is a line, without the
/// carriage return that it may end in, and the lines of what stands behind follow;
/// a text without any is one line as it is, and an empty one none.
pub proof fn law_line_feeds_part_lines(a: Seq<char>, b: Seq<char>)
    requires
        !a.contains('\n'),
    ensures
        lines(a.push('\n') + b) == seq![
            if a.len() > 0 && a.last() == '\r' {
                a.drop_last()
            } else {
                a
            },
        ] + lines(b),
        a.len() > 0 ==> lines(a) == seq![a],
        lines(Seq::empty()).len() == 0,
{
    let s = a.push('\n') + b;
    lemma_line_ends(a, b);
    assert(s.take(a.len() as int) =~= a);
    assert(s.skip(a.len() as int + 1) =~= b);
}

/// A line ends at the first line feed.
proof fn lemma_line_ends(a: Seq<char>, b: Seq<char>)
    requires
        !a.contains('\n'),
    ensures
        line_len(a.push('\n') + b) == a.len(),
        line_len(a) == a.len(),
    decreases a.len(),
{
    let s = a.push('\n') + b;
    if a.len() > 0 {
        let t = a.skip(1);
        assert(a[0] != '\n');
        assert forall|i: int| 0 <= i < t.len() implies t[i] != '\n' by {
            assert(a[i + 1] != '\n');
        }
        assert(!t.contains('\n'));
        assert(s.skip(1) =~= t.push('\n') + b);
        lemma_line_ends(t, b);
    }
}

/// Slashes part a path: what stands before the first is a part, unless it is empty
/// or a dot behind the beginning, and the parts of what stands behind follow.
pub proof fn law_slashes_part_paths(a: Seq<char>, b: Seq<char>, first: bool)
    requires
        !a.contains('/'),
    ensures
        ({
            let own = if a.len() == 0 || (!first && a.len() == 1 && a[0] == '.') {
                Seq::<Seq<char>>::empty()
            } else {
                seq![a]
            };
            &&& path_parts(a.push('/') + b, first) == own + path_parts(b, false)
            &&& path_parts(a, first) == own
        }),
{
    let s = a.push('/') + b;
    lemma_segment_ends(a, b);
    assert(s.take(a.len() as int) =~= a);
    assert(s.skip(a.len() as int + 1) =~= b);
    assert(a.len() == 1 && a[0] == '.' ==> a =~= seq!['.']);
    assert(a == seq!['.'] ==> a.len() == 1 && a[0] == '.');
}

/// A segment ends at the first slash.
proof fn lemma_segment_ends(a: Seq<char>, b: Seq<char>)
    requires
        !a.contains('/'),
    ensures
        segment_len(a.push('/') + b) == a.len(),
        segment_len(a) == a.len(),
    decreases a.len(),
{
    let s = a.push('/') + b;
    if a.len() > 0 {
        let t = a.skip(1);
        assert(a[0] != '/');
        assert forall|i: int| 0 <= i < t.len() implies t[i] != '/' by {
            assert(a[i + 1] != '/');
        }
        assert(!t.contains('/'));
        assert(s.skip(1) =~= t.push('/') + b);
        lemma_segment_ends(t, b);
    }
}

/// Two paths are the same exactly where they have the same parts and both begin at
/// the root or neither does.
pub proof fn law_same_parts_make_the_same_path(a: Seq<char>, b: Seq<char>)
    ensures
        paths_agree(a, b) <==> path_parts(a, true) == path_parts(b, true) && ((a.len() > 0 && a[0]
            == '/') <==> (b.len() > 0 && b[0] == '/')),
{
}

/// A text begins with another exactly where it is that and something behind it,
/// and ends in another exactly where it is something and that behind it.
pub proof fn law_prefixes_and_suffixes(s: Seq<char>, part: Seq<char>)
    ensures
        has_prefix(s, part) <==> exists|rest: Seq<char>| s == #[trigger] (part + rest),
        has_suffix(s, part) <==> exists|front: Seq<char>| s == #[trigger] (front + part),
{
    if has_prefix(s, part) {
        assert(s =~= part + s.skip(part.len() as int));
    }
    if exists|rest: Seq<char>| s == #[trigger] (part + rest) {
        let rest = choose|rest: Seq<char>| s == #[trigger] (part + rest);
        assert(s.take(part.len() as int) =~= part);
    }
    if has_suffix(s, part) {
        assert(s =~= s.take(s.len() - part.len()) + part);
    }
    if exists|front: Seq<char>| s == #[trigger] (front + part) {
        let front = choose|front: Seq<char>| s == #[trigger] (front + part);
        assert(s.skip(s.len() - part.len()) =~= part);
    }
}

/// The place of a text in a list is the first where it stands; the length of the
/// list where it stands nowhere.
pub proof fn law_first_place_counts(s: Seq<Seq<char>>, x: Seq<char>)
    ensures
        position(s, x) <= s.len(),
        position(s, x) < s.len() ==> s[position(s, x) as int] == x,
        forall|i: int| 0 <= i < position(s, x) ==> #[trigger] s[i] != x,
        position(s, x) == s.len() <==> !s.contains(x),
    decreases s.len(),
{
    if s.len() > 0 && s[0] != x {
        let t = s.skip(1);
        law_first_place_counts(t, x);
        assert forall|i: int| 0 <= i < position(s, x) implies #[trigger] s[i] != x by {
            if i > 0 {
                assert(t[i - 1] == s[i]);
            }
        }
        if s.contains(x) {
            let i = choose|i: int| 0 <= i < s.len() && s[i] == x;
            assert(t[i - 1] == x);
        }
        if t.contains(x) {
            let i = choose|i: int| 0 <= i < t.len() && t[i] == x;
            assert(s[i + 1] == x);
        }
    } else if s.len() > 0 {
        assert(s[0] == x);
    }
}

/// The digits of a base stand for the numbers below it: the numerals for those
/// below ten, then the letters of either case in their order; no other character
/// stands for any.
pub proof fn law_digits_stand_for_their_numbers(c: char, base: nat)
    requires
        base <= 36,
    ensures
        '0' <= c <= '9' ==> digit_value(c, base) == (if c as int - '0' as int >= base {
            None
        } else {
            Some((c as int - '0' as int) as nat)
        }),
        'a' <= c <= 'z' ==> digit_value(c, base) == (if c as int - 'a' as int + 10 >= base {
            None
        } else {
            Some((c as int - 'a' as int + 10) as nat)
        }),
        'A' <= c <= 'Z' ==> digit_value(c, base) == (if c as int - 'A' as int + 10 >= base {
            None
        } else {
            Some((c as int - 'A' as int + 10) as nat)
        }),
        !('0' <= c <= '9') && !('a' <= c <= 'z') && !('A' <= c <= 'Z') ==> digit_value(c, base)
            is None,
{
}

/// What a text spells: with or without a plus sign, at least one digit and nothing
/// but digits; more digits make it the base times as much and the digit more.
pub proof fn law_numbers_are_spelled_by_digits(s: Seq<char>, c: char, base: nat)
    ensures
        unsigned_number(Seq::<char>::empty(), base) is None,
        unsigned_number(seq!['+'], base) is None,
        unsigned_number(seq!['+'] + s, base) == (if s.len() == 0 {
            None
        } else {
            digits_value(s, base)
        }),
        digits_value(s.push(c), base) == (match (digits_value(s, base), digit_value(c, base)) {
            (Some(n), Some(d)) => Some(n * base + d),
            _ => None,
        }),
        digits_value(Seq::<char>::empty(), base) == Some(0nat),
{
    assert((seq!['+'] + s).skip(1) =~= s);
    assert(seq!['+'].skip(1) =~= Seq::<char>::empty());
    assert(s.push(c).drop_last() =~= s);
}

/// A number that does not fit counts for nothing, like a text that spells none.
pub proof fn law_unreadable_numbers_are_zero(s: Seq<char>)
    ensures
        ({
            let n = unsigned_number(s, 10);
            number_or_zero(s) == (if n is Some && n->0 <= u64::MAX {
                n->0
            } else {
                0
            })
        }),
{
}

/// White space is what Unicode calls so.
pub proof fn law_white_space_is_white(c: char)
    ensures
        c == ' ' || c == '\t' || c == '\n' || c == '\r' ==> is_white(c),
        '!' <= c <= '~' ==> !is_white(c),
{
}

} // verus!
