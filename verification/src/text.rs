//! Character-level text utilities: canonical key extraction, decimal
//! rendering for URL synthesis, delimiter splitting for subject lists, and
//! the title prefix rule used by the HTML fallback extractor.

use vstd::prelude::*;

verus! {

/// The canonical identifier of a work is the last slash-delimited segment of
/// the source's raw key, whatever prefix path the source attaches.
pub open spec fn key_of(s: Seq<char>) -> Seq<char>
    decreases s.len(),
{
    if s.len() == 0 {
        s
    } else if s.last() == '/' {
        Seq::<char>::empty()
    } else {
        key_of(s.drop_last()) + seq![s.last()]
    }
}

/// The canonical form of a raw key is its suffix after the last slash.
pub proof fn lemma_key_of_suffix(s: Seq<char>, start: int)
    requires
        0 <= start <= s.len(),
        start == 0 || s[start - 1] == '/',
        forall|j: int| start <= j < s.len() ==> s[j] != '/',
    ensures
        key_of(s) == s.subrange(start, s.len() as int),
    decreases s.len(),
{
    if s.len() == start {
        if start == 0 {
            assert(key_of(s) =~= s.subrange(start, s.len() as int));
        } else {
            assert(s.last() == '/');
            assert(key_of(s) =~= s.subrange(start, s.len() as int));
        }
    } else {
        assert(s.last() != '/');
        lemma_key_of_suffix(s.drop_last(), start);
        assert(key_of(s) =~= s.subrange(start, s.len() as int));
    }
}

/// The canonical identifier equals the last slash-delimited segment of the
/// source's raw key: whatever prefix path stands before the final slash, a
/// slash-free final segment comes out unchanged.
pub proof fn lemma_key_is_last_segment(prefix: Seq<char>, seg: Seq<char>)
    requires
        forall|j: int| 0 <= j < seg.len() ==> seg[j] != '/',
    ensures
        key_of(prefix + seq!['/'] + seg) == seg,
{
    let s = prefix + seq!['/'] + seg;
    assert(s[prefix.len() as int] == '/');
    assert forall|j: int| prefix.len() + 1 <= j < s.len() implies s[j] != '/' by {
        assert(s[j] == seg[j - prefix.len() - 1]);
    }
    lemma_key_of_suffix(s, prefix.len() as int + 1);
    assert(s.subrange(prefix.len() as int + 1, s.len() as int) =~= seg);
}

/// The canonical identifier: everything after the last `/` of the raw key,
/// or the whole key when it contains no `/`.
pub fn get_key(key: &str) -> (r: String)
    ensures
        r@ == key_of(key@),
{
    let len = key.unicode_len();
    let mut i: usize = 0;
    let mut start: usize = 0;
    while i < len
        invariant
            i <= len,
            start <= i,
            len == key@.len(),
            start == 0 || key@[start - 1] == '/',
            forall|j: int| start <= j < i ==> key@[j] != '/',
        decreases len - i,
    {
        if key.get_char(i) == '/' {
            start = i + 1;
        }
        i += 1;
    }
    let seg = key.substring_char(start, len);
    proof {
        lemma_key_of_suffix(key@, start as int);
    }
    seg.to_owned()
}

/// The character for one decimal digit.
pub open spec fn digit_char(d: int) -> char {
    seq!['0', '1', '2', '3', '4', '5', '6', '7', '8', '9'][d]
}

/// The decimal digits of a non-negative integer, most significant first.
pub open spec fn dec_digits(n: nat) -> Seq<char>
    decreases n,
{
    if n < 10 {
        seq![digit_char(n as int)]
    } else {
        dec_digits(n / 10) + seq![digit_char((n % 10) as int)]
    }
}

/// The decimal rendering of a signed integer, with a leading `-` when negative.
pub open spec fn dec_str(n: int) -> Seq<char> {
    if n < 0 {
        seq!['-'] + dec_digits((-n) as nat)
    } else {
        dec_digits(n as nat)
    }
}

fn u64_to_string(n: u64) -> (r: String)
    ensures
        r@ == dec_digits(n as nat),
    decreases n,
{
    let digits = "0123456789";
    proof {
        reveal_strlit("0123456789");
        assert(digits@ =~= seq!['0', '1', '2', '3', '4', '5', '6', '7', '8', '9']);
    }
    if n < 10 {
        let d = n as usize;
        let r = digits.substring_char(d, d + 1).to_owned();
        proof {
            assert(r@ =~= seq![digit_char(n as int)]);
        }
        r
    } else {
        let mut s = u64_to_string(n / 10);
        let d = (n % 10) as usize;
        let tail = digits.substring_char(d, d + 1);
        proof {
            assert(tail@ =~= seq![digit_char((n % 10) as int)]);
        }
        s.append(tail);
        s
    }
}

/// Renders a signed identifier as decimal text.
pub fn i64_to_string(n: i64) -> (r: String)
    ensures
        r@ == dec_str(n as int),
{
    if n >= 0 {
        u64_to_string(n as u64)
    } else {
        let mag: u64 = ((-(n + 1)) as u64) + 1;
        assert(mag == -(n as int));
        let mut s = "-".to_owned();
        proof {
            reveal_strlit("-");
            assert(s@ =~= seq!['-']);
        }
        let tail = u64_to_string(mag);
        s.append(tail.as_str());
        s
    }
}

/// Whether the two-character subject delimiter `", "` starts at position `i`.
pub open spec fn delim_at(s: Seq<char>, i: int) -> bool {
    0 <= i && i + 2 <= s.len() && s[i] == ',' && s[i + 1] == ' '
}

/// Splitting on `", "`, left to right, accumulating the piece read so far.
pub open spec fn split_acc(s: Seq<char>, acc: Seq<char>) -> Seq<Seq<char>>
    decreases s.len(),
{
    if s.len() == 0 {
        seq![acc]
    } else if delim_at(s, 0) {
        seq![acc] + split_acc(s.skip(2), Seq::<char>::empty())
    } else {
        split_acc(s.skip(1), acc + seq![s[0]])
    }
}

/// The pieces of a multi-valued subject string, split on `", "`.
pub open spec fn split_subject(s: Seq<char>) -> Seq<Seq<char>> {
    split_acc(s, Seq::<char>::empty())
}

/// Splits a subject string on the `", "` delimiter, left to right.
pub fn split_subject_exec(s: &str) -> (r: Vec<String>)
    ensures
        r.deep_view() == split_subject(s@),
{
    let len = s.unicode_len();
    let mut i: usize = 0;
    let mut cur = String::new();
    let mut out: Vec<String> = Vec::new();
    proof {
        assert(s@.skip(0) =~= s@);
        assert(out.deep_view() + split_acc(s@, cur@) =~= split_acc(s@, cur@));
    }
    while i < len
        invariant
            i <= len,
            len == s@.len(),
            split_subject(s@) == out.deep_view() + split_acc(s@.skip(i as int), cur@),
        decreases len - i,
    {
        let ghost pre = s@.skip(i as int);
        if i + 1 < len && s.get_char(i) == ',' && s.get_char(i + 1) == ' ' {
            proof {
                assert(delim_at(pre, 0));
                assert(pre.skip(2) =~= s@.skip(i as int + 2));
            }
            out.push(cur);
            cur = String::new();
            i += 2;
            proof {
                assert(out.deep_view().drop_last() + (seq![out.deep_view().last()] + split_acc(
                    s@.skip(i as int),
                    cur@,
                )) =~= out.deep_view() + split_acc(s@.skip(i as int), cur@));
            }
        } else {
            proof {
                assert(!delim_at(pre, 0));
                assert(pre.skip(1) =~= s@.skip(i as int + 1));
            }
            let piece = s.substring_char(i, i + 1);
            proof {
                assert(piece@ =~= seq![pre[0]]);
            }
            cur.append(piece);
            i += 1;
        }
    }
    proof {
        assert(s@.skip(len as int) =~= Seq::<char>::empty());
    }
    out.push(cur);
    proof {
        assert(out.deep_view().drop_last() + seq![out.deep_view().last()] =~= out.deep_view());
    }
    out
}

/// Whether the title separator `" by "` starts at position `i`.
pub open spec fn sep_at(s: Seq<char>, i: int) -> bool {
    0 <= i && i + 4 <= s.len() && s[i] == ' ' && s[i + 1] == 'b' && s[i + 2] == 'y' && s[i + 3]
        == ' '
}

/// The portion of an alternate text before the first `" by "` separator; the
/// whole text when no separator occurs.
pub open spec fn prefix_to_by(s: Seq<char>) -> Seq<char>
    decreases s.len(),
{
    if s.len() == 0 {
        s
    } else if sep_at(s, 0) {
        Seq::<char>::empty()
    } else {
        seq![s[0]] + prefix_to_by(s.skip(1))
    }
}

proof fn lemma_prefix_to_by_take(s: Seq<char>, i: int)
    requires
        0 <= i <= s.len(),
        forall|j: int| 0 <= j < i ==> !sep_at(s, j),
        i == s.len() || sep_at(s, i),
        i == s.len() ==> forall|j: int| 0 <= j < s.len() ==> !sep_at(s, j),
    ensures
        prefix_to_by(s) == s.take(i),
    decreases s.len(),
{
    if s.len() == 0 {
        assert(prefix_to_by(s) =~= s.take(i));
    } else if sep_at(s, 0) {
        assert(i == 0);
        assert(prefix_to_by(s) =~= s.take(i));
    } else {
        assert(i >= 1) by {
            if i == 0 {
                assert(sep_at(s, 0));
            }
        }
        let t = s.skip(1);
        assert(forall|j: int| 0 <= j < t.len() ==> sep_at(t, j) == sep_at(s, j + 1));
        lemma_prefix_to_by_take(t, i - 1);
        assert(prefix_to_by(s) =~= s.take(i));
    }
}

fn sep_at_exec(s: &str, i: usize, len: usize) -> (r: bool)
    requires
        len == s@.len(),
        i < len,
    ensures
        r == sep_at(s@, i as int),
{
    len - i >= 4 && s.get_char(i) == ' ' && s.get_char(i + 1) == 'b' && s.get_char(i + 2) == 'y'
        && s.get_char(i + 3) == ' '
}

/// The portion of a scraped alternate text before its first `" by "`.
pub fn title_before_by(s: &str) -> (r: String)
    ensures
        r@ == prefix_to_by(s@),
{
    let len = s.unicode_len();
    let mut i: usize = 0;
    while i < len && !sep_at_exec(s, i, len)
        invariant
            i <= len,
            len == s@.len(),
            forall|j: int| 0 <= j < i ==> !sep_at(s@, j),
        decreases len - i,
    {
        i += 1;
    }
    proof {
        if i == len {
            assert(forall|j: int| i <= j < s@.len() ==> !sep_at(s@, j));
        }
        lemma_prefix_to_by_take(s@, i as int);
    }
    s.substring_char(0, i).to_owned()
}

/// Whether a character has the Unicode white-space property, as the standard
/// library's trimming understands it.
pub open spec fn is_wspace(c: char) -> bool {
    c == ' ' || c == '\t' || c == '\n' || c == '\r' || c == '\u{0b}' || c == '\u{0c}' || c
        == '\u{85}' || c == '\u{a0}' || c == '\u{1680}' || c == '\u{2000}' || c == '\u{2001}' || c
        == '\u{2002}' || c == '\u{2003}' || c == '\u{2004}' || c == '\u{2005}' || c == '\u{2006}'
        || c == '\u{2007}' || c == '\u{2008}' || c == '\u{2009}' || c == '\u{200a}' || c
        == '\u{2028}' || c == '\u{2029}' || c == '\u{202f}' || c == '\u{205f}' || c == '\u{3000}'
}

/// A text with its leading and trailing white space removed.
pub open spec fn trim_spec(s: Seq<char>) -> Seq<char>
    decreases s.len(),
{
    if s.len() == 0 {
        s
    } else if is_wspace(s[0]) {
        trim_spec(s.skip(1))
    } else if is_wspace(s.last()) {
        trim_spec(s.drop_last())
    } else {
        s
    }
}

/// Relies on `str::trim` of the standard library: it removes leading and
/// trailing characters with the Unicode white-space property, which
/// `is_wspace` lists.
#[verifier::external_body]
pub fn trim_str(s: &str) -> (r: &str)
    ensures
        r@ == trim_spec(s@),
{
    s.trim()
}

} // verus!
