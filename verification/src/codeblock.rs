//! Removal of a surrounding fenced-code-block delimiter.
//!
//! A text is unwrapped when its first line is the three-backtick fence
//! followed only by a whitespace-free language tag, and its tail is the
//! fence again, optionally followed by a line terminator.  Everything
//! strictly between the opening line and the closing fence is the result;
//! any other text is returned unchanged.

use vstd::prelude::*;
use vstd::seq_lib::*;

verus! {

/// Whether `c` has the Unicode `White_Space` property, the set that
/// `char::is_whitespace` recognizes.
pub open spec fn is_ws_char(c: char) -> bool {
    let u = c as u32;
    ||| (9 <= u && u <= 13)
    ||| u == 32
    ||| u == 0x85
    ||| u == 0xA0
    ||| u == 0x1680
    ||| (0x2000 <= u && u <= 0x200A)
    ||| u == 0x2028
    ||| u == 0x2029
    ||| u == 0x202F
    ||| u == 0x205F
    ||| u == 0x3000
}

/// Executable test for the Unicode `White_Space` property.
pub fn is_whitespace_char(c: char) -> (r: bool)
    ensures
        r == is_ws_char(c),
{
    let u: u32 = c as u32;
    (9 <= u && u <= 13) || u == 32 || u == 0x85 || u == 0xA0 || u == 0x1680
        || (0x2000 <= u && u <= 0x200A) || u == 0x2028 || u == 0x2029 || u == 0x202F
        || u == 0x205F || u == 0x3000
}

/// The text begins with the three-character fence.
pub open spec fn starts_with_fence(t: Seq<char>) -> bool {
    t.len() >= 3 && t[0] == '`' && t[1] == '`' && t[2] == '`'
}

/// Between the opening fence and the first line break (at index `le`)
/// stands no whitespace character: the language tag, possibly empty, is a
/// single whitespace-free word.
pub open spec fn tag_is_clean(t: Seq<char>, le: int) -> bool {
    forall|j: int| 3 <= j < le ==> !is_ws_char(#[trigger] t[j])
}

/// The opening line (ending at the first line break, index `le`) is a
/// well-formed fence line.
pub open spec fn opening_ok(t: Seq<char>, le: int) -> bool {
    starts_with_fence(t) && tag_is_clean(t, le)
}

/// The text ends with the bare closing fence.
pub open spec fn ends_fence(t: Seq<char>) -> bool {
    let n = t.len() as int;
    n >= 3 && t[n - 3] == '`' && t[n - 2] == '`' && t[n - 1] == '`'
}

/// The text ends with the closing fence followed by a line feed.
pub open spec fn ends_fence_nl(t: Seq<char>) -> bool {
    let n = t.len() as int;
    n >= 4 && t[n - 4] == '`' && t[n - 3] == '`' && t[n - 2] == '`' && t[n - 1] == '\n'
}

/// The text ends with the closing fence followed by a carriage return and
/// a line feed.
pub open spec fn ends_fence_crlf(t: Seq<char>) -> bool {
    let n = t.len() as int;
    n >= 5 && t[n - 5] == '`' && t[n - 4] == '`' && t[n - 3] == '`' && t[n - 2] == '\r'
        && t[n - 1] == '\n'
}

/// The length of the matched closing form, the three candidate suffixes
/// tried in order of decreasing length, or `None` when none matches.
/// (The three forms are in fact mutually exclusive, so the order does not
/// change the outcome.)
pub open spec fn closing_form_len(t: Seq<char>) -> Option<int> {
    if ends_fence_crlf(t) {
        Some(5)
    } else if ends_fence_nl(t) {
        Some(4)
    } else if ends_fence(t) {
        Some(3)
    } else {
        None
    }
}

/// What unwrapping returns: the substring strictly between a well-formed
/// opening fence line and a matched closing fence, and otherwise — no line
/// break, malformed opening line, no closing form, or the two regions
/// overlapping — the text unchanged.
pub open spec fn unwrap_spec(t: Seq<char>) -> Seq<char> {
    match t.index_of_first('\n') {
        Some(le) => if opening_ok(t, le) {
            match closing_form_len(t) {
                Some(el) => if le + 1 <= t.len() - el {
                    t.subrange(le + 1, t.len() - el)
                } else {
                    t
                },
                None => t,
            }
        } else {
            t
        },
        None => t,
    }
}

/// Locates the first line feed of `s`, if any.
fn find_first_newline(s: &str) -> (r: Option<usize>)
    ensures
        match r {
            Some(i) => s@.index_of_first('\n') == Some(i as int),
            None => s@.index_of_first('\n') is None,
        },
{
    let n: usize = s.unicode_len();
    let mut i: usize = 0;
    loop
        invariant
            0 <= i <= n,
            n == s@.len(),
            forall|j: int| 0 <= j < i ==> s@[j] != '\n',
        decreases n - i,
    {
        if i == n {
            proof {
                lemma_no_newline(s@);
            }
            return None;
        }
        if s.get_char(i) == '\n' {
            proof {
                lemma_first_newline_at(s@, i as int);
            }
            return Some(i);
        }
        i += 1;
    }
}

/// Matches the tail of `s` against the three closing forms, longest first,
/// returning the length of the matched form.
fn match_closing(s: &str) -> (r: Option<usize>)
    ensures
        match r {
            Some(el) => closing_form_len(s@) == Some(el as int),
            None => closing_form_len(s@) is None,
        },
{
    let n: usize = s.unicode_len();
    if n >= 5 && s.get_char(n - 5) == '`' && s.get_char(n - 4) == '`' && s.get_char(n - 3) == '`'
        && s.get_char(n - 2) == '\r' && s.get_char(n - 1) == '\n' {
        Some(5)
    } else if n >= 4 && s.get_char(n - 4) == '`' && s.get_char(n - 3) == '`'
        && s.get_char(n - 2) == '`' && s.get_char(n - 1) == '\n' {
        Some(4)
    } else if n >= 3 && s.get_char(n - 3) == '`' && s.get_char(n - 2) == '`'
        && s.get_char(n - 1) == '`' {
        Some(3)
    } else {
        None
    }
}

/// Removes one layer of a fenced-code-block delimiter, if the text carries
/// a well-formed one, and otherwise returns the text unchanged.  Total and
/// pure: absence of a match is a normal outcome, not an error.
pub fn unwrap_codeblock<'a>(input: &'a str) -> (r: &'a str)
    ensures
        r@ == unwrap_spec(input@),
{
    let n: usize = input.unicode_len();
    let le: usize = match find_first_newline(input) {
        Some(i) => i,
        None => {
            return input;
        },
    };
    proof {
        input@.index_of_first_ensures('\n');
    }
    if !(le >= 3 && input.get_char(0) == '`' && input.get_char(1) == '`'
        && input.get_char(2) == '`') {
        proof {
            if starts_with_fence(input@) {
                assert(input@[le as int] == '`');
            }
        }
        return input;
    }
    let mut k: usize = 3;
    while k < le
        invariant
            3 <= k <= le,
            le < n,
            n == input@.len(),
            input@.index_of_first('\n') == Some(le as int),
            starts_with_fence(input@),
            forall|j: int| 3 <= j < k ==> !is_ws_char(#[trigger] input@[j]),
        decreases le - k,
    {
        if is_whitespace_char(input.get_char(k)) {
            proof {
                assert(is_ws_char(input@[k as int]));
                assert(!tag_is_clean(input@, le as int));
            }
            return input;
        }
        k += 1;
    }
    let el: usize = match match_closing(input) {
        Some(el) => el,
        None => {
            return input;
        },
    };
    if le + 1 <= n - el {
        input.substring_char(le + 1, n - el)
    } else {
        input
    }
}

/// Text that does not begin with the three-backtick fence is returned
/// unchanged by unwrapping.
pub proof fn lemma_unwrap_without_fence(t: Seq<char>)
    requires
        !starts_with_fence(t),
    ensures
        unwrap_spec(t) == t,
{
    t.index_of_first_ensures('\n');
}

/// Text with a well-formed opening fence line — its first line break at
/// `le`, a whitespace-free tag — and a matching closing form of length
/// `el`, the two regions disjoint, unwraps to exactly the substring
/// strictly between the opening line and the closing fence.
pub proof fn lemma_unwrap_well_formed(t: Seq<char>, le: int, el: int)
    requires
        0 <= le < t.len(),
        t[le] == '\n',
        forall|j: int| 0 <= j < le ==> t[j] != '\n',
        opening_ok(t, le),
        closing_form_len(t) == Some(el),
        le + 1 + el <= t.len(),
    ensures
        unwrap_spec(t) == t.subrange(le + 1, t.len() - el),
{
    lemma_first_newline_at(t, le);
}

/// If any whitespace character stands between the opening fence and the
/// first line break, the match fails and the text is returned unchanged —
/// no partial unwrap.
pub proof fn lemma_unwrap_whitespace_in_tag(t: Seq<char>, le: int, j: int)
    requires
        0 <= le < t.len(),
        t[le] == '\n',
        forall|i: int| 0 <= i < le ==> t[i] != '\n',
        3 <= j < le,
        is_ws_char(t[j]),
    ensures
        unwrap_spec(t) == t,
{
    lemma_first_newline_at(t, le);
    assert(!tag_is_clean(t, le));
}

/// The first line break of `t` stands at `i` exactly when `t[i]` is a line
/// feed and none comes before it.
proof fn lemma_first_newline_at(t: Seq<char>, i: int)
    requires
        0 <= i < t.len(),
        t[i] == '\n',
        forall|j: int| 0 <= j < i ==> t[j] != '\n',
    ensures
        t.index_of_first('\n') == Some(i),
{
    t.index_of_first_ensures('\n');
    assert(t.contains('\n'));
    let idx = t.index_of_first('\n')->Some_0;
    assert(t[idx] == '\n');
    assert(idx == i);
}

/// No line feed anywhere in `t` means no first one.
proof fn lemma_no_newline(t: Seq<char>)
    requires
        forall|j: int| 0 <= j < t.len() ==> t[j] != '\n',
    ensures
        t.index_of_first('\n') is None,
{
    t.index_of_first_ensures('\n');
    if t.contains('\n') {
        let k = choose|k: int| 0 <= k < t.len() && t[k] == '\n';
        assert(t[k] != '\n');
    }
}

} // verus!
