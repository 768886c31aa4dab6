//! White space at the ends of a text.

use vstd::prelude::*;

verus! {

/// The characters that count as white space: those that Unicode marks as
/// `White_Space`.
pub open spec fn white_space(c: char) -> bool {
    let n = c as u32;
    ||| 0x09 <= n <= 0x0D
    ||| n == 0x20
    ||| n == 0x85
    ||| n == 0xA0
    ||| n == 0x1680
    ||| 0x2000 <= n <= 0x200A
    ||| n == 0x2028
    ||| n == 0x2029
    ||| n == 0x202F
    ||| n == 0x205F
    ||| n == 0x3000
}

/// A text is blank when it holds nothing but white space.
pub open spec fn blank(s: Seq<char>) -> bool {
    forall|i: int| 0 <= i < s.len() ==> white_space(#[trigger] s[i])
}

/// `s` without the white space it starts with.
pub open spec fn skip_leading(s: Seq<char>) -> Seq<char>
    decreases s.len(),
{
    if s.len() > 0 && white_space(s[0]) {
        skip_leading(s.drop_first())
    } else {
        s
    }
}

/// `s` without the white space it ends with.
pub open spec fn skip_trailing(s: Seq<char>) -> Seq<char>
    decreases s.len(),
{
    if s.len() > 0 && white_space(s.last()) {
        skip_trailing(s.drop_last())
    } else {
        s
    }
}

/// `s` without the white space around it.
pub open spec fn trimmed(s: Seq<char>) -> Seq<char> {
    skip_trailing(skip_leading(s))
}

/// Where the white space at the start of `s` ends, the rest is what
/// `skip_leading` keeps.
pub proof fn lemma_skip_leading(s: Seq<char>, i: int)
    requires
        0 <= i <= s.len(),
        forall|k: int| 0 <= k < i ==> white_space(#[trigger] s[k]),
        i < s.len() ==> !white_space(s[i]),
    ensures
        skip_leading(s) == s.subrange(i, s.len() as int),
    decreases i,
{
    if i == 0 {
        assert(s.subrange(0, s.len() as int) =~= s);
    } else {
        let rest = s.drop_first();
        assert forall|k: int| 0 <= k < i - 1 implies white_space(#[trigger] rest[k]) by {
            assert(rest[k] == s[k + 1]);
        }
        lemma_skip_leading(rest, i - 1);
        assert(rest.subrange(i - 1, rest.len() as int) =~= s.subrange(i, s.len() as int));
    }
}

/// Where the white space at the end of `s` starts, what comes before is what
/// `skip_trailing` keeps.
pub proof fn lemma_skip_trailing(s: Seq<char>, j: int)
    requires
        0 <= j <= s.len(),
        forall|k: int| j <= k < s.len() ==> white_space(#[trigger] s[k]),
        0 < j ==> !white_space(s[j - 1]),
    ensures
        skip_trailing(s) == s.subrange(0, j),
    decreases s.len() - j,
{
    if j == s.len() {
        assert(s.subrange(0, j) =~= s);
    } else {
        let rest = s.drop_last();
        lemma_skip_trailing(rest, j);
        assert(rest.subrange(0, j) =~= s.subrange(0, j));
    }
}

/// Trimming leaves nothing exactly when the text is blank.
pub proof fn lemma_trimmed_empty_iff_blank(s: Seq<char>)
    ensures
        trimmed(s).len() == 0 <==> blank(s),
    decreases s.len(),
{
    if s.len() > 0 && white_space(s[0]) {
        let rest = s.drop_first();
        lemma_trimmed_empty_iff_blank(rest);
        if blank(s) {
            assert forall|i: int| 0 <= i < rest.len() implies white_space(#[trigger] rest[i]) by {
                assert(rest[i] == s[i + 1]);
            }
        }
        if blank(rest) {
            assert forall|i: int| 0 <= i < s.len() implies white_space(#[trigger] s[i]) by {
                if i > 0 {
                    assert(s[i] == rest[i - 1]);
                }
            }
        }
    } else if s.len() > 0 {
        lemma_skip_trailing_keeps_first(s);
    }
}

/// A text that starts with something other than white space keeps its start
/// whatever is cut from its end.
proof fn lemma_skip_trailing_keeps_first(s: Seq<char>)
    requires
        s.len() > 0,
        !white_space(s[0]),
    ensures
        skip_trailing(s).len() > 0,
        skip_trailing(s)[0] == s[0],
    decreases s.len(),
{
    if white_space(s.last()) {
        lemma_skip_trailing_keeps_first(s.drop_last());
    }
}

/// What is left of a text that is not blank starts with something other than
/// white space.
proof fn lemma_skip_leading_finds_ink(s: Seq<char>)
    requires
        !blank(s),
    ensures
        skip_leading(s).len() > 0,
        !white_space(skip_leading(s)[0]),
    decreases s.len(),
{
    if s.len() > 0 && white_space(s[0]) {
        let rest = s.drop_first();
        if blank(rest) {
            assert forall|i: int| 0 <= i < s.len() implies white_space(#[trigger] s[i]) by {
                if i > 0 {
                    assert(s[i] == rest[i - 1]);
                }
            }
        }
        lemma_skip_leading_finds_ink(rest);
    }
}

/// Trimming a text that is not blank leaves a text that is not blank.
pub proof fn lemma_trimmed_not_blank(s: Seq<char>)
    requires
        !blank(s),
    ensures
        !blank(trimmed(s)),
{
    lemma_skip_leading_finds_ink(s);
    lemma_skip_trailing_keeps_first(skip_leading(s));
    assert(!white_space(trimmed(s)[0]));
}

/// Tells whether `c` is white space.
pub fn is_white_space(c: char) -> (b: bool)
    ensures
        b == white_space(c),
{
    let n: u32 = c as u32;
    (0x09 <= n && n <= 0x0D) || n == 0x20 || n == 0x85 || n == 0xA0 || n == 0x1680
        || (0x2000 <= n && n <= 0x200A) || n == 0x2028 || n == 0x2029 || n == 0x202F
        || n == 0x205F || n == 0x3000
}

/// Tells whether `s` is blank.
pub fn is_blank(s: &str) -> (b: bool)
    ensures
        b == blank(s@),
{
    for c in it: s.chars()
        invariant
            it.seq() == s@,
            forall|i: int| 0 <= i < it.index() ==> white_space(#[trigger] s@[i]),
    {
        if !is_white_space(c) {
            return false;
        }
    }
    true
}

/// Cuts the white space from both ends of `s`.
pub fn trim(s: &str) -> (r: &str)
    ensures
        r@ == trimmed(s@),
{
    let len: usize = s.unicode_len();
    let mut from: usize = 0;
    let mut to: usize = 0;
    let mut at: usize = 0;
    for c in it: s.chars()
        invariant
            it.seq() == s@,
            s@.len() == len,
            at == it.index(),
            from <= to <= at,
            to == 0 ==> forall|k: int| 0 <= k < at ==> white_space(#[trigger] s@[k]),
            to > 0 ==> {
                &&& forall|k: int| 0 <= k < from ==> white_space(#[trigger] s@[k])
                &&& from < to
                &&& !white_space(s@[from as int])
                &&& !white_space(s@[to - 1])
                &&& forall|k: int| to <= k < at ==> white_space(#[trigger] s@[k])
            },
    {
        if !is_white_space(c) {
            if to == 0 {
                from = at;
            }
            to = at + 1;
        }
        at = at + 1;
    }
    proof {
        let n = s@.len() as int;
        if to == 0 {
            lemma_trimmed_empty_iff_blank(s@);
            assert(trimmed(s@) =~= s@.subrange(0, 0));
        } else {
            lemma_skip_leading(s@, from as int);
            let t = s@.subrange(from as int, n);
            assert forall|k: int| to - from <= k < t.len() implies white_space(#[trigger] t[k]) by {
                assert(t[k] == s@[k + from]);
            }
            lemma_skip_trailing(t, to - from);
            assert(t.subrange(0, to - from) =~= s@.subrange(from as int, to as int));
        }
    }
    s.substring_char(from, to)
}

} // verus!
