//! Text helpers: what counts as white space, and trimming.

use vstd::prelude::*;

verus! {

/// `String::push` appends one character and leaves the rest of the string as
/// it was. This is assumed of the standard library, not proved.
pub assume_specification[ String::push ](s: &mut String, ch: char)
    ensures
        final(s)@ == old(s)@.push(ch),
;

/// Whether `c` has the Unicode property `White_Space`.
pub open spec fn is_white_space(c: char) -> bool {
    let n: u32 = c as u32;
    ||| 0x09 <= n <= 0x0D
    ||| n == 0x20
    ||| n == 0x85
    ||| n == 0xA0
    ||| n == 0x1680
    ||| 0x2000 <= n <= 0x200A
    ||| n == 0x2028
    ||| n == 0x2029
    ||| n == 0x202F
    ||| n == 0x205F
    ||| n == 0x3000
}

/// Whether `s` holds nothing but white space; true of the empty sequence.
pub open spec fn all_white_space(s: Seq<char>) -> bool {
    forall|i: int| 0 <= i < s.len() ==> is_white_space(#[trigger] s[i])
}

/// `s` without the white space it starts with.
pub open spec fn trim_start(s: Seq<char>) -> Seq<char>
    decreases s.len(),
{
    if s.len() > 0 && is_white_space(s.first()) {
        trim_start(s.drop_first())
    } else {
        s
    }
}

/// `s` without the white space it ends with.
pub open spec fn trim_end(s: Seq<char>) -> Seq<char>
    decreases s.len(),
{
    if s.len() > 0 && is_white_space(s.last()) {
        trim_end(s.drop_last())
    } else {
        s
    }
}

/// `s` without the white space at either end. White space between other
/// characters stays.
pub open spec fn trimmed(s: Seq<char>) -> Seq<char> {
    trim_end(trim_start(s))
}

/// `trim_start` cuts at the first character that is no white space.
pub proof fn lemma_trim_start_cuts(s: Seq<char>, from: int)
    requires
        0 <= from <= s.len(),
        all_white_space(s.subrange(0, from)),
        from < s.len() ==> !is_white_space(s[from]),
    ensures
        trim_start(s) == s.subrange(from, s.len() as int),
    decreases from,
{
    if from > 0 {
        assert(s.subrange(0, from)[0] == s[0]);
        let rest = s.drop_first();
        assert forall|i: int| 0 <= i < from - 1 implies is_white_space(
            #[trigger] rest.subrange(0, from - 1)[i],
        ) by {
            assert(s.subrange(0, from)[i + 1] == rest[i]);
        }
        lemma_trim_start_cuts(rest, from - 1);
    }
}

/// `trim_end` cuts behind the last character that is no white space.
pub proof fn lemma_trim_end_cuts(s: Seq<char>, to: int)
    requires
        0 <= to <= s.len(),
        all_white_space(s.subrange(to, s.len() as int)),
        0 < to ==> !is_white_space(s[to - 1]),
    ensures
        trim_end(s) == s.subrange(0, to),
    decreases s.len() - to,
{
    if to < s.len() {
        let tail = s.subrange(to, s.len() as int);
        assert(tail[tail.len() - 1] == s.last());
        let rest = s.drop_last();
        assert forall|i: int| 0 <= i < rest.len() - to implies is_white_space(
            #[trigger] rest.subrange(to, rest.len() as int)[i],
        ) by {
            assert(tail[i] == rest[to + i]);
        }
        lemma_trim_end_cuts(rest, to);
    }
}

/// Trimming leaves nothing exactly when there was nothing but white space.
pub proof fn lemma_trimmed_empty(s: Seq<char>)
    ensures
        trimmed(s).len() == 0 <==> all_white_space(s),
    decreases s.len(),
{
    if s.len() > 0 && is_white_space(s.first()) {
        let rest = s.drop_first();
        lemma_trimmed_empty(rest);
        if all_white_space(rest) {
            assert forall|i: int| 0 <= i < s.len() implies is_white_space(#[trigger] s[i]) by {
                if i > 0 {
                    assert(rest[i - 1] == s[i]);
                }
            }
        }
    } else if s.len() > 0 {
        lemma_trim_end_keeps_first(s);
    }
}

/// `trim_end` leaves a sequence that starts with other than white space
/// non-empty.
proof fn lemma_trim_end_keeps_first(s: Seq<char>)
    requires
        s.len() > 0,
        !is_white_space(s.first()),
    ensures
        trim_end(s).len() > 0,
    decreases s.len(),
{
    if is_white_space(s.last()) {
        lemma_trim_end_keeps_first(s.drop_last());
    }
}

/// What `trim_start` leaves does not start with white space.
pub proof fn lemma_trim_start_is_clean(s: Seq<char>)
    ensures
        trim_start(s).len() > 0 ==> !is_white_space(trim_start(s).first()),
    decreases s.len(),
{
    if s.len() > 0 && is_white_space(s.first()) {
        lemma_trim_start_is_clean(s.drop_first());
    }
}

/// What `trim_end` leaves is the front of what it was given and does not end
/// with white space.
pub proof fn lemma_trim_end_is_clean(s: Seq<char>)
    ensures
        trim_end(s).len() <= s.len(),
        trim_end(s) == s.subrange(0, trim_end(s).len() as int),
        trim_end(s).len() > 0 ==> !is_white_space(trim_end(s).last()),
    decreases s.len(),
{
    if s.len() > 0 && is_white_space(s.last()) {
        let rest = s.drop_last();
        lemma_trim_end_is_clean(rest);
        assert(rest.subrange(0, trim_end(rest).len() as int) =~= s.subrange(
            0,
            trim_end(rest).len() as int,
        ));
    }
}

/// What trimming leaves neither starts nor ends with white space, and
/// trimming it again changes nothing.
pub proof fn lemma_trimmed_is_clean(s: Seq<char>)
    ensures
        trimmed(s).len() > 0 ==> !is_white_space(trimmed(s).first()) && !is_white_space(
            trimmed(s).last(),
        ),
        trimmed(trimmed(s)) == trimmed(s),
{
    let front = trim_start(s);
    lemma_trim_start_is_clean(s);
    lemma_trim_end_is_clean(front);
}

/// Tells whether `c` is white space.
pub fn is_whitespace(c: char) -> (b: bool)
    ensures
        b == is_white_space(c),
{
    let n: u32 = c as u32;
    (0x09 <= n && n <= 0x0D) || n == 0x20 || n == 0x85 || n == 0xA0 || n == 0x1680 || (0x2000 <= n
        && n <= 0x200A) || n == 0x2028 || n == 0x2029 || n == 0x202F || n == 0x205F || n == 0x3000
}

/// The characters of `s`, in order.
fn chars_of(s: &str) -> (v: Vec<char>)
    ensures
        v@ == s@,
{
    let mut v: Vec<char> = Vec::new();
    for c in it: s.chars()
        invariant
            v@ == it.seq().take(it.index() as int),
            it.seq() == s@,
    {
        v.push(c);
    }
    v
}

/// A copy of `s` without the white space at either end.
pub fn trim(s: &str) -> (r: String)
    ensures
        r@ == trimmed(s@),
{
    let chars = chars_of(s);
    let n: usize = chars.len();
    let mut from: usize = 0;
    while from < n && is_whitespace(chars[from])
        invariant
            from <= n == chars@.len(),
            all_white_space(chars@.subrange(0, from as int)),
        decreases n - from,
    {
        from += 1;
    }
    let mut to: usize = n;
    while to > from && is_whitespace(chars[to - 1])
        invariant
            from <= to <= n == chars@.len(),
            all_white_space(chars@.subrange(to as int, n as int)),
        decreases to,
    {
        proof {
            let before = chars@.subrange(to as int, n as int);
            let after = chars@.subrange(to - 1, n as int);
            assert forall|i: int| 0 <= i < after.len() implies is_white_space(
                #[trigger] after[i],
            ) by {
                if i > 0 {
                    assert(before[i - 1] == after[i]);
                }
            }
        }
        to -= 1;
    }
    proof {
        let kept = chars@.subrange(from as int, n as int);
        lemma_trim_start_cuts(chars@, from as int);
        assert(kept.subrange(to - from, kept.len() as int) =~= chars@.subrange(
            to as int,
            n as int,
        ));
        lemma_trim_end_cuts(kept, to - from);
    }
    let mut r = String::new();
    let mut i: usize = from;
    while i < to
        invariant
            from <= i <= to <= chars@.len(),
            r@ == chars@.subrange(from as int, i as int),
        decreases to - i,
    {
        r.push(chars[i]);
        i += 1;
    }
    r
}

} // verus!
