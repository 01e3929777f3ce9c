//! The title-rotation engine: a left rotation of a character sequence,
//! followed by an optional truncation.

use vstd::prelude::*;

verus! {

/// Slider position of the truncation slider that means "no truncation".
pub const TRUNCATION_MAX: u32 = 30;

/// The sequence `s` turned left by `k` positions: the first `k` characters
/// move to the back. Meaningful for `0 <= k <= s.len()`.
pub open spec fn rotl(s: Seq<char>, k: int) -> Seq<char> {
    s.subrange(k, s.len() as int) + s.subrange(0, k)
}

/// The offset actually applied to a text of `len` characters: the counter
/// taken modulo the length, with a length of at least one.
pub open spec fn effective_offset_spec(offset: nat, len: nat) -> nat {
    if len == 0 { 0 } else { offset % len }
}

/// How many characters of a rotated text of `len` characters are kept.
pub open spec fn kept_len(truncation: nat, len: nat) -> nat {
    if truncation == TRUNCATION_MAX as nat || truncation >= len { len } else { truncation }
}

/// The first characters of `s` that stay under the truncation setting.
pub open spec fn truncated(s: Seq<char>, truncation: nat) -> Seq<char> {
    s.take(kept_len(truncation, s.len()) as int)
}

/// `s` turned left by its rotation counter `offset`, taken modulo the length.
pub open spec fn rotated(s: Seq<char>, offset: nat) -> Seq<char> {
    rotl(s, effective_offset_spec(offset, s.len()) as int)
}

/// The title shown for `text` at rotation counter `offset` and truncation
/// setting `truncation`.
pub open spec fn title_of(text: Seq<char>, offset: nat, truncation: nat) -> Seq<char> {
    truncated(rotated(text, offset), truncation)
}

/// `offset mod max(1, len)`.
pub fn effective_offset(offset: usize, len: usize) -> (r: usize)
    ensures
        r == effective_offset_spec(offset as nat, len as nat),
        r < if len == 0 { 1 } else { len },
{
    if len == 0 {
        0
    } else {
        offset % len
    }
}

/// Turns `chars` left by `k` positions.
pub fn rotate_left(chars: &Vec<char>, k: usize) -> (r: Vec<char>)
    requires
        k <= chars.len(),
    ensures
        r@ == rotl(chars@, k as int),
{
    let n = chars.len();
    let mut r: Vec<char> = Vec::with_capacity(n);
    let mut i: usize = k;
    while i < n
        invariant
            k <= i <= n == chars.len(),
            r@ == chars@.subrange(k as int, i as int),
        decreases n - i,
    {
        r.push(chars[i]);
        i = i + 1;
    }
    let mut j: usize = 0;
    while j < k
        invariant
            j <= k <= n == chars.len(),
            r@ == chars@.subrange(k as int, n as int) + chars@.subrange(0, j as int),
        decreases k - j,
    {
        r.push(chars[j]);
        j = j + 1;
    }
    r
}

/// Keeps the first characters of `chars` as the truncation setting asks:
/// all of them at `TRUNCATION_MAX`, else at most `truncation`.
pub fn truncate(chars: &Vec<char>, truncation: u32) -> (r: Vec<char>)
    ensures
        r@ == truncated(chars@, truncation as nat),
{
    let n = chars.len();
    let keep: usize = if truncation == TRUNCATION_MAX || truncation as usize >= n {
        n
    } else {
        truncation as usize
    };
    let mut r: Vec<char> = Vec::with_capacity(keep);
    let mut i: usize = 0;
    while i < keep
        invariant
            i <= keep <= n == chars.len(),
            keep == kept_len(truncation as nat, n as nat),
            r@ == chars@.take(i as int),
        decreases keep - i,
    {
        r.push(chars[i]);
        i = i + 1;
    }
    r
}

/// Turns `chars` left by the rotation counter `offset`, taken modulo the
/// length (an empty sequence stays empty).
pub fn rotate(chars: &Vec<char>, offset: usize) -> (r: Vec<char>)
    ensures
        r@ == rotated(chars@, offset as nat),
{
    let k = effective_offset(offset, chars.len());
    rotate_left(chars, k)
}

/// The title for `text` at rotation counter `offset` under the truncation
/// setting `truncation`.
pub fn title(text: &str, offset: usize, truncation: u32) -> (r: Vec<char>)
    ensures
        r@ == title_of(text@, offset as nat, truncation as nat),
{
    let chars = chars_of(text);
    let turned = rotate(&chars, offset);
    truncate(&turned, truncation)
}

/// Turning a non-empty text by `offset` and then by its length minus
/// `offset` modulo the length gives the text back.
pub proof fn lemma_rotate_round_trip(s: Seq<char>, offset: nat)
    requires
        s.len() > 0,
    ensures
        rotated(rotated(s, offset), (s.len() - offset % s.len()) as nat) == s,
{
    let n = s.len();
    let k = offset % n;
    let t = rotated(s, offset);
    assert(t.len() == n);
    let back = ((n - k) as nat) % n;
    if k == 0 {
        assert(back == 0) by (nonlinear_arith)
            requires back == ((n - k) as nat) % n, k == 0, n > 0;
        assert(rotated(t, (n - k) as nat) =~= t);
        assert(t =~= s);
    } else {
        assert(back == n - k) by (nonlinear_arith)
            requires back == ((n - k) as nat) % n, 0 < k < n;
        assert(rotated(t, (n - k) as nat) =~= s);
    }
}

/// At the sentinel setting the whole text is kept.
pub proof fn lemma_truncate_sentinel(s: Seq<char>)
    ensures
        truncated(s, TRUNCATION_MAX as nat) == s,
{
    assert(truncated(s, TRUNCATION_MAX as nat) =~= s);
}

/// Any other setting `n` below the length keeps exactly the first `n`
/// characters.
pub proof fn lemma_truncate_prefix(s: Seq<char>, n: nat)
    requires
        n < s.len(),
        n != TRUNCATION_MAX,
    ensures
        truncated(s, n) == s.take(n as int),
        truncated(s, n).len() == n,
{
}

/// The characters of `s`, in order.
pub fn chars_of(s: &str) -> (r: Vec<char>)
    ensures
        r@ == s@,
{
    let mut r: Vec<char> = Vec::new();
    for c in it: s.chars()
        invariant
            r@ == it.seq().take(it.index() as int),
    {
        r.push(c);
    }
    r
}

} // verus!
