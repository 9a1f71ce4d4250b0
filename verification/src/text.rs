use vstd::prelude::*;

verus! {

/// `a - b`, or `0` where `b` exceeds `a` (the model of `usize::saturating_sub`).
pub open spec fn sat_sub(a: int, b: int) -> nat {
    if a >= b {
        (a - b) as nat
    } else {
        0
    }
}

/// `unit` written `n` times in a row.
pub open spec fn repeat(unit: Seq<char>, n: nat) -> Seq<char>
    decreases n,
{
    if n == 0 {
        Seq::empty()
    } else {
        repeat(unit, (n - 1) as nat) + unit
    }
}

/// `n` blanks.
pub open spec fn spaces(n: nat) -> Seq<char> {
    repeat(seq![' '], n)
}

/// `s` followed by blanks up to `width` characters; `s` itself where it is already that wide.
pub open spec fn pad_right(s: Seq<char>, width: nat) -> Seq<char> {
    if s.len() < width {
        s + spaces((width - s.len()) as nat)
    } else {
        s
    }
}

/// The three dots that mark a shortened text.
pub open spec fn ellipsis() -> Seq<char> {
    seq!['.', '.', '.']
}

/// `s` shortened to `max_len` characters: when it is longer, its first `max_len - 3`
/// characters followed by three dots; otherwise `s` unchanged.
pub open spec fn spec_truncate(s: Seq<char>, max_len: nat) -> Seq<char> {
    if s.len() > max_len {
        s.take(max_len - 3) + ellipsis()
    } else {
        s
    }
}

/// A text can be shortened to `max_len` when it fits already or leaves room for the dots.
pub open spec fn truncatable(s: Seq<char>, max_len: nat) -> bool {
    s.len() > max_len ==> max_len >= 3
}

pub proof fn lemma_repeat_len(unit: Seq<char>, n: nat)
    requires
        unit.len() == 1,
    ensures
        repeat(unit, n).len() == n,
        forall|i: int| 0 <= i < n ==> #[trigger] repeat(unit, n)[i] == unit[0],
    decreases n,
{
    if n > 0 {
        lemma_repeat_len(unit, (n - 1) as nat);
        assert forall|i: int| 0 <= i < n implies #[trigger] repeat(unit, n)[i] == unit[0] by {
            if i < n - 1 {
                assert(repeat(unit, n)[i] == repeat(unit, (n - 1) as nat)[i]);
            }
        }
    }
}

/// Character-wise equality of two string slices.
pub fn chars_eq(a: &str, b: &str) -> (r: bool)
    ensures
        r == (a@ == b@),
{
    let n = a.unicode_len();
    if n != b.unicode_len() {
        return false;
    }
    let mut i: usize = 0;
    while i < n
        invariant
            n == a@.len(),
            n == b@.len(),
            i <= n,
            forall|j: int| 0 <= j < i ==> a@[j] == b@[j],
        decreases n - i,
    {
        if a.get_char(i) != b.get_char(i) {
            return false;
        }
        i = i + 1;
    }
    assert(a@ =~= b@);
    true
}

/// `unit` written `n` times in a row (the counterpart of `str::repeat`).
pub fn repeat_str(unit: &str, n: usize) -> (r: String)
    ensures
        r@ == repeat(unit@, n as nat),
{
    let mut r = String::new();
    let mut i: usize = 0;
    while i < n
        invariant
            i <= n,
            r@ == repeat(unit@, i as nat),
        decreases n - i,
    {
        r.append(unit);
        i = i + 1;
    }
    r
}

/// `n` blanks.
pub fn spaces_str(n: usize) -> (r: String)
    ensures
        r@ == spaces(n as nat),
        r@.len() == n,
{
    proof {
        reveal_strlit(" ");
        lemma_repeat_len(seq![' '], n as nat);
    }
    assert(" "@ =~= seq![' ']);
    repeat_str(" ", n)
}

/// `s` followed by blanks up to `width` characters, as `format!("{:<width$}", s)` writes it.
pub fn pad_right_str(s: &str, width: usize) -> (r: String)
    ensures
        r@ == pad_right(s@, width as nat),
{
    let len = s.unicode_len();
    let mut r = s.to_owned();
    if len < width {
        let pad = spaces_str(width - len);
        r.append(pad.as_str());
    }
    r
}

/// Shortens `s` to `max_len` characters: a longer text keeps its first `max_len - 3`
/// characters and gets three dots appended; a text that fits is returned unchanged.
pub fn truncate(s: &str, max_len: usize) -> (r: String)
    requires
        truncatable(s@, max_len as nat),
    ensures
        r@ == spec_truncate(s@, max_len as nat),
        s@.len() > max_len ==> r@.len() == max_len && r@.subrange(0, max_len - 3) == s@.take(
            max_len - 3,
        ),
        s@.len() > max_len ==> r@.subrange(max_len - 3, max_len as int) == seq!['.', '.', '.'],
        s@.len() <= max_len ==> r@ == s@,
{
    proof {
        lemma_truncate_shape(s@, max_len as nat);
    }
    if s.unicode_len() > max_len {
        let head = s.substring_char(0, max_len - 3);
        let mut r = head.to_owned();
        r.append("...");
        proof {
            reveal_strlit("...");
            assert("..."@ =~= ellipsis());
            assert(r@.subrange(0, max_len - 3) =~= s@.take(max_len - 3));
        }
        assert(r@ =~= s@.take(max_len - 3) + ellipsis());
        r
    } else {
        s.to_owned()
    }
}

/// Shortening twice to the same length gives what shortening once gives.
pub proof fn lemma_truncate_idempotent(s: Seq<char>, max_len: nat)
    requires
        truncatable(s, max_len),
    ensures
        truncatable(spec_truncate(s, max_len), max_len),
        spec_truncate(spec_truncate(s, max_len), max_len) == spec_truncate(s, max_len),
{
}

/// A shortened text is never longer than the limit or the text itself.
pub proof fn lemma_truncate_len(s: Seq<char>, max_len: nat)
    requires
        truncatable(s, max_len),
    ensures
        spec_truncate(s, max_len).len() == if s.len() > max_len { max_len } else { s.len() },
        spec_truncate(s, max_len).len() <= max_len || spec_truncate(s, max_len) == s,
{
}

/// What shortening does, in terms of the text alone: a text longer than the limit becomes
/// exactly `max_len` characters, its own first `max_len - 3` characters followed by three dots;
/// a text within the limit is kept whole.
pub proof fn lemma_truncate_shape(s: Seq<char>, max_len: nat)
    requires
        truncatable(s, max_len),
    ensures
        s.len() > max_len ==> {
            let r = spec_truncate(s, max_len);
            &&& r.len() == max_len
            &&& r.subrange(0, max_len - 3) == s.subrange(0, max_len - 3)
            &&& r.subrange(max_len - 3, max_len as int) == seq!['.', '.', '.']
        },
        s.len() <= max_len ==> spec_truncate(s, max_len) == s,
{
    if s.len() > max_len {
        let r = spec_truncate(s, max_len);
        assert(r.subrange(0, max_len - 3) =~= s.subrange(0, max_len - 3));
        assert(r.subrange(max_len - 3, max_len as int) =~= seq!['.', '.', '.']);
    }
}

} // verus!
