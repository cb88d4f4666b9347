//! Text held in fixed-size native buffers, and space-separated name lists.
use vstd::prelude::*;
use vstd::slice::slice_subrange;
use vstd::string::StrSliceExecFns;
use vstd::utf8::{decode_utf8, valid_utf8};

verus! {

/// The text that `String::from_utf8_lossy` makes of a byte sequence.
pub uninterp spec fn lossy_text(bytes: Seq<u8>) -> Seq<char>;

/// Relies on `String::from_utf8_lossy`: the text depends on the bytes alone,
/// and bytes that are valid UTF-8 are decoded unchanged.
#[verifier::external_body]
fn text_from_bytes(bytes: &[u8]) -> (r: String)
    ensures
        r@ == lossy_text(bytes@),
        valid_utf8(bytes@) ==> r@ == decode_utf8(bytes@),
{
    String::from_utf8_lossy(bytes).into_owned()
}

/// `n` is the position of the first null byte of `buf`.
pub open spec fn is_terminator_at(buf: Seq<u8>, n: int) -> bool {
    &&& 0 <= n < buf.len()
    &&& buf[n] == 0
    &&& forall|j: int| 0 <= j < n ==> buf[j] != 0
}

/// `buf` holds a null byte.
pub open spec fn is_terminated(buf: Seq<u8>) -> bool {
    exists|n: int| is_terminator_at(buf, n)
}

/// The bytes of `buf` before its first null byte.
pub open spec fn terminated_bytes(buf: Seq<u8>) -> Seq<u8>
    recommends
        is_terminated(buf),
{
    buf.take(choose|n: int| is_terminator_at(buf, n))
}

/// The text a null-terminated fixed-size buffer holds; `None` when no null
/// byte ends it within the buffer.
pub open spec fn fixed_text(buf: Seq<u8>) -> Option<Seq<char>> {
    if is_terminated(buf) {
        Some(lossy_text(terminated_bytes(buf)))
    } else {
        None
    }
}

/// A buffer has at most one first null byte.
pub proof fn lemma_terminator_unique(buf: Seq<u8>, a: int, b: int)
    requires
        is_terminator_at(buf, a),
        is_terminator_at(buf, b),
    ensures
        a == b,
{
    if a < b {
        assert(buf[a] != 0);
    } else if b < a {
        assert(buf[b] != 0);
    }
}

/// Finds the first null byte of `buf`.
pub fn terminator_position(buf: &[u8]) -> (r: Option<usize>)
    ensures
        match r {
            Some(n) => is_terminator_at(buf@, n as int),
            None => !is_terminated(buf@),
        },
{
    let mut i: usize = 0;
    while i < buf.len()
        invariant
            i <= buf@.len(),
            forall|j: int| 0 <= j < i ==> buf@[j] != 0,
        decreases buf@.len() - i,
    {
        if buf[i] == 0 {
            return Some(i);
        }
        i = i + 1;
    }
    None
}

/// Reads the null-terminated text of a fixed-size buffer. A buffer without a
/// null byte is malformed and gives `None`; nothing past the buffer is read.
pub fn decode_fixed_text(buf: &[u8]) -> (r: Option<String>)
    ensures
        match r {
            Some(s) => fixed_text(buf@) == Some(s@),
            None => fixed_text(buf@) is None,
        },
{
    match terminator_position(buf) {
        Some(n) => {
            let text = slice_subrange(buf, 0, n);
            let s = text_from_bytes(text);
            proof {
                let m = choose|m: int| is_terminator_at(buf@, m);
                lemma_terminator_unique(buf@, m, n as int);
                assert(text@ =~= terminated_bytes(buf@));
            }
            Some(s)
        },
        None => None,
    }
}

/// The words of `s`: its maximal runs of characters other than a space, in
/// order. Runs of spaces, and spaces at either end, separate nothing.
pub open spec fn words(s: Seq<char>) -> Seq<Seq<char>>
    decreases s.len(),
{
    if s.len() == 0 {
        Seq::empty()
    } else {
        let rest = words(s.drop_last());
        let c = s.last();
        if c == ' ' {
            rest
        } else if s.len() >= 2 && s[s.len() - 2] != ' ' {
            rest.update(rest.len() - 1, rest.last().push(c))
        } else {
            rest.push(seq![c])
        }
    }
}

/// Splits a space-separated list of names into its names.
pub fn split_names(s: &str) -> (r: Vec<String>)
    ensures
        r.deep_view() == words(s@),
{
    let n = s.unicode_len();
    let mut out: Vec<String> = Vec::new();
    let mut start: usize = 0;
    let mut i: usize = 0;
    while i < n
        invariant
            n == s@.len(),
            start <= i <= n,
            start == i ==> i == 0 || s@[i - 1] == ' ',
            start < i ==> s@[i - 1] != ' ' && (start == 0 || s@[start - 1] == ' '),
            forall|j: int| start <= j < i ==> s@[j] != ' ',
            words(s@.take(i as int)) == if start < i {
                out.deep_view().push(s@.subrange(start as int, i as int))
            } else {
                out.deep_view()
            },
        decreases n - i,
    {
        let c = s.get_char(i);
        let ghost t = s@.take(i as int + 1);
        assert(t.drop_last() =~= s@.take(i as int));
        assert(t.last() == c);
        if c == ' ' {
            if start < i {
                let ghost prev = out.deep_view();
                let word = s.substring_char(start, i).to_owned();
                out.push(word);
                assert(out.deep_view() =~= prev.push(s@.subrange(start as int, i as int)));
            }
            start = i + 1;
        } else {
            proof {
                if start < i {
                    assert(t[t.len() - 2] == s@[i - 1]);
                    assert(s@.subrange(start as int, i as int + 1) =~= s@.subrange(
                        start as int,
                        i as int,
                    ).push(c));
                } else {
                    assert(s@.subrange(start as int, i as int + 1) =~= seq![c]);
                }
            }
        }
        i = i + 1;
    }
    assert(s@.take(n as int) =~= s@);
    if start < n {
        let ghost prev = out.deep_view();
        let word = s.substring_char(start, n).to_owned();
        out.push(word);
        assert(out.deep_view() =~= prev.push(s@.subrange(start as int, n as int)));
    }
    out
}

} // verus!
