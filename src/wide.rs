use vstd::prelude::*;

verus! {

/// What `String::from_utf16_lossy` makes of a sequence of UTF-16 code units:
/// the decoded text, with each ill-formed unit replaced by U+FFFD.
pub uninterp spec fn utf16_lossy(units: Seq<u16>) -> Seq<char>;

/// `n` is the position of the first NUL unit of `w`, or the length of `w`
/// when it holds none.
pub open spec fn terminator_at(w: Seq<u16>, n: int) -> bool {
    &&& 0 <= n <= w.len()
    &&& forall|i: int| 0 <= i < n ==> w[i] != 0
    &&& (n == w.len() || w[n] == 0)
}

/// The code units of a NUL-terminated wide string, up to its terminator.
pub open spec fn units_before_terminator(w: Seq<u16>) -> Seq<u16> {
    w.take(choose|n: int| terminator_at(w, n))
}

/// The text that a NUL-terminated wide string holds.
pub open spec fn wide_text(w: Seq<u16>) -> Seq<char> {
    utf16_lossy(units_before_terminator(w))
}

proof fn lemma_terminator_unique(w: Seq<u16>, n: int)
    requires
        terminator_at(w, n),
    ensures
        units_before_terminator(w) == w.take(n),
{
    let m = choose|m: int| terminator_at(w, m);
    assert(terminator_at(w, m));
    if m < n {
        assert(w[m] != 0);
    } else if n < m {
        assert(w[n] != 0);
    }
}

/// Relies on `String::from_utf16_lossy`: decodes UTF-16 code units, replacing
/// ill-formed ones rather than failing.
#[verifier::external_body]
fn decode_utf16_lossy(units: &[u16]) -> (r: String)
    ensures
        r@ == utf16_lossy(units@),
{
    String::from_utf16_lossy(units)
}

/// Decodes a fixed-size, NUL-terminated wide-character buffer, dropping the
/// terminator and everything after it.
pub fn wide_string_to_string(wide: &[u16]) -> (r: String)
    ensures
        r@ == wide_text(wide@),
{
    let mut units: Vec<u16> = Vec::new();
    let mut i: usize = 0;
    while i < wide.len() && wide[i] != 0
        invariant
            i <= wide.len(),
            units@ == wide@.take(i as int),
            forall|j: int| 0 <= j < i ==> wide@[j] != 0,
        decreases wide.len() - i,
    {
        units.push(wide[i]);
        i = i + 1;
        assert(units@ =~= wide@.take(i as int));
    }
    proof {
        lemma_terminator_unique(wide@, i as int);
    }
    decode_utf16_lossy(units.as_slice())
}

} // verus!
