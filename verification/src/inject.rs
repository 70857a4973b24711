//! Text clean-up before it is pasted at the cursor.
use vstd::prelude::*;
use crate::text::{chars_of, trim_bounds, trimmed, is_white_space};

verus! {

broadcast use vstd::string::group_string_axioms;

/// Normalize raw ASR output before insertion: white space is trimmed from
/// both ends.
pub fn normalize(raw: &str) -> (r: String)
    ensures
        r@ == trimmed(raw@),
{
    let cs = chars_of(raw);
    let (start, end) = trim_bounds(&cs);
    raw.substring_char(start, end).to_owned()
}

/// The text to paste for a transcription: its normalized form, or nothing
/// when that is empty (an empty transcription pastes nothing and leaves the
/// clipboard alone).
pub fn paste_text(text: &str) -> (r: Option<String>)
    ensures
        trimmed(text@).len() == 0 ==> r is None,
        trimmed(text@).len() > 0 ==> (r matches Some(t) && t@ == trimmed(text@)),
{
    let t = normalize(text);
    if t.as_str().is_empty() {
        None
    } else {
        Some(t)
    }
}

/// Normalizing twice is the same as normalizing once, and normalized text
/// never starts or ends with white space.
pub proof fn normalize_is_stable(raw: Seq<char>)
    ensures
        trimmed(trimmed(raw)) == trimmed(raw),
        trimmed(raw).len() > 0 ==> !is_white_space(trimmed(raw)[0]) && !is_white_space(
            trimmed(raw).last(),
        ),
{
    crate::text::trimmed_is_idempotent(raw);
    crate::text::lemma_trimmed_edges(raw);
}

} // verus!
