//! Choice of the output encoding from a caller's `Accept` preference.
use vstd::prelude::*;

verus! {

/// MIME type of PNG output.
pub const MIME_PNG: &'static str = "image/png";

/// MIME type of WebP output.
pub const MIME_WEBP: &'static str = "image/webp";

/// MIME type announced for JPEG output.
pub const MIME_JPG: &'static str = "image/jpg";

/// The encoder selected for a reply.
#[derive(Clone, Copy, Debug, PartialEq, Eq, Structural)]
pub enum OutputFormat {
    Png,
    WebP,
    Jpeg,
}

/// `p` occurs in `s` as a contiguous run of characters.
pub open spec fn contains_seq(s: Seq<char>, p: Seq<char>) -> bool {
    exists|i: int| 0 <= i && i + p.len() <= s.len() && #[trigger] s.subrange(i, i + p.len()) == p
}

/// First match wins: PNG, then WebP, then JPEG as the default.
pub open spec fn negotiated(accept: Seq<char>) -> OutputFormat {
    if contains_seq(accept, MIME_PNG@) {
        OutputFormat::Png
    } else if contains_seq(accept, MIME_WEBP@) {
        OutputFormat::WebP
    } else {
        OutputFormat::Jpeg
    }
}

/// The content type announced for a format.
pub open spec fn mime_of(f: OutputFormat) -> Seq<char> {
    match f {
        OutputFormat::Png => MIME_PNG@,
        OutputFormat::WebP => MIME_WEBP@,
        OutputFormat::Jpeg => MIME_JPG@,
    }
}

impl OutputFormat {
    /// The content type to announce for this format.
    pub fn mime_type(&self) -> (r: &'static str)
        ensures
            r@ == mime_of(*self),
    {
        match self {
            OutputFormat::Png => MIME_PNG,
            OutputFormat::WebP => MIME_WEBP,
            OutputFormat::Jpeg => MIME_JPG,
        }
    }
}

/// Whenever the preference names `image/png`, the reply is PNG, whatever else
/// it names.
pub proof fn lemma_png_wins(accept: Seq<char>)
    requires
        contains_seq(accept, MIME_PNG@),
    ensures
        negotiated(accept) == OutputFormat::Png,
        mime_of(negotiated(accept)) == MIME_PNG@,
{
}

/// Whenever the preference names `image/webp` and not `image/png`, the reply
/// is WebP.
pub proof fn lemma_webp_second(accept: Seq<char>)
    requires
        contains_seq(accept, MIME_WEBP@),
        !contains_seq(accept, MIME_PNG@),
    ensures
        negotiated(accept) == OutputFormat::WebP,
        mime_of(negotiated(accept)) == MIME_WEBP@,
{
}

/// Whenever the preference names neither, the reply is JPEG, announced as
/// `image/jpg`; an empty preference names neither.
pub proof fn lemma_jpeg_default(accept: Seq<char>)
    requires
        !contains_seq(accept, MIME_WEBP@),
        !contains_seq(accept, MIME_PNG@),
    ensures
        negotiated(accept) == OutputFormat::Jpeg,
        mime_of(negotiated(accept)) == MIME_JPG@,
        mime_of(negotiated(Seq::empty())) == MIME_JPG@,
{
    reveal_strlit("image/png");
    reveal_strlit("image/webp");
    assert(!contains_seq(Seq::<char>::empty(), MIME_PNG@));
    assert(!contains_seq(Seq::<char>::empty(), MIME_WEBP@));
}

/// The characters of `s`, one element each.
fn chars_of(s: &str) -> (r: Vec<char>)
    ensures
        r@ == s@,
{
    let n = s.unicode_len();
    let mut r: Vec<char> = Vec::new();
    let mut i: usize = 0;
    while i < n
        invariant
            n == s@.len(),
            i <= n,
            r@ == s@.subrange(0, i as int),
        decreases n - i,
    {
        r.push(s.get_char(i));
        i = i + 1;
    }
    r
}

/// Whether `pat` occurs in `hay` at position `at`.
fn occurs_at(hay: &Vec<char>, pat: &Vec<char>, at: usize) -> (r: bool)
    requires
        at + pat@.len() <= hay@.len(),
    ensures
        r == (hay@.subrange(at as int, at + pat@.len()) == pat@),
{
    let hl = hay.len();
    let mut k: usize = 0;
    while k < pat.len()
        invariant
            hl == hay@.len(),
            at + pat@.len() <= hay@.len(),
            k <= pat@.len(),
            forall|j: int| 0 <= j < k ==> hay@[at + j] == pat@[j],
        decreases pat@.len() - k,
    {
        if hay[at + k] != pat[k] {
            assert(hay@.subrange(at as int, at + pat@.len())[k as int] != pat@[k as int]);
            return false;
        }
        k = k + 1;
    }
    assert(hay@.subrange(at as int, at + pat@.len()) =~= pat@);
    true
}

/// Substring containment: whether `pat` occurs anywhere in `hay`.
pub fn contains_str(hay: &str, pat: &str) -> (r: bool)
    ensures
        r == contains_seq(hay@, pat@),
{
    let h = chars_of(hay);
    let p = chars_of(pat);
    if p.len() > h.len() {
        return false;
    }
    let last = h.len() - p.len();
    let mut i: usize = 0;
    loop
        invariant
            h@ == hay@,
            p@ == pat@,
            i <= last,
            last + p@.len() == h@.len(),
            forall|j: int| 0 <= j < i ==> #[trigger] h@.subrange(j, j + p@.len()) != p@,
        decreases last - i,
    {
        if occurs_at(&h, &p, i) {
            return true;
        }
        if i == last {
            return false;
        }
        i = i + 1;
    }
}

/// Selects the encoder for an `Accept` preference: `image/png` anywhere wins,
/// then `image/webp`, and JPEG otherwise (also for an empty preference).
pub fn negotiate(accept: &str) -> (r: OutputFormat)
    ensures
        r == negotiated(accept@),
{
    if contains_str(accept, MIME_PNG) {
        OutputFormat::Png
    } else if contains_str(accept, MIME_WEBP) {
        OutputFormat::WebP
    } else {
        OutputFormat::Jpeg
    }
}

} // verus!
