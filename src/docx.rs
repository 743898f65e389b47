use vstd::prelude::*;

use crate::extract::ExtractError;
use crate::text::{chars_of, string_from_chars};

verus! {

/// Whether the opening of a text run, `<w:t`, starts at position `i` of `s`.
pub open spec fn tag_at(s: Seq<char>, i: int) -> bool {
    &&& 0 <= i
    &&& i + 4 <= s.len()
    &&& s[i] == '<'
    &&& s[i + 1] == 'w'
    &&& s[i + 2] == ':'
    &&& s[i + 3] == 't'
}

/// The first position at or after `i` where `<w:t` starts, or `s.len()` if there is none.
pub open spec fn first_tag(s: Seq<char>, i: int) -> int
    decreases s.len() - i,
{
    if i < 0 || i + 4 > s.len() {
        s.len() as int
    } else if tag_at(s, i) {
        i
    } else {
        first_tag(s, i + 1)
    }
}

/// The first position in `[i, hi)` that holds `ch`, or `hi` if there is none.
pub open spec fn first_char(s: Seq<char>, ch: char, i: int, hi: int) -> int
    decreases hi - i,
{
    if i >= hi {
        hi
    } else if s[i] == ch {
        i
    } else {
        first_char(s, ch, i + 1, hi)
    }
}

/// The text carried by the piece `s[lo..hi]` that follows a `<w:t`: what lies
/// between the first `>` and the next `<`; empty when either is missing.
pub open spec fn piece_text(s: Seq<char>, lo: int, hi: int) -> Seq<char> {
    let g = first_char(s, '>', lo, hi);
    if g >= hi {
        Seq::empty()
    } else {
        let l = first_char(s, '<', g + 1, hi);
        if l >= hi {
            Seq::empty()
        } else {
            s.subrange(g + 1, l)
        }
    }
}

/// The texts of the pieces from position `i` on, where `i` is just past a
/// `<w:t`, joined by single spaces.
pub open spec fn texts_from(s: Seq<char>, i: int) -> Seq<char>
    decreases s.len() - i,
{
    let j = first_tag(s, i);
    if 0 <= i <= j && j + 4 <= s.len() {
        piece_text(s, i, j) + seq![' '] + texts_from(s, j + 4)
    } else {
        piece_text(s, i, s.len() as int)
    }
}

/// The text of a WordprocessingML body: the document is cut at every `<w:t`,
/// the part before the first cut is dropped, each remaining piece contributes
/// its `piece_text`, and these are joined by single spaces.
pub open spec fn document_text(s: Seq<char>) -> Seq<char> {
    let j = first_tag(s, 0);
    if j + 4 <= s.len() {
        texts_from(s, j + 4)
    } else {
        Seq::empty()
    }
}

proof fn lemma_first_tag(s: Seq<char>, i: int, k: int)
    requires
        0 <= i <= k <= s.len(),
        forall|m: int| i <= m < k ==> !tag_at(s, m),
        k + 4 > s.len() || tag_at(s, k),
    ensures
        first_tag(s, i) == if k + 4 > s.len() { s.len() as int } else { k },
    decreases k - i,
{
    if i < k {
        assert(!tag_at(s, i));
        if i + 4 <= s.len() {
            lemma_first_tag(s, i + 1, k);
        } else {
            assert(k + 4 > s.len());
        }
    }
}

proof fn lemma_first_char(s: Seq<char>, ch: char, i: int, hi: int, k: int)
    requires
        i <= k <= hi,
        forall|m: int| i <= m < k ==> s[m] != ch,
        k == hi || s[k] == ch,
    ensures
        first_char(s, ch, i, hi) == k,
    decreases k - i,
{
    if i < k {
        lemma_first_char(s, ch, i + 1, hi, k);
    }
}

/// Position of the first `<w:t` at or after `i`, or `s.len()`.
fn find_tag(s: &Vec<char>, i: usize) -> (r: usize)
    requires
        i <= s.len(),
    ensures
        r as int == first_tag(s@, i as int),
        i <= r <= s.len(),
        r < s.len() ==> r + 4 <= s.len() && tag_at(s@, r as int),
{
    let n = s.len();
    let mut k = i;
    while n - k >= 4
        invariant
            n == s.len(),
            i <= k <= n,
            forall|m: int| i <= m < k ==> !tag_at(s@, m),
        decreases n - k,
    {
        if s[k] == '<' && s[k + 1] == 'w' && s[k + 2] == ':' && s[k + 3] == 't' {
            proof {
                lemma_first_tag(s@, i as int, k as int);
            }
            return k;
        }
        k = k + 1;
    }
    proof {
        lemma_first_tag(s@, i as int, k as int);
    }
    n
}

/// Position of the first `ch` in `s[i..hi]`, or `hi`.
fn find_char(s: &Vec<char>, ch: char, i: usize, hi: usize) -> (r: usize)
    requires
        i <= hi <= s.len(),
    ensures
        r as int == first_char(s@, ch, i as int, hi as int),
        i <= r <= hi,
{
    let mut k = i;
    while k < hi && s[k] != ch
        invariant
            i <= k <= hi <= s.len(),
            forall|m: int| i <= m < k ==> s@[m] != ch,
        decreases hi - k,
    {
        k = k + 1;
    }
    proof {
        lemma_first_char(s@, ch, i as int, hi as int, k as int);
    }
    k
}

/// Appends the text of the piece `s[lo..hi]` to `out`.
fn push_piece_text(s: &Vec<char>, lo: usize, hi: usize, out: &mut Vec<char>)
    requires
        lo <= hi <= s.len(),
    ensures
        final(out)@ == old(out)@ + piece_text(s@, lo as int, hi as int),
{
    let g = find_char(s, '>', lo, hi);
    if g < hi {
        let l = find_char(s, '<', g + 1, hi);
        if l < hi {
            let ghost start = out@;
            let mut k = g + 1;
            while k < l
                invariant
                    g + 1 <= k <= l < hi <= s.len(),
                    out@ == start + s@.subrange(g + 1, k as int),
                decreases l - k,
            {
                out.push(s[k]);
                k = k + 1;
                assert(out@ =~= start + s@.subrange(g + 1, k as int));
            }
            return;
        }
    }
    assert(out@ =~= old(out)@ + piece_text(s@, lo as int, hi as int));
}

/// The text of the `<w:t>` runs of a WordprocessingML body, joined by spaces.
pub fn text_runs(xml: &Vec<char>) -> (r: Vec<char>)
    ensures
        r@ == document_text(xml@),
{
    let n = xml.len();
    let first = find_tag(xml, 0);
    let mut out: Vec<char> = Vec::new();
    if first == n {
        return out;
    }
    let mut i = first + 4;
    loop
        invariant
            n == xml.len(),
            i <= n,
            out@ + texts_from(xml@, i as int) == document_text(xml@),
        decreases n - i,
    {
        let j = find_tag(xml, i);
        let ghost before = out@;
        if j < n {
            push_piece_text(xml, i, j, &mut out);
            out.push(' ');
            assert(out@ + texts_from(xml@, j + 4) =~= before + texts_from(xml@, i as int));
            i = j + 4;
        } else {
            push_piece_text(xml, i, n, &mut out);
            assert(out@ =~= before + texts_from(xml@, i as int));
            return out;
        }
    }
}

/// What the archive held in `archive` stores under `name`, read as UTF-8
/// text; `None` when the bytes are no zip archive, the member is missing, or
/// it is not valid UTF-8.
pub uninterp spec fn archive_member_text(archive: Seq<u8>, name: Seq<char>) -> Option<Seq<char>>;

/// Relies on zip's `ZipArchive::new` and `ZipArchive::by_name`, and on std's
/// `Read::read_to_string` over the member they open: together they read one
/// member of an in-memory archive as text, and the outcome depends on the bytes
/// and the name alone.
#[verifier::external_body]
fn read_member(archive: &[u8], name: &str) -> (r: Option<String>)
    ensures
        r is Some <==> archive_member_text(archive@, name@) is Some,
        r is Some ==> archive_member_text(archive@, name@) == Some(r->0@),
{
    let mut zip = zip::ZipArchive::new(std::io::Cursor::new(archive)).ok()?;
    let mut member = zip.by_name(name).ok()?;
    let mut text = String::new();
    std::io::Read::read_to_string(&mut member, &mut text).ok()?;
    Some(text)
}

/// Name of the member of a DOCX package that holds the document body.
pub open spec fn body_part() -> Seq<char> {
    "word/document.xml"@
}

/// The text of a DOCX package held in `bytes`: the `<w:t>` runs of its body
/// part, joined by spaces. Fails with `MissingBody` when the bytes are no
/// archive or lack a readable body part.
pub fn read_docx_text(bytes: &[u8]) -> (r: Result<String, ExtractError>)
    ensures
        r is Ok <==> archive_member_text(bytes@, body_part()) is Some,
        r is Ok ==> r->Ok_0@ == document_text(archive_member_text(bytes@, body_part())->0),
        r is Err ==> r->Err_0 == ExtractError::MissingBody,
{
    proof {
        reveal_strlit("word/document.xml");
    }
    match read_member(bytes, "word/document.xml") {
        Some(xml) => {
            let chars = chars_of(xml.as_str());
            let text = text_runs(&chars);
            Ok(string_from_chars(&text))
        },
        None => Err(ExtractError::MissingBody),
    }
}

} // verus!
