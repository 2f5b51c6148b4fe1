//! Character-level text utilities: title sanitizing, identifier stripping,
//! ASCII lowercasing, and the document URL and output path builders.

use vstd::prelude::*;

verus! {

/// Relies on std's String::push: appends exactly the given character.
#[verifier::external_body]
fn push_char(s: &mut String, c: char)
    ensures
        final(s)@ == old(s)@ + seq![c],
{
    s.push(c);
}

/// A path-unsafe separator is replaced by a dash; every other character is
/// kept.
pub open spec fn sanitize_char(c: char) -> char {
    if c == '/' {
        '-'
    } else {
        c
    }
}

/// The title with every separator character replaced by a dash.
pub open spec fn sanitized(s: Seq<char>) -> Seq<char> {
    s.map_values(|c: char| sanitize_char(c))
}

/// Replaces every path separator in a title by a dash, keeping all other
/// characters in place.
pub fn sanitize_title(title: &str) -> (r: String)
    ensures
        r@ == sanitized(title@),
{
    let n = title.unicode_len();
    let mut r = String::new();
    let mut i: usize = 0;
    while i < n
        invariant
            i <= n,
            n == title@.len(),
            r@ == sanitized(title@.subrange(0, i as int)),
        decreases n - i,
    {
        let c = title.get_char(i);
        if c == '/' {
            push_char(&mut r, '-');
        } else {
            push_char(&mut r, c);
        }
        proof {
            assert(sanitized(title@.subrange(0, i + 1 as int)) =~= sanitized(
                title@.subrange(0, i as int),
            ) + seq![sanitize_char(title@[i as int])]);
        }
        i = i + 1;
    }
    proof {
        assert(title@.subrange(0, title@.len() as int) == title@);
    }
    r
}

/// An upper-case ASCII letter lowered; every other character unchanged.
pub open spec fn lower_char(c: char) -> char {
    if 'A' <= c && c <= 'Z' {
        ((c as u8) + 32) as char
    } else {
        c
    }
}

/// The text with every upper-case ASCII letter lowered.
pub open spec fn lowered(s: Seq<char>) -> Seq<char> {
    s.map_values(|c: char| lower_char(c))
}

/// Lowers every upper-case ASCII letter of the text, leaving all other
/// characters unchanged.
pub fn ascii_lowercase(s: &str) -> (r: String)
    ensures
        r@ == lowered(s@),
{
    let n = s.unicode_len();
    let mut r = String::new();
    let mut i: usize = 0;
    while i < n
        invariant
            i <= n,
            n == s@.len(),
            r@ == lowered(s@.subrange(0, i as int)),
        decreases n - i,
    {
        let c = s.get_char(i);
        if 'A' <= c && c <= 'Z' {
            push_char(&mut r, ((c as u8) + 32) as char);
        } else {
            push_char(&mut r, c);
        }
        proof {
            assert(lowered(s@.subrange(0, i + 1 as int)) =~= lowered(s@.subrange(0, i as int))
                + seq![lower_char(s@[i as int])]);
        }
        i = i + 1;
    }
    proof {
        assert(s@.subrange(0, s@.len() as int) == s@);
    }
    r
}

/// The identifier text with every dash removed and all other characters kept
/// in order.
pub open spec fn dashes_stripped(s: Seq<char>) -> Seq<char>
    decreases s.len(),
{
    if s.len() == 0 {
        Seq::empty()
    } else if s.last() == '-' {
        dashes_stripped(s.drop_last())
    } else {
        dashes_stripped(s.drop_last()) + seq![s.last()]
    }
}

/// Removes every dash from an identifier, keeping all other characters in
/// order.
pub fn strip_dashes(id: &str) -> (r: String)
    ensures
        r@ == dashes_stripped(id@),
{
    let n = id.unicode_len();
    let mut r = String::new();
    let mut i: usize = 0;
    while i < n
        invariant
            i <= n,
            n == id@.len(),
            r@ == dashes_stripped(id@.subrange(0, i as int)),
        decreases n - i,
    {
        let c = id.get_char(i);
        if c != '-' {
            push_char(&mut r, c);
        }
        proof {
            assert(id@.subrange(0, i + 1 as int).drop_last() == id@.subrange(0, i as int));
            assert(id@.subrange(0, i + 1 as int).last() == id@[i as int]);
        }
        i = i + 1;
    }
    proof {
        assert(id@.subrange(0, id@.len() as int) == id@);
    }
    r
}

/// The public URL of a page: the service address followed by the page's
/// identifier with its dashes removed.
pub fn notion_page_id_to_url(id: &str) -> (r: String)
    ensures
        r@ == "http://notion.so/"@ + dashes_stripped(id@),
{
    let stripped = strip_dashes(id);
    let mut r = String::new();
    r.append("http://notion.so/");
    r.append(stripped.as_str());
    r
}

/// The public URL of a database: the service address followed by the
/// database's identifier with its dashes removed.
pub fn notion_database_id_to_url(id: &str) -> (r: String)
    ensures
        r@ == "http://notion.so/"@ + dashes_stripped(id@),
{
    let stripped = strip_dashes(id);
    let mut r = String::new();
    r.append("http://notion.so/");
    r.append(stripped.as_str());
    r
}

/// The destination path for an exported document: `output/<title>.md`, with
/// path-unsafe characters of the title replaced by dashes.
pub fn output_path(title: &str) -> (r: String)
    ensures
        r@ == "output/"@ + sanitized(title@) + ".md"@,
{
    let safe = sanitize_title(title);
    let mut r = String::new();
    r.append("output/");
    r.append(safe.as_str());
    r.append(".md");
    r
}

} // verus!
