//! Link and embed markers for structured-text output.
//!
//! Each function assembles a marker string around a link target, with an
//! optional label. The contracts pin the exact character sequence produced.

use vstd::prelude::*;

verus! {

/// An internal embed marker: `![[link|text]]`, or `![[link]]` without a label.
pub fn internal_embed(text: Option<&str>, link: &str) -> (r: String)
    ensures
        match text {
            Some(t) => r@ == "![["@ + link@ + "|"@ + t@ + "]]"@,
            None => r@ == "![["@ + link@ + "]]"@,
        },
{
    let mut r = String::new();
    r.append("![[");
    r.append(link);
    if let Some(t) = text {
        r.append("|");
        r.append(t);
    }
    r.append("]]");
    r
}

/// An external embed marker: `![text](link)`, or `![](link)` without a label.
pub fn external_embed(text: Option<&str>, link: &str) -> (r: String)
    ensures
        match text {
            Some(t) => r@ == "!["@ + t@ + "]("@ + link@ + ")"@,
            None => r@ == "!["@ + "]("@ + link@ + ")"@,
        },
{
    let mut r = String::new();
    r.append("![");
    if let Some(t) = text {
        r.append(t);
    }
    r.append("](");
    r.append(link);
    r.append(")");
    r
}

/// An internal link marker: `[[link|text]]`, or `[[link]]` without a label.
pub fn internal_link(text: Option<&str>, link: &str) -> (r: String)
    ensures
        match text {
            Some(t) => r@ == "[["@ + link@ + "|"@ + t@ + "]]"@,
            None => r@ == "[["@ + link@ + "]]"@,
        },
{
    let mut r = String::new();
    r.append("[[");
    r.append(link);
    if let Some(t) = text {
        r.append("|");
        r.append(t);
    }
    r.append("]]");
    r
}

/// An external link marker: `[text](link)`, or `<link>` without a label.
pub fn external_link(text: Option<&str>, link: &str) -> (r: String)
    ensures
        match text {
            Some(t) => r@ == "["@ + t@ + "]("@ + link@ + ")"@,
            None => r@ == "<"@ + link@ + ">"@,
        },
{
    let mut r = String::new();
    if let Some(t) = text {
        r.append("[");
        r.append(t);
        r.append("](");
        r.append(link);
        r.append(")");
    } else {
        r.append("<");
        r.append(link);
        r.append(">");
    }
    r
}

} // verus!
