//! The block tree and its structured-text rendering.
//!
//! A block is one node of the retrieved document tree: a variant tag plus
//! variant-specific fields, and for container-like variants an ordered
//! sequence of child blocks. `block_text` states the exact character sequence
//! each variant renders to; `block_to_markdown` produces it.

use vstd::prelude::*;

use crate::media::FileObject;
use crate::media::file_url;
use crate::media::render_file_object;
use crate::rich::RichSpan;
use crate::rich::render_rich_text;
use crate::rich::spans_text;
use crate::text::ascii_lowercase;
use crate::text::lowered;

verus! {

/// One node of the document tree. Variant tag and payload shape are in 1:1
/// correspondence; children are owned by the parent.
#[derive(Debug, PartialEq, Eq)]
pub enum Block {
    Paragraph { rich_text: Vec<RichSpan>, children: Vec<Block> },
    Heading1 { rich_text: Vec<RichSpan> },
    Heading2 { rich_text: Vec<RichSpan> },
    Heading3 { rich_text: Vec<RichSpan> },
    Callout { rich_text: Vec<RichSpan> },
    Quote { rich_text: Vec<RichSpan>, children: Vec<Block> },
    BulletedListItem { rich_text: Vec<RichSpan>, children: Vec<Block> },
    NumberedListItem { rich_text: Vec<RichSpan>, children: Vec<Block> },
    Toggle { rich_text: Vec<RichSpan>, children: Vec<Block> },
    ToDo { checked: bool, rich_text: Vec<RichSpan>, children: Vec<Block> },
    Code { rich_text: Vec<RichSpan>, language: String },
    ChildPage { title: String },
    ChildDatabase { title: String },
    Image { file: FileObject },
    Video { file: FileObject },
    File { file: FileObject },
    Pdf { file: FileObject },
    Divider,
    Embed { url: String },
    Bookmark { caption: Vec<RichSpan>, url: String },
    Equation { expression: String },
    TableOfContents,
    Breadcrumb,
    ColumnList { children: Vec<Block> },
    Column { children: Vec<Block> },
    LinkPreview { url: String },
    Template { rich_text: Vec<RichSpan> },
    LinkToPage,
    Table,
    TableRow,
    SyncedBlock,
    Unsupported,
    Unknown,
}

/// The index of the first line break in the text, or its length when it has
/// none.
pub open spec fn first_newline(s: Seq<char>) -> nat
    decreases s.len(),
{
    if s.len() == 0 {
        0
    } else if s[0] == '\n' {
        0
    } else {
        1 + first_newline(s.drop_first())
    }
}

/// One trailing carriage return dropped from a line, as line splitting does.
pub open spec fn strip_cr(line: Seq<char>) -> Seq<char> {
    if line.len() > 0 && line.last() == '\r' {
        line.drop_last()
    } else {
        line
    }
}

/// Every line of the text turned into a quoted marker line: the quote marker,
/// the line's content, then a line break. An empty text has no lines; a final
/// line break does not open an empty last line.
pub open spec fn quote_lines(s: Seq<char>) -> Seq<char>
    decreases s.len(),
{
    if s.len() == 0 {
        Seq::empty()
    } else {
        let j = first_newline(s) as int;
        if j < s.len() {
            "> "@ + strip_cr(s.subrange(0, j)) + "\n"@ + quote_lines(
                s.subrange(j + 1, s.len() as int),
            )
        } else {
            "> "@ + s + "\n"@
        }
    }
}

proof fn lemma_first_newline_at(s: Seq<char>, i: int)
    requires
        0 <= i < s.len(),
        s[i] == '\n',
        forall|k: int| 0 <= k < i ==> s[k] != '\n',
    ensures
        first_newline(s) == i,
    decreases i,
{
    if i == 0 {
    } else {
        assert(s[0] != '\n');
        assert(forall|k: int| 0 <= k < i - 1 ==> s.drop_first()[k] == s[k + 1]);
        lemma_first_newline_at(s.drop_first(), i - 1);
    }
}

proof fn lemma_first_newline_none(s: Seq<char>)
    requires
        forall|k: int| 0 <= k < s.len() ==> s[k] != '\n',
    ensures
        first_newline(s) == s.len(),
    decreases s.len(),
{
    if s.len() == 0 {
    } else {
        assert(forall|k: int|
            0 <= k < s.drop_first().len() ==> s.drop_first()[k] == s[k + 1]);
        lemma_first_newline_none(s.drop_first());
    }
}

/// Appends one quoted marker line per line of the text.
fn append_quoted(text: &str, out: &mut String)
    ensures
        final(out)@ == old(out)@ + quote_lines(text@),
    decreases text@.len(),
{
    let n = text.unicode_len();
    if n == 0 {
        proof {
            assert(old(out)@ + quote_lines(text@) =~= old(out)@);
        }
        return ;
    }
    let mut j: usize = 0;
    while j < n && text.get_char(j) != '\n'
        invariant
            j <= n,
            n == text@.len(),
            forall|k: int| 0 <= k < j ==> text@[k] != '\n',
        decreases n - j,
    {
        j = j + 1;
    }
    proof {
        if j < n {
            lemma_first_newline_at(text@, j as int);
        } else {
            lemma_first_newline_none(text@);
        }
    }
    out.append("> ");
    if j < n {
        let end: usize = if j > 0 && text.get_char(j - 1) == '\r' {
            j - 1
        } else {
            j
        };
        let line = text.substring_char(0, end);
        out.append(line);
        out.append("\n");
        let rest = text.substring_char(j + 1, n);
        append_quoted(rest, out);
        proof {
            assert(strip_cr(text@.subrange(0, j as int)) =~= text@.subrange(0, end as int));
            assert(quote_lines(text@) == "> "@ + strip_cr(text@.subrange(0, j as int)) + "\n"@
                + quote_lines(text@.subrange(j + 1 as int, n as int)));
            assert(old(out)@ + "> "@ + text@.subrange(0, end as int) + "\n"@ + quote_lines(rest@)
                =~= old(out)@ + quote_lines(text@));
        }
    } else {
        let line = text.substring_char(0, n);
        out.append(line);
        out.append("\n");
        proof {
            assert(text@.subrange(0, n as int) =~= text@);
            assert(quote_lines(text@) == "> "@ + text@ + "\n"@);
            assert(old(out)@ + "> "@ + text@.subrange(0, n as int) + "\n"@ =~= old(out)@
                + quote_lines(text@));
        }
    }
}

/// The renderings of a sequence of blocks, laid end to end in order.
pub open spec fn blocks_text(bs: Seq<Block>) -> Seq<char>
    decreases bs,
{
    if bs.len() == 0 {
        Seq::empty()
    } else {
        blocks_text(bs.drop_last()) + block_text(bs.last())
    }
}

/// The renderings of column children, each wrapped in paired boundary
/// markers.
pub open spec fn columns_text(bs: Seq<Block>) -> Seq<char>
    decreases bs,
{
    if bs.len() == 0 {
        Seq::empty()
    } else {
        columns_text(bs.drop_last()) + "COLUMN LIST\n\n"@ + block_text(bs.last())
            + "COLUMN LIST END\n\n"@
    }
}

/// The exact structured text a block renders to, children included.
pub open spec fn block_text(b: Block) -> Seq<char>
    decreases b,
{
    match b {
        Block::Paragraph { rich_text, children } => spans_text(rich_text@) + "\n"@ + blocks_text(
            children@,
        ),
        Block::Heading1 { rich_text } => "\n# "@ + spans_text(rich_text@) + "\n\n"@,
        Block::Heading2 { rich_text } => "\n## "@ + spans_text(rich_text@) + "\n\n"@,
        Block::Heading3 { rich_text } => "\n### "@ + spans_text(rich_text@) + "\n\n"@,
        Block::Callout { rich_text } => "> [!info]\n"@ + quote_lines(spans_text(rich_text@))
            + "\n"@,
        Block::Quote { rich_text, children } => "> "@ + spans_text(rich_text@) + "\n"@
            + "START QUOTE CHILDREN:\n"@ + blocks_text(children@) + "END QUOTE CHILDREN:\n"@,
        Block::BulletedListItem { rich_text, children } => "* "@ + spans_text(rich_text@) + "\n"@
            + "START BULLET CHILDREN:\n"@ + blocks_text(children@) + "END BULLET CHILDREN:\n"@,
        Block::NumberedListItem { rich_text, children } => "1. "@ + spans_text(rich_text@) + "\n"@
            + "START NUMBERED CHILDREN:\n"@ + blocks_text(children@)
            + "END NUMBERED CHILDREN:\n"@,
        Block::Toggle { rich_text, children } => "<details> <summary>"@ + spans_text(rich_text@)
            + "</summary> \n"@ + blocks_text(children@) + "</details>\n\n"@,
        Block::ToDo { checked, rich_text, children } => "- ["@ + (if checked {
            "x"@
        } else {
            Seq::<char>::empty()
        }) + "] "@ + spans_text(rich_text@) + "\n"@ + "START TODO CHILDREN:\n"@ + blocks_text(
            children@,
        ) + "END TODO CHILDREN:\n"@,
        Block::Code { rich_text, language } => "\n```"@ + lowered(language@) + "\n"@ + spans_text(
            rich_text@,
        ) + "\n```\n\n"@,
        Block::ChildPage { title } => "Child page: [["@ + title@ + "]]\n"@,
        Block::ChildDatabase { title } => "Child database: "@ + title@ + "\n"@,
        Block::Image { file } => "![["@ + file_url(file) + "]]\n"@,
        Block::Video { file } => "![["@ + file_url(file) + "]]\n"@,
        Block::File { file } => "![["@ + file_url(file) + "]]\n"@,
        Block::Pdf { file } => "![["@ + file_url(file) + "]]\n"@,
        Block::Divider => "----\n"@,
        Block::Embed { url } => "![["@ + url@ + "]]\n"@,
        Block::Bookmark { caption, url } => "caption "@ + spans_text(caption@) + " \n![["@ + url@
            + "]]\n"@,
        Block::Equation { expression } => "Equation "@ + expression@ + "\n"@,
        Block::TableOfContents => "\nTABLE OF CONTENTS\n"@,
        Block::Breadcrumb => "\nBREADCRUMB\n"@,
        Block::ColumnList { children } => columns_text(children@),
        Block::Column { children } => columns_text(children@),
        Block::LinkPreview { url } => "![["@ + url@ + "]]\n"@,
        Block::Template { rich_text } => "\nTEMPLATE "@ + spans_text(rich_text@) + "\n"@,
        Block::LinkToPage => "\nLINK TO PAGE\n"@,
        Block::Table => "\nTABLE\n"@,
        Block::TableRow => "\nTABLE ROW\n"@,
        Block::SyncedBlock => "\nSYNCED BLOCK\n"@,
        Block::Unsupported => "\nUNSUPPORTED\n"@,
        Block::Unknown => "\nUNKNOWN\n"@,
    }
}

/// Appends the renderings of the blocks, in order.
pub fn render_children(blocks: &Vec<Block>, out: &mut String)
    ensures
        final(out)@ == old(out)@ + blocks_text(blocks@),
    decreases blocks@,
{
    let mut i: usize = 0;
    while i < blocks.len()
        invariant
            i <= blocks.len(),
            out@ == old(out)@ + blocks_text(blocks@.subrange(0, i as int)),
        decreases blocks@.len() - i,
    {
        proof {
            assert(decreases_to!(blocks@ => blocks@[i as int]));
        }
        block_to_markdown(&blocks[i], out);
        proof {
            assert(blocks@.subrange(0, i + 1 as int).drop_last() == blocks@.subrange(0, i as int));
            assert(blocks@.subrange(0, i + 1 as int).last() == blocks@[i as int]);
        }
        i = i + 1;
    }
    proof {
        assert(blocks@.subrange(0, blocks@.len() as int) == blocks@);
    }
}

/// Appends the renderings of column children, each wrapped in paired boundary
/// markers.
fn render_columns(blocks: &Vec<Block>, out: &mut String)
    ensures
        final(out)@ == old(out)@ + columns_text(blocks@),
    decreases blocks@,
{
    let mut i: usize = 0;
    while i < blocks.len()
        invariant
            i <= blocks.len(),
            out@ == old(out)@ + columns_text(blocks@.subrange(0, i as int)),
        decreases blocks@.len() - i,
    {
        out.append("COLUMN LIST\n\n");
        proof {
            assert(decreases_to!(blocks@ => blocks@[i as int]));
        }
        block_to_markdown(&blocks[i], out);
        out.append("COLUMN LIST END\n\n");
        proof {
            assert(blocks@.subrange(0, i + 1 as int).drop_last() == blocks@.subrange(0, i as int));
            assert(blocks@.subrange(0, i + 1 as int).last() == blocks@[i as int]);
        }
        i = i + 1;
    }
    proof {
        assert(blocks@.subrange(0, blocks@.len() as int) == blocks@);
    }
}

/// Appends the structured-text rendering of the block, and of its children
/// for container variants, to the output. The exact text appended is
/// `block_text`; rendering is total over the variant set and never fails.
pub fn block_to_markdown(block: &Block, out: &mut String)
    ensures
        final(out)@ == old(out)@ + block_text(*block),
    decreases *block,
{
    match block {
        Block::Paragraph { rich_text, children } => {
            let t = render_rich_text(rich_text);
            out.append(t.as_str());
            out.append("\n");
            render_children(children, out);
        },
        Block::Heading1 { rich_text } => {
            let t = render_rich_text(rich_text);
            out.append("\n# ");
            out.append(t.as_str());
            out.append("\n\n");
        },
        Block::Heading2 { rich_text } => {
            let t = render_rich_text(rich_text);
            out.append("\n## ");
            out.append(t.as_str());
            out.append("\n\n");
        },
        Block::Heading3 { rich_text } => {
            let t = render_rich_text(rich_text);
            out.append("\n### ");
            out.append(t.as_str());
            out.append("\n\n");
        },
        Block::Callout { rich_text } => {
            let t = render_rich_text(rich_text);
            out.append("> [!info]\n");
            append_quoted(t.as_str(), out);
            out.append("\n");
        },
        Block::Quote { rich_text, children } => {
            let t = render_rich_text(rich_text);
            out.append("> ");
            out.append(t.as_str());
            out.append("\n");
            out.append("START QUOTE CHILDREN:\n");
            render_children(children, out);
            out.append("END QUOTE CHILDREN:\n");
        },
        Block::BulletedListItem { rich_text, children } => {
            let t = render_rich_text(rich_text);
            out.append("* ");
            out.append(t.as_str());
            out.append("\n");
            out.append("START BULLET CHILDREN:\n");
            render_children(children, out);
            out.append("END BULLET CHILDREN:\n");
        },
        Block::NumberedListItem { rich_text, children } => {
            let t = render_rich_text(rich_text);
            out.append("1. ");
            out.append(t.as_str());
            out.append("\n");
            out.append("START NUMBERED CHILDREN:\n");
            render_children(children, out);
            out.append("END NUMBERED CHILDREN:\n");
        },
        Block::Toggle { rich_text, children } => {
            let t = render_rich_text(rich_text);
            out.append("<details> <summary>");
            out.append(t.as_str());
            out.append("</summary> \n");
            render_children(children, out);
            out.append("</details>\n\n");
        },
        Block::ToDo { checked, rich_text, children } => {
            let t = render_rich_text(rich_text);
            out.append("- [");
            if *checked {
                out.append("x");
            }
            out.append("] ");
            out.append(t.as_str());
            out.append("\n");
            out.append("START TODO CHILDREN:\n");
            render_children(children, out);
            out.append("END TODO CHILDREN:\n");
        },
        Block::Code { rich_text, language } => {
            let t = render_rich_text(rich_text);
            let lang = ascii_lowercase(language.as_str());
            out.append("\n```");
            out.append(lang.as_str());
            out.append("\n");
            out.append(t.as_str());
            out.append("\n```\n\n");
        },
        Block::ChildPage { title } => {
            out.append("Child page: [[");
            out.append(title.as_str());
            out.append("]]\n");
        },
        Block::ChildDatabase { title } => {
            out.append("Child database: ");
            out.append(title.as_str());
            out.append("\n");
        },
        Block::Image { file } => {
            let url = render_file_object(file);
            out.append("![[");
            out.append(url.as_str());
            out.append("]]\n");
        },
        Block::Video { file } => {
            let url = render_file_object(file);
            out.append("![[");
            out.append(url.as_str());
            out.append("]]\n");
        },
        Block::File { file } => {
            let url = render_file_object(file);
            out.append("![[");
            out.append(url.as_str());
            out.append("]]\n");
        },
        Block::Pdf { file } => {
            let url = render_file_object(file);
            out.append("![[");
            out.append(url.as_str());
            out.append("]]\n");
        },
        Block::Divider => {
            out.append("----\n");
        },
        Block::Embed { url } => {
            out.append("![[");
            out.append(url.as_str());
            out.append("]]\n");
        },
        Block::Bookmark { caption, url } => {
            let t = render_rich_text(caption);
            out.append("caption ");
            out.append(t.as_str());
            out.append(" \n![[");
            out.append(url.as_str());
            out.append("]]\n");
        },
        Block::Equation { expression } => {
            out.append("Equation ");
            out.append(expression.as_str());
            out.append("\n");
        },
        Block::TableOfContents => {
            out.append("\nTABLE OF CONTENTS\n");
        },
        Block::Breadcrumb => {
            out.append("\nBREADCRUMB\n");
        },
        Block::ColumnList { children } => {
            render_columns(children, out);
        },
        Block::Column { children } => {
            render_columns(children, out);
        },
        Block::LinkPreview { url } => {
            out.append("![[");
            out.append(url.as_str());
            out.append("]]\n");
        },
        Block::Template { rich_text } => {
            let t = render_rich_text(rich_text);
            out.append("\nTEMPLATE ");
            out.append(t.as_str());
            out.append("\n");
        },
        Block::LinkToPage => {
            out.append("\nLINK TO PAGE\n");
        },
        Block::Table => {
            out.append("\nTABLE\n");
        },
        Block::TableRow => {
            out.append("\nTABLE ROW\n");
        },
        Block::SyncedBlock => {
            out.append("\nSYNCED BLOCK\n");
        },
        Block::Unsupported => {
            out.append("\nUNSUPPORTED\n");
        },
        Block::Unknown => {
            out.append("\nUNKNOWN\n");
        },
    }
}

/// Rendering is a pure function of the block tree: two renderings of the same
/// tree with no intervening mutation are byte-identical.
pub proof fn lemma_render_deterministic(b: Block, first: Seq<char>, second: Seq<char>)
    requires
        first == block_text(b),
        second == block_text(b),
    ensures
        first == second,
{
}

/// A to-do block renders its checkbox marker in the checked state if and only
/// if its checked flag is true.
pub proof fn lemma_todo_checkbox(checked: bool, rich_text: Vec<RichSpan>, children: Vec<Block>)
    ensures
        checked <==> block_text(Block::ToDo { checked, rich_text, children }).subrange(0, 5)
            == "- [x]"@,
{
    reveal_strlit("- [");
    reveal_strlit("x");
    reveal_strlit("] ");
    reveal_strlit("- [x]");
    let t = block_text(Block::ToDo { checked, rich_text, children });
    if checked {
        assert(t.subrange(0, 5) =~= "- [x]"@);
    } else {
        assert(t[3] == ']');
        assert("- [x]"@[3] == 'x');
        assert(t.subrange(0, 5) != "- [x]"@) by {
            if t.subrange(0, 5) == "- [x]"@ {
                assert(t.subrange(0, 5)[3] == t[3]);
            }
        }
    }
}

/// Fallback totality: every block variant renders to non-empty structured
/// text. The one exception this statement leaves out is a column list or
/// column with no children, which wraps each child in boundary markers and so
/// emits nothing when there is no child to wrap.
pub proof fn lemma_render_nonempty(b: Block)
    requires
        !(b matches Block::ColumnList { children } && children@.len() == 0),
        !(b matches Block::Column { children } && children@.len() == 0),
    ensures
        block_text(b).len() > 0,
{
    reveal_strlit("\n");
    reveal_strlit("\n# ");
    reveal_strlit("\n## ");
    reveal_strlit("\n### ");
    reveal_strlit("> [!info]\n");
    reveal_strlit("> ");
    reveal_strlit("* ");
    reveal_strlit("1. ");
    reveal_strlit("<details> <summary>");
    reveal_strlit("- [");
    reveal_strlit("\n```");
    reveal_strlit("Child page: [[");
    reveal_strlit("Child database: ");
    reveal_strlit("![[");
    reveal_strlit("----\n");
    reveal_strlit("caption ");
    reveal_strlit("Equation ");
    reveal_strlit("\nTABLE OF CONTENTS\n");
    reveal_strlit("\nBREADCRUMB\n");
    reveal_strlit("COLUMN LIST\n\n");
    reveal_strlit("\nTEMPLATE ");
    reveal_strlit("\nLINK TO PAGE\n");
    reveal_strlit("\nTABLE\n");
    reveal_strlit("\nTABLE ROW\n");
    reveal_strlit("\nSYNCED BLOCK\n");
    reveal_strlit("\nUNSUPPORTED\n");
    reveal_strlit("\nUNKNOWN\n");
    match b {
        Block::ColumnList { children } => {
            assert(columns_text(children@).len() > 0);
        },
        Block::Column { children } => {
            assert(columns_text(children@).len() > 0);
        },
        _ => {},
    }
}

} // verus!
