use notion_export::block::{block_to_markdown, Block};
use notion_export::media::{render_file_object, FileObject};
use notion_export::rich::{render_rich_text, RichSpan};

fn span(s: &str) -> RichSpan {
    RichSpan { plain_text: s.to_string() }
}

fn rendered(b: &Block) -> String {
    let mut out = String::new();
    block_to_markdown(b, &mut out);
    out
}

#[test]
fn rich_text_concatenates_in_order() {
    let spans = vec![span("a"), span("b"), span("c")];
    assert_eq!(render_rich_text(&spans), "abc");
}

#[test]
fn rich_text_empty_sequence_is_empty() {
    let spans: Vec<RichSpan> = Vec::new();
    assert_eq!(render_rich_text(&spans), "");
}

#[test]
fn paragraph_renders_text_then_line_break() {
    let b = Block::Paragraph { rich_text: vec![span("hi")], children: Vec::new() };
    assert_eq!(rendered(&b), "hi\n");
}

#[test]
fn paragraph_children_follow_in_place() {
    let child = Block::Paragraph { rich_text: vec![span("inner")], children: Vec::new() };
    let b = Block::Paragraph { rich_text: vec![span("outer")], children: vec![child] };
    assert_eq!(rendered(&b), "outer\ninner\n");
}

#[test]
fn headings_carry_marker_count_and_blank_lines() {
    let h1 = Block::Heading1 { rich_text: vec![span("t")] };
    let h2 = Block::Heading2 { rich_text: vec![span("t")] };
    let h3 = Block::Heading3 { rich_text: vec![span("t")] };
    assert_eq!(rendered(&h1), "\n# t\n\n");
    assert_eq!(rendered(&h2), "\n## t\n\n");
    assert_eq!(rendered(&h3), "\n### t\n\n");
}

#[test]
fn todo_checked_renders_checked_marker() {
    let b = Block::ToDo { checked: true, rich_text: vec![span("done")], children: Vec::new() };
    assert_eq!(rendered(&b), "- [x] done\nSTART TODO CHILDREN:\nEND TODO CHILDREN:\n");
}

#[test]
fn todo_unchecked_renders_empty_marker() {
    let b = Block::ToDo { checked: false, rich_text: vec![span("open")], children: Vec::new() };
    assert_eq!(rendered(&b), "- [] open\nSTART TODO CHILDREN:\nEND TODO CHILDREN:\n");
}

#[test]
fn code_block_lowercases_language_tag() {
    let b = Block::Code { rich_text: vec![span("print(1)")], language: "Python".to_string() };
    assert_eq!(rendered(&b), "\n```python\nprint(1)\n```\n\n");
}

#[test]
fn callout_quotes_single_line() {
    let b = Block::Callout { rich_text: vec![span("note")] };
    assert_eq!(rendered(&b), "> [!info]\n> note\n\n");
}

#[test]
fn callout_quotes_each_source_line() {
    let b = Block::Callout { rich_text: vec![span("a\nb")] };
    assert_eq!(rendered(&b), "> [!info]\n> a\n> b\n\n");
}

#[test]
fn callout_strips_carriage_return_before_line_feed() {
    let b = Block::Callout { rich_text: vec![span("a\r\nb")] };
    assert_eq!(rendered(&b), "> [!info]\n> a\n> b\n\n");
}

#[test]
fn callout_final_line_break_opens_no_empty_line() {
    let b = Block::Callout { rich_text: vec![span("a\n")] };
    assert_eq!(rendered(&b), "> [!info]\n> a\n\n");
}

#[test]
fn callout_empty_text_has_no_quoted_line() {
    let b = Block::Callout { rich_text: Vec::new() };
    assert_eq!(rendered(&b), "> [!info]\n\n");
}

#[test]
fn quote_wraps_children_in_sentinels() {
    let child = Block::Paragraph { rich_text: vec![span("c")], children: Vec::new() };
    let b = Block::Quote { rich_text: vec![span("q")], children: vec![child] };
    assert_eq!(rendered(&b), "> q\nSTART QUOTE CHILDREN:\nc\nEND QUOTE CHILDREN:\n");
}

#[test]
fn bulleted_item_wraps_children_in_sentinels() {
    let b = Block::BulletedListItem { rich_text: vec![span("b")], children: Vec::new() };
    assert_eq!(rendered(&b), "* b\nSTART BULLET CHILDREN:\nEND BULLET CHILDREN:\n");
}

#[test]
fn numbered_item_wraps_children_in_sentinels() {
    let b = Block::NumberedListItem { rich_text: vec![span("n")], children: Vec::new() };
    assert_eq!(rendered(&b), "1. n\nSTART NUMBERED CHILDREN:\nEND NUMBERED CHILDREN:\n");
}

#[test]
fn toggle_wraps_children_in_collapsible_markers() {
    let child = Block::Paragraph { rich_text: vec![span("c")], children: Vec::new() };
    let b = Block::Toggle { rich_text: vec![span("s")], children: vec![child] };
    assert_eq!(rendered(&b), "<details> <summary>s</summary> \nc\n</details>\n\n");
}

#[test]
fn child_page_and_database_emit_reference_markers() {
    let p = Block::ChildPage { title: "P".to_string() };
    let d = Block::ChildDatabase { title: "D".to_string() };
    assert_eq!(rendered(&p), "Child page: [[P]]\n");
    assert_eq!(rendered(&d), "Child database: D\n");
}

#[test]
fn media_blocks_embed_resolved_url() {
    let hosted = FileObject::File { url: "u1".to_string() };
    let external = FileObject::External { url: "u2".to_string() };
    assert_eq!(rendered(&Block::Image { file: hosted.clone() }), "![[u1]]\n");
    assert_eq!(rendered(&Block::Video { file: external.clone() }), "![[u2]]\n");
    assert_eq!(rendered(&Block::File { file: hosted }), "![[u1]]\n");
    assert_eq!(rendered(&Block::Pdf { file: external }), "![[u2]]\n");
}

#[test]
fn file_object_resolves_url_for_both_tags() {
    let hosted = FileObject::File { url: "h".to_string() };
    let external = FileObject::External { url: "e".to_string() };
    assert_eq!(render_file_object(&hosted), "h");
    assert_eq!(render_file_object(&external), "e");
}

#[test]
fn divider_emits_rule_marker() {
    assert_eq!(rendered(&Block::Divider), "----\n");
}

#[test]
fn embed_and_link_preview_emit_embed_marker() {
    let e = Block::Embed { url: "u".to_string() };
    let l = Block::LinkPreview { url: "u".to_string() };
    assert_eq!(rendered(&e), "![[u]]\n");
    assert_eq!(rendered(&l), "![[u]]\n");
}

#[test]
fn bookmark_emits_caption_then_embed_marker() {
    let b = Block::Bookmark { caption: vec![span("c")], url: "u".to_string() };
    assert_eq!(rendered(&b), "caption c \n![[u]]\n");
}

#[test]
fn equation_emits_labeled_expression() {
    let b = Block::Equation { expression: "x+1".to_string() };
    assert_eq!(rendered(&b), "Equation x+1\n");
}

#[test]
fn template_emits_labeled_text() {
    let b = Block::Template { rich_text: vec![span("t")] };
    assert_eq!(rendered(&b), "\nTEMPLATE t\n");
}

#[test]
fn placeholder_variants_emit_fixed_labels() {
    assert_eq!(rendered(&Block::TableOfContents), "\nTABLE OF CONTENTS\n");
    assert_eq!(rendered(&Block::Breadcrumb), "\nBREADCRUMB\n");
    assert_eq!(rendered(&Block::LinkToPage), "\nLINK TO PAGE\n");
    assert_eq!(rendered(&Block::Table), "\nTABLE\n");
    assert_eq!(rendered(&Block::TableRow), "\nTABLE ROW\n");
    assert_eq!(rendered(&Block::SyncedBlock), "\nSYNCED BLOCK\n");
    assert_eq!(rendered(&Block::Unsupported), "\nUNSUPPORTED\n");
    assert_eq!(rendered(&Block::Unknown), "\nUNKNOWN\n");
}

#[test]
fn column_list_wraps_each_child_in_boundary_markers() {
    let c1 = Block::Paragraph { rich_text: vec![span("a")], children: Vec::new() };
    let c2 = Block::Paragraph { rich_text: vec![span("b")], children: Vec::new() };
    let b = Block::ColumnList { children: vec![c1, c2] };
    assert_eq!(
        rendered(&b),
        "COLUMN LIST\n\na\nCOLUMN LIST END\n\nCOLUMN LIST\n\nb\nCOLUMN LIST END\n\n"
    );
}

#[test]
fn column_wraps_each_child_in_boundary_markers() {
    let c = Block::Divider;
    let b = Block::Column { children: vec![c] };
    assert_eq!(rendered(&b), "COLUMN LIST\n\n----\nCOLUMN LIST END\n\n");
}

#[test]
fn empty_column_list_renders_nothing() {
    let b = Block::ColumnList { children: Vec::new() };
    assert_eq!(rendered(&b), "");
}

#[test]
fn rendering_twice_is_byte_identical() {
    let child = Block::ToDo { checked: true, rich_text: vec![span("d")], children: Vec::new() };
    let b = Block::Quote { rich_text: vec![span("q\nr")], children: vec![child] };
    let first = rendered(&b);
    let second = rendered(&b);
    assert_eq!(first, second);
}

#[test]
fn every_variant_renders_nonempty_or_defined_placeholder() {
    let variants: Vec<Block> = vec![
        Block::Paragraph { rich_text: Vec::new(), children: Vec::new() },
        Block::Heading1 { rich_text: Vec::new() },
        Block::Heading2 { rich_text: Vec::new() },
        Block::Heading3 { rich_text: Vec::new() },
        Block::Callout { rich_text: Vec::new() },
        Block::Quote { rich_text: Vec::new(), children: Vec::new() },
        Block::BulletedListItem { rich_text: Vec::new(), children: Vec::new() },
        Block::NumberedListItem { rich_text: Vec::new(), children: Vec::new() },
        Block::Toggle { rich_text: Vec::new(), children: Vec::new() },
        Block::ToDo { checked: false, rich_text: Vec::new(), children: Vec::new() },
        Block::Code { rich_text: Vec::new(), language: "Rust".to_string() },
        Block::ChildPage { title: String::new() },
        Block::ChildDatabase { title: String::new() },
        Block::Image { file: FileObject::File { url: String::new() } },
        Block::Video { file: FileObject::File { url: String::new() } },
        Block::File { file: FileObject::External { url: String::new() } },
        Block::Pdf { file: FileObject::External { url: String::new() } },
        Block::Divider,
        Block::Embed { url: String::new() },
        Block::Bookmark { caption: Vec::new(), url: String::new() },
        Block::Equation { expression: String::new() },
        Block::TableOfContents,
        Block::Breadcrumb,
        Block::ColumnList { children: vec![Block::Divider] },
        Block::Column { children: vec![Block::Divider] },
        Block::LinkPreview { url: String::new() },
        Block::Template { rich_text: Vec::new() },
        Block::LinkToPage,
        Block::Table,
        Block::TableRow,
        Block::SyncedBlock,
        Block::Unsupported,
        Block::Unknown,
    ];
    for b in &variants {
        assert!(!rendered(b).is_empty());
    }
}
