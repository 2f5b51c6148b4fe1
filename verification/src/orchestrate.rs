//! Per-result decisions of the export run and the per-page export step.
//!
//! The run pages through search results; each result is acknowledged with a
//! log line, and only page results are exported. Exporting a page turns its
//! assembled child blocks into one text buffer and a destination path named
//! after the sanitized title.

use vstd::prelude::*;

use crate::block::Block;
use crate::block::blocks_text;
use crate::block::render_children;
use crate::text::dashes_stripped;
use crate::text::notion_database_id_to_url;
use crate::text::notion_page_id_to_url;
use crate::text::output_path;
use crate::text::sanitized;

verus! {

/// One search result, tagged with the kind of entity it carries. Only the
/// fields the run reads are modeled.
#[derive(Debug, PartialEq, Eq)]
pub enum SearchObject {
    /// A bare block hit.
    Block,
    /// A database, acknowledged with its title and identity URL.
    Database { title: String, id: String },
    /// A page, the only kind that is exported.
    Page { title: String, id: String },
    /// A list hit.
    List,
    /// A user hit.
    User,
    /// An error object returned inside the result list.
    Error,
}

/// The log line acknowledging one search result.
pub open spec fn search_line_text(o: SearchObject) -> Seq<char> {
    match o {
        SearchObject::Block => "Block"@,
        SearchObject::Database { title, id } => "Database: "@ + title@ + " "@
            + "http://notion.so/"@ + dashes_stripped(id@),
        SearchObject::Page { title, id } => "Page: "@ + title@ + " "@ + "http://notion.so/"@
            + dashes_stripped(id@),
        SearchObject::List => "List"@,
        SearchObject::User => "User"@,
        SearchObject::Error => "Error"@,
    }
}

/// Builds the log line acknowledging one search result: the entity kind, and
/// for databases and pages the title and the identity URL.
pub fn search_log_line(object: &SearchObject) -> (r: String)
    ensures
        r@ == search_line_text(*object),
{
    match object {
        SearchObject::Block => "Block".to_owned(),
        SearchObject::Database { title, id } => {
            let url = notion_database_id_to_url(id.as_str());
            let mut r = String::new();
            r.append("Database: ");
            r.append(title.as_str());
            r.append(" ");
            r.append(url.as_str());
            r
        },
        SearchObject::Page { title, id } => {
            let url = notion_page_id_to_url(id.as_str());
            let mut r = String::new();
            r.append("Page: ");
            r.append(title.as_str());
            r.append(" ");
            r.append(url.as_str());
            r
        },
        SearchObject::List => "List".to_owned(),
        SearchObject::User => "User".to_owned(),
        SearchObject::Error => "Error".to_owned(),
    }
}

/// Only results classified as pages are exported; every other kind is
/// acknowledged and skipped.
pub fn should_export(object: &SearchObject) -> (r: bool)
    ensures
        r <==> (*object is Page),
{
    match object {
        SearchObject::Page { .. } => true,
        _ => false,
    }
}

/// Turns one page's assembled child blocks into its export: the destination
/// path named after the sanitized title, and the rendered text of every block
/// in order.
pub fn export_page(title: &str, blocks: &Vec<Block>) -> (r: (String, String))
    ensures
        r.0@ == "output/"@ + sanitized(title@) + ".md"@,
        r.1@ == blocks_text(blocks@),
{
    let path = output_path(title);
    let mut content = String::new();
    render_children(blocks, &mut content);
    proof {
        assert(content@ =~= blocks_text(blocks@));
    }
    (path, content)
}

} // verus!
