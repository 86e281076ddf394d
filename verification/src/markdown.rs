//! Pieces of Markdown: headings, pictures, and the names of files.

use vstd::prelude::*;
use vstd::string::*;
use crate::numbers::{cover_file_name, cover_name};

verus! {

/// The depth of a Markdown heading.
#[derive(Clone, Copy, Debug, PartialEq, Eq, Structural)]
pub enum MarkdownFormat {
    /// A heading of the first level.
    H1,
    /// A heading of the second level.
    H2,
    /// A heading of the third level.
    H3,
}

impl MarkdownFormat {
    /// The marks that open a heading of this depth.
    pub open spec fn marks(self) -> Seq<char> {
        match self {
            MarkdownFormat::H1 => "#"@,
            MarkdownFormat::H2 => "##"@,
            MarkdownFormat::H3 => "###"@,
        }
    }

    /// The marks that open a heading of this depth.
    pub fn marker(&self) -> (marks: &'static str)
        ensures
            marks@ == self.marks(),
    {
        match self {
            MarkdownFormat::H1 => "#",
            MarkdownFormat::H2 => "##",
            MarkdownFormat::H3 => "###",
        }
    }
}

/// What is done with the name of a Markdown file.
#[derive(Clone, Copy, Debug, PartialEq, Eq, Structural)]
pub enum ExtensionStep {
    /// The name ends in `md` and is taken as it is.
    Keep,
    /// The name has no extension and gets the extension `md`.
    Add,
    /// The name has another extension and is refused.
    Refuse,
}

/// What is done with a file name whose extension is `extension`.
pub open spec fn extension_plan(extension: Option<Seq<char>>) -> ExtensionStep {
    match extension {
        None => ExtensionStep::Add,
        Some(ending) => if ending == "md"@ {
            ExtensionStep::Keep
        } else {
            ExtensionStep::Refuse
        },
    }
}

/// Decides what is done with a file name whose extension is `extension`.
pub fn extension_step(extension: Option<&str>) -> (step: ExtensionStep)
    ensures
        step == extension_plan(
            match extension {
                Some(ending) => Some(ending@),
                None => None,
            },
        ),
{
    match extension {
        None => ExtensionStep::Add,
        Some(ending) => {
            if String::from_str(ending) == String::from_str("md") {
                ExtensionStep::Keep
            } else {
                ExtensionStep::Refuse
            }
        },
    }
}

/// Whether a table has a column of pictures: one that goes to a file always
/// has, one that goes to the console has if the settings ask for it.
pub fn picture_column(to_file: bool, console_picture: bool) -> (shown: bool)
    ensures
        shown == (to_file || console_picture),
{
    to_file || console_picture
}

/// A Markdown picture: the title in square brackets and the address in round ones.
pub open spec fn picture_link(title: Seq<char>, address: Seq<char>) -> Seq<char> {
    "!["@ + title + "]("@ + address + ")"@
}

/// The Markdown picture of the cover of song `id`, fetched from below `prefix_url`.
pub fn remote_cover_link(title: &str, prefix_url: &str, id: usize) -> (link: String)
    ensures
        link@ == picture_link(title@, prefix_url@ + cover_name(id as nat)),
{
    let name = cover_file_name(id);
    let link = String::from_str("![").concat(title).concat("](").concat(prefix_url).concat(
        name.as_str(),
    ).concat(")");
    assert(link@ =~= picture_link(title@, prefix_url@ + cover_name(id as nat)));
    link
}

/// The Markdown picture of the cover of song `id`, kept in `directory`.
pub fn local_cover_link(title: &str, directory: &str, id: usize) -> (link: String)
    ensures
        link@ == picture_link(title@, directory@ + "/"@ + cover_name(id as nat)),
{
    let name = cover_file_name(id);
    let link = String::from_str("![").concat(title).concat("](").concat(directory).concat(
        "/",
    ).concat(name.as_str()).concat(")");
    assert(link@ =~= picture_link(title@, directory@ + "/"@ + cover_name(id as nat)));
    link
}

/// The title of a song in a table, behind the mark of its type: the mark
/// stands in backquotes in a table with pictures and in square brackets in one without.
pub open spec fn marked_title(song_type: Seq<char>, title: Seq<char>, pictures: bool) -> Seq<char> {
    if pictures {
        "`"@ + song_type + "`"@ + title
    } else {
        "["@ + song_type + "]"@ + title
    }
}

/// The title of a song as it stands in a table.
pub fn row_title(song_type: &str, title: &str, pictures: bool) -> (text: String)
    ensures
        text@ == marked_title(song_type@, title@, pictures),
{
    let text = if pictures {
        String::from_str("`").concat(song_type).concat("`").concat(title)
    } else {
        String::from_str("[").concat(song_type).concat("]").concat(title)
    };
    assert(text@ =~= marked_title(song_type@, title@, pictures));
    text
}

} // verus!
