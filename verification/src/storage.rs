//! Where the text of an article is stored: the file name made from its title.

use vstd::prelude::*;
use vstd::string::StrSliceExecFns;
use vstd::string::StringExecFns;
use vstd::utf8::encode_utf8;

verus! {

/// What every stored file's name ends in.
pub const FILE_EXTENSION: &'static str = ".txt";

/// What announces a stored file on the progress channel, before its name.
pub const SAVED: &'static str = "Saved ";

/// What is to be written for one article: the name of the file inside the
/// output directory, the bytes it is to hold and nothing else, and the line
/// that announces it on the progress channel once it is written.
#[derive(Clone, Debug, PartialEq, Eq)]
pub struct SavePlan {
    pub file_name: String,
    pub contents: Vec<u8>,
    pub notice: String,
}

/// A save plan as plain values.
pub struct SavePlanView {
    pub file_name: Seq<char>,
    pub contents: Seq<u8>,
    pub notice: Seq<char>,
}

impl View for SavePlan {
    type V = SavePlanView;

    open spec fn view(&self) -> SavePlanView {
        SavePlanView { file_name: self.file_name@, contents: self.contents@, notice: self.notice@ }
    }
}

/// The character that stands for `c` in a file name: an underscore for a
/// space, and `c` itself otherwise.
pub open spec fn underscore_space(c: char) -> char {
    if c == ' ' {
        '_'
    } else {
        c
    }
}

/// `title` with every space replaced by an underscore, all else unchanged.
pub open spec fn underscored(title: Seq<char>) -> Seq<char> {
    title.map_values(|c: char| underscore_space(c))
}

/// The name of the file that holds the article titled `title`.
pub open spec fn file_name_of(title: Seq<char>) -> Seq<char> {
    underscored(title) + FILE_EXTENSION@
}

/// The name of the file that holds the article titled `title`: the title
/// with underscores for spaces, followed by the extension. No other character
/// is changed.
pub fn file_name(title: &str) -> (name: String)
    ensures
        name@ == file_name_of(title@),
{
    broadcast use vstd::string::group_string_axioms;

    let mut name = String::new();
    for c in it: title.chars()
        invariant
            it.seq() == title@,
            name@ == underscored(title@.take(it.index() as int)),
    {
        assert(title@.take(it.index() + 1).drop_last() == title@.take(it.index() as int));
        if c == ' ' {
            name.push('_');
        } else {
            name.push(c);
        }
    }
    assert(title@.take(title@.len() as int) == title@);
    name.append(FILE_EXTENSION);
    name
}

/// How the text `text` of the article titled `title` is stored: under the
/// file name of the title, as the UTF-8 bytes of the text.
pub open spec fn saving(title: Seq<char>, text: Seq<char>) -> SavePlanView {
    SavePlanView {
        file_name: file_name_of(title),
        contents: encode_utf8(text),
        notice: SAVED@ + file_name_of(title),
    }
}

/// Plans the file for the article titled `title` with the text `text`. The
/// file holds the bytes of the text exactly as the string holds them. Two
/// articles with one title get the same file name.
pub fn save_plan(title: &str, text: &str) -> (plan: SavePlan)
    ensures
        plan@ == saving(title@, text@),
{
    let name = file_name(title);
    let mut notice = String::from_str(SAVED);
    notice.append(name.as_str());
    SavePlan { file_name: name, contents: text.as_bytes_vec(), notice }
}

} // verus!
