//! The page that lists a directory: a link to the directory above, then the
//! directories, then the files, each group in the order of names.

use vstd::prelude::*;
use vstd::string::*;
use crate::order::{in_name_order, sort_names};
use crate::reload::{reload_script, RELOAD_SCRIPT};
use crate::text::{
    chars_of, find_last, last_occurrence, lemma_last_occurrence_is_last,
    lemma_without_trailing_ends_otherwise, strip_trailing, texts, without_trailing,
};

verus! {

/// What every listing begins with.
pub const LISTING_HEAD: &'static str = "<!DOCTYPE html><html><head><meta charset='utf-8'><title>Directory listing</title><style>body { font-family: monospace; max-width: 900px; margin: 40px auto; padding: 0 20px; }\
h1 { color: #333; border-bottom: 2px solid #0066cc; padding-bottom: 10px; }\
ul { list-style: none; padding: 0; }li { padding: 8px; border-bottom: 1px solid #eee; }\
li:hover { background: #f5f5f5; }a { text-decoration: none; color: #0066cc; }\
a:hover { text-decoration: underline; }.dir { font-weight: bold; }\
.dir:before { content: '\u{e5ff} '; }.file:before { content: '\u{ea7b} '; }\
</style></head><body>";

/// An entry of a directory: its name, and whether it is a directory itself.
#[derive(Debug, Clone, PartialEq, Eq)]
pub struct DirEntry {
    pub name: String,
    pub is_dir: bool,
}

/// The names of the entries that are directories (`dirs`) or are not, in the
/// order of `entries`.
pub open spec fn names_where(entries: Seq<DirEntry>, dirs: bool) -> Seq<Seq<char>>
    decreases entries.len(),
{
    if entries.len() == 0 {
        Seq::<Seq<char>>::empty()
    } else {
        let rest = names_where(entries.drop_last(), dirs);
        if entries.last().is_dir == dirs {
            rest.push(entries.last().name@)
        } else {
            rest
        }
    }
}

/// The path of the entry `name` below the root, where the listed directory
/// has the path `relative` below the root.
pub open spec fn entry_href(relative: Seq<char>, name: Seq<char>) -> Seq<char> {
    if relative.len() == 0 {
        name
    } else {
        relative + seq!['/'] + name
    }
}

/// The path, below the root, of the directory above `relative`: what stands
/// before the last separator, or nothing.
pub open spec fn parent_href(relative: Seq<char>) -> Seq<char> {
    match last_occurrence(relative, seq!['/']) {
        Some(k) => relative.subrange(0, k),
        None => Seq::<char>::empty(),
    }
}

/// The link to the directory above: none in the listing of the root.
pub open spec fn parent_item(relative: Seq<char>) -> Seq<char> {
    if relative.len() == 0 {
        Seq::<char>::empty()
    } else {
        "<li><a href='/"@ + parent_href(relative) + "'class='dir'>../</a></li>"@
    }
}

/// The link to a directory.
pub open spec fn dir_item(relative: Seq<char>, name: Seq<char>) -> Seq<char> {
    "<li><a href='/"@ + entry_href(relative, name) + "'class='dir'>"@ + name + "/</a></li>"@
}

/// The link to a file.
pub open spec fn file_item(relative: Seq<char>, name: Seq<char>) -> Seq<char> {
    "<li><a href='/"@ + entry_href(relative, name) + "'class='file'>"@ + name + "</a></li>"@
}

/// The links to `names`, in their order.
pub open spec fn items(relative: Seq<char>, names: Seq<Seq<char>>, dirs: bool) -> Seq<char>
    decreases names.len(),
{
    if names.len() == 0 {
        Seq::<char>::empty()
    } else {
        items(relative, names.drop_last(), dirs) + if dirs {
            dir_item(relative, names.last())
        } else {
            file_item(relative, names.last())
        }
    }
}

/// The listing of the directory at `relative` below the root, with the
/// directories `dirs` and the files `files` in the order given.
pub open spec fn listing_page(
    relative: Seq<char>,
    dirs: Seq<Seq<char>>,
    files: Seq<Seq<char>>,
) -> Seq<char> {
    LISTING_HEAD@ + "<h1>Index of /"@ + relative + "</h1><ul>"@ + parent_item(relative) + items(
        relative,
        dirs,
        true,
    ) + items(relative, files, false) + "</ul>"@ + reload_script() + "</body></html>"@
}

/// The path of the listed directory below the root, for a request path
/// `relative` below the root: separators at the end of the request path do not
/// belong to it.
pub open spec fn listed_path(relative: Seq<char>) -> Seq<char> {
    without_trailing(relative, '/')
}

/// The listing of a directory that was requested as `relative` below the root
/// and whose entries are `entries`: the directories in the order of names, then
/// the files in the order of names, each linked by its path below the root.
pub open spec fn directory_page(relative: Seq<char>, entries: Seq<DirEntry>) -> Seq<char> {
    listing_page(
        listed_path(relative),
        in_name_order(names_where(entries, true)),
        in_name_order(names_where(entries, false)),
    )
}

/// The path of the entry `name` below the root.
pub fn href_of(relative: &str, name: &str) -> (href: String)
    ensures
        href@ == entry_href(relative@, name@),
{
    if relative.unicode_len() == 0 {
        String::from_str(name)
    } else {
        proof {
            reveal_strlit("/");
        }
        let mut href = String::from_str(relative);
        href.append("/");
        href.append(name);
        href
    }
}

/// The path, below the root, of the directory above `relative`.
pub fn parent_href_of(relative: &str) -> (href: String)
    ensures
        href@ == parent_href(relative@),
{
    proof {
        reveal_strlit("/");
    }
    let chars = chars_of(relative);
    let separator = chars_of("/");
    assert(separator@ =~= seq!['/']);
    match find_last(&chars, &separator) {
        Some(k) => String::from_str(relative.substring_char(0, k)),
        None => String::new(),
    }
}

/// Puts the links to `names` behind `page`.
fn append_items(page: &mut String, relative: &str, names: &Vec<String>, dirs: bool)
    ensures
        final(page)@ == old(page)@ + items(relative@, texts(names@), dirs),
{
    let ghost start = page@;
    let mut i: usize = 0;
    while i < names.len()
        invariant
            i <= names.len(),
            page@ == start + items(relative@, texts(names@).subrange(0, i as int), dirs),
        decreases names.len() - i,
    {
        let name = names[i].as_str();
        let href = href_of(relative, name);
        page.append("<li><a href='/");
        page.append(href.as_str());
        if dirs {
            page.append("'class='dir'>");
            page.append(name);
            page.append("/</a></li>");
        } else {
            page.append("'class='file'>");
            page.append(name);
            page.append("</a></li>");
        }
        proof {
            let taken = texts(names@).subrange(0, i as int);
            let more = texts(names@).subrange(0, i + 1);
            assert(more.drop_last() =~= taken);
        }
        i += 1;
    }
    assert(texts(names@).subrange(0, names@.len() as int) =~= texts(names@));
}

/// The listing of the directory at `relative` below the root, with the
/// directories `dirs` and the files `files` in the order given.
pub fn render_listing(relative: &str, dirs: &Vec<String>, files: &Vec<String>) -> (page: String)
    ensures
        page@ == listing_page(relative@, texts(dirs@), texts(files@)),
{
    let mut page = String::from_str(LISTING_HEAD);
    page.append("<h1>Index of /");
    page.append(relative);
    page.append("</h1><ul>");
    if relative.unicode_len() > 0 {
        let up = parent_href_of(relative);
        page.append("<li><a href='/");
        page.append(up.as_str());
        page.append("'class='dir'>../</a></li>");
    }
    assert(page@ =~= LISTING_HEAD@ + "<h1>Index of /"@ + relative@ + "</h1><ul>"@ + parent_item(
        relative@,
    ));
    append_items(&mut page, relative, dirs, true);
    append_items(&mut page, relative, files, false);
    page.append("</ul>");
    page.append(RELOAD_SCRIPT);
    page.append("</body></html>");
    page
}

/// The names of the entries that are directories (`dirs`) or are not, in the
/// order of `entries`.
pub fn names_of(entries: &Vec<DirEntry>, dirs: bool) -> (names: Vec<String>)
    ensures
        texts(names@) == names_where(entries@, dirs),
{
    let mut names: Vec<String> = Vec::new();
    let mut i: usize = 0;
    assert(entries@.subrange(0, 0) =~= Seq::<DirEntry>::empty());
    while i < entries.len()
        invariant
            i <= entries.len(),
            texts(names@) == names_where(entries@.subrange(0, i as int), dirs),
        decreases entries.len() - i,
    {
        if entries[i].is_dir == dirs {
            names.push(entries[i].name.clone());
        }
        proof {
            let more = entries@.subrange(0, i + 1);
            assert(more.drop_last() =~= entries@.subrange(0, i as int));
        }
        i += 1;
    }
    assert(entries@.subrange(0, entries@.len() as int) =~= entries@);
    names
}

/// The listing of a directory that was requested as `relative` below the root
/// and whose entries are `entries`.
pub fn directory_listing(relative: &str, entries: &Vec<DirEntry>) -> (page: String)
    ensures
        page@ == directory_page(relative@, entries@),
{
    let listed = strip_trailing(relative, '/');
    let dirs = sort_names(&names_of(entries, true));
    let files = sort_names(&names_of(entries, false));
    render_listing(listed.as_str(), &dirs, &files)
}

/// However many separators end the request path, the listed path ends in none:
/// so the link to an entry holds one separator between the listed path and the
/// name, and the way up leads out of the listed directory, to a path that is
/// shorter than the listed one.
pub proof fn law_listing_links_ignore_trailing_separators(relative: Seq<char>, name: Seq<char>)
    ensures
        listed_path(relative).len() > 0 ==> listed_path(relative).last() != '/',
        listed_path(relative).len() > 0 ==> entry_href(listed_path(relative), name) == listed_path(
            relative,
        ) + seq!['/'] + name,
        listed_path(relative).len() > 0 ==> parent_href(listed_path(relative)).len()
            < listed_path(relative).len(),
        listed_path(relative + seq!['/']) == listed_path(relative),
{
    let listed = listed_path(relative);
    lemma_without_trailing_ends_otherwise(relative, '/');
    lemma_last_occurrence_is_last(listed, seq!['/']);
    let longer = relative + seq!['/'];
    assert(longer.drop_last() =~= relative);
    assert(without_trailing(longer, '/') =~= without_trailing(relative, '/'));
}

} // verus!
