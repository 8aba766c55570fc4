use websii::listing::{
    directory_listing, href_of, names_of, parent_href_of, render_listing, DirEntry, LISTING_HEAD,
};
use websii::reload::RELOAD_SCRIPT;

fn entry(name: &str, is_dir: bool) -> DirEntry {
    DirEntry { name: name.to_string(), is_dir }
}

fn strings(items: &[&str]) -> Vec<String> {
    items.iter().map(|s| s.to_string()).collect()
}

#[test]
fn the_head_declares_the_page() {
    assert!(LISTING_HEAD.starts_with("<!DOCTYPE html><html><head><meta charset='utf-8'>"));
    assert!(LISTING_HEAD.contains("<title>Directory listing</title>"));
    assert!(LISTING_HEAD.contains("padding: 0 20px; }h1 { color: #333;"));
    assert!(LISTING_HEAD.contains(".dir:before { content: '\u{e5ff} '; }"));
    assert!(LISTING_HEAD.contains(".file:before { content: '\u{ea7b} '; }"));
    assert!(LISTING_HEAD.ends_with("</style></head><body>"));
    assert_eq!(LISTING_HEAD.chars().count(), 561);
}

#[test]
fn an_entry_of_the_root_is_linked_by_its_name() {
    assert_eq!(href_of("", "a.txt"), "a.txt");
    assert_eq!(href_of("docs", "a.txt"), "docs/a.txt");
    assert_eq!(href_of("docs/api", "x"), "docs/api/x");
    assert_eq!(href_of("docs/", "x"), "docs//x");
}

#[test]
fn the_way_up_is_what_stands_before_the_last_separator() {
    assert_eq!(parent_href_of("docs/api"), "docs");
    assert_eq!(parent_href_of("a/b/c"), "a/b");
    assert_eq!(parent_href_of("docs"), "");
    assert_eq!(parent_href_of("docs/"), "docs");
    assert_eq!(parent_href_of(""), "");
}

#[test]
fn the_listing_of_the_root_has_no_way_up() {
    let page = render_listing("", &strings(&["css"]), &strings(&["a.txt"]));
    let expected = format!(
        "{}<h1>Index of /</h1><ul>\
         <li><a href='/css'class='dir'>css/</a></li>\
         <li><a href='/a.txt'class='file'>a.txt</a></li>\
         </ul>{}</body></html>",
        LISTING_HEAD, RELOAD_SCRIPT
    );
    assert_eq!(page, expected);
}

#[test]
fn the_listing_of_a_directory_below_the_root_begins_with_the_way_up() {
    let page = render_listing("docs/api", &strings(&["v1"]), &strings(&["index.md"]));
    let expected = format!(
        "{}<h1>Index of /docs/api</h1><ul>\
         <li><a href='/docs'class='dir'>../</a></li>\
         <li><a href='/docs/api/v1'class='dir'>v1/</a></li>\
         <li><a href='/docs/api/index.md'class='file'>index.md</a></li>\
         </ul>{}</body></html>",
        LISTING_HEAD, RELOAD_SCRIPT
    );
    assert_eq!(page, expected);
}

#[test]
fn the_listing_of_an_empty_directory_has_no_entries() {
    let page = render_listing("", &Vec::new(), &Vec::new());
    assert_eq!(
        page,
        format!("{}<h1>Index of /</h1><ul></ul>{}</body></html>", LISTING_HEAD, RELOAD_SCRIPT)
    );
    let page = render_listing("d", &Vec::new(), &Vec::new());
    assert_eq!(
        page,
        format!(
            "{}<h1>Index of /d</h1><ul><li><a href='/'class='dir'>../</a></li></ul>{}</body></html>",
            LISTING_HEAD, RELOAD_SCRIPT
        )
    );
}

#[test]
fn render_listing_keeps_the_order_it_is_given() {
    let page = render_listing("", &strings(&["z", "a"]), &strings(&["2", "1"]));
    let z = page.find("href='/z'").unwrap();
    let a = page.find("href='/a'").unwrap();
    let two = page.find("href='/2'").unwrap();
    let one = page.find("href='/1'").unwrap();
    assert!(z < a && a < two && two < one);
}

#[test]
fn names_of_picks_one_kind_in_the_order_of_the_entries() {
    let entries = vec![entry("b", false), entry("d", true), entry("a", false), entry("c", true)];
    assert_eq!(names_of(&entries, true), strings(&["d", "c"]));
    assert_eq!(names_of(&entries, false), strings(&["b", "a"]));
    assert_eq!(names_of(&Vec::new(), true), Vec::<String>::new());
}

#[test]
fn directories_come_before_files_each_in_the_order_of_names() {
    let entries = vec![
        entry("zeta.txt", false),
        entry("img", true),
        entry("alpha.txt", false),
        entry("css", true),
        entry("Makefile", false),
    ];
    let page = directory_listing("", &entries);
    let expected = format!(
        "{}<h1>Index of /</h1><ul>\
         <li><a href='/css'class='dir'>css/</a></li>\
         <li><a href='/img'class='dir'>img/</a></li>\
         <li><a href='/Makefile'class='file'>Makefile</a></li>\
         <li><a href='/alpha.txt'class='file'>alpha.txt</a></li>\
         <li><a href='/zeta.txt'class='file'>zeta.txt</a></li>\
         </ul>{}</body></html>",
        LISTING_HEAD, RELOAD_SCRIPT
    );
    assert_eq!(page, expected);
}

#[test]
fn separators_at_the_end_of_the_request_path_do_not_count() {
    let entries = vec![entry("n", false), entry("d", true)];
    let plain = directory_listing("a/b", &entries);
    assert_eq!(directory_listing("a/b/", &entries), plain);
    assert_eq!(directory_listing("a/b//", &entries), plain);
    assert!(plain.contains("<h1>Index of /a/b</h1>"));
    assert!(plain.contains("<li><a href='/a'class='dir'>../</a></li>"));
    assert!(plain.contains("<li><a href='/a/b/d'class='dir'>d/</a></li>"));
    assert!(plain.contains("<li><a href='/a/b/n'class='file'>n</a></li>"));
    assert_eq!(directory_listing("/", &entries), directory_listing("", &entries));
    assert!(!directory_listing("//", &entries).contains("../"));
}

#[test]
fn every_entry_is_linked_once() {
    let entries = vec![entry("b", false), entry("a", true), entry("c", false)];
    let page = directory_listing("sub", &entries);
    for e in entries.iter() {
        let link = format!("<a href='/sub/{}'", e.name);
        assert_eq!(page.matches(&link).count(), 1);
    }
    assert_eq!(page.matches("<li>").count(), 4);
}

#[test]
fn a_listing_holds_the_reload_script_once_before_the_closing_body_tag() {
    let page = directory_listing("", &vec![entry("a", false)]);
    assert_eq!(page.matches(RELOAD_SCRIPT).count(), 1);
    assert!(page.ends_with(&format!("</ul>{}</body></html>", RELOAD_SCRIPT)));
}
