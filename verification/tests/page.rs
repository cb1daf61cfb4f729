use lib::example;

fn expected() -> String {
    let parts = [
        "<html>\n",
        "<style>",
        ".build-table { font-family: monospace; border: 1px solid black; }\n",
        ".row-item { padding-left: 4px; padding-right: 4px; border-right: 1px solid black; }\n",
        ".odd-row { background: #eee; }\n",
        ".even-row { background: #ddd; }\n",
        "</style>\n",
        "<h1>builds and build accessories\n</h1>\n",
        "<p>3 repos configured\n</p>\n",
        "<table class=\"build-table\">",
        "<tr>\n",
        "<th class=\"row-item\">repo\n</th>\n",
        "<th class=\"row-item\">last build\n</th>\n",
        "<th class=\"row-item\">commit/job\n</th>\n",
        "<th class=\"row-item\">remote\n</th>\n",
        "<th class=\"row-item\">duration\n</th>\n",
        "<th class=\"row-item\">status\n</th>\n",
        "<th class=\"row-item\">result\n</th>\n",
        "</tr>\n",
        "<tr class=\"even-row\">",
        "<td class=\"row-item\"><a href=\"/yaxpeax-avr\">yaxpeax-avr\n</a>\n</td>\n",
        "<td class=\"row-item\">Wed, 21 Dec 2022 08:21:17 +0000\n</td>\n",
        "<td class=\"row-item\"><a href=\"/yaxpeax-avr/50254b46dc2daad0cbe23b999b733e0e989e81ab\">50254b46d\n</a>\n</td>\n",
        "<td class=\"row-item\"><span style=\"color:green;\">pass\n</span>\n</td>\n",
        "</tr>\n",
        "<tr class=\"odd-row\">",
        "<td class=\"row-item\"><a href=\"/yaxpeax-zvm\">yaxpeax-zvm\n</a>\n</td>\n",
        "<td class=\"row-item\">Fri, 04 Aug 2023 23:47:11 +0000\n</td>\n",
        "<td class=\"row-item\"><a href=\"/yaxpeax-zvm/2b2175d771afb478f30b176118d6680b1c695eb8\">2b2175d77\n</a>\n</td>\n",
        "<td class=\"row-item\"><span style=\"color:red;\">fail\n</span>\n</td>\n",
        "</tr>\n",
        "<tr class=\"even-row\">",
        "<td class=\"row-item\"><a href=\"/yaxpeax-x86\">yaxpeax-x86\n</a>\n</td>\n",
        "<td class=\"row-item\">Wed, 26 Jun 2024 04:35:15 +0000\n</td>\n",
        "<td class=\"row-item\"><a href=\"/yaxpeax-x86/681262f4472ba4f452446e86012ce629b849d8d9\">681262f44\n</a>\n</td>\n",
        "<td class=\"row-item\"><span style=\"color:darkgoldenrod;\">in progress\n</span>\n</td>\n",
        "</tr>\n",
        "</table>\n",
        "</html>",
    ];
    parts.concat()
}

#[test]
fn example_writes_the_build_page() {
    let page = example().unwrap();
    assert_eq!(page, expected());
}

#[test]
fn example_page_is_well_bracketed() {
    let page = example().unwrap();
    assert!(page.starts_with("<html>\n"));
    assert!(page.ends_with("</html>"));
    for tag in ["style", "h1", "p", "table", "a", "span", "td", "th"].iter() {
        let open_plain = format!("<{}>", tag);
        let open_attr = format!("<{} ", tag);
        let close = format!("</{}>", tag);
        assert_eq!(
            page.matches(&open_plain).count() + page.matches(&open_attr).count(),
            page.matches(&close).count()
        );
    }
}

#[test]
fn example_page_closes_every_element_in_order() {
    let page = example().unwrap();
    let mut open: Vec<String> = Vec::new();
    let mut rest = page.as_str();
    while let Some(lt) = rest.find('<') {
        let after = &rest[lt + 1..];
        let gt = after.find('>').unwrap();
        let inside = &after[..gt];
        if let Some(name) = inside.strip_prefix('/') {
            assert_eq!(open.pop().as_deref(), Some(name));
        } else {
            open.push(inside.split(' ').next().unwrap().to_string());
        }
        rest = &after[gt + 1..];
    }
    assert!(open.is_empty());
}
