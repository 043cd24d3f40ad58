use aibase_scraper::dom::{attr_names, find_all, find_within, Element};

const PAGE: &str = r#"<html><body>
<div class="box" id="one"><p>first <b>bold</b></p><p data-k="v">second</p></div>
<div class="box"><span>no paragraph</span></div>
<p>loose</p>
</body></html>"#;

#[test]
fn elements_are_found_in_document_order() {
    let found = find_all(PAGE, "p", &attr_names(&["data-k", "id"]));
    let texts: Vec<&str> = found.iter().map(|e| e.text.as_str()).collect();
    assert_eq!(texts, vec!["first bold", "second", "loose"]);
    assert_eq!(found[0].name, "p");
    assert_eq!(found[0].inner_html, "first <b>bold</b>");
    assert_eq!(found[0].attrs, vec![None, None]);
    assert_eq!(found[1].attrs, vec![Some("v".to_string()), None]);
    assert_eq!(found[1].attr(0), Some(&"v".to_string()));
    assert_eq!(found[1].attr(1), None);
    assert_eq!(found[1].attr(2), None);
}

#[test]
fn attributes_are_read_in_the_order_of_asking() {
    let found = find_all(PAGE, "div.box", &attr_names(&["id", "class", "href"]));
    assert_eq!(found.len(), 2);
    assert_eq!(
        found[0].attrs,
        vec![Some("one".to_string()), Some("box".to_string()), None]
    );
    assert_eq!(found[1].attrs, vec![None, Some("box".to_string()), None]);
    assert_eq!(found[1].text, "no paragraph");
}

#[test]
fn nested_elements_are_found_below_each_match() {
    let nested = find_within(PAGE, "div.box", "p", &attr_names(&[]));
    assert_eq!(nested.len(), 2);
    let first: Vec<&str> = nested[0].iter().map(|e| e.text.as_str()).collect();
    assert_eq!(first, vec!["first bold", "second"]);
    assert!(nested[1].is_empty());
    assert!(nested[0][0].attrs.is_empty());
}

#[test]
fn refused_selector_finds_nothing() {
    assert!(find_all(PAGE, "p[", &attr_names(&[])).is_empty());
    assert!(find_all(PAGE, "", &attr_names(&[])).is_empty());
    assert!(find_within(PAGE, "div.box", "p[", &attr_names(&[])).is_empty());
    assert!(find_within(PAGE, "][", "p", &attr_names(&[])).is_empty());
    assert!(find_all(PAGE, "table", &attr_names(&[])).is_empty());
    assert_eq!(attr_names(&["a", "b"]), vec!["a", "b"]);
}

#[test]
fn element_without_attributes_asked_has_none() {
    let e = Element {
        name: "a".to_string(),
        text: String::new(),
        inner_html: String::new(),
        attrs: vec![],
    };
    assert_eq!(e.attr(0), None);
}

#[test]
fn nested_lists_pair_up_with_the_outer_matches() {
    for (outer, inner) in [("div.box", "p"), ("p", "b"), ("body", "div"), ("table", "p")] {
        let outers = find_all(PAGE, outer, &attr_names(&["id"]));
        let nested = find_within(PAGE, outer, inner, &attr_names(&[]));
        assert_eq!(outers.len(), nested.len(), "{} {}", outer, inner);
    }
}
