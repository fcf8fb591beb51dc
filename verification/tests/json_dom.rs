use reverse_image_search::dom::Document;
use reverse_image_search::json::{descend, steps3, string_at, string_member, Json};

#[test]
fn json_documents_are_read_into_the_model() {
    let doc = Json::parse(r#"{"b":[1,2.5,"x",null,true],"a":{"k":"v"},"n":-3}"#).unwrap();
    assert_eq!(string_member(doc.get("a").unwrap(), "k").unwrap(), "v");
    assert!(doc.get("missing").is_none());
    let list = doc.get("b").unwrap().as_array().unwrap();
    assert_eq!(list.len(), 5);
    assert_eq!(list[0].as_number().unwrap(), "1");
    assert_eq!(list[1].as_number().unwrap(), "2.5");
    assert_eq!(list[2].as_text().unwrap(), "x");
    assert!(matches!(list[3], Json::Null));
    assert!(matches!(list[4], Json::Bool(true)));
    assert_eq!(doc.get("n").unwrap().as_number().unwrap(), "-3");
    assert!(doc.at(0).is_none());
    assert!(list[2].get("k").is_none());
}

#[test]
fn text_that_is_no_json_is_rejected() {
    assert!(Json::parse("[1,2").is_err());
    assert!(Json::parse("").is_err());
    assert!(Json::parse("{'a':1}").is_err());
}

#[test]
fn paths_through_nested_lists() {
    let doc = Json::parse(r#"[[0,[10,11,["deep"]]],"top"]"#).unwrap();
    assert_eq!(string_at(&doc, &steps3(0, 1, 2)), None);
    assert_eq!(string_at(descend(&doc, &steps3(0, 1, 2)).unwrap(), &vec![0]).unwrap(), "deep");
    assert_eq!(string_at(&doc, &vec![1]).unwrap(), "top");
    assert!(descend(&doc, &vec![2]).is_none());
    assert!(descend(&doc, &vec![1, 0]).is_none());
    assert!(descend(&doc, &vec![]).is_some());
}

#[test]
fn documents_answer_selector_queries() {
    let page = Document::parse(
        "<html><body><div id=\"a\" class=\"box\"><p>one <b>two</b></p><img src=\"/i.png\"> tail <a href=\"//h/p\">link</a></div><div class=\"box\"><p>three</p></div></body></html>",
    );
    let boxes = page.select(".box");
    assert_eq!(boxes.len(), 2);
    assert_eq!(page.attr(boxes[0], "id").unwrap(), "a");
    assert!(page.attr(boxes[1], "id").is_none());
    assert_eq!(page.text(boxes[0]).unwrap(), "one two tail link");
    assert_eq!(page.first_text_under(boxes[1], "p").unwrap(), "three");
    assert_eq!(page.first_attr_under(boxes[0], "a", "href").unwrap(), "//h/p");
    assert!(page.first_under(boxes[1], "a").is_none());
    let image = page.first_under(boxes[0], "img").unwrap();
    assert_eq!(page.text_after(image).unwrap(), " tail ");
    assert!(page.text_after(boxes[1]).is_none());
    assert_eq!(page.select_under(boxes[0], "p, a").len(), 2);
    assert!(page.select("p[[").is_empty());
    assert!(page.select_under(usize::MAX, "p").is_empty());
    assert!(page.text(usize::MAX).is_none());
}
