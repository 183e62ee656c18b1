use starsight::vectors::SvgBackend;

#[test]
fn dimensions_returns_size() {
    let b = SvgBackend::new(300, 200);
    assert_eq!(b.dimensions(), (300, 200));
}

#[test]
fn empty_document_is_an_empty_root() {
    let b = SvgBackend::new(300, 200);
    assert_eq!(
        b.svg_string(),
        "<svg height=\"200\" viewBox=\"0 0 300 200\" width=\"300\" xmlns=\"http://www.w3.org/2000/svg\"/>"
    );
}

#[test]
fn elements_stand_on_their_own_lines_in_drawing_order() {
    let mut b = SvgBackend::new(20, 10);
    b.push_element("<rect x=\"0\"/>".to_string());
    b.push_element("<text>\nhi\n</text>".to_string());
    assert_eq!(
        b.svg_string(),
        "<svg height=\"10\" viewBox=\"0 0 20 10\" width=\"20\" xmlns=\"http://www.w3.org/2000/svg\">\n<rect x=\"0\"/>\n<text>\nhi\n</text>\n</svg>"
    );
    assert_eq!(b.dimensions(), (20, 10));
}

#[test]
fn document_matches_svg_crate_children() {
    // The same document built with element children directly.
    let rect = svg::node::element::Rectangle::new().set("x", 1).set("fill", "#ff0000");
    let expected = svg::Document::new()
        .set("viewBox", (0, 0, 7u32, 9u32))
        .set("xmlns", "http://www.w3.org/2000/svg")
        .set("width", 7u32)
        .set("height", 9u32)
        .add(rect.clone())
        .to_string();
    let mut b = SvgBackend::new(7, 9);
    b.push_element(rect.to_string());
    assert_eq!(b.svg_string(), expected);
}

#[test]
fn document_matches_svg_crate_with_several_children() {
    let rect = svg::node::element::Rectangle::new().set("x", 1).set("fill", "#ff0000");
    let circle = svg::node::element::Circle::new().set("cx", 3).set("r", 2);
    let text = svg::node::element::Text::new("hi").set("x", 4);
    let line = svg::node::element::Line::new().set("x1", 0).set("x2", 5);
    let expected = svg::Document::new()
        .set("viewBox", (0, 0, 12u32, 8u32))
        .set("xmlns", "http://www.w3.org/2000/svg")
        .set("width", 12u32)
        .set("height", 8u32)
        .add(rect.clone())
        .add(circle.clone())
        .add(text.clone())
        .add(line.clone())
        .to_string();
    let mut b = SvgBackend::new(12, 8);
    b.push_element(rect.to_string());
    b.push_element(circle.to_string());
    b.push_element(text.to_string());
    b.push_element(line.to_string());
    assert_eq!(b.svg_string(), expected);
}
