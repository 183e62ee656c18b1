//! Vector backend: an in-memory SVG document.
//!
//! The backend records one markup fragment per drawn element, in drawing
//! order. [`SvgBackend::svg_string`] frames them in an `<svg>` root element of
//! the canvas size; the `svg` crate serializes the frame.
use svg::node::Blob;
use svg::Document;
use crate::text::decimal_text;
use vstd::prelude::*;

verus! {

/// The opening of the `<svg>` root element of a `width × height` canvas, up
/// to and excluding its closing `>` or `/>`. Attributes stand in name order.
pub open spec fn svg_open_tag(width: u32, height: u32) -> Seq<char> {
    "<svg height=\""@ + decimal_text(height as nat) + "\" viewBox=\"0 0 "@ + decimal_text(
        width as nat,
    ) + " "@ + decimal_text(height as nat) + "\" width=\""@ + decimal_text(width as nat)
        + "\" xmlns=\"http://www.w3.org/2000/svg\""@
}

/// The fragments joined by newlines.
pub open spec fn joined_lines(parts: Seq<Seq<char>>) -> Seq<char>
    decreases parts.len(),
{
    if parts.len() == 0 {
        Seq::empty()
    } else if parts.len() == 1 {
        parts[0]
    } else {
        joined_lines(parts.drop_last()) + seq!['\n'] + parts.last()
    }
}

/// The SVG document text of a `width × height` canvas holding `elements`:
/// an empty root element when there are none, otherwise each element on a
/// line of its own between the root's opening and closing tags.
pub open spec fn svg_document_text(width: u32, height: u32, elements: Seq<Seq<char>>) -> Seq<
    char,
> {
    if elements.len() == 0 {
        svg_open_tag(width, height) + "/>"@
    } else {
        svg_open_tag(width, height) + ">\n"@ + joined_lines(elements) + "\n</svg>"@
    }
}

/// Serializes, with the `svg` crate, a `Document` that has no child and the
/// attributes `viewBox = (0, 0, width, height)`, `xmlns`, `width` and
/// `height`. Claims that `Display` of such an `svg::Document` writes the
/// element name and its attributes sorted by name, each value as the
/// decimal text of the number, and closes the empty element with `/>`, as
/// `Element`'s `fmt` in the crate's source does.
#[verifier::external_body]
fn render_empty_svg(width: u32, height: u32) -> (s: String)
    ensures
        s@ == svg_open_tag(width, height) + "/>"@,
{
    Document::new()
        .set("viewBox", (0, 0, width, height))
        .set("xmlns", "http://www.w3.org/2000/svg")
        .set("width", width)
        .set("height", height)
        .to_string()
}

/// Serializes, with the `svg` crate, the same `Document` as
/// `render_empty_svg` with one child: `svg::node::Blob` holding `body`.
/// Claims that the crate writes the opening tag, a newline, the blob's
/// content unchanged, a newline and `</svg>`: a `Blob` displays its content
/// as it is and is not a bare node, so `Element`'s `fmt` puts it on a line
/// of its own.
#[verifier::external_body]
fn render_svg_with_body(width: u32, height: u32, body: &String) -> (s: String)
    ensures
        s@ == svg_open_tag(width, height) + ">\n"@ + body@ + "\n</svg>"@,
{
    Document::new()
        .set("viewBox", (0, 0, width, height))
        .set("xmlns", "http://www.w3.org/2000/svg")
        .set("width", width)
        .set("height", height)
        .add(Blob::new(body.clone()))
        .to_string()
}

/// In-memory SVG document builder.
pub struct SvgBackend {
    width: u32,
    height: u32,
    elements: Vec<String>,
}

impl View for SvgBackend {
    /// Canvas width, canvas height, and the markup of each drawn element in order.
    type V = (u32, u32, Seq<Seq<char>>);

    closed spec fn view(&self) -> (u32, u32, Seq<Seq<char>>) {
        (self.width, self.height, self.elements@.map_values(|e: String| e@))
    }
}

impl SvgBackend {
    /// Create an empty SVG document of `width × height` pixels.
    pub fn new(width: u32, height: u32) -> (b: SvgBackend)
        ensures
            b@ == (width, height, Seq::<Seq<char>>::empty()),
    {
        let b = SvgBackend { width, height, elements: Vec::new() };
        assert(b@.2 =~= Seq::<Seq<char>>::empty());
        b
    }

    /// Output dimensions in pixels.
    pub fn dimensions(&self) -> (d: (u32, u32))
        ensures
            d == (self@.0, self@.1),
    {
        (self.width, self.height)
    }

    /// Record the markup of one more drawn element, after all earlier ones.
    pub fn push_element(&mut self, markup: String)
        ensures
            final(self)@ == (old(self)@.0, old(self)@.1, old(self)@.2.push(markup@)),
    {
        self.elements.push(markup);
        assert(self@.2 =~= old(self)@.2.push(markup@));
    }

    /// The drawn elements joined by newlines.
    fn joined_elements(&self) -> (s: String)
        ensures
            s@ == joined_lines(self@.2),
    {
        let mut s = String::new();
        let n = self.elements.len();
        let ghost parts = self@.2;
        let mut i: usize = 0;
        while i < n
            invariant
                0 <= i <= n,
                n == self.elements.len(),
                parts == self@.2,
                parts.len() == n,
                s@ == joined_lines(parts.take(i as int)),
            decreases n - i,
        {
            assert(parts.take(i + 1).drop_last() =~= parts.take(i as int));
            assert(parts[i as int] == self.elements[i as int]@);
            if i > 0 {
                s.append("\n");
                proof {
                    reveal_strlit("\n");
                }
            } else {
                assert(s@ =~= Seq::<char>::empty());
            }
            s.append(self.elements[i].as_str());
            i = i + 1;
            assert(s@ =~= joined_lines(parts.take(i as int)));
        }
        assert(parts.take(n as int) =~= parts);
        s
    }

    /// Serialize the current document to a string.
    pub fn svg_string(&self) -> (s: String)
        ensures
            s@ == svg_document_text(self@.0, self@.1, self@.2),
    {
        if self.elements.len() == 0 {
            render_empty_svg(self.width, self.height)
        } else {
            let body = self.joined_elements();
            render_svg_with_body(self.width, self.height, &body)
        }
    }
}

} // verus!
