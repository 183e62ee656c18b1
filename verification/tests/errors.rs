use starsight::error::StarsightError;

#[test]
fn error_texts_quote_the_detail() {
    assert_eq!(
        StarsightError::Render("bad path".to_string()).to_string(),
        "Rendering backend failure: `bad path`"
    );
    assert_eq!(StarsightError::Data("len".to_string()).to_string(), "Data shape/type mismatch: `len`");
    assert_eq!(StarsightError::Scale("zero".to_string()).to_string(), "Scale domain/range error: `zero`");
    assert_eq!(StarsightError::Export("png".to_string()).to_string(), "Export format error: `png`");
    assert_eq!(
        StarsightError::Config("theme".to_string()).to_string(),
        "Invalid configuration error: `theme`"
    );
    assert_eq!(StarsightError::Unknown(String::new()).to_string(), "Unknown error: ``");
}

#[test]
fn io_error_text_wraps_the_io_message() {
    let e = std::io::Error::new(std::io::ErrorKind::Other, "disk full");
    assert_eq!(StarsightError::Io(e).to_string(), "File I/O error: `disk full`");
}
