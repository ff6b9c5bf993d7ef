use group_manager::color::{hex_to_rgb, ColorError};

#[test]
fn hex_to_rgb_reads_lower_case_components() {
    assert_eq!(hex_to_rgb("#1a2b3c"), Ok((26, 43, 60)));
}

#[test]
fn hex_to_rgb_reads_upper_case_components() {
    assert_eq!(hex_to_rgb("#FFA500"), Ok((255, 165, 0)));
    assert_eq!(hex_to_rgb("#000000"), Ok((0, 0, 0)));
    assert_eq!(hex_to_rgb("#fFfFfF"), Ok((255, 255, 255)));
}

#[test]
fn hex_to_rgb_rejects_empty_string() {
    assert_eq!(hex_to_rgb(""), Err(ColorError::InvalidColorFormat));
}

#[test]
fn hex_to_rgb_rejects_malformed_strings() {
    for bad in [
        "#", "1a2b3c", "#1a2b3", "#1a2b3c4", "#1a2b3g", "x1a2b3c", "#+1a2b3", " #1a2b3c", "#1a 2b3",
        "#1a2b3é",
    ] {
        assert_eq!(hex_to_rgb(bad), Err(ColorError::InvalidColorFormat), "{}", bad);
    }
}
