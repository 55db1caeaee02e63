use mirkobo::device::parse_fbset_geometry;

const FBSET: &str = "\nmode \"1072x1448-0\"\n\t# D: 0.000 MHz, H: 0.000 kHz, V: 0.000 Hz\n\tgeometry 1072 1448 1072 2896 32\n\ttimings 0 0 0 0 0 0 0\nendmode\n";

#[test]
fn reads_geometry_line() {
    assert_eq!(parse_fbset_geometry(FBSET.as_bytes()), Some((1072, 1448)));
}

#[test]
fn last_line_without_newline() {
    assert_eq!(parse_fbset_geometry(b"a\nb\nc\ngeometry 600 800"), Some((600, 800)));
}

#[test]
fn too_few_lines() {
    assert_eq!(parse_fbset_geometry(b"a\nb\ngeometry 600 800 1 1 32\n"), None);
    assert_eq!(parse_fbset_geometry(b""), None);
}

#[test]
fn too_few_fields() {
    assert_eq!(parse_fbset_geometry(b"a\nb\nc\ngeometry 600\n"), None);
}

#[test]
fn numbers_must_be_decimal_u32() {
    assert_eq!(parse_fbset_geometry(b"a\nb\nc\ngeometry 60x 800\n"), None);
    assert_eq!(parse_fbset_geometry(b"a\nb\nc\ngeometry  600 800\n"), None);
    assert_eq!(parse_fbset_geometry(b"a\nb\nc\ngeometry 4294967296 1\n"), None);
    assert_eq!(parse_fbset_geometry(b"a\nb\nc\ngeometry 4294967295 +7\n"), Some((4294967295, 7)));
    assert_eq!(parse_fbset_geometry(b"a\nb\nc\ngeometry + 7\n"), None);
}
