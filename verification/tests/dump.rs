use protobug::dump::{ascii_dump, hex_dump};

#[test]
fn hex_dump_formats_bytes() {
    let (s, lines) = hex_dump(&[0x08, 0x2a], 16);
    assert_eq!(s, "08 2a \n");
    assert_eq!(lines, 1);

    let (s, lines) = hex_dump(&[0x00, 0xff, 0xa5], 16);
    assert_eq!(s, "00 ff a5 \n");
    assert_eq!(lines, 1);
}

#[test]
fn hex_dump_wraps_at_width_bytes() {
    // width 2 bytes: six characters per line
    let (s, lines) = hex_dump(&[1, 2, 3, 4, 5], 2);
    assert_eq!(s, "01 02 \n03 04 \n05 \n");
    assert_eq!(lines, 3);
}

#[test]
fn ascii_dump_previews_bytes() {
    // graphic bytes as themselves, whitespace as a space, the rest dotted
    let (s, lines) = ascii_dump(&[b'A', 0x09, 0x00, b'~', b' ', 0x80], 16);
    assert_eq!(s, "A .~ .\n");
    assert_eq!(lines, 1);
}

#[test]
fn dumps_have_equal_line_counts() {
    let samples: Vec<Vec<u8>> = vec![
        vec![],
        vec![0x01],
        vec![0x00, 0x01, 0x02, 0x03, 0x04, 0x05, 0x06],
        (0u8..=255).collect(),
    ];
    for bytes in &samples {
        for width in [0usize, 1, 2, 7, 16, 100] {
            let (_, hex_lines) = hex_dump(bytes, width);
            let (_, ascii_lines) = ascii_dump(bytes, width);
            assert_eq!(hex_lines, ascii_lines);
        }
    }
}
