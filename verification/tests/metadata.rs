use jxl_core::container::{parse_boxes, BOX_TYPE_BROB, BOX_TYPE_EXIF};
use jxl_core::metadata::{
    brob_box, create_brob_box, create_minimal_exif, create_minimal_jumbf, create_minimal_xmp,
};

#[test]
fn exif_with_a_short_text_stores_it_in_the_entry() {
    let data = create_minimal_exif("abc");
    let expected: Vec<u8> = vec![
        0, 0, 0, 0, // offset to the TIFF header
        b'I', b'I', 42, 0, 8, 0, 0, 0, // TIFF header
        1, 0, // one entry
        0x0e, 0x01, 2, 0, 4, 0, 0, 0, // ImageDescription, ASCII, 4 bytes
        b'a', b'b', b'c', 0, // the value
        0, 0, 0, 0, // no further directory
    ];
    assert_eq!(data, expected);
    let empty = create_minimal_exif("");
    assert_eq!(&empty[18..22], &[1, 0, 0, 0]);
    assert_eq!(&empty[22..26], &[0, 0, 0, 0]);
    assert_eq!(empty.len(), 30);
}

#[test]
fn exif_with_a_long_text_stores_it_behind_the_directory() {
    let data = create_minimal_exif("hello");
    let mut expected: Vec<u8> = vec![
        0, 0, 0, 0, b'I', b'I', 42, 0, 8, 0, 0, 0, 1, 0, 0x0e, 0x01, 2, 0, 6, 0, 0, 0,
        26, 0, 0, 0, // offset of the value from the TIFF header
        0, 0, 0, 0,
    ];
    expected.extend_from_slice(b"hello\0");
    assert_eq!(data, expected);
    // the value starts where the entry says
    assert_eq!(&data[4 + 26..4 + 26 + 5], b"hello");
    let four = create_minimal_exif("abcd");
    assert_eq!(&four[18..22], &[5, 0, 0, 0]);
    assert_eq!(&four[30..], b"abcd\0");
}

#[test]
fn xmp_wraps_the_text_in_the_packet() {
    let content = "a <b> & \u{e9}";
    let expected = format!(
        r#"<?xml version="1.0" encoding="UTF-8"?>
<x:xmpmeta xmlns:x="adobe:ns:meta/">
  <rdf:RDF xmlns:rdf="http://www.w3.org/1999/02/22-rdf-syntax-ns#">
    <rdf:Description rdf:about="">
      <dc:description xmlns:dc="http://purl.org/dc/elements/1.1/">{}</dc:description>
    </rdf:Description>
  </rdf:RDF>
</x:xmpmeta>"#,
        content
    )
    .into_bytes();
    assert_eq!(create_minimal_xmp(content), expected);
}

#[test]
fn jumbf_holds_a_description_and_a_json_box() {
    let data = create_minimal_jumbf("label");
    let mut expected: Vec<u8> = Vec::new();
    expected.extend_from_slice(&(8u32 + 16 + 1 + 5 + 1).to_be_bytes());
    expected.extend_from_slice(b"jumd");
    expected.extend_from_slice(&[0u8; 16]);
    expected.push(3);
    expected.extend_from_slice(b"label\0");
    let json = format!(r#"{{"test": "{}"}}"#, "label");
    expected.extend_from_slice(&(8u32 + json.len() as u32).to_be_bytes());
    expected.extend_from_slice(b"json");
    expected.extend_from_slice(json.as_bytes());
    assert_eq!(data, expected);
    // the payload is itself a run of two boxes
    let inner = parse_boxes(&data).unwrap();
    assert_eq!(inner.len(), 2);
    assert_eq!(inner[0].box_type, *b"jumd");
    assert_eq!(inner[1].box_type, *b"json");
    assert_eq!(inner[1].data, br#"{"test": "label"}"#.to_vec());
}

#[test]
fn brob_box_names_the_inner_type() {
    let b = brob_box(&BOX_TYPE_EXIF, &[1, 2, 3]);
    assert_eq!(b.box_type, BOX_TYPE_BROB);
    assert_eq!(b.data, vec![b'E', b'x', b'i', b'f', 1, 2, 3]);
    assert_eq!(brob_box(b"xml ", &[]).data, b"xml ".to_vec());
}

#[test]
fn create_brob_box_compresses_the_payload() {
    let mut payload = Vec::new();
    for i in 0..4000u32 {
        payload.extend_from_slice(format!("line {} of a repetitive text\n", i % 7).as_bytes());
    }
    let b = create_brob_box(&BOX_TYPE_EXIF, &payload).unwrap();
    assert_eq!(b.box_type, BOX_TYPE_BROB);
    assert_eq!(&b.data[..4], &BOX_TYPE_EXIF[..]);
    assert!(b.data.len() < payload.len() / 4);
    let mut restored = Vec::new();
    brotli::BrotliDecompress(&mut std::io::Cursor::new(&b.data[4..]), &mut restored).unwrap();
    assert_eq!(restored, payload);

    let empty = create_brob_box(b"jumb", &[]).unwrap();
    assert_eq!(&empty.data[..4], b"jumb");
    let mut nothing = Vec::new();
    brotli::BrotliDecompress(&mut std::io::Cursor::new(&empty.data[4..]), &mut nothing).unwrap();
    assert!(nothing.is_empty());
}
