use jxl_core::container::{
    insert_metadata, insertion_index, is_bare_codestream, is_jxl_container, parse_boxes,
    same_type, serialize_boxes, wrap_in_container, Box, BoxError, BOX_TYPE_EXIF, BOX_TYPE_FTYP,
    BOX_TYPE_JXLC, BOX_TYPE_JXLP, BOX_TYPE_XML, JXL_SIGNATURE,
};

fn typed(t: &[u8; 4]) -> Box {
    Box::new(*t, vec![t[0]])
}

fn types(boxes: &[Box]) -> Vec<[u8; 4]> {
    boxes.iter().map(|b| b.box_type).collect()
}

#[test]
fn box_to_bytes_writes_length_type_payload() {
    let b = Box::new(*b"Exif", vec![1, 2, 3]);
    assert_eq!(b.to_bytes(), vec![0, 0, 0, 11, b'E', b'x', b'i', b'f', 1, 2, 3]);
}

#[test]
fn parse_boxes_reads_back_what_to_bytes_wrote() {
    let a = Box::new(*b"Exif", vec![9; 300]);
    let b = Box::new(*b"xml ", vec![]);
    let mut data = a.to_bytes();
    data.extend_from_slice(&b.to_bytes());
    let boxes = parse_boxes(&data).unwrap();
    assert_eq!(boxes.len(), 2);
    assert_eq!(boxes[0].box_type, *b"Exif");
    assert_eq!(boxes[0].data, vec![9; 300]);
    assert_eq!(boxes[1].box_type, *b"xml ");
    assert!(boxes[1].data.is_empty());
}

#[test]
fn wrap_in_container_gives_three_boxes() {
    let codestream = [0xff, 0x0a, 1, 2, 3];
    assert!(is_bare_codestream(&codestream));
    assert!(!is_jxl_container(&codestream));
    let file = wrap_in_container(&codestream);
    assert!(is_jxl_container(&file));
    assert_eq!(&file[..12], &JXL_SIGNATURE[..]);
    let boxes = parse_boxes(&file).unwrap();
    assert_eq!(boxes.len(), 3);
    assert_eq!(boxes[0].box_type, *b"JXL ");
    assert_eq!(boxes[0].data, vec![0x0d, 0x0a, 0x87, 0x0a]);
    assert_eq!(boxes[1].box_type, BOX_TYPE_FTYP);
    assert_eq!(boxes[1].data, b"jxl \x00\x00\x00\x00jxl ".to_vec());
    assert_eq!(boxes[2].box_type, BOX_TYPE_JXLC);
    assert_eq!(boxes[2].data, codestream.to_vec());
}

#[test]
fn parse_boxes_reports_each_error() {
    // length field 1 and fewer than 16 bytes
    let truncated = [0, 0, 0, 1, b'a', b'b', b'c', b'd', 0, 0];
    assert_eq!(parse_boxes(&truncated).unwrap_err(), BoxError::TruncatedExtendedSize);
    // claims 20 bytes, 9 are there
    let beyond = [0, 0, 0, 20, b'a', b'b', b'c', b'd', 7];
    assert_eq!(
        parse_boxes(&beyond).unwrap_err(),
        BoxError::BoxExtendsBeyondFile { offset: 0, length: 20, file_size: 9 }
    );
    // claims 4 bytes, less than its header
    let short = [0, 0, 0, 4, b'a', b'b', b'c', b'd'];
    assert_eq!(
        parse_boxes(&short).unwrap_err(),
        BoxError::BoxShorterThanHeader { offset: 0, length: 4 }
    );
}

#[test]
fn extended_sizes_and_boxes_to_the_end_of_the_file() {
    // length field 1: the length follows in eight bytes
    let mut data = vec![0, 0, 0, 1, b'b', b'i', b'g', b'!', 0, 0, 0, 0, 0, 0, 0, 19, 1, 2, 3];
    // length field 0: the box runs to the end
    data.extend_from_slice(&[0, 0, 0, 0, b'l', b'a', b's', b't', 9, 9]);
    let boxes = parse_boxes(&data).unwrap();
    assert_eq!(boxes.len(), 2);
    assert_eq!(boxes[0].box_type, *b"big!");
    assert_eq!(boxes[0].data, vec![1, 2, 3]);
    assert_eq!(boxes[1].box_type, *b"last");
    assert_eq!(boxes[1].data, vec![9, 9]);

    // an extended length shorter than its own header
    let short = [0, 0, 0, 1, b'b', b'i', b'g', b'!', 0, 0, 0, 0, 0, 0, 0, 15];
    assert_eq!(
        parse_boxes(&short).unwrap_err(),
        BoxError::BoxShorterThanHeader { offset: 0, length: 15 }
    );
    // an extended length beyond the file, and beyond any file
    let far = [0, 0, 0, 1, b'b', b'i', b'g', b'!', 0xff, 0xff, 0xff, 0xff, 0xff, 0xff, 0xff, 0xff];
    assert_eq!(
        parse_boxes(&far).unwrap_err(),
        BoxError::BoxExtendsBeyondFile { offset: 0, length: u64::MAX, file_size: 16 }
    );
}

#[test]
fn trailing_bytes_short_of_a_header_are_passed_over() {
    let mut data = Box::new(*b"Exif", vec![5]).to_bytes();
    data.extend_from_slice(&[1, 2, 3, 4, 5, 6, 7]);
    let boxes = parse_boxes(&data).unwrap();
    assert_eq!(boxes.len(), 1);
    assert!(parse_boxes(&[]).unwrap().is_empty());
    assert!(parse_boxes(&[0; 7]).unwrap().is_empty());
}

#[test]
fn errors_name_the_offset_of_the_bad_box() {
    let mut data = Box::new(*b"Exif", vec![5; 3]).to_bytes();
    data.extend_from_slice(&[0, 0, 0, 50, b'x', b'm', b'l', b' ', 1]);
    assert_eq!(
        parse_boxes(&data).unwrap_err(),
        BoxError::BoxExtendsBeyondFile { offset: 11, length: 50, file_size: 20 }
    );
}

#[test]
fn metadata_goes_behind_the_file_type_box() {
    let boxes = vec![typed(b"JXL "), typed(b"ftyp"), typed(b"jxlc")];
    assert_eq!(insertion_index(&boxes), 2);
    // without a file-type box: behind the signature
    assert_eq!(insertion_index(&vec![typed(b"JXL "), typed(b"jxlc")]), 1);
    assert_eq!(insertion_index(&vec![typed(b"JXL ")]), 1);
    // a file-type box behind the codestream does not count
    assert_eq!(insertion_index(&vec![typed(b"JXL "), typed(b"jxlp"), typed(b"ftyp")]), 1);
    // the last file-type box before the codestream counts
    let many = vec![
        typed(b"JXL "),
        typed(b"ftyp"),
        typed(b"Exif"),
        typed(b"ftyp"),
        typed(b"xml "),
        typed(b"jxlp"),
        typed(b"ftyp"),
    ];
    assert_eq!(insertion_index(&many), 4);
    assert_eq!(insertion_index(&vec![typed(b"ftyp")]), 1);
    assert_eq!(insertion_index(&vec![typed(b"Exif"), typed(b"xml "), typed(b"ftyp")]), 3);
}

#[test]
fn insert_metadata_keeps_the_order() {
    let mut boxes = vec![typed(b"JXL "), typed(b"ftyp"), typed(b"jxlc")];
    insert_metadata(&mut boxes, vec![typed(&BOX_TYPE_EXIF), typed(&BOX_TYPE_XML), typed(b"jumb")]);
    assert_eq!(
        types(&boxes),
        vec![*b"JXL ", BOX_TYPE_FTYP, BOX_TYPE_EXIF, BOX_TYPE_XML, *b"jumb", BOX_TYPE_JXLC]
    );
    insert_metadata(&mut boxes, vec![]);
    assert_eq!(boxes.len(), 6);
    let mut bare = vec![typed(b"JXL "), typed(&BOX_TYPE_JXLP), typed(&BOX_TYPE_JXLP)];
    insert_metadata(&mut bare, vec![typed(&BOX_TYPE_EXIF)]);
    assert_eq!(types(&bare), vec![*b"JXL ", BOX_TYPE_EXIF, BOX_TYPE_JXLP, BOX_TYPE_JXLP]);
    let mut single = vec![typed(b"JXL ")];
    insert_metadata(&mut single, vec![typed(&BOX_TYPE_EXIF)]);
    assert_eq!(types(&single), vec![*b"JXL ", BOX_TYPE_EXIF]);
}

#[test]
fn serialize_boxes_writes_the_signature_as_it_is() {
    let file = wrap_in_container(&[0xff, 0x0a, 1]);
    let mut boxes = parse_boxes(&file).unwrap();
    assert_eq!(serialize_boxes(&boxes), file);
    insert_metadata(&mut boxes, vec![Box::new(BOX_TYPE_EXIF, vec![1, 2])]);
    let out = serialize_boxes(&boxes);
    assert_eq!(&out[..12], &JXL_SIGNATURE[..]);
    assert_eq!(&out[12..32], &file[12..32]);
    assert_eq!(&out[32..42], &[0, 0, 0, 10, b'E', b'x', b'i', b'f', 1, 2]);
    assert_eq!(&out[42..], &file[32..]);
    let again = parse_boxes(&out).unwrap();
    assert_eq!(types(&again), types(&boxes));

    // a leading box typed `JXL ` is written as the signature whatever it holds
    let odd = vec![Box::new(*b"JXL ", vec![1, 2, 3]), typed(b"Exif")];
    let mut expected = JXL_SIGNATURE.to_vec();
    expected.extend_from_slice(&typed(b"Exif").to_bytes());
    assert_eq!(serialize_boxes(&odd), expected);
    // elsewhere such a box is written like any other
    let later = vec![typed(b"Exif"), Box::new(*b"JXL ", vec![1, 2, 3])];
    let mut expected = typed(b"Exif").to_bytes();
    expected.extend_from_slice(&[0, 0, 0, 11, b'J', b'X', b'L', b' ', 1, 2, 3]);
    assert_eq!(serialize_boxes(&later), expected);
    assert!(serialize_boxes(&vec![]).is_empty());
}

#[test]
fn same_type_compares_all_four_bytes() {
    assert!(same_type(b"Exif", &BOX_TYPE_EXIF));
    assert!(!same_type(b"Exif", b"Exig"));
    assert!(!same_type(b"exif", b"Exif"));
    assert!(!same_type(b"jxlc", b"jxlp"));
}
