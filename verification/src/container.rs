//! The box layer of the JPEG XL container: a file is a run of boxes, each a
//! big-endian length, a four-byte type and a payload.

use vstd::prelude::*;

verus! {

/// Type of the file-type box.
pub const BOX_TYPE_FTYP: [u8; 4] = [0x66, 0x74, 0x79, 0x70];

/// Type of the box that holds a whole codestream.
pub const BOX_TYPE_JXLC: [u8; 4] = [0x6a, 0x78, 0x6c, 0x63];

/// Type of a box that holds part of a codestream.
pub const BOX_TYPE_JXLP: [u8; 4] = [0x6a, 0x78, 0x6c, 0x70];

/// Type of an EXIF metadata box.
pub const BOX_TYPE_EXIF: [u8; 4] = [0x45, 0x78, 0x69, 0x66];

/// Type of an XML (XMP) metadata box.
pub const BOX_TYPE_XML: [u8; 4] = [0x78, 0x6d, 0x6c, 0x20];

/// Type of a JUMBF metadata box.
pub const BOX_TYPE_JUMB: [u8; 4] = [0x6a, 0x75, 0x6d, 0x62];

/// Type of a box whose payload is another box, Brotli-compressed.
pub const BOX_TYPE_BROB: [u8; 4] = [0x62, 0x72, 0x6f, 0x62];

/// Type of the signature box, `JXL ` followed by a space.
pub const BOX_TYPE_SIGNATURE: [u8; 4] = [0x4a, 0x58, 0x4c, 0x20];

/// The twelve bytes every container file starts with: the signature box.
pub const JXL_SIGNATURE: [u8; 12] = [
    0x00, 0x00, 0x00, 0x0c, 0x4a, 0x58, 0x4c, 0x20, 0x0d, 0x0a, 0x87, 0x0a,
];

/// Payload of the file-type box of a JPEG XL container: brand `jxl `, minor
/// version 0, one compatible brand `jxl `.
pub const FTYP_PAYLOAD: [u8; 12] = [
    0x6a, 0x78, 0x6c, 0x20, 0x00, 0x00, 0x00, 0x00, 0x6a, 0x78, 0x6c, 0x20,
];

/// What a box is, as mathematics: its type and its payload.
pub struct BoxView {
    pub box_type: Seq<u8>,
    pub data: Seq<u8>,
}

/// One box of a container file.
#[derive(Debug, Clone)]
pub struct Box {
    pub box_type: [u8; 4],
    pub data: Vec<u8>,
}

impl View for Box {
    type V = BoxView;

    open spec fn view(&self) -> BoxView {
        BoxView { box_type: self.box_type@, data: self.data@ }
    }
}

/// Why a byte string is not a run of boxes.
#[derive(Debug, Clone, Copy, PartialEq, Eq, Structural)]
pub enum BoxError {
    /// A box announces a 64-bit length but the file ends inside that field.
    TruncatedExtendedSize,
    /// The box that starts at `offset` claims `length` bytes, more than are
    /// left of the `file_size` bytes.
    BoxExtendsBeyondFile { offset: usize, length: u64, file_size: usize },
    /// The box that starts at `offset` claims `length` bytes, fewer than its
    /// own header takes.
    BoxShorterThanHeader { offset: usize, length: u64 },
}

/// The four bytes of `n` in big-endian order.
pub open spec fn be32(n: int) -> Seq<u8> {
    seq![
        ((n / 0x100_0000) % 0x100) as u8,
        ((n / 0x1_0000) % 0x100) as u8,
        ((n / 0x100) % 0x100) as u8,
        (n % 0x100) as u8,
    ]
}

/// The eight bytes of `n` in big-endian order.
pub open spec fn be64(n: int) -> Seq<u8> {
    be32(n / 0x1_0000_0000) + be32(n % 0x1_0000_0000)
}

/// The number that four bytes of `s`, from index `at` on, spell in big-endian.
pub open spec fn be32_at(s: Seq<u8>, at: int) -> int {
    s[at] * 0x100_0000 + s[at + 1] * 0x1_0000 + s[at + 2] * 0x100 + s[at + 3]
}

/// The number that eight bytes of `s`, from index `at` on, spell in big-endian.
pub open spec fn be64_at(s: Seq<u8>, at: int) -> int {
    be32_at(s, at) * 0x1_0000_0000 + be32_at(s, at + 4)
}

/// The bytes of a box with the given type and payload. A box of up to
/// 2^32 - 1 bytes has an eight-byte header; a longer one writes 1 in the
/// length field and its true length in eight more bytes.
pub open spec fn encode(box_type: Seq<u8>, data: Seq<u8>) -> Seq<u8> {
    if 8 + data.len() <= 0xffff_ffff {
        be32(8 + data.len() as int) + box_type + data
    } else {
        be32(1) + box_type + be64(16 + data.len() as int) + data
    }
}

/// The views of a run of boxes.
pub open spec fn views(boxes: Seq<Box>) -> Seq<BoxView> {
    boxes.map_values(|b: Box| b@)
}

/// Header length of the box at the start of `rest`: 16 where the length
/// field holds 1, else 8.
pub open spec fn header_len(rest: Seq<u8>) -> int {
    if be32_at(rest, 0) == 1 {
        16
    } else {
        8
    }
}

/// Total length that the box at the start of `rest` claims. A length field
/// of 0 means that the box runs to the end of the file.
pub open spec fn claimed_len(rest: Seq<u8>) -> int {
    let length = be32_at(rest, 0);
    if length == 1 {
        be64_at(rest, 8)
    } else if length == 0 {
        rest.len() as int
    } else {
        length
    }
}

/// The boxes of a file of which `consumed` bytes have been read and `rest`
/// is left. Fewer than eight bytes at the end belong to no box and are
/// passed over.
pub open spec fn parse_rest(rest: Seq<u8>, consumed: int) -> Result<Seq<BoxView>, BoxError>
    decreases rest.len(),
{
    if rest.len() < 8 {
        Ok(Seq::empty())
    } else if be32_at(rest, 0) == 1 && rest.len() < 16 {
        Err(BoxError::TruncatedExtendedSize)
    } else if claimed_len(rest) > rest.len() {
        Err(
            BoxError::BoxExtendsBeyondFile {
                offset: consumed as usize,
                length: claimed_len(rest) as u64,
                file_size: (consumed + rest.len()) as usize,
            },
        )
    } else if claimed_len(rest) < header_len(rest) {
        Err(
            BoxError::BoxShorterThanHeader {
                offset: consumed as usize,
                length: claimed_len(rest) as u64,
            },
        )
    } else {
        let first = BoxView {
            box_type: rest.subrange(4, 8),
            data: rest.subrange(header_len(rest), claimed_len(rest)),
        };
        prepend(
            seq![first],
            parse_rest(rest.skip(claimed_len(rest)), consumed + claimed_len(rest)),
        )
    }
}

/// `prefix` put before the boxes of a later part of the file; an error of
/// that part stands.
pub open spec fn prepend(prefix: Seq<BoxView>, later: Result<Seq<BoxView>, BoxError>) -> Result<
    Seq<BoxView>,
    BoxError,
> {
    match later {
        Ok(others) => Ok(prefix + others),
        Err(e) => Err(e),
    }
}

/// The boxes of a whole file.
pub open spec fn parse_spec(data: Seq<u8>) -> Result<Seq<BoxView>, BoxError> {
    parse_rest(data, 0)
}

/// The file starts with the container signature.
pub open spec fn container_spec(data: Seq<u8>) -> bool {
    data.len() >= 12 && data.subrange(0, 12) == JXL_SIGNATURE@
}

/// The file starts with the two bytes of a bare codestream.
pub open spec fn codestream_spec(data: Seq<u8>) -> bool {
    data.len() >= 2 && data[0] == 0xff && data[1] == 0x0a
}

/// The bytes of a run of boxes, one after the other.
pub open spec fn encode_all(boxes: Seq<BoxView>) -> Seq<u8>
    decreases boxes.len(),
{
    if boxes.len() == 0 {
        Seq::empty()
    } else {
        encode(boxes[0].box_type, boxes[0].data) + encode_all(boxes.skip(1))
    }
}

/// A bare codestream wrapped into a container: the signature, a file-type
/// box and one box that holds the whole codestream.
pub open spec fn wrap_spec(codestream: Seq<u8>) -> Seq<u8> {
    JXL_SIGNATURE@ + encode(BOX_TYPE_FTYP@, FTYP_PAYLOAD@) + encode(BOX_TYPE_JXLC@, codestream)
}

/// The box holds codestream data, whole or in part.
pub open spec fn is_codestream_box(b: BoxView) -> bool {
    b.box_type == BOX_TYPE_JXLC@ || b.box_type == BOX_TYPE_JXLP@
}

/// How many boxes stand before the first codestream box.
pub open spec fn leading_boxes(boxes: Seq<BoxView>) -> int
    decreases boxes.len(),
{
    if boxes.len() == 0 || is_codestream_box(boxes[0]) {
        0
    } else {
        1 + leading_boxes(boxes.skip(1))
    }
}

/// Where new metadata goes among the first `limit` boxes: behind the last
/// file-type box of them, and at index 1, behind the signature, where they
/// hold none.
pub open spec fn insertion_among(boxes: Seq<BoxView>, limit: int) -> int
    decreases limit,
{
    if limit <= 0 {
        1
    } else if boxes[limit - 1].box_type == BOX_TYPE_FTYP@ {
        limit
    } else {
        insertion_among(boxes, limit - 1)
    }
}

/// Where new metadata boxes are inserted: behind the last file-type box
/// that precedes the codestream.
pub open spec fn insertion_spec(boxes: Seq<BoxView>) -> int {
    insertion_among(boxes, leading_boxes(boxes))
}

/// The bytes written for the first box of a file: a box typed `JXL ` is
/// written as the signature, whatever it holds.
pub open spec fn first_bytes(b: BoxView) -> Seq<u8> {
    if b.box_type == BOX_TYPE_SIGNATURE@ {
        JXL_SIGNATURE@
    } else {
        encode(b.box_type, b.data)
    }
}

/// The bytes of a container file made of `boxes`.
pub open spec fn serialize_spec(boxes: Seq<BoxView>) -> Seq<u8> {
    if boxes.len() == 0 {
        Seq::empty()
    } else {
        first_bytes(boxes[0]) + encode_all(boxes.skip(1))
    }
}

/// Appends the four big-endian bytes of `n`.
pub(crate) fn push_be32(out: &mut Vec<u8>, n: u32)
    ensures
        final(out)@ == old(out)@ + be32(n as int),
{
    out.push((n / 0x100_0000) as u8);
    out.push(((n / 0x1_0000) % 0x100) as u8);
    out.push(((n / 0x100) % 0x100) as u8);
    out.push((n % 0x100) as u8);
    assert(out@ =~= old(out)@ + be32(n as int));
}

/// Appends the eight big-endian bytes of `n`.
fn push_be64(out: &mut Vec<u8>, n: u64)
    ensures
        final(out)@ == old(out)@ + be64(n as int),
{
    push_be32(out, (n / 0x1_0000_0000) as u32);
    push_be32(out, (n % 0x1_0000_0000) as u32);
    assert(out@ =~= old(out)@ + be64(n as int));
}

/// Reads four bytes from index `at` as a big-endian number.
fn read_be32(data: &[u8], at: usize) -> (n: u32)
    requires
        at + 4 <= data@.len(),
    ensures
        n == be32_at(data@, at as int),
{
    let len: usize = data.len();
    assert(at + 4 <= len);
    let b0: u32 = data[at] as u32;
    let b1: u32 = data[at + 1] as u32;
    let b2: u32 = data[at + 2] as u32;
    let b3: u32 = data[at + 3] as u32;
    b0 * 0x100_0000 + b1 * 0x1_0000 + b2 * 0x100 + b3
}

/// Reads eight bytes from index `at` as a big-endian number.
fn read_be64(data: &[u8], at: usize) -> (n: u64)
    requires
        at + 8 <= data@.len(),
    ensures
        n == be64_at(data@, at as int),
{
    let len: usize = data.len();
    assert(at + 8 <= len);
    let hi: u64 = read_be32(data, at) as u64;
    let lo: u64 = read_be32(data, at + 4) as u64;
    hi * 0x1_0000_0000 + lo
}

impl Box {
    pub fn new(box_type: [u8; 4], data: Vec<u8>) -> (r: Box)
        ensures
            r.box_type == box_type,
            r.data == data,
    {
        Box { box_type, data }
    }

    /// Serialises the box: header, then payload.
    pub fn to_bytes(&self) -> (r: Vec<u8>)
        requires
            self.data@.len() + 16 <= usize::MAX,
        ensures
            r@ == encode(self.box_type@, self.data@),
    {
        let payload_len: usize = self.data.len();
        let total_len: usize = 8 + payload_len;
        let mut result: Vec<u8> = Vec::with_capacity(total_len);
        if total_len <= 0xffff_ffff {
            push_be32(&mut result, total_len as u32);
            result.extend_from_slice(self.box_type.as_slice());
            result.extend_from_slice(self.data.as_slice());
        } else {
            push_be32(&mut result, 1);
            result.extend_from_slice(self.box_type.as_slice());
            push_be64(&mut result, (16 + payload_len) as u64);
            result.extend_from_slice(self.data.as_slice());
        }
        assert(result@ =~= encode(self.box_type@, self.data@));
        result
    }
}

/// Splits a container file into its boxes.
///
/// Parsing stops without error where fewer than eight bytes are left. A box
/// whose claimed length is shorter than its header is refused, as is one
/// that runs past the end of the file.
pub fn parse_boxes(data: &[u8]) -> (r: Result<Vec<Box>, BoxError>)
    ensures
        match r {
            Ok(boxes) => parse_spec(data@) == Ok::<Seq<BoxView>, BoxError>(views(boxes@)),
            Err(e) => parse_spec(data@) == Err::<Seq<BoxView>, BoxError>(e),
        },
{
    let mut boxes: Vec<Box> = Vec::new();
    let mut offset: usize = 0;
    let len: usize = data.len();
    assert(views(boxes@) =~= Seq::<BoxView>::empty());
    assert(data@.skip(0) =~= data@);
    assert(prepend(Seq::<BoxView>::empty(), parse_rest(data@, 0)) == parse_rest(data@, 0)) by {
        match parse_rest(data@, 0) {
            Ok(others) => {
                assert(Seq::<BoxView>::empty() + others =~= others);
            },
            Err(e) => {},
        }
    }
    while len - offset >= 8
        invariant
            offset <= len,
            len == data@.len(),
            parse_spec(data@) == prepend(
                views(boxes@),
                parse_rest(data@.skip(offset as int), offset as int),
            ),
        decreases len - offset,
    {
        let ghost rest = data@.skip(offset as int);
        let ghost done = views(boxes@);
        assert(rest.len() == len - offset);
        let length: u32 = read_be32(data, offset);
        assert(length == be32_at(rest, 0));
        let header_size: usize = if length == 1 {
            16
        } else {
            8
        };
        let box_length: u64;
        if length == 1 {
            if len - offset < 16 {
                return Err(BoxError::TruncatedExtendedSize);
            }
            box_length = read_be64(data, offset + 8);
            assert(box_length == be64_at(rest, 8));
        } else if length == 0 {
            box_length = (len - offset) as u64;
        } else {
            box_length = length as u64;
        }
        assert(box_length == claimed_len(rest));
        assert(header_size == header_len(rest));
        if box_length > (len - offset) as u64 {
            return Err(
                BoxError::BoxExtendsBeyondFile { offset, length: box_length, file_size: len },
            );
        }
        if box_length < header_size as u64 {
            return Err(BoxError::BoxShorterThanHeader { offset, length: box_length });
        }
        let step: usize = box_length as usize;
        let box_type: [u8; 4] = [
            data[offset + 4],
            data[offset + 5],
            data[offset + 6],
            data[offset + 7],
        ];
        let payload: Vec<u8> = vstd::slice::slice_to_vec(
            &data[offset + header_size..offset + step],
        );
        let parsed = Box::new(box_type, payload);
        proof {
            assert(parsed@.box_type =~= rest.subrange(4, 8));
            assert(parsed@.data =~= rest.subrange(header_len(rest), claimed_len(rest)));
            assert(rest.skip(step as int) =~= data@.skip(offset + step));
            let later = parse_rest(data@.skip(offset + step), offset + step);
            assert(parse_rest(rest, offset as int) == prepend(seq![parsed@], later));
            assert(views(boxes@.push(parsed)) =~= done.push(parsed@));
            match later {
                Ok(others) => {
                    assert(done + (seq![parsed@] + others) =~= done.push(parsed@) + others);
                },
                Err(e) => {},
            }
        }
        boxes.push(parsed);
        offset = offset + step;
    }
    proof {
        let tail = parse_rest(data@.skip(offset as int), offset as int);
        assert(tail == Ok::<Seq<BoxView>, BoxError>(Seq::empty()));
        assert(views(boxes@) + Seq::<BoxView>::empty() =~= views(boxes@));
    }
    Ok(boxes)
}

/// Whether the data starts with the container signature.
pub fn is_jxl_container(data: &[u8]) -> (r: bool)
    ensures
        r == container_spec(data@),
{
    if data.len() < 12 {
        return false;
    }
    let mut i: usize = 0;
    while i < 12
        invariant
            i <= 12 <= data@.len(),
            forall|k: int| 0 <= k < i ==> data@[k] == JXL_SIGNATURE@[k],
        decreases 12 - i,
    {
        if data[i] != JXL_SIGNATURE[i] {
            assert(data@.subrange(0, 12)[i as int] != JXL_SIGNATURE@[i as int]);
            return false;
        }
        i = i + 1;
    }
    assert(data@.subrange(0, 12) =~= JXL_SIGNATURE@);
    true
}

/// Whether the data starts as a bare codestream does.
pub fn is_bare_codestream(data: &[u8]) -> (r: bool)
    ensures
        r == codestream_spec(data@),
{
    data.len() >= 2 && data[0] == 0xff && data[1] == 0x0a
}

/// Wraps a bare codestream in a container.
pub fn wrap_in_container(codestream: &[u8]) -> (r: Vec<u8>)
    requires
        codestream@.len() + 16 <= usize::MAX,
    ensures
        r@ == wrap_spec(codestream@),
{
    let mut result: Vec<u8> = Vec::new();
    result.extend_from_slice(JXL_SIGNATURE.as_slice());
    let ftyp_box = Box::new(BOX_TYPE_FTYP, vstd::slice::slice_to_vec(FTYP_PAYLOAD.as_slice()));
    let ftyp_bytes = ftyp_box.to_bytes();
    result.extend_from_slice(ftyp_bytes.as_slice());
    let jxlc_box = Box::new(BOX_TYPE_JXLC, vstd::slice::slice_to_vec(codestream));
    let jxlc_bytes = jxlc_box.to_bytes();
    result.extend_from_slice(jxlc_bytes.as_slice());
    assert(result@ =~= wrap_spec(codestream@));
    result
}

/// Whether two box types are the same four bytes.
pub fn same_type(a: &[u8; 4], b: &[u8; 4]) -> (r: bool)
    ensures
        r == (a@ == b@),
{
    let r = a[0] == b[0] && a[1] == b[1] && a[2] == b[2] && a[3] == b[3];
    proof {
        if r {
            assert(a@ =~= b@);
        }
    }
    r
}

/// Finds where new metadata boxes belong: behind the last file-type box
/// before the codestream, or behind the signature box where there is none.
pub fn insertion_index(boxes: &Vec<Box>) -> (r: usize)
    ensures
        r == insertion_spec(views(boxes@)),
        boxes@.len() >= 1 ==> 1 <= r <= boxes@.len(),
{
    let ghost all = views(boxes@);
    let mut insert_index: usize = 1;
    let mut idx: usize = 0;
    let len: usize = boxes.len();
    assert(all.skip(0) =~= all);
    while idx < len
        invariant
            idx <= len,
            len == boxes@.len(),
            all == views(boxes@),
            leading_boxes(all) == idx + leading_boxes(all.skip(idx as int)),
            insert_index == insertion_among(all, idx as int),
            1 <= insert_index,
            len >= 1 ==> insert_index <= len,
        decreases len - idx,
    {
        let ghost rest = all.skip(idx as int);
        assert(rest[0] == boxes@[idx as int]@);
        assert(rest.skip(1) =~= all.skip(idx + 1));
        assert(all[idx as int] == boxes@[idx as int]@);
        if same_type(&boxes[idx].box_type, &BOX_TYPE_FTYP) {
            assert(!is_codestream_box(rest[0])) by {
                assert(BOX_TYPE_FTYP@[3] != BOX_TYPE_JXLC@[3]);
                assert(BOX_TYPE_FTYP@[0] != BOX_TYPE_JXLP@[0]);
            }
            insert_index = idx + 1;
        } else if same_type(&boxes[idx].box_type, &BOX_TYPE_JXLC) || same_type(
            &boxes[idx].box_type,
            &BOX_TYPE_JXLP,
        ) {
            assert(leading_boxes(rest) == 0);
            return insert_index;
        }
        idx = idx + 1;
    }
    assert(all.skip(len as int).len() == 0);
    insert_index
}

/// Puts `new_boxes`, in their order, where metadata belongs among `boxes`.
pub fn insert_metadata(boxes: &mut Vec<Box>, new_boxes: Vec<Box>)
    requires
        old(boxes)@.len() >= 1,
    ensures
        1 <= insertion_spec(views(old(boxes)@)) <= old(boxes)@.len(),
        views(final(boxes)@) == views(old(boxes)@).subrange(
            0,
            insertion_spec(views(old(boxes)@)),
        ) + views(new_boxes@) + views(old(boxes)@).subrange(
            insertion_spec(views(old(boxes)@)),
            old(boxes)@.len() as int,
        ),
{
    let at: usize = insertion_index(boxes);
    let mut pending = new_boxes;
    let ghost before = views(boxes@);
    assert(before.subrange(0, at as int) + views(pending@.skip(pending@.len() as int))
        + before.subrange(at as int, before.len() as int) =~= before);
    while pending.len() > 0
        invariant
            at <= before.len(),
            before == views(old(boxes)@),
            pending@.len() <= new_boxes@.len(),
            pending@ == new_boxes@.subrange(0, pending@.len() as int),
            views(boxes@) == before.subrange(0, at as int) + views(
                new_boxes@.skip(pending@.len() as int),
            ) + before.subrange(at as int, before.len() as int),
        decreases pending@.len(),
    {
        let ghost k = pending@.len() as int;
        let ghost was = views(boxes@);
        let b = pending.pop().unwrap();
        assert(b == new_boxes@[k - 1]);
        assert(boxes@.len() == was.len());
        boxes.insert(at, b);
        assert(views(boxes@) =~= was.insert(at as int, b@));
        assert(views(new_boxes@.skip(k - 1)) =~= seq![b@] + views(new_boxes@.skip(k)));
        assert(pending@ =~= new_boxes@.subrange(0, k - 1));
        assert(views(boxes@) =~= before.subrange(0, at as int) + views(new_boxes@.skip(k - 1))
            + before.subrange(at as int, before.len() as int));
    }
    assert(new_boxes@.skip(0) =~= new_boxes@);
}

/// Writes a container file: the boxes one after the other, a leading box
/// typed `JXL ` as the plain signature.
pub fn serialize_boxes(boxes: &Vec<Box>) -> (r: Vec<u8>)
    requires
        forall|i: int| 0 <= i < boxes@.len() ==> (#[trigger] boxes@[i]).data@.len() + 16 <= usize::MAX,
    ensures
        r@ == serialize_spec(views(boxes@)),
{
    let ghost all = views(boxes@);
    let mut output: Vec<u8> = Vec::new();
    let len: usize = boxes.len();
    if len == 0 {
        return output;
    }
    if same_type(&boxes[0].box_type, &BOX_TYPE_SIGNATURE) {
        output.extend_from_slice(JXL_SIGNATURE.as_slice());
    } else {
        let bytes = boxes[0].to_bytes();
        output.extend_from_slice(bytes.as_slice());
    }
    assert(output@ =~= first_bytes(all[0]));
    let mut idx: usize = 1;
    assert(encode_all(all.skip(len as int)) =~= Seq::<u8>::empty());
    while idx < len
        invariant
            1 <= idx <= len,
            len == boxes@.len(),
            all == views(boxes@),
            forall|i: int| 0 <= i < boxes@.len() ==> (#[trigger] boxes@[i]).data@.len() + 16 <= usize::MAX,
            output@ + encode_all(all.skip(idx as int)) == serialize_spec(all),
        decreases len - idx,
    {
        let ghost rest = all.skip(idx as int);
        assert(rest[0] == boxes@[idx as int]@);
        assert(rest.skip(1) =~= all.skip(idx + 1));
        let ghost was = output@;
        let bytes = boxes[idx].to_bytes();
        output.extend_from_slice(bytes.as_slice());
        assert(output@ + encode_all(all.skip(idx + 1)) =~= was + encode_all(rest));
        idx = idx + 1;
    }
    assert(output@ + Seq::<u8>::empty() =~= output@);
    output
}

/// The four big-endian bytes of a number spell that number.
proof fn lemma_be32_digits(n: int)
    requires
        0 <= n <= 0xffff_ffff,
    ensures
        be32(n).len() == 4,
        be32(n)[0] * 0x100_0000 + be32(n)[1] * 0x1_0000 + be32(n)[2] * 0x100 + be32(n)[3] == n,
{
    let d0 = (n / 0x100_0000) % 0x100;
    let d1 = (n / 0x1_0000) % 0x100;
    let d2 = (n / 0x100) % 0x100;
    let d3 = n % 0x100;
    assert(n / 0x100_0000 < 0x100);
    assert(d0 == n / 0x100_0000);
    assert(n == (n / 0x100) * 0x100 + d3);
    assert(n / 0x100 == (n / 0x1_0000) * 0x100 + d2);
    assert(n / 0x1_0000 == (n / 0x100_0000) * 0x100 + d1);
    assert(be32(n)[0] == d0 as u8 && be32(n)[1] == d1 as u8 && be32(n)[2] == d2 as u8 && be32(
        n,
    )[3] == d3 as u8);
}

/// Where four bytes of a string are the big-endian bytes of a number, they
/// spell that number.
proof fn lemma_be32_inside(s: Seq<u8>, at: int, n: int)
    requires
        0 <= n <= 0xffff_ffff,
        0 <= at,
        at + 4 <= s.len(),
        s.subrange(at, at + 4) == be32(n),
    ensures
        be32_at(s, at) == n,
{
    lemma_be32_digits(n);
    let part = s.subrange(at, at + 4);
    assert(part[0] == s[at] && part[1] == s[at + 1] && part[2] == s[at + 2] && part[3] == s[at
        + 3]);
}

/// Where eight bytes of a string are the big-endian bytes of a number, they
/// spell that number.
proof fn lemma_be64_inside(s: Seq<u8>, at: int, n: int)
    requires
        0 <= n <= 0xffff_ffff_ffff_ffff,
        0 <= at,
        at + 8 <= s.len(),
        s.subrange(at, at + 8) == be64(n),
    ensures
        be64_at(s, at) == n,
{
    let hi = n / 0x1_0000_0000;
    let lo = n % 0x1_0000_0000;
    let part = s.subrange(at, at + 8);
    lemma_be32_digits(hi);
    lemma_be32_digits(lo);
    assert(part == be32(hi) + be32(lo));
    assert(s.subrange(at, at + 4) =~= part.subrange(0, 4));
    assert(s.subrange(at + 4, at + 8) =~= part.subrange(4, 8));
    assert(part.subrange(0, 4) =~= be32(hi));
    assert(part.subrange(4, 8) =~= be32(lo));
    lemma_be32_inside(s, at, hi);
    lemma_be32_inside(s, at + 4, lo);
    assert(n == hi * 0x1_0000_0000 + lo);
}

/// A box can be written: its type has four bytes and its length fits the
/// 64-bit length field.
pub open spec fn writable(b: BoxView) -> bool {
    b.box_type.len() == 4 && 16 + b.data.len() <= 0xffff_ffff_ffff_ffff
}

/// The bytes of one box, followed by anything, parse as that box and
/// then what follows.
proof fn lemma_parse_first(first: BoxView, tail: Seq<u8>, consumed: int)
    requires
        writable(first),
    ensures
        parse_rest(encode(first.box_type, first.data) + tail, consumed) == prepend(
            seq![first],
            parse_rest(tail, consumed + encode(first.box_type, first.data).len()),
        ),
{
    let len = first.data.len() as int;
    let bytes = encode(first.box_type, first.data) + tail;
    if 8 + len <= 0xffff_ffff {
        let field = be32(8 + len);
        lemma_be32_digits(8 + len);
        assert(bytes =~= field + first.box_type + Seq::<u8>::empty() + first.data + tail);
        assert(bytes.subrange(0, 4) =~= field);
        lemma_be32_inside(bytes, 0, 8 + len);
        lemma_parse_layout(bytes, field, first, Seq::empty(), tail, 8 + len);
    } else {
        let field = be32(1);
        let extended = be64(16 + len);
        lemma_be32_digits(1);
        lemma_be32_digits((16 + len) / 0x1_0000_0000);
        lemma_be32_digits((16 + len) % 0x1_0000_0000);
        assert(extended.len() == 8);
        assert(bytes =~= field + first.box_type + extended + first.data + tail);
        assert(bytes.subrange(0, 4) =~= field);
        assert(bytes.subrange(8, 16) =~= extended);
        lemma_be32_inside(bytes, 0, 1);
        lemma_be64_inside(bytes, 8, 16 + len);
        lemma_parse_layout(bytes, field, first, extended, tail, 16 + len);
    }
}

/// Parsing bytes that are laid out as a box: a length field, the type, an
/// extended length or nothing, the payload, and then the rest.
proof fn lemma_parse_layout(
    bytes: Seq<u8>,
    field: Seq<u8>,
    first: BoxView,
    extended: Seq<u8>,
    tail: Seq<u8>,
    total: int,
)
    requires
        field.len() == 4,
        first.box_type.len() == 4,
        bytes == field + first.box_type + extended + first.data + tail,
        total == 8 + extended.len() + first.data.len(),
        claimed_len(bytes) == total,
        header_len(bytes) == 8 + extended.len(),
        extended.len() == 0 || extended.len() == 8,
        extended.len() == 8 <==> be32_at(bytes, 0) == 1,
    ensures
        forall|consumed: int|
            #[trigger] parse_rest(bytes, consumed) == prepend(
                seq![first],
                parse_rest(tail, consumed + total),
            ),
{
    let head = 8 + extended.len() as int;
    assert(bytes.len() == total + tail.len());
    assert(bytes.subrange(4, 8) =~= first.box_type);
    assert(bytes.subrange(head, total) =~= first.data);
    assert(bytes.skip(total) =~= tail);
}

/// Parsing the bytes of a run of boxes gives the boxes back.
pub proof fn lemma_parse_encoded(boxes: Seq<BoxView>, consumed: int)
    requires
        forall|i: int| 0 <= i < boxes.len() ==> writable(#[trigger] boxes[i]),
    ensures
        parse_rest(encode_all(boxes), consumed) == Ok::<Seq<BoxView>, BoxError>(boxes),
    decreases boxes.len(),
{
    if boxes.len() == 0 {
        assert(boxes =~= Seq::<BoxView>::empty());
    } else {
        let first = boxes[0];
        let others = boxes.skip(1);
        assert(writable(first));
        assert forall|i: int| 0 <= i < others.len() implies writable(#[trigger] others[i]) by {
            assert(others[i] == boxes[i + 1]);
        }
        let step = encode(first.box_type, first.data).len() as int;
        lemma_parse_first(first, encode_all(others), consumed);
        lemma_parse_encoded(others, consumed + step);
        assert(seq![first] + others =~= boxes);
    }
}

/// A file written from boxes is read back as those boxes, provided that a
/// leading box typed `JXL ` holds what the signature holds.
pub proof fn lemma_parse_serialized(boxes: Seq<BoxView>)
    requires
        forall|i: int| 0 <= i < boxes.len() ==> writable(#[trigger] boxes[i]),
        boxes.len() > 0 && boxes[0].box_type == BOX_TYPE_SIGNATURE@ ==> boxes[0].data
            == JXL_SIGNATURE@.subrange(8, 12),
    ensures
        parse_spec(serialize_spec(boxes)) == Ok::<Seq<BoxView>, BoxError>(boxes),
{
    if boxes.len() == 0 {
        assert(boxes =~= Seq::<BoxView>::empty());
    } else {
        let first = boxes[0];
        if first.box_type == BOX_TYPE_SIGNATURE@ {
            assert(JXL_SIGNATURE@ =~= be32(12) + BOX_TYPE_SIGNATURE@ + JXL_SIGNATURE@.subrange(
                8,
                12,
            ));
            assert(first_bytes(first) == encode(first.box_type, first.data));
        }
        assert(serialize_spec(boxes) == encode_all(boxes));
        lemma_parse_encoded(boxes, 0);
    }
}

/// A wrapped codestream is a container that holds the signature box, the
/// file-type box and the codestream in one box.
pub proof fn lemma_wrapped_codestream(codestream: Seq<u8>)
    requires
        16 + codestream.len() <= 0xffff_ffff_ffff_ffff,
    ensures
        container_spec(wrap_spec(codestream)),
        parse_spec(wrap_spec(codestream)) == Ok::<Seq<BoxView>, BoxError>(
            seq![
                BoxView { box_type: BOX_TYPE_SIGNATURE@, data: JXL_SIGNATURE@.subrange(8, 12) },
                BoxView { box_type: BOX_TYPE_FTYP@, data: FTYP_PAYLOAD@ },
                BoxView { box_type: BOX_TYPE_JXLC@, data: codestream },
            ],
        ),
{
    let boxes = seq![
        BoxView { box_type: BOX_TYPE_SIGNATURE@, data: JXL_SIGNATURE@.subrange(8, 12) },
        BoxView { box_type: BOX_TYPE_FTYP@, data: FTYP_PAYLOAD@ },
        BoxView { box_type: BOX_TYPE_JXLC@, data: codestream },
    ];
    let wrapped = wrap_spec(codestream);
    assert(wrapped.subrange(0, 12) =~= JXL_SIGNATURE@);
    let b1 = boxes.skip(1);
    let b2 = b1.skip(1);
    let b3 = b2.skip(1);
    assert(b3.len() == 0);
    assert(encode_all(b3) =~= Seq::<u8>::empty());
    assert(encode_all(b2) =~= encode(BOX_TYPE_JXLC@, codestream));
    assert(encode_all(b1) =~= encode(BOX_TYPE_FTYP@, FTYP_PAYLOAD@) + encode(
        BOX_TYPE_JXLC@,
        codestream,
    ));
    assert(serialize_spec(boxes) =~= wrapped);
    lemma_parse_serialized(boxes);
}

} // verus!
