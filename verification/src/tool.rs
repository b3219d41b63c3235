//! Adding metadata boxes to a JPEG XL file: what the options of the tool
//! ask for, and the file that comes out.

use crate::container::{
    be32_at, claimed_len, codestream_spec, container_spec, header_len, insert_metadata,
    insertion_spec, is_bare_codestream, is_jxl_container, lemma_wrapped_codestream, parse_boxes,
    parse_rest, parse_spec, same_type, serialize_boxes, serialize_spec, views, wrap_in_container,
    wrap_spec, Box, BoxError, BoxView, BOX_TYPE_BROB, BOX_TYPE_EXIF, BOX_TYPE_JUMB, BOX_TYPE_XML,
    JXL_SIGNATURE,
};
use crate::metadata::create_brob_box;
use vstd::prelude::*;
use vstd::string::StringSliceAdditionalSpecFns;

verus! {

/// The kind of a metadata box.
#[derive(Debug, Clone, Copy, PartialEq, Eq, Structural)]
pub enum MetadataKind {
    Exif,
    Xml,
    Jumbf,
}

/// Where the payload of a metadata box comes from.
#[derive(Debug, Clone, Copy, PartialEq, Eq, Structural)]
pub enum MetadataSource {
    /// A minimal payload is built around the text of the argument.
    Text,
    /// The argument names a file whose bytes are the payload.
    File,
}

/// One metadata box that the options ask for.
#[derive(Debug, Clone, Copy, PartialEq, Eq, Structural)]
pub struct MetadataRequest {
    pub kind: MetadataKind,
    pub source: MetadataSource,
    /// Index of the argument that holds the text or the path.
    pub value: usize,
    /// The box is Brotli-compressed into a `brob` box.
    pub compress: bool,
}

/// The payload of a metadata box found in a file.
#[derive(Debug, Clone, PartialEq, Eq)]
pub struct MetadataPayload {
    /// The payload, still compressed where the box was a `brob` box.
    pub data: Vec<u8>,
    pub is_brotli_compressed: bool,
}

/// What a found payload is, as mathematics.
pub struct MetadataPayloadView {
    pub data: Seq<u8>,
    pub is_brotli_compressed: bool,
}

impl View for MetadataPayload {
    type V = MetadataPayloadView;

    open spec fn view(&self) -> MetadataPayloadView {
        MetadataPayloadView { data: self.data@, is_brotli_compressed: self.is_brotli_compressed }
    }
}

/// Why the options cannot be followed.
#[derive(Debug, Clone, Copy, PartialEq, Eq, Structural)]
pub enum OptionsError {
    /// The option at index `option` is the last argument and lacks its value.
    MissingValue { option: usize },
    /// The argument at `index` is no option.
    UnknownOption { index: usize },
    /// The argument at `index` asks for the usage text.
    HelpRequested { index: usize },
}

/// Why no file comes out.
#[derive(Debug, Clone, Copy, PartialEq, Eq, Structural)]
pub enum ToolError {
    /// The input is neither a container nor a bare codestream.
    NotJxl,
    /// The input is a container whose boxes cannot be read.
    Malformed(BoxError),
    /// The input or a box is too long to be given a header.
    TooLarge,
}

/// What an argument says.
#[derive(Debug, Clone, Copy, PartialEq, Eq, Structural)]
pub enum Keyword {
    Brotli,
    NoBrotli,
    /// A metadata box follows, by text or by file.
    Metadata(MetadataKind, MetadataSource),
    Help,
}

/// The meaning of an argument, if it is an option.
pub open spec fn keyword_spec(arg: Seq<u8>) -> Option<Keyword> {
    if arg == "--brotli".spec_bytes() {
        Some(Keyword::Brotli)
    } else if arg == "--no-brotli".spec_bytes() {
        Some(Keyword::NoBrotli)
    } else if arg == "--exif".spec_bytes() {
        Some(Keyword::Metadata(MetadataKind::Exif, MetadataSource::Text))
    } else if arg == "--xml".spec_bytes() {
        Some(Keyword::Metadata(MetadataKind::Xml, MetadataSource::Text))
    } else if arg == "--jumbf".spec_bytes() {
        Some(Keyword::Metadata(MetadataKind::Jumbf, MetadataSource::Text))
    } else if arg == "--exif-file".spec_bytes() {
        Some(Keyword::Metadata(MetadataKind::Exif, MetadataSource::File))
    } else if arg == "--xml-file".spec_bytes() {
        Some(Keyword::Metadata(MetadataKind::Xml, MetadataSource::File))
    } else if arg == "--jumbf-file".spec_bytes() {
        Some(Keyword::Metadata(MetadataKind::Jumbf, MetadataSource::File))
    } else if arg == "--help".spec_bytes() || arg == "-h".spec_bytes() {
        Some(Keyword::Help)
    } else {
        None
    }
}

/// The requests that the arguments from index `from` on make, behind the
/// requests `done`, with compression switched as `compress` says.
pub open spec fn options_from(
    args: Seq<Seq<u8>>,
    from: int,
    compress: bool,
    done: Seq<MetadataRequest>,
) -> Result<Seq<MetadataRequest>, OptionsError>
    decreases args.len() - from,
{
    if from >= args.len() || from < 0 {
        Ok(done)
    } else {
        match keyword_spec(args[from]) {
            None => Err(OptionsError::UnknownOption { index: from as usize }),
            Some(Keyword::Help) => Err(OptionsError::HelpRequested { index: from as usize }),
            Some(Keyword::Brotli) => options_from(args, from + 1, true, done),
            Some(Keyword::NoBrotli) => options_from(args, from + 1, false, done),
            Some(Keyword::Metadata(kind, source)) => if from + 1 >= args.len() {
                Err(OptionsError::MissingValue { option: from as usize })
            } else {
                options_from(
                    args,
                    from + 2,
                    compress,
                    done.push(
                        MetadataRequest { kind, source, value: (from + 1) as usize, compress },
                    ),
                )
            },
        }
    }
}

/// The bytes of each argument.
pub open spec fn argument_bytes(args: Seq<String>) -> Seq<Seq<u8>> {
    args.map_values(|s: String| vstd::utf8::encode_utf8(s@))
}

/// The requests of `kind` among `requests`, in their order.
pub open spec fn of_kind(requests: Seq<MetadataRequest>, kind: MetadataKind) -> Seq<
    MetadataRequest,
> {
    requests.filter(|r: MetadataRequest| r.kind == kind)
}

/// The order in which requested boxes enter the file: EXIF boxes, then
/// XML boxes, then JUMBF boxes, each kind in the order of the arguments.
pub open spec fn ordered_spec(requests: Seq<MetadataRequest>) -> Seq<MetadataRequest> {
    of_kind(requests, MetadataKind::Exif) + of_kind(requests, MetadataKind::Xml) + of_kind(
        requests,
        MetadataKind::Jumbf,
    )
}

/// The type of the box that carries metadata of a kind.
pub open spec fn kind_type(kind: MetadataKind) -> Seq<u8> {
    match kind {
        MetadataKind::Exif => BOX_TYPE_EXIF@,
        MetadataKind::Xml => BOX_TYPE_XML@,
        MetadataKind::Jumbf => BOX_TYPE_JUMB@,
    }
}

/// What a box carries of metadata of a kind: its payload where it has the
/// type of the kind, and the compressed payload where it is a `brob` box
/// that names that type.
pub open spec fn carried(b: BoxView, kind: MetadataKind) -> Option<MetadataPayloadView> {
    if b.box_type == kind_type(kind) {
        Some(MetadataPayloadView { data: b.data, is_brotli_compressed: false })
    } else if b.box_type == BOX_TYPE_BROB@ && b.data.len() >= 4
        && b.data.subrange(0, 4) == kind_type(kind) {
        Some(
            MetadataPayloadView {
                data: b.data.subrange(4, b.data.len() as int),
                is_brotli_compressed: true,
            },
        )
    } else {
        None
    }
}

/// The metadata of a kind that a run of boxes carries, in their order.
pub open spec fn metadata_spec(boxes: Seq<BoxView>, kind: MetadataKind) -> Seq<
    MetadataPayloadView,
> {
    boxes.filter_map(|b: BoxView| carried(b, kind))
}

/// The views of a run of payloads.
pub open spec fn payload_views(payloads: Seq<MetadataPayload>) -> Seq<MetadataPayloadView> {
    payloads.map_values(|p: MetadataPayload| p@)
}

/// The container that an input stands for: itself where it is one, and
/// wrapped where it is a bare codestream.
pub open spec fn container_of(input: Seq<u8>) -> Option<Seq<u8>> {
    if container_spec(input) {
        Some(input)
    } else if codestream_spec(input) {
        Some(wrap_spec(input))
    } else {
        None
    }
}

/// `boxes` with `new_boxes` put where metadata belongs.
pub open spec fn inserted(boxes: Seq<BoxView>, new_boxes: Seq<BoxView>) -> Seq<BoxView> {
    boxes.subrange(0, insertion_spec(boxes)) + new_boxes + boxes.subrange(
        insertion_spec(boxes),
        boxes.len() as int,
    )
}

/// A box is short enough to be written on this machine.
pub open spec fn fits(b: BoxView) -> bool {
    b.data.len() + 16 <= usize::MAX
}

/// The file that comes out where `new_boxes` are added to `input`.
pub open spec fn add_metadata_spec(input: Seq<u8>, new_boxes: Seq<BoxView>) -> Result<
    Seq<u8>,
    ToolError,
> {
    match container_of(input) {
        None => Err(ToolError::NotJxl),
        Some(container) => if input.len() + 16 > usize::MAX || exists|i: int|
            0 <= i < new_boxes.len() && !fits(#[trigger] new_boxes[i]) {
            Err(ToolError::TooLarge)
        } else {
            match parse_spec(container) {
                Err(e) => Err(ToolError::Malformed(e)),
                Ok(boxes) => Ok(serialize_spec(inserted(boxes, new_boxes))),
            }
        },
    }
}

/// Whether two byte strings are the same.
pub fn bytes_equal(a: &[u8], b: &[u8]) -> (r: bool)
    ensures
        r == (a@ == b@),
{
    if a.len() != b.len() {
        return false;
    }
    let mut i: usize = 0;
    while i < a.len()
        invariant
            i <= a@.len(),
            a@.len() == b@.len(),
            forall|k: int| 0 <= k < i ==> a@[k] == b@[k],
        decreases a@.len() - i,
    {
        if a[i] != b[i] {
            return false;
        }
        i = i + 1;
    }
    assert(a@ =~= b@);
    true
}

/// What an argument of the tool says, if it is one of its options.
pub fn keyword(arg: &str) -> (r: Option<Keyword>)
    ensures
        r == keyword_spec(arg.spec_bytes()),
{
    let a = arg.as_bytes();
    if bytes_equal(a, "--brotli".as_bytes()) {
        Some(Keyword::Brotli)
    } else if bytes_equal(a, "--no-brotli".as_bytes()) {
        Some(Keyword::NoBrotli)
    } else if bytes_equal(a, "--exif".as_bytes()) {
        Some(Keyword::Metadata(MetadataKind::Exif, MetadataSource::Text))
    } else if bytes_equal(a, "--xml".as_bytes()) {
        Some(Keyword::Metadata(MetadataKind::Xml, MetadataSource::Text))
    } else if bytes_equal(a, "--jumbf".as_bytes()) {
        Some(Keyword::Metadata(MetadataKind::Jumbf, MetadataSource::Text))
    } else if bytes_equal(a, "--exif-file".as_bytes()) {
        Some(Keyword::Metadata(MetadataKind::Exif, MetadataSource::File))
    } else if bytes_equal(a, "--xml-file".as_bytes()) {
        Some(Keyword::Metadata(MetadataKind::Xml, MetadataSource::File))
    } else if bytes_equal(a, "--jumbf-file".as_bytes()) {
        Some(Keyword::Metadata(MetadataKind::Jumbf, MetadataSource::File))
    } else if bytes_equal(a, "--help".as_bytes()) || bytes_equal(a, "-h".as_bytes()) {
        Some(Keyword::Help)
    } else {
        None
    }
}

/// Reads the options of the tool, the arguments from index `first` on,
/// into the metadata boxes that they ask for, in the order of the
/// arguments. `--brotli` and `--no-brotli` switch compression for the boxes
/// that follow them.
pub fn parse_options(args: &Vec<String>, first: usize) -> (r: Result<
    Vec<MetadataRequest>,
    OptionsError,
>)
    ensures
        match r {
            Ok(requests) => options_from(argument_bytes(args@), first as int, false, Seq::empty())
                == Ok::<Seq<MetadataRequest>, OptionsError>(requests@),
            Err(e) => options_from(argument_bytes(args@), first as int, false, Seq::empty())
                == Err::<Seq<MetadataRequest>, OptionsError>(e),
        },
{
    let ghost all = argument_bytes(args@);
    let mut requests: Vec<MetadataRequest> = Vec::new();
    let mut compress = false;
    let mut i: usize = first;
    let len: usize = args.len();
    while i < len
        invariant
            len == args@.len(),
            all == argument_bytes(args@),
            all.len() == len,
            options_from(all, first as int, false, Seq::empty()) == options_from(
                all,
                i as int,
                compress,
                requests@,
            ),
        decreases len - i,
    {
        assert(all[i as int] == vstd::utf8::encode_utf8(args@[i as int]@));
        match keyword(args[i].as_str()) {
            None => {
                return Err(OptionsError::UnknownOption { index: i });
            },
            Some(Keyword::Help) => {
                return Err(OptionsError::HelpRequested { index: i });
            },
            Some(Keyword::Brotli) => {
                compress = true;
                i = i + 1;
            },
            Some(Keyword::NoBrotli) => {
                compress = false;
                i = i + 1;
            },
            Some(Keyword::Metadata(kind, source)) => {
                if len - i < 2 {
                    return Err(OptionsError::MissingValue { option: i });
                }
                requests.push(MetadataRequest { kind, source, value: i + 1, compress });
                i = i + 2;
            },
        }
    }
    Ok(requests)
}

/// Appends the requests of one kind, in their order.
fn append_kind(out: &mut Vec<MetadataRequest>, requests: &Vec<MetadataRequest>, kind: MetadataKind)
    ensures
        final(out)@ == old(out)@ + of_kind(requests@, kind),
{
    let ghost keep = |r: MetadataRequest| r.kind == kind;
    let mut i: usize = 0;
    assert(requests@.subrange(0, 0) =~= Seq::<MetadataRequest>::empty());
    assert(out@ =~= old(out)@ + requests@.subrange(0, 0).filter(keep));
    while i < requests.len()
        invariant
            i <= requests@.len(),
            keep == (|r: MetadataRequest| r.kind == kind),
            out@ == old(out)@ + requests@.subrange(0, i as int).filter(keep),
        decreases requests@.len() - i,
    {
        let r = requests[i];
        proof {
            let before = requests@.subrange(0, i as int);
            assert(requests@.subrange(0, i + 1) =~= before.push(r));
            assert(before.push(r).drop_last() =~= before);
            reveal(Seq::filter);
        }
        if r.kind == kind {
            out.push(r);
        }
        i = i + 1;
        assert(out@ =~= old(out)@ + requests@.subrange(0, i as int).filter(keep));
    }
    assert(requests@.subrange(0, requests@.len() as int) =~= requests@);
}

/// Puts requests in the order in which their boxes enter the file.
pub fn order_requests(requests: &Vec<MetadataRequest>) -> (r: Vec<MetadataRequest>)
    ensures
        r@ == ordered_spec(requests@),
{
    let mut out: Vec<MetadataRequest> = Vec::new();
    append_kind(&mut out, requests, MetadataKind::Exif);
    append_kind(&mut out, requests, MetadataKind::Xml);
    append_kind(&mut out, requests, MetadataKind::Jumbf);
    assert(out@ =~= ordered_spec(requests@));
    out
}

/// The type of the box for metadata of a kind.
pub fn box_type_of(kind: MetadataKind) -> (r: [u8; 4])
    ensures
        r@ == kind_type(kind),
{
    match kind {
        MetadataKind::Exif => BOX_TYPE_EXIF,
        MetadataKind::Xml => BOX_TYPE_XML,
        MetadataKind::Jumbf => BOX_TYPE_JUMB,
    }
}

/// The box for a payload of the given kind: the payload itself under the
/// type of its kind, or a `brob` box around the compressed payload. `None`
/// only where compression is asked for and the compressor reports an
/// error.
pub fn metadata_box(kind: MetadataKind, payload: Vec<u8>, compress: bool) -> (r: Option<Box>)
    ensures
        !compress ==> r.is_some() && r.unwrap()@ == (BoxView {
            box_type: kind_type(kind),
            data: payload@,
        }),
        compress ==> (r matches Some(b) ==> b@.box_type == BOX_TYPE_BROB@
            && b@.data.len() >= 4 && b@.data.subrange(0, 4) == kind_type(kind)),
{
    let box_type = box_type_of(kind);
    if compress {
        create_brob_box(&box_type, payload.as_slice())
    } else {
        Some(Box::new(box_type, payload))
    }
}

/// Finds the metadata of a kind among the boxes of a file.
pub fn find_metadata(boxes: &Vec<Box>, kind: MetadataKind) -> (r: Vec<MetadataPayload>)
    ensures
        payload_views(r@) == metadata_spec(views(boxes@), kind),
{
    let ghost all = views(boxes@);
    let ghost pick = |b: BoxView| carried(b, kind);
    let wanted = box_type_of(kind);
    let mut found: Vec<MetadataPayload> = Vec::new();
    let mut i: usize = 0;
    assert(all.subrange(0, 0) =~= Seq::<BoxView>::empty());
    assert(payload_views(found@) =~= all.subrange(0, 0).filter_map(pick));
    while i < boxes.len()
        invariant
            i <= boxes@.len(),
            all == views(boxes@),
            pick == (|b: BoxView| carried(b, kind)),
            wanted@ == kind_type(kind),
            payload_views(found@) == all.subrange(0, i as int).filter_map(pick),
        decreases boxes@.len() - i,
    {
        let b = &boxes[i];
        let ghost before = all.subrange(0, i as int);
        let ghost old_found = payload_views(found@);
        proof {
            assert(all[i as int] == b@);
            assert(all.subrange(0, i + 1) =~= before.push(b@));
            assert(before.push(b@).drop_last() =~= before);
            assert(wanted@.len() == 4);
        }
        if same_type(&b.box_type, &wanted) {
            let payload = MetadataPayload {
                data: vstd::slice::slice_to_vec(b.data.as_slice()),
                is_brotli_compressed: false,
            };
            assert(carried(b@, kind) == Some(payload@));
            found.push(payload);
            assert(payload_views(found@) =~= old_found + seq![payload@]);
        } else if same_type(&b.box_type, &BOX_TYPE_BROB)
            && b.data.len() >= 4 && bytes_equal(&b.data.as_slice()[0..4], wanted.as_slice()) {
            let payload = MetadataPayload {
                data: vstd::slice::slice_to_vec(&b.data.as_slice()[4..b.data.len()]),
                is_brotli_compressed: true,
            };
            assert(carried(b@, kind) == Some(payload@));
            found.push(payload);
            assert(payload_views(found@) =~= old_found + seq![payload@]);
        } else {
            assert(carried(b@, kind).is_none());
            assert(payload_views(found@) =~= old_found);
        }
        i = i + 1;
    }
    assert(all.subrange(0, boxes@.len() as int) =~= all);
    found
}

/// A box built for a payload carries that payload again: plain where it
/// was not compressed, and the compressed bytes where it was.
pub proof fn lemma_metadata_box_is_found(kind: MetadataKind, payload: Seq<u8>, compressed: Seq<u8>)
    ensures
        carried(BoxView { box_type: kind_type(kind), data: payload }, kind) == Some(
            MetadataPayloadView { data: payload, is_brotli_compressed: false },
        ),
        carried(
            BoxView {
                box_type: BOX_TYPE_BROB@,
                data: kind_type(kind) + compressed,
            },
            kind,
        ) == Some(MetadataPayloadView { data: compressed, is_brotli_compressed: true }),
{
    let inner = kind_type(kind);
    let data = inner + compressed;
    assert(inner.len() == 4);
    assert(data.subrange(0, 4) =~= inner);
    assert(data.subrange(4, data.len() as int) =~= compressed);
    assert(BOX_TYPE_BROB@[0] == 0x62);
    assert(inner[0] != 0x62) by {
        assert(BOX_TYPE_EXIF@[0] == 0x45 && BOX_TYPE_XML@[0] == 0x78 && BOX_TYPE_JUMB@[0] == 0x6a);
    }
}

/// Whether every box is short enough to be written.
fn all_fit(boxes: &Vec<Box>) -> (r: bool)
    ensures
        r == (forall|i: int| 0 <= i < boxes@.len() ==> fits(#[trigger] views(boxes@)[i])),
{
    let mut i: usize = 0;
    while i < boxes.len()
        invariant
            i <= boxes@.len(),
            forall|k: int| 0 <= k < i ==> fits(#[trigger] views(boxes@)[k]),
        decreases boxes@.len() - i,
    {
        if boxes[i].data.len() > usize::MAX - 16 {
            assert(!fits(views(boxes@)[i as int]));
            return false;
        }
        i = i + 1;
    }
    true
}

/// Adds metadata boxes to a JPEG XL file. A bare codestream is wrapped in
/// a container first. The boxes go behind the file-type box, in the order
/// given, and the file is written out again.
pub fn add_metadata(input: &[u8], new_boxes: Vec<Box>) -> (r: Result<Vec<u8>, ToolError>)
    ensures
        match r {
            Ok(out) => add_metadata_spec(input@, views(new_boxes@)) == Ok::<Seq<u8>, ToolError>(
                out@,
            ),
            Err(e) => add_metadata_spec(input@, views(new_boxes@)) == Err::<Seq<u8>, ToolError>(e),
        },
{
    let is_container = is_jxl_container(input);
    if !is_container && !is_bare_codestream(input) {
        return Err(ToolError::NotJxl);
    }
    if input.len() > usize::MAX - 16 || !all_fit(&new_boxes) {
        return Err(ToolError::TooLarge);
    }
    let parsed = if is_container {
        parse_boxes(input)
    } else {
        let wrapped = wrap_in_container(input);
        proof {
            lemma_wrapped_codestream(input@);
        }
        parse_boxes(wrapped.as_slice())
    };
    let mut boxes = match parsed {
        Ok(boxes) => boxes,
        Err(e) => {
            return Err(ToolError::Malformed(e));
        },
    };
    let ghost container = container_of(input@).unwrap();
    let ghost before = views(boxes@);
    proof {
        lemma_container_has_a_box(container);
        if is_container {
            lemma_parsed_boxes_are_shorter(container, 0);
        }
        assert forall|i: int| 0 <= i < before.len() implies fits(#[trigger] before[i]) by {}
    }
    insert_metadata(&mut boxes, new_boxes);
    assert forall|i: int| 0 <= i < boxes@.len() implies (#[trigger] boxes@[i]).data@.len() + 16
        <= usize::MAX by {
        let at = insertion_spec(before);
        let added = views(new_boxes@);
        assert(views(boxes@)[i] == boxes@[i]@);
        if i < at {
            assert(views(boxes@)[i] == before[i]);
        } else if i < at + added.len() {
            assert(views(boxes@)[i] == added[i - at]);
        } else {
            assert(views(boxes@)[i] == before[i - added.len()]);
        }
    }
    Ok(serialize_boxes(&boxes))
}

/// A container that parses holds at least its signature box.
proof fn lemma_container_has_a_box(container: Seq<u8>)
    requires
        container_spec(container),
    ensures
        parse_spec(container) matches Ok(boxes) ==> boxes.len() >= 1,
{
    let signature = JXL_SIGNATURE@;
    assert forall|i: int| 0 <= i < 12 implies container[i] == signature[i] by {
        assert(container.subrange(0, 12)[i] == container[i]);
    }
    assert(be32_at(container, 0) == 12);
}

/// Every box read from `rest` is shorter than `rest` by its header at
/// the least.
proof fn lemma_parsed_boxes_are_shorter(rest: Seq<u8>, consumed: int)
    ensures
        parse_rest(rest, consumed) matches Ok(boxes) ==> forall|i: int|
            0 <= i < boxes.len() ==> (#[trigger] boxes[i]).data.len() + 8 <= rest.len(),
    decreases rest.len(),
{
    let claimed = claimed_len(rest);
    let header = header_len(rest);
    if rest.len() >= 8 && !(be32_at(rest, 0) == 1 && rest.len() < 16) && claimed
        <= rest.len() && claimed >= header {
        let later = parse_rest(rest.skip(claimed), consumed + claimed);
        lemma_parsed_boxes_are_shorter(rest.skip(claimed), consumed + claimed);
        match later {
            Ok(others) => {
                let first = BoxView {
                    box_type: rest.subrange(4, 8),
                    data: rest.subrange(header, claimed),
                };
                let boxes = seq![first] + others;
                assert forall|i: int| 0 <= i < boxes.len() implies (#[trigger] boxes[i]).data.len()
                    + 8 <= rest.len() by {
                    if i > 0 {
                        assert(boxes[i] == others[i - 1]);
                    }
                }
            },
            Err(e) => {},
        }
    }
}

} // verus!
