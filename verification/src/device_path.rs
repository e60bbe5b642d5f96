//! The device path codec.
//!
//! A device path is a run of nodes in a byte buffer. Each node starts
//! with a header of four bytes: type, subtype, and the node's whole
//! length as two bytes, low byte first. No field is aligned, so every
//! field is read byte by byte, and a node's length is checked against
//! what is left of the buffer before anything in the node is touched.
//! The path ends with a node of type `0x7F` and subtype `0xFF`. A node
//! of type `0x7F` and subtype `0x01` ends one instance of a path that
//! holds several.
use vstd::prelude::*;
use vstd::slice::{slice_subrange, slice_to_vec};
use crate::error::UefiError;
use crate::guid::Guid;
use crate::handle::Slot;
use crate::proto::Entity;
use crate::table::{entry_of, slot_entry};

verus! {

/// The length of a node header in bytes.
pub const HEADER_LEN: usize = 4;

/// The type of both end markers.
pub const END_TYPE: u8 = 0x7F;

/// The subtype of the node that ends the whole path.
pub const END_ENTIRE: u8 = 0xFF;

/// The subtype of the node that ends one instance.
pub const END_INSTANCE: u8 = 0x01;

/// The type tag of a node.
#[derive(Clone, Copy, Debug, PartialEq, Eq, PartialOrd, Ord, Hash, Structural)]
pub struct DevicePathType(pub u8);

/// The subtype tag of a node. What it means depends on the type.
#[derive(Clone, Copy, Debug, PartialEq, Eq, PartialOrd, Ord, Hash, Structural)]
pub struct DevicePathSubType(pub u8);

/// The header that every node starts with.
#[derive(Clone, Copy, Debug, PartialEq, Eq, PartialOrd, Ord, Hash)]
pub struct DevicePathHdr {
    /// Type of the node.
    pub ty: DevicePathType,
    /// Subtype, specific to the type.
    pub sub_ty: DevicePathSubType,
    /// Length of the node in bytes, header included, low byte first.
    pub len: [u8; 2],
}

impl DevicePathHdr {
    pub open spec fn spec_length(&self) -> int {
        self.len[0] as int + 256 * (self.len[1] as int)
    }

    /// The length that the header declares for its node.
    pub fn length(&self) -> (r: u16)
        ensures
            r as int == self.spec_length(),
    {
        let lo: u16 = self.len[0] as u16;
        let hi: u16 = self.len[1] as u16;
        lo + 256 * hi
    }

    /// Whether the header is that of the node that ends the whole path.
    pub fn is_end(&self) -> (r: bool)
        ensures
            r == (self.ty.0 == END_TYPE && self.sub_ty.0 == END_ENTIRE),
    {
        self.ty.0 == END_TYPE && self.sub_ty.0 == END_ENTIRE
    }

    /// Whether the header is that of a node that ends one instance.
    pub fn is_instance_end(&self) -> (r: bool)
        ensures
            r == (self.ty.0 == END_TYPE && self.sub_ty.0 == END_INSTANCE),
    {
        self.ty.0 == END_TYPE && self.sub_ty.0 == END_INSTANCE
    }
}

impl Entity for DevicePathHdr {
    open spec fn entity_guid_spec() -> Guid {
        Guid::of_fields(
            0x09576E91,
            0x6D3F,
            0x11D2,
            seq![0x8Eu8, 0x39u8, 0x00u8, 0xA0u8, 0xC9u8, 0x69u8, 0x72u8, 0x3Bu8],
        )
    }

    open spec fn entity_name_spec() -> Seq<char> {
        "DevicePathHdr"@
    }

    fn name() -> (r: &'static str) {
        "DevicePathHdr"
    }

    fn guid() -> (r: Guid) {
        let d4: [u8; 8] = [0x8E, 0x39, 0x00, 0xA0, 0xC9, 0x69, 0x72, 0x3B];
        assert(d4@ =~= seq![0x8Eu8, 0x39u8, 0x00u8, 0xA0u8, 0xC9u8, 0x69u8, 0x72u8, 0x3Bu8]);
        Guid::from_fields(0x09576E91, 0x6D3F, 0x11D2, d4)
    }
}

/// The firmware's own utilities for device paths, one slot each.
#[derive(Clone, Copy, Debug, PartialEq, Eq, Structural)]
pub struct DevicePathUtil {
    pub get_device_path_size: Slot,
    pub duplicate_device_path: Slot,
    pub append_device_path: Slot,
    pub append_device_node: Slot,
    pub append_device_path_instance: Slot,
    pub get_next_device_path_instance: Slot,
    pub is_device_path_multi_instance: Slot,
    pub create_device_node: Slot,
}

impl DevicePathUtil {
    /// The address of the operation that measures a path, or the
    /// error where the firmware offers none.
    pub fn get_device_path_size(&self) -> (r: Result<usize, UefiError>)
        ensures
            r == slot_entry(self.get_device_path_size),
    {
        entry_of(self.get_device_path_size)
    }

    /// The address of the operation that copies a path, or the error
    /// where the firmware offers none.
    pub fn duplicate_device_path(&self) -> (r: Result<usize, UefiError>)
        ensures
            r == slot_entry(self.duplicate_device_path),
    {
        entry_of(self.duplicate_device_path)
    }

    /// The address of the operation that appends a path to a path, or
    /// the error where the firmware offers none.
    pub fn append_device_path(&self) -> (r: Result<usize, UefiError>)
        ensures
            r == slot_entry(self.append_device_path),
    {
        entry_of(self.append_device_path)
    }

    /// The address of the operation that appends a node to a path, or
    /// the error where the firmware offers none.
    pub fn append_device_node(&self) -> (r: Result<usize, UefiError>)
        ensures
            r == slot_entry(self.append_device_node),
    {
        entry_of(self.append_device_node)
    }
}

/// The firmware's operations that write device paths as text, one
/// slot each.
#[derive(Clone, Copy, Debug, PartialEq, Eq, Structural)]
pub struct DevicePathToText {
    pub convert_device_node_to_text: Slot,
    pub convert_device_path_to_text: Slot,
}

impl DevicePathToText {
    /// The address of the operation that writes one node as text, or
    /// the error where the firmware offers none.
    pub fn convert_device_node_to_text(&self) -> (r: Result<usize, UefiError>)
        ensures
            r == slot_entry(self.convert_device_node_to_text),
    {
        entry_of(self.convert_device_node_to_text)
    }

    /// The address of the operation that writes a path as text, or
    /// the error where the firmware offers none.
    pub fn convert_device_path_to_text(&self) -> (r: Result<usize, UefiError>)
        ensures
            r == slot_entry(self.convert_device_path_to_text),
    {
        entry_of(self.convert_device_path_to_text)
    }
}

/// Why a buffer is no device path.
#[derive(Clone, Copy, Debug, PartialEq, Eq, Structural)]
pub enum Malformation {
    /// Fewer than four bytes are left where a header must stand.
    Truncated,
    /// The header declares a length under four.
    LengthTooSmall,
    /// The header declares a length that runs past the buffer's end.
    Overrun,
    /// A node given for insertion ends the whole path, or its declared
    /// length is not its own length.
    BadNode,
}

/// The error of the codec: the buffer is malformed at `offset`.
#[derive(Clone, Copy, Debug, PartialEq, Eq, Structural)]
pub struct MalformedBinary {
    pub offset: usize,
    pub kind: Malformation,
}

/// The length declared by the header at `at`.
pub open spec fn declared_len(b: Seq<u8>, at: int) -> int {
    b[at + 2] as int + 256 * (b[at + 3] as int)
}

/// What is wrong with the header at `at`, if anything.
pub open spec fn fault_at(b: Seq<u8>, at: int) -> Option<Malformation> {
    if b.len() - at < 4 {
        Some(Malformation::Truncated)
    } else if declared_len(b, at) < 4 {
        Some(Malformation::LengthTooSmall)
    } else if at + declared_len(b, at) > b.len() {
        Some(Malformation::Overrun)
    } else {
        None
    }
}

/// Whether the node at `at` ends the whole path.
pub open spec fn is_end_at(b: Seq<u8>, at: int) -> bool {
    b[at] == END_TYPE && b[at + 1] == END_ENTIRE
}

/// Walks the nodes from `at`. Gives the offset just behind the node
/// that ends the path, or the first fault on the way.
pub open spec fn scan(b: Seq<u8>, at: int) -> Result<int, MalformedBinary>
    decreases b.len() - at,
{
    match fault_at(b, at) {
        Some(kind) => Err(MalformedBinary { offset: at as usize, kind }),
        None => if is_end_at(b, at) {
            Ok(at + declared_len(b, at))
        } else {
            scan(b, at + declared_len(b, at))
        },
    }
}

/// The nodes from `at` up to the node that ends the path, which is
/// left out. Each node is its bytes, header included.
pub open spec fn nodes_from(b: Seq<u8>, at: int) -> Seq<Seq<u8>>
    decreases b.len() - at,
{
    if fault_at(b, at) is Some || is_end_at(b, at) {
        Seq::empty()
    } else {
        seq![b.subrange(at, at + declared_len(b, at))] + nodes_from(
            b,
            at + declared_len(b, at),
        )
    }
}

/// The offset of the node that ends the path, walking from `at`.
pub open spec fn end_node_at(b: Seq<u8>, at: int) -> int
    decreases b.len() - at,
{
    if fault_at(b, at) is Some || is_end_at(b, at) {
        at
    } else {
        end_node_at(b, at + declared_len(b, at))
    }
}

/// A buffer that is one path and nothing else: the walk from the start
/// meets no fault and ends exactly at the buffer's end.
pub open spec fn well_formed(b: Seq<u8>) -> bool {
    scan(b, 0) == Ok::<int, MalformedBinary>(b.len() as int)
}

/// What parsing `b` gives: the bytes of the path that `b` starts with,
/// or the first fault.
pub open spec fn parsed(b: Seq<u8>) -> Result<Seq<u8>, MalformedBinary> {
    match scan(b, 0) {
        Ok(end) => Ok(b.subrange(0, end)),
        Err(e) => Err(e),
    }
}

/// Reads the header at `at`.
pub fn header_at(bytes: &[u8], at: usize) -> (r: DevicePathHdr)
    requires
        at + 4 <= bytes@.len(),
    ensures
        r.ty.0 == bytes@[at as int],
        r.sub_ty.0 == bytes@[at + 1],
        r.len@ == seq![bytes@[at + 2], bytes@[at + 3]],
        r.spec_length() == declared_len(bytes@, at as int),
{
    let r = DevicePathHdr {
        ty: DevicePathType(bytes[at]),
        sub_ty: DevicePathSubType(bytes[at + 1]),
        len: [bytes[at + 2], bytes[at + 3]],
    };
    assert(r.len@ =~= seq![bytes@[at + 2], bytes@[at + 3]]);
    r
}

/// Checks the header at `at` against what is left of the buffer, and
/// reads it if nothing is wrong with it.
pub fn checked_header(bytes: &[u8], at: usize) -> (r: Result<DevicePathHdr, MalformedBinary>)
    requires
        at <= bytes@.len(),
    ensures
        match fault_at(bytes@, at as int) {
            Some(kind) => r == Err::<DevicePathHdr, _>(MalformedBinary { offset: at, kind }),
            None => r is Ok && r->Ok_0.ty.0 == bytes@[at as int] && r->Ok_0.sub_ty.0
                == bytes@[at + 1] && r->Ok_0.spec_length() == declared_len(bytes@, at as int),
        },
{
    if bytes.len() - at < HEADER_LEN {
        return Err(MalformedBinary { offset: at, kind: Malformation::Truncated });
    }
    let hdr = header_at(bytes, at);
    let len: usize = hdr.length() as usize;
    if len < HEADER_LEN {
        return Err(MalformedBinary { offset: at, kind: Malformation::LengthTooSmall });
    }
    if len > bytes.len() - at {
        return Err(MalformedBinary { offset: at, kind: Malformation::Overrun });
    }
    Ok(hdr)
}

/// A walk that ends well ends behind at least one header and inside
/// the buffer, and the node that ends the path is the last thing
/// before that offset.
pub proof fn lemma_scan_bounds(b: Seq<u8>, at: int, end: int)
    requires
        0 <= at,
        scan(b, at) == Ok::<int, MalformedBinary>(end),
    ensures
        at + 4 <= end <= b.len(),
        at <= end_node_at(b, at),
        end_node_at(b, at) + 4 <= end,
        fault_at(b, end_node_at(b, at)) is None,
        is_end_at(b, end_node_at(b, at)),
        end == end_node_at(b, at) + declared_len(b, end_node_at(b, at)),
    decreases b.len() - at,
{
    if !is_end_at(b, at) {
        lemma_scan_bounds(b, at + declared_len(b, at), end);
    }
}

/// Walking depends only on the bytes up to where the walk ends: in
/// any buffer that agrees with `b` up to `end`, the walk from `at`
/// ends at `end` too, over the same nodes.
pub proof fn lemma_scan_agrees(b: Seq<u8>, c: Seq<u8>, at: int, end: int)
    requires
        0 <= at,
        scan(b, at) == Ok::<int, MalformedBinary>(end),
        end <= c.len(),
        c.subrange(0, end) == b.subrange(0, end),
    ensures
        scan(c, at) == Ok::<int, MalformedBinary>(end),
        nodes_from(c, at) == nodes_from(b, at),
        end_node_at(c, at) == end_node_at(b, at),
    decreases b.len() - at,
{
    lemma_scan_bounds(b, at, end);
    let bp = b.subrange(0, end);
    let cp = c.subrange(0, end);
    assert(forall|i: int| 0 <= i < end ==> b[i] == bp[i] && c[i] == cp[i]);
    let len = declared_len(b, at);
    assert(declared_len(c, at) == len);
    if !is_end_at(b, at) {
        lemma_scan_bounds(b, at + len, end);
        lemma_scan_agrees(b, c, at + len, end);
        assert(c.subrange(at, at + len) =~= b.subrange(at, at + len));
    }
}

/// Walking does not depend on what stands before the walk's start:
/// behind any prefix `p` the walk over `b` goes as it does in `b`
/// alone, with every offset moved by the length of `p`.
pub proof fn lemma_scan_shift(p: Seq<u8>, b: Seq<u8>, k: int)
    requires
        0 <= k,
    ensures
        scan(p + b, p.len() + k) is Ok <==> scan(b, k) is Ok,
        scan(b, k) is Ok ==> scan(p + b, p.len() + k)->Ok_0 == p.len() + scan(b, k)->Ok_0,
        nodes_from(p + b, p.len() + k) == nodes_from(b, k),
        end_node_at(p + b, p.len() + k) == p.len() + end_node_at(b, k),
    decreases b.len() - k,
{
    let c = p + b;
    let at = p.len() + k;
    if b.len() - k >= 4 {
        assert(c[at] == b[k] && c[at + 1] == b[k + 1] && c[at + 2] == b[k + 2] && c[at + 3] == b[k
            + 3]);
        let len = declared_len(b, k);
        assert(declared_len(c, at) == len);
        if fault_at(b, k) is None && !is_end_at(b, k) {
            lemma_scan_shift(p, b, k + len);
            assert(c.subrange(at, at + len) =~= b.subrange(k, k + len));
        }
    }
}

/// Putting a path `b` in place of the node that ends the walk over
/// `a` gives a buffer whose walk runs through the nodes of `a` and
/// then through those of `b`.
pub proof fn lemma_scan_splice(a: Seq<u8>, b: Seq<u8>, at: int)
    requires
        0 <= at,
        scan(a, at) is Ok,
        well_formed(b),
    ensures
        scan(a.subrange(0, end_node_at(a, at)) + b, at) == Ok::<int, MalformedBinary>(
            end_node_at(a, at) + b.len(),
        ),
        nodes_from(a.subrange(0, end_node_at(a, at)) + b, at) == nodes_from(a, at) + nodes_from(
            b,
            0,
        ),
        end_node_at(a.subrange(0, end_node_at(a, at)) + b, at) == end_node_at(a, at)
            + end_node_at(b, 0),
    decreases a.len() - at,
{
    let end = scan(a, at)->Ok_0;
    lemma_scan_bounds(a, at, end);
    let ts = end_node_at(a, at);
    let p = a.subrange(0, ts);
    let c = p + b;
    lemma_scan_bounds(b, 0, b.len() as int);
    if is_end_at(a, at) {
        lemma_scan_shift(p, b, 0);
        assert(nodes_from(a, at) + nodes_from(b, 0) =~= nodes_from(b, 0));
    } else {
        let len = declared_len(a, at);
        lemma_scan_bounds(a, at + len, end);
        assert(forall|j: int| 0 <= j < ts ==> c[j] == a[j]);
        assert(declared_len(c, at) == len);
        assert(fault_at(c, at) is None);
        lemma_scan_splice(a, b, at + len);
        assert(c.subrange(at, at + len) =~= a.subrange(at, at + len));
        assert(nodes_from(c, at) =~= nodes_from(a, at) + nodes_from(b, 0));
    }
}

/// What is wrong with a node that is to be put into a path, if
/// anything: its header must fit, it must be exactly as long as it
/// declares, and it must not end the whole path.
pub open spec fn node_fault(n: Seq<u8>) -> Option<Malformation> {
    match fault_at(n, 0) {
        Some(kind) => Some(kind),
        None => if declared_len(n, 0) != n.len() || is_end_at(n, 0) {
            Some(Malformation::BadNode)
        } else {
            None
        },
    }
}

/// Putting one sound node before the node that ends a path gives a
/// path: the nodes of the old one, then the new node.
pub proof fn lemma_insert_node(a: Seq<u8>, n: Seq<u8>)
    requires
        well_formed(a),
        node_fault(n) is None,
    ensures
        well_formed(a.subrange(0, end_node_at(a, 0)) + n + a.subrange(end_node_at(a, 0), a.len() as int)),
        nodes_from(
            a.subrange(0, end_node_at(a, 0)) + n + a.subrange(end_node_at(a, 0), a.len() as int),
            0,
        ) == nodes_from(a, 0).push(n),
{
    let ts = end_node_at(a, 0);
    lemma_scan_bounds(a, 0, a.len() as int);
    let head = a.subrange(0, ts);
    let tail = a.subrange(ts, a.len() as int);
    assert(head + tail =~= a);
    lemma_scan_shift(head, tail, 0);
    assert(scan(a, ts) == Ok::<int, MalformedBinary>(a.len() as int));
    assert(scan(tail, 0) is Ok);
    assert(is_end_at(tail, 0));
    let b = n + tail;
    lemma_scan_shift(n, tail, 0);
    assert(forall|j: int| 0 <= j < n.len() ==> b[j] == n[j]);
    assert(declared_len(b, 0) == n.len());
    assert(fault_at(b, 0) is None);
    assert(!is_end_at(b, 0));
    assert(b.subrange(0, n.len() as int) =~= n);
    assert(nodes_from(tail, 0) =~= Seq::<Seq<u8>>::empty());
    assert(nodes_from(b, 0) =~= seq![n]);
    assert(well_formed(b));
    lemma_scan_splice(a, b, 0);
    assert(head + n + tail =~= head + b);
    assert(nodes_from(a, 0) + seq![n] =~= nodes_from(a, 0).push(n));
}

/// One node of a path, as the place of its bytes in the path's
/// encoding. It holds no bytes itself.
#[derive(Clone, Copy, Debug, PartialEq, Eq, Structural)]
pub struct NodeSpan {
    /// Offset of the node's header.
    pub start: usize,
    /// Length of the node, header included.
    pub len: usize,
}

impl NodeSpan {
    /// The bytes of `b` that the span covers.
    pub open spec fn bytes_in(self, b: Seq<u8>) -> Seq<u8> {
        b.subrange(self.start as int, self.start + self.len)
    }

    /// Whether the span lies inside `b` and has room for a header.
    pub open spec fn fits(self, b: Seq<u8>) -> bool {
        4 <= self.len && self.start + self.len <= b.len()
    }
}

/// The bytes that each of `spans` covers in `b`.
pub open spec fn spans_bytes(b: Seq<u8>, spans: Seq<NodeSpan>) -> Seq<Seq<u8>> {
    Seq::new(spans.len(), |i: int| spans[i].bytes_in(b))
}

/// Whether `spans` lie one behind the other without a gap, the first
/// at `from`, the last ending at `to`.
pub open spec fn spans_chain(spans: Seq<NodeSpan>, from: int, to: int) -> bool {
    &&& forall|i: int|
        0 <= i < spans.len() ==> (#[trigger] spans[i]).start == if i == 0 {
            from
        } else {
            spans[i - 1].start + spans[i - 1].len
        }
    &&& to == if spans.len() == 0 {
        from
    } else {
        spans.last().start + spans.last().len
    }
}

/// The bytes of `nodes`, one node after the other.
pub open spec fn flatten(nodes: Seq<Seq<u8>>) -> Seq<u8>
    decreases nodes.len(),
{
    if nodes.len() == 0 {
        Seq::empty()
    } else {
        nodes[0] + flatten(nodes.drop_first())
    }
}

/// Whether a node ends one instance of a path.
pub open spec fn is_instance_end(n: Seq<u8>) -> bool {
    n.len() >= 2 && n[0] == END_TYPE && n[1] == END_INSTANCE
}

/// One instance of a path, as the range of indices `first..end` into
/// the path's nodes. The node that ends the instance is not in it.
#[derive(Clone, Copy, Debug, PartialEq, Eq, Structural)]
pub struct InstanceRange {
    pub first: usize,
    pub end: usize,
}

/// The instances among `nodes` from node `i` on, where the instance
/// that is being read began at node `first`. A node that ends an
/// instance closes the one being read and opens the next; the end of
/// the nodes closes the last.
pub open spec fn instances_from(nodes: Seq<Seq<u8>>, i: int, first: int) -> Seq<InstanceRange>
    decreases nodes.len() - i,
{
    if i >= nodes.len() {
        seq![InstanceRange { first: first as usize, end: i as usize }]
    } else if is_instance_end(nodes[i]) {
        seq![InstanceRange { first: first as usize, end: i as usize }] + instances_from(
            nodes,
            i + 1,
            i + 1,
        )
    } else {
        instances_from(nodes, i + 1, first)
    }
}

/// Appends the bytes of `src` to `dst`.
fn push_all(dst: &mut Vec<u8>, src: &[u8])
    ensures
        final(dst)@ == old(dst)@ + src@,
{
    let mut i: usize = 0;
    while i < src.len()
        invariant
            i <= src@.len(),
            dst@ == old(dst)@ + src@.subrange(0, i as int),
        decreases src@.len() - i,
    {
        dst.push(src[i]);
        i = i + 1;
        assert(dst@ =~= old(dst)@ + src@.subrange(0, i as int));
    }
    assert(src@.subrange(0, i as int) =~= src@);
}

/// A path is its nodes, one after the other, and then the node that
/// ends it: nothing stands between them.
pub proof fn lemma_bytes_are_nodes(b: Seq<u8>, at: int)
    requires
        0 <= at,
        scan(b, at) is Ok,
    ensures
        b.subrange(at, scan(b, at)->Ok_0) == flatten(nodes_from(b, at)) + b.subrange(
            end_node_at(b, at),
            scan(b, at)->Ok_0,
        ),
    decreases b.len() - at,
{
    let end = scan(b, at)->Ok_0;
    lemma_scan_bounds(b, at, end);
    if is_end_at(b, at) {
        assert(flatten(nodes_from(b, at)) =~= Seq::<u8>::empty());
        assert(b.subrange(at, end) =~= flatten(nodes_from(b, at)) + b.subrange(at, end));
    } else {
        let len = declared_len(b, at);
        lemma_scan_bounds(b, at + len, end);
        lemma_bytes_are_nodes(b, at + len);
        let nodes = nodes_from(b, at);
        assert(nodes.drop_first() =~= nodes_from(b, at + len));
        assert(nodes[0] == b.subrange(at, at + len));
        assert(b.subrange(at, end) =~= b.subrange(at, at + len) + b.subrange(at + len, end));
        assert(b.subrange(at, end) =~= flatten(nodes) + b.subrange(end_node_at(b, at), end));
    }
}

/// The encoding of the path that runs through the nodes of `a` and
/// then through those of `b`.
pub open spec fn appended(a: Seq<u8>, b: Seq<u8>) -> Seq<u8> {
    a.subrange(0, end_node_at(a, 0)) + b
}

/// The node that ends the path `b`, as bytes.
pub open spec fn end_node(b: Seq<u8>) -> Seq<u8> {
    b.subrange(end_node_at(b, 0), b.len() as int)
}

/// Parsing a well-formed buffer gives a path whose encoding is the
/// buffer itself, so writing the parsed path out again gives the
/// buffer back: the nodes that were read, one after the other, and
/// the node that ends the path.
pub proof fn lemma_round_trip(b: Seq<u8>)
    requires
        well_formed(b),
    ensures
        parsed(b) == Ok::<Seq<u8>, MalformedBinary>(b),
        flatten(nodes_from(b, 0)) + end_node(b) == b,
{
    assert(b.subrange(0, b.len() as int) =~= b);
    lemma_bytes_are_nodes(b, 0);
}

/// A buffer with fewer than four bytes, or whose first header declares
/// a length under four or past the buffer's end, does not parse. A
/// buffer that does parse has no fault at its first header, and the
/// path found lies inside the buffer and is well formed.
pub proof fn lemma_malformed_rejected(b: Seq<u8>)
    ensures
        b.len() < 4 ==> parsed(b) == Err::<Seq<u8>, _>(
            MalformedBinary { offset: 0, kind: Malformation::Truncated },
        ),
        b.len() >= 4 && declared_len(b, 0) < 4 ==> parsed(b) == Err::<Seq<u8>, _>(
            MalformedBinary { offset: 0, kind: Malformation::LengthTooSmall },
        ),
        b.len() >= 4 && declared_len(b, 0) > b.len() ==> parsed(b) == Err::<Seq<u8>, _>(
            MalformedBinary { offset: 0, kind: Malformation::Overrun },
        ),
        parsed(b) is Ok ==> fault_at(b, 0) is None && parsed(b)->Ok_0.len() <= b.len()
            && well_formed(parsed(b)->Ok_0),
{
    if scan(b, 0) is Ok {
        let end = scan(b, 0)->Ok_0;
        lemma_scan_bounds(b, 0, end);
        let c = b.subrange(0, end);
        assert(c.subrange(0, end) =~= b.subrange(0, end));
        lemma_scan_agrees(b, c, 0, end);
    }
}

/// A fault anywhere on the walk makes the whole walk fail: where the
/// walk from the start comes to `at` and the header there is faulty,
/// parsing gives exactly that fault.
pub proof fn lemma_fault_on_the_way(b: Seq<u8>, at: int)
    requires
        0 <= at <= b.len(),
        scan(b, 0) == scan(b, at),
        fault_at(b, at) is Some,
    ensures
        parsed(b) == Err::<Seq<u8>, _>(
            MalformedBinary { offset: at as usize, kind: fault_at(b, at)->Some_0 },
        ),
{
}

/// Appending two paths gives a path whose nodes are those of the
/// first and then those of the second, ended by the node that ended
/// the second. Its length is the two lengths together less the node
/// that ended the first.
pub proof fn lemma_append_nodes(a: Seq<u8>, b: Seq<u8>)
    requires
        well_formed(a),
        well_formed(b),
    ensures
        well_formed(appended(a, b)),
        nodes_from(appended(a, b), 0) == nodes_from(a, 0) + nodes_from(b, 0),
        end_node(appended(a, b)) == end_node(b),
        appended(a, b).len() == a.len() + b.len() - end_node(a).len(),
{
    lemma_scan_splice(a, b, 0);
    lemma_scan_bounds(a, 0, a.len() as int);
    lemma_scan_bounds(b, 0, b.len() as int);
    assert(end_node(appended(a, b)) =~= end_node(b));
}

/// A device path: the bytes of its nodes and of the node that ends it.
#[derive(Debug, PartialEq, Eq, Hash)]
pub struct DevicePath {
    bytes: Vec<u8>,
}

impl View for DevicePath {
    type V = Seq<u8>;

    closed spec fn view(&self) -> Seq<u8> {
        self.bytes@
    }
}

impl DevicePath {
    #[verifier::type_invariant]
    spec fn inv(self) -> bool {
        well_formed(self.bytes@)
    }

    /// The nodes of the path, without the node that ends it. A node
    /// that ends an instance is one of them.
    pub open spec fn nodes(&self) -> Seq<Seq<u8>> {
        nodes_from(self@, 0)
    }

    /// The path without nodes, which stands for no device: the node
    /// that ends a path, and nothing before it.
    pub fn empty() -> (r: DevicePath)
        ensures
            r@ == seq![END_TYPE, END_ENTIRE, 4u8, 0u8],
            r.nodes() == Seq::<Seq<u8>>::empty(),
    {
        let mut bytes: Vec<u8> = Vec::new();
        bytes.push(END_TYPE);
        bytes.push(END_ENTIRE);
        bytes.push(4);
        bytes.push(0);
        assert(bytes@ =~= seq![END_TYPE, END_ENTIRE, 4u8, 0u8]);
        assert(fault_at(bytes@, 0) is None);
        DevicePath { bytes }
    }

    /// Parses the path that `bytes` starts with. Every header on the
    /// way is checked before the walk goes on, so a fault is found
    /// before anything behind it is read. What follows the node that
    /// ends the path is not part of the path.
    pub fn parse(bytes: &[u8]) -> (r: Result<DevicePath, MalformedBinary>)
        ensures
            match parsed(bytes@) {
                Ok(p) => r is Ok && r->Ok_0@ == p,
                Err(e) => r == Err::<DevicePath, _>(e),
            },
    {
        let total: usize = bytes.len();
        let mut at: usize = 0;
        loop
            invariant
                total == bytes@.len(),
                at <= total,
                scan(bytes@, at as int) == scan(bytes@, 0),
            decreases total - at,
        {
            match checked_header(bytes, at) {
                Err(e) => {
                    return Err(e);
                },
                Ok(hdr) => {
                    assert(fault_at(bytes@, at as int) is None);
                    let len: usize = hdr.length() as usize;
                    if hdr.is_end() {
                        let end: usize = at + len;
                        let v = slice_to_vec(slice_subrange(bytes, 0, end));
                        proof {
                            assert(scan(bytes@, 0) == Ok::<int, MalformedBinary>(end as int));
                            assert(v@.subrange(0, end as int) =~= bytes@.subrange(0, end as int));
                            lemma_scan_agrees(bytes@, v@, 0, end as int);
                        }
                        return Ok(DevicePath { bytes: v });
                    }
                    at = at + len;
                },
            }
        }
    }

    /// The encoded path. It is well formed, as every path is.
    pub fn as_bytes(&self) -> (r: &[u8])
        ensures
            r@ == self@,
            well_formed(self@),
    {
        proof {
            use_type_invariant(self);
        }
        self.bytes.as_slice()
    }

    /// The encoded path, copied.
    pub fn serialize(&self) -> (r: Vec<u8>)
        ensures
            r@ == self@,
    {
        slice_to_vec(self.bytes.as_slice())
    }

    /// The length of the encoded path in bytes, the node that ends it
    /// included.
    pub fn size_of(&self) -> (r: usize)
        ensures
            r == self@.len(),
            r >= 4,
    {
        proof {
            use_type_invariant(self);
            lemma_scan_bounds(self.bytes@, 0, self.bytes@.len() as int);
        }
        self.bytes.len()
    }

    /// A copy of the path, byte for byte.
    pub fn duplicate(&self) -> (r: DevicePath)
        ensures
            r@ == self@,
    {
        proof {
            use_type_invariant(self);
        }
        DevicePath { bytes: slice_to_vec(self.bytes.as_slice()) }
    }
    /// The offset of the node that ends the path.
    pub fn end_offset(&self) -> (r: usize)
        ensures
            r == end_node_at(self@, 0),
            r + 4 <= self@.len(),
    {
        proof {
            use_type_invariant(self);
            lemma_scan_bounds(self.bytes@, 0, self.bytes@.len() as int);
        }
        let bytes = self.bytes.as_slice();
        let total: usize = bytes.len();
        let mut at: usize = 0;
        loop
            invariant
                total == bytes@.len(),
                bytes@ == self@,
                at <= total,
                scan(bytes@, at as int) == Ok::<int, MalformedBinary>(total as int),
                end_node_at(bytes@, at as int) == end_node_at(bytes@, 0),
            decreases total - at,
        {
            let hdr = header_at(bytes, at);
            if hdr.is_end() {
                return at;
            }
            at = at + hdr.length() as usize;
        }
    }

    /// The path that runs through the nodes of `self` and then through
    /// those of `other`: the node that ends `self` is dropped, and the
    /// one that ends `other` ends the result.
    pub fn append(&self, other: &DevicePath) -> (r: DevicePath)
        ensures
            r@ == appended(self@, other@),
            r.nodes() == self.nodes() + other.nodes(),
            r@.len() == self@.len() + other@.len() - end_node(self@).len(),
    {
        let cut = self.end_offset();
        let mut v = slice_to_vec(slice_subrange(self.bytes.as_slice(), 0, cut));
        push_all(&mut v, other.bytes.as_slice());
        proof {
            use_type_invariant(self);
            use_type_invariant(other);
            lemma_append_nodes(self.bytes@, other.bytes@);
        }
        DevicePath { bytes: v }
    }

    /// The path with `node` put in just before the node that ends it.
    /// A node that is unsound by itself is refused, and the path is
    /// left as it was.
    pub fn append_node(&self, node: &[u8]) -> (r: Result<DevicePath, MalformedBinary>)
        ensures
            match node_fault(node@) {
                Some(kind) => r == Err::<DevicePath, _>(MalformedBinary { offset: 0, kind }),
                None => r is Ok && r->Ok_0@ == self@.subrange(0, end_node_at(self@, 0)) + node@
                    + self@.subrange(end_node_at(self@, 0), self@.len() as int)
                    && r->Ok_0.nodes() == self.nodes().push(node@),
            },
    {
        let hdr = match checked_header(node, 0) {
            Err(e) => {
                return Err(e);
            },
            Ok(hdr) => hdr,
        };
        if hdr.length() as usize != node.len() || hdr.is_end() {
            return Err(MalformedBinary { offset: 0, kind: Malformation::BadNode });
        }
        let cut = self.end_offset();
        let bytes = self.bytes.as_slice();
        let mut v = slice_to_vec(slice_subrange(bytes, 0, cut));
        push_all(&mut v, node);
        push_all(&mut v, slice_subrange(bytes, cut, bytes.len()));
        proof {
            use_type_invariant(self);
            lemma_insert_node(self.bytes@, node@);
        }
        Ok(DevicePath { bytes: v })
    }

    /// The nodes of the path in order, each as its place in the
    /// encoding. The node that ends the path is not among them.
    pub fn node_spans(&self) -> (r: Vec<NodeSpan>)
        ensures
            spans_bytes(self@, r@) == self.nodes(),
            forall|i: int| 0 <= i < r@.len() ==> (#[trigger] r@[i]).fits(self@),
            spans_chain(r@, 0, end_node_at(self@, 0)),
    {
        proof {
            use_type_invariant(self);
        }
        let bytes = self.bytes.as_slice();
        let total: usize = bytes.len();
        let mut out: Vec<NodeSpan> = Vec::new();
        let mut at: usize = 0;
        loop
            invariant
                total == bytes@.len(),
                bytes@ == self@,
                at <= total,
                scan(bytes@, at as int) == Ok::<int, MalformedBinary>(total as int),
                spans_bytes(bytes@, out@) + nodes_from(bytes@, at as int) == nodes_from(bytes@, 0),
                forall|i: int| 0 <= i < out@.len() ==> (#[trigger] out@[i]).fits(bytes@),
                spans_chain(out@, 0, at as int),
                end_node_at(bytes@, at as int) == end_node_at(bytes@, 0),
            decreases total - at,
        {
            let hdr = header_at(bytes, at);
            let len: usize = hdr.length() as usize;
            if hdr.is_end() {
                assert(spans_bytes(bytes@, out@) + nodes_from(bytes@, at as int) =~= spans_bytes(
                    bytes@,
                    out@,
                ));
                return out;
            }
            let ghost before = out@;
            out.push(NodeSpan { start: at, len });
            assert(spans_bytes(bytes@, out@) + nodes_from(bytes@, at + len) =~= spans_bytes(
                bytes@,
                before,
            ) + nodes_from(bytes@, at as int));
            at = at + len;
        }
    }

    /// The node whose header stands at `at`, or nothing where the path
    /// ends there or no sound header stands there. Starting at zero
    /// and going on behind each node that this gives walks the nodes
    /// of the path one at a time.
    pub fn node_at(&self, at: usize) -> (r: Option<NodeSpan>)
        ensures
            r == if at > self@.len() || fault_at(self@, at as int) is Some || is_end_at(
                self@,
                at as int,
            ) {
                None
            } else {
                Some(NodeSpan { start: at, len: declared_len(self@, at as int) as usize })
            },
            r is Some ==> r->Some_0.fits(self@),
    {
        let bytes = self.bytes.as_slice();
        if at > bytes.len() {
            return None;
        }
        match checked_header(bytes, at) {
            Err(_) => None,
            Ok(hdr) => if hdr.is_end() {
                None
            } else {
                Some(NodeSpan { start: at, len: hdr.length() as usize })
            },
        }
    }

    /// The header of the node that `span` covers.
    pub fn header(&self, span: &NodeSpan) -> (r: DevicePathHdr)
        requires
            span.fits(self@),
        ensures
            r.ty.0 == self@[span.start as int],
            r.sub_ty.0 == self@[span.start + 1],
            r.spec_length() == declared_len(self@, span.start as int),
    {
        header_at(self.bytes.as_slice(), span.start)
    }

    /// The bytes of the node that `span` covers, header included.
    pub fn node_bytes(&self, span: &NodeSpan) -> (r: &[u8])
        requires
            span.fits(self@),
        ensures
            r@ == span.bytes_in(self@),
    {
        let bytes = self.bytes.as_slice();
        let total: usize = bytes.len();
        assert(span.start + span.len <= total);
        slice_subrange(bytes, span.start, span.start + span.len)
    }
    /// The instances of the path, each as a range of indices into what
    /// `node_spans` gives. A path with no node that ends an instance
    /// has one instance, which holds every node.
    pub fn instances(&self) -> (r: Vec<InstanceRange>)
        ensures
            r@ == instances_from(self.nodes(), 0, 0),
    {
        let spans = self.node_spans();
        let ghost nodes = self.nodes();
        let count: usize = spans.len();
        let mut out: Vec<InstanceRange> = Vec::new();
        let mut first: usize = 0;
        let mut i: usize = 0;
        while i < count
            invariant
                count == spans@.len(),
                nodes == self.nodes(),
                spans_bytes(self@, spans@) == nodes,
                forall|j: int| 0 <= j < spans@.len() ==> (#[trigger] spans@[j]).fits(self@),
                first <= i <= count,
                out@ + instances_from(nodes, i as int, first as int) == instances_from(nodes, 0, 0),
            decreases count - i,
        {
            let span = spans[i];
            assert(span.fits(self@));
            assert(nodes[i as int] == span.bytes_in(self@));
            let hdr = self.header(&span);
            let ghost before = out@;
            if hdr.is_instance_end() {
                out.push(InstanceRange { first, end: i });
                first = i + 1;
                assert(out@ + instances_from(nodes, i + 1, first as int) =~= before
                    + instances_from(nodes, i as int, out@.last().first as int));
            }
            i = i + 1;
        }
        let ghost before = out@;
        out.push(InstanceRange { first, end: i });
        assert(out@ =~= before + instances_from(nodes, i as int, first as int));
        out
    }

    /// Whether the path holds more than one instance.
    pub fn is_multi_instance(&self) -> (r: bool)
        ensures
            r == (instances_from(self.nodes(), 0, 0).len() > 1),
    {
        self.instances().len() > 1
    }
}

} // verus!
