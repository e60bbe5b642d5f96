use nuefi::device_path::{
    DevicePath, DevicePathHdr, DevicePathSubType, DevicePathToText, DevicePathType,
    DevicePathUtil, InstanceRange, MalformedBinary, Malformation, NodeSpan,
};
use nuefi::error::{EfiStatus, UefiError, UNSUPPORTED};
use nuefi::guid::Guid;
use nuefi::handle::Slot;
use nuefi::proto::Entity;

const END: [u8; 4] = [0x7F, 0xFF, 0x04, 0x00];

fn sample_a() -> Vec<u8> {
    // one node of six bytes, then the end
    vec![0x01, 0x01, 0x06, 0x00, 0xAA, 0xBB, 0x7F, 0xFF, 0x04, 0x00]
}

fn sample_b() -> Vec<u8> {
    // one node of eight bytes, then the end
    vec![0x04, 0x04, 0x08, 0x00, 0x01, 0x02, 0x03, 0x04, 0x7F, 0xFF, 0x04, 0x00]
}

#[test]
fn terminator_alone_is_a_path_without_nodes() {
    let path = DevicePath::parse(&END).unwrap();
    assert_eq!(path.node_spans().len(), 0);
    assert_eq!(path.size_of(), 4);
    assert_eq!(path.end_offset(), 0);
    assert_eq!(path.as_bytes(), &END);
}

#[test]
fn short_buffers_are_truncated() {
    for n in 0..4usize {
        let buf = vec![0x7Fu8; n];
        assert_eq!(
            DevicePath::parse(&buf).err(),
            Some(MalformedBinary { offset: 0, kind: Malformation::Truncated })
        );
    }
}

#[test]
fn declared_length_under_four_is_refused() {
    let buf = [0x01, 0x01, 0x03, 0x00, 0x7F, 0xFF, 0x04, 0x00];
    assert_eq!(
        DevicePath::parse(&buf).err(),
        Some(MalformedBinary { offset: 0, kind: Malformation::LengthTooSmall })
    );
    let zero = [0x01, 0x01, 0x00, 0x00];
    assert_eq!(
        DevicePath::parse(&zero).err(),
        Some(MalformedBinary { offset: 0, kind: Malformation::LengthTooSmall })
    );
}

#[test]
fn declared_length_past_the_end_is_refused() {
    let buf = [0x01, 0x01, 0x09, 0x00, 0x7F, 0xFF, 0x04, 0x00];
    assert_eq!(
        DevicePath::parse(&buf).err(),
        Some(MalformedBinary { offset: 0, kind: Malformation::Overrun })
    );
    // the high byte of the length counts
    let high = [0x7F, 0xFF, 0x04, 0x01];
    assert_eq!(
        DevicePath::parse(&high).err(),
        Some(MalformedBinary { offset: 0, kind: Malformation::Overrun })
    );
}

#[test]
fn fault_behind_the_first_node_names_its_offset() {
    let buf = [0x01, 0x01, 0x06, 0x00, 0xAA, 0xBB, 0x7F, 0xFF, 0x02, 0x00];
    assert_eq!(
        DevicePath::parse(&buf).err(),
        Some(MalformedBinary { offset: 6, kind: Malformation::LengthTooSmall })
    );
}

#[test]
fn path_without_end_is_truncated_at_the_end() {
    let buf = [0x01, 0x01, 0x06, 0x00, 0xAA, 0xBB];
    assert_eq!(
        DevicePath::parse(&buf).err(),
        Some(MalformedBinary { offset: 6, kind: Malformation::Truncated })
    );
}

#[test]
fn parse_then_serialize_gives_the_buffer_back() {
    for buf in [sample_a(), sample_b(), END.to_vec()] {
        let path = DevicePath::parse(&buf).unwrap();
        assert_eq!(path.serialize(), buf);
        assert_eq!(path.size_of(), buf.len());
    }
}

#[test]
fn bytes_behind_the_end_are_not_part_of_the_path() {
    let mut buf = sample_a();
    buf.extend_from_slice(&[0xDE, 0xAD, 0xBE]);
    let path = DevicePath::parse(&buf).unwrap();
    assert_eq!(path.serialize(), sample_a());
    assert_eq!(path.size_of(), 10);
}

#[test]
fn node_spans_cover_the_nodes_in_order() {
    let mut buf = vec![0x01, 0x01, 0x06, 0x00, 0xAA, 0xBB];
    buf.extend_from_slice(&sample_b());
    let path = DevicePath::parse(&buf).unwrap();
    let spans = path.node_spans();
    assert_eq!(spans, vec![NodeSpan { start: 0, len: 6 }, NodeSpan { start: 6, len: 8 }]);
    assert_eq!(path.node_bytes(&spans[0]), &[0x01, 0x01, 0x06, 0x00, 0xAA, 0xBB]);
    assert_eq!(path.node_bytes(&spans[1]), &[0x04, 0x04, 0x08, 0x00, 0x01, 0x02, 0x03, 0x04]);
    let hdr = path.header(&spans[1]);
    assert_eq!(hdr.ty, DevicePathType(0x04));
    assert_eq!(hdr.sub_ty, DevicePathSubType(0x04));
    assert_eq!(hdr.length(), 8);
    assert_eq!(path.end_offset(), 14);
}

#[test]
fn header_length_is_little_endian() {
    let hdr = DevicePathHdr {
        ty: DevicePathType(0x7F),
        sub_ty: DevicePathSubType(0xFF),
        len: [0x34, 0x12],
    };
    assert_eq!(hdr.length(), 0x1234);
    assert!(hdr.is_end());
    assert!(!hdr.is_instance_end());
    let inst = DevicePathHdr {
        ty: DevicePathType(0x7F),
        sub_ty: DevicePathSubType(0x01),
        len: [4, 0],
    };
    assert!(inst.is_instance_end());
    assert!(!inst.is_end());
}

#[test]
fn duplicate_is_byte_identical() {
    let path = DevicePath::parse(&sample_b()).unwrap();
    let copy = path.duplicate();
    assert_eq!(copy.as_bytes(), path.as_bytes());
    assert_eq!(copy.size_of(), 12);
}

#[test]
fn append_drops_the_first_end_and_keeps_the_second() {
    let a = DevicePath::parse(&sample_a()).unwrap();
    let b = DevicePath::parse(&sample_b()).unwrap();
    let c = a.append(&b);
    let expected: Vec<u8> = vec![
        0x01, 0x01, 0x06, 0x00, 0xAA, 0xBB, 0x04, 0x04, 0x08, 0x00, 0x01, 0x02, 0x03, 0x04, 0x7F,
        0xFF, 0x04, 0x00,
    ];
    assert_eq!(c.serialize(), expected);
    assert_eq!(c.size_of(), a.size_of() + b.size_of() - 4);
    assert_eq!(c.size_of(), 18);
    assert_eq!(
        c.node_spans(),
        vec![NodeSpan { start: 0, len: 6 }, NodeSpan { start: 6, len: 8 }]
    );
    // the result is a path again
    assert_eq!(DevicePath::parse(c.as_bytes()).unwrap().serialize(), expected);
}

#[test]
fn empty_path_is_the_end_node() {
    let none = DevicePath::empty();
    assert_eq!(none.as_bytes(), &END);
    assert_eq!(none, DevicePath::parse(&END).unwrap());
    assert_eq!(none.node_spans().len(), 0);
    assert_eq!(none.size_of(), 4);
}

#[test]
fn append_of_empty_paths() {
    let none = DevicePath::parse(&END).unwrap();
    let a = DevicePath::parse(&sample_a()).unwrap();
    assert_eq!(none.append(&none).serialize(), END.to_vec());
    assert_eq!(none.append(&a).serialize(), sample_a());
    assert_eq!(a.append(&none).serialize(), sample_a());
}

#[test]
fn append_node_goes_before_the_end() {
    let a = DevicePath::parse(&sample_a()).unwrap();
    let node = [0x03, 0x02, 0x05, 0x00, 0x99];
    let c = a.append_node(&node).unwrap();
    assert_eq!(
        c.serialize(),
        vec![0x01, 0x01, 0x06, 0x00, 0xAA, 0xBB, 0x03, 0x02, 0x05, 0x00, 0x99, 0x7F, 0xFF, 0x04, 0x00]
    );
    assert_eq!(c.size_of(), a.size_of() + 5);
    assert_eq!(c.node_spans().len(), 2);
    // the path it was made from is as it was
    assert_eq!(a.serialize(), sample_a());
}

#[test]
fn append_node_refuses_unsound_nodes() {
    let a = DevicePath::parse(&sample_a()).unwrap();
    let bad = |kind| Some(MalformedBinary { offset: 0, kind });
    assert_eq!(a.append_node(&[0x03, 0x02]).err(), bad(Malformation::Truncated));
    assert_eq!(a.append_node(&[0x03, 0x02, 0x03, 0x00]).err(), bad(Malformation::LengthTooSmall));
    assert_eq!(a.append_node(&[0x03, 0x02, 0x05, 0x00]).err(), bad(Malformation::Overrun));
    assert_eq!(a.append_node(&[0x03, 0x02, 0x04, 0x00, 0x00]).err(), bad(Malformation::BadNode));
    assert_eq!(a.append_node(&END).err(), bad(Malformation::BadNode));
}

#[test]
fn instances_are_split_at_instance_ends() {
    let buf: Vec<u8> = vec![
        0x01, 0x01, 0x04, 0x00, // node 0
        0x7F, 0x01, 0x04, 0x00, // node 1: end of instance
        0x02, 0x01, 0x04, 0x00, // node 2
        0x03, 0x01, 0x04, 0x00, // node 3
        0x7F, 0xFF, 0x04, 0x00,
    ];
    let path = DevicePath::parse(&buf).unwrap();
    assert_eq!(path.node_spans().len(), 4);
    assert!(path.is_multi_instance());
    assert_eq!(
        path.instances(),
        vec![InstanceRange { first: 0, end: 1 }, InstanceRange { first: 2, end: 4 }]
    );
    assert_eq!(path.serialize(), buf);
}

#[test]
fn single_instance_holds_every_node() {
    let path = DevicePath::parse(&sample_a()).unwrap();
    assert!(!path.is_multi_instance());
    assert_eq!(path.instances(), vec![InstanceRange { first: 0, end: 1 }]);
    let none = DevicePath::parse(&END).unwrap();
    assert_eq!(none.instances(), vec![InstanceRange { first: 0, end: 0 }]);
}

#[test]
fn appending_an_instance_end_makes_a_second_instance() {
    let a = DevicePath::parse(&sample_a()).unwrap();
    let c = a.append_node(&[0x7F, 0x01, 0x04, 0x00]).unwrap();
    assert!(c.is_multi_instance());
    assert_eq!(
        c.instances(),
        vec![InstanceRange { first: 0, end: 1 }, InstanceRange { first: 2, end: 2 }]
    );
}

#[test]
fn device_path_guid() {
    let guid = <DevicePathHdr as Entity>::guid();
    assert_eq!(
        guid.to_bytes(),
        [
            0x91, 0x6E, 0x57, 0x09, 0x3F, 0x6D, 0xD2, 0x11, 0x8E, 0x39, 0x00, 0xA0, 0xC9, 0x69,
            0x72, 0x3B
        ]
    );
    assert_eq!(Guid::parse("09576E91-6D3F-11D2-8E39-00A0C969723B"), Ok(guid));
    assert_eq!(<DevicePathHdr as Entity>::name(), "DevicePathHdr");
}

#[test]
fn utility_slots_are_checked() {
    let util = DevicePathUtil {
        get_device_path_size: Slot(0x1000),
        duplicate_device_path: Slot(0),
        append_device_path: Slot(0x3000),
        append_device_node: Slot(0),
        append_device_path_instance: Slot(0),
        get_next_device_path_instance: Slot(0),
        is_device_path_multi_instance: Slot(0),
        create_device_node: Slot(0),
    };
    let absent = Err(UefiError { status: EfiStatus(UNSUPPORTED) });
    assert_eq!(util.get_device_path_size(), Ok(0x1000));
    assert_eq!(util.duplicate_device_path(), absent);
    assert_eq!(util.append_device_path(), Ok(0x3000));
    assert_eq!(util.append_device_node(), absent);
    let text = DevicePathToText {
        convert_device_node_to_text: Slot(0),
        convert_device_path_to_text: Slot(0x40),
    };
    assert_eq!(text.convert_device_node_to_text(), absent);
    assert_eq!(text.convert_device_path_to_text(), Ok(0x40));
}

#[test]
fn nodes_can_be_walked_one_at_a_time() {
    let mut buf = vec![0x01, 0x01, 0x06, 0x00, 0xAA, 0xBB];
    buf.extend_from_slice(&sample_b());
    let path = DevicePath::parse(&buf).unwrap();
    let mut at = 0;
    let mut seen = Vec::new();
    while let Some(node) = path.node_at(at) {
        seen.push(node);
        at = node.start + node.len;
    }
    assert_eq!(seen, path.node_spans());
    assert_eq!(at, path.end_offset());
    // walking again gives the same
    assert_eq!(path.node_at(0), Some(NodeSpan { start: 0, len: 6 }));
    assert_eq!(path.node_at(14), None);
    assert_eq!(path.node_at(16), None);
    assert_eq!(path.node_at(1000), None);
}

#[test]
fn paths_and_headers_compare_by_their_bytes() {
    let a = DevicePath::parse(&sample_a()).unwrap();
    assert_eq!(a, a.duplicate());
    assert_ne!(a, DevicePath::parse(&sample_b()).unwrap());
    let small = DevicePathHdr { ty: DevicePathType(1), sub_ty: DevicePathSubType(9), len: [4, 0] };
    let large = DevicePathHdr { ty: DevicePathType(2), sub_ty: DevicePathSubType(0), len: [4, 0] };
    assert!(small < large);
    assert_eq!(small, small);
}
