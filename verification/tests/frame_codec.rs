use glb_to_ss::frame::{read_frame, write_frame, FrameError, PREFIX_LEN};
use glb_to_ss::order::{decode_length, encode_length, ByteOrder};

#[test]
fn length_is_written_in_the_order_asked_for() {
    assert_eq!(
        encode_length(ByteOrder::Little, 0x0102_0304_0506_0708),
        vec![8, 7, 6, 5, 4, 3, 2, 1]
    );
    assert_eq!(
        encode_length(ByteOrder::Big, 0x0102_0304_0506_0708),
        vec![1, 2, 3, 4, 5, 6, 7, 8]
    );
    assert_eq!(encode_length(ByteOrder::Little, 0), vec![0; 8]);
    assert_eq!(encode_length(ByteOrder::Big, u64::MAX), vec![0xff; 8]);
}

#[test]
fn length_is_read_in_the_order_asked_for() {
    let bytes = [1, 2, 3, 4, 5, 6, 7, 8];
    assert_eq!(decode_length(ByteOrder::Big, &bytes), Some(0x0102_0304_0506_0708));
    assert_eq!(decode_length(ByteOrder::Little, &bytes), Some(0x0807_0605_0403_0201));
}

#[test]
fn length_needs_exactly_eight_bytes() {
    assert_eq!(decode_length(ByteOrder::Little, &[]), None);
    assert_eq!(decode_length(ByteOrder::Little, &[1, 0, 0, 0, 0, 0, 0]), None);
    assert_eq!(decode_length(ByteOrder::Big, &[0, 0, 0, 0, 0, 0, 0, 0, 1]), None);
}

#[test]
fn length_round_trip_in_both_orders() {
    let samples: [u64; 7] = [0, 1, 42, 255, 256, 0xdead_beef_0bad_f00d, u64::MAX];
    for order in [ByteOrder::Little, ByteOrder::Big] {
        for n in samples {
            let bytes = encode_length(order, n);
            assert_eq!(bytes.len(), PREFIX_LEN);
            assert_eq!(decode_length(order, &bytes), Some(n));
        }
    }
}

#[test]
fn the_two_orders_mirror_each_other() {
    let n: u64 = 0x1020_3040_5060_7080;
    let mut little = encode_length(ByteOrder::Little, n);
    little.reverse();
    assert_eq!(little, encode_length(ByteOrder::Big, n));
}

#[test]
fn order_is_told_from_the_bytes_of_one() {
    assert_eq!(
        ByteOrder::identify(&[1, 0, 0, 0, 0, 0, 0, 0]),
        Some(ByteOrder::Little)
    );
    assert_eq!(
        ByteOrder::identify(&[0, 0, 0, 0, 0, 0, 0, 1]),
        Some(ByteOrder::Big)
    );
    assert_eq!(ByteOrder::identify(&[0, 0, 0, 0, 0, 0, 0, 0]), None);
    assert_eq!(ByteOrder::identify(&[1, 0, 0, 0, 0, 0, 0, 1]), None);
    assert_eq!(ByteOrder::identify(&[0, 1, 0, 0, 0, 0, 0, 0]), None);
    assert_eq!(ByteOrder::identify(&[1, 0, 0, 0]), None);
    assert_eq!(ByteOrder::identify(&[]), None);
}

#[test]
fn native_order_is_the_order_of_the_machine() {
    let n: u64 = 0x1122_3344_5566_7788;
    assert_eq!(encode_length(ByteOrder::native(), n), n.to_ne_bytes().to_vec());
    assert_eq!(decode_length(ByteOrder::native(), &n.to_ne_bytes()), Some(n));
    assert_eq!(
        Some(ByteOrder::native()),
        ByteOrder::identify(&1u64.to_ne_bytes())
    );
}

#[test]
fn frame_is_length_then_payload() {
    let mut channel = Vec::new();
    write_frame(ByteOrder::Big, b"hello", &mut channel);
    assert_eq!(
        channel,
        vec![0, 0, 0, 0, 0, 0, 0, 5, b'h', b'e', b'l', b'l', b'o']
    );
    let mut channel = Vec::new();
    write_frame(ByteOrder::Little, b"hello", &mut channel);
    assert_eq!(
        channel,
        vec![5, 0, 0, 0, 0, 0, 0, 0, b'h', b'e', b'l', b'l', b'o']
    );
}

#[test]
fn frame_round_trip() {
    let payloads: [&[u8]; 4] = [b"", b"OK", b"put model abc123 stub", &[0, 255, 10, 13, 0]];
    for order in [ByteOrder::Little, ByteOrder::Big] {
        for payload in payloads {
            let mut channel = Vec::new();
            write_frame(order, payload, &mut channel);
            assert_eq!(
                read_frame(order, &channel),
                Ok((payload.to_vec(), 8 + payload.len()))
            );
        }
    }
}

#[test]
fn frame_round_trip_of_a_long_payload() {
    let payload: Vec<u8> = (0..70_000u32).map(|i| (i % 251) as u8).collect();
    let mut channel = Vec::new();
    write_frame(ByteOrder::native(), &payload, &mut channel);
    assert_eq!(channel.len(), 70_008);
    assert_eq!(
        read_frame(ByteOrder::native(), &channel),
        Ok((payload, 70_008))
    );
}

#[test]
fn frames_follow_one_another_on_a_channel() {
    let mut channel = vec![];
    write_frame(ByteOrder::Little, b"first", &mut channel);
    write_frame(ByteOrder::Little, b"", &mut channel);
    write_frame(ByteOrder::Little, b"third", &mut channel);
    let (one, used_one) = read_frame(ByteOrder::Little, &channel).unwrap();
    assert_eq!(one, b"first");
    assert_eq!(used_one, 13);
    let (two, used_two) = read_frame(ByteOrder::Little, &channel[used_one..]).unwrap();
    assert_eq!(two, b"");
    assert_eq!(used_two, 8);
    let (three, used_three) =
        read_frame(ByteOrder::Little, &channel[used_one + used_two..]).unwrap();
    assert_eq!(three, b"third");
    assert_eq!(used_one + used_two + used_three, channel.len());
}

#[test]
fn writing_leaves_what_is_on_the_channel() {
    let mut channel = vec![9, 9, 9];
    write_frame(ByteOrder::Big, &[7], &mut channel);
    assert_eq!(channel, vec![9, 9, 9, 0, 0, 0, 0, 0, 0, 0, 1, 7]);
}

#[test]
fn cut_frame_is_not_read() {
    let mut channel = Vec::new();
    write_frame(ByteOrder::Big, b"hello", &mut channel);
    for kept in 0..8 {
        assert_eq!(
            read_frame(ByteOrder::Big, &channel[..kept]),
            Err(FrameError::ShortPrefix)
        );
    }
    for kept in 8..13 {
        assert_eq!(
            read_frame(ByteOrder::Big, &channel[..kept]),
            Err(FrameError::ShortPayload)
        );
    }
}

#[test]
fn frame_read_in_the_other_order_is_not_the_same() {
    let mut channel = Vec::new();
    write_frame(ByteOrder::Little, b"hello", &mut channel);
    assert_eq!(
        read_frame(ByteOrder::Big, &channel),
        Err(FrameError::ShortPayload)
    );
}

#[test]
fn a_huge_announced_length_is_a_short_payload() {
    let channel = vec![0xff; 12];
    assert_eq!(
        read_frame(ByteOrder::Little, &channel),
        Err(FrameError::ShortPayload)
    );
}

#[test]
fn eight_bytes_are_the_prefix_of_the_length_they_announce() {
    let samples: [[u8; 8]; 3] = [
        [0; 8],
        [1, 2, 3, 4, 5, 6, 7, 8],
        [0xff, 0, 0x80, 0x7f, 1, 0xfe, 0x10, 0xaa],
    ];
    for order in [ByteOrder::Little, ByteOrder::Big] {
        for bytes in samples {
            let n = decode_length(order, &bytes).unwrap();
            assert_eq!(encode_length(order, n), bytes.to_vec());
        }
    }
}
