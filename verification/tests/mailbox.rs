use firefly::channel::REFERENCE_CAPACITY;
use firefly::mailbox::{has_mailbox_size, holds_valid_slot, Mailbox};
use firefly::message::{ChannelUnavailable, PayloadTooLarge};

#[test]
fn create_refuses_a_region_without_room_for_the_length() {
    let mut region = vec![0u8; 3];
    assert_eq!(Mailbox::create(&mut region).err(), Some(ChannelUnavailable));
    assert_eq!(region, vec![0u8; 3]);
}

#[test]
fn create_accepts_the_smallest_region() {
    let mut region = vec![0xffu8; 4];
    let mailbox = Mailbox::create(&mut region).unwrap();
    assert_eq!(mailbox.capacity(), 4);
    assert!(mailbox.is_empty());
}

#[test]
fn create_empties_a_region_and_keeps_the_rest() {
    let mut region = vec![7u8; 16];
    {
        let mailbox = Mailbox::create(&mut region).unwrap();
        assert_eq!(mailbox.capacity(), 16);
        assert!(mailbox.is_empty());
        assert_eq!(mailbox.try_read(), None);
    }
    assert_eq!(&region[..4], &[0, 0, 0, 0]);
    assert_eq!(&region[4..], &[7u8; 12]);
}

#[test]
fn open_keeps_what_is_pending() {
    let mut region = vec![0u8; 16];
    region[0] = 3;
    region[4] = b'a';
    region[5] = b'b';
    region[6] = b'c';
    let mailbox = Mailbox::open(&mut region).unwrap();
    assert_eq!(mailbox.try_read(), Some(b"abc".to_vec()));
}

#[test]
fn open_refuses_a_length_beyond_the_region() {
    let mut region = vec![0u8; 16];
    region[0] = 13;
    assert_eq!(Mailbox::open(&mut region).err(), Some(ChannelUnavailable));
    region[0] = 12;
    assert!(Mailbox::open(&mut region).is_ok());
    region[0] = 0;
    region[3] = 1;
    assert_eq!(Mailbox::open(&mut region).err(), Some(ChannelUnavailable));
}

#[test]
fn open_refuses_a_region_without_room_for_the_length() {
    let mut region = vec![0u8; 2];
    assert_eq!(Mailbox::open(&mut region).err(), Some(ChannelUnavailable));
}

#[test]
fn write_then_try_read_returns_the_payload() {
    let mut region = vec![0u8; 4096];
    let mut mailbox = Mailbox::create(&mut region).unwrap();
    assert_eq!(mailbox.write(b"hello"), Ok(()));
    assert_eq!(mailbox.try_read(), Some(b"hello".to_vec()));
    assert!(!mailbox.is_empty());
}

#[test]
fn write_stores_the_length_in_little_endian_order() {
    let mut region = vec![0xaau8; 1024];
    let payload: Vec<u8> = (0..0x0102u32).map(|i| (i % 251) as u8).collect();
    {
        let mut mailbox = Mailbox::create(&mut region).unwrap();
        assert_eq!(mailbox.write(&payload), Ok(()));
        assert_eq!(mailbox.try_read(), Some(payload.clone()));
    }
    assert_eq!(&region[..4], &[0x02, 0x01, 0x00, 0x00]);
    assert_eq!(&region[4..4 + 0x0102], &payload[..]);
    assert!(region[4 + 0x0102..].iter().all(|b| *b == 0xaa));
}

#[test]
fn write_stores_a_length_of_three_bytes() {
    let mut region = vec![0u8; 4 + 0x012345];
    let payload = vec![9u8; 0x012345];
    {
        let mut mailbox = Mailbox::create(&mut region).unwrap();
        assert_eq!(mailbox.write(&payload), Ok(()));
        assert_eq!(mailbox.try_read().map(|p| p.len()), Some(0x012345));
    }
    assert_eq!(&region[..4], &[0x45, 0x23, 0x01, 0x00]);
}

#[test]
fn write_accepts_a_payload_that_fills_the_region() {
    let mut region = vec![0u8; 12];
    let mut mailbox = Mailbox::create(&mut region).unwrap();
    assert_eq!(mailbox.write(b"12345678"), Ok(()));
    assert_eq!(mailbox.try_read(), Some(b"12345678".to_vec()));
}

#[test]
fn write_refuses_a_payload_too_large_and_leaves_the_slot() {
    let mut region = vec![0u8; 12];
    {
        let mut mailbox = Mailbox::create(&mut region).unwrap();
        assert_eq!(mailbox.write(b"first"), Ok(()));
        assert_eq!(mailbox.write(b"123456789"), Err(PayloadTooLarge));
        assert_eq!(mailbox.try_read(), Some(b"first".to_vec()));
    }
    assert_eq!(region, vec![5, 0, 0, 0, b'f', b'i', b'r', b's', b't', 0, 0, 0]);
}

#[test]
fn write_refuses_any_payload_where_only_the_length_fits() {
    let mut region = vec![0u8; 4];
    let mut mailbox = Mailbox::create(&mut region).unwrap();
    assert_eq!(mailbox.write(b"x"), Err(PayloadTooLarge));
    assert_eq!(mailbox.write(b""), Ok(()));
    assert!(mailbox.is_empty());
}

#[test]
fn an_empty_payload_reads_as_no_message() {
    let mut region = vec![0u8; 32];
    let mut mailbox = Mailbox::create(&mut region).unwrap();
    assert_eq!(mailbox.write(b"something"), Ok(()));
    assert_eq!(mailbox.write(b""), Ok(()));
    assert_eq!(mailbox.try_read(), None);
    assert!(mailbox.is_empty());
}

#[test]
fn try_read_does_not_clear() {
    let mut region = vec![0u8; 32];
    let mut mailbox = Mailbox::create(&mut region).unwrap();
    assert_eq!(mailbox.write(b"again"), Ok(()));
    assert_eq!(mailbox.try_read(), Some(b"again".to_vec()));
    assert_eq!(mailbox.try_read(), Some(b"again".to_vec()));
}

#[test]
fn clear_then_try_read_is_empty() {
    let mut region = vec![0u8; 32];
    {
        let mut mailbox = Mailbox::create(&mut region).unwrap();
        assert_eq!(mailbox.write(b"gone"), Ok(()));
        mailbox.clear();
        assert_eq!(mailbox.try_read(), None);
        assert!(mailbox.is_empty());
    }
    assert_eq!(&region[..8], &[0, 0, 0, 0, b'g', b'o', b'n', b'e']);
}

#[test]
fn clear_twice_is_clear_once() {
    let mut once = vec![0u8; 32];
    let mut twice = vec![0u8; 32];
    {
        let mut mailbox = Mailbox::create(&mut once).unwrap();
        assert_eq!(mailbox.write(b"payload"), Ok(()));
        mailbox.clear();
    }
    {
        let mut mailbox = Mailbox::create(&mut twice).unwrap();
        assert_eq!(mailbox.write(b"payload"), Ok(()));
        mailbox.clear();
        mailbox.clear();
        assert_eq!(mailbox.try_read(), None);
    }
    assert_eq!(once, twice);
}

#[test]
fn clear_of_an_empty_slot_changes_nothing() {
    let mut region = vec![0u8; 8];
    {
        let mut mailbox = Mailbox::create(&mut region).unwrap();
        mailbox.clear();
        assert!(mailbox.is_empty());
    }
    assert_eq!(region, vec![0u8; 8]);
}

#[test]
fn a_second_write_destroys_the_first() {
    let mut region = vec![0u8; 64];
    {
        let mut mailbox = Mailbox::create(&mut region).unwrap();
        assert_eq!(mailbox.write(b"the first message"), Ok(()));
        assert_eq!(mailbox.write(b"second"), Ok(()));
        assert_eq!(mailbox.try_read(), Some(b"second".to_vec()));
        mailbox.clear();
        assert_eq!(mailbox.try_read(), None);
    }
    assert_eq!(&region[4..21], b"secondrst message");
}

#[test]
fn a_region_has_the_size_of_a_mailbox_from_four_bytes_on() {
    assert!(!has_mailbox_size(&[]));
    assert!(!has_mailbox_size(&[0u8; 3]));
    assert!(has_mailbox_size(&[0u8; 4]));
    assert!(has_mailbox_size(&[0xffu8; 4096]));
}

#[test]
fn a_slot_is_valid_while_its_message_lies_inside_the_region() {
    assert!(!holds_valid_slot(&[0u8; 3]));
    assert!(holds_valid_slot(&[0u8; 4]));
    assert!(!holds_valid_slot(&[1, 0, 0, 0]));
    assert!(holds_valid_slot(&[1, 0, 0, 0, 9]));
    assert!(holds_valid_slot(&[4, 0, 0, 0, 9, 9, 9, 9]));
    assert!(!holds_valid_slot(&[5, 0, 0, 0, 9, 9, 9, 9]));
    assert!(!holds_valid_slot(&[0, 1, 0, 0, 9, 9, 9, 9]));
    assert!(!holds_valid_slot(&[0, 0, 1, 0, 9, 9, 9, 9]));
    assert!(!holds_valid_slot(&[0, 0, 0, 1, 9, 9, 9, 9]));
    assert!(!holds_valid_slot(&[0xff; 4096]));
    let mut region = vec![0u8; 4 + 0x0100];
    region[1] = 1;
    assert!(holds_valid_slot(&region));
    region[0] = 1;
    assert!(!holds_valid_slot(&region));
}

#[test]
fn a_mailbox_of_the_reference_capacity_takes_4092_bytes() {
    let mut region = vec![0u8; REFERENCE_CAPACITY];
    let mut mailbox = Mailbox::create(&mut region).unwrap();
    assert_eq!(mailbox.capacity(), 4096);
    assert_eq!(mailbox.write(&vec![1u8; 4093]), Err(PayloadTooLarge));
    assert!(mailbox.is_empty());
    assert_eq!(mailbox.write(&vec![1u8; 4092]), Ok(()));
    assert_eq!(mailbox.try_read(), Some(vec![1u8; 4092]));
}
