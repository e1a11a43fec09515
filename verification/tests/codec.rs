use yapu::checksum;
use yapu::checksum::Buffer;
use yapu::protocol::be_bytes;
use yapu::protocol::Error as ConversionError;
use yapu::slice::put_be16;
use yapu::Address;
use yapu::Bootloader;
use yapu::Command;
use yapu::Data;
use yapu::Encode;
use yapu::Erase;
use yapu::Error;
use yapu::ExtendedErase;
use yapu::ExtendedPageNos;
use yapu::FrameError;
use yapu::Id;
use yapu::IoError;
use yapu::IoErrorKind;
use yapu::Opcode;
use yapu::PageNos;
use yapu::Reply;
use yapu::ReplySet;
use yapu::SectorNos;
use yapu::SerialError;
use yapu::SerialErrorKind;
use yapu::Size;
use yapu::SliceItem;
use yapu::Version;

#[test]
fn check_byte_of_one_byte_flips_every_bit() {
    for byte in 0..=255u8 {
        assert_eq!(checksum::single(byte), byte ^ 0xff);
        assert_eq!(checksum::single(byte), !byte);
    }
    assert_eq!(checksum::single(0x00), 0xff);
    assert_eq!(checksum::single(0x7f), 0x80);
}

#[test]
fn check_byte_of_a_run_is_the_exclusive_or() {
    assert_eq!(checksum::iter(&[]), 0);
    assert_eq!(checksum::iter(&[0x5a]), 0x5a);
    assert_eq!(checksum::iter(&[0x08, 0x00, 0x01, 0x00]), 0x09);
    assert_eq!(checksum::iter(&[0xff, 0xff]), 0x00);
    assert_eq!(checksum::iter(&[1, 2, 4, 8, 16]), 31);
}

#[test]
fn buffer_accumulates() {
    let mut buffer = Buffer::new();
    assert_eq!(buffer.state(), 0);
    assert_eq!(buffer.write(&[0x0f, 0xf0]), 2);
    assert_eq!(buffer.state(), 0xff);
    assert_eq!(buffer.write(&[0x01]), 1);
    assert_eq!(buffer.state(), 0xfe);
    assert_eq!(buffer.write(&[]), 0);
    assert_eq!(buffer.state(), checksum::iter(&[0x0f, 0xf0, 0x01]));
    assert_eq!(Buffer::default().state(), 0);
}

#[test]
fn opcode_is_followed_by_its_complement() {
    for byte in 0..=255u8 {
        let opcode = Opcode::from(byte);
        assert_eq!(opcode.as_u8(), byte);
        assert_eq!(opcode.encode(), vec![byte, byte ^ 0xff]);
    }
    assert_eq!(Opcode::GET().encode(), vec![0x00, 0xff]);
    assert_eq!(Opcode::READ().encode(), vec![0x11, 0xee]);
    assert_eq!(Opcode::EXTENDED_ERASE().encode(), vec![0x44, 0xbb]);
}

#[test]
fn opcodes_have_these_bytes_and_names() {
    let table = [
        (Opcode::GET(), 0x00, "GET"),
        (Opcode::GET_VERSION(), 0x01, "GET_VERSION"),
        (Opcode::GET_ID(), 0x02, "GET_ID"),
        (Opcode::READ(), 0x11, "READ"),
        (Opcode::GO(), 0x21, "GO"),
        (Opcode::WRITE(), 0x31, "WRITE"),
        (Opcode::ERASE(), 0x43, "ERASE"),
        (Opcode::EXTENDED_ERASE(), 0x44, "EXTENDED_ERASE"),
        (Opcode::WRITE_PROTECT(), 0x63, "WRITE_PROTECT"),
        (Opcode::WRITE_UNPROTECT(), 0x73, "WRITE_UNPROTECT"),
        (Opcode::READ_PROTECT(), 0x82, "READ_PROTECT"),
        (Opcode::READ_UNPROTECT(), 0x92, "READ_UNPROTECT"),
        (Opcode::GET_CHECKSUM(), 0xa1, "GET_CHECKSUM"),
        (Opcode::SPECIAL(), 0x50, "SPECIAL"),
        (Opcode::EXTENDED_SPECIAL(), 0x51, "EXTENDED_SPECIAL"),
    ];
    for (opcode, byte, name) in table {
        assert_eq!(opcode.as_u8(), byte);
        assert_eq!(opcode.name(), Some(name));
        assert_eq!(opcode.to_string(), name);
    }
    assert_eq!(Opcode::from(0xab).name(), None);
    assert_eq!(Opcode::from(0xab).to_string(), "UNKNOWN (ab)");
    assert_eq!(Opcode::from(0x05).to_string(), "UNKNOWN (05)");
    assert_eq!(Opcode::from(0xff).to_string(), "UNKNOWN (ff)");
}

#[test]
fn address_is_big_endian_with_the_exclusive_or_behind() {
    assert_eq!(Address::from(0x0800_0000).encode(), vec![0x08, 0x00, 0x00, 0x00, 0x08]);
    assert_eq!(Address::from(0x1234_5678).encode(), vec![0x12, 0x34, 0x56, 0x78, 0x08]);
    assert_eq!(Address::from(0).encode(), vec![0, 0, 0, 0, 0]);
    assert_eq!(Address::from(0xffff_ffff).encode(), vec![0xff, 0xff, 0xff, 0xff, 0x00]);
    for value in [0u32, 1, 0x0102_0304, 0xdead_beef, 0x8000_0001, u32::MAX] {
        let bytes = Address::from(value).encode();
        assert_eq!(bytes[..4], value.to_be_bytes());
        assert_eq!(bytes[4], bytes[0] ^ bytes[1] ^ bytes[2] ^ bytes[3]);
        assert_eq!(be_bytes(value), value.to_be_bytes());
        assert_eq!(Address::from(value).as_u32(), value);
        assert_eq!(u32::from(Address::from(value)), value);
    }
}

#[test]
fn size_holds_the_count_less_one() {
    for count in 1..=256usize {
        let size = Size::try_from(count).expect("the count fits");
        assert_eq!(size.count(), count);
        assert_eq!(usize::from(size), count);
        assert_eq!(u8::from(size) as usize, count - 1);
        let stored = (count - 1) as u8;
        assert_eq!(size.encode(), vec![stored, stored ^ 0xff]);
    }
    assert_eq!(Size::try_from(1usize).unwrap().encode(), vec![0x00, 0xff]);
    assert_eq!(Size::try_from(256usize).unwrap().encode(), vec![0xff, 0x00]);
}

#[test]
fn size_outside_the_range_is_refused() {
    for count in [0usize, 257, 258, 512, 65_536, usize::MAX] {
        let refused = Size::try_from(count).expect_err("the count does not fit");
        assert_eq!(refused, ConversionError::Exceeded(count, 1..=256));
    }
    let converted: Result<Size, _> = 0usize.try_into();
    assert!(converted.is_err());
}

#[test]
fn slice_of_a_length_in_the_range_is_made() {
    assert_eq!(yapu::Byte::size_range(), 1..=256);
    assert_eq!(yapu::Page::size_range(), 1..=256);
    assert_eq!(yapu::Sector::size_range(), 1..=256);
    assert_eq!(yapu::ExtendedPage::size_range(), 1..=0xff00);
    for len in [1usize, 2, 255, 256] {
        let data = Data::try_from(vec![0u8; len]).expect("the length fits");
        assert_eq!(data.len(), len);
        assert_eq!(data.encode()[0] as usize, len - 1);
        assert_eq!(data.encode().len(), len + 2);
        assert!(PageNos::new(vec![0u8; len]).is_ok());
        assert!(SectorNos::new(vec![0u8; len]).is_ok());
    }
    for len in [1usize, 256, 257, 0xff00] {
        let pages = ExtendedPageNos::try_from(vec![0u16; len]).expect("the length fits");
        let bytes = pages.encode();
        assert_eq!(bytes.len(), 2 + 2 * len + 1);
        assert_eq!(u16::from_be_bytes([bytes[0], bytes[1]]) as usize, len - 1);
    }
}

#[test]
fn slice_of_a_length_outside_the_range_is_refused() {
    for len in [0usize, 257, 300] {
        let refused = Data::try_from(vec![0u8; len]).expect_err("the length does not fit");
        assert_eq!(refused, ConversionError::Exceeded(len, 1..=256));
        assert!(PageNos::new(vec![0u8; len]).is_err());
        assert!(SectorNos::try_from(&vec![0u8; len][..]).is_err());
    }
    for len in [0usize, 0xff01, 0x1_0000] {
        let refused = ExtendedPageNos::new(vec![0u16; len]).expect_err("does not fit");
        assert_eq!(refused, ConversionError::Exceeded(len, 1..=0xff00));
    }
}

#[test]
fn slice_is_length_items_and_check_byte() {
    let data = Data::try_from(vec![0x01u8, 0x02, 0x04]).unwrap();
    assert_eq!(data.encode(), vec![0x02, 0x01, 0x02, 0x04, 0x07]);
    assert_eq!(data.as_slice(), &[1, 2, 4]);
    assert_eq!(data.clone().into_inner(), vec![1, 2, 4]);

    let borrowed: &[u8] = &[0xaa];
    let data = Data::try_from(borrowed).unwrap();
    assert_eq!(data.encode(), vec![0x00, 0xaa, 0xaa]);

    let pages = ExtendedPageNos::try_from(vec![0x0102u16, 0x0304]).unwrap();
    assert_eq!(pages.encode(), vec![0x00, 0x01, 0x01, 0x02, 0x03, 0x04, 0x04]);
    assert_eq!(pages.as_slice(), &[0x0102, 0x0304]);

    let sectors = SectorNos::new(vec![3, 3]).unwrap();
    assert_eq!(sectors.encode(), vec![0x01, 0x03, 0x03, 0x00]);

    let mut out = vec![0x99];
    put_be16(0xbeef, &mut out);
    assert_eq!(out, vec![0x99, 0xbe, 0xef]);
}

#[test]
fn erase_has_two_forms() {
    assert_eq!(Erase::Global.encode(), vec![0xff, 0x00]);
    let pages = PageNos::new(vec![0, 1, 7]).unwrap();
    let erase = Erase::Specific(pages);
    assert_eq!(erase.encode(), vec![0x02, 0x00, 0x01, 0x07, 0x06]);
    assert_eq!(erase.pages(), Some(&[0u8, 1, 7][..]));
    assert_eq!(Erase::Global.pages(), None);
    assert!(Erase::Global.is_global());
    assert!(!Erase::Global.is_specific());
    assert!(erase.clone().is_specific());
    assert!(!erase.is_global());
}

#[test]
fn extended_erase_has_four_forms() {
    assert_eq!(ExtendedErase::Global.encode(), vec![0xff, 0xff, 0x00]);
    assert_eq!(ExtendedErase::Bank1.encode(), vec![0xff, 0xfe, 0x01]);
    assert_eq!(ExtendedErase::Bank2.encode(), vec![0xff, 0xfd, 0x02]);
    let pages = ExtendedPageNos::new(vec![0x0100]).unwrap();
    let erase = ExtendedErase::Specific(pages);
    assert_eq!(erase.encode(), vec![0x00, 0x00, 0x01, 0x00, 0x01]);
    assert_eq!(erase.pages(), Some(&[0x0100u16][..]));
    assert_eq!(ExtendedErase::Global.pages(), None);
    assert_eq!(ExtendedErase::Bank1.pages(), None);
    assert_eq!(ExtendedErase::Bank2.pages(), None);
    assert!(ExtendedErase::Global.is_global());
    assert!(ExtendedErase::Bank1.is_bank1());
    assert!(ExtendedErase::Bank2.is_bank2());
    assert!(erase.clone().is_specific());
    assert!(!erase.clone().is_global());
    assert!(!erase.clone().is_bank1());
    assert!(!erase.is_bank2());
    assert!(!ExtendedErase::Global.is_specific());
}

#[test]
fn commands_have_these_encodings() {
    assert_eq!(Command::Synchronize.encode(), vec![0x7f]);
    assert_eq!(Command::Get().encode(), vec![0x00, 0xff]);
    assert_eq!(Command::Version().encode(), vec![0x01, 0xfe]);
    assert_eq!(Command::Id().encode(), vec![0x02, 0xfd]);
    assert_eq!(Command::WriteProtect().encode(), vec![0x63, 0x9c]);
    assert_eq!(Command::WriteUnprotect().encode(), vec![0x73, 0x8c]);
    assert_eq!(Command::ReadProtect().encode(), vec![0x82, 0x7d]);
    assert_eq!(Command::ReadUnprotect().encode(), vec![0x92, 0x6d]);
    assert_eq!(
        Command::Go(Address::from(0x0800_0000)).encode(),
        vec![0x21, 0xde, 0x08, 0x00, 0x00, 0x00, 0x08]
    );
    let read = Command::Read { address: 0x0800_0000.into(), size: 16usize.try_into().unwrap() };
    assert_eq!(read.encode(), vec![0x11, 0xee, 0x08, 0x00, 0x00, 0x00, 0x08, 0x0f, 0xf0]);
    assert_eq!(Command::Erase(Erase::Global).encode(), vec![0x43, 0xbc, 0xff, 0x00]);
    assert_eq!(
        Command::ExtendedErase(ExtendedErase::Bank1).encode(),
        vec![0x44, 0xbb, 0xff, 0xfe, 0x01]
    );
    assert_eq!(Command::Synchronize.opcode(), None);
    assert_eq!(read.opcode(), Some(Opcode::READ()));
    assert_eq!(read.fields().len(), 2);
    assert!(Command::Get().fields().is_empty());
}

#[test]
fn commands_go_out_in_these_pieces() {
    assert_eq!(Command::Synchronize.exchanges(), vec![vec![0x7f]]);
    assert_eq!(Command::Get().exchanges(), vec![vec![0x00, 0xff]]);
    assert_eq!(
        Command::Go(Address::from(1)).exchanges(),
        vec![vec![0x21, 0xde, 0x00, 0x00, 0x00, 0x01, 0x01]]
    );
    let read = Command::Read { address: 0x0800_0000.into(), size: 256usize.try_into().unwrap() };
    assert_eq!(
        read.exchanges(),
        vec![vec![0x11, 0xee], vec![0x08, 0x00, 0x00, 0x00, 0x08], vec![0xff, 0x00]]
    );
    assert_eq!(
        Command::Erase(Erase::Global).exchanges(),
        vec![vec![0x43, 0xbc], vec![0xff, 0x00]]
    );
    assert_eq!(
        Command::ExtendedErase(ExtendedErase::Global).exchanges(),
        vec![vec![0x44, 0xbb], vec![0xff, 0xff, 0x00]]
    );
}

#[test]
fn reply_is_one_of_two_bytes() {
    for byte in 0..=255u8 {
        let reply = Reply::decode(byte);
        match byte {
            0x79 => assert_eq!(reply, Ok(Reply::Ack)),
            0x1f => assert_eq!(reply, Ok(Reply::NAck)),
            _ => assert_eq!(reply, Err(FrameError::BadReply(byte))),
        }
        assert_eq!(Reply::decode_in(ReplySet::AckNAck, byte), reply);
        let wider = Reply::decode_in(ReplySet::AckNAckBusy, byte);
        if byte == 0xaa {
            assert_eq!(wider, Ok(Reply::Busy));
        } else {
            assert_eq!(wider, reply);
        }
    }
    assert!(Reply::Ack.is_ack());
    assert!(!Reply::NAck.is_ack());
    assert_eq!(Reply::Ack.encode(), vec![0x79]);
    assert_eq!(Reply::NAck.encode(), vec![0x1f]);
    assert_eq!(Reply::Busy.encode(), vec![0xaa]);
    assert_eq!(ReplySet::default(), ReplySet::AckNAck);
}

#[test]
fn bootloader_is_decoded() {
    let bootloader = Bootloader::decode(&[0x02, 0x31, 0x00, 0x01]).unwrap();
    assert_eq!(bootloader.version(), 0x31);
    assert_eq!(bootloader.version_string(), "3.1");
    assert_eq!(bootloader.opcodes(), &[Opcode::GET(), Opcode::GET_VERSION()]);

    let bare = Bootloader::decode(&[0x00, 0xff]).unwrap();
    assert_eq!(bare.version_string(), "15.15");
    assert!(bare.opcodes().is_empty());
    assert!(!bare.supports(Opcode::GET()));

    let mut full = vec![0xff, 0x10];
    full.extend(0..=254u8);
    let bootloader = Bootloader::decode(&full).unwrap();
    assert_eq!(bootloader.opcodes().len(), 255);
    assert!(bootloader.supports(Opcode::from(254)));
    assert!(!bootloader.supports(Opcode::from(255)));
    assert_eq!(bootloader.version_string(), "1.0");
    assert_eq!(bootloader.clone().opcodes(), bootloader.opcodes());
}

#[test]
fn bootloader_of_the_wrong_length_is_refused() {
    let refused = |bytes: &[u8]| Bootloader::decode(bytes).expect_err("malformed");
    assert_eq!(refused(&[]), FrameError::Length { expected: 2, found: 0 });
    assert_eq!(refused(&[0x00]), FrameError::Length { expected: 2, found: 1 });
    assert_eq!(refused(&[0x02, 0x31, 0x00]), FrameError::Length { expected: 4, found: 3 });
    assert_eq!(
        refused(&[0x01, 0x31, 0x00, 0x01]),
        FrameError::Length { expected: 3, found: 4 }
    );
}

#[test]
fn version_is_three_bytes() {
    let version = Version::decode(&[0x22, 0xa5, 0x5a]).unwrap();
    assert_eq!(version.version(), 0x22);
    assert_eq!(version.major(), 2);
    assert_eq!(version.minor(), 2);
    assert_eq!(version.version_string(), "2.2");
    assert_eq!(version.to_string(), "2.2");
    assert_eq!(version.options(), [0xa5, 0x5a]);
    assert_eq!(
        Version::decode(&[0x22, 0xa5]).err(),
        Some(FrameError::Length { expected: 3, found: 2 })
    );
    assert_eq!(
        Version::decode(&[0; 4]).err(),
        Some(FrameError::Length { expected: 3, found: 4 })
    );
    assert_eq!(Version::decode(&[0xa9, 0, 0]).unwrap().version_string(), "10.9");
}

#[test]
fn id_holds_one_byte_more_than_its_length_field() {
    let id = Id::decode(&[0x01, 0x04, 0x10]).unwrap();
    assert_eq!(id.id(), &[0x04, 0x10]);
    assert_eq!(id.as_slice(), &[0x04, 0x10]);
    assert_eq!(id.as_array::<2>(), [0x04, 0x10]);
    assert_eq!(id.as_array::<4>(), [0x00, 0x00, 0x04, 0x10]);
    assert_eq!(id.as_u16(), 0x0410);
    assert_eq!(id.as_u32(), 0x0410);
    assert_eq!(id.as_u64(), 0x0410);
    assert_eq!(id.clone().into_id(), vec![0x04, 0x10]);

    let one = Id::decode(&[0x00, 0x42]).unwrap();
    assert_eq!(one.as_u16(), 0x42);

    let wide = Id::decode(&[0x07, 1, 2, 3, 4, 5, 6, 7, 8]).unwrap();
    assert_eq!(wide.as_u64(), 0x0102_0304_0506_0708);

    let mut longest = vec![0xff];
    longest.extend(std::iter::repeat(0x11).take(256));
    assert_eq!(Id::decode(&longest).unwrap().id().len(), 256);
}

#[test]
fn id_of_the_wrong_length_is_refused() {
    assert_eq!(Id::decode(&[]).err(), Some(FrameError::Length { expected: 2, found: 0 }));
    assert_eq!(Id::decode(&[0x00]).err(), Some(FrameError::Length { expected: 2, found: 1 }));
    assert_eq!(
        Id::decode(&[0x01, 0x04]).err(),
        Some(FrameError::Length { expected: 3, found: 2 })
    );
    assert_eq!(
        Id::decode(&[0x00, 0x04, 0x10]).err(),
        Some(FrameError::Length { expected: 2, found: 3 })
    );
}

#[test]
fn errors_are_told_in_words() {
    assert_eq!(Error::NAck.to_string(), "negative ack");
    assert_eq!(Error::Busy.to_string(), "device is busy");
    assert_eq!(Error::Unidentified.to_string(), "cannot identify device");
    let conversion = ConversionError::Exceeded(300, 1..=256);
    assert_eq!(conversion.to_string(), "300 is not within valid range of size (1..=256)");
    assert_eq!(
        Error::from(conversion).to_string(),
        "protocol conversion error: 300 is not within valid range of size (1..=256)"
    );
    let io = IoError { kind: IoErrorKind::Other, message: "broken pipe".to_string() };
    assert_eq!(Error::from(io).to_string(), "io error: broken pipe");
    let serial =
        SerialError { kind: SerialErrorKind::NoDevice, description: "no such port".to_string() };
    assert_eq!(Error::from(serial).to_string(), "serial error: no such port");
    assert_eq!(
        Error::from(FrameError::BadReply(0x0a)).to_string(),
        "frame error: no reply has the byte 0a"
    );
    assert_eq!(
        Error::from(FrameError::Length { expected: 3, found: 12 }).to_string(),
        "frame error: 3 bytes expected, 12 found"
    );
    assert_eq!(yapu::text::decimal(0), "0");
    assert_eq!(yapu::text::decimal(18_446_744_073_709), "18446744073709");
    assert_eq!(yapu::text::hex(0xc0), "c0");
}

#[test]
fn errors_are_told_apart() {
    let conversion = ConversionError::Exceeded(0, 1..=256);
    let io = IoError { kind: IoErrorKind::TimedOut, message: "late".to_string() };
    let serial = SerialError { kind: SerialErrorKind::Unknown, description: "?".to_string() };
    let frame = FrameError::BadReply(0);

    assert!(Error::NAck.is_nack());
    assert!(!Error::Busy.is_nack());
    assert!(Error::Busy.is_busy());
    assert!(Error::Unidentified.is_unidentified());
    assert!(!Error::NAck.is_unidentified());

    let error = Error::ProtocolConversion(conversion.clone());
    assert!(error.is_protocol_conversion());
    assert!(!error.is_io_error() && !error.is_serial_error() && !error.is_frame_error());
    assert_eq!(error.as_protocol_conversion(), Some(&conversion));
    assert_eq!(error.as_io_error(), None);
    assert_eq!(error.into_protocol_conversion(), Some(conversion));

    let error = Error::Io(io.clone());
    assert!(error.is_io_error());
    assert_eq!(error.as_io_error(), Some(&io));
    assert_eq!(error.as_serial_error(), None);
    assert_eq!(error.clone().into_serial_error(), None);
    assert_eq!(error.into_io_error(), Some(io));

    let error = Error::Serial(serial.clone());
    assert!(error.is_serial_error());
    assert_eq!(error.as_serial_error(), Some(&serial));
    assert_eq!(error.as_frame_error(), None);
    assert_eq!(error.clone().into_frame_error(), None);
    assert_eq!(error.into_serial_error(), Some(serial));

    let error = Error::Frame(frame);
    assert!(error.is_frame_error());
    assert_eq!(error.as_frame_error(), Some(&frame));
    assert_eq!(error.as_protocol_conversion(), None);
    assert_eq!(error.clone().into_protocol_conversion(), None);
    assert_eq!(error.clone().into_io_error(), None);
    assert_eq!(error.into_frame_error(), Some(frame));
}
