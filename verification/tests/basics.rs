use fdfu::eefc::compose;
use fdfu::eefc::FlashCommand;
use fdfu::eefc::EEFC_FCR;
use fdfu::eefc::FCMD_CLEAR_LOCK;
use fdfu::eefc::FCMD_ERASE_PAGE;
use fdfu::eefc::FCMD_SET_LOCK;
use fdfu::eefc::FCMD_WRITE_PAGE;
use fdfu::eefc::FKEY;
use fdfu::error::UpdateError;
use fdfu::hex::parse_hex;
use fdfu::hex::push_hex;
use fdfu::image::FirmwareImage;
use fdfu::image::FlashGeometry;

#[test]
fn it_works() {
}

#[test]
fn hex_fields_are_padded_and_cased() {
    let mut out: Vec<u8> = Vec::new();
    push_hex(&mut out, 0xABC, 8, false);
    assert_eq!(out, b"00000abc".to_vec());
    let mut out: Vec<u8> = vec![b'x'];
    push_hex(&mut out, 0xABC, 8, true);
    assert_eq!(out, b"x00000ABC".to_vec());
    let mut out: Vec<u8> = Vec::new();
    push_hex(&mut out, 0x0F, 2, false);
    assert_eq!(out, b"0f".to_vec());
    let mut out: Vec<u8> = Vec::new();
    push_hex(&mut out, 0x1234, 2, false);
    assert_eq!(out, b"34".to_vec());
    let mut out: Vec<u8> = Vec::new();
    push_hex(&mut out, 0xFFFF_FFFF, 8, true);
    assert_eq!(out, b"FFFFFFFF".to_vec());
    let mut out: Vec<u8> = Vec::new();
    push_hex(&mut out, 7, 0, true);
    assert!(out.is_empty());
}

#[test]
fn hex_fields_are_read_in_one_case_only() {
    assert_eq!(parse_hex(b"00000abc", false), Some(0xABC));
    assert_eq!(parse_hex(b"00000ABC", true), Some(0xABC));
    assert_eq!(parse_hex(b"00000ABC", false), None);
    assert_eq!(parse_hex(b"00000abc", true), None);
    assert_eq!(parse_hex(b"ffffffff", false), Some(0xFFFF_FFFF));
    assert_eq!(parse_hex(b"", false), Some(0));
    assert_eq!(parse_hex(b"5g", false), None);
    assert_eq!(parse_hex(b" 1", false), None);
}

#[test]
fn flash_words_match_the_table() {
    let table: [(FlashCommand, u8, u16, u32); 7] = [
        (FlashCommand::ErasePage(0), FCMD_ERASE_PAGE, 0, 0x5A00_0007),
        (FlashCommand::ErasePage(0x10), FCMD_ERASE_PAGE, 0x10, 0x5A00_1007),
        (FlashCommand::ErasePage(0xFFFF), FCMD_ERASE_PAGE, 0xFFFF, 0x5AFF_FF07),
        (FlashCommand::WritePage(0), FCMD_WRITE_PAGE, 0, 0x5A00_0001),
        (FlashCommand::WritePage(1), FCMD_WRITE_PAGE, 1, 0x5A00_0101),
        (FlashCommand::SetLock(0x1234), FCMD_SET_LOCK, 0x1234, 0x5A12_3408),
        (FlashCommand::ClearLock(0x00FF), FCMD_CLEAR_LOCK, 0x00FF, 0x5A00_FF09),
    ];
    for (command, opcode, page, expected) in table {
        assert_eq!(command.opcode(), opcode);
        assert_eq!(command.page(), page);
        assert_eq!(command.word(), expected);
        assert_eq!(compose(opcode, page as u32), expected);
        assert_eq!((expected >> 24) as u8, FKEY);
        assert_eq!((expected & 0xFF) as u8, opcode);
        assert_eq!(((expected >> 8) & 0xFFFF) as u16, page);
    }
}

#[test]
fn flash_word_cuts_a_wide_argument() {
    assert_eq!(compose(0x07, 0x1234_5678), 0x5A56_7807);
    assert_eq!(compose(0x01, 0x0001_0000), 0x5A00_0001);
    assert_eq!(compose(0xFF, 0), 0x5A00_00FF);
    assert_eq!(EEFC_FCR, 0x400E_0A04);
}

#[test]
fn image_that_fits_is_taken() {
    let geometry = FlashGeometry { page_size: 128, page_count: 4 };
    assert_eq!(geometry.capacity(), 512);
    let bytes: Vec<u8> = (0..300u32).map(|i| (i % 256) as u8).collect();
    let image = FirmwareImage::new(bytes.clone(), 0x2000_1000, geometry).unwrap();
    assert_eq!(image.bytes(), &bytes[..]);
    assert_eq!(image.size(), 300);
    assert_eq!(image.load_address(), 0x2000_1000);
    assert_eq!(image.geometry(), geometry);
    assert_eq!(image.pages(), 3);
    let full = FirmwareImage::new(vec![0u8; 512], 0, geometry).unwrap();
    assert_eq!(full.pages(), 4);
    let empty = FirmwareImage::new(Vec::new(), 0, geometry).unwrap();
    assert_eq!(empty.pages(), 0);
    assert_eq!(empty.size(), 0);
}

#[test]
fn image_that_is_too_large_is_refused() {
    let geometry = FlashGeometry { page_size: 128, page_count: 4 };
    let result = FirmwareImage::new(vec![0u8; 513], 0, geometry);
    assert_eq!(result.err(), Some(UpdateError::ImageTooLarge));
    let none = FlashGeometry { page_size: 0, page_count: 4 };
    assert_eq!(none.capacity(), 0);
    assert_eq!(FirmwareImage::new(vec![1u8], 0, none).err(), Some(UpdateError::ImageTooLarge));
    assert!(FirmwareImage::new(Vec::new(), 0, none).is_ok());
}

#[test]
fn capacity_ends_where_lengths_end() {
    let huge = FlashGeometry { page_size: 0xFFFF_FFFF, page_count: 0xFFFF };
    assert_eq!(huge.capacity(), 0xFFFF_FFFF);
    let sam4s = FlashGeometry { page_size: 512, page_count: 2048 };
    assert_eq!(sam4s.capacity(), 1_048_576);
}
