use squishy::elf::{get_offset, is_static_appimage, section_table_extent, trailing_data_offset, ElfLayout};
use squishy::error::SquishyError;

fn put_u16(b: &mut [u8], at: usize, v: u16) {
    b[at..at + 2].copy_from_slice(&v.to_le_bytes());
}

fn put_u32(b: &mut [u8], at: usize, v: u32) {
    b[at..at + 4].copy_from_slice(&v.to_le_bytes());
}

fn put_u64(b: &mut [u8], at: usize, v: u64) {
    b[at..at + 8].copy_from_slice(&v.to_le_bytes());
}

/// A 64-bit little-endian ELF executable whose section header table lies at
/// `shoff`; `sections` are the (offset, size) of each section after the null
/// one. The bytes run through the end of the table.
fn synthetic_elf(shoff: u64, sections: &[(u64, u64)]) -> Vec<u8> {
    let shnum = sections.len() as u16 + 1;
    let end = shoff as usize + shnum as usize * 64;
    let mut b = vec![0u8; end];
    b[0..4].copy_from_slice(&[0x7f, b'E', b'L', b'F']);
    b[4] = 2;
    b[5] = 1;
    b[6] = 1;
    put_u16(&mut b, 16, 2);
    put_u16(&mut b, 18, 0x3e);
    put_u32(&mut b, 20, 1);
    put_u64(&mut b, 40, shoff);
    put_u16(&mut b, 52, 64);
    put_u16(&mut b, 54, 56);
    put_u16(&mut b, 58, 64);
    put_u16(&mut b, 60, shnum);
    for (k, (off, size)) in sections.iter().enumerate() {
        let at = shoff as usize + (k + 1) * 64;
        put_u32(&mut b, at + 4, 1);
        put_u64(&mut b, at + 24, *off);
        put_u64(&mut b, at + 32, *size);
    }
    b
}

#[test]
fn offset_when_section_table_ends_last() {
    let elf = synthetic_elf(0x200, &[(0x40, 0x100), (0x140, 0x80)]);
    let extent = section_table_extent(&elf[..64]).unwrap();
    assert_eq!(extent, 0x200 + 3 * 64);
    assert_eq!(get_offset(&elf[..extent as usize]).unwrap(), 0x2c0);
}

#[test]
fn offset_when_last_section_ends_last() {
    let elf = synthetic_elf(0x40, &[(0xc0, 0x400)]);
    let extent = section_table_extent(&elf[..64]).unwrap();
    assert_eq!(extent, 0xc0);
    assert_eq!(get_offset(&elf[..extent as usize]).unwrap(), 0x4c0);
}

#[test]
fn offset_rejects_bytes_that_are_not_elf() {
    let data = vec![0u8; 256];
    assert!(matches!(get_offset(&data), Err(SquishyError::Io(_))));
}

#[test]
fn extent_rejects_truncated_header() {
    let elf = synthetic_elf(0x40, &[]);
    assert!(matches!(section_table_extent(&elf[..63]), Err(SquishyError::Io(_))));
}

#[test]
fn extent_rejects_overflow() {
    let mut head = vec![0u8; 64];
    put_u64(&mut head, 40, u64::MAX - 10);
    put_u16(&mut head, 60, 1);
    assert!(matches!(section_table_extent(&head), Err(SquishyError::Io(_))));
    put_u16(&mut head, 60, 0);
    assert_eq!(section_table_extent(&head).unwrap(), u64::MAX - 10);
}

#[test]
fn trailing_offset_takes_the_larger_end() {
    let table_last = ElfLayout { shoff: 1000, shentsize: 64, shnum: 4, last_section: Some((100, 50)) };
    assert_eq!(trailing_data_offset(&table_last).unwrap(), 1256);
    let payload_last = ElfLayout { shoff: 1000, shentsize: 64, shnum: 4, last_section: Some((900, 500)) };
    assert_eq!(trailing_data_offset(&payload_last).unwrap(), 1400);
    let no_sections = ElfLayout { shoff: 0, shentsize: 64, shnum: 0, last_section: None };
    assert_eq!(trailing_data_offset(&no_sections).unwrap(), 0);
}

#[test]
fn trailing_offset_rejects_overflow() {
    let table = ElfLayout { shoff: u64::MAX, shentsize: 64, shnum: 1, last_section: None };
    assert!(matches!(trailing_data_offset(&table), Err(SquishyError::Io(_))));
    let section = ElfLayout { shoff: 64, shentsize: 64, shnum: 1, last_section: Some((u64::MAX, 1)) };
    assert!(matches!(trailing_data_offset(&section), Err(SquishyError::Io(_))));
}

#[test]
fn static_appimage_magic() {
    let mut head = vec![0u8; 32];
    assert!(!is_static_appimage(&head));
    head[24..28].copy_from_slice(&[89, 171, 65, 0]);
    assert!(is_static_appimage(&head));
    assert!(!is_static_appimage(&head[..27]));
}

#[test]
fn offset_rejects_32_bit_class() {
    let mut elf = synthetic_elf(0x40, &[(0xc0, 0x400)]);
    elf[4] = 1;
    assert!(matches!(get_offset(&elf), Err(SquishyError::Io(_))));
    let mut elf = synthetic_elf(0x40, &[(0xc0, 0x400)]);
    elf[1] = b'X';
    assert!(matches!(get_offset(&elf), Err(SquishyError::Io(_))));
    assert!(matches!(get_offset(&elf[..10]), Err(SquishyError::Io(_))));
}
