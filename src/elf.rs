use vstd::prelude::*;

use crate::error::SquishyError;

verus! {

/// Size of the ELF header of a 64-bit file.
pub const ELF64_HEADER_SIZE: usize = 64;

/// Size of one section header of a 64-bit file.
pub const ELF64_SECTION_HEADER_SIZE: u64 = 64;

/// The little-endian unsigned integer that the bytes `s` spell.
pub open spec fn le_value(s: Seq<u8>) -> nat
    decreases s.len(),
{
    if s.len() == 0 {
        0
    } else {
        s[0] as nat + 256 * le_value(s.drop_first())
    }
}

/// The `e_shoff` field of a 64-bit little-endian ELF header.
pub open spec fn header_shoff(h: Seq<u8>) -> nat {
    le_value(h.subrange(40, 48))
}

/// The `e_shnum` field of a 64-bit little-endian ELF header.
pub open spec fn header_shnum(h: Seq<u8>) -> nat {
    le_value(h.subrange(60, 62))
}

/// Where the section header table that a 64-bit header announces ends.
pub open spec fn header_extent(h: Seq<u8>) -> int {
    header_shoff(h) + header_shnum(h) * ELF64_SECTION_HEADER_SIZE
}

/// The leading bytes of every ELF file.
pub open spec fn elf_magic() -> Seq<u8> {
    seq![0x7fu8, 0x45u8, 0x4cu8, 0x46u8]
}

/// The bytes open with a whole ELF header of a 64-bit file: the magic and,
/// in byte 4, class 2.
pub open spec fn is_elf64_ident(data: Seq<u8>) -> bool {
    data.len() >= 64 && data.subrange(0, 4) == elf_magic() && data[4] == 2u8
}

/// The bytes that mark a statically linked AppImage runtime, at offset 24.
pub open spec fn static_magic() -> Seq<u8> {
    seq![89u8, 171u8, 65u8, 0u8]
}

fn read_le_u16(b: &[u8], i: usize) -> (r: u16)
    requires
        i + 2 <= b@.len(),
    ensures
        r as nat == le_value(b@.subrange(i as int, i + 2)),
{
    let s = Ghost(b@.subrange(i as int, i + 2));
    assert(s@.drop_first().drop_first() =~= Seq::<u8>::empty());
    assert(le_value(s@.drop_first()) == s@[1] as nat + 256 * le_value(s@.drop_first().drop_first()));
    b[i] as u16 + 256 * (b[i + 1] as u16)
}

fn read_le_u64(b: &[u8], i: usize) -> (r: u64)
    requires
        i + 8 <= b@.len(),
    ensures
        r as nat == le_value(b@.subrange(i as int, i + 8)),
{
    let s0 = Ghost(b@.subrange(i as int, i + 8));
    let s1 = Ghost(s0@.drop_first());
    let s2 = Ghost(s1@.drop_first());
    let s3 = Ghost(s2@.drop_first());
    let s4 = Ghost(s3@.drop_first());
    let s5 = Ghost(s4@.drop_first());
    let s6 = Ghost(s5@.drop_first());
    let s7 = Ghost(s6@.drop_first());
    assert(s7@.drop_first() =~= Seq::<u8>::empty());
    assert(le_value(s7@) == s7@[0] as nat + 256 * le_value(s7@.drop_first()));
    assert(le_value(s6@) == s6@[0] as nat + 256 * le_value(s7@));
    assert(le_value(s5@) == s5@[0] as nat + 256 * le_value(s6@));
    assert(le_value(s4@) == s4@[0] as nat + 256 * le_value(s5@));
    assert(le_value(s3@) == s3@[0] as nat + 256 * le_value(s4@));
    assert(le_value(s2@) == s2@[0] as nat + 256 * le_value(s3@));
    assert(le_value(s1@) == s1@[0] as nat + 256 * le_value(s2@));
    assert(le_value(s0@) == s0@[0] as nat + 256 * le_value(s1@));
    b[i] as u64 + 256 * (b[i + 1] as u64 + 256 * (b[i + 2] as u64 + 256 * (b[i + 3] as u64
        + 256 * (b[i + 4] as u64 + 256 * (b[i + 5] as u64 + 256 * (b[i + 6] as u64 + 256 * (
    b[i + 7] as u64)))))))
}

/// How many leading bytes of the host file hold its ELF header and section
/// header table, read from the 64-byte header at the start of `header`.
/// Fails when fewer than 64 bytes are given or when the end overflows.
pub fn section_table_extent(header: &[u8]) -> (r: Result<u64, SquishyError>)
    ensures
        match r {
            Ok(n) => header@.len() >= ELF64_HEADER_SIZE && n == header_extent(header@),
            Err(e) => e is Io && (header@.len() < ELF64_HEADER_SIZE || header_extent(header@)
                > u64::MAX),
        },
{
    if header.len() < ELF64_HEADER_SIZE {
        return Err(SquishyError::Io(String::from_str("ELF header is truncated")));
    }
    let shoff = read_le_u64(header, 40);
    let shnum = read_le_u16(header, 60);
    let table_size = shnum as u64 * ELF64_SECTION_HEADER_SIZE;
    match shoff.checked_add(table_size) {
        Some(n) => Ok(n),
        None => Err(SquishyError::Io(String::from_str("ELF section table ends past u64"))),
    }
}

/// Whether the leading bytes of a host file mark it as a static AppImage:
/// bytes 24 to 27 are 89, 171, 65, 0. A file too short for that is not one.
pub fn is_static_appimage(head: &[u8]) -> (r: bool)
    ensures
        r == (head@.len() >= 28 && head@.subrange(24, 28) == static_magic()),
{
    if head.len() < 28 {
        return false;
    }
    let r = head[24] == 89 && head[25] == 171 && head[26] == 65 && head[27] == 0;
    assert(r ==> head@.subrange(24, 28) =~= static_magic());
    assert(head@.subrange(24, 28) == static_magic() ==> head@.subrange(24, 28)[1] == 171u8);
    r
}

/// The section layout that an ELF file declares: where its section header
/// table starts, the size of one entry, how many entries there are, and the
/// offset and size of the last section, if there is one.
#[derive(Debug, Clone, Copy, PartialEq, Eq)]
pub struct ElfLayout {
    pub shoff: u64,
    pub shentsize: u16,
    pub shnum: u16,
    pub last_section: Option<(u64, u64)>,
}

impl ElfLayout {
    pub open spec fn model(self) -> (u64, u16, u16, Option<(u64, u64)>) {
        (self.shoff, self.shentsize, self.shnum, self.last_section)
    }
}

/// Where the section header table ends.
pub open spec fn table_end(l: (u64, u16, u16, Option<(u64, u64)>)) -> int {
    l.0 + l.1 * l.2
}

/// Where the last section's payload ends; 0 when there are no sections.
pub open spec fn last_section_end(l: (u64, u16, u16, Option<(u64, u64)>)) -> int {
    match l.3 {
        Some((off, size)) => off + size,
        None => 0,
    }
}

/// The first byte after everything the layout claims: the larger of the two
/// ends, or `None` when either of them does not fit in 64 bits.
pub open spec fn trailing_offset(l: (u64, u16, u16, Option<(u64, u64)>)) -> Option<u64> {
    if table_end(l) > u64::MAX || last_section_end(l) > u64::MAX {
        None
    } else if table_end(l) >= last_section_end(l) {
        Some(table_end(l) as u64)
    } else {
        Some(last_section_end(l) as u64)
    }
}

/// The layout that goblin reads out of the bytes of an ELF file, or `None`
/// where it refuses them.
pub uninterp spec fn elf_layout_of(data: Seq<u8>) -> Option<(u64, u16, u16, Option<(u64, u64)>)>;

#[verifier::external_type_specification]
#[verifier::external_body]
pub struct ExGoblinError(goblin::error::Error);

/// Relies on `goblin::elf::Elf::parse`: a pure function of the bytes, whose
/// header and section headers give the layout.
#[verifier::external_body]
fn parse_elf_layout(data: &[u8]) -> (r: Result<ElfLayout, goblin::error::Error>)
    ensures
        match r {
            Ok(l) => elf_layout_of(data@) == Some(l.model()),
            Err(_) => elf_layout_of(data@) is None,
        },
{
    let elf = goblin::elf::Elf::parse(data)?;
    Ok(ElfLayout {
        shoff: elf.header.e_shoff,
        shentsize: elf.header.e_shentsize,
        shnum: elf.header.e_shnum,
        last_section: elf.section_headers.last().map(|s| (s.sh_offset, s.sh_size)),
    })
}

/// Relies on the `Display` impl of goblin's error: the message of a refusal.
#[verifier::external_body]
fn elf_error_message(e: &goblin::error::Error) -> String {
    format!("{}", e)
}

/// The offset at which data appended to an ELF file starts: past both the
/// section header table and the payload of the last section. Fails, without
/// clamping, when either end does not fit in 64 bits.
pub fn trailing_data_offset(layout: &ElfLayout) -> (r: Result<u64, SquishyError>)
    ensures
        match r {
            Ok(n) => trailing_offset(layout.model()) == Some(n),
            Err(e) => e is Io && trailing_offset(layout.model()) is None,
        },
{
    let a = layout.shentsize as u64;
    let b = layout.shnum as u64;
    assert(a * b <= 0xffff * 0xffff) by (nonlinear_arith)
        requires
            a <= 0xffff,
            b <= 0xffff,
    ;
    let table_size = a * b;
    let table_end = match layout.shoff.checked_add(table_size) {
        Some(n) => n,
        None => return Err(SquishyError::Io(String::from_str("ELF section table ends past u64"))),
    };
    let last_end = match layout.last_section {
        Some((off, size)) => match off.checked_add(size) {
            Some(n) => n,
            None => return Err(SquishyError::Io(String::from_str("ELF section ends past u64"))),
        },
        None => 0,
    };
    if table_end >= last_end {
        Ok(table_end)
    } else {
        Ok(last_end)
    }
}

/// The offset at which the image appended to an AppImage starts, from the
/// leading bytes of the file through its section header table (as many as
/// [`section_table_extent`] gives). Fails when the bytes do not open with a
/// 64-bit ELF header, when goblin refuses them, or when the offset does not
/// fit in 64 bits.
pub fn get_offset(data: &[u8]) -> (r: Result<u64, SquishyError>)
    ensures
        !is_elf64_ident(data@) ==> r is Err && r->Err_0 is Io,
        is_elf64_ident(data@) ==> match elf_layout_of(data@) {
            None => r is Err && r->Err_0 is Io,
            Some(l) => match r {
                Ok(n) => trailing_offset(l) == Some(n),
                Err(e) => e is Io && trailing_offset(l) is None,
            },
        },
{
    if data.len() < ELF64_HEADER_SIZE || data[0] != 0x7f || data[1] != 0x45 || data[2] != 0x4c
        || data[3] != 0x46 || data[4] != 2 {
        proof {
            if is_elf64_ident(data@) {
                assert(data@.subrange(0, 4)[1] == data@[1]);
                assert(data@.subrange(0, 4)[2] == data@[2]);
                assert(data@.subrange(0, 4)[3] == data@[3]);
                assert(data@.subrange(0, 4)[0] == data@[0]);
            }
        }
        return Err(SquishyError::Io(String::from_str("not a 64-bit ELF file")));
    }
    assert(data@.subrange(0, 4) =~= elf_magic());
    match parse_elf_layout(data) {
        Ok(layout) => trailing_data_offset(&layout),
        Err(e) => Err(SquishyError::Io(elf_error_message(&e))),
    }
}

} // verus!
