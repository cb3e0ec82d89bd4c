//! The cartridge: the ROM image, the fields of its header (0x0100 - 0x014F)
//! and the battery-backed RAM saved from an earlier session, if any.
use vstd::prelude::*;

verus! {

pub struct CARTRIDGE {
    pub rom: Vec<u8>,  // The whole ROM image
    pub entry_point: [u8; 4],  // 0x0100-0x0103
    pub nintendo_logo: [u8; 48],  // 0x0104-0x0133
    pub title: [u8; 15],  // 0x0134-0x0142
    pub manufacturer_code: [u8; 4],  // 0x013F-0x0142
    pub cgb_flag: u8,  // 0x0143
    pub new_licensee_code: [u8; 2],  // 0x0144-0x0145
    pub sgb_flag: u8,  // 0x0146
    pub cartridge_type: u8,  // 0x0147
    pub rom_size: u8,  // 0x0148
    pub ram_size: Option<u32>,  // 0x0149, decoded to bytes
    pub destination_code: u8,  // 0x014A
    pub old_licensee_code: u8,  // 0x014B
    pub mask_rom_version_number: u8,  // 0x014C
    pub header_checksum: u8,  // 0x014D
    pub global_checksum: [u8; 2],  // 0x014E-0x014F
    pub saved_ram: Option<Vec<u8>>,
}

/// The size of the header that a ROM image must hold.
pub const HEADER_END: usize = 0x0150;

/// The external RAM size, in bytes, that the header byte at 0x0149 gives.
pub open spec fn ram_size_of(code: u8) -> Option<u32> {
    if code == 0x01 {
        Some(2048u32)
    } else if code == 0x02 {
        Some(8192u32)
    } else if code == 0x03 {
        Some(32768u32)
    } else if code == 0x04 {
        Some(131072u32)
    } else if code == 0x05 {
        Some(65536u32)
    } else {
        None
    }
}

/// Whether `chars` is the title that `title` holds: its bytes up to the
/// first zero byte, each read as a character.
pub open spec fn is_decoded_title(title: Seq<u8>, chars: Seq<char>) -> bool {
    &&& chars.len() <= title.len()
    &&& forall|i: int| 0 <= i < chars.len() ==> title[i] != 0 && #[trigger] chars[i] == title[i] as char
    &&& chars.len() == title.len() || title[chars.len() as int] == 0
}

/// `String::push` of std: appends one character to the string.
#[verifier::external_body]
fn push_char(s: &mut String, c: char)
    ensures
        final(s)@ == old(s)@.push(c),
{
    s.push(c);
}

/// Copies `len` bytes of `data` from `start` into the front of `dest`.
fn copy_bytes<const N: usize>(dest: &mut [u8; N], data: &Vec<u8>, start: usize)
    requires
        start + N <= data.len(),
    ensures
        final(dest)@ == data@.subrange(start as int, start + N),
{
    let mut i: usize = 0;
    while i < N
        invariant
            i <= N,
            start + N <= data.len(),
            dest@.len() == N,
            forall|j: int| 0 <= j < i ==> dest@[j] == data@[start + j],
        decreases N - i,
    {
        dest[i] = data[start + i];
        i += 1;
    }
    assert(dest@ =~= data@.subrange(start as int, start + N));
}

impl CARTRIDGE {
    pub fn new(data: Vec<u8>, saved_ram: Option<Vec<u8>>) -> (cartridge: Self)
        requires
            data.len() >= HEADER_END,
        ensures
            cartridge.rom@ == data@,
            cartridge.entry_point@ == data@.subrange(0x0100, 0x0104),
            cartridge.nintendo_logo@ == data@.subrange(0x0104, 0x0134),
            cartridge.title@ == data@.subrange(0x0134, 0x0143),
            cartridge.manufacturer_code@ == data@.subrange(0x013F, 0x0143),
            cartridge.cgb_flag == data@[0x0143],
            cartridge.new_licensee_code@ == data@.subrange(0x0144, 0x0146),
            cartridge.sgb_flag == data@[0x0146],
            cartridge.cartridge_type == data@[0x0147],
            cartridge.rom_size == data@[0x0148],
            cartridge.ram_size == ram_size_of(data@[0x0149]),
            cartridge.destination_code == data@[0x014A],
            cartridge.old_licensee_code == data@[0x014B],
            cartridge.mask_rom_version_number == data@[0x014C],
            cartridge.header_checksum == data@[0x014D],
            cartridge.global_checksum@ == data@.subrange(0x014E, 0x0150),
            cartridge.saved_ram == saved_ram,
    {
        let ram_size: Option<u32> = match data[0x0149] {
            0x01 => Some(2 * 1024),
            0x02 => Some(8 * 1024),
            0x03 => Some(32 * 1024),
            0x04 => Some(128 * 1024),
            0x05 => Some(64 * 1024),
            _ => None,
        };
        let mut nintendo_logo: [u8; 48] = [0;48];
        copy_bytes(&mut nintendo_logo, &data, 0x0104);
        let mut title: [u8; 15] = [0;15];
        copy_bytes(&mut title, &data, 0x0134);
        let mut manufacturer_code: [u8; 4] = [0;4];
        copy_bytes(&mut manufacturer_code, &data, 0x013F);
        let entry_point: [u8; 4] = [data[0x0100], data[0x0101], data[0x0102], data[0x0103]];
        let new_licensee_code: [u8; 2] = [data[0x0144], data[0x0145]];
        let global_checksum: [u8; 2] = [data[0x014E], data[0x014F]];
        assert(entry_point@ =~= data@.subrange(0x0100, 0x0104));
        assert(new_licensee_code@ =~= data@.subrange(0x0144, 0x0146));
        assert(global_checksum@ =~= data@.subrange(0x014E, 0x0150));
        let cgb_flag = data[0x0143];
        let sgb_flag = data[0x0146];
        let cartridge_type = data[0x0147];
        let rom_size = data[0x0148];
        let destination_code = data[0x014A];
        let old_licensee_code = data[0x014B];
        let mask_rom_version_number = data[0x014C];
        let header_checksum = data[0x014D];
        CARTRIDGE {
            entry_point,
            nintendo_logo,
            title,
            manufacturer_code,
            cgb_flag,
            new_licensee_code,
            sgb_flag,
            cartridge_type,
            rom_size,
            ram_size,
            destination_code,
            old_licensee_code,
            mask_rom_version_number,
            header_checksum,
            global_checksum,
            rom: data,
            saved_ram,
        }
    }

    /// The title of the game: the bytes of the title field up to the first
    /// zero byte, each read as a character.
    pub fn decode_title(&self) -> (decoded: String)
        ensures
            is_decoded_title(self.title@, decoded@),
    {
        let mut decoded_title = String::new();
        let mut i: usize = 0;
        let mut more = self.title[0] != 0;
        while more
            invariant
                more ==> i < 15 && self.title@[i as int] != 0,
                !more ==> i == 15 || self.title@[i as int] == 0,
                i <= 15,
                decoded_title@.len() == i,
                forall|j: int| 0 <= j < i ==> self.title@[j] != 0,
                forall|j: int| 0 <= j < i ==> #[trigger] decoded_title@[j] == self.title@[j] as char,
            decreases 15 - i,
        {
            let byte = self.title[i];
            let c = byte as char;
            let ghost before = decoded_title@;
            push_char(&mut decoded_title, c);
            assert(decoded_title@ == before.push(c));
            i += 1;
            more = i < 15 && self.title[i] != 0;
        }
        assert(self.title@.len() == 15);
        decoded_title
    }
}

} // verus!
