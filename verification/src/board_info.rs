//! The board's identity record as it lies in the EEPROM: 50 bytes, a
//! checksum over all but the first six.

use vstd::prelude::*;
use vstd::string::{StringExecFns, StringSliceAdditionalSpecFns};
use vstd::slice::slice_subrange;

verus! {

/// The size of the record in bytes.
pub const BOARDINFO_SIZE: usize = 50;

/// The one version of the record's header.
pub const HEADER_VER: u16 = 1;

#[derive(Debug, PartialEq, Eq)]
pub struct BoardInfo {
    pub _reserved: u16,
    pub crc32: u32,
    pub hdr_version: u16,
    pub hw_version: u16,
    /// Days since the first of May 2023.
    pub factory_date: u16,
    pub factory_serial: [u8; 16],
    pub product_name: [u8; 16],
    pub mac: [u8; 6],
}

/// Why a record was refused.
#[derive(Clone, Copy, PartialEq, Eq, Structural, Debug)]
pub enum EepromError {
    /// Fewer than `BOARDINFO_SIZE` bytes.
    TooShort,
    /// The checksum in the record is `read`, that of the bytes `expected`.
    ChecksumMismatch { read: u32, expected: u32 },
}

/// A hardware version, as packed into 16 bits: 5 for major, 5 for minor,
/// 6 for patch.
#[derive(Clone, Copy, PartialEq, Eq, Structural, Debug)]
pub struct Version {
    pub major: u16,
    pub minor: u16,
    pub patch: u16,
}

/// The CRC-32 of `bytes` as `crc32fast` computes it.
pub uninterp spec fn crc32(bytes: Seq<u8>) -> u32;

/// Calls `crc32fast::hash`. The contract only names the result.
#[verifier::external_body]
fn checksum_of(bytes: &[u8]) -> (r: u32)
    ensures
        r == crc32(bytes@),
{
    crc32fast::hash(bytes)
}

/// The value of a hexadecimal digit, either case.
pub open spec fn hex_digit(c: u8) -> Option<u8> {
    if 48 <= c <= 57 {
        Some((c - 48) as u8)
    } else if 65 <= c <= 70 {
        Some((c - 55) as u8)
    } else if 97 <= c <= 102 {
        Some((c - 87) as u8)
    } else {
        None
    }
}

/// Twelve hexadecimal digits.
pub open spec fn is_mac_text(text: Seq<u8>) -> bool {
    text.len() == 12 && forall|i: int| 0 <= i < 12 ==> (#[trigger] hex_digit(text[i])).is_some()
}

/// The bytes that twelve hexadecimal digits stand for, two digits each.
pub open spec fn mac_bytes(text: Seq<u8>) -> Seq<u8> {
    Seq::new(
        6,
        |i: int| (hex_digit(text[2 * i]).unwrap() * 16 + hex_digit(text[2 * i + 1]).unwrap()) as u8,
    )
}

/// Calls `hex::FromHex::from_hex` for six bytes. It succeeds exactly on
/// twelve hexadecimal digits and gives the byte of each pair.
#[verifier::external_body]
fn mac_from_hex(text: &str) -> (r: Option<[u8; 6]>)
    ensures
        r.is_some() == is_mac_text(text.spec_bytes()),
        r.is_some() ==> r.unwrap()@ == mac_bytes(text.spec_bytes()),
{
    match <[u8; 6] as hex::FromHex>::from_hex(text) {
        Ok(bytes) => Some(bytes),
        Err(_) => None,
    }
}

pub open spec fn be16(b: Seq<u8>, at: int) -> int {
    b[at] * 256 + b[at + 1]
}

pub open spec fn le16(b: Seq<u8>, at: int) -> int {
    b[at] + b[at + 1] * 256
}

pub open spec fn be32(b: Seq<u8>, at: int) -> int {
    b[at] * 16777216 + b[at + 1] * 65536 + b[at + 2] * 256 + b[at + 3]
}

/// The first 16 bytes of `text`, filled up with zeros.
pub open spec fn padded(text: Seq<u8>) -> Seq<u8> {
    Seq::new(
        16,
        |i: int|
            if i < text.len() {
                text[i]
            } else {
                0u8
            },
    )
}

/// The three parts of a packed hardware version.
pub open spec fn spec_version(version: u16) -> Version {
    Version {
        major: (version / 2048) as u16,
        minor: ((version / 64) % 32) as u16,
        patch: (version % 64) as u16,
    }
}

/// A number below 100 in decimal.
pub open spec fn decimal(n: u16) -> Seq<char> {
    if n < 10 {
        digit(n)
    } else {
        digit((n / 10) as u16) + digit((n % 10) as u16)
    }
}

pub open spec fn digit(d: u16) -> Seq<char> {
    if d == 0 {
        "0"@
    } else if d == 1 {
        "1"@
    } else if d == 2 {
        "2"@
    } else if d == 3 {
        "3"@
    } else if d == 4 {
        "4"@
    } else if d == 5 {
        "5"@
    } else if d == 6 {
        "6"@
    } else if d == 7 {
        "7"@
    } else if d == 8 {
        "8"@
    } else {
        "9"@
    }
}

/// A packed hardware version written as `v<major>.<minor>.<patch>`.
pub open spec fn version_text(version: u16) -> Seq<char> {
    let v = spec_version(version);
    "v"@ + decimal(v.major) + "."@ + decimal(v.minor) + "."@ + decimal(v.patch)
}

fn digit_str(d: u16) -> (r: &'static str)
    requires
        d < 10,
    ensures
        r@ == digit(d),
{
    if d == 0 {
        "0"
    } else if d == 1 {
        "1"
    } else if d == 2 {
        "2"
    } else if d == 3 {
        "3"
    } else if d == 4 {
        "4"
    } else if d == 5 {
        "5"
    } else if d == 6 {
        "6"
    } else if d == 7 {
        "7"
    } else if d == 8 {
        "8"
    } else {
        "9"
    }
}

fn push_decimal(text: &mut String, n: u16)
    requires
        n < 100,
    ensures
        final(text)@ == old(text)@ + decimal(n),
{
    if n >= 10 {
        text.append(digit_str(n / 10));
    }
    text.append(digit_str(n % 10));
    assert(text@ =~= old(text)@ + decimal(n));
}

/// Unpacks a hardware version.
pub fn unpack_version(version: u16) -> (r: Version)
    ensures
        r == spec_version(version),
        r.major < 32,
        r.minor < 32,
        r.patch < 64,
{
    Version { major: version / 2048, minor: (version / 64) % 32, patch: version % 64 }
}

/// Writes a packed hardware version as `v<major>.<minor>.<patch>`, for
/// instance `v2.5.1`.
pub fn parse_version_field(version: u16) -> (r: String)
    ensures
        r@ == version_text(version),
{
    let v = unpack_version(version);
    let mut text: String = "v".to_owned();
    push_decimal(&mut text, v.major);
    text.append(".");
    push_decimal(&mut text, v.minor);
    text.append(".");
    push_decimal(&mut text, v.patch);
    text
}

fn take16(bytes: &[u8], at: usize) -> (r: [u8; 16])
    requires
        at + 16 <= bytes@.len(),
    ensures
        r@ == bytes@.subrange(at as int, at + 16),
{
    let mut out = [0u8;16];
    let mut i: usize = 0;
    let len = bytes.len();
    while i < 16
        invariant
            0 <= i <= 16,
            len == bytes@.len(),
            at + 16 <= len,
            forall|j: int| 0 <= j < i ==> out@[j] == bytes@[at + j],
        decreases 16 - i,
    {
        out[i] = bytes[at + i];
        i = i + 1;
    }
    assert(out@ =~= bytes@.subrange(at as int, at + 16));
    out
}

fn pad16(text: &[u8]) -> (r: [u8; 16])
    ensures
        r@ == padded(text@),
{
    let mut out = [0u8;16];
    let mut i: usize = 0;
    while i < 16 && i < text.len()
        invariant
            0 <= i <= 16,
            i <= text@.len(),
            forall|j: int| 0 <= j < i ==> out@[j] == text@[j],
            forall|j: int| i <= j < 16 ==> out@[j] == 0,
        decreases 16 - i,
    {
        out[i] = text[i];
        i = i + 1;
    }
    assert forall|j: int| 0 <= j < 16 implies out@[j] == padded(text@)[j] by {
        if j < i {
            assert(out@[j] == text@[j]);
        } else {
            assert(out@[j] == 0);
        }
    }
    assert(out@ =~= padded(text@));
    out
}

impl BoardInfo {
    /// The record says what the first 50 of these bytes say: the reserved
    /// field and the checksum big-endian, the three 16-bit fields
    /// little-endian, then serial, product name and MAC address.
    pub open spec fn decodes(self, b: Seq<u8>) -> bool {
        &&& b.len() >= BOARDINFO_SIZE
        &&& self._reserved == be16(b, 0)
        &&& self.crc32 == be32(b, 2)
        &&& self.hdr_version == le16(b, 6)
        &&& self.hw_version == le16(b, 8)
        &&& self.factory_date == le16(b, 10)
        &&& self.factory_serial@ == b.subrange(12, 28)
        &&& self.product_name@ == b.subrange(28, 44)
        &&& self.mac@ == b.subrange(44, 50)
    }

    /// Reads a record from its bytes; `None` for fewer than 50.
    pub fn from_bytes(bytes: &[u8]) -> (r: Option<BoardInfo>)
        ensures
            r.is_some() == (bytes@.len() >= BOARDINFO_SIZE),
            r.is_some() ==> r.unwrap().decodes(bytes@),
    {
        if bytes.len() < BOARDINFO_SIZE {
            return None;
        }
        let mut mac = [0u8;6];
        let mut i: usize = 0;
        while i < 6
            invariant
                0 <= i <= 6,
                bytes@.len() >= 50,
                forall|j: int| 0 <= j < i ==> mac@[j] == bytes@[44 + j],
            decreases 6 - i,
        {
            mac[i] = bytes[44 + i];
            i = i + 1;
        }
        assert(mac@ =~= bytes@.subrange(44, 50));
        Some(
            BoardInfo {
                _reserved: bytes[0] as u16 * 256 + bytes[1] as u16,
                crc32: bytes[2] as u32 * 16777216 + bytes[3] as u32 * 65536 + bytes[4] as u32
                    * 256 + bytes[5] as u32,
                hdr_version: bytes[6] as u16 + bytes[7] as u16 * 256,
                hw_version: bytes[8] as u16 + bytes[9] as u16 * 256,
                factory_date: bytes[10] as u16 + bytes[11] as u16 * 256,
                factory_serial: take16(bytes, 12),
                product_name: take16(bytes, 28),
                mac,
            },
        )
    }

    /// Checks the record's checksum against the bytes of the EEPROM: it
    /// must be the CRC-32 of bytes 6 to 49.
    pub fn verify_eeprom(&self, eeprom: &[u8]) -> (r: Result<(), EepromError>)
        ensures
            match r {
                Ok(()) => eeprom@.len() >= BOARDINFO_SIZE && self.crc32 == crc32(
                    eeprom@.subrange(6, 50),
                ),
                Err(EepromError::TooShort) => eeprom@.len() < BOARDINFO_SIZE,
                Err(EepromError::ChecksumMismatch { read, expected }) => {
                    &&& eeprom@.len() >= BOARDINFO_SIZE
                    &&& read == self.crc32
                    &&& expected == crc32(eeprom@.subrange(6, 50))
                    &&& read != expected
                },
            },
    {
        if eeprom.len() < BOARDINFO_SIZE {
            return Err(EepromError::TooShort);
        }
        let cksum = checksum_of(slice_subrange(eeprom, 6, 50));
        if self.crc32 != cksum {
            return Err(EepromError::ChecksumMismatch { read: self.crc32, expected: cksum });
        }
        Ok(())
    }

    pub fn hw_version(&mut self, hw_version: u16)
        ensures
            *final(self) == (BoardInfo { hw_version, ..*old(self) }),
    {
        self.hw_version = hw_version;
    }

    /// Sets the factory date, in days since the first of May 2023.
    pub fn factory_date(&mut self, days: u16)
        ensures
            *final(self) == (BoardInfo { factory_date: days, ..*old(self) }),
    {
        self.factory_date = days;
    }

    /// Sets the serial to the first 16 bytes of `serial`, filled up with
    /// zeros.
    pub fn factory_serial(&mut self, serial: &str)
        ensures
            final(self).factory_serial@ == padded(serial.spec_bytes()),
            *final(self) == (BoardInfo {
                factory_serial: final(self).factory_serial,
                ..*old(self)
            }),
    {
        self.factory_serial = pad16(serial.as_bytes());
    }

    /// Sets the product name to the first 16 bytes of `name`, filled up
    /// with zeros.
    pub fn product_name(&mut self, name: &str)
        ensures
            final(self).product_name@ == padded(name.spec_bytes()),
            *final(self) == (BoardInfo { product_name: final(self).product_name, ..*old(self) }),
    {
        self.product_name = pad16(name.as_bytes());
    }

    /// Sets the MAC address from twelve hexadecimal digits; anything else
    /// is refused and changes nothing.
    pub fn mac(&mut self, mac: &str) -> (r: bool)
        ensures
            r == is_mac_text(mac.spec_bytes()),
            !r ==> *final(self) == *old(self),
            r ==> final(self).mac@ == mac_bytes(mac.spec_bytes()) && *final(self) == (BoardInfo {
                mac: final(self).mac,
                ..*old(self)
            }),
    {
        match mac_from_hex(mac) {
            Some(bytes) => {
                self.mac = bytes;
                true
            },
            None => false,
        }
    }

    /// Writes the record out for the EEPROM, with the header version
    /// `HEADER_VER` and the checksum of what is written, which the record
    /// takes over. Read back, the bytes give this record again, but for
    /// the header version.
    pub fn write_back(&mut self) -> (r: Vec<u8>)
        ensures
            r@.len() == BOARDINFO_SIZE,
            final(self).crc32 == crc32(r@.subrange(6, 50)),
            *final(self) == (BoardInfo { crc32: final(self).crc32, ..*old(self) }),
            (BoardInfo { hdr_version: HEADER_VER, ..*final(self) }).decodes(r@),
    {
        let mut tail: Vec<u8> = Vec::new();
        tail.push((HEADER_VER % 256) as u8);
        tail.push((HEADER_VER / 256) as u8);
        tail.push((self.hw_version % 256) as u8);
        tail.push((self.hw_version / 256) as u8);
        tail.push((self.factory_date % 256) as u8);
        tail.push((self.factory_date / 256) as u8);
        let mut i: usize = 0;
        while i < 16
            invariant
                0 <= i <= 16,
                tail@.len() == 6 + i,
                tail@.subrange(0, 6) == old(self).head(),
                forall|j: int| 0 <= j < i ==> tail@[6 + j] == self.factory_serial@[j],
                *self == *old(self),
            decreases 16 - i,
        {
            tail.push(self.factory_serial[i]);
            i = i + 1;
        }
        let mut i: usize = 0;
        while i < 16
            invariant
                0 <= i <= 16,
                tail@.len() == 22 + i,
                tail@.subrange(0, 6) == old(self).head(),
                forall|j: int| 0 <= j < 16 ==> tail@[6 + j] == self.factory_serial@[j],
                forall|j: int| 0 <= j < i ==> tail@[22 + j] == self.product_name@[j],
                *self == *old(self),
            decreases 16 - i,
        {
            tail.push(self.product_name[i]);
            i = i + 1;
        }
        let mut i: usize = 0;
        while i < 6
            invariant
                0 <= i <= 6,
                tail@.len() == 38 + i,
                tail@.subrange(0, 6) == old(self).head(),
                forall|j: int| 0 <= j < 16 ==> tail@[6 + j] == self.factory_serial@[j],
                forall|j: int| 0 <= j < 16 ==> tail@[22 + j] == self.product_name@[j],
                forall|j: int| 0 <= j < i ==> tail@[38 + j] == self.mac@[j],
                *self == *old(self),
            decreases 6 - i,
        {
            tail.push(self.mac[i]);
            i = i + 1;
        }
        let crc = checksum_of(tail.as_slice());
        self.crc32 = crc;
        let mut out: Vec<u8> = Vec::new();
        out.push((self._reserved / 256) as u8);
        out.push((self._reserved % 256) as u8);
        out.push((crc / 16777216) as u8);
        out.push(((crc / 65536) % 256) as u8);
        out.push(((crc / 256) % 256) as u8);
        out.push((crc % 256) as u8);
        let ghost front = out@;
        let ghost reserved = self._reserved;
        proof {
            assert(front.len() == 6);
            assert(front[0] == (reserved / 256) as u8 && front[1] == (reserved % 256) as u8);
            assert(front[2] == (crc / 16777216) as u8);
            assert(front[3] == ((crc / 65536) % 256) as u8);
            assert(front[4] == ((crc / 256) % 256) as u8);
            assert(front[5] == (crc % 256) as u8);
            assert(be16(front, 0) == reserved);
            assert(be32(front, 2) == crc);
        }
        let mut i: usize = 0;
        while i < 44
            invariant
                0 <= i <= 44,
                tail@.len() == 44,
                out@.len() == 6 + i,
                out@.subrange(0, 6) == front,
                forall|j: int| 0 <= j < i ==> out@[6 + j] == tail@[j],
            decreases 44 - i,
        {
            out.push(tail[i]);
            i = i + 1;
        }
        proof {
            assert(out@.subrange(6, 50) =~= tail@);
            assert forall|j: int| 0 <= j < 6 implies out@[j] == front[j] by {
                assert(out@.subrange(0, 6)[j] == out@[j]);
            }
            assert forall|j: int| 0 <= j < 6 implies tail@[j] == old(self).head()[j] by {
                assert(tail@.subrange(0, 6)[j] == tail@[j]);
            }
            assert(forall|j: int| 0 <= j < 44 ==> out@[6 + j] == tail@[j]);
            assert(out@[6] == tail@[0] && out@[7] == tail@[1] && out@[8] == tail@[2]);
            assert(out@[9] == tail@[3] && out@[10] == tail@[4] && out@[11] == tail@[5]);
            assert(out@[0] == front[0] && out@[1] == front[1] && out@[2] == front[2]);
            assert(out@[3] == front[3] && out@[4] == front[4] && out@[5] == front[5]);
            assert(be16(out@, 0) == self._reserved);
            assert(be32(out@, 2) == crc);
            assert(le16(out@, 6) == HEADER_VER);
            assert(le16(out@, 8) == self.hw_version);
            assert(le16(out@, 10) == self.factory_date);
            assert(self.factory_serial@ =~= out@.subrange(12, 28));
            assert(self.product_name@ =~= out@.subrange(28, 44));
            assert(self.mac@ =~= out@.subrange(44, 50));
        }
        out
    }

    /// The three 16-bit fields as they are written: the header version
    /// `HEADER_VER`, the hardware version and the factory date, each
    /// little-endian.
    pub open spec fn head(self) -> Seq<u8> {
        seq![
            (HEADER_VER % 256) as u8,
            (HEADER_VER / 256) as u8,
            (self.hw_version % 256) as u8,
            (self.hw_version / 256) as u8,
            (self.factory_date % 256) as u8,
            (self.factory_date / 256) as u8,
        ]
    }
}

/// Bytes say one thing only: two records read from the same bytes are the
/// same record. So what `write_back` gives reads back as the record it was
/// written from, with the header version `HEADER_VER`.
pub proof fn lemma_bytes_decide_record(a: BoardInfo, b: BoardInfo, bytes: Seq<u8>)
    requires
        a.decodes(bytes),
        b.decodes(bytes),
    ensures
        a == b,
{
    assert(a.factory_serial =~= b.factory_serial);
    assert(a.product_name =~= b.product_name);
    assert(a.mac =~= b.mac);
}

} // verus!
