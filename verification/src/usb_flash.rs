//! Flashing over USB: the parts of an image and how each is announced on
//! the wire.

use vstd::prelude::*;
use crate::text::{first_comma, parse_u8, parsed_u8, split_at_comma, trim, trimmed};

verus! {

/// USB vendor id of the controller.
pub const BMC_VENDOR: u16 = 0x0006;

/// USB product id of the controller.
pub const BMC_PRODUCT: u16 = 0x0011;

/// A part of an upgrade image.
#[derive(Clone, Copy, PartialEq, Eq, Structural, Hash, Debug)]
pub enum FelParts {
    Bootloader,
    Rootfs,
    EEPROM,
    Bootscript,
    Initramfs,
}

impl FelParts {
    /// The number that stands for the part.
    pub open spec fn spec_id(self) -> u8 {
        match self {
            FelParts::Bootloader => 0,
            FelParts::Rootfs => 1,
            FelParts::EEPROM => 2,
            FelParts::Bootscript => 3,
            FelParts::Initramfs => 4,
        }
    }

    pub fn id(self) -> (r: u8)
        ensures
            r == self.spec_id(),
    {
        match self {
            FelParts::Bootloader => 0,
            FelParts::Rootfs => 1,
            FelParts::EEPROM => 2,
            FelParts::Bootscript => 3,
            FelParts::Initramfs => 4,
        }
    }

    /// The part that `value` stands for; the number itself comes back
    /// where it stands for none.
    pub fn try_from(value: u8) -> (r: Result<FelParts, u8>)
        ensures
            match r {
                Ok(part) => part.spec_id() == value,
                Err(v) => v == value && value > 4,
            },
    {
        match value {
            0 => Ok(FelParts::Bootloader),
            1 => Ok(FelParts::Rootfs),
            2 => Ok(FelParts::EEPROM),
            3 => Ok(FelParts::Bootscript),
            4 => Ok(FelParts::Initramfs),
            _ => Err(value),
        }
    }
}

/// Why a table of contents was refused.
#[derive(Debug, PartialEq, Eq)]
pub enum ContentError {
    /// What stands before the comma is no number below 256; the rest of
    /// the line.
    BadKind(String),
    /// The number stands for no part.
    UnknownPart(u8),
}

/// A `ContentError` with its text as a sequence of characters.
pub ghost enum ContentErrorView {
    BadKind(Seq<char>),
    UnknownPart(u8),
}

impl View for ContentError {
    type V = ContentErrorView;

    open spec fn view(&self) -> ContentErrorView {
        match *self {
            ContentError::BadKind(rest) => ContentErrorView::BadKind(rest@),
            ContentError::UnknownPart(n) => ContentErrorView::UnknownPart(n),
        }
    }
}

/// The part with the number `id`, for `id` up to 4.
pub open spec fn part_of(id: u8) -> FelParts {
    if id == 0 {
        FelParts::Bootloader
    } else if id == 1 {
        FelParts::Rootfs
    } else if id == 2 {
        FelParts::EEPROM
    } else if id == 3 {
        FelParts::Bootscript
    } else {
        FelParts::Initramfs
    }
}

/// What one line of a table of contents says. A line is the number of a
/// part, a comma and the name of a file; a line without a comma says
/// nothing. The name is taken without the white space around it.
pub open spec fn spec_entry(line: Seq<char>) -> Result<
    Option<(Seq<char>, FelParts)>,
    ContentErrorView,
> {
    match first_comma(line) {
        None => Ok(None),
        Some(i) => {
            let rest = line.subrange(i + 1, line.len() as int);
            match parsed_u8(line.subrange(0, i)) {
                None => Err(ContentErrorView::BadKind(rest)),
                Some(id) => if id > 4 {
                    Err(ContentErrorView::UnknownPart(id))
                } else {
                    Ok(Some((trimmed(rest), part_of(id))))
                },
            }
        },
    }
}

/// Reads one line of a table of contents.
pub fn content_entry(line: &str) -> (r: Result<Option<(String, FelParts)>, ContentError>)
    ensures
        match r {
            Ok(Some((name, part))) => spec_entry(line@) == Ok::<
                Option<(Seq<char>, FelParts)>,
                ContentErrorView,
            >(Some((name@, part))),
            Ok(None) => spec_entry(line@) == Ok::<
                Option<(Seq<char>, FelParts)>,
                ContentErrorView,
            >(None),
            Err(e) => spec_entry(line@) == Err::<
                Option<(Seq<char>, FelParts)>,
                ContentErrorView,
            >(e@),
        },
{
    let (kind, rest) = match split_at_comma(line) {
        Some(parts) => parts,
        None => {
            return Ok(None);
        },
    };
    let id = match parse_u8(kind.as_str()) {
        Some(id) => id,
        None => {
            return Err(ContentError::BadKind(rest));
        },
    };
    match FelParts::try_from(id) {
        Ok(part) => Ok(Some((trim(rest.as_str()), part))),
        Err(id) => Err(ContentError::UnknownPart(id)),
    }
}

/// The lines as sequences of characters.
pub open spec fn lines_view(lines: Seq<String>) -> Seq<Seq<char>> {
    lines.map_values(|l: String| l@)
}

/// The entries with their names as sequences of characters.
pub open spec fn entries_view(entries: Seq<(String, FelParts)>) -> Seq<(Seq<char>, FelParts)> {
    entries.map_values(|e: (String, FelParts)| (e.0@, e.1))
}

/// What a table of contents says: the entries of its lines, in their
/// order, or the error of the first line that is refused.
pub open spec fn spec_contents(lines: Seq<Seq<char>>) -> Result<
    Seq<(Seq<char>, FelParts)>,
    ContentErrorView,
>
    decreases lines.len(),
{
    if lines.len() == 0 {
        Ok(Seq::empty())
    } else {
        match spec_contents(lines.drop_last()) {
            Err(e) => Err(e),
            Ok(entries) => match spec_entry(lines.last()) {
                Err(e) => Err(e),
                Ok(None) => Ok(entries),
                Ok(Some(entry)) => Ok(entries.push(entry)),
            },
        }
    }
}

/// An error in the first lines of a table is the error of the table.
pub proof fn lemma_first_error_stands(lines: Seq<Seq<char>>, n: int)
    requires
        0 <= n <= lines.len(),
        spec_contents(lines.subrange(0, n)).is_err(),
    ensures
        spec_contents(lines) == spec_contents(lines.subrange(0, n)),
    decreases lines.len() - n,
{
    if n == lines.len() {
        assert(lines.subrange(0, n) =~= lines);
    } else {
        assert(lines.subrange(0, n + 1).drop_last() =~= lines.subrange(0, n));
        lemma_first_error_stands(lines, n + 1);
    }
}

/// Reads a table of contents, line by line.
pub fn parse_contents(lines: &Vec<String>) -> (r: Result<Vec<(String, FelParts)>, ContentError>)
    ensures
        match r {
            Ok(entries) => spec_contents(lines_view(lines@)) == Ok::<
                Seq<(Seq<char>, FelParts)>,
                ContentErrorView,
            >(entries_view(entries@)),
            Err(e) => spec_contents(lines_view(lines@)) == Err::<
                Seq<(Seq<char>, FelParts)>,
                ContentErrorView,
            >(e@),
        },
{
    let mut entries: Vec<(String, FelParts)> = Vec::new();
    let ghost all = lines_view(lines@);
    let mut i: usize = 0;
    assert(all.subrange(0, 0) =~= Seq::<Seq<char>>::empty());
    assert(entries_view(entries@) =~= Seq::<(Seq<char>, FelParts)>::empty());
    while i < lines.len()
        invariant
            0 <= i <= lines.len(),
            all == lines_view(lines@),
            spec_contents(all.subrange(0, i as int)) == Ok::<
                Seq<(Seq<char>, FelParts)>,
                ContentErrorView,
            >(entries_view(entries@)),
        decreases lines.len() - i,
    {
        proof {
            let upto = all.subrange(0, i as int + 1);
            assert(upto.drop_last() =~= all.subrange(0, i as int));
            assert(upto.last() == lines@[i as int]@);
        }
        match content_entry(lines[i].as_str()) {
            Ok(Some(entry)) => {
                proof {
                    assert(entries_view(entries@.push(entry)) =~= entries_view(entries@).push(
                        (entry.0@, entry.1),
                    ));
                }
                entries.push(entry);
            },
            Ok(None) => {},
            Err(e) => {
                proof {
                    lemma_first_error_stands(all, i as int + 1);
                }
                return Err(e);
            },
        }
        i = i + 1;
    }
    assert(all.subrange(0, i as int) =~= all);
    Ok(entries)
}

/// Byte `i` of `n` written big-endian in eight bytes.
pub open spec fn be64_byte(n: u64, i: int) -> u8 {
    if i == 0 {
        (n / 0x100_0000_0000_0000) as u8
    } else if i == 1 {
        ((n / 0x1_0000_0000_0000) % 256) as u8
    } else if i == 2 {
        ((n / 0x100_0000_0000) % 256) as u8
    } else if i == 3 {
        ((n / 0x1_0000_0000) % 256) as u8
    } else if i == 4 {
        ((n / 0x100_0000) % 256) as u8
    } else if i == 5 {
        ((n / 0x1_0000) % 256) as u8
    } else if i == 6 {
        ((n / 0x100) % 256) as u8
    } else {
        (n % 256) as u8
    }
}

/// What announces a part before its bytes: the part's number, then the
/// length of the part in eight bytes, big-endian.
pub open spec fn spec_part_header(part: FelParts, len: u64) -> Seq<u8> {
    Seq::new(
        9,
        |i: int|
            if i == 0 {
                part.spec_id()
            } else {
                be64_byte(len, i - 1)
            },
    )
}

pub fn part_header(part: FelParts, len: u64) -> (r: Vec<u8>)
    ensures
        r@ == spec_part_header(part, len),
{
    let mut out: Vec<u8> = Vec::new();
    out.push(part.id());
    out.push((len / 0x100_0000_0000_0000) as u8);
    out.push(((len / 0x1_0000_0000_0000) % 256) as u8);
    out.push(((len / 0x100_0000_0000) % 256) as u8);
    out.push(((len / 0x1_0000_0000) % 256) as u8);
    out.push(((len / 0x100_0000) % 256) as u8);
    out.push(((len / 0x1_0000) % 256) as u8);
    out.push(((len / 0x100) % 256) as u8);
    out.push((len % 256) as u8);
    assert(out@ =~= spec_part_header(part, len));
    out
}

} // verus!
