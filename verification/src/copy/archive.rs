//! Headers of the entries of a tar archive.

use tokio_tar::Header;

use vstd::arithmetic::power::pow;
use vstd::prelude::*;

use crate::text::{decimal, decimal_text};

verus! {

/// Declares `tokio_tar::Header`.
#[verifier::external_type_specification]
#[verifier::external_body]
pub struct ExHeader(tokio_tar::Header);

/// The bytes of a header.
pub uninterp spec fn header_bytes(header: Header) -> Seq<u8>;

/// `field` written into `bytes` from `at` on.
pub open spec fn put(bytes: Seq<u8>, at: int, field: Seq<u8>) -> Seq<u8> {
    Seq::new(
        bytes.len(),
        |i: int|
            if at <= i < at + field.len() {
                field[i - at]
            } else {
                bytes[i]
            },
    )
}

/// A number in octal digits, filling a field of `width` bytes that a NUL ends.
pub open spec fn octal_field(value: int, width: nat) -> Seq<u8> {
    Seq::new(
        width,
        |i: int|
            if i == width - 1 {
                0u8
            } else {
                (48 + (value / pow(8, (width - 2 - i) as nat)) % 8) as u8
            },
    )
}

/// The size of an entry: octal digits where eleven are enough, and binary otherwise.
pub open spec fn size_field(size: u64) -> Seq<u8> {
    if size < 0x2_0000_0000 {
        octal_field(size as int, 12)
    } else {
        seq![0x80u8, 0, 0, 0] + Seq::new(
            8,
            |i: int| ((size as int / pow(256, (7 - i) as nat)) % 256) as u8,
        )
    }
}

/// The sum of bytes.
pub open spec fn byte_sum(bytes: Seq<u8>) -> int
    decreases bytes.len(),
{
    if bytes.len() == 0 {
        0
    } else {
        byte_sum(bytes.drop_last()) + bytes.last()
    }
}

/// The checksum of a header: the sum of its bytes, the field of the checksum taken for blanks.
pub open spec fn checksum(bytes: Seq<u8>) -> int {
    byte_sum(put(bytes, 148, Seq::new(8, |i: int| 32u8)))
}

/// A header in the format of GNU tar that says nothing of its entry.
pub open spec fn blank_gnu_header() -> Seq<u8> {
    put(
        put(Seq::new(512, |i: int| 0u8), 257, seq![117u8, 115, 116, 97, 114, 32, 32, 0]),
        136,
        octal_field(0, 12),
    )
}

/// `tokio_tar::Header::new_gnu`: a blank header of 512 bytes with the magic of GNU tar.
pub assume_specification[ Header::new_gnu ]() -> (res: Header)
    ensures
        header_bytes(res) == blank_gnu_header(),
;

/// `tokio_tar::Header::set_size`: writes the field of the size.
pub assume_specification[ Header::set_size ](header: &mut Header, size: u64)
    ensures
        header_bytes(*final(header)) == put(header_bytes(*old(header)), 124, size_field(size)),
;

/// `tokio_tar::Header::set_mode`: writes the field of the mode.
pub assume_specification[ Header::set_mode ](header: &mut Header, mode: u32)
    ensures
        header_bytes(*final(header)) == put(
            header_bytes(*old(header)),
            100,
            octal_field(mode as int, 8),
        ),
;

/// `tokio_tar::Header::set_cksum`: writes the field of the checksum.
pub assume_specification[ Header::set_cksum ](header: &mut Header)
    ensures
        header_bytes(*final(header)) == put(
            header_bytes(*old(header)),
            148,
            octal_field(checksum(header_bytes(*old(header))), 8),
        ),
;

/// The mode of files that are made of data: their owner may write them and anyone may read them.
pub const DATA_FILE_MODE: u32 = 0o644;

/// The header of a file that holds `size` bytes of data, before it is given a path.
pub open spec fn data_header(size: u64) -> Seq<u8> {
    let bytes = put(
        put(blank_gnu_header(), 124, size_field(size)),
        100,
        octal_field(DATA_FILE_MODE as int, 8),
    );
    put(bytes, 148, octal_field(checksum(bytes), 8))
}

/// Makes the header of a file that holds `size` bytes of data.
pub fn make_data_header(size: u64) -> (res: Header)
    ensures
        header_bytes(res) == data_header(size),
{
    let mut header = Header::new_gnu();
    header.set_size(size);
    header.set_mode(DATA_FILE_MODE);
    header.set_cksum();
    header
}

/// What an entry of an archive is.
#[derive(Debug, Clone, Copy, PartialEq, Eq, Structural)]
pub enum EntryType {
    Regular,
    Link,
    Symlink,
    Char,
    Block,
    Directory,
    Fifo,
    Continuous,
    GNULongName,
    GNULongLink,
    GNUSparse,
    XGlobalHeader,
    XHeader,
    Other(u8),
}

/// The type that a header's type byte stands for.
pub open spec fn entry_type_of(byte: u8) -> EntryType {
    if byte == 0 || byte == 48 {
        EntryType::Regular
    } else if byte == 49 {
        EntryType::Link
    } else if byte == 50 {
        EntryType::Symlink
    } else if byte == 51 {
        EntryType::Char
    } else if byte == 52 {
        EntryType::Block
    } else if byte == 53 {
        EntryType::Directory
    } else if byte == 54 {
        EntryType::Fifo
    } else if byte == 55 {
        EntryType::Continuous
    } else if byte == 76 {
        EntryType::GNULongName
    } else if byte == 75 {
        EntryType::GNULongLink
    } else if byte == 83 {
        EntryType::GNUSparse
    } else if byte == 103 {
        EntryType::XGlobalHeader
    } else if byte == 120 {
        EntryType::XHeader
    } else {
        EntryType::Other(byte)
    }
}

impl EntryType {
    /// The name of the type.
    pub open spec fn name(&self) -> Seq<char> {
        match self {
            EntryType::Regular => "Regular"@,
            EntryType::Link => "Link"@,
            EntryType::Symlink => "Symlink"@,
            EntryType::Char => "Char"@,
            EntryType::Block => "Block"@,
            EntryType::Directory => "Directory"@,
            EntryType::Fifo => "Fifo"@,
            EntryType::Continuous => "Continuous"@,
            EntryType::GNULongName => "GNULongName"@,
            EntryType::GNULongLink => "GNULongLink"@,
            EntryType::GNUSparse => "GNUSparse"@,
            EntryType::XGlobalHeader => "XGlobalHeader"@,
            EntryType::XHeader => "XHeader"@,
            EntryType::Other(byte) => "Other("@ + decimal(*byte as nat) + ")"@,
        }
    }

    /// Writes the name of the type.
    pub fn text(&self) -> (res: String)
        ensures
            res@ == self.name(),
    {
        match self {
            EntryType::Regular => String::from("Regular"),
            EntryType::Link => String::from("Link"),
            EntryType::Symlink => String::from("Symlink"),
            EntryType::Char => String::from("Char"),
            EntryType::Block => String::from("Block"),
            EntryType::Directory => String::from("Directory"),
            EntryType::Fifo => String::from("Fifo"),
            EntryType::Continuous => String::from("Continuous"),
            EntryType::GNULongName => String::from("GNULongName"),
            EntryType::GNULongLink => String::from("GNULongLink"),
            EntryType::GNUSparse => String::from("GNUSparse"),
            EntryType::XGlobalHeader => String::from("XGlobalHeader"),
            EntryType::XHeader => String::from("XHeader"),
            EntryType::Other(byte) => String::from("Other(").concat(
                &decimal_text(*byte as u64),
            ).concat(")"),
        }
    }
}

/// `tokio_tar::Header::entry_type`, written as a byte by `tokio_tar::EntryType::as_byte`: the type
/// byte of the header, where zero is written as the digit zero.
#[verifier::external_body]
fn entry_type_byte(header: &Header) -> (res: u8)
    ensures
        res == (if header_bytes(*header)[156] == 0 {
            48u8
        } else {
            header_bytes(*header)[156]
        }),
{
    header.entry_type().as_byte()
}

impl EntryType {
    /// The type that a type byte stands for.
    pub fn from_byte(byte: u8) -> (res: EntryType)
        ensures
            res == entry_type_of(byte),
    {
        match byte {
            0 | 48 => EntryType::Regular,
            49 => EntryType::Link,
            50 => EntryType::Symlink,
            51 => EntryType::Char,
            52 => EntryType::Block,
            53 => EntryType::Directory,
            54 => EntryType::Fifo,
            55 => EntryType::Continuous,
            76 => EntryType::GNULongName,
            75 => EntryType::GNULongLink,
            83 => EntryType::GNUSparse,
            103 => EntryType::XGlobalHeader,
            120 => EntryType::XHeader,
            other => EntryType::Other(other),
        }
    }

    /// What the entry of `header` is.
    pub fn of_header(header: &Header) -> (res: EntryType)
        ensures
            res == entry_type_of(header_bytes(*header)[156]),
    {
        EntryType::from_byte(entry_type_byte(header))
    }
}

/// The header of a file made of data is that of a regular file.
pub proof fn law_data_header_is_a_regular_file(size: u64)
    ensures
        data_header(size).len() == 512,
        entry_type_of(data_header(size)[156]) == EntryType::Regular,
{
}

/// The number that bytes spell in a base, its most significant digit first, where `zero` is the byte
/// that stands for the digit zero.
pub open spec fn number_in(base: int, zero: int, bytes: Seq<u8>) -> int
    decreases bytes.len(),
{
    if bytes.len() == 0 {
        0
    } else {
        number_in(base, zero, bytes.drop_last()) * base + (bytes.last() - zero)
    }
}

/// What a header of data says can be read in it again, for every size: the mode that lets the owner
/// write and anyone read, the size in octal, or in binary where eleven octal digits do not hold it,
/// the type of a regular file, the magic of GNU tar, and as its checksum the sum of all bytes with
/// blanks for the checksum itself. It names no path.
pub proof fn law_data_header_reads_back(size: u64, header: Header)
    requires
        call_ensures(make_data_header, (size,), header),
    ensures
        says_data_of(header_bytes(header), size),
{
    lemma_data_header_reads_back(size);
}

/// Whether `b` are the bytes of a header for a file that holds `size` bytes of data.
pub open spec fn says_data_of(b: Seq<u8>, size: u64) -> bool {
    &&& b.len() == 512
    &&& forall|i: int| 0 <= i < 100 ==> #[trigger] b[i] == 0
    &&& number_in(8, 48, b.subrange(100, 107)) == 0o644 && b[107] == 0
    &&& size < 0x2_0000_0000 ==> number_in(8, 48, b.subrange(124, 135)) == size && b[135] == 0
    &&& size >= 0x2_0000_0000 ==> number_in(256, 0, b.subrange(128, 136)) == size && b[124] == 0x80
    &&& number_in(8, 48, b.subrange(148, 155)) == byte_sum(b.subrange(0, 148)) + 8 * 32 + byte_sum(
        b.subrange(156, 512),
    ) && b[155] == 0
    &&& b[156] == 0
    &&& b.subrange(257, 265) == seq![117u8, 115, 116, 97, 114, 32, 32, 0]
}

/// The same of the bytes alone.
pub proof fn lemma_data_header_reads_back(size: u64)
    ensures
        says_data_of(data_header(size), size),
{
    let mode = octal_field(0o644, 8);
    let length = size_field(size);
    let blank = Seq::new(8, |i: int| 32u8);
    let bytes = put(put(blank_gnu_header(), 124, length), 100, mode);
    let sum = checksum(bytes);
    let field = octal_field(sum, 8);
    let b = data_header(size);
    assert(b == put(bytes, 148, field));
    lemma_powers();

    assert(b.subrange(100, 107) =~= mode.take(7));
    lemma_octal_field(0o644, 8);

    if size < 0x2_0000_0000 {
        assert(b.subrange(124, 135) =~= length.take(11));
        lemma_octal_field(size as int, 12);
    } else {
        let digits = b.subrange(128, 136);
        assert forall|i: int| 0 <= i < 8 implies #[trigger] digits[i] == (size as int / pow(
            256,
            (7 - i) as nat,
        )) % 256 by {
            assert(digits[i] == length[i + 4]);
        }
        lemma_number_in(256, 0, digits, size as int);
    }

    let with_blanks = put(bytes, 148, blank);
    let before = b.subrange(0, 148);
    let after = b.subrange(156, 512);
    assert(with_blanks =~= before + blank + after);
    lemma_byte_sum_adds(before + blank, after);
    lemma_byte_sum_adds(before, blank);
    assert(byte_sum(blank) == 8 * 32) by {
        lemma_sum_of_blanks(8);
    }
    lemma_byte_sum_bound(with_blanks);
    assert(b.subrange(148, 155) =~= field.take(7));
    lemma_octal_field(sum, 8);
    assert(b.subrange(257, 265) =~= seq![117u8, 115, 116, 97, 114, 32, 32, 0]);
}

proof fn lemma_powers()
    ensures
        pow(8, 7) == 2097152,
        pow(8, 11) == 0x2_0000_0000,
        pow(256, 8) == 0x1_0000_0000_0000_0000,
{
    reveal(pow);
    reveal_with_fuel(pow, 12);
    assert(pow(8, 7) == 2097152);
    assert(pow(8, 11) == 0x2_0000_0000);
    assert(pow(256, 8) == 0x1_0000_0000_0000_0000);
}

proof fn lemma_octal_field(value: int, width: nat)
    requires
        width >= 2,
        0 <= value < pow(8, (width - 1) as nat),
    ensures
        number_in(8, 48, octal_field(value, width).take(width - 1)) == value,
{
    let digits = octal_field(value, width).take(width - 1);
    assert forall|i: int| 0 <= i < digits.len() implies #[trigger] digits[i] - 48 == (value / pow(
        8,
        (digits.len() - 1 - i) as nat,
    )) % 8 by {
        assert(digits[i] == octal_field(value, width)[i]);
        let d = (value / pow(8, (width - 2 - i) as nat)) % 8;
        assert(0 <= d < 8);
    }
    lemma_number_in(8, 48, digits, value);
}

proof fn lemma_number_in(base: int, zero: int, digits: Seq<u8>, value: int)
    requires
        base > 1,
        0 <= value < pow(base, digits.len()),
        forall|i: int|
            0 <= i < digits.len() ==> #[trigger] digits[i] - zero == (value / pow(
                base,
                (digits.len() - 1 - i) as nat,
            )) % base,
    ensures
        number_in(base, zero, digits) == value,
{
    lemma_number_in_prefix(base, zero, digits, value, digits.len());
    assert(digits.take(digits.len() as int) =~= digits);
    reveal(pow);
    assert(pow(base, 0) == 1);
    assert(value / 1 == value);
}

proof fn lemma_number_in_prefix(base: int, zero: int, digits: Seq<u8>, value: int, n: nat)
    requires
        base > 1,
        n <= digits.len(),
        0 <= value < pow(base, digits.len()),
        forall|i: int|
            0 <= i < digits.len() ==> #[trigger] digits[i] - zero == (value / pow(
                base,
                (digits.len() - 1 - i) as nat,
            )) % base,
    ensures
        number_in(base, zero, digits.take(n as int)) == value / pow(
            base,
            (digits.len() - n) as nat,
        ),
    decreases n,
{
    if n == 0 {
        vstd::arithmetic::div_mod::lemma_basic_div(value, pow(base, digits.len()));
    } else {
        let k = (digits.len() - n) as nat;
        lemma_number_in_prefix(base, zero, digits, value, (n - 1) as nat);
        assert(digits.take(n as int).drop_last() =~= digits.take(n - 1));
        vstd::arithmetic::power::lemma_pow_positive(base, k);
        let q = value / pow(base, k);
        assert(pow(base, k + 1) == pow(base, k) * base) by {
            reveal(pow);
            vstd::arithmetic::mul::lemma_mul_is_commutative(base, pow(base, k));
        }
        vstd::arithmetic::div_mod::lemma_div_denominator(value, pow(base, k), base);
        assert(value / pow(base, k + 1) == q / base);
        vstd::arithmetic::div_mod::lemma_fundamental_div_mod(q, base);
        vstd::arithmetic::mul::lemma_mul_is_commutative(base, q / base);
        assert(digits[n - 1] - zero == q % base);
    }
}

proof fn lemma_byte_sum_adds(a: Seq<u8>, b: Seq<u8>)
    ensures
        byte_sum(a + b) == byte_sum(a) + byte_sum(b),
    decreases b.len(),
{
    if b.len() == 0 {
        assert(a + b =~= a);
    } else {
        assert((a + b).drop_last() =~= a + b.drop_last());
        lemma_byte_sum_adds(a, b.drop_last());
    }
}

proof fn lemma_byte_sum_bound(a: Seq<u8>)
    ensures
        0 <= byte_sum(a) <= 255 * a.len(),
    decreases a.len(),
{
    if a.len() > 0 {
        lemma_byte_sum_bound(a.drop_last());
    }
}

proof fn lemma_sum_of_blanks(n: nat)
    ensures
        byte_sum(Seq::new(n, |i: int| 32u8)) == 32 * n,
    decreases n,
{
    let blanks = Seq::new(n, |i: int| 32u8);
    if n > 0 {
        assert(blanks.drop_last() =~= Seq::new((n - 1) as nat, |i: int| 32u8));
        lemma_sum_of_blanks((n - 1) as nat);
    }
}

/// The type byte says what an entry is: NUL and the digits from zero to seven stand for the types
/// of old, letters for the extensions, and any other byte for itself.
pub proof fn law_type_byte_says_what_an_entry_is(
    byte: u8,
    res: EntryType,
    header: &Header,
    of_header: EntryType,
    other: u8,
    of_other: EntryType,
)
    requires
        call_ensures(EntryType::from_byte, (byte,), res),
        call_ensures(EntryType::from_byte, (other,), of_other),
        call_ensures(EntryType::of_header, (header,), of_header),
    ensures
        header_bytes(*header)[156] == byte ==> of_header == res,
        res is Regular <==> byte == 0 || byte == 48,
        res is Link <==> byte == 49,
        res is Symlink <==> byte == 50,
        res is Char <==> byte == 51,
        res is Block <==> byte == 52,
        res is Directory <==> byte == 53,
        res is Fifo <==> byte == 54,
        res is Continuous <==> byte == 55,
        res is GNULongLink <==> byte == 75,
        res is GNULongName <==> byte == 76,
        res is GNUSparse <==> byte == 83,
        res is XGlobalHeader <==> byte == 103,
        res is XHeader <==> byte == 120,
        res matches EntryType::Other(same) ==> same == byte,
        res == of_other ==> byte == other || (res is Regular && byte + other == 48),
{
}

} // verus!
