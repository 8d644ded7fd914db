//! The Intel HEX text of an image.

use vstd::prelude::*;
use vstd::slice::slice_subrange;
use vstd::string::*;
use crate::codegen::CodeGen;
use crate::digits::{hex_byte, hex_bytes, hex_word, push_hex_byte, push_hex_word};
use crate::model::address;

verus! {

/// The largest number of data bytes in one record.
pub const RECORD_BYTES: usize = 16;

/// The sum of the bytes of `data`.
pub open spec fn byte_sum(data: Seq<u8>) -> nat
    decreases data.len(),
{
    if data.len() == 0 {
        0
    } else {
        byte_sum(data.drop_last()) + data.last() as nat
    }
}

/// The sum of the bytes that a data record's checksum covers: its length
/// byte, the two bytes of its address, its type byte (zero) and its data.
pub open spec fn record_sum(addr: u16, data: Seq<u8>) -> nat {
    data.len() + (addr / 256) as nat + (addr % 256) as nat + byte_sum(data)
}

/// The checksum of a data record: the two's complement of the low byte of
/// the sum of the bytes it covers.
pub open spec fn checksum(addr: u16, data: Seq<u8>) -> u8 {
    ((256 - record_sum(addr, data) % 256) % 256) as u8
}

/// The line of one data record: a colon, the length, the address, the type
/// `00`, the data and the checksum, each in hexadecimal, and a line feed.
pub open spec fn data_record(addr: u16, data: Seq<u8>) -> Seq<char>
    recommends
        data.len() <= 255,
{
    seq![':'] + hex_byte(data.len() as u8) + hex_word(addr) + seq!['0', '0'] + hex_bytes(data)
        + hex_byte(checksum(addr, data)) + seq!['\n']
}

/// The line of the end-of-file record.
pub open spec fn end_record() -> Seq<char> {
    seq![':', '0', '0', '0', '0', '0', '0', '0', '1', 'F', 'F', '\n']
}

/// The number of data records of an image of `len` bytes.
pub open spec fn record_count(len: nat) -> nat {
    (len + 15) / 16
}

/// The data of record `k` of `image`: sixteen bytes, or what is left of the
/// image in its last record.
pub open spec fn record_data(image: Seq<u8>, k: nat) -> Seq<u8>
    recommends
        k < record_count(image.len()),
{
    let start = 16 * k as int;
    let end = if start + 16 <= image.len() {
        start + 16
    } else {
        image.len() as int
    };
    image.subrange(start, end)
}

/// The address of record `k` of an image whose first byte is at `org`.
pub open spec fn record_address(org: u16, k: nat) -> u16 {
    address(org, 16 * k)
}

/// The lines of the first `k` data records of `image`.
pub open spec fn data_records(org: u16, image: Seq<u8>, k: nat) -> Seq<char>
    decreases k,
{
    if k == 0 {
        Seq::empty()
    } else {
        data_records(org, image, (k - 1) as nat) + data_record(
            record_address(org, (k - 1) as nat),
            record_data(image, (k - 1) as nat),
        )
    }
}

/// The Intel HEX text of `image` at origin `org`: one data record for each
/// sixteen bytes, then the end-of-file record.
pub open spec fn intel_hex(org: u16, image: Seq<u8>) -> Seq<char> {
    data_records(org, image, record_count(image.len())) + end_record()
}

/// Appends the line of the data record for `data` at `addr` to `text`.
fn push_data_record(text: &mut String, addr: u16, data: &[u8])
    requires
        data@.len() <= 255,
    ensures
        final(text)@ == old(text)@ + data_record(addr, data@),
{
    let len: usize = data.len();
    text.append(":");
    push_hex_byte(text, len as u8);
    push_hex_word(text, addr);
    text.append("00");
    let mut sum: u8 = (((len as u16) + addr / 256 + addr % 256) % 256) as u8;
    let ghost head = text@;
    let mut i: usize = 0;
    assert(data@.take(0) =~= Seq::<u8>::empty());
    assert(text@ =~= head + hex_bytes(data@.take(0)));
    while i < len
        invariant
            i <= len,
            len == data@.len(),
            len <= 255,
            text@ == head + hex_bytes(data@.take(i as int)),
            sum as nat == (len + (addr / 256) as nat + (addr % 256) as nat + byte_sum(
                data@.take(i as int),
            )) % 256,
        decreases len - i,
    {
        let b: u8 = data[i];
        push_hex_byte(text, b);
        sum = ((sum as u16 + b as u16) % 256) as u8;
        proof {
            let before = data@.take(i as int);
            let after = data@.take(i + 1);
            assert(after.drop_last() =~= before);
            assert(after.last() == b);
            assert(text@ =~= head + hex_bytes(after));
        }
        i = i + 1;
    }
    assert(data@.take(len as int) =~= data@);
    let check: u8 = ((256 - sum as u16) % 256) as u8;
    push_hex_byte(text, check);
    text.append("\n");
    proof {
        reveal_strlit(":");
        reveal_strlit("00");
        reveal_strlit("\n");
        assert(":"@ =~= seq![':']);
        assert("00"@ =~= seq!['0', '0']);
        assert("\n"@ =~= seq!['\n']);
        assert(text@ =~= old(text)@ + data_record(addr, data@));
    }
}

/// The address of a record is sixteen past that of the record before it,
/// wrapping around at the end of the address space.
proof fn lemma_next_record_address(org: u16, k: nat)
    ensures
        record_address(org, k + 1) as int == (record_address(org, k) as int + 16) % 0x1_0000,
{
    let a: int = org as int + 16 * k as int;
    assert((a % 0x1_0000 + 16) % 0x1_0000 == (a + 16) % 0x1_0000);
}

impl CodeGen {
    /// The image as Intel HEX text: a data record for each sixteen bytes of
    /// the image, in order, then the end-of-file record, one record to a
    /// line.
    pub fn intel_hex(&self) -> (text: String)
        ensures
            text@ == intel_hex(self@.config.org, self@.image),
    {
        let org: u16 = self.config().org;
        let image: &[u8] = self.rom();
        let len: usize = image.len();
        let count: usize = if len % RECORD_BYTES == 0 {
            len / RECORD_BYTES
        } else {
            len / RECORD_BYTES + 1
        };
        assert(count == record_count(len as nat));
        let mut text: String = String::new();
        let mut addr: u16 = org;
        let mut k: usize = 0;
        assert(text@ =~= data_records(org, image@, 0));
        while k < count
            invariant
                len == image@.len(),
                count == record_count(len as nat),
                k <= count,
                addr == record_address(org, k as nat),
                text@ == data_records(org, image@, k as nat),
            decreases count - k,
        {
            let start: usize = k * RECORD_BYTES;
            let end: usize = if len - start > RECORD_BYTES {
                start + RECORD_BYTES
            } else {
                len
            };
            let data: &[u8] = slice_subrange(image, start, end);
            assert(data@ == record_data(image@, k as nat));
            push_data_record(&mut text, addr, data);
            proof {
                lemma_next_record_address(org, k as nat);
            }
            addr = addr.wrapping_add(16);
            k = k + 1;
        }
        text.append(":00000001FF\n");
        proof {
            reveal_strlit(":00000001FF\n");
            assert(":00000001FF\n"@ =~= end_record());
        }
        text
    }
}

} // verus!
