//! Laws of the engine: what holds of every session, proved from the model.

use vstd::prelude::*;
use crate::digits::{decimal, decimal_value, digit_char, digit_value, hex_byte};
use crate::hex::{checksum, end_record, intel_hex, record_count, record_data, record_sum};
use crate::instructions::bit_opcode;
use crate::model::{
    address, displacement, hi, joined, lo, signed, slot_bytes, unique_name, word_bytes, word_of,
    Session,
};

verus! {

/// Raw appends concatenate: after a run of appends the image is the old
/// image followed by the appended chunks in call order, and nothing else of
/// the session has changed. From a fresh session the image is exactly the
/// chunks joined.
pub proof fn law_appends_concatenate(s: Session, chunks: Seq<Seq<u8>>)
    ensures
        s.emit_all(chunks) == (Session { image: s.image + joined(chunks), ..s }),
        Session::start(s.config).emit_all(chunks).image == joined(chunks),
    decreases chunks.len(),
{
    if chunks.len() == 0 {
        assert(s.image + joined(chunks) =~= s.image);
    } else {
        law_appends_concatenate(s, chunks.drop_last());
        assert((s.image + joined(chunks.drop_last())) + chunks.last() =~= s.image + joined(chunks));
    }
    let fresh = Session::start(s.config);
    if chunks.len() == 0 {
        assert(fresh.image + joined(chunks) =~= joined(chunks));
    } else {
        law_appends_concatenate(fresh, chunks.drop_last());
        assert((fresh.image + joined(chunks.drop_last())) + chunks.last() =~= joined(chunks));
    }
}

/// A word is encoded as its low byte followed by its high byte, and
/// decoding the two bytes little-endian gives the word back.
pub proof fn law_word_round_trip(word: u16)
    ensures
        word_bytes(word) == seq![lo(word), hi(word)],
        lo(word) == word % 256,
        hi(word) == word / 256,
        word_of(lo(word), hi(word)) == word,
{
    assert(word & 0xFF == word % 256) by (bit_vector);
    assert((word >> 8) & 0xFF == word / 256) by (bit_vector);
}

/// A label defined when `N` bytes have been generated from origin `O` denotes
/// `O + N`, as long as that address is inside the 16-bit address space, and
/// generating more bytes or recording slots does not change it.
pub proof fn law_label_address(s: Session, name: Seq<char>, bytes: Seq<u8>, other: Seq<char>)
    requires
        s.config.org + s.image.len() <= 0xFFFF,
    ensures
        address(s.config.org, s.image.len()) == s.config.org + s.image.len(),
        s.label(name).defines(name),
        s.label(name).symbols[name] == s.config.org + s.image.len(),
        s.label(name).emit(bytes).symbols[name] == s.config.org + s.image.len(),
        s.label(name).fixup(other).symbols[name] == s.config.org + s.image.len(),
{
}

/// The first undefined entry is what its name says: every entry before it
/// names a defined label and, unless it is the ledger's length, the entry
/// itself names an undefined one. It is the ledger's length exactly when the
/// ledger is resolvable.
pub proof fn law_first_undefined(s: Session)
    ensures
        s.first_undefined(0) <= s.ledger.len(),
        forall|i: int| 0 <= i < s.first_undefined(0) ==> s.defines((#[trigger] s.ledger[i]).name),
        s.first_undefined(0) < s.ledger.len() ==> !s.defines(
            s.ledger[s.first_undefined(0) as int].name,
        ),
        s.first_undefined(0) == s.ledger.len() <==> s.resolvable(),
{
    lemma_first_undefined_from(s, 0);
}

proof fn lemma_first_undefined_from(s: Session, from: nat)
    requires
        from <= s.ledger.len(),
    ensures
        from <= s.first_undefined(from) <= s.ledger.len(),
        forall|i: int| from <= i < s.first_undefined(from) ==> s.defines((#[trigger] s.ledger[i]).name),
        s.first_undefined(from) < s.ledger.len() ==> !s.defines(
            s.ledger[s.first_undefined(from) as int].name,
        ),
    decreases s.ledger.len() - from,
{
    if from < s.ledger.len() && s.defines(s.ledger[from as int].name) {
        lemma_first_undefined_from(s, from + 1);
    }
}

/// Resolution fills the slots and nothing else: after the first `k` slots
/// of a well-formed ledger were filled, the image has its old length, each
/// of those slots holds the little-endian encoding of its label's address,
/// and every byte outside them is as it was.
pub proof fn law_resolution_fills_slots(s: Session, k: nat)
    requires
        s.wf(),
        k <= s.ledger.len(),
    ensures
        s.patched(k).len() == s.image.len(),
        forall|i: int| 0 <= i < k ==> slot_bytes(s.patched(k), (#[trigger] s.ledger[i]).offset)
            == word_bytes(s.symbols[s.ledger[i].name]),
        forall|p: int| 0 <= p < s.image.len() && !s.in_slot(p, k) ==> #[trigger] s.patched(k)[p]
            == s.image[p],
    decreases k,
{
    if k > 0 {
        let before = s.patched((k - 1) as nat);
        let after = s.patched(k);
        let last = s.ledger[k - 1];
        law_resolution_fills_slots(s, (k - 1) as nat);
        assert forall|i: int| 0 <= i < k implies slot_bytes(after, (#[trigger] s.ledger[i]).offset)
            == word_bytes(s.symbols[s.ledger[i].name]) by {
            let slot = s.ledger[i];
            if i < k - 1 {
                assert(slot.offset + 2 <= last.offset);
                assert(slot_bytes(before, slot.offset) == word_bytes(s.symbols[slot.name]));
                assert(slot_bytes(after, slot.offset) =~= slot_bytes(before, slot.offset));
            } else {
                assert(slot_bytes(after, slot.offset) =~= word_bytes(s.symbols[slot.name]));
            }
        }
        assert forall|p: int| 0 <= p < s.image.len() && !s.in_slot(p, k) implies #[trigger] after[p]
            == s.image[p] by {
            assert(!(last.offset <= p < last.offset + 2));
            if s.in_slot(p, (k - 1) as nat) {
                let i = choose|i: int|
                    0 <= i < k - 1 && (#[trigger] s.ledger[i]).offset <= p < s.ledger[i].offset + 2;
                assert(0 <= i < k && s.ledger[i].offset <= p < s.ledger[i].offset + 2);
            }
        }
    }
}

/// Where a relative branch is in range, the emitted byte read as a signed
/// 8-bit integer is the distance from the address after the displacement
/// byte to the target.
pub proof fn law_relative_displacement(target: u16, at: u16)
    requires
        -128 <= target - (at + 1) <= 127,
    ensures
        target == at + 1 + signed(displacement(target, at)),
{
}

/// A relative branch appends exactly one byte, and where the branch is in
/// range that byte, read as a signed 8-bit integer `d`, satisfies
/// `T == P + 1 + d` for the label's address `T` and the position `P` at
/// which the byte was appended.
pub proof fn law_relative_branch(s: Session, name: Seq<char>)
    requires
        s.defines(name),
        -128 <= s.symbols[name] - (s.pos() + 1) <= 127,
    ensures
        s.emit_relative(name).image.len() == s.image.len() + 1,
        s.emit_relative(name).image.subrange(0, s.image.len() as int) == s.image,
        s.symbols[name] == s.pos() + 1 + signed(
            s.emit_relative(name).image[s.image.len() as int],
        ),
{
    law_relative_displacement(s.symbols[name], s.pos());
    assert(s.emit_relative(name).image.subrange(0, s.image.len() as int) =~= s.image);
}

/// The bytes that a data record's checksum covers and the checksum itself
/// add up to zero modulo 256.
pub proof fn law_record_checksum(addr: u16, data: Seq<u8>)
    ensures
        (record_sum(addr, data) + checksum(addr, data)) % 256 == 0,
{
}

/// The data records partition the image: each holds between one and
/// sixteen bytes, and byte `i` of the image is byte `i % 16` of record
/// `i / 16`.
pub proof fn law_records_partition_image(image: Seq<u8>, i: int)
    requires
        0 <= i < image.len(),
    ensures
        i / 16 < record_count(image.len()),
        record_data(image, (i / 16) as nat)[i % 16] == image[i],
        forall|k: nat| k < record_count(image.len()) ==> 1 <= (#[trigger] record_data(image, k)).len()
            <= 16,
{
}

/// The Intel HEX text of any image ends with the end-of-file record.
pub proof fn law_hex_ends_with_end_record(org: u16, image: Seq<u8>)
    ensures
        intel_hex(org, image).len() >= end_record().len(),
        intel_hex(org, image).subrange(
            intel_hex(org, image).len() - end_record().len(),
            intel_hex(org, image).len() as int,
        ) == end_record(),
        end_record() == ":00000001FF\n"@,
{
    let text = intel_hex(org, image);
    assert(text.subrange(text.len() - end_record().len(), text.len() as int) =~= end_record());
    reveal_strlit(":00000001FF\n");
    assert(end_record() =~= ":00000001FF\n"@);
}

/// The two hexadecimal digits of a byte stand for that byte.
pub proof fn law_hex_byte_value(b: u8)
    ensures
        16 * digit_value(hex_byte(b)[0]) + digit_value(hex_byte(b)[1]) == b,
{
    lemma_digit_value(b as nat / 16);
    lemma_digit_value(b as nat % 16);
}

proof fn lemma_digit_value(v: nat)
    requires
        v < 16,
    ensures
        digit_value(digit_char(v)) == v,
        digit_char(v) != '_',
{
}

/// The decimal text of a number stands for that number, so two numbers
/// with the same text are the same.
pub proof fn law_decimal_round_trip(n: nat)
    ensures
        decimal(n).len() >= 1,
        forall|i: int| 0 <= i < decimal(n).len() ==> #[trigger] decimal(n)[i] != '_',
        decimal_value(decimal(n)) == n,
    decreases n,
{
    if n < 10 {
        lemma_digit_value(n);
        assert(decimal(n).drop_last() =~= Seq::<char>::empty());
        assert(decimal_value(decimal(n).drop_last()) == 0);
    } else {
        law_decimal_round_trip(n / 10);
        lemma_digit_value(n % 10);
        assert(decimal(n).drop_last() =~= decimal(n / 10));
    }
}

/// Unique names with different numbers differ, whatever their prefixes: no
/// two requests on one session get the same name.
pub proof fn law_unique_names_differ(p1: Seq<char>, n1: nat, p2: Seq<char>, n2: nat)
    requires
        n1 != n2,
    ensures
        unique_name(p1, n1) != unique_name(p2, n2),
{
    let a = unique_name(p1, n1);
    let b = unique_name(p2, n2);
    let d1 = decimal(n1);
    let d2 = decimal(n2);
    law_decimal_round_trip(n1);
    law_decimal_round_trip(n2);
    if a == b {
        let len = a.len() as int;
        assert(len == p1.len() + 1 + d1.len());
        assert(len == p2.len() + 1 + d2.len());
        if d1.len() == d2.len() {
            assert(d1 =~= a.subrange(len - d1.len(), len));
            assert(d2 =~= b.subrange(len - d2.len(), len));
            assert(decimal_value(d1) == decimal_value(d2));
        } else if d1.len() < d2.len() {
            let q = len - 1 - d1.len();
            assert(a[q] == '_');
            assert(b[q] == d2[q - (len - d2.len())]);
        } else {
            let q = len - 1 - d2.len();
            assert(b[q] == '_');
            assert(a[q] == d1[q - (len - d1.len())]);
        }
    }
}

/// The ledger's invariant holds of a fresh session and is kept by every
/// operation of the engine, resolution included.
pub proof fn law_ledger_invariant(s: Session, bytes: Seq<u8>, word: u16, name: Seq<char>, k: nat)
    requires
        s.wf(),
        k <= s.ledger.len(),
    ensures
        Session::start(s.config).wf(),
        s.emit(bytes).wf(),
        s.emit_word(word).wf(),
        s.emit_string(bytes).wf(),
        s.emit_relative(name).wf(),
        s.label(name).wf(),
        s.fixup(name).wf(),
        s.named().wf(),
        (Session { image: s.patched(k), ..s }).wf(),
        s.resolved().wf(),
{
    law_resolution_fills_slots(s, k);
    law_first_undefined(s);
    law_resolution_fills_slots(s, s.first_undefined(0));
    let t = s.fixup(name);
    assert forall|i: int| 0 <= i < t.ledger.len() implies (#[trigger] t.ledger[i]).offset + 2
        <= t.image.len() by {
        if i < s.ledger.len() {
            assert(t.ledger[i] == s.ledger[i]);
        }
    }
    assert forall|i: int, j: int| 0 <= i < j < t.ledger.len() implies (#[trigger] t.ledger[i]).offset
        + 2 <= (#[trigger] t.ledger[j]).offset by {
        assert(t.ledger[i] == s.ledger[i]);
        if j < s.ledger.len() {
            assert(t.ledger[j] == s.ledger[j]);
        }
    }
}

/// For a bit number below eight, the second byte of a bit instruction is
/// the base code plus eight times the bit number.
pub proof fn law_bit_opcode(bit: u8)
    requires
        bit < 8,
    ensures
        bit_opcode(0x47, bit) == 0x47 + 8 * bit,
        bit_opcode(0xC7, bit) == 0xC7 + 8 * bit,
        bit_opcode(0x87, bit) == 0x87 + 8 * bit,
{
    assert(bit < 8 ==> (0x47u8 | (bit << 3u8)) == 0x47u8 + 8u8 * bit) by (bit_vector);
    assert(bit < 8 ==> (0xC7u8 | (bit << 3u8)) == 0xC7u8 + 8u8 * bit) by (bit_vector);
    assert(bit < 8 ==> (0x87u8 | (bit << 3u8)) == 0x87u8 + 8u8 * bit) by (bit_vector);
}

} // verus!
