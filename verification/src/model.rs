//! The mathematical model of a generation session.

use vstd::prelude::*;
use crate::codegen::RomConfig;
use crate::digits::decimal;

verus! {

/// Low byte of a 16-bit word.
pub open spec fn lo(word: u16) -> u8 {
    (word & 0xFF) as u8
}

/// High byte of a 16-bit word.
pub open spec fn hi(word: u16) -> u8 {
    ((word >> 8) & 0xFF) as u8
}

/// The word whose little-endian encoding is `[low, high]`.
pub open spec fn word_of(low: u8, high: u8) -> int {
    low as int + 256 * (high as int)
}

/// The little-endian encoding of a word.
pub open spec fn word_bytes(word: u16) -> Seq<u8> {
    seq![lo(word), hi(word)]
}

/// The address of image offset `offset` under origin `org`; addresses wrap
/// around at the end of the 16-bit address space.
pub open spec fn address(org: u16, offset: nat) -> u16 {
    ((org as nat + offset) % 0x1_0000) as u16
}

/// The displacement byte of a relative branch to `target` whose displacement
/// byte stands at address `at`: the low eight bits of `target - (at + 1)`.
pub open spec fn displacement(target: u16, at: u16) -> u8 {
    ((target as int - (at as int + 1)) % 256) as u8
}

/// The value of a displacement byte read as a signed 8-bit integer.
pub open spec fn signed(byte: u8) -> int {
    if byte < 128 { byte as int } else { byte as int - 256 }
}

/// The two bytes of `image` at `offset`.
pub open spec fn slot_bytes(image: Seq<u8>, offset: nat) -> Seq<u8> {
    image.subrange(offset as int, offset as int + 2)
}

/// The chunks of `chunks` one after another.
pub open spec fn joined(chunks: Seq<Seq<u8>>) -> Seq<u8>
    decreases chunks.len(),
{
    if chunks.len() == 0 {
        Seq::empty()
    } else {
        joined(chunks.drop_last()) + chunks.last()
    }
}

/// The name made of `prefix`, an underscore and the decimal text of `n`.
pub open spec fn unique_name(prefix: Seq<char>, n: nat) -> Seq<char> {
    prefix + seq!['_'] + decimal(n)
}

/// A pending two-byte little-endian address slot of the image.
#[verifier::ext_equal]
pub struct Slot {
    /// Image offset of the slot's first byte.
    pub offset: nat,
    /// Name of the label whose address the slot will hold.
    pub name: Seq<char>,
}

/// The state of a generation session.
#[verifier::ext_equal]
pub struct Session {
    /// Memory layout the image is generated for.
    pub config: RomConfig,
    /// The bytes generated so far.
    pub image: Seq<u8>,
    /// The address each defined label denotes.
    pub symbols: Map<Seq<char>, u16>,
    /// The pending address slots, in recording order.
    pub ledger: Seq<Slot>,
    /// How many unique names have been handed out.
    pub counter: nat,
}

impl Session {
    /// A fresh session: nothing generated, defined or recorded.
    pub open spec fn start(config: RomConfig) -> Session {
        Session {
            config,
            image: Seq::empty(),
            symbols: Map::empty(),
            ledger: Seq::empty(),
            counter: 0,
        }
    }

    /// The address of the next byte to be generated.
    pub open spec fn pos(self) -> u16 {
        address(self.config.org, self.image.len())
    }

    /// Whether `name` has been defined.
    pub open spec fn defines(self, name: Seq<char>) -> bool {
        self.symbols.contains_key(name)
    }

    /// The session after `bytes` were appended to the image.
    pub open spec fn emit(self, bytes: Seq<u8>) -> Session {
        Session { image: self.image + bytes, ..self }
    }

    /// The session after each chunk of `chunks` was appended in turn.
    pub open spec fn emit_all(self, chunks: Seq<Seq<u8>>) -> Session
        decreases chunks.len(),
    {
        if chunks.len() == 0 {
            self
        } else {
            self.emit_all(chunks.drop_last()).emit(chunks.last())
        }
    }

    /// The session after `word` was appended, low byte first.
    pub open spec fn emit_word(self, word: u16) -> Session {
        self.emit(word_bytes(word))
    }

    /// The session after `name` was bound to the current position. A name
    /// that was bound before is bound anew.
    pub open spec fn label(self, name: Seq<char>) -> Session {
        Session { symbols: self.symbols.insert(name, self.pos()), ..self }
    }

    /// The session after a slot for `name` was recorded: two zero bytes are
    /// appended and the ledger gets one entry that points at them.
    pub open spec fn fixup(self, name: Seq<char>) -> Session {
        Session {
            image: self.image + seq![0u8, 0u8],
            ledger: self.ledger.push(Slot { offset: self.image.len(), name }),
            ..self
        }
    }

    /// The session after the displacement byte of a relative branch to
    /// `name` was appended.
    pub open spec fn emit_relative(self, name: Seq<char>) -> Session {
        self.emit(seq![displacement(self.symbols[name], self.pos())])
    }

    /// The session after the bytes of a text and one zero byte were appended.
    pub open spec fn emit_string(self, text: Seq<u8>) -> Session {
        self.emit(text.push(0u8))
    }

    /// The name that the next request for a unique name gets.
    pub open spec fn next_name(self, prefix: Seq<char>) -> Seq<char> {
        unique_name(prefix, self.counter + 1)
    }

    /// The session after one unique name was handed out.
    pub open spec fn named(self) -> Session {
        Session { counter: self.counter + 1, ..self }
    }

    /// Every slot of the ledger lies inside the image.
    pub open spec fn slots_in_image(self) -> bool {
        forall|i: int| 0 <= i < self.ledger.len() ==>
            (#[trigger] self.ledger[i]).offset + 2 <= self.image.len()
    }

    /// The slots of the ledger follow one another without overlap.
    pub open spec fn slots_apart(self) -> bool {
        forall|i: int, j: int| 0 <= i < j < self.ledger.len() ==>
            (#[trigger] self.ledger[i]).offset + 2 <= (#[trigger] self.ledger[j]).offset
    }

    /// Whether image offset `p` lies in one of the first `k` slots of the
    /// ledger.
    pub open spec fn in_slot(self, p: int, k: nat) -> bool {
        exists|i: int| 0 <= i < k && (#[trigger] self.ledger[i]).offset <= p < self.ledger[i].offset + 2
    }

    /// Whether every label that the ledger names is defined.
    pub open spec fn resolvable(self) -> bool {
        forall|i: int| 0 <= i < self.ledger.len() ==> self.defines((#[trigger] self.ledger[i]).name)
    }

    /// The ledger's invariant: what recording a slot establishes and every
    /// operation but direct access to the image keeps.
    pub open spec fn wf(self) -> bool {
        self.slots_in_image() && self.slots_apart()
    }

    /// The index of the first ledger entry at or after `from` whose label is
    /// not defined; the ledger's length if there is none.
    pub open spec fn first_undefined(self, from: nat) -> nat
        decreases self.ledger.len() - from,
    {
        if from >= self.ledger.len() || !self.defines(self.ledger[from as int].name) {
            from
        } else {
            self.first_undefined(from + 1)
        }
    }

    /// The image after the first `k` slots of the ledger were filled with
    /// the addresses of their labels, in recording order.
    pub open spec fn patched(self, k: nat) -> Seq<u8>
        decreases k,
    {
        if k == 0 {
            self.image
        } else {
            let slot = self.ledger[k - 1];
            let addr = self.symbols[slot.name];
            self.patched((k - 1) as nat)
                .update(slot.offset as int, lo(addr))
                .update(slot.offset as int + 1, hi(addr))
        }
    }

    /// The session after a resolution pass: the slots before the first
    /// undefined entry are filled, all slots if every label is defined.
    pub open spec fn resolved(self) -> Session {
        Session { image: self.patched(self.first_undefined(0)), ..self }
    }
}

} // verus!
