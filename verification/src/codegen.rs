//! The emit / label / fixup engine.

use vstd::prelude::*;
use vstd::hash_map::StringHashMap;
use vstd::string::*;
use crate::digits::decimal_string;
use crate::model::{hi, lo, Session, Slot};

verus! {

/// Memory layout that a generated image targets.
#[derive(Clone, Copy, Debug, PartialEq, Eq, Structural)]
pub struct RomConfig {
    /// Address at which byte 0 of the image is mapped.
    pub org: u16,
    /// Address of the top of the stack.
    pub stack_top: u16,
    /// Address at which RAM starts.
    pub ram_start: u16,
}

impl RomConfig {
    /// The default layout: the image at address 0, RAM from 0x2000, the
    /// stack below 0x4000.
    pub open spec fn standard() -> RomConfig {
        RomConfig { org: 0x0000, stack_top: 0x3FFF, ram_start: 0x2000 }
    }
}

impl Default for RomConfig {
    fn default() -> (config: Self)
        ensures
            config == RomConfig::standard(),
    {
        RomConfig { org: 0x0000, stack_top: 0x3FFF, ram_start: 0x2000 }
    }
}

/// Why a resolution pass stopped.
#[derive(Clone, Debug, PartialEq, Eq)]
pub enum ResolveError {
    /// A slot of the ledger names a label that was never defined.
    UndefinedSymbol(String),
}

impl ResolveError {
    /// The message that reports this error.
    pub fn message(&self) -> (msg: String)
        ensures
            match self {
                ResolveError::UndefinedSymbol(name) => msg@ == "Undefined label: "@ + name@,
            },
    {
        match self {
            ResolveError::UndefinedSymbol(name) => {
                String::from_str("Undefined label: ").concat(name.as_str())
            },
        }
    }
}

/// The low byte of `word`.
fn low_byte(word: u16) -> (b: u8)
    ensures
        b == lo(word),
{
    assert(word & 0xFF < 0x100) by (bit_vector);
    (word & 0xFF) as u8
}

/// The high byte of `word`.
fn high_byte(word: u16) -> (b: u8)
    ensures
        b == hi(word),
{
    assert((word >> 8) & 0xFF < 0x100) by (bit_vector);
    ((word >> 8) & 0xFF) as u8
}

/// One generation session: the image, its symbol table, its ledger of
/// pending address slots and the counter of unique names.
pub struct CodeGen {
    rom: Vec<u8>,
    labels: StringHashMap<u16>,
    fixups: Vec<(usize, String)>,
    config: RomConfig,
    unique_counter: u32,
}

impl View for CodeGen {
    type V = Session;

    closed spec fn view(&self) -> Session {
        Session {
            config: self.config,
            image: self.rom@,
            symbols: self.labels@,
            ledger: Seq::new(
                self.fixups@.len(),
                |i: int| Slot { offset: self.fixups@[i].0 as nat, name: self.fixups@[i].1@ },
            ),
            counter: self.unique_counter as nat,
        }
    }
}

impl CodeGen {
    /// A fresh session with the default memory layout.
    pub fn new() -> (cg: Self)
        ensures
            cg@ == Session::start(RomConfig::standard()),
    {
        Self::with_config(RomConfig::default())
    }

    /// A fresh session with the given memory layout.
    pub fn with_config(config: RomConfig) -> (cg: Self)
        ensures
            cg@ == Session::start(config),
    {
        CodeGen {
            rom: Vec::new(),
            labels: StringHashMap::new(),
            fixups: Vec::new(),
            config,
            unique_counter: 0,
        }
    }

    /// The memory layout of this session.
    pub fn config(&self) -> (config: &RomConfig)
        ensures
            *config == self@.config,
    {
        &self.config
    }

    /// The address of the next byte to be generated.
    pub fn pos(&self) -> (addr: u16)
        ensures
            addr == self@.pos(),
    {
        let len: usize = self.rom.len();
        let low: u16 = (len % 0x1_0000) as u16;
        self.config.org.wrapping_add(low)
    }

    /// The number of bytes generated so far.
    pub fn size(&self) -> (n: usize)
        ensures
            n == self@.image.len(),
    {
        self.rom.len()
    }

    /// A label name that no earlier call on this session has returned:
    /// `prefix`, an underscore and the number of this call, counted from 1.
    pub fn unique_label(&mut self, prefix: &str) -> (name: String)
        requires
            old(self)@.counter < u32::MAX,
        ensures
            name@ == old(self)@.next_name(prefix@),
            final(self)@ == old(self)@.named(),
    {
        self.unique_counter = self.unique_counter + 1;
        let digits: String = decimal_string(self.unique_counter);
        let mut name: String = String::from_str(prefix);
        name.append("_");
        name.append(digits.as_str());
        proof {
            reveal_strlit("_");
            assert("_"@ =~= seq!['_']);
        }
        name
    }

    /// Appends `bytes` to the image.
    pub fn emit(&mut self, bytes: &[u8])
        ensures
            final(self)@ == old(self)@.emit(bytes@),
    {
        self.rom.extend_from_slice(bytes);
    }

    /// Appends one byte to the image.
    pub fn emit_byte(&mut self, b: u8)
        ensures
            final(self)@ == old(self)@.emit(seq![b]),
    {
        self.rom.push(b);
    }

    /// Appends a 16-bit word to the image, low byte first.
    pub fn emit_word(&mut self, word: u16)
        ensures
            final(self)@ == old(self)@.emit_word(word),
    {
        self.rom.push(low_byte(word));
        self.rom.push(high_byte(word));
    }

    /// Appends the bytes of `s`, followed by one zero byte.
    pub fn emit_string(&mut self, s: &str)
        ensures
            final(self)@ == old(self)@.emit_string(s.spec_bytes()),
    {
        self.rom.extend_from_slice(s.as_bytes());
        self.rom.push(0);
    }

    /// Appends the bytes of `s`, with no terminator.
    pub fn emit_string_raw(&mut self, s: &str)
        ensures
            final(self)@ == old(self)@.emit(s.spec_bytes()),
    {
        self.emit(s.as_bytes());
    }

    /// Binds `name` to the current position.
    pub fn label(&mut self, name: &str)
        ensures
            final(self)@ == old(self)@.label(name@),
    {
        let addr: u16 = self.pos();
        self.labels.insert(String::from_str(name), addr);
    }

    /// Whether `name` has been defined.
    pub fn has_label(&self, name: &str) -> (found: bool)
        ensures
            found == self@.defines(name@),
    {
        self.labels.contains_key(name)
    }

    /// The address that `name` denotes, if it has been defined.
    pub fn get_label(&self, name: &str) -> (addr: Option<u16>)
        ensures
            addr == (if self@.defines(name@) {
                Some(self@.symbols[name@])
            } else {
                None
            }),
    {
        match self.labels.get(name) {
            Some(addr) => Some(*addr),
            None => None,
        }
    }

    /// Records a slot for the address of `name`: appends two zero bytes and
    /// enters their offset and the name in the ledger.
    pub fn fixup(&mut self, name: &str)
        ensures
            final(self)@ == old(self)@.fixup(name@),
    {
        let offset: usize = self.rom.len();
        self.fixups.push((offset, String::from_str(name)));
        self.rom.push(0);
        self.rom.push(0);
    }

    /// Fills every slot of the ledger, in recording order, with the address
    /// of its label. Stops at the first slot whose label is not defined and
    /// reports that label; the slots before it have been filled by then.
    ///
    /// Every slot must lie inside the image, as it does unless the image was
    /// shortened through [`CodeGen::rom_mut`].
    pub fn resolve_fixups(&mut self) -> (r: Result<(), ResolveError>)
        requires
            old(self)@.slots_in_image(),
        ensures
            final(self)@ == old(self)@.resolved(),
            r is Ok <==> old(self)@.first_undefined(0) == old(self)@.ledger.len(),
            r matches Err(ResolveError::UndefinedSymbol(name)) ==> name@ == old(
                self,
            )@.ledger[old(self)@.first_undefined(0) as int].name,
    {
        let n: usize = self.fixups.len();
        let mut i: usize = 0;
        while i < n
            invariant
                i <= n,
                n == self.fixups@.len(),
                self.fixups == old(self).fixups,
                self.labels == old(self).labels,
                self.config == old(self).config,
                self.unique_counter == old(self).unique_counter,
                old(self)@.slots_in_image(),
                self.rom@.len() == old(self).rom@.len(),
                self.rom@ == old(self)@.patched(i as nat),
                old(self)@.first_undefined(0) == old(self)@.first_undefined(i as nat),
            decreases n - i,
        {
            let offset: usize = self.fixups[i].0;
            assert(old(self)@.ledger[i as int].offset == offset);
            match self.labels.get(self.fixups[i].1.as_str()) {
                Some(addr) => {
                    let word: u16 = *addr;
                    assert(offset + 2 <= self.rom.len());
                    self.rom.set(offset, low_byte(word));
                    self.rom.set(offset + 1, high_byte(word));
                },
                None => {
                    return Err(ResolveError::UndefinedSymbol(self.fixups[i].1.clone()));
                },
            }
            i = i + 1;
        }
        Ok(())
    }

    /// Appends the displacement byte of a relative branch to `target_label`,
    /// which must be defined: the low eight bits of the distance from the
    /// address after the displacement byte to the label.
    pub fn emit_relative(&mut self, target_label: &str)
        requires
            old(self)@.defines(target_label@),
        ensures
            final(self)@ == old(self)@.emit_relative(target_label@),
    {
        let target: u16 = *self.labels.get(target_label).unwrap();
        let at: u16 = self.pos();
        let distance: u32 = 0x1_0000u32 + target as u32 - (at as u32 + 1);
        self.emit_byte((distance % 256) as u8);
    }

    /// The bytes of the image.
    pub fn rom(&self) -> (bytes: &[u8])
        ensures
            bytes@ == self@.image,
    {
        self.rom.as_slice()
    }

    /// Direct access to the bytes of the image, for patching. What the
    /// caller leaves there is the image from then on.
    pub fn rom_mut(&mut self) -> (bytes: &mut Vec<u8>)
        ensures
            bytes@ == old(self)@.image,
            final(self)@ == (Session { image: final(bytes)@, ..old(self)@ }),
    {
        &mut self.rom
    }
}

impl Default for CodeGen {
    fn default() -> (cg: Self)
        ensures
            cg@ == Session::start(RomConfig::standard()),
    {
        Self::new()
    }
}

} // verus!
