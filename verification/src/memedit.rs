//! Typed access to the target's memory: cells of a fixed width, chains of
//! pointers that lead to a cell, and single bits of a byte.

use vstd::prelude::*;
use core::marker::PhantomData;
use crate::encoding::{
    decode_le,
    encode_le,
    le_bytes,
    le_value,
    lemma_le_round_trip,
    lemma_le_value_bound,
    lemma_span_values,
};
use crate::memory::{Memory, MemoryView};

verus! {

/// A value that occupies a fixed number of bytes in the target, stored least
/// significant byte first.
pub trait Cell: Sized {
    /// The number of bytes that a value occupies.
    spec fn width() -> nat;

    /// The value that `bytes` hold.
    spec fn decode(bytes: Seq<u8>) -> Self;

    /// The bytes that hold the value.
    spec fn encode(self) -> Seq<u8>;

    /// A value fills its width exactly, and its bytes hold it.
    proof fn lemma_round_trip(value: Self)
        ensures
            value.encode().len() == Self::width(),
            Self::decode(value.encode()) == value,
    ;

    /// The width of a value, in bytes.
    fn size() -> (width: usize)
        ensures
            width == Self::width(),
    ;

    /// Reads a value from the bytes of its cell.
    fn from_bytes(bytes: &[u8]) -> (value: Self)
        requires
            bytes@.len() == Self::width(),
        ensures
            value == Self::decode(bytes@),
    ;

    /// The bytes to store in the value's cell.
    fn to_bytes(&self) -> (bytes: Vec<u8>)
        ensures
            bytes@ == self.encode(),
    ;
}

impl Cell for u8 {
    open spec fn width() -> nat {
        1
    }

    open spec fn decode(bytes: Seq<u8>) -> u8 {
        le_value(bytes) as u8
    }

    open spec fn encode(self) -> Seq<u8> {
        le_bytes(self as nat, 1)
    }

    proof fn lemma_round_trip(value: u8) {
        lemma_span_values();
        lemma_le_round_trip(value as nat, 1);
    }

    fn size() -> (width: usize) {
        1
    }

    fn from_bytes(bytes: &[u8]) -> (value: u8) {
        proof {
            lemma_span_values();
            lemma_le_value_bound(bytes@);
        }
        decode_le(bytes) as u8
    }

    fn to_bytes(&self) -> (bytes: Vec<u8>) {
        encode_le(*self as u64, 1)
    }
}

impl Cell for u32 {
    open spec fn width() -> nat {
        4
    }

    open spec fn decode(bytes: Seq<u8>) -> u32 {
        le_value(bytes) as u32
    }

    open spec fn encode(self) -> Seq<u8> {
        le_bytes(self as nat, 4)
    }

    proof fn lemma_round_trip(value: u32) {
        lemma_span_values();
        lemma_le_round_trip(value as nat, 4);
    }

    fn size() -> (width: usize) {
        4
    }

    fn from_bytes(bytes: &[u8]) -> (value: u32) {
        proof {
            lemma_span_values();
            lemma_le_value_bound(bytes@);
        }
        decode_le(bytes) as u32
    }

    fn to_bytes(&self) -> (bytes: Vec<u8>) {
        encode_le(*self as u64, 4)
    }
}

impl Cell for u64 {
    open spec fn width() -> nat {
        8
    }

    open spec fn decode(bytes: Seq<u8>) -> u64 {
        le_value(bytes) as u64
    }

    open spec fn encode(self) -> Seq<u8> {
        le_bytes(self as nat, 8)
    }

    proof fn lemma_round_trip(value: u64) {
        lemma_span_values();
        lemma_le_round_trip(value as nat, 8);
    }

    fn size() -> (width: usize) {
        8
    }

    fn from_bytes(bytes: &[u8]) -> (value: u64) {
        decode_le(bytes)
    }

    fn to_bytes(&self) -> (bytes: Vec<u8>) {
        encode_le(*self, 8)
    }
}

/// The bit pattern of a single-precision number: sign, exponent and fraction
/// as the target holds them. Nothing here computes with the number itself.
#[derive(Clone, Copy, Debug, PartialEq, Eq, Structural)]
pub struct FloatBits(pub u32);

impl Cell for FloatBits {
    open spec fn width() -> nat {
        4
    }

    open spec fn decode(bytes: Seq<u8>) -> FloatBits {
        FloatBits(le_value(bytes) as u32)
    }

    open spec fn encode(self) -> Seq<u8> {
        le_bytes(self.0 as nat, 4)
    }

    proof fn lemma_round_trip(value: FloatBits) {
        lemma_span_values();
        lemma_le_round_trip(value.0 as nat, 4);
    }

    fn size() -> (width: usize) {
        4
    }

    fn from_bytes(bytes: &[u8]) -> (value: FloatBits) {
        proof {
            lemma_span_values();
            lemma_le_value_bound(bytes@);
        }
        FloatBits(decode_le(bytes) as u32)
    }

    fn to_bytes(&self) -> (bytes: Vec<u8>) {
        encode_le(self.0 as u64, 4)
    }
}

/// Where the walk along a chain stands: what has to be done next.
#[derive(Clone, Copy, Debug, PartialEq, Eq, Structural)]
pub enum Walk {
    /// Read the pointer stored at `at`, then go on with the offset number
    /// `next`.
    Deref { at: u64, next: usize },
    /// The chain ends at `at`: the cell is there.
    Access { at: u64 },
    /// The chain is broken: a pointer on the way was null or could not be
    /// read, or an address left the address space.
    Broken,
}

/// What a [`PointerChain`] holds: the root address and the offsets.
#[verifier::ext_equal]
pub struct ChainView {
    pub base: u64,
    pub offsets: Seq<u64>,
}

impl ChainView {
    /// The step that adds the offset number `index` to the address `current`.
    /// The last offset locates the cell; each earlier one locates a pointer.
    pub open spec fn step(self, current: u64, index: int) -> Walk {
        if !(0 <= index < self.offsets.len()) {
            Walk::Broken
        } else if current + self.offsets[index] > u64::MAX {
            Walk::Broken
        } else if index == self.offsets.len() - 1 {
            Walk::Access { at: (current + self.offsets[index]) as u64 }
        } else {
            Walk::Deref { at: (current + self.offsets[index]) as u64, next: (index + 1) as usize }
        }
    }

    /// The first step: without offsets the cell is at the root itself.
    pub open spec fn begin(self) -> Walk {
        if self.offsets.len() == 0 {
            Walk::Access { at: self.base }
        } else {
            self.step(self.base, 0)
        }
    }

    /// The step after a pointer read: a pointer that is null or could not be
    /// read (`None`) breaks the chain.
    pub open spec fn resume(self, next: int, pointer: Option<u64>) -> Walk {
        match pointer {
            Some(address) => if address == 0 {
                Walk::Broken
            } else {
                self.step(address, next)
            },
            None => Walk::Broken,
        }
    }

    /// The address of the cell when the walk goes on from `current` with the
    /// offset number `index`, reading its pointers from `memory`.
    pub open spec fn resolve_from(self, memory: MemoryView, current: u64, index: int) -> Option<
        u64,
    >
        decreases self.offsets.len() - index,
    {
        match self.step(current, index) {
            Walk::Broken => None,
            Walk::Access { at } => Some(at),
            Walk::Deref { at, next } => match memory.pointer_at(at as int) {
                Some(address) => if address == 0 {
                    None
                } else {
                    self.resolve_from(memory, address, index + 1)
                },
                None => None,
            },
        }
    }

    /// The address of the cell, or `None` where the chain is broken.
    pub open spec fn resolve(self, memory: MemoryView) -> Option<u64> {
        if self.offsets.len() == 0 {
            Some(self.base)
        } else {
            self.resolve_from(memory, self.base, 0)
        }
    }

    /// Where a walk that stands at `walk` ends.
    pub open spec fn finish(self, memory: MemoryView, walk: Walk) -> Option<u64> {
        match walk {
            Walk::Broken => None,
            Walk::Access { at } => Some(at),
            Walk::Deref { at, next } => match memory.pointer_at(at as int) {
                Some(address) => if address == 0 {
                    None
                } else {
                    self.resolve_from(memory, address, next as int)
                },
                None => None,
            },
        }
    }

    /// What reading through the chain gives: the value of the cell, or `None`
    /// where the chain is broken or the cell is not mapped.
    pub open spec fn read<T: Cell>(self, memory: MemoryView) -> Option<T> {
        match self.resolve(memory) {
            Some(at) => if memory.maps(at as int, T::width() as int) {
                Some(T::decode(memory.bytes_at(at as int, T::width() as int)))
            } else {
                None
            },
            None => None,
        }
    }

    /// The memory after writing `value` through the chain, or `None` where the
    /// chain is broken or the cell is not mapped.
    pub open spec fn write<T: Cell>(self, memory: MemoryView, value: T) -> Option<MemoryView> {
        match self.resolve(memory) {
            Some(at) => if memory.maps(at as int, T::width() as int) {
                Some(memory.with_bytes(at as int, value.encode()))
            } else {
                None
            },
            None => None,
        }
    }
}

/// A root address and a list of offsets that lead, pointer by pointer, to a
/// cell of type `T`.
#[derive(Debug)]
pub struct PointerChain<T> {
    base: u64,
    offsets: Vec<u64>,
    cell: PhantomData<T>,
}

impl<T> View for PointerChain<T> {
    type V = ChainView;

    closed spec fn view(&self) -> ChainView {
        ChainView { base: self.base, offsets: self.offsets@ }
    }
}

impl<T> Clone for PointerChain<T> {
    fn clone(&self) -> (chain: Self)
        ensures
            chain@ == self@,
    {
        PointerChain { base: self.base, offsets: self.offsets.clone(), cell: PhantomData }
    }
}

impl<T: Cell> PartialEq for PointerChain<T> {
    fn eq(&self, other: &Self) -> (same: bool) {
        self.same_as(other)
    }
}

impl<T: Cell> vstd::std_specs::cmp::PartialEqSpecImpl for PointerChain<T> {
    open spec fn obeys_eq_spec() -> bool {
        true
    }

    /// Two chains are equal where their roots and their offsets are.
    open spec fn eq_spec(&self, other: &Self) -> bool {
        self@ == other@
    }
}

impl<T: Cell> PointerChain<T> {
    /// The chain that starts at the address `base` and goes on through
    /// `offsets`.
    pub fn new(base: u64, offsets: Vec<u64>) -> (chain: Self)
        ensures
            chain@ == (ChainView { base, offsets: offsets@ }),
    {
        PointerChain { base, offsets, cell: PhantomData }
    }

    pub fn base(&self) -> (base: u64)
        ensures
            base == self@.base,
    {
        self.base
    }

    pub fn offsets(&self) -> (offsets: &Vec<u64>)
        ensures
            offsets@ == self@.offsets,
    {
        &self.offsets
    }

    /// Whether two chains have the same root and the same offsets.
    pub fn same_as(&self, other: &PointerChain<T>) -> (same: bool)
        ensures
            same == (self@ == other@),
    {
        if self.base != other.base || self.offsets.len() != other.offsets.len() {
            return false;
        }
        let mut i: usize = 0;
        while i < self.offsets.len()
            invariant
                i <= self.offsets@.len(),
                self.offsets@.len() == other.offsets@.len(),
                self.offsets@.subrange(0, i as int) == other.offsets@.subrange(0, i as int),
            decreases self.offsets@.len() - i,
        {
            if self.offsets[i] != other.offsets[i] {
                return false;
            }
            i += 1;
        }
        assert(self.offsets@ =~= self.offsets@.subrange(0, i as int));
        assert(other.offsets@ =~= other.offsets@.subrange(0, i as int));
        true
    }

    fn step(&self, current: u64, index: usize) -> (walk: Walk)
        ensures
            walk == self@.step(current, index as int),
    {
        if index >= self.offsets.len() {
            return Walk::Broken;
        }
        match current.checked_add(self.offsets[index]) {
            None => Walk::Broken,
            Some(at) => if index == self.offsets.len() - 1 {
                Walk::Access { at }
            } else {
                Walk::Deref { at, next: index + 1 }
            },
        }
    }

    /// The first step of a walk along the chain.
    pub fn begin(&self) -> (walk: Walk)
        ensures
            walk == self@.begin(),
    {
        if self.offsets.len() == 0 {
            Walk::Access { at: self.base }
        } else {
            self.step(self.base, 0)
        }
    }

    /// The step that follows a pointer read. `pointer` is what was read at the
    /// address of the `Deref` step, `None` where it could not be read; `next`
    /// is the number that the step gave.
    pub fn resume(&self, next: usize, pointer: Option<u64>) -> (walk: Walk)
        ensures
            walk == self@.resume(next as int, pointer),
    {
        match pointer {
            Some(address) => if address == 0 {
                Walk::Broken
            } else {
                self.step(address, next)
            },
            None => Walk::Broken,
        }
    }

    /// Walks the chain in `memory` and gives the address of the cell.
    pub fn eval(&self, memory: &Memory) -> (address: Option<u64>)
        ensures
            address == self@.resolve(memory@),
    {
        let count = self.offsets.len();
        let mut walk = self.begin();
        loop
            invariant
                count == self@.offsets.len(),
                self@.finish(memory@, walk) == self@.resolve(memory@),
                walk matches Walk::Deref { at, next } ==> next <= self@.offsets.len(),
            decreases
                    (match walk {
                        Walk::Deref { at, next } => self@.offsets.len() - next + 1,
                        _ => 0,
                    }),
        {
            match walk {
                Walk::Broken => {
                    return None;
                },
                Walk::Access { at } => {
                    return Some(at);
                },
                Walk::Deref { at, next } => {
                    let pointer = memory.load_pointer(at);
                    walk = self.resume(next, pointer);
                },
            }
        }
    }

    /// Reads the cell that the chain leads to. `None` where the chain is
    /// broken or the cell is not mapped.
    pub fn read(&self, memory: &Memory) -> (value: Option<T>)
        ensures
            value == self@.read::<T>(memory@),
    {
        match self.eval(memory) {
            Some(at) => match memory.load(at, T::size()) {
                Some(bytes) => Some(T::from_bytes(bytes.as_slice())),
                None => None,
            },
            None => None,
        }
    }

    /// Writes `value` into the cell that the chain leads to. Where the chain
    /// is broken or the cell is not mapped, nothing is written and the result
    /// is `None`.
    pub fn write(&self, memory: &mut Memory, value: T) -> (written: Option<()>)
        ensures
            match self@.write(old(memory)@, value) {
                Some(after) => written == Some(()) && final(memory)@ == after,
                None => written == None::<()> && final(memory)@ == old(memory)@,
            },
    {
        match self.eval(memory) {
            Some(at) => {
                let bytes = value.to_bytes();
                proof {
                    T::lemma_round_trip(value);
                }
                if memory.store(at, bytes.as_slice()) {
                    Some(())
                } else {
                    None
                }
            },
            None => None,
        }
    }
}

/// Walking a chain step by step, with each pointer read from the memory, ends
/// where the chain resolves in that memory: the first step stands for the
/// whole walk, and so does every step after a read.
pub proof fn lemma_walk_follows_memory(chain: ChainView, memory: MemoryView, walk: Walk)
    requires
        chain.offsets.len() <= usize::MAX,
    ensures
        chain.finish(memory, chain.begin()) == chain.resolve(memory),
        walk matches Walk::Deref { at, next } ==> chain.finish(
            memory,
            chain.resume(next as int, memory.pointer_at(at as int)),
        ) == chain.finish(memory, walk),
{
}

/// A chain without offsets leads to its root, whatever the memory holds, and
/// a value written through it is the value read back through it.
pub proof fn lemma_root_round_trip<T: Cell>(chain: ChainView, memory: MemoryView, value: T)
    requires
        chain.offsets.len() == 0,
    ensures
        chain.resolve(memory) == Some(chain.base),
        chain.write(memory, value) is Some <==> memory.maps(chain.base as int, T::width() as int),
        chain.write(memory, value) matches Some(after) ==> chain.read::<T>(after) == Some(value),
{
    T::lemma_round_trip(value);
    if memory.maps(chain.base as int, T::width() as int) {
        let after = memory.with_bytes(chain.base as int, value.encode());
        assert(after.bytes_at(chain.base as int, T::width() as int) =~= value.encode());
    }
}

/// A chain whose first pointer is null, or cannot be read, is broken: nothing
/// is read through it and nothing is written.
pub proof fn lemma_null_pointer_breaks<T: Cell>(chain: ChainView, memory: MemoryView, value: T)
    requires
        chain.begin() matches Walk::Deref { at, next } && (memory.pointer_at(at as int) == Some(
            0u64,
        ) || memory.pointer_at(at as int) is None),
    ensures
        chain.resolve(memory) is None,
        chain.read::<T>(memory) is None,
        chain.write(memory, value) is None,
{
}

/// Whether the bit number `bit` of `byte` is set.
pub open spec fn bit_is_set(byte: u8, bit: u8) -> bool {
    byte & (1u8 << bit) != 0
}

/// `byte` with the bit number `bit` set or cleared.
pub open spec fn with_bit(byte: u8, bit: u8, on: bool) -> u8 {
    if on {
        byte | (1u8 << bit)
    } else {
        byte & !(1u8 << bit)
    }
}

proof fn lemma_with_bit_one(byte: u8, bit: u8, other: u8)
    by (bit_vector)
    requires
        bit < 8,
        other < 8,
    ensures
        (byte | (1u8 << bit)) & (1u8 << bit) != 0,
        (byte & !(1u8 << bit)) & (1u8 << bit) == 0,
        other != bit ==> (((byte | (1u8 << bit)) & (1u8 << other) != 0) == (byte & (1u8 << other)
            != 0)),
        other != bit ==> (((byte & !(1u8 << bit)) & (1u8 << other) != 0) == (byte & (1u8 << other)
            != 0)),
        (byte | (1u8 << bit)) & !(1u8 << bit) == byte & !(1u8 << bit),
        (byte & !(1u8 << bit)) | (1u8 << bit) == byte | (1u8 << bit),
{
}

/// Writing a bit gives the byte that bit, and leaves the seven others as they
/// were.
pub proof fn lemma_with_bit(byte: u8, bit: u8, on: bool)
    requires
        bit < 8,
    ensures
        bit_is_set(with_bit(byte, bit, on), bit) == on,
        forall|other: u8|
            other < 8 && other != bit ==> #[trigger] bit_is_set(with_bit(byte, bit, on), other)
                == bit_is_set(byte, other),
{
    lemma_with_bit_one(byte, bit, 0);
    assert forall|other: u8| other < 8 && other != bit implies #[trigger] bit_is_set(
        with_bit(byte, bit, on),
        other,
    ) == bit_is_set(byte, other) by {
        lemma_with_bit_one(byte, bit, other);
    }
}

/// Setting a bit and then clearing it gives the byte with that bit cleared:
/// the byte as it was, but for that one bit. The seven other bits keep their
/// values through both writes.
pub proof fn lemma_set_then_clear(byte: u8, bit: u8)
    requires
        bit < 8,
    ensures
        with_bit(with_bit(byte, bit, true), bit, false) == with_bit(byte, bit, false),
        !bit_is_set(byte, bit) ==> with_bit(with_bit(byte, bit, true), bit, false) == byte,
        bit_is_set(with_bit(byte, bit, true), bit),
        forall|other: u8|
            other < 8 && other != bit ==> #[trigger] bit_is_set(with_bit(byte, bit, true), other)
                == bit_is_set(byte, other),
        forall|other: u8|
            other < 8 && other != bit ==> #[trigger] bit_is_set(
                with_bit(with_bit(byte, bit, true), bit, false),
                other,
            ) == bit_is_set(byte, other),
{
    lemma_with_bit_one(byte, bit, 0);
    lemma_with_bit(byte, bit, true);
    lemma_with_bit(byte, bit, false);
    assert(byte & (1u8 << bit) == 0 ==> byte & !(1u8 << bit) == byte) by (bit_vector);
}

/// What a [`Bitflag`] holds: the chain to its byte and the number of its bit.
#[verifier::ext_equal]
pub struct BitflagView {
    pub chain: ChainView,
    pub bit: u8,
}

impl BitflagView {
    /// What `get` gives: whether the bit is set, or `None` where the byte
    /// cannot be reached.
    pub open spec fn get(self, memory: MemoryView) -> Option<bool> {
        match self.chain.read::<u8>(memory) {
            Some(byte) => Some(bit_is_set(byte, self.bit)),
            None => None,
        }
    }

    /// The memory after `set`, or `None` where the byte cannot be reached.
    pub open spec fn set(self, memory: MemoryView, on: bool) -> Option<MemoryView> {
        match self.chain.read::<u8>(memory) {
            Some(byte) => self.chain.write::<u8>(memory, with_bit(byte, self.bit, on)),
            None => None,
        }
    }
}

/// One bit of a byte of the target, found through a pointer chain.
#[derive(Debug)]
pub struct Bitflag {
    chain: PointerChain<u8>,
    bit: u8,
}

impl View for Bitflag {
    type V = BitflagView;

    closed spec fn view(&self) -> BitflagView {
        BitflagView { chain: self.chain@, bit: self.bit }
    }
}

impl Clone for Bitflag {
    fn clone(&self) -> (flag: Self)
        ensures
            flag@ == self@,
    {
        proof {
            use_type_invariant(self);
        }
        Bitflag { chain: self.chain.clone(), bit: self.bit }
    }
}

impl Bitflag {
    #[verifier::type_invariant]
    spec fn bit_in_byte(self) -> bool {
        self.bit < 8
    }

    /// The bit number `bit`, 0 to 7 from the least significant, of the byte
    /// that `chain` leads to.
    pub fn new(chain: PointerChain<u8>, bit: u8) -> (flag: Bitflag)
        requires
            bit < 8,
        ensures
            flag@ == (BitflagView { chain: chain@, bit }),
    {
        Bitflag { chain, bit }
    }

    pub fn chain(&self) -> (chain: &PointerChain<u8>)
        ensures
            chain@ == self@.chain,
    {
        &self.chain
    }

    pub fn bit(&self) -> (bit: u8)
        ensures
            bit == self@.bit,
            bit < 8,
    {
        proof {
            use_type_invariant(self);
        }
        self.bit
    }

    /// Whether the bit is set in `byte`.
    pub fn state_in(&self, byte: u8) -> (state: bool)
        ensures
            state == bit_is_set(byte, self@.bit),
    {
        proof {
            use_type_invariant(self);
        }
        byte & (1u8 << self.bit) != 0
    }

    /// `byte` with the bit set or cleared, and the seven other bits as they
    /// are.
    pub fn changed(&self, byte: u8, on: bool) -> (changed: u8)
        ensures
            changed == with_bit(byte, self@.bit, on),
    {
        proof {
            use_type_invariant(self);
        }
        if on {
            byte | (1u8 << self.bit)
        } else {
            byte & !(1u8 << self.bit)
        }
    }

    /// Reads the byte and tells whether the bit is set.
    pub fn get(&self, memory: &Memory) -> (state: Option<bool>)
        ensures
            state == self@.get(memory@),
    {
        match self.chain.read(memory) {
            Some(byte) => Some(self.state_in(byte)),
            None => None,
        }
    }

    /// Reads the byte, sets or clears the bit, and writes the byte back. Where
    /// the byte cannot be reached nothing is written and the result is `None`.
    pub fn set(&self, memory: &mut Memory, on: bool) -> (written: Option<()>)
        ensures
            match self@.set(old(memory)@, on) {
                Some(after) => written == Some(()) && final(memory)@ == after,
                None => written == None::<()> && final(memory)@ == old(memory)@,
            },
    {
        match self.chain.read(memory) {
            Some(byte) => self.chain.write(memory, self.changed(byte, on)),
            None => None,
        }
    }

    /// Writes the opposite of what the bit holds, and gives the new state.
    pub fn toggle(&self, memory: &mut Memory) -> (state: Option<bool>)
        ensures
            match self@.get(old(memory)@) {
                Some(before) => state == Some(!before) && Some(final(memory)@) == self@.set(
                    old(memory)@,
                    !before,
                ),
                None => state == None::<bool> && final(memory)@ == old(memory)@,
            },
    {
        match self.get(memory) {
            Some(before) => match self.set(memory, !before) {
                Some(_) => Some(!before),
                None => None,
            },
            None => None,
        }
    }
}

} // verus!
