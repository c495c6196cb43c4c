use vstd::prelude::*;

verus! {

/// The 16-bit value whose high byte is `high` and whose low byte is `low`.
pub open spec fn word(high: u8, low: u8) -> u16 {
    (high * 256 + low) as u16
}

/// The high byte of a 16-bit value.
pub open spec fn high_byte(value: u16) -> u8 {
    (value / 256) as u8
}

/// The low byte of a 16-bit value.
pub open spec fn low_byte(value: u16) -> u8 {
    (value % 256) as u8
}

/// Shifting and masking split a 16-bit value at its byte boundary.
pub proof fn lemma_split_word(value: u16)
    ensures
        (value & 0xFF00) >> 8 == high_byte(value),
        value & 0xFF == low_byte(value),
        value >> 8 == high_byte(value),
{
    assert((value & 0xFF00) >> 8 == value / 256 && value & 0xFF == value % 256 && value >> 8
        == value / 256) by (bit_vector);
}

/// Shifting and or-ing two bytes together gives the word made of them.
pub proof fn lemma_join_bytes(high: u8, low: u8)
    ensures
        (high as u16) << 8 | (low as u16) == word(high, low),
{
    let h = high as u16;
    let l = low as u16;
    assert(h < 256 && l < 256 ==> (h << 8 | l) == h * 256 + l) by (bit_vector);
}

/// A word is made of its own two bytes, and the bytes of a made word are the
/// bytes it was made of.
pub proof fn lemma_word_bytes(high: u8, low: u8, value: u16)
    ensures
        high_byte(word(high, low)) == high,
        low_byte(word(high, low)) == low,
        word(high_byte(value), low_byte(value)) == value,
{
}

/// The four condition flags of the processor.
#[derive(Clone, Copy, Debug, PartialEq, Eq, Structural)]
pub struct FlagsRegister {
    pub zero: bool,
    pub subtract: bool,
    pub half_carry: bool,
    pub carry: bool,
}

impl FlagsRegister {
    /// The canonical byte of a flags value: bit 7 is `zero`, bit 6 `subtract`,
    /// bit 5 `half_carry`, bit 4 `carry`; bits 3 to 0 are clear.
    pub open spec fn packed(self) -> u8 {
        ((if self.zero { 128int } else { 0 })
            + (if self.subtract { 64int } else { 0 })
            + (if self.half_carry { 32int } else { 0 })
            + (if self.carry { 16int } else { 0 })) as u8
    }

    /// The flags held in bits 7 to 4 of `byte`; bits 3 to 0 are ignored.
    pub open spec fn unpacked(byte: u8) -> FlagsRegister {
        FlagsRegister {
            zero: (byte / 128) % 2 == 1,
            subtract: (byte / 64) % 2 == 1,
            half_carry: (byte / 32) % 2 == 1,
            carry: (byte / 16) % 2 == 1,
        }
    }

    /// Packing never sets the low nibble, unpacking gives back what was
    /// packed, and packing what was unpacked clears the low nibble of the
    /// byte and keeps the rest.
    pub proof fn lemma_pack_unpack(self, byte: u8)
        ensures
            self.packed() % 16 == 0,
            Self::unpacked(self.packed()) == self,
            Self::unpacked(byte).packed() == byte - byte % 16,
            Self::unpacked((byte - byte % 16) as u8) == Self::unpacked(byte),
    {
    }
}

impl From<FlagsRegister> for u8 {
    fn from(flag: FlagsRegister) -> (byte: u8) {
        let z: u8 = if flag.zero { 1 } else { 0 };
        let n: u8 = if flag.subtract { 1 } else { 0 };
        let h: u8 = if flag.half_carry { 1 } else { 0 };
        let c: u8 = if flag.carry { 1 } else { 0 };
        assert(z <= 1 && n <= 1 && h <= 1 && c <= 1 ==> (z << 7 | n << 6 | h << 5 | c << 4) == z
            * 128 + n * 64 + h * 32 + c * 16) by (bit_vector);
        z << 7 | n << 6 | h << 5 | c << 4
    }
}

impl vstd::std_specs::convert::FromSpecImpl<FlagsRegister> for u8 {
    open spec fn obeys_from_spec() -> bool {
        true
    }

    open spec fn from_spec(flag: FlagsRegister) -> u8 {
        flag.packed()
    }
}

impl From<u8> for FlagsRegister {
    fn from(byte: u8) -> (flag: FlagsRegister) {
        assert(((byte >> 7) & 1 != 0) == ((byte / 128) % 2 == 1) && ((byte >> 6) & 1 != 0) == ((byte
            / 64) % 2 == 1) && ((byte >> 5) & 1 != 0) == ((byte / 32) % 2 == 1) && ((byte >> 4) & 1
            != 0) == ((byte / 16) % 2 == 1)) by (bit_vector);
        let zero = ((byte >> 7) & 1) != 0;
        let subtract = ((byte >> 6) & 1) != 0;
        let half_carry = ((byte >> 5) & 1) != 0;
        let carry = ((byte >> 4) & 1) != 0;
        FlagsRegister { zero, subtract, half_carry, carry }
    }
}

impl vstd::std_specs::convert::FromSpecImpl<u8> for FlagsRegister {
    open spec fn obeys_from_spec() -> bool {
        true
    }

    open spec fn from_spec(byte: u8) -> FlagsRegister {
        FlagsRegister::unpacked(byte)
    }
}

/// The register file: seven 8-bit registers and the flags. The 16-bit pairs
/// AF, BC, DE and HL are read from and written to these same bytes.
#[derive(Clone, Copy, Debug, PartialEq, Eq, Structural)]
pub struct Registers {
    pub a: u8,
    pub b: u8,
    pub c: u8,
    pub d: u8,
    pub e: u8,
    pub f: FlagsRegister,
    pub h: u8,
    pub l: u8,
}

impl Registers {
    /// The pair AF: `a` above the packed flags.
    pub open spec fn af(self) -> u16 {
        word(self.a, self.f.packed())
    }

    /// The pair BC: `b` above `c`.
    pub open spec fn bc(self) -> u16 {
        word(self.b, self.c)
    }

    /// The pair DE: `d` above `e`.
    pub open spec fn de(self) -> u16 {
        word(self.d, self.e)
    }

    /// The pair HL: `h` above `l`.
    pub open spec fn hl(self) -> u16 {
        word(self.h, self.l)
    }

    /// These registers with AF set to `value`: `a` takes the high byte, the
    /// flags are unpacked from the low byte.
    pub open spec fn with_af(self, value: u16) -> Registers {
        Registers { a: high_byte(value), f: FlagsRegister::unpacked(low_byte(value)), ..self }
    }

    /// These registers with BC set to `value`.
    pub open spec fn with_bc(self, value: u16) -> Registers {
        Registers { b: high_byte(value), c: low_byte(value), ..self }
    }

    /// These registers with DE set to `value`.
    pub open spec fn with_de(self, value: u16) -> Registers {
        Registers { d: high_byte(value), e: low_byte(value), ..self }
    }

    /// These registers with HL set to `value`.
    pub open spec fn with_hl(self, value: u16) -> Registers {
        Registers { h: high_byte(value), l: low_byte(value), ..self }
    }

    pub fn get_af(&self) -> (value: u16)
        ensures
            value == self.af(),
    {
        Self::get_dr(self.a, u8::from(self.f))
    }

    pub fn get_bc(&self) -> (value: u16)
        ensures
            value == self.bc(),
    {
        Self::get_dr(self.b, self.c)
    }

    pub fn get_de(&self) -> (value: u16)
        ensures
            value == self.de(),
    {
        Self::get_dr(self.d, self.e)
    }

    pub fn get_hl(&self) -> (value: u16)
        ensures
            value == self.hl(),
    {
        Self::get_dr(self.h, self.l)
    }

    pub fn set_af(&mut self, val: u16)
        ensures
            *final(self) == old(self).with_af(val),
    {
        proof {
            lemma_split_word(val);
        }
        self.a = ((val & 0xFF00) >> 8) as u8;
        self.f = FlagsRegister::from((val & 0xFF) as u8);
    }

    pub fn set_bc(&mut self, val: u16)
        ensures
            *final(self) == old(self).with_bc(val),
    {
        proof {
            lemma_split_word(val);
        }
        self.b = ((val & 0xFF00) >> 8) as u8;
        self.c = (val & 0xFF) as u8;
    }

    pub fn set_de(&mut self, val: u16)
        ensures
            *final(self) == old(self).with_de(val),
    {
        proof {
            lemma_split_word(val);
        }
        self.d = ((val & 0xFF00) >> 8) as u8;
        self.e = (val & 0xFF) as u8;
    }

    pub fn set_hl(&mut self, val: u16)
        ensures
            *final(self) == old(self).with_hl(val),
    {
        proof {
            lemma_split_word(val);
        }
        self.h = ((val & 0xFF00) >> 8) as u8;
        self.l = (val & 0xFF) as u8;
    }

    /// Joins two bytes into the 16-bit value with `first` as its high byte.
    pub fn get_dr(first: u8, sec: u8) -> (value: u16)
        ensures
            value == word(first, sec),
    {
        proof {
            lemma_join_bytes(first, sec);
        }
        (first as u16) << 8 | sec as u16
    }

    /// Writing BC, DE or HL and reading it back gives the value written, and
    /// writing back what was read changes nothing.
    pub proof fn lemma_pair_round_trip(self, value: u16)
        ensures
            self.with_bc(value).bc() == value,
            self.with_de(value).de() == value,
            self.with_hl(value).hl() == value,
            self.with_bc(self.bc()) == self,
            self.with_de(self.de()) == self,
            self.with_hl(self.hl()) == self,
    {
    }

    /// Reading AF after writing it gives the value written with its low
    /// nibble cleared: exactly the value written where that nibble is clear.
    /// Writing back what was read changes nothing.
    pub proof fn lemma_af_round_trip(self, value: u16)
        ensures
            self.with_af(value).af() == value - value % 16,
            value % 16 == 0 ==> self.with_af(value).af() == value,
            self.with_af(self.af()) == self,
    {
        self.f.lemma_pack_unpack(low_byte(value));
    }
}

} // verus!
