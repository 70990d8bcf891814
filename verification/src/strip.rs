//! Bit-level encoder for the addressable five-channel LED chain.
//!
//! Each channel byte becomes eight bus symbols on a 3.2 MHz synchronous
//! serial line: a logical 1 bit is the long-high symbol `T1H`, a logical
//! 0 bit the short-high symbol `T0H`.  A frame holds `ic_count` blocks
//! of five channels in the fixed wiring order Green, Red, Blue, Warm
//! White, Cool White.  Writing the frame to the bus and holding the
//! inter-frame reset delay is hardware work that happens outside this
//! crate, on the bytes this encoder lays out.

use vstd::prelude::*;
use crate::models::RGBWW;

verus! {

/// Bus symbol for a logical 0 bit (~312.5 ns high).
pub const T0H: u8 = 0b1000_0000;

/// Bus symbol for a logical 1 bit (~625 ns high).
pub const T1H: u8 = 0b1100_0000;

/// Channels driven by one IC of the chain.
pub const CHANNELS_PER_IC: usize = 5;

/// Bus symbols per channel byte.
pub const BITS_PER_CHANNEL: usize = 8;

/// Whether bit `i` of `byte` is set, counting from the most significant
/// bit, which is transmitted first.
pub open spec fn bit_of(byte: u8, i: int) -> bool {
    (byte >> ((7 - i) as u8)) & 1 == 1
}

/// The bus symbol encoding bit `i` of `byte`.
pub open spec fn symbol_for(byte: u8, i: int) -> u8 {
    if bit_of(byte, i) {
        T1H
    } else {
        T0H
    }
}

/// The frame position of bit `t` of channel `s` of IC `ic`.
pub open spec fn frame_index(ic: int, s: int, t: int) -> int {
    ic * 40 + s * 8 + t
}

/// The channel byte of `color` at `slot`, in the fixed wiring order
/// Green, Red, Blue, Warm White, Cool White.
pub open spec fn channel_of(color: RGBWW, slot: int) -> u8 {
    if slot == 0 {
        color.g
    } else if slot == 1 {
        color.r
    } else if slot == 2 {
        color.b
    } else if slot == 3 {
        color.ww
    } else {
        color.cw
    }
}

/// Encodes a channel byte as its eight bus symbols, most significant
/// bit first.
pub fn convert_byte(byte: u8) -> (out: Vec<u8>)
    ensures
        out@.len() == 8,
        forall|i: int| 0 <= i < 8 ==> out@[i] == symbol_for(byte, i),
{
    let mut out: Vec<u8> = Vec::new();
    let mut i: usize = 0;
    while i < 8
        invariant
            i <= 8,
            out@.len() == i,
            forall|j: int| 0 <= j < i ==> out@[j] == symbol_for(byte, j),
        decreases 8 - i,
    {
        let ii = i as u8;
        let sym = if byte & (0x80u8 >> ii) != 0 {
            T1H
        } else {
            T0H
        };
        proof {
            assert((byte & (0x80u8 >> ii) != 0) == ((byte >> ((7 - ii) as u8)) & 1 == 1))
                by (bit_vector)
                requires
                    ii < 8,
            ;
            assert((7 - i as int) as u8 == (7 - ii) as u8);
        }
        out.push(sym);
        i = i + 1;
    }
    out
}

/// The symbol frame for a chain of addressable LED ICs.
pub struct LEDStrip {
    buffer: Vec<u8>,
    ic_count: usize,
}

impl LEDStrip {
    /// The frame is always exactly `ic_count * 40` symbol bytes long.
    pub closed spec fn wf(&self) -> bool {
        self.buffer@.len() == self.ic_count * 40
    }

    /// The symbol bytes that a transmit would put on the bus.
    pub closed spec fn frame(&self) -> Seq<u8> {
        self.buffer@
    }

    /// The number of ICs in the chain.
    pub closed spec fn spec_ic_count(&self) -> int {
        self.ic_count as int
    }

    /// Allocates the frame for a chain of `ic_count` ICs, all symbols
    /// initially zero.
    pub fn new(ic_count: usize) -> (strip: LEDStrip)
        requires
            ic_count * 40 <= usize::MAX,
        ensures
            strip.wf(),
            strip.spec_ic_count() == ic_count,
            strip.frame().len() == ic_count * 40,
            forall|j: int| 0 <= j < strip.frame().len() ==> strip.frame()[j] == 0u8,
    {
        let total: usize = ic_count * 40;
        let mut buffer: Vec<u8> = Vec::new();
        while buffer.len() < total
            invariant
                buffer@.len() <= total,
                forall|j: int| 0 <= j < buffer@.len() ==> buffer@[j] == 0u8,
            decreases total - buffer@.len(),
        {
            buffer.push(0u8);
        }
        LEDStrip { buffer, ic_count }
    }

    /// The number of ICs in the chain.
    pub fn ic_count(&self) -> (n: usize)
        ensures
            n == self.spec_ic_count(),
    {
        self.ic_count
    }

    /// The encoded frame, for the transmit path to write to the bus.
    pub fn frame_bytes(&self) -> (bytes: &Vec<u8>)
        ensures
            bytes@ == self.frame(),
    {
        &self.buffer
    }

    /// Writes the eight symbols of one channel byte at `channel_slot` of
    /// IC `ic_index`.  An out-of-range `ic_index` leaves the frame
    /// unchanged.
    pub fn set_channel(&mut self, ic_index: usize, channel_slot: usize, value: u8)
        requires
            old(self).wf(),
            channel_slot < 5,
        ensures
            final(self).wf(),
            final(self).spec_ic_count() == old(self).spec_ic_count(),
            final(self).frame().len() == old(self).frame().len(),
            ic_index >= old(self).spec_ic_count() ==> final(self).frame() == old(self).frame(),
            ic_index < old(self).spec_ic_count() ==> {
                &&& forall|t: int|
                    0 <= t < 8 ==> final(self).frame()[ic_index * 40 + channel_slot * 8 + t]
                        == symbol_for(value, t)
                &&& forall|j: int|
                    0 <= j < final(self).frame().len()
                        && !(ic_index * 40 + channel_slot * 8 <= j < ic_index * 40 + channel_slot * 8 + 8)
                        ==> final(self).frame()[j] == old(self).frame()[j]
            },
    {
        if ic_index >= self.ic_count {
            return ;
        }
        let len = self.buffer.len();
        proof {
            assert(ic_index * 40 + channel_slot * 8 + 8 <= len);
        }
        let start: usize = ic_index * 40 + channel_slot * 8;
        let symbols = convert_byte(value);
        let mut t: usize = 0;
        while t < 8
            invariant
                t <= 8,
                self.ic_count == old(self).ic_count,
                ic_index < self.ic_count,
                channel_slot < 5,
                start == ic_index * 40 + channel_slot * 8,
                self.buffer@.len() == old(self).buffer@.len() == self.ic_count * 40,
                symbols@.len() == 8,
                forall|i: int| 0 <= i < 8 ==> symbols@[i] == symbol_for(value, i),
                forall|u: int| 0 <= u < t ==> self.buffer@[start + u] == symbol_for(value, u),
                forall|j: int|
                    0 <= j < self.buffer@.len() && !(start <= j < start + t)
                        ==> self.buffer@[j] == old(self).buffer@[j],
            decreases 8 - t,
        {
            let sym = symbols[t];
            self.buffer[start + t] = sym;
            t = t + 1;
        }
    }

    /// Writes all five channels of `color` for IC `ic_index`, in the
    /// fixed wiring order.  An out-of-range index leaves the frame
    /// unchanged.
    pub fn set_ic(&mut self, ic_index: usize, color: RGBWW)
        requires
            old(self).wf(),
        ensures
            final(self).wf(),
            final(self).spec_ic_count() == old(self).spec_ic_count(),
            final(self).frame().len() == old(self).frame().len(),
            ic_index >= old(self).spec_ic_count() ==> final(self).frame() == old(self).frame(),
            ic_index < old(self).spec_ic_count() ==> {
                &&& forall|s: int, t: int|
                    0 <= s < 5 && 0 <= t < 8 ==> final(self).frame()[ic_index * 40 + s * 8 + t]
                        == symbol_for(channel_of(color, s), t)
                &&& forall|j: int|
                    0 <= j < final(self).frame().len() && !(ic_index * 40 <= j < ic_index * 40 + 40)
                        ==> final(self).frame()[j] == old(self).frame()[j]
            },
    {
        if ic_index >= self.ic_count {
            return ;
        }
        self.set_channel(ic_index, 0, color.g);
        self.set_channel(ic_index, 1, color.r);
        self.set_channel(ic_index, 2, color.b);
        self.set_channel(ic_index, 3, color.ww);
        self.set_channel(ic_index, 4, color.cw);
    }

    /// Fans `color` out to every IC of the chain.
    pub fn set_all(&mut self, color: RGBWW)
        requires
            old(self).wf(),
        ensures
            final(self).wf(),
            final(self).spec_ic_count() == old(self).spec_ic_count(),
            final(self).frame().len() == old(self).frame().len(),
            forall|ic: int, s: int, t: int|
                0 <= ic < final(self).spec_ic_count() && 0 <= s < 5 && 0 <= t < 8
                    ==> final(self).frame()[#[trigger] frame_index(ic, s, t)]
                        == symbol_for(channel_of(color, s), t),
    {
        let count = self.ic_count;
        let mut ic: usize = 0;
        while ic < count
            invariant
                ic <= count,
                count == self.ic_count,
                self.wf(),
                self.ic_count == old(self).ic_count,
                forall|i: int, s: int, t: int|
                    0 <= i < ic && 0 <= s < 5 && 0 <= t < 8
                        ==> self.frame()[#[trigger] frame_index(i, s, t)]
                            == symbol_for(channel_of(color, s), t),
            decreases count - ic,
        {
            self.set_ic(ic, color);
            ic = ic + 1;
        }
    }
}

} // verus!
