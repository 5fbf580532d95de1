//! Driver for a DS18B20-style 1-Wire temperature sensor: device discovery
//! by the standard collision-resolving search, resolution configuration,
//! conversion start and temperature decode.
//!
//! The driver validates everything it reads — ROM codes against their
//! CRC-8, scratchpads against a zero CRC-8 — and is verified for every
//! possible answer of the bus, including a misbehaving one: a search pass
//! either ends, fails on an invalid bit pair, or narrows, so discovery
//! terminates on any line.

use vstd::array::array_as_slice;
use vstd::prelude::*;
use vstd::slice::slice_subrange;

use crate::bus::OneWireBus;
use crate::crc::crc8;
use crate::crc::crc8_spec;

verus! {

/// Bus command: start a device search pass.
pub const SEARCH_ROM: u8 = 0xF0;

/// Bus command: address one device by its ROM code.
pub const MATCH_ROM: u8 = 0x55;

/// Bus command: address every device at once.
pub const SKIP_ROM: u8 = 0xCC;

/// Bus command: write Th, Tl and the configuration register.
pub const WRITE_SCRATCHPAD: u8 = 0x4E;

/// Bus command: read the nine scratchpad bytes back.
pub const READ_SCRATCHPAD: u8 = 0xBE;

/// Bus command: start a temperature conversion.
pub const CONVERT_T: u8 = 0x44;

/// Resolution settings for temperature readings.
#[derive(Copy, Clone, PartialEq, Eq, Structural, Debug)]
pub enum Resolution {
    /// 0.5 degree steps, 93.75 ms conversion time.
    Bits9,
    /// 0.25 degree steps, 187.5 ms conversion time.
    Bits10,
    /// 0.125 degree steps, 375 ms conversion time.
    Bits11,
    /// 0.0625 degree steps, 750 ms conversion time.
    Bits12,
}

impl Resolution {
    /// The byte written to the configuration register for this resolution.
    pub open spec fn config_spec(self) -> u8 {
        match self {
            Resolution::Bits9 => 0x1F,
            Resolution::Bits10 => 0x3F,
            Resolution::Bits11 => 0x5F,
            Resolution::Bits12 => 0x7F,
        }
    }

    /// The byte written to the configuration register for this resolution.
    pub fn config_code(self) -> (r: u8)
        ensures
            r == self.config_spec(),
    {
        match self {
            Resolution::Bits9 => 0x1F,
            Resolution::Bits10 => 0x3F,
            Resolution::Bits11 => 0x5F,
            Resolution::Bits12 => 0x7F,
        }
    }
}

/// An 8-byte ROM code is valid when the CRC-8 of its first seven bytes
/// equals the eighth.
pub open spec fn rom_valid(rom: Seq<u8>) -> bool
    recommends
        rom.len() == 8,
{
    crc8_spec(rom.subrange(0, 7)) == rom[7]
}

/// What the standard search rule decides at one address bit, given the id
/// bit and its complement as read from the line.
///
/// (1,0): every active device holds 1.  (0,1): every active device holds
/// 0.  (1,1): no device answered — a bus protocol error, `None`.  (0,0):
/// devices disagree; the bit is resolved towards 1 exactly at the previous
/// pass's discrepancy, re-uses the previous pass's choice (`prev`) below
/// it, and goes to 0 above it, recording `pos` as the new discrepancy.
/// `Some((bit, record))` carries the chosen bit and whether `pos` becomes
/// the new discrepancy marker.
///
/// A zero branch re-used below the previous discrepancy is not recorded
/// again: each pass's new discrepancy lies strictly above the previous
/// one ([`lemma_search_discrepancy_strictly_rises`]), which bounds
/// discovery at 64 passes on any line whatsoever, at the price of never
/// returning to a zero branch below the previous discrepancy — device
/// sets that fork there are enumerated only in part.
pub open spec fn search_bit_spec(
    id_bit: bool,
    complement_bit: bool,
    pos: int,
    last_discrepancy: int,
    prev: bool,
) -> Option<(bool, bool)> {
    if id_bit && complement_bit {
        None
    } else if id_bit {
        Some((true, false))
    } else if complement_bit {
        Some((false, false))
    } else if pos == last_discrepancy {
        Some((true, false))
    } else if pos > last_discrepancy {
        Some((false, true))
    } else {
        Some((prev, false))
    }
}

/// Resolves one address bit of a search pass; `Err` is the bus protocol
/// error raised by an invalid (1,1) answer.
pub fn resolve_search_bit(
    id_bit: bool,
    complement_bit: bool,
    pos: usize,
    last_discrepancy: usize,
    prev: bool,
) -> (r: Result<(bool, bool), ()>)
    ensures
        match r {
            Ok(choice) => search_bit_spec(
                id_bit,
                complement_bit,
                pos as int,
                last_discrepancy as int,
                prev,
            ) == Some(choice),
            Err(_) => search_bit_spec(
                id_bit,
                complement_bit,
                pos as int,
                last_discrepancy as int,
                prev,
            ) is None,
        },
{
    if id_bit && complement_bit {
        Err(())
    } else if id_bit {
        Ok((true, false))
    } else if complement_bit {
        Ok((false, false))
    } else if pos == last_discrepancy {
        Ok((true, false))
    } else if pos > last_discrepancy {
        Ok((false, true))
    } else {
        Ok((prev, false))
    }
}

/// Law: device discovery cannot run forever, whatever the bus answers.
/// The bit rule records a new discrepancy only strictly above the
/// previous pass's, so the recorded positions rise strictly — and all lie
/// below 64 — until a pass records none and discovery ends.  The loop in
/// [`Ds18b20::search_for_roms`] carries the matching machine-checked
/// `decreases` measure, so even a line that answers (0,0) to every bit
/// yields a result after at most 64 passes.
pub proof fn lemma_search_discrepancy_strictly_rises(
    id_bit: bool,
    complement_bit: bool,
    pos: int,
    last_discrepancy: int,
    prev: bool,
)
    ensures
        match search_bit_spec(id_bit, complement_bit, pos, last_discrepancy, prev) {
            Some(choice) => choice.1 ==> pos > last_discrepancy,
            None => true,
        },
{
}

/// The raw reading held in a valid scratchpad: the first two bytes as a
/// signed little-endian 16-bit count of sixteenths of a degree Celsius.
pub open spec fn raw_temperature_spec(data: Seq<u8>) -> int
    recommends
        data.len() >= 2,
{
    let unsigned = data[0] + 0x100 * data[1];
    if unsigned >= 0x8000 {
        unsigned - 0x1_0000
    } else {
        unsigned
    }
}

/// Decodes a nine-byte scratchpad read: rejected as a checksum error
/// unless the CRC-8 of all nine bytes is 0; otherwise yields the
/// temperature in sixteenths of a degree Celsius.
pub fn temperature_from_scratchpad(data: &Vec<u8>) -> (r: Result<i32, ()>)
    requires
        data@.len() == 9,
    ensures
        match r {
            Ok(t) => crc8_spec(data@) == 0 && t as int == raw_temperature_spec(data@),
            Err(_) => crc8_spec(data@) != 0,
        },
{
    let crc = crc8(data.as_slice());
    if crc != 0 {
        return Err(());
    }
    let unsigned: u32 = (data[0] as u32) + 0x100 * (data[1] as u32);
    if unsigned >= 0x8000 {
        Ok((unsigned as i32) - 0x1_0000)
    } else {
        Ok(unsigned as i32)
    }
}

/// A scratchpad read back after configuration confirms the resolution
/// when its CRC-8 is 0 and the configuration byte's resolution bits match
/// what was written.
pub open spec fn scratchpad_confirms_spec(data: Seq<u8>, resolution: Resolution) -> bool {
    crc8_spec(data) == 0 && data[4] & 0x60 == resolution.config_spec() & 0x60
}

/// Executable form of [`scratchpad_confirms_spec`].
pub fn scratchpad_confirms_resolution(data: &Vec<u8>, resolution: Resolution) -> (r: bool)
    ensures
        data@.len() == 9 ==> r == scratchpad_confirms_spec(data@, resolution),
{
    let crc = crc8(data.as_slice());
    let code = resolution.config_code();
    crc == 0 && data.len() >= 5 && (data[4] & 0x60) == (code & 0x60)
}

/// The ASCII code of hex digit `n`, uppercase.
pub open spec fn hex_digit(n: u8) -> u8
    recommends
        n < 16,
{
    if n < 10 {
        (0x30 + n) as u8
    } else {
        (0x37 + n) as u8
    }
}

/// DS18B20 temperature sensor driver over an injected transport.
pub struct Ds18b20<B: OneWireBus> {
    wire: B,
}

impl<B: OneWireBus> Ds18b20<B> {
    /// Takes ownership of the transport.
    pub fn new(wire: B) -> Self {
        Ds18b20 { wire }
    }

    /// Discovers the ROM codes of the devices on the bus, at most eight.
    ///
    /// Repeats full search passes, each resolving all 64 address bits by
    /// [`search_bit_spec`] and writing each chosen bit back so only
    /// agreeing devices stay active, until a pass records no new
    /// discrepancy or the cap is reached.  Every returned code validated
    /// against its CRC-8; the codes fill a prefix of the result.  `Err` is
    /// the bus protocol error: some address bit got the invalid (1,1)
    /// answer, aborting the discovery.
    ///
    /// Because a pass records only discrepancies above the previous one
    /// (see [`search_bit_spec`] on what that trades away), discovery ends
    /// within 64 passes on any line, and within one pass per device on
    /// sets whose discrepancies form a rising chain.
    pub fn search_for_roms(&mut self) -> (r: Result<[Option<[u8; 8]>; 8], ()>)
        ensures
            match r {
                Ok(devices) => {
                    &&& forall|k: int|
                        #![trigger devices@[k]]
                        0 <= k < 8 ==> match devices@[k] {
                            Some(rom) => rom_valid(rom@),
                            None => true,
                        }
                    &&& forall|k1: int, k2: int|
                        0 <= k1 < k2 < 8 && #[trigger] devices@[k2] is Some
                            ==> #[trigger] devices@[k1] is Some
                },
                Err(_) => true,
            },
    {
        let mut devices: [Option<[u8; 8]>; 8] = [None, None, None, None, None, None, None, None];
        let mut device_count: usize = 0;
        let mut last_discrepancy: usize = 0;
        let mut rom_bits: [bool; 64] = [false; 64];

        loop
            invariant_except_break
                device_count < 8,
            invariant
                device_count <= 8,
                last_discrepancy < 64,
                forall|k: int|
                    #![trigger devices@[k]]
                    0 <= k < device_count ==> match devices@[k] {
                        Some(rom) => rom_valid(rom@),
                        None => false,
                    },
                forall|k: int| #![trigger devices@[k]] device_count <= k < 8 ==> devices@[k] is None,
            ensures
                device_count <= 8,
                forall|k: int|
                    #![trigger devices@[k]]
                    0 <= k < device_count ==> match devices@[k] {
                        Some(rom) => rom_valid(rom@),
                        None => false,
                    },
                forall|k: int| #![trigger devices@[k]] device_count <= k < 8 ==> devices@[k] is None,
            decreases 64 - last_discrepancy,
        {
            let mut current_rom: [u8; 8] = [0, 0, 0, 0, 0, 0, 0, 0];
            let mut discrepancy_marker: usize = 0;

            // Start a search pass.
            self.wire.write_bytes(array_as_slice(&[SEARCH_ROM]));

            // Resolve all 64 address bits.
            let mut current_bit: usize = 0;
            while current_bit < 64
                invariant
                    current_bit <= 64,
                    last_discrepancy < 64,
                    discrepancy_marker == 0 || last_discrepancy < discrepancy_marker < 64,
                decreases 64 - current_bit,
            {
                let id_buffer = self.wire.read_bytes(1);
                let id_bit = (id_buffer[0] & 0x01) != 0;
                let complement_buffer = self.wire.read_bytes(1);
                let complement_bit = (complement_buffer[0] & 0x01) != 0;

                match resolve_search_bit(
                    id_bit,
                    complement_bit,
                    current_bit,
                    last_discrepancy,
                    rom_bits[current_bit],
                ) {
                    Ok((chosen, record)) => {
                        rom_bits[current_bit] = chosen;
                        if record {
                            discrepancy_marker = current_bit;
                        }
                    },
                    Err(_) => {
                        return Err(());
                    },
                }

                // Write the chosen bit back so only agreeing devices stay
                // active for the rest of the pass.
                let write_bit: u8 = if rom_bits[current_bit] {
                    1
                } else {
                    0
                };
                self.wire.write_bytes(array_as_slice(&[write_bit]));

                if rom_bits[current_bit] {
                    let byte: usize = current_bit / 8;
                    let bit: usize = current_bit % 8;
                    current_rom[byte] = current_rom[byte] | (1u8 << bit);
                }

                current_bit = current_bit + 1;
            }

            // Keep the code only when its checksum validates.
            let crc = crc8(slice_subrange(array_as_slice(&current_rom), 0, 7));
            if crc == current_rom[7] {
                devices[device_count] = Some(current_rom);
                device_count = device_count + 1;
            }

            last_discrepancy = discrepancy_marker;
            if last_discrepancy == 0 || device_count >= 8 {
                break ;
            }
        }

        Ok(devices)
    }

    /// Configures the resolution of one addressed device (Th = 0, Tl = 0)
    /// and reads the scratchpad back; `Err` is the
    /// configuration-verification error: the read-back did not confirm the
    /// write.  Beside the result stands the nine-byte read-back as a ghost
    /// witness, so the contract can say what was verified: the call
    /// succeeds exactly when that read-back confirms the resolution
    /// ([`scratchpad_confirms_spec`]: its CRC-8 is 0 and its configuration
    /// byte carries the resolution written).
    pub fn set_resolution_with_rom(&mut self, rom: &[u8; 8], resolution: Resolution) -> (r: (
        Result<(), ()>,
        Ghost<Seq<u8>>,
    ))
        ensures
            r.1@.len() == 9,
            r.0 is Ok <==> scratchpad_confirms_spec(r.1@, resolution),
    {
        self.wire.write_bytes(array_as_slice(&[MATCH_ROM]));
        self.wire.write_bytes(array_as_slice(rom));

        self.wire.write_bytes(array_as_slice(&[WRITE_SCRATCHPAD]));
        self.wire.write_bytes(array_as_slice(&[0x00]));  // Th register
        self.wire.write_bytes(array_as_slice(&[0x00]));  // Tl register
        self.wire.write_bytes(array_as_slice(&[resolution.config_code()]));

        self.wire.write_bytes(array_as_slice(&[READ_SCRATCHPAD]));
        let data = self.wire.read_bytes(9);
        let result: Result<(), ()> = if scratchpad_confirms_resolution(&data, resolution) {
            Ok(())
        } else {
            Err(())
        };
        (result, Ghost(data@))
    }

    /// Configures the resolution of every device at once (Th = 0, Tl = 0);
    /// a broadcast write has no read-back, so it always succeeds.
    pub fn set_resolution(&mut self, resolution: Resolution) -> (r: Result<(), ()>)
        ensures
            r is Ok,
    {
        self.wire.write_bytes(array_as_slice(&[SKIP_ROM]));

        self.wire.write_bytes(array_as_slice(&[WRITE_SCRATCHPAD]));
        self.wire.write_bytes(array_as_slice(&[0x00]));  // Th register
        self.wire.write_bytes(array_as_slice(&[0x00]));  // Tl register
        self.wire.write_bytes(array_as_slice(&[resolution.config_code()]));

        Ok(())
    }

    /// Formats a ROM code as 16 uppercase hex characters.
    pub fn format_rom(rom: &[u8; 8]) -> (r: [u8; 16])
        ensures
            forall|k: int|
                #![trigger rom@[k]]
                0 <= k < 8 ==> r@[2 * k] == hex_digit(rom@[k] >> 4) && r@[2 * k + 1] == hex_digit(
                    rom@[k] & 0x0F,
                ),
    {
        let mut hex: [u8; 16] = [0, 0, 0, 0, 0, 0, 0, 0, 0, 0, 0, 0, 0, 0, 0, 0];
        let mut i: usize = 0;
        while i < 8
            invariant
                i <= 8,
                forall|k: int|
                    #![trigger rom@[k]]
                    0 <= k < i ==> hex@[2 * k] == hex_digit(rom@[k] >> 4) && hex@[2 * k + 1]
                        == hex_digit(rom@[k] & 0x0F),
            decreases 8 - i,
        {
            let byte = rom[i];
            let hi = byte >> 4;
            let lo = byte & 0x0F;
            proof {
                assert(byte >> 4 < 16 && byte & 0x0F < 16) by (bit_vector);
            }
            hex[2 * i] = if hi < 10 {
                0x30 + hi
            } else {
                0x37 + hi
            };
            hex[2 * i + 1] = if lo < 10 {
                0x30 + lo
            } else {
                0x37 + lo
            };
            i = i + 1;
        }
        hex
    }

    /// Starts a measurement on one addressed device.  Allow the
    /// resolution's conversion time before reading the temperature.
    pub fn start_with_rom(&mut self, rom: &[u8; 8]) {
        self.wire.write_bytes(array_as_slice(&[MATCH_ROM]));
        self.wire.write_bytes(array_as_slice(rom));
        self.wire.write_bytes(array_as_slice(&[CONVERT_T]));
    }

    /// Starts a measurement on every device at once.  Allow the
    /// resolution's conversion time before reading the temperature.
    pub fn start(&mut self) {
        let command: [u8; 2] = [SKIP_ROM, CONVERT_T];
        self.wire.write_bytes(array_as_slice(&command));
    }

    /// Reads the temperature of one addressed device, in sixteenths of a
    /// degree Celsius; `Err` is the checksum error: the scratchpad read
    /// did not validate (see [`temperature_from_scratchpad`]).
    pub fn temperature_with_rom(&mut self, rom: &[u8; 8]) -> (r: Result<i32, ()>)
        ensures
            r matches Ok(t) ==> -0x8000 <= t < 0x8000,
    {
        self.wire.write_bytes(array_as_slice(&[MATCH_ROM]));
        self.wire.write_bytes(array_as_slice(rom));
        self.wire.write_bytes(array_as_slice(&[READ_SCRATCHPAD]));
        let data = self.wire.read_bytes(9);
        temperature_from_scratchpad(&data)
    }

    /// Reads the temperature over a broadcast (valid with one device on
    /// the bus), in sixteenths of a degree Celsius; `Err` is the checksum
    /// error: the scratchpad read did not validate (see
    /// [`temperature_from_scratchpad`]).
    pub fn temperature(&mut self) -> (r: Result<i32, ()>)
        ensures
            r matches Ok(t) ==> -0x8000 <= t < 0x8000,
    {
        let command: [u8; 2] = [SKIP_ROM, READ_SCRATCHPAD];
        self.wire.write_bytes(array_as_slice(&command));
        let data = self.wire.read_bytes(9);
        temperature_from_scratchpad(&data)
    }
}

} // verus!
