//! The configuration protocol: the transactions on the TAP that read the
//! device DNA and the status register, restart the device, and load a
//! bitstream, and the checks on the status that decide how programming goes on.
//!
//! The library only decides. A caller performs each [`Step`] on the TAP, in
//! order, and hands back what the data register reads returned.
use vstd::prelude::*;
use crate::bits::{
    bit8, bit_at, is_msb_first_word, msb_first, msb_first_bits, word_from_msb_first,
};
use crate::command::Command;
use crate::status::Status;

verus! {

/// Errors of the configuration protocol.
#[derive(Copy, Clone, Debug, PartialEq, Eq, Structural)]
pub enum Error {
    /// The status register was not in the state that the operation requires.
    BadStatus,
    /// The operation needs the device to be the only TAP in the chain.
    NotOnlyTAP,
    /// A bitstream was built for a device other than the one detected.
    IncompatibleIdcode { bitstream: u32, jtag: u32 },
    /// The bitstream could not be parsed to remove its IDCODE check.
    RemoveIdcodeNoMetadata,
}

/// Cycles in Run-Test/Idle after a reset, before the status register is read.
pub const STATUS_SETTLE_CYCLES: usize = 5;

/// Time the device needs to clear its configuration memory after JPROGRAM,
/// in milliseconds.
pub const CLEAR_DELAY_MS: u64 = 20;

/// Cycles in Run-Test/Idle for the startup sequence.
pub const STARTUP_CYCLES: usize = 2000;

/// Length of the device DNA, in bits.
pub const DNA_BITS: usize = 64;

/// Length of the status register, in bits.
pub const STATUS_BITS: usize = 32;

/// One transaction on the TAP.
pub enum Step {
    /// Enter Test-Logic-Reset.
    Reset,
    /// Stay in Run-Test/Idle for this many clock cycles.
    Idle(usize),
    /// Shift these bits into the instruction register.
    WriteIr(Vec<bool>),
    /// Shift these bits into the data register.
    WriteDr(Vec<bool>),
    /// Shift these bits into the data register, reporting progress.
    WriteDrProgress(Vec<bool>),
    /// Read this many bits of the data register.
    ReadDr(usize),
    /// Wait this many milliseconds, with no traffic on the TAP.
    SleepMs(u64),
}

/// A [`Step`], with its bits as a sequence.
pub enum StepSpec {
    Reset,
    Idle(usize),
    WriteIr(Seq<bool>),
    WriteDr(Seq<bool>),
    WriteDrProgress(Seq<bool>),
    ReadDr(usize),
    SleepMs(u64),
}

impl View for Step {
    type V = StepSpec;

    open spec fn view(&self) -> StepSpec {
        match self {
            Step::Reset => StepSpec::Reset,
            Step::Idle(n) => StepSpec::Idle(*n),
            Step::WriteIr(b) => StepSpec::WriteIr(b@),
            Step::WriteDr(b) => StepSpec::WriteDr(b@),
            Step::WriteDrProgress(b) => StepSpec::WriteDrProgress(b@),
            Step::ReadDr(n) => StepSpec::ReadDr(*n),
            Step::SleepMs(ms) => StepSpec::SleepMs(*ms),
        }
    }
}

/// The steps of `s`, with their bits as sequences.
pub open spec fn steps_view(s: Seq<Step>) -> Seq<StepSpec> {
    s.map_values(|x: Step| x@)
}

/// Loading instruction `c` into the instruction register.
pub open spec fn load_ir(c: Command) -> StepSpec {
    StepSpec::WriteIr(c.spec_bits())
}

/// Word `k` of the request that makes the device put its status register
/// on CFG_OUT: the synchronisation word, then a no-op, a read of one word of
/// the status register, and two no-ops.
pub open spec fn status_request_word(k: int) -> u32 {
    if k == 0 {
        0xAA99_5566u32
    } else if k == 2 {
        0x2800_E001u32
    } else {
        0x2000_0000u32
    }
}

/// The bits of the five request words, each most significant bit first.
pub open spec fn status_request_bits() -> Seq<bool> {
    Seq::new(160, |t: int| bit_at(status_request_word(t / 32), (31 - t % 32) as u32))
}

/// Reading the status register.
pub open spec fn status_read_steps() -> Seq<StepSpec> {
    seq![
        StepSpec::Reset,
        StepSpec::Idle(5),
        load_ir(Command::CFG_IN),
        StepSpec::WriteDr(status_request_bits()),
        load_ir(Command::CFG_OUT),
        StepSpec::ReadDr(32),
        StepSpec::Reset,
    ]
}

/// Reading the device DNA.
pub open spec fn dna_read_steps() -> Seq<StepSpec> {
    seq![load_ir(Command::FUSE_DNA), StepSpec::ReadDr(64)]
}

/// Making the device reload the configuration it holds.
pub open spec fn restart_steps() -> Seq<StepSpec> {
    seq![load_ir(Command::JPROGRAM), StepSpec::Idle(2000), StepSpec::Reset]
}

/// Clearing the device, shifting in the bitstream `data` and starting it.
pub open spec fn load_steps_spec(data: Seq<u8>) -> Seq<StepSpec> {
    seq![
        StepSpec::Reset,
        load_ir(Command::JPROGRAM),
        StepSpec::Idle(1),
        StepSpec::SleepMs(20),
        StepSpec::Reset,
        load_ir(Command::CFG_IN),
        StepSpec::WriteDrProgress(msb_first_bits(data)),
        StepSpec::Idle(1),
        load_ir(Command::JSTART),
        StepSpec::Idle(2000),
        StepSpec::Reset,
    ]
}

/// The status word that a read of `bits` carries.
pub open spec fn word_read(bits: Seq<bool>) -> u32 {
    choose|w: u32| is_msb_first_word(w, bits)
}

/// The device is ready to be programmed: INIT complete and INIT_B high.
pub open spec fn is_ready(w: u32) -> bool {
    bit_at(w, 11) && bit_at(w, 12)
}

/// The device took its configuration: INIT complete, INIT_B high, DONE high,
/// DONE released, and no decrypt, ID or CRC error.
pub open spec fn is_programmed_ok(w: u32) -> bool {
    &&& bit_at(w, 11)
    &&& bit_at(w, 12)
    &&& bit_at(w, 14)
    &&& bit_at(w, 13)
    &&& !bit_at(w, 16)
    &&& !bit_at(w, 15)
    &&& !bit_at(w, 0)
}

/// Two words with the same 32 bits are equal.
proof fn lemma_word_from_bits(x: u32, y: u32)
    requires
        forall|p: u32| p < 32 ==> #[trigger] bit_at(x, p) == bit_at(y, p),
    ensures
        x == y,
{
    assert(bit_at(x, 0) == bit_at(y, 0));
    assert(bit_at(x, 1) == bit_at(y, 1));
    assert(bit_at(x, 2) == bit_at(y, 2));
    assert(bit_at(x, 3) == bit_at(y, 3));
    assert(bit_at(x, 4) == bit_at(y, 4));
    assert(bit_at(x, 5) == bit_at(y, 5));
    assert(bit_at(x, 6) == bit_at(y, 6));
    assert(bit_at(x, 7) == bit_at(y, 7));
    assert(bit_at(x, 8) == bit_at(y, 8));
    assert(bit_at(x, 9) == bit_at(y, 9));
    assert(bit_at(x, 10) == bit_at(y, 10));
    assert(bit_at(x, 11) == bit_at(y, 11));
    assert(bit_at(x, 12) == bit_at(y, 12));
    assert(bit_at(x, 13) == bit_at(y, 13));
    assert(bit_at(x, 14) == bit_at(y, 14));
    assert(bit_at(x, 15) == bit_at(y, 15));
    assert(bit_at(x, 16) == bit_at(y, 16));
    assert(bit_at(x, 17) == bit_at(y, 17));
    assert(bit_at(x, 18) == bit_at(y, 18));
    assert(bit_at(x, 19) == bit_at(y, 19));
    assert(bit_at(x, 20) == bit_at(y, 20));
    assert(bit_at(x, 21) == bit_at(y, 21));
    assert(bit_at(x, 22) == bit_at(y, 22));
    assert(bit_at(x, 23) == bit_at(y, 23));
    assert(bit_at(x, 24) == bit_at(y, 24));
    assert(bit_at(x, 25) == bit_at(y, 25));
    assert(bit_at(x, 26) == bit_at(y, 26));
    assert(bit_at(x, 27) == bit_at(y, 27));
    assert(bit_at(x, 28) == bit_at(y, 28));
    assert(bit_at(x, 29) == bit_at(y, 29));
    assert(bit_at(x, 30) == bit_at(y, 30));
    assert(bit_at(x, 31) == bit_at(y, 31));
    assert(x == y) by (bit_vector)
        requires
            ((x >> 0u32) & 1u32 == 1u32) == ((y >> 0u32) & 1u32 == 1u32),
            ((x >> 1u32) & 1u32 == 1u32) == ((y >> 1u32) & 1u32 == 1u32),
            ((x >> 2u32) & 1u32 == 1u32) == ((y >> 2u32) & 1u32 == 1u32),
            ((x >> 3u32) & 1u32 == 1u32) == ((y >> 3u32) & 1u32 == 1u32),
            ((x >> 4u32) & 1u32 == 1u32) == ((y >> 4u32) & 1u32 == 1u32),
            ((x >> 5u32) & 1u32 == 1u32) == ((y >> 5u32) & 1u32 == 1u32),
            ((x >> 6u32) & 1u32 == 1u32) == ((y >> 6u32) & 1u32 == 1u32),
            ((x >> 7u32) & 1u32 == 1u32) == ((y >> 7u32) & 1u32 == 1u32),
            ((x >> 8u32) & 1u32 == 1u32) == ((y >> 8u32) & 1u32 == 1u32),
            ((x >> 9u32) & 1u32 == 1u32) == ((y >> 9u32) & 1u32 == 1u32),
            ((x >> 10u32) & 1u32 == 1u32) == ((y >> 10u32) & 1u32 == 1u32),
            ((x >> 11u32) & 1u32 == 1u32) == ((y >> 11u32) & 1u32 == 1u32),
            ((x >> 12u32) & 1u32 == 1u32) == ((y >> 12u32) & 1u32 == 1u32),
            ((x >> 13u32) & 1u32 == 1u32) == ((y >> 13u32) & 1u32 == 1u32),
            ((x >> 14u32) & 1u32 == 1u32) == ((y >> 14u32) & 1u32 == 1u32),
            ((x >> 15u32) & 1u32 == 1u32) == ((y >> 15u32) & 1u32 == 1u32),
            ((x >> 16u32) & 1u32 == 1u32) == ((y >> 16u32) & 1u32 == 1u32),
            ((x >> 17u32) & 1u32 == 1u32) == ((y >> 17u32) & 1u32 == 1u32),
            ((x >> 18u32) & 1u32 == 1u32) == ((y >> 18u32) & 1u32 == 1u32),
            ((x >> 19u32) & 1u32 == 1u32) == ((y >> 19u32) & 1u32 == 1u32),
            ((x >> 20u32) & 1u32 == 1u32) == ((y >> 20u32) & 1u32 == 1u32),
            ((x >> 21u32) & 1u32 == 1u32) == ((y >> 21u32) & 1u32 == 1u32),
            ((x >> 22u32) & 1u32 == 1u32) == ((y >> 22u32) & 1u32 == 1u32),
            ((x >> 23u32) & 1u32 == 1u32) == ((y >> 23u32) & 1u32 == 1u32),
            ((x >> 24u32) & 1u32 == 1u32) == ((y >> 24u32) & 1u32 == 1u32),
            ((x >> 25u32) & 1u32 == 1u32) == ((y >> 25u32) & 1u32 == 1u32),
            ((x >> 26u32) & 1u32 == 1u32) == ((y >> 26u32) & 1u32 == 1u32),
            ((x >> 27u32) & 1u32 == 1u32) == ((y >> 27u32) & 1u32 == 1u32),
            ((x >> 28u32) & 1u32 == 1u32) == ((y >> 28u32) & 1u32 == 1u32),
            ((x >> 29u32) & 1u32 == 1u32) == ((y >> 29u32) & 1u32 == 1u32),
            ((x >> 30u32) & 1u32 == 1u32) == ((y >> 30u32) & 1u32 == 1u32),
            ((x >> 31u32) & 1u32 == 1u32) == ((y >> 31u32) & 1u32 == 1u32),
    ;
}

/// A read carries one status word.
pub proof fn lemma_word_read(w: u32, bits: Seq<bool>)
    requires
        is_msb_first_word(w, bits),
    ensures
        word_read(bits) == w,
{
    let v = word_read(bits);
    assert forall|p: u32| p < 32 implies #[trigger] bit_at(v, p) == bit_at(w, p) by {}
    lemma_word_from_bits(v, w);
}

/// The bits of the request that makes the device output its status register.
fn status_request() -> (r: Vec<bool>)
    ensures
        r@ == status_request_bits(),
{
    let words: Vec<u32> = vec![0xAA99_5566u32, 0x2000_0000u32, 0x2800_E001u32, 0x2000_0000u32, 0x2000_0000u32];
    let mut r: Vec<bool> = Vec::with_capacity(160);
    let mut k: usize = 0;
    while k < 5
        invariant
            words@ == seq![0xAA99_5566u32, 0x2000_0000u32, 0x2800_E001u32, 0x2000_0000u32, 0x2000_0000u32],
            k <= 5,
            r@.len() == 32 * k,
            forall|t: int| 0 <= t < r@.len() ==> #[trigger] r@[t] == bit_at(status_request_word(t / 32), (31 - t % 32) as u32),
        decreases 5 - k,
    {
        let w = words[k];
        assert(w == status_request_word(k as int));
        let mut i: u32 = 0;
        while i < 32
            invariant
                w == status_request_word(k as int),
                k < 5,
                i <= 32,
                r@.len() == 32 * k + i,
                forall|t: int| 0 <= t < r@.len() ==> #[trigger] r@[t] == bit_at(status_request_word(t / 32), (31 - t % 32) as u32),
            decreases 32 - i,
        {
            let ghost t: int = 32 * k + i;
            assert(t / 32 == k as int && t % 32 == i as int) by (nonlinear_arith)
                requires
                    t == 32 * (k as int) + (i as int),
                    0 <= i < 32,
            ;
            r.push((w >> (31 - i)) & 1u32 == 1u32);
            assert(r@[t] == bit_at(status_request_word(t / 32), (31 - t % 32) as u32));
            i = i + 1;
        }
        k = k + 1;
    }
    assert(r@ =~= status_request_bits());
    r
}

/// The steps that read the status register. The read is the sixth step.
pub fn status_steps() -> (r: Vec<Step>)
    ensures
        steps_view(r@) == status_read_steps(),
{
    let r = vec![
        Step::Reset,
        Step::Idle(STATUS_SETTLE_CYCLES),
        Step::WriteIr(Command::CFG_IN.bits()),
        Step::WriteDr(status_request()),
        Step::WriteIr(Command::CFG_OUT.bits()),
        Step::ReadDr(STATUS_BITS),
        Step::Reset,
    ];
    assert(steps_view(r@) =~= status_read_steps());
    r
}

/// The status register that a read of `bits` returned: the device sends it
/// most significant bit first. Bits missing from a short read count as clear.
pub fn status_from_read(bits: &[bool]) -> (s: Status)
    ensures
        is_msb_first_word(s.word(), bits@),
        s.word() == word_read(bits@),
{
    let w = word_from_msb_first(bits);
    proof {
        lemma_word_read(w, bits@);
    }
    Status::new(w)
}

/// The steps that read the device DNA. The read is the last step.
pub fn dna_steps() -> (r: Vec<Step>)
    ensures
        steps_view(r@) == dna_read_steps(),
{
    let r = vec![Step::WriteIr(Command::FUSE_DNA.bits()), Step::ReadDr(DNA_BITS)];
    assert(steps_view(r@) =~= dna_read_steps());
    r
}

/// `r` packs `bits` into bytes, least significant bit first; the last byte
/// has its unused high bits clear.
pub open spec fn is_lsb_packing(r: Seq<u8>, bits: Seq<bool>) -> bool {
    &&& r.len() == (bits.len() + 7) / 8
    &&& forall|j: int, i: u8|
        0 <= j < r.len() && i < 8 ==> #[trigger] bit8(r[j], i) == (8 * j + i < bits.len() && bits[8
            * j + i])
}

/// The device DNA that a read of `bits` returned, as bytes.
pub fn dna_from_read(bits: &[bool]) -> (r: Vec<u8>)
    ensures
        is_lsb_packing(r@, bits@),
{
    let n = bits.len();
    let mut r: Vec<u8> = Vec::new();
    let mut start: usize = 0;
    while start < n
        invariant
            n == bits@.len(),
            start <= n,
            r@.len() == (start + 7) / 8,
            start < n ==> start == 8 * r@.len(),
            forall|j: int, i: u8|
                0 <= j < r@.len() && i < 8 ==> #[trigger] bit8(r@[j], i) == (8 * j + i < n
                    && bits@[8 * j + i]),
        decreases n - start,
    {
        let mut byte: u8 = 0;
        let mut i: u8 = 0;
        assert forall|p: u8| p < 8 implies !#[trigger] bit8(0u8, p) by {
            assert((0u8 >> p) & 1u8 == 0u8) by (bit_vector);
        }
        while i < 8
            invariant
                n == bits@.len(),
                start < n,
                i <= 8,
                forall|p: u8| p < i ==> #[trigger] bit8(byte, p) == (start + p < n && bits@[start + p]),
                forall|p: u8| i <= p < 8 ==> !#[trigger] bit8(byte, p),
            decreases 8 - i,
        {
            let set = (i as usize) < n - start && bits[start + i as usize];
            let old_byte = byte;
            if set {
                byte = byte | (1u8 << i);
            }
            assert forall|p: u8| p < 8 implies #[trigger] bit8(byte, p) == (if p == i { set } else {
                bit8(old_byte, p)
            }) by {
                assert(((if set { old_byte | (1u8 << i) } else { old_byte }) >> p) & 1u8 == (if p == i {
                    if set { 1u8 } else { (old_byte >> p) & 1u8 }
                } else {
                    (old_byte >> p) & 1u8
                })) by (bit_vector)
                    requires
                        p < 8,
                        i < 8,
                ;
            }
            i = i + 1;
        }
        let ghost old_r = r@;
        r.push(byte);
        assert forall|j: int, p: u8| 0 <= j < r@.len() && p < 8 implies #[trigger] bit8(r@[j], p) == (
        8 * j + p < n && bits@[8 * j + p]) by {
            if j < old_r.len() {
                assert(r@[j] == old_r[j]);
            } else {
                assert(8 * j == start);
            }
        }
        start = if n - start > 8 { start + 8 } else { n };
    }
    r
}

/// The steps that make the device reload the configuration it holds.
pub fn jprogram_steps() -> (r: Vec<Step>)
    ensures
        steps_view(r@) == restart_steps(),
{
    let r = vec![Step::WriteIr(Command::JPROGRAM.bits()), Step::Idle(STARTUP_CYCLES), Step::Reset];
    assert(steps_view(r@) =~= restart_steps());
    r
}

/// The steps that clear the device, shift in the bitstream `data`, each byte
/// most significant bit first, and start the device.
pub fn load_steps(data: &[u8]) -> (r: Vec<Step>)
    requires
        8 * data@.len() <= usize::MAX,
    ensures
        steps_view(r@) == load_steps_spec(data@),
{
    let r = vec![
        Step::Reset,
        Step::WriteIr(Command::JPROGRAM.bits()),
        Step::Idle(1),
        Step::SleepMs(CLEAR_DELAY_MS),
        Step::Reset,
        Step::WriteIr(Command::CFG_IN.bits()),
        Step::WriteDrProgress(msb_first(data)),
        Step::Idle(1),
        Step::WriteIr(Command::JSTART.bits()),
        Step::Idle(STARTUP_CYCLES),
        Step::Reset,
    ];
    assert(steps_view(r@) =~= load_steps_spec(data@));
    r
}

/// Checks the status read before programming.
pub fn check_ready_to_program(status: &Status) -> (r: Result<(), Error>)
    ensures
        r == (if is_ready(status.word()) { Ok(()) } else { Err(Error::BadStatus) }),
{
    if !status.init_complete() {
        return Err(Error::BadStatus);
    }
    if !status.init_b() {
        return Err(Error::BadStatus);
    }
    Ok(())
}

/// Checks the status read after programming.
pub fn check_programmed_ok(status: &Status) -> (r: Result<(), Error>)
    ensures
        r == (if is_programmed_ok(status.word()) { Ok(()) } else { Err(Error::BadStatus) }),
{
    if !status.init_complete() {
        return Err(Error::BadStatus);
    }
    if !status.init_b() {
        return Err(Error::BadStatus);
    }
    if !status.done() {
        return Err(Error::BadStatus);
    }
    if !status.release_done() {
        return Err(Error::BadStatus);
    }
    if status.dec_error() {
        return Err(Error::BadStatus);
    }
    if status.id_error() {
        return Err(Error::BadStatus);
    }
    if status.crc_error() {
        return Err(Error::BadStatus);
    }
    Ok(())
}

/// The number of bytes shifted once `bits_written` bits of a payload are.
pub fn progress_bytes(bits_written: usize) -> (r: usize)
    ensures
        r == bits_written / 8,
{
    bits_written / 8
}

} // verus!
