//! S.BUS radio-control receiver driver: finds complete frames in the DMA
//! ring the UART fills, has them decoded, converts the 11-bit channels
//! into scaled control input, tracks the frame-loss rate, and publishes
//! both through the driver's channels.

use vstd::prelude::*;
use vstd::arithmetic::div_mod::lemma_small_mod;
use crate::components::event::Notify;
use crate::datastructures::input::{ControlInput, InputConfig, InputType, RSSI};
use crate::datastructures::measurement::trunc_div;
use crate::datastructures::singular::{
    SingularData, SingularDataSource, U16Data, U16DataSource,
};

verus! {

/// First byte of every frame.
pub const SBUS_PACKET_BEGIN: u8 = 0x0F;

/// Frame length in bytes: header, 22 channel bytes, the flag byte, footer.
pub const SBUS_PACKET_SIZE: usize = 25;

/// Whether a byte is one of the recognized frame-end bytes.
pub open spec fn is_end_byte(b: u8) -> bool {
    b == 0x00u8 || b == 0x04u8 || b == 0x14u8 || b == 0x24u8 || b == 0x34u8
}

/// Relies on `sbus_parser::receiver::is_sbus_packet_end`: true exactly for
/// the five frame-end bytes its source lists.
pub assume_specification [ sbus_parser::receiver::is_sbus_packet_end ](byte: u8) -> (r: bool)
    ensures
        r == is_end_byte(byte),
;

/// Bit `k` of the frame's 176-bit little-endian channel stream, which
/// occupies frame bytes 1 through 22.
pub open spec fn sbus_bit(frame: Seq<u8>, k: int) -> nat {
    ((frame[1 + k / 8] >> ((k % 8) as u8)) & 1) as nat
}

/// The value of `count` consecutive stream bits starting at `from`, least
/// significant first.
pub open spec fn sbus_bits(frame: Seq<u8>, from: int, count: nat) -> nat
    decreases count,
{
    if count == 0 {
        0
    } else {
        sbus_bit(frame, from) + 2 * sbus_bits(frame, from + 1, (count - 1) as nat)
    }
}

/// Channel `i` of a frame under clean extraction: the 11 stream bits
/// starting at bit `11 * i`.  The decoder is relied on for this value only
/// on the first four channels — the ones the flight axes use; see
/// `decode_sbus_frame`.
pub open spec fn sbus_channel(frame: Seq<u8>, i: int) -> u16 {
    sbus_bits(frame, 11 * i, 11) as u16
}

/// One decoded frame: sixteen 11-bit channels, the two digital channels,
/// and the link status flags.
pub struct SbusData {
    pub channels: [u16; 16],
    pub channel17: bool,
    pub channel18: bool,
    pub frame_lost: bool,
    pub failsafe: bool,
}

/// Relies on `sbus_parser::receiver::Receiver::receive` handed one
/// frame-sized chunk to a fresh receiver: it parses the chunk exactly when
/// the chunk starts with the header byte and ends with a frame-end byte,
/// and `sbus_parser::packet::Packet::parse` then takes the channels from
/// the little-endian stream of bytes 1..23 and the four flag bits of byte
/// 23.  The word-index table `parse` accumulates over repeats words, so
/// residue of earlier words leaks into channels four and up; only the first
/// four channels are the clean 11-bit extraction, and the contract promises
/// no more than that.
#[verifier::external_body]
fn decode_sbus_frame(bytes: &[u8]) -> (r: Option<SbusData>)
    requires
        bytes@.len() == SBUS_PACKET_SIZE,
    ensures
        r is Some <==> (bytes@[0] == SBUS_PACKET_BEGIN && is_end_byte(bytes@[24])),
        r matches Some(d) ==> {
            &&& forall|i: int| 0 <= i < 4 ==> d.channels@[i] == sbus_channel(bytes@, i)
            &&& d.channel17 == (bytes@[23] & 0x80u8 > 0)
            &&& d.channel18 == (bytes@[23] & 0x40u8 > 0)
            &&& d.frame_lost == (bytes@[23] & 0x20u8 > 0)
            &&& d.failsafe == (bytes@[23] & 0x10u8 > 0)
        },
{
    let mut receiver = sbus_parser::receiver::Receiver::new();
    match receiver.receive(bytes) {
        Some(d) => Some(
            SbusData {
                channels: d.channels,
                channel17: d.channel17,
                channel18: d.channel18,
                frame_lost: d.frame_lost,
                failsafe: d.failsafe,
            },
        ),
        None => None,
    }
}

/// A raw 11-bit channel value mapped onto the symmetric axis range: the
/// nominal `0..=2047` maps onto `-32768..=32704`.
pub fn to_axis(value: u16) -> (r: i32)
    ensures
        r == (value - 0x400) * 32,
{
    ((value as i32) - 0x400) * 32
}

/// An axis value scaled by `ratio` percent and saturated to `i16`.
pub open spec fn scale_spec(data: u16, ratio: u8) -> i16 {
    let scaled = trunc_div((data - 0x400) * 32 * ratio, 100);
    if scaled > i16::MAX {
        i16::MAX
    } else if scaled < i16::MIN {
        i16::MIN
    } else {
        scaled as i16
    }
}

/// Scale a raw channel value by `ratio` percent, saturating to `i16`.
pub fn scale(data: u16, ratio: u8) -> (r: i16)
    ensures
        r == scale_spec(data, ratio),
{
    let axis = to_axis(data);
    proof {
        assert(-8355840 <= axis * ratio <= 526409760) by (nonlinear_arith)
            requires
                -32768 <= axis <= 2064352,
                0 <= ratio <= 255,
        ;
    }
    let scaled = axis * (ratio as i32) / 100;
    if scaled > i16::MAX as i32 {
        i16::MAX
    } else if scaled < i16::MIN as i32 {
        i16::MIN
    } else {
        scaled as i16
    }
}

/// The neutral control input every frame's assembly starts from.
pub open spec fn zero_input() -> ControlInput {
    ControlInput { throttle: 0, roll: 0, pitch: 0, yaw: 0 }
}

/// The control input after applying one configuration entry to `acc`.
pub open spec fn apply_input(acc: ControlInput, cfg: InputConfig, ch: u16) -> ControlInput {
    match cfg.input_type {
        InputType::Throttle => ControlInput { throttle: scale_spec(ch, cfg.scale), ..acc },
        InputType::Roll => ControlInput { roll: scale_spec(ch, cfg.scale), ..acc },
        InputType::Pitch => ControlInput { pitch: scale_spec(ch, cfg.scale), ..acc },
        InputType::Yaw => ControlInput { yaw: scale_spec(ch, cfg.scale), ..acc },
    }
}

/// The control input assembled from a frame's channels by walking the
/// configuration entries in order, applying at most `budget` of them;
/// entries naming a channel the frame does not carry are skipped.
pub open spec fn control_input_of(
    acc: ControlInput,
    channels: Seq<u16>,
    inputs: Seq<InputConfig>,
    budget: nat,
) -> ControlInput
    decreases inputs.len(),
{
    if inputs.len() == 0 || budget == 0 {
        acc
    } else {
        let cfg = inputs[0];
        if cfg.channel < channels.len() {
            control_input_of(
                apply_input(acc, cfg, channels[cfg.channel as int]),
                channels,
                inputs.drop_first(),
                (budget - 1) as nat,
            )
        } else {
            control_input_of(acc, channels, inputs.drop_first(), budget)
        }
    }
}

/// The index of the first frame footer in `ring[begin..end]`: a frame-end
/// byte preceded, `SBUS_PACKET_SIZE - 1` slots back around the ring, by the
/// header byte.
pub open spec fn frame_at(ring: Seq<u8>, i: int) -> bool {
    is_end_byte(ring[i]) && ring[(i + ring.len() - 24) % (ring.len() as int)]
        == SBUS_PACKET_BEGIN
}

pub open spec fn first_frame_end(ring: Seq<u8>, begin: int, end: int) -> Option<int>
    decreases end - begin,
{
    if begin >= end {
        None
    } else if frame_at(ring, begin) {
        Some(begin)
    } else {
        first_frame_end(ring, begin + 1, end)
    }
}

/// The frame whose footer sits at ring index `i`.
pub open spec fn frame_ending_at(ring: Seq<u8>, i: int) -> Seq<u8> {
    Seq::new(25, |j: int| ring[((i + ring.len() - 24) % (ring.len() as int) + j) % (
    ring.len() as int)])
}

/// The sixteen channels of a frame under clean extraction.
pub open spec fn frame_channels(frame: Seq<u8>) -> Seq<u16> {
    Seq::new(16, |i: int| sbus_channel(frame, i))
}

/// Whether every entry of a receiver configuration names a channel below
/// `limit`.
pub open spec fn inputs_within(inputs: Seq<InputConfig>, limit: u8) -> bool {
    forall|i: int| 0 <= i < inputs.len() ==> (#[trigger] inputs[i]).channel < limit
}

/// Law: the assembled control input reads only the channels the
/// configuration names, so two channel vectors that agree on every channel
/// below four assemble the same input under a configuration confined to
/// those channels.
pub proof fn lemma_control_input_agrees(
    acc: ControlInput,
    chs1: Seq<u16>,
    chs2: Seq<u16>,
    inputs: Seq<InputConfig>,
    budget: nat,
)
    requires
        chs1.len() == chs2.len(),
        inputs_within(inputs, 4),
        forall|c: int| 0 <= c < 4 && c < chs1.len() ==> chs1[c] == chs2[c],
    ensures
        control_input_of(acc, chs1, inputs, budget) == control_input_of(acc, chs2, inputs, budget),
    decreases inputs.len(),
{
    if inputs.len() > 0 && budget > 0 {
        let cfg = inputs[0];
        assert(forall|i: int|
            0 <= i < inputs.drop_first().len() ==> (#[trigger] inputs.drop_first()[i]).channel
                < 4);
        if cfg.channel < chs1.len() {
            lemma_control_input_agrees(
                apply_input(acc, cfg, chs1[cfg.channel as int]),
                chs1,
                chs2,
                inputs.drop_first(),
                (budget - 1) as nat,
            );
        } else {
            lemma_control_input_agrees(acc, chs1, chs2, inputs.drop_first(), budget);
        }
    }
}

/// The S.BUS receiver: frame statistics and the two channels it publishes,
/// control input and link quality.
pub struct SbusReceiver {
    pub counter: u8,
    pub loss: u8,
    pub loss_rate: u8,
    pub rssi: U16Data<RSSI>,
    pub control_input: SingularData<ControlInput>,
    pub notify: Option<Box<dyn Notify>>,
}

impl SbusReceiver {
    /// Frame statistics stay inside their hundred-frame window.
    pub open spec fn wf(&self) -> bool {
        &&& self.counter < 100
        &&& self.loss <= self.counter
        &&& self.loss_rate <= 100
    }

    pub fn new() -> (r: Self)
        ensures
            r.wf(),
            r.counter == 0 && r.loss == 0 && r.loss_rate == 0,
            r.rssi.latest() is None,
            r.control_input.latest() is None,
            r.notify is None,
    {
        Self {
            counter: 0,
            loss: 0,
            loss_rate: 0,
            rssi: U16Data::default(),
            control_input: SingularData::default(),
            notify: None,
        }
    }

    /// A reader of the published link quality.
    pub fn rssi_reader(&self) -> U16DataSource<RSSI> {
        U16DataSource::new(&self.rssi)
    }

    /// A reader of the published control input.
    pub fn input_reader(&self) -> SingularDataSource<ControlInput> {
        SingularDataSource::new(&self.control_input)
    }

    /// Install the soft-interrupt trigger fired after every decoded frame.
    pub fn set_notify(&mut self, notify: Box<dyn Notify>)
        ensures
            final(self).notify is Some,
            final(self).counter == old(self).counter,
            final(self).loss == old(self).loss,
            final(self).loss_rate == old(self).loss_rate,
            final(self).rssi == old(self).rssi,
            final(self).control_input == old(self).control_input,
    {
        self.notify = Some(notify);
    }

    /// Account one decoded frame: update the loss statistics over a
    /// hundred-frame window, publish the link quality, assemble the control
    /// input per `inputs`, publish it, and fire the notify trigger.
    pub fn handle_sbus_data(&mut self, data: &SbusData, inputs: &[InputConfig])
        requires
            old(self).wf(),
        ensures
            final(self).wf(),
            final(self).counter == (if old(self).counter == 99 {
                0u8
            } else {
                (old(self).counter + 1) as u8
            }),
            final(self).loss_rate == (if old(self).counter == 99 {
                (old(self).loss + (if data.frame_lost {
                    1u8
                } else {
                    0u8
                })) as u8
            } else {
                old(self).loss_rate
            }),
            final(self).loss == (if old(self).counter == 99 {
                0u8
            } else {
                (old(self).loss + (if data.frame_lost {
                    1u8
                } else {
                    0u8
                })) as u8
            }),
            final(self).rssi.latest() == Some((100 - final(self).loss_rate) as RSSI),
            final(self).control_input.latest() == Some(
                control_input_of(zero_input(), data.channels@, inputs@, 4),
            ),
    {
        if data.frame_lost {
            self.loss = self.loss + 1;
        }
        self.counter = self.counter + 1;
        if self.counter == 100 {
            self.loss_rate = self.loss;
            self.loss = 0;
            self.counter = 0;
        }
        self.rssi.write((100 - self.loss_rate) as RSSI);

        let mut counter: usize = 0;
        let mut input = ControlInput::default();
        let mut i: usize = 0;
        let ghost start = input;
        proof {
            assert(inputs@.skip(0) =~= inputs@);
        }
        while i < inputs.len() && counter < 4
            invariant
                i <= inputs@.len(),
                counter <= 4,
                control_input_of(input, data.channels@, inputs@.skip(i as int), (4 - counter) as nat)
                    == control_input_of(start, data.channels@, inputs@, 4),
            decreases inputs@.len() - i,
        {
            let cfg = inputs[i];
            proof {
                assert(inputs@.skip(i as int).drop_first() =~= inputs@.skip(i as int + 1));
                assert(inputs@.skip(i as int)[0] == inputs@[i as int]);
            }
            if (cfg.channel as usize) < data.channels.len() {
                let ch = data.channels[cfg.channel as usize];
                match cfg.input_type {
                    InputType::Throttle => input.throttle = scale(ch, cfg.scale),
                    InputType::Roll => input.roll = scale(ch, cfg.scale),
                    InputType::Pitch => input.pitch = scale(ch, cfg.scale),
                    InputType::Yaw => input.yaw = scale(ch, cfg.scale),
                }
                counter = counter + 1;
            }
            i = i + 1;
        }
        proof {
            if i < inputs@.len() {
            } else {
                assert(inputs@.skip(i as int).len() == 0);
            }
        }
        self.control_input.write(input);
        if let Some(notify) = &mut self.notify {
            notify.notify();
        }
    }

    /// Scan the half of the DMA ring that was just filled for a complete
    /// frame — the footer byte whose matching header sits a frame back —
    /// and, when one is there, decode it and account it.  Without a
    /// complete frame in that half, nothing changes.
    pub fn handle(&mut self, ring: &[u8], half: bool, inputs: &[InputConfig])
        requires
            old(self).wf(),
            SBUS_PACKET_SIZE <= ring@.len(),
            ring@.len() <= usize::MAX / 2,
        ensures
            final(self).wf(),
            ({
                let begin = if half {
                    0int
                } else {
                    ring@.len() as int / 2
                };
                let end = if half {
                    ring@.len() as int / 2
                } else {
                    ring@.len() as int
                };
                match first_frame_end(ring@, begin, end) {
                    None => *final(self) == *old(self),
                    Some(i) => {
                        let frame = frame_ending_at(ring@, i);
                        &&& (inputs_within(inputs@, 4) ==> final(self).control_input.latest()
                            == Some(
                            control_input_of(zero_input(), frame_channels(frame), inputs@, 4),
                        ))
                        &&& exists|chs: Seq<u16>|
                            {
                                &&& chs.len() == 16
                                &&& (forall|c: int|
                                    0 <= c < 4 ==> #[trigger] chs[c] == sbus_channel(frame, c))
                                &&& final(self).control_input.latest() == Some(
                                    #[trigger] control_input_of(zero_input(), chs, inputs@, 4),
                                )
                            }
                        &&& final(self).rssi.latest() == Some(
                            (100 - final(self).loss_rate) as RSSI,
                        )
                        &&& final(self).counter == (if old(self).counter == 99 {
                            0u8
                        } else {
                            (old(self).counter + 1) as u8
                        })
                    },
                }
            }),
    {
        let len = ring.len();
        let begin = if half {
            0
        } else {
            len / 2
        };
        let end = if half {
            len / 2
        } else {
            len
        };
        let ghost gb = begin as int;
        let ghost ge = end as int;
        let mut offset: usize = 0;
        let mut found = false;
        let mut i: usize = begin;
        while i < end && !found
            invariant
                old(self).wf(),
                *self == *old(self),
                len == ring@.len(),
                end as int == ge,
                SBUS_PACKET_SIZE <= len,
                len <= usize::MAX / 2,
                ge <= len as int,
                gb <= i as int <= ge,
                !found ==> first_frame_end(ring@, gb, ge) == first_frame_end(ring@, i as int, ge),
                found ==> {
                    &&& gb < i as int
                    &&& frame_at(ring@, i - 1)
                    &&& first_frame_end(ring@, gb, ge) == Some((i - 1) as int)
                    &&& offset == ((i - 1) + len - 24) % (len as int)
                },
            decreases ge - i,
        {
            if sbus_parser::receiver::is_sbus_packet_end(ring[i]) {
                let index = (i + len - (SBUS_PACKET_SIZE - 1)) % len;
                if ring[index] == SBUS_PACKET_BEGIN {
                    offset = index;
                    found = true;
                }
            }
            i = i + 1;
        }
        if !found {
            return ;
        }
        let ghost footer = (i - 1) as int;
        let mut packet: Vec<u8> = Vec::new();
        let mut j: usize = 0;
        while j < SBUS_PACKET_SIZE
            invariant
                old(self).wf(),
                *self == *old(self),
                j <= SBUS_PACKET_SIZE,
                len == ring@.len(),
                offset < len,
                len <= usize::MAX / 2,
                SBUS_PACKET_SIZE <= len,
                packet@ =~= Seq::new(j as nat, |t: int| ring@[(offset + t) % (ring@.len() as int)]),
            decreases SBUS_PACKET_SIZE - j,
        {
            packet.push(ring[(offset + j) % len]);
            j = j + 1;
        }
        proof {
            let ll = ring@.len() as int;
            assert(packet@ =~= frame_ending_at(ring@, footer));
            lemma_small_mod(offset as nat, ring@.len());
            assert(packet@[0] == ring@[offset as int]);
            assert((offset + 24) % ll == footer) by {
                vstd::arithmetic::div_mod::lemma_add_mod_noop(footer + ll - 24, 24, ll);
                lemma_small_mod(24nat, ring@.len());
                vstd::arithmetic::div_mod::lemma_mod_add_multiples_vanish(footer, ll);
                lemma_small_mod(footer as nat, ring@.len());
            }
            assert(packet@[24] == ring@[footer]);
        }
        if let Some(data) = decode_sbus_frame(packet.as_slice()) {
            let ghost frame = frame_ending_at(ring@, footer);
            proof {
                assert(forall|c: int|
                    0 <= c < 4 ==> data.channels@[c] == sbus_channel(frame, c));
            }
            self.handle_sbus_data(&data, inputs);
            proof {
                if inputs_within(inputs@, 4) {
                    lemma_control_input_agrees(
                        zero_input(),
                        data.channels@,
                        frame_channels(frame),
                        inputs@,
                        4,
                    );
                }
            }
        }
    }
}

} // verus!
