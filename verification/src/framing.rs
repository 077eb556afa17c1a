//! AAC-ELD access units inside AACP type `0x58` packets.
//!
//! An audio packet is a header followed by access units back to back. Each
//! access unit stands behind five bytes, the last of which is its length.
use crate::text::{decimal, to_decimal};
use vstd::prelude::*;

verus! {

/// The number of bytes before the first access unit of a type `0x58` packet.
pub const TYPE58_HEADER_LEN: usize = 22;

/// Why a packet holds no readable access units.
#[derive(Clone, Copy, Debug, PartialEq, Eq, Structural)]
pub enum FramingError {
    /// The packet is no audio packet.
    NotAudio,
    /// The packet ends inside its header.
    TruncatedHeader,
    /// The packet ends inside the five bytes before an access unit.
    TruncatedUnitHeader { offset: usize },
    /// An access unit reaches past the end of the packet.
    UnitTooLong { offset: usize },
}

impl FramingError {
    /// The message of this error.
    pub open spec fn text(self) -> Seq<char> {
        match self {
            FramingError::NotAudio => "not an AACP 0x58 audio SDU"@,
            FramingError::TruncatedHeader => "truncated AACP 0x58 header"@,
            FramingError::TruncatedUnitHeader { offset } => "truncated access-unit header at offset "@
                + decimal(offset as nat),
            FramingError::UnitTooLong { offset } => "access unit at offset "@ + decimal(
                offset as nat,
            ) + " exceeds packet boundary"@,
        }
    }

    /// The message of this error.
    pub fn message(&self) -> (message: String)
        ensures
            message@ == self.text(),
    {
        match self {
            FramingError::NotAudio => "not an AACP 0x58 audio SDU".to_owned(),
            FramingError::TruncatedHeader => "truncated AACP 0x58 header".to_owned(),
            FramingError::TruncatedUnitHeader { offset } => {
                let mut message = "truncated access-unit header at offset ".to_owned();
                message.append(to_decimal(*offset as u128).as_str());
                message
            },
            FramingError::UnitTooLong { offset } => {
                let mut message = "access unit at offset ".to_owned();
                message.append(to_decimal(*offset as u128).as_str());
                message.append(" exceeds packet boundary");
                message
            },
        }
    }
}

/// Whether a packet carries audio: type `0x58`, subtype 1.
pub open spec fn audio_sdu(data: Seq<u8>) -> bool {
    &&& data.len() >= 8
    &&& data[0] == 0x04
    &&& data[2] == 0x04
    &&& data[4] == 0x58 && data[5] == 0x00
    &&& data[6] == 0x01 && data[7] == 0x00
}

/// The access units of a packet from an offset on, or the first obstacle.
pub open spec fn units_from(data: Seq<u8>, offset: int) -> Result<Seq<Seq<u8>>, FramingError>
    decreases data.len() - offset,
{
    if offset >= data.len() {
        Ok(Seq::empty())
    } else if data.len() - offset < 5 {
        Err(FramingError::TruncatedUnitHeader { offset: offset as usize })
    } else if offset + 5 + data[offset + 4] > data.len() {
        Err(FramingError::UnitTooLong { offset: offset as usize })
    } else {
        let end = offset + 5 + data[offset + 4];
        match units_from(data, end) {
            Ok(rest) => Ok(seq![data.subrange(offset + 5, end)] + rest),
            Err(error) => Err(error),
        }
    }
}

/// The access units of a packet, or why there are none.
pub open spec fn access_units(data: Seq<u8>) -> Result<Seq<Seq<u8>>, FramingError> {
    if !audio_sdu(data) {
        Err(FramingError::NotAudio)
    } else if data.len() < TYPE58_HEADER_LEN {
        Err(FramingError::TruncatedHeader)
    } else {
        units_from(data, TYPE58_HEADER_LEN as int)
    }
}

/// The contents of a list of slices.
pub open spec fn contents(slices: Seq<&[u8]>) -> Seq<Seq<u8>> {
    slices.map_values(|s: &[u8]| s@)
}

/// Whether a packet is a supported AACP audio packet.
pub fn is_audio_sdu(data: &[u8]) -> (audio: bool)
    ensures
        audio == audio_sdu(data@),
{
    data.len() >= 8 && data[0] == 0x04 && data[2] == 0x04 && data[4] == 0x58 && data[5] == 0x00
        && data[6] == 0x01 && data[7] == 0x00
}

/// The slice of every access unit of an audio packet, in order, without copying.
pub fn demux_audio_sdu(data: &[u8]) -> (result: Result<Vec<&[u8]>, FramingError>)
    ensures
        match result {
            Ok(units) => access_units(data@) == Ok::<Seq<Seq<u8>>, FramingError>(contents(units@)),
            Err(error) => access_units(data@) == Err::<Seq<Seq<u8>>, FramingError>(error),
        },
{
    if !is_audio_sdu(data) {
        return Err(FramingError::NotAudio);
    }
    if data.len() < TYPE58_HEADER_LEN {
        return Err(FramingError::TruncatedHeader);
    }
    let mut units: Vec<&[u8]> = Vec::new();
    let mut offset: usize = TYPE58_HEADER_LEN;
    proof {
        let rest = units_from(data@, offset as int);
        if rest is Ok {
            assert(contents(units@) + rest->Ok_0 =~= rest->Ok_0);
        }
    }
    while offset < data.len()
        invariant
            TYPE58_HEADER_LEN <= offset <= data.len(),
            audio_sdu(data@),
            data.len() >= TYPE58_HEADER_LEN,
            access_units(data@) == (match units_from(data@, offset as int) {
                Ok(rest) => Ok::<Seq<Seq<u8>>, FramingError>(contents(units@) + rest),
                Err(error) => Err(error),
            }),
        decreases data.len() - offset,
    {
        if data.len() - offset < 5 {
            return Err(FramingError::TruncatedUnitHeader { offset });
        }
        let length: usize = data[offset + 4] as usize;
        let start: usize = offset + 5;
        if length > data.len() - start {
            return Err(FramingError::UnitTooLong { offset });
        }
        let ghost before = contents(units@);
        let end: usize = start + length;
        units.push(vstd::slice::slice_subrange(data, start, end));
        proof {
            let unit = data@.subrange(start as int, end as int);
            assert(contents(units@) =~= before.push(unit));
            let rest = units_from(data@, end as int);
            if rest is Ok {
                assert(before + (seq![unit] + rest->Ok_0) =~= before.push(unit) + rest->Ok_0);
            }
        }
        offset = end;
    }
    assert(contents(units@) + Seq::<Seq<u8>>::empty() =~= contents(units@));
    Ok(units)
}

/// An access unit with the bytes before its length.
pub struct Frame {
    pub prefix: Seq<u8>,
    pub unit: Seq<u8>,
}

impl Frame {
    /// Whether the frame can stand in a packet.
    pub open spec fn valid(self) -> bool {
        self.prefix.len() == 4 && self.unit.len() <= 255
    }

    /// The bytes of the frame.
    pub open spec fn bytes(self) -> Seq<u8> {
        self.prefix + seq![self.unit.len() as u8] + self.unit
    }
}

/// Frames back to back.
pub open spec fn packed(frames: Seq<Frame>) -> Seq<u8>
    decreases frames.len(),
{
    if frames.len() == 0 {
        Seq::empty()
    } else {
        frames[0].bytes() + packed(frames.skip(1))
    }
}

/// The access units of frames.
pub open spec fn units_of(frames: Seq<Frame>) -> Seq<Seq<u8>> {
    frames.map_values(|f: Frame| f.unit)
}

proof fn lemma_packed_units(head: Seq<u8>, frames: Seq<Frame>)
    requires
        forall|i: int| 0 <= i < frames.len() ==> (#[trigger] frames[i]).valid(),
    ensures
        units_from(head + packed(frames), head.len() as int) == Ok::<Seq<Seq<u8>>, FramingError>(
            units_of(frames),
        ),
    decreases frames.len(),
{
    let data = head + packed(frames);
    if frames.len() == 0 {
        assert(units_of(frames) =~= Seq::<Seq<u8>>::empty());
    } else {
        let frame = frames[0];
        let tail = frames.skip(1);
        assert(frame.valid());
        let next = head + frame.bytes();
        assert(data =~= next + packed(tail));
        assert forall|i: int| 0 <= i < tail.len() implies (#[trigger] tail[i]).valid() by {
            assert(tail[i] == frames[i + 1]);
        }
        lemma_packed_units(next, tail);
        let offset = head.len() as int;
        assert(data[offset + 4] == frame.bytes()[4]);
        let end = offset + 5 + frame.unit.len();
        assert(end == next.len());
        assert(data.subrange(offset + 5, end) =~= frame.unit);
        assert(units_of(frames) =~= seq![frame.unit] + units_of(tail));
    }
}

/// Reading gives back what was packed: a packet made of a header and frames
/// yields exactly the access units of the frames, in order.
pub proof fn law_demux_of_packed(header: Seq<u8>, frames: Seq<Frame>)
    requires
        header.len() == TYPE58_HEADER_LEN,
        audio_sdu(header),
        forall|i: int| 0 <= i < frames.len() ==> (#[trigger] frames[i]).valid(),
    ensures
        access_units(header + packed(frames)) == Ok::<Seq<Seq<u8>>, FramingError>(units_of(frames)),
{
    lemma_packed_units(header, frames);
}

proof fn lemma_units_cover(data: Seq<u8>, offset: int) -> (frames: Seq<Frame>)
    requires
        0 <= offset <= data.len(),
        units_from(data, offset) is Ok,
    ensures
        forall|i: int| 0 <= i < frames.len() ==> (#[trigger] frames[i]).valid(),
        units_of(frames) == units_from(data, offset)->Ok_0,
        data.skip(offset) == packed(frames),
    decreases data.len() - offset,
{
    if offset >= data.len() {
        let frames = Seq::<Frame>::empty();
        assert(units_of(frames) =~= units_from(data, offset)->Ok_0);
        assert(data.skip(offset) =~= packed(frames));
        frames
    } else {
        let end = offset + 5 + data[offset + 4];
        let tail = lemma_units_cover(data, end);
        let frame = Frame {
            prefix: data.subrange(offset, offset + 4),
            unit: data.subrange(offset + 5, end),
        };
        let frames = seq![frame] + tail;
        assert(frames.skip(1) =~= tail);
        assert forall|i: int| 0 <= i < frames.len() implies (#[trigger] frames[i]).valid() by {
            if i > 0 {
                assert(frames[i] == tail[i - 1]);
            }
        }
        assert(units_of(frames) =~= seq![frame.unit] + units_of(tail));
        assert(frame.bytes() =~= data.subrange(offset, end));
        assert(data.skip(offset) =~= frame.bytes() + packed(tail));
        frames
    }
}

/// Nothing is lost: a packet that is read is its header followed by frames whose
/// access units are exactly the ones that were read.
pub proof fn law_demux_covers_packet(data: Seq<u8>) -> (frames: Seq<Frame>)
    requires
        access_units(data) is Ok,
    ensures
        forall|i: int| 0 <= i < frames.len() ==> (#[trigger] frames[i]).valid(),
        access_units(data) == Ok::<Seq<Seq<u8>>, FramingError>(units_of(frames)),
        data == data.take(TYPE58_HEADER_LEN as int) + packed(frames),
{
    let offset = TYPE58_HEADER_LEN as int;
    let frames = lemma_units_cover(data, offset);
    assert(data =~= data.take(offset) + data.skip(offset));
    frames
}

/// A packet carries audio exactly where these bytes say so; the rest of it has no say.
pub proof fn law_audio_packets_are_known_by_their_bytes(data: &[u8], audio: bool)
    requires
        call_ensures(is_audio_sdu, (data,), audio),
    ensures
        audio <==> data@.len() >= 8 && data@[0] == 0x04 && data@[2] == 0x04 && data@[4] == 0x58
            && data@[5] == 0x00 && data@[6] == 0x01 && data@[7] == 0x00,
{
}

/// Of a packet made of a header of 22 bytes and of frames, each frame gives its access unit,
/// one after the other, empty ones included.
pub proof fn law_every_frame_gives_its_unit(
    data: &[u8],
    result: Result<Vec<&[u8]>, FramingError>,
    header: Seq<u8>,
    frames: Seq<Frame>,
)
    requires
        call_ensures(demux_audio_sdu, (data,), result),
        data@ == header + packed(frames),
        header.len() == 22,
        header[0] == 0x04 && header[2] == 0x04 && header[4] == 0x58 && header[5] == 0x00
            && header[6] == 0x01 && header[7] == 0x00,
        forall|i: int| 0 <= i < frames.len() ==> (#[trigger] frames[i]).valid(),
    ensures
        result matches Ok(units) && units@.len() == frames.len() && forall|i: int|
            0 <= i < frames.len() ==> (#[trigger] units@[i])@ == frames[i].unit,
{
    law_demux_of_packed(header, frames);
    if let Ok(units) = result {
        assert(contents(units@) == units_of(frames));
        assert(contents(units@).len() == units@.len());
        assert forall|i: int| 0 <= i < frames.len() implies (#[trigger] units@[i])@
            == frames[i].unit by {
            assert(contents(units@)[i] == units_of(frames)[i]);
        }
    }
}

proof fn lemma_units_before_error(data: Seq<u8>, offset: int) -> (frames: Seq<Frame>)
    requires
        0 <= offset <= data.len() <= usize::MAX,
        units_from(data, offset) is Err,
    ensures
        forall|i: int| 0 <= i < frames.len() ==> (#[trigger] frames[i]).valid(),
        ({
            let end = offset + packed(frames).len();
            &&& end < data.len()
            &&& data.subrange(offset, end) == packed(frames)
            &&& match units_from(data, offset)->Err_0 {
                FramingError::TruncatedUnitHeader { offset } => offset == end && data.len() - end
                    < 5,
                FramingError::UnitTooLong { offset } => offset == end && data.len() - end >= 5
                    && end + 5 + data[end + 4] > data.len(),
                _ => false,
            }
        }),
    decreases data.len() - offset,
{
    if data.len() - offset < 5 || offset + 5 + data[offset + 4] > data.len() {
        let frames = Seq::<Frame>::empty();
        assert(data.subrange(offset, offset) =~= packed(frames));
        frames
    } else {
        let end = offset + 5 + data[offset + 4];
        let tail = lemma_units_before_error(data, end);
        let frame = Frame {
            prefix: data.subrange(offset, offset + 4),
            unit: data.subrange(offset + 5, end),
        };
        let frames = seq![frame] + tail;
        assert(frames.skip(1) =~= tail);
        assert forall|i: int| 0 <= i < frames.len() implies (#[trigger] frames[i]).valid() by {
            if i > 0 {
                assert(frames[i] == tail[i - 1]);
            }
        }
        assert(frame.bytes() =~= data.subrange(offset, end));
        assert(packed(frames) == frame.bytes() + packed(tail));
        let last = end + packed(tail).len();
        assert(data.subrange(offset, last) =~= data.subrange(offset, end) + data.subrange(
            end,
            last,
        ));
        frames
    }
}

/// A packet that cannot be read is refused for what is wrong with it: it is no audio packet,
/// it ends within its header, or behind whole frames there are less than five bytes or an
/// access unit that reaches past the end. The offset is that of the first broken frame.
pub proof fn law_refusals_name_the_first_obstacle(
    data: &[u8],
    result: Result<Vec<&[u8]>, FramingError>,
)
    requires
        call_ensures(demux_audio_sdu, (data,), result),
        data@.len() <= usize::MAX,
    ensures
        ({
            let audio = data@.len() >= 8 && data@[0] == 0x04 && data@[2] == 0x04 && data@[4] == 0x58
                && data@[5] == 0x00 && data@[6] == 0x01 && data@[7] == 0x00;
            &&& (result is Err && result->Err_0 is NotAudio) <==> !audio
            &&& (result is Err && result->Err_0 is TruncatedHeader) <==> audio && data@.len() < 22
            &&& result matches Err(FramingError::TruncatedUnitHeader { offset }) ==> 22 <= offset
                < data@.len() < offset + 5 && exists|frames: Seq<Frame>|
                data@.subrange(22, offset as int) == #[trigger] packed(frames)
            &&& result matches Err(FramingError::UnitTooLong { offset }) ==> 22 <= offset
                && offset + 5 <= data@.len() < offset + 5 + data@[offset + 4] && exists|
                frames: Seq<Frame>,
            |
                data@.subrange(22, offset as int) == #[trigger] packed(frames)
        }),
{
    if access_units(data@) is Err && audio_sdu(data@) && data@.len() >= 22 {
        let frames = lemma_units_before_error(data@, 22);
        assert(data@.subrange(22, 22int + packed(frames).len()) == packed(frames));
    }
}

/// The message of an error that has an offset names it, so that errors at different offsets have
/// different messages.
pub proof fn law_messages_name_the_offset(error: &FramingError, message: String)
    requires
        call_ensures(FramingError::message, (error,), message),
    ensures
        error matches FramingError::TruncatedUnitHeader { offset } ==> exists|front: Seq<char>|
            message@ == #[trigger] (front + decimal(*offset as nat)) && front
                == "truncated access-unit header at offset "@,
        error matches FramingError::UnitTooLong { offset }
            ==> exists|front: Seq<char>, back: Seq<char>|
            message@ == #[trigger] (front + decimal(*offset as nat) + back) && front
                == "access unit at offset "@ && back == " exceeds packet boundary"@,
        error is NotAudio ==> message@ == "not an AACP 0x58 audio SDU"@,
        error is TruncatedHeader ==> message@ == "truncated AACP 0x58 header"@,
{
}

} // verus!
