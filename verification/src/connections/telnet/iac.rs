//! The Telnet rule for the byte 255 (IAC, "interpret as command").
//!
//! Outbound, every data byte 255 is sent twice. Inbound, a doubled 255 is one
//! data byte, option negotiation and subnegotiation are dropped, and any other
//! byte after an IAC is a violation of the protocol.

use vstd::prelude::*;
use vstd::string::*;
use crate::connections::errors::ConnectionError;

verus! {

/// Interpret-as-command: introduces every Telnet command.
pub const IAC: u8 = 255;

/// Refuses a request that the peer enable an option.
pub const DONT: u8 = 254;

/// Asks the peer to enable an option.
pub const DO: u8 = 253;

/// Refuses to enable an option.
pub const WONT: u8 = 252;

/// Offers to enable an option.
pub const WILL: u8 = 251;

/// Begins a subnegotiation.
pub const SB: u8 = 250;

/// Ends a subnegotiation.
pub const SE: u8 = 240;

/// What one data byte becomes on the wire.
pub open spec fn escaped_byte(byte: u8) -> Seq<u8> {
    if byte == IAC {
        seq![IAC, IAC]
    } else {
        seq![byte]
    }
}

/// What a sequence of data bytes becomes on the wire: each byte's wire form,
/// in order.
pub open spec fn escaped(data: Seq<u8>) -> Seq<u8>
    decreases data.len(),
{
    if data.len() == 0 {
        Seq::empty()
    } else {
        escaped(data.drop_last()) + escaped_byte(data.last())
    }
}

/// How often `byte` occurs in `data`.
pub open spec fn occurrences(data: Seq<u8>, byte: u8) -> nat
    decreases data.len(),
{
    if data.len() == 0 {
        0
    } else {
        occurrences(data.drop_last(), byte) + if data.last() == byte {
            1nat
        } else {
            0nat
        }
    }
}

/// Where an inbound byte stream stands between two bytes.
#[derive(Debug, Clone, Copy, PartialEq, Eq, Structural)]
pub enum DecoderState {
    /// Between commands: the next byte is data unless it is IAC.
    Data,
    /// An IAC was read: the next byte names the command.
    AfterIac,
    /// WILL, WONT, DO or DONT was read: the next byte is the option it is about.
    AwaitingOption,
    /// Inside a subnegotiation, which runs up to IAC SE.
    InSubnegotiation,
    /// An IAC was read inside a subnegotiation.
    AfterIacInSubnegotiation,
}

/// Whether `byte` is one of the four option negotiation commands.
pub open spec fn is_negotiation(byte: u8) -> bool {
    byte == WILL || byte == WONT || byte == DO || byte == DONT
}

/// What one inbound byte does in a given state: the state that follows and
/// the data byte it yields, if any. `None` where the byte cannot follow.
pub open spec fn step(state: DecoderState, byte: u8) -> Option<(DecoderState, Option<u8>)> {
    match state {
        DecoderState::Data => if byte == IAC {
            Some((DecoderState::AfterIac, None))
        } else {
            Some((DecoderState::Data, Some(byte)))
        },
        DecoderState::AfterIac => if byte == IAC {
            Some((DecoderState::Data, Some(IAC)))
        } else if is_negotiation(byte) {
            Some((DecoderState::AwaitingOption, None))
        } else if byte == SB {
            Some((DecoderState::InSubnegotiation, None))
        } else {
            None
        },
        DecoderState::AwaitingOption => Some((DecoderState::Data, None)),
        DecoderState::InSubnegotiation => if byte == IAC {
            Some((DecoderState::AfterIacInSubnegotiation, None))
        } else {
            Some((DecoderState::InSubnegotiation, None))
        },
        DecoderState::AfterIacInSubnegotiation => if byte == SE {
            Some((DecoderState::Data, None))
        } else if byte == IAC {
            Some((DecoderState::InSubnegotiation, None))
        } else {
            None
        },
    }
}

/// `data` with the byte that a step yielded, if it yielded one.
pub open spec fn with_yield(data: Seq<u8>, yielded: Option<u8>) -> Seq<u8> {
    match yielded {
        Some(byte) => data.push(byte),
        None => data,
    }
}

/// What the bytes `wire`, read from `state` on, amount to: the state after
/// the last of them and the data bytes they carry. `None` if a byte among
/// them cannot follow what came before it.
pub open spec fn decoded(state: DecoderState, wire: Seq<u8>) -> Option<(DecoderState, Seq<u8>)>
    decreases wire.len(),
{
    if wire.len() == 0 {
        Some((state, Seq::empty()))
    } else {
        match decoded(state, wire.drop_last()) {
            None => None,
            Some((reached, data)) => match step(reached, wire.last()) {
                None => None,
                Some((next, yielded)) => Some((next, with_yield(data, yielded))),
            },
        }
    }
}

/// The data that a complete inbound message carries: `wire` read from
/// between commands, and ending between commands. `None` if `wire` breaks the
/// rules or stops in the middle of a command.
pub open spec fn unescaped(wire: Seq<u8>) -> Option<Seq<u8>> {
    match decoded(DecoderState::Data, wire) {
        Some((DecoderState::Data, data)) => Some(data),
        _ => None,
    }
}

/// The detail reported for a byte that cannot follow an IAC.
pub open spec fn unsupported_command_detail() -> Seq<char> {
    "unsupported Telnet command"@
}

/// The detail reported for a message that stops in the middle of a command.
pub open spec fn incomplete_command_detail() -> Seq<char> {
    "incomplete Telnet command"@
}

/// Escaping works piece by piece: the wire form of `a` followed by `b` is the
/// wire form of `a` followed by the wire form of `b`. So two writes made one
/// after the other put on the wire what one write of both would, the first
/// wholly before the second.
pub proof fn lemma_escaped_concat(a: Seq<u8>, b: Seq<u8>)
    ensures
        escaped(a + b) == escaped(a) + escaped(b),
    decreases b.len(),
{
    if b.len() == 0 {
        assert(a + b == a);
        assert(escaped(b) == Seq::<u8>::empty());
        assert(escaped(a) + escaped(b) == escaped(a));
    } else {
        lemma_escaped_concat(a, b.drop_last());
        assert((a + b).drop_last() == a + b.drop_last());
        assert((a + b).last() == b.last());
        assert(escaped(a + b) == (escaped(a) + escaped(b.drop_last())) + escaped_byte(b.last()));
        assert((escaped(a) + escaped(b.drop_last())) + escaped_byte(b.last()) == escaped(a) + (
        escaped(b.drop_last()) + escaped_byte(b.last())));
    }
}

/// Counting works piece by piece.
pub proof fn lemma_occurrences_concat(a: Seq<u8>, b: Seq<u8>, byte: u8)
    ensures
        occurrences(a + b, byte) == occurrences(a, byte) + occurrences(b, byte),
    decreases b.len(),
{
    if b.len() == 0 {
        assert(a + b == a);
    } else {
        lemma_occurrences_concat(a, b.drop_last(), byte);
        assert((a + b).drop_last() == a + b.drop_last());
        assert((a + b).last() == b.last());
    }
}

/// The wire form holds twice as many bytes 255 as the data, as many of every
/// other byte, and is longer than the data by one byte for each 255 in it.
pub proof fn lemma_escaped_counts(data: Seq<u8>, byte: u8)
    ensures
        occurrences(escaped(data), IAC) == 2 * occurrences(data, IAC),
        byte != IAC ==> occurrences(escaped(data), byte) == occurrences(data, byte),
        escaped(data).len() == data.len() + occurrences(data, IAC),
    decreases data.len(),
{
    if data.len() > 0 {
        let init = data.drop_last();
        let last = data.last();
        lemma_escaped_counts(init, byte);
        lemma_occurrences_concat(escaped(init), escaped_byte(last), IAC);
        lemma_occurrences_concat(escaped(init), escaped_byte(last), byte);
        lemma_occurrences_short(escaped_byte(last), IAC);
        lemma_occurrences_short(escaped_byte(last), byte);
    }
}

/// The count in a sequence of one or two bytes, spelled out.
proof fn lemma_occurrences_short(s: Seq<u8>, byte: u8)
    requires
        1 <= s.len() <= 2,
    ensures
        s.len() == 1 ==> occurrences(s, byte) == if s[0] == byte {
            1nat
        } else {
            0nat
        },
        s.len() == 2 ==> occurrences(s, byte) == (if s[0] == byte {
            1nat
        } else {
            0nat
        }) + (if s[1] == byte {
            1nat
        } else {
            0nat
        }),
{
    reveal_with_fuel(occurrences, 3);
    if s.len() == 2 {
        assert(s.drop_last().len() == 1);
        assert(s.drop_last()[0] == s[0]);
        assert(s.drop_last().drop_last().len() == 0);
    } else {
        assert(s.drop_last().len() == 0);
    }
}

/// Decoding works piece by piece: reading `a` and then `b` is reading `a`,
/// and then `b` from the state that `a` left, with the data of both in order.
/// So a stream may be decoded in whatever chunks it arrives in.
pub proof fn lemma_decoded_concat(state: DecoderState, a: Seq<u8>, b: Seq<u8>)
    ensures
        decoded(state, a + b) == match decoded(state, a) {
            None => None,
            Some((reached, first)) => match decoded(reached, b) {
                None => None,
                Some((end, second)) => Some((end, first + second)),
            },
        },
    decreases b.len(),
{
    if b.len() == 0 {
        assert(a + b == a);
        match decoded(state, a) {
            None => {},
            Some((reached, first)) => {
                assert(first + Seq::<u8>::empty() == first);
            },
        }
    } else {
        lemma_decoded_concat(state, a, b.drop_last());
        assert((a + b).drop_last() == a + b.drop_last());
        assert((a + b).last() == b.last());
        match decoded(state, a) {
            None => {},
            Some((reached, first)) => match decoded(reached, b.drop_last()) {
                None => {},
                Some((mid, second)) => match step(mid, b.last()) {
                    None => {},
                    Some((end, yielded)) => {
                        assert(with_yield(first + second, yielded) == first + with_yield(
                            second,
                            yielded,
                        ));
                    },
                },
            },
        }
    }
}

/// Decoding never yields more bytes than it reads.
pub proof fn lemma_decoded_no_longer(state: DecoderState, wire: Seq<u8>)
    ensures
        decoded(state, wire) matches Some((_, data)) ==> data.len() <= wire.len(),
    decreases wire.len(),
{
    if wire.len() > 0 {
        lemma_decoded_no_longer(state, wire.drop_last());
    }
}

/// What the wire form of one data byte decodes to, read between commands.
proof fn lemma_decoded_escaped_byte(byte: u8)
    ensures
        decoded(DecoderState::Data, escaped_byte(byte)) == Some(
            (DecoderState::Data, seq![byte]),
        ),
{
    reveal_with_fuel(decoded, 3);
    let wire = escaped_byte(byte);
    if byte == IAC {
        let first = wire.drop_last();
        assert(first.len() == 1 && first.last() == IAC);
        assert(first.drop_last().len() == 0);
        assert(decoded(DecoderState::Data, first) == Some(
            (DecoderState::AfterIac, Seq::<u8>::empty()),
        ));
        assert(wire.last() == IAC);
        assert(Seq::<u8>::empty().push(IAC) == seq![byte]);
    } else {
        assert(wire.drop_last().len() == 0);
        assert(wire.last() == byte);
        assert(Seq::<u8>::empty().push(byte) == seq![byte]);
    }
}

/// Escaping and then decoding gives the data back, and leaves the decoder
/// between commands.
pub proof fn lemma_decoded_escaped(data: Seq<u8>)
    ensures
        decoded(DecoderState::Data, escaped(data)) == Some((DecoderState::Data, data)),
    decreases data.len(),
{
    if data.len() == 0 {
        assert(data == Seq::<u8>::empty());
    } else {
        let init = data.drop_last();
        lemma_decoded_escaped(init);
        lemma_decoded_escaped_byte(data.last());
        lemma_decoded_concat(DecoderState::Data, escaped(init), escaped_byte(data.last()));
        assert(init + seq![data.last()] == data);
    }
}

/// The round trip: for every sequence of bytes, unescaping what escaping made
/// of it succeeds and yields the sequence.
pub proof fn lemma_unescape_escape(data: Seq<u8>)
    ensures
        unescaped(escaped(data)) == Some(data),
{
    lemma_decoded_escaped(data);
}

/// The bytes of `chunks`, one chunk after the other.
pub open spec fn joined(chunks: Seq<Seq<u8>>) -> Seq<u8>
    decreases chunks.len(),
{
    if chunks.len() == 0 {
        Seq::empty()
    } else {
        joined(chunks.drop_last()) + chunks.last()
    }
}

/// What a run of writes puts on the wire: the wire form of each, one after
/// the other, each whole before the next begins.
pub open spec fn escaped_in_turn(writes: Seq<Seq<u8>>) -> Seq<u8>
    decreases writes.len(),
{
    if writes.len() == 0 {
        Seq::empty()
    } else {
        escaped_in_turn(writes.drop_last()) + escaped(writes.last())
    }
}

/// What a stream amounts to that arrives in `chunks` and is decoded chunk by
/// chunk, each from the state that the one before it left: the state after
/// the last chunk and the data of all of them in order. `None` if a chunk
/// holds a byte that cannot follow what came before it.
pub open spec fn decoded_in_chunks(state: DecoderState, chunks: Seq<Seq<u8>>) -> Option<
    (DecoderState, Seq<u8>),
>
    decreases chunks.len(),
{
    if chunks.len() == 0 {
        Some((state, Seq::empty()))
    } else {
        match decoded_in_chunks(state, chunks.drop_last()) {
            None => None,
            Some((reached, data)) => match decoded(reached, chunks.last()) {
                None => None,
                Some((next, more)) => Some((next, data + more)),
            },
        }
    }
}

/// Writes made one after another put on the wire exactly what one write of
/// all their data would: no byte of a later write lies before or inside an
/// earlier one, and no escape is split between two writes. For two writes
/// `a` and `b` the wire holds the wire form of `a` and then that of `b`.
pub proof fn lemma_escaped_in_turn(writes: Seq<Seq<u8>>)
    ensures
        escaped_in_turn(writes) == escaped(joined(writes)),
        writes.len() == 2 ==> escaped_in_turn(writes) == escaped(writes[0]) + escaped(writes[1]),
    decreases writes.len(),
{
    if writes.len() > 0 {
        lemma_escaped_in_turn(writes.drop_last());
        lemma_escaped_concat(joined(writes.drop_last()), writes.last());
        if writes.len() == 2 {
            reveal_with_fuel(escaped_in_turn, 3);
            let first = writes.drop_last();
            assert(first.len() == 1 && first.last() == writes[0]);
            assert(first.drop_last().len() == 0);
            assert(Seq::<u8>::empty() + escaped(writes[0]) == escaped(writes[0]));
        }
    }
}

/// However an inbound stream is cut into chunks, decoding it chunk by chunk
/// gives what decoding it in one piece gives: the same data, the same state
/// at the end, and a violation in the one exactly if in the other.
pub proof fn lemma_decoded_in_chunks(state: DecoderState, chunks: Seq<Seq<u8>>)
    ensures
        decoded_in_chunks(state, chunks) == decoded(state, joined(chunks)),
    decreases chunks.len(),
{
    if chunks.len() > 0 {
        lemma_decoded_in_chunks(state, chunks.drop_last());
        lemma_decoded_concat(state, joined(chunks.drop_last()), chunks.last());
    }
}

/// The round trip over reads cut anywhere: if the peer sends the wire form of
/// `data` and it arrives in `chunks`, however cut, then decoding the chunks
/// in order from the start of a stream yields `data`, each doubled 255 as one
/// 255, and ends between commands.
pub proof fn lemma_round_trip_in_chunks(data: Seq<u8>, chunks: Seq<Seq<u8>>)
    requires
        joined(chunks) == escaped(data),
    ensures
        decoded_in_chunks(DecoderState::Data, chunks) == Some((DecoderState::Data, data)),
{
    lemma_decoded_in_chunks(DecoderState::Data, chunks);
    lemma_decoded_escaped(data);
}

/// What one inbound byte does in a given state.
pub fn advance(state: DecoderState, byte: u8) -> (next: Option<(DecoderState, Option<u8>)>)
    ensures
        next == step(state, byte),
{
    match state {
        DecoderState::Data => if byte == IAC {
            Some((DecoderState::AfterIac, None))
        } else {
            Some((DecoderState::Data, Some(byte)))
        },
        DecoderState::AfterIac => if byte == IAC {
            Some((DecoderState::Data, Some(IAC)))
        } else if byte == WILL || byte == WONT || byte == DO || byte == DONT {
            Some((DecoderState::AwaitingOption, None))
        } else if byte == SB {
            Some((DecoderState::InSubnegotiation, None))
        } else {
            None
        },
        DecoderState::AwaitingOption => Some((DecoderState::Data, None)),
        DecoderState::InSubnegotiation => if byte == IAC {
            Some((DecoderState::AfterIacInSubnegotiation, None))
        } else {
            Some((DecoderState::InSubnegotiation, None))
        },
        DecoderState::AfterIacInSubnegotiation => if byte == SE {
            Some((DecoderState::Data, None))
        } else if byte == IAC {
            Some((DecoderState::InSubnegotiation, None))
        } else {
            None
        },
    }
}

/// The decoder of one inbound stream. It remembers between chunks where in a
/// command the stream stands, so the stream may arrive cut at any byte.
#[derive(Debug, Clone, Copy)]
pub struct TelnetDecoder {
    state: DecoderState,
}

impl TelnetDecoder {
    /// Where the stream stands.
    pub closed spec fn state(self) -> DecoderState {
        self.state
    }

    /// A decoder at the start of a stream, between commands.
    pub fn new() -> (decoder: TelnetDecoder)
        ensures
            decoder.state() == DecoderState::Data,
    {
        TelnetDecoder { state: DecoderState::Data }
    }

    /// Where the stream stands.
    pub fn current(&self) -> (state: DecoderState)
        ensures
            state == self.state(),
    {
        self.state
    }

    /// Reads the next chunk of the stream and returns the data bytes in it.
    ///
    /// A byte that cannot follow what came before it is a protocol
    /// violation: the chunk is given up, and the decoder starts afresh between
    /// commands.
    pub fn feed(&mut self, wire: &[u8]) -> (outcome: Result<Vec<u8>, ConnectionError>)
        ensures
            match decoded(old(self).state(), wire@) {
                Some((next, data)) => {
                    &&& outcome matches Ok(bytes)
                    &&& bytes@ == data
                    &&& final(self).state() == next
                },
                None => {
                    &&& outcome matches Err(ConnectionError::ProtocolViolation(detail))
                    &&& detail@ == unsupported_command_detail()
                    &&& final(self).state() == DecoderState::Data
                },
            },
    {
        let ghost start = self.state;
        let mut state = self.state;
        let mut data: Vec<u8> = Vec::new();
        let mut i: usize = 0;
        while i < wire.len()
            invariant
                i <= wire.len(),
                start == old(self).state(),
                decoded(start, wire@.subrange(0, i as int)) == Some((state, data@)),
            decreases wire.len() - i,
        {
            let byte: u8 = wire[i];
            proof {
                let upto = wire@.subrange(0, i + 1);
                assert(upto.drop_last() == wire@.subrange(0, i as int));
                assert(upto.last() == byte);
            }
            match advance(state, byte) {
                None => {
                    proof {
                        let upto = wire@.subrange(0, i + 1);
                        let rest = wire@.subrange(i + 1, wire@.len() as int);
                        assert(decoded(start, upto) is None);
                        assert(upto + rest == wire@);
                        lemma_decoded_concat(start, upto, rest);
                        assert(decoded(start, wire@) is None);
                    }
                    self.state = DecoderState::Data;
                    return Err(
                        ConnectionError::ProtocolViolation(
                            String::from_str("unsupported Telnet command"),
                        ),
                    );
                },
                Some((next, yielded)) => {
                    state = next;
                    match yielded {
                        Some(plain) => {
                            data.push(plain);
                        },
                        None => {},
                    }
                },
            }
            i += 1;
        }
        proof {
            assert(wire@.subrange(0, i as int) == wire@);
        }
        self.state = state;
        Ok(data)
    }
}

/// Doubles every byte 255 of `data`.
pub fn escape(data: &[u8]) -> (wire: Vec<u8>)
    ensures
        wire@ == escaped(data@),
        wire@.len() == data@.len() + occurrences(data@, IAC),
{
    let mut wire: Vec<u8> = Vec::new();
    let mut i: usize = 0;
    while i < data.len()
        invariant
            i <= data.len(),
            wire@ == escaped(data@.subrange(0, i as int)),
        decreases data.len() - i,
    {
        let byte: u8 = data[i];
        proof {
            let upto = data@.subrange(0, i + 1);
            assert(upto.drop_last() == data@.subrange(0, i as int));
            assert(upto.last() == byte);
        }
        wire.push(byte);
        if byte == IAC {
            wire.push(IAC);
        }
        i += 1;
    }
    proof {
        assert(data@.subrange(0, i as int) == data@);
        lemma_escaped_counts(data@, IAC);
    }
    wire
}

/// Undoes `escape` on a complete message: collapses each doubled 255 to one
/// data byte and drops option negotiation and subnegotiation.
///
/// Fails with `ProtocolViolation` where a byte cannot follow an IAC, and
/// where the message stops in the middle of a command.
pub fn unescape(wire: &[u8]) -> (outcome: Result<Vec<u8>, ConnectionError>)
    ensures
        match unescaped(wire@) {
            Some(data) => outcome matches Ok(bytes) && bytes@ == data,
            None => outcome matches Err(ConnectionError::ProtocolViolation(detail)) && detail@
                == if decoded(DecoderState::Data, wire@) is None {
                unsupported_command_detail()
            } else {
                incomplete_command_detail()
            },
        },
{
    let mut decoder = TelnetDecoder::new();
    let data = decoder.feed(wire)?;
    match decoder.current() {
        DecoderState::Data => Ok(data),
        _ => Err(
            ConnectionError::ProtocolViolation(String::from_str("incomplete Telnet command")),
        ),
    }
}

} // verus!
