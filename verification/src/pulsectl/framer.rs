//! Cuts the byte stream of the audio server's notifications into units.
//!
//! The server writes one JSON object per notification, and none of them
//! nests another: a unit ends with the first closing brace. The stream
//! arrives in chunks of any size, so a unit may span several chunks and a
//! chunk may hold several units.

use vstd::prelude::*;

verus! {

/// The byte that ends a unit: a closing brace.
pub const DELIMITER: u8 = 0x7d;

/// What of `bytes` follows the last delimiter: the start of a unit that
/// has not ended yet.
pub open spec fn pending(bytes: Seq<u8>) -> Seq<u8>
    decreases bytes.len(),
{
    if bytes.len() == 0 {
        Seq::empty()
    } else if bytes.last() == DELIMITER {
        Seq::empty()
    } else {
        pending(bytes.drop_last()).push(bytes.last())
    }
}

/// The units that end within `bytes`, in order, each with its delimiter.
pub open spec fn units(bytes: Seq<u8>) -> Seq<Seq<u8>>
    decreases bytes.len(),
{
    if bytes.len() == 0 {
        Seq::empty()
    } else if bytes.last() == DELIMITER {
        units(bytes.drop_last()).push(pending(bytes.drop_last()).push(DELIMITER))
    } else {
        units(bytes.drop_last())
    }
}

/// Whether `bytes` hold no delimiter.
pub open spec fn open_ended(bytes: Seq<u8>) -> bool {
    forall|i: int| 0 <= i < bytes.len() ==> bytes[i] != DELIMITER
}

/// Whether `unit` is one whole unit: it ends with a delimiter and holds
/// no other.
pub open spec fn framed(unit: Seq<u8>) -> bool {
    &&& unit.len() > 0
    &&& unit.last() == DELIMITER
    &&& open_ended(unit.drop_last())
}

/// The bytes of `parts`, one part after the other.
pub open spec fn joined(parts: Seq<Seq<u8>>) -> Seq<u8>
    decreases parts.len(),
{
    if parts.len() == 0 {
        Seq::empty()
    } else {
        joined(parts.drop_last()) + parts.last()
    }
}

/// Bytes without a delimiter hold no unit and are pending as a whole.
pub proof fn lemma_open_ended(bytes: Seq<u8>)
    requires
        open_ended(bytes),
    ensures
        units(bytes) == Seq::<Seq<u8>>::empty(),
        pending(bytes) == bytes,
    decreases bytes.len(),
{
    if bytes.len() > 0 {
        lemma_open_ended(bytes.drop_last());
        assert(pending(bytes.drop_last()).push(bytes.last()) =~= bytes);
    }
}

/// What is pending holds no delimiter.
pub proof fn lemma_pending_open_ended(bytes: Seq<u8>)
    ensures
        open_ended(pending(bytes)),
    decreases bytes.len(),
{
    if bytes.len() > 0 && bytes.last() != DELIMITER {
        lemma_pending_open_ended(bytes.drop_last());
    }
}

/// Cutting loses nothing and adds nothing: the units, one after the
/// other, and then what is pending, are the bytes that came. Every unit
/// is whole, and what is pending holds no delimiter.
pub proof fn lemma_cut_is_lossless(bytes: Seq<u8>)
    ensures
        joined(units(bytes)) + pending(bytes) == bytes,
        forall|i: int| 0 <= i < units(bytes).len() ==> framed(#[trigger] units(bytes)[i]),
        open_ended(pending(bytes)),
    decreases bytes.len(),
{
    lemma_pending_open_ended(bytes);
    if bytes.len() == 0 {
        assert(joined(units(bytes)) + pending(bytes) =~= bytes);
    } else {
        let before = bytes.drop_last();
        lemma_cut_is_lossless(before);
        lemma_pending_open_ended(before);
        if bytes.last() == DELIMITER {
            let unit = pending(before).push(DELIMITER);
            assert(units(bytes).drop_last() =~= units(before));
            assert(unit.drop_last() =~= pending(before));
            assert(framed(unit));
            assert(joined(units(bytes)) + pending(bytes) =~= (joined(units(before)) + pending(
                before,
            )).push(DELIMITER));
            assert(before.push(DELIMITER) =~= bytes);
            assert forall|i: int| 0 <= i < units(bytes).len() implies framed(
                #[trigger] units(bytes)[i],
            ) by {
                if i < units(before).len() {
                    assert(units(bytes)[i] == units(before)[i]);
                }
            }
        } else {
            assert(joined(units(bytes)) + pending(bytes) =~= (joined(units(before)) + pending(
                before,
            )).push(bytes.last()));
            assert(before.push(bytes.last()) =~= bytes);
        }
    }
}

/// Cutting is indifferent to where the stream was split: what ends within
/// `head + tail` is what ends within `head`, and then what ends within
/// the rest of `head` followed by `tail`; what is pending at the end is
/// the same either way.
pub proof fn lemma_split(head: Seq<u8>, tail: Seq<u8>)
    ensures
        units(head + tail) == units(head) + units(pending(head) + tail),
        pending(head + tail) == pending(pending(head) + tail),
    decreases tail.len(),
{
    if tail.len() == 0 {
        assert(head + tail =~= head);
        assert(pending(head) + tail =~= pending(head));
        lemma_pending_open_ended(head);
        lemma_open_ended(pending(head));
        assert(units(head) + Seq::<Seq<u8>>::empty() =~= units(head));
    } else {
        let whole = head + tail;
        let rest = pending(head) + tail;
        lemma_split(head, tail.drop_last());
        assert(whole.drop_last() =~= head + tail.drop_last());
        assert(rest.drop_last() =~= pending(head) + tail.drop_last());
        assert(whole.last() == tail.last());
        assert(rest.last() == tail.last());
        if tail.last() == DELIMITER {
            let unit = pending(rest.drop_last()).push(DELIMITER);
            assert(units(whole) =~= units(head) + units(rest.drop_last()).push(unit));
        }
    }
}

/// A stream of whole units is cut into exactly those units, and nothing
/// is left pending.
pub proof fn lemma_units_of_joined(parts: Seq<Seq<u8>>)
    requires
        forall|i: int| 0 <= i < parts.len() ==> framed(#[trigger] parts[i]),
    ensures
        units(joined(parts)) == parts,
        pending(joined(parts)) == Seq::<u8>::empty(),
    decreases parts.len(),
{
    if parts.len() > 0 {
        let before = parts.drop_last();
        let unit = parts.last();
        assert forall|i: int| 0 <= i < before.len() implies framed(#[trigger] before[i]) by {
            assert(before[i] == parts[i]);
        }
        lemma_units_of_joined(before);
        lemma_split(joined(before), unit);
        assert(framed(parts[parts.len() - 1]));
        assert(pending(joined(before)) + unit =~= unit);
        lemma_open_ended(unit.drop_last());
        assert(units(unit) =~= seq![unit]) by {
            assert(unit.drop_last().push(DELIMITER) =~= unit);
        }
        assert(units(joined(parts)) =~= parts);
    }
}

/// The byte vectors of `frames` as sequences.
pub open spec fn frames_view(frames: Seq<Vec<u8>>) -> Seq<Seq<u8>> {
    frames.map_values(|f: Vec<u8>| f@)
}

/// Collects the bytes of a stream until a unit is whole.
pub struct Framer {
    buffer: Vec<u8>,
}

impl View for Framer {
    type V = Seq<u8>;

    /// The bytes that were fed since the last unit ended.
    closed spec fn view(&self) -> Seq<u8> {
        self.buffer@
    }
}

impl Framer {
    /// No whole unit is ever held: each is handed out when its last byte
    /// comes.
    #[verifier::type_invariant]
    spec fn holds_no_unit(&self) -> bool {
        open_ended(self.buffer@)
    }

    /// A framer at the start of a stream.
    pub fn new() -> (framer: Self)
        ensures
            framer@ == Seq::<u8>::empty(),
    {
        Framer { buffer: Vec::new() }
    }

    /// How many bytes of an unfinished unit are held.
    pub fn pending_len(&self) -> (n: usize)
        ensures
            n == self@.len(),
    {
        self.buffer.len()
    }

    /// Takes the next chunk of the stream and hands out the units that end
    /// within it, in order. What follows the last of them is kept for the
    /// next chunk.
    pub fn feed(&mut self, chunk: &[u8]) -> (frames: Vec<Vec<u8>>)
        ensures
            frames_view(frames@) == units(old(self)@ + chunk@),
            final(self)@ == pending(old(self)@ + chunk@),
    {
        proof {
            use_type_invariant(&*self);
        }
        let ghost start = self.buffer@;
        let mut buffer: Vec<u8> = Vec::new();
        std::mem::swap(&mut self.buffer, &mut buffer);
        let mut frames: Vec<Vec<u8>> = Vec::new();
        let mut i: usize = 0;
        proof {
            lemma_open_ended(start);
            assert(start + chunk@.take(0) =~= start);
            assert(frames_view(frames@) =~= Seq::<Seq<u8>>::empty());
        }
        while i < chunk.len()
            invariant
                i <= chunk.len(),
                frames_view(frames@) == units(start + chunk@.take(i as int)),
                buffer@ == pending(start + chunk@.take(i as int)),
            decreases chunk.len() - i,
        {
            let byte = chunk[i];
            proof {
                let seen = start + chunk@.take(i as int);
                let next = start + chunk@.take(i as int + 1);
                assert(next.drop_last() =~= seen);
                assert(next.last() == byte);
            }
            buffer.push(byte);
            if byte == DELIMITER {
                let mut frame: Vec<u8> = Vec::new();
                std::mem::swap(&mut frame, &mut buffer);
                assert(frames_view(frames@.push(frame)) =~= frames_view(frames@).push(frame@));
                frames.push(frame);
            }
            i = i + 1;
        }
        proof {
            assert(chunk@.take(chunk.len() as int) =~= chunk@);
            lemma_pending_open_ended(start + chunk@);
        }
        std::mem::swap(&mut self.buffer, &mut buffer);
        frames
    }
}

} // verus!
