//! Byte sinks that MessagePack values are written into, and the accounting of
//! what a sequence of writes leaves behind when a sink runs out of room.
use vstd::prelude::*;

verus! {

/// Why writing one MessagePack value failed: either not even its marker
/// byte could be written, or the marker went out and a later byte did not.
#[derive(Debug, Clone, Copy, PartialEq, Eq)]
pub enum ValueWriteError {
    /// The marker byte could not be written.
    InvalidMarkerWrite,
    /// A byte after the marker could not be written.
    InvalidDataWrite,
}

impl ValueWriteError {
    /// A short description of the failure.
    pub fn description(&self) -> (r: &'static str)
        ensures
            r@ == value_write_error_description(*self)@,
    {
        match self {
            ValueWriteError::InvalidMarkerWrite => "failed to write MessagePack marker",
            ValueWriteError::InvalidDataWrite => "failed to write MessagePack data",
        }
    }
}

/// The short description of each write failure.
pub open spec fn value_write_error_description(e: ValueWriteError) -> &'static str {
    match e {
        ValueWriteError::InvalidMarkerWrite => "failed to write MessagePack marker",
        ValueWriteError::InvalidDataWrite => "failed to write MessagePack data",
    }
}

/// Whether `n` more bytes fit into a sink with `room` left (`None`: no limit).
pub open spec fn fits(room: Option<nat>, n: nat) -> bool {
    match room {
        None => true,
        Some(r) => n <= r,
    }
}

/// How many of `n` bytes a sink with `room` left accepts.
pub open spec fn accepted(room: Option<nat>, n: nat) -> nat {
    match room {
        None => n,
        Some(r) => if n <= r {
            n
        } else {
            r
        },
    }
}

/// The room that is left after offering `n` bytes.
pub open spec fn room_after(room: Option<nat>, n: nat) -> Option<nat> {
    match room {
        None => None,
        Some(r) => Some((r - accepted(room, n)) as nat),
    }
}

/// The result of writing one value encoded as `n` bytes into a sink with
/// `room` left.
pub open spec fn value_outcome(room: Option<nat>, n: nat) -> Result<(), ValueWriteError> {
    if fits(room, n) {
        Ok(())
    } else if room == Some(0nat) {
        Err(ValueWriteError::InvalidMarkerWrite)
    } else {
        Err(ValueWriteError::InvalidDataWrite)
    }
}

/// The result of writing the values `parts` one after the other, stopping at
/// the first one that does not fit.
pub open spec fn parts_outcome(room: Option<nat>, parts: Seq<Seq<u8>>) -> Result<
    (),
    ValueWriteError,
>
    decreases parts.len(),
{
    if parts.len() == 0 {
        Ok(())
    } else if fits(room, parts[0].len()) {
        parts_outcome(room_after(room, parts[0].len()), parts.drop_first())
    } else {
        value_outcome(room, parts[0].len())
    }
}

/// `s` without its first `k` elements; empty when it has no more than `k`.
pub open spec fn drop_front(s: Seq<u8>, k: nat) -> Seq<u8> {
    if k <= s.len() {
        s.skip(k as int)
    } else {
        Seq::empty()
    }
}

/// Dropping `a` elements and then `b` more drops `a + b`; dropping none
/// keeps all.
pub proof fn lemma_drop_front_add(s: Seq<u8>, a: nat, b: nat)
    ensures
        drop_front(drop_front(s, a), b) == drop_front(s, a + b),
        drop_front(s, 0) == s,
{
    assert(s.skip(0) =~= s);
    if a + b <= s.len() {
        assert(s.skip(a as int).skip(b as int) =~= s.skip((a + b) as int));
    } else if a <= s.len() {
        assert(s.skip(a as int).len() < b);
    }
    assert(drop_front(drop_front(s, a), b) =~= drop_front(s, a + b));
}

/// A sink of bytes. It has accepted `written()` so far and can accept
/// `room()` more (`None`: as many as are offered). `untouched()` is what
/// lies in the sink past what was written, which later writes overwrite
/// from the front (empty for a sink that grows).
pub trait MsgWrite {
    /// The bytes accepted so far.
    spec fn written(&self) -> Seq<u8>;

    /// How many more bytes are accepted, `None` when there is no limit.
    spec fn room(&self) -> Option<nat>;

    /// The bytes past the written ones that no write has reached yet.
    spec fn untouched(&self) -> Seq<u8>;

    /// Offers all of `buf`. As many bytes as there is room for are accepted,
    /// in order; the call reports whether all of them were.
    fn write_all(&mut self, buf: &[u8]) -> (ok: bool)
        ensures
            final(self).written() == old(self).written() + buf@.take(
                accepted(old(self).room(), buf@.len()) as int,
            ),
            final(self).room() == room_after(old(self).room(), buf@.len()),
            final(self).untouched() == drop_front(
                old(self).untouched(),
                accepted(old(self).room(), buf@.len()),
            ),
            ok == fits(old(self).room(), buf@.len()),
    ;
}

/// `after` is `before` with as much of the values `parts` appended, in order,
/// as the room of `before` allowed, and the bytes past them left as they
/// were.
pub open spec fn appended<W: MsgWrite>(before: W, after: W, parts: Seq<Seq<u8>>) -> bool {
    let all = parts.flatten();
    &&& after.written() == before.written() + all.take(accepted(before.room(), all.len()) as int)
    &&& after.room() == room_after(before.room(), all.len())
    &&& after.untouched() == drop_front(before.untouched(), accepted(before.room(), all.len()))
}

/// A growable vector accepts every byte.
impl MsgWrite for Vec<u8> {
    open spec fn written(&self) -> Seq<u8> {
        self@
    }

    open spec fn room(&self) -> Option<nat> {
        None
    }

    open spec fn untouched(&self) -> Seq<u8> {
        Seq::empty()
    }

    fn write_all(&mut self, buf: &[u8]) -> (ok: bool) {
        let mut i: usize = 0;
        while i < buf.len()
            invariant
                i <= buf@.len(),
                self@ == old(self)@ + buf@.take(i as int),
            decreases buf@.len() - i,
        {
            self.push(buf[i]);
            i = i + 1;
            assert(self@ =~= old(self)@ + buf@.take(i as int));
        }
        assert(buf@.take(buf@.len() as int) =~= buf@);
        true
    }
}

/// A buffer of fixed size that is filled from the front, like a mutable byte
/// slice used as a writer: bytes past its end are refused.
pub struct FixedBuf {
    buf: Vec<u8>,
    pos: usize,
}

impl FixedBuf {
    #[verifier::type_invariant]
    spec fn pos_in_bounds(self) -> bool {
        self.pos <= self.buf@.len()
    }

    /// The whole buffer, written part and untouched part.
    pub closed spec fn contents(&self) -> Seq<u8> {
        self.buf@
    }

    /// How many bytes have been written.
    pub closed spec fn filled(&self) -> nat {
        self.pos as nat
    }

    /// A writer over `buf`, starting at its first byte.
    pub fn new(buf: Vec<u8>) -> (r: FixedBuf)
        ensures
            r.contents() == buf@,
            r.filled() == 0,
            r.written() == Seq::<u8>::empty(),
            r.room() == Some(buf@.len()),
            r.untouched() == buf@,
    {
        let r = FixedBuf { buf, pos: 0 };
        assert(r.buf@.take(0) =~= Seq::<u8>::empty());
        assert(r.buf@.skip(0) =~= r.buf@);
        r
    }

    /// How many bytes have been written.
    pub fn position(&self) -> (r: usize)
        ensures
            r == self.filled(),
            r <= self.contents().len(),
    {
        proof {
            use_type_invariant(self);
        }
        self.pos
    }

    /// The whole buffer.
    pub fn into_inner(self) -> (r: Vec<u8>)
        ensures
            r@ == self.contents(),
            r@ == self.written() + self.untouched(),
    {
        proof {
            use_type_invariant(&self);
            assert(self.buf@ =~= self.written() + self.untouched());
        }
        self.buf
    }
}

impl MsgWrite for FixedBuf {
    open spec fn written(&self) -> Seq<u8> {
        self.contents().take(self.filled() as int)
    }

    open spec fn room(&self) -> Option<nat> {
        Some((self.contents().len() - self.filled()) as nat)
    }

    open spec fn untouched(&self) -> Seq<u8> {
        self.contents().skip(self.filled() as int)
    }

    fn write_all(&mut self, buf: &[u8]) -> (ok: bool)
        ensures
            final(self).contents().len() == old(self).contents().len(),
            final(self).contents().skip(final(self).filled() as int) == old(self).contents().skip(
                final(self).filled() as int,
            ),
    {
        proof {
            use_type_invariant(&*self);
        }
        let space = self.buf.len() - self.pos;
        let n = if buf.len() <= space {
            buf.len()
        } else {
            space
        };
        let start = self.pos;
        self.pos = 0;
        let mut data: Vec<u8> = Vec::new();
        std::mem::swap(&mut data, &mut self.buf);
        let ghost orig = data@;
        let mut i: usize = 0;
        while i < n
            invariant
                i <= n,
                n <= buf@.len(),
                start + n <= data.len(),
                data@.len() == orig.len(),
                forall|j: int| 0 <= j < start ==> data@[j] == orig[j],
                forall|j: int| 0 <= j < i ==> data@[start + j] == buf@[j],
                forall|j: int| start + i <= j < orig.len() ==> data@[j] == orig[j],
            decreases n - i,
        {
            data.set(start + i, buf[i]);
            i = i + 1;
        }
        self.buf = data;
        self.pos = start + n;
        assert(self.buf@.take(self.pos as int) =~= orig.take(start as int) + buf@.take(n as int));
        assert(self.buf@.skip(self.pos as int) =~= orig.skip(self.pos as int));
        n == buf.len()
    }
}

/// Writes one value: its marker byte, then the bytes `data` that complete its
/// header, then its `payload` (empty for values without one). A failure on
/// the marker is a marker error, any later failure a data error.
pub fn put<W: MsgWrite>(wr: &mut W, marker: u8, data: &[u8], payload: &[u8]) -> (r: Result<
    (),
    ValueWriteError,
>)
    ensures
        appended(*old(wr), *final(wr), seq![seq![marker] + data@ + payload@]),
        r == parts_outcome(old(wr).room(), seq![seq![marker] + data@ + payload@]),
{
    let ghost w0 = *wr;
    let ghost enc = seq![marker] + data@ + payload@;
    proof {
        lemma_single_part(w0.room(), enc);
        lemma_drop_front_add(w0.untouched(), 0, 0);
    }
    let mark = [marker];
    if !wr.write_all(&mark) {
        assert(enc.take(0) =~= Seq::<u8>::empty());
        assert(mark@.take(0) =~= Seq::<u8>::empty());
        return Err(ValueWriteError::InvalidMarkerWrite);
    }
    assert(mark@.take(1) =~= seq![marker]);
    let ghost w1 = *wr;
    let ok = wr.write_all(data);
    let ghost k1 = accepted(w1.room(), data@.len());
    proof {
        lemma_drop_front_add(w0.untouched(), 1, k1);
    }
    if !ok {
        proof {
            assert(enc.take(accepted(w0.room(), enc.len()) as int) =~= seq![marker] + data@.take(
                k1 as int,
            ));
            assert(wr.written() =~= w0.written() + (seq![marker] + data@.take(k1 as int)));
        }
        return Err(ValueWriteError::InvalidDataWrite);
    }
    let ghost w2 = *wr;
    let ok2 = wr.write_all(payload);
    proof {
        let k2 = accepted(w2.room(), payload@.len());
        lemma_drop_front_add(w0.untouched(), 1 + k1, k2);
        assert(data@.take(k1 as int) =~= data@);
        assert(enc.take(accepted(w0.room(), enc.len()) as int) =~= seq![marker] + data@
            + payload@.take(k2 as int));
        assert(wr.written() =~= w0.written() + (seq![marker] + data@ + payload@.take(k2 as int)));
    }
    if ok2 {
        Ok(())
    } else {
        Err(ValueWriteError::InvalidDataWrite)
    }
}

/// One value written alone: the flattening is the value itself.
pub proof fn lemma_single_part(room: Option<nat>, bytes: Seq<u8>)
    ensures
        seq![bytes].flatten() == bytes,
        parts_outcome(room, seq![bytes]) == value_outcome(room, bytes.len()),
{
    reveal_with_fuel(parts_outcome, 2);
    seq![bytes].lemma_flatten_one_element();
    assert(seq![bytes].drop_first() =~= Seq::<Seq<u8>>::empty());
}

/// Offering `a` bytes and then `b` more leaves the same room as offering
/// `a + b` at once, when the first `a` fit.
pub proof fn lemma_room_after_add(room: Option<nat>, a: nat, b: nat)
    requires
        fits(room, a),
    ensures
        room_after(room_after(room, a), b) == room_after(room, a + b),
        fits(room_after(room, a), b) == fits(room, a + b),
        accepted(room, a + b) == a + accepted(room_after(room, a), b),
{
}

/// A sequence of values is written in full exactly when their bytes fit.
pub proof fn lemma_parts_ok_iff(room: Option<nat>, parts: Seq<Seq<u8>>)
    ensures
        parts_outcome(room, parts) is Ok <==> fits(room, parts.flatten().len()),
    decreases parts.len(),
{
    if parts.len() > 0 {
        let p = parts[0];
        let rest = parts.drop_first();
        assert(parts.flatten() == p + rest.flatten());
        if fits(room, p.len()) {
            lemma_parts_ok_iff(room_after(room, p.len()), rest);
            lemma_room_after_add(room, p.len(), rest.flatten().len());
        }
    }
}

/// Writing `first` and then `second` reports what writing them as one
/// sequence reports.
pub proof fn lemma_parts_concat(room: Option<nat>, first: Seq<Seq<u8>>, second: Seq<Seq<u8>>)
    ensures
        parts_outcome(room, first) is Ok ==> parts_outcome(room, first + second) == parts_outcome(
            room_after(room, first.flatten().len()),
            second,
        ),
        parts_outcome(room, first) is Err ==> parts_outcome(room, first + second)
            == parts_outcome(room, first),
    decreases first.len(),
{
    if first.len() == 0 {
        assert(first + second =~= second);
        assert(first.flatten().len() == 0);
    } else {
        let p = first[0];
        let rest = first.drop_first();
        assert((first + second).drop_first() =~= rest + second);
        assert((first + second)[0] == p);
        assert(first.flatten() == p + rest.flatten());
        if fits(room, p.len()) {
            lemma_parts_concat(room_after(room, p.len()), rest, second);
            if parts_outcome(room, first) is Ok {
                lemma_parts_ok_iff(room_after(room, p.len()), rest);
                lemma_room_after_add(room, p.len(), rest.flatten().len());
            }
        }
    }
}

/// Nothing written: the empty sequence of values.
pub proof fn lemma_appended_nothing<W: MsgWrite>(w: W)
    ensures
        appended(w, w, Seq::<Seq<u8>>::empty()),
        parts_outcome(w.room(), Seq::<Seq<u8>>::empty()) == Ok::<(), ValueWriteError>(()),
{
    assert(Seq::<Seq<u8>>::empty().flatten() =~= Seq::<u8>::empty());
    lemma_drop_front_add(w.untouched(), 0, 0);
    assert(w.written() + Seq::<u8>::empty().take(0) =~= w.written());
}

/// Two successive writes, the first of which went through in full, append
/// what the two sequences of values append together.
pub proof fn lemma_appended_chain<W: MsgWrite>(
    a: W,
    b: W,
    c: W,
    first: Seq<Seq<u8>>,
    second: Seq<Seq<u8>>,
)
    requires
        appended(a, b, first),
        appended(b, c, second),
        parts_outcome(a.room(), first) is Ok,
    ensures
        appended(a, c, first + second),
        parts_outcome(a.room(), first + second) == parts_outcome(b.room(), second),
{
    let f = first.flatten();
    let g = second.flatten();
    lemma_parts_ok_iff(a.room(), first);
    lemma_parts_concat(a.room(), first, second);
    vstd::seq_lib::lemma_flatten_concat(first, second);
    lemma_room_after_add(a.room(), f.len(), g.len());
    lemma_drop_front_add(a.untouched(), f.len(), accepted(b.room(), g.len()));
    assert(f.take(accepted(a.room(), f.len()) as int) =~= f);
    assert((f + g).take(accepted(a.room(), f.len() + g.len()) as int) =~= f + g.take(
        accepted(b.room(), g.len()) as int,
    ));
    assert(c.written() =~= a.written() + (f + g).take(
        accepted(a.room(), (f + g).len()) as int,
    ));
}

/// A write that stopped short appends, as far as it went, what the longer
/// sequence `first + second` would have appended.
pub proof fn lemma_appended_stop<W: MsgWrite>(
    a: W,
    b: W,
    first: Seq<Seq<u8>>,
    second: Seq<Seq<u8>>,
)
    requires
        appended(a, b, first),
        parts_outcome(a.room(), first) is Err,
    ensures
        appended(a, b, first + second),
        parts_outcome(a.room(), first + second) == parts_outcome(a.room(), first),
{
    let f = first.flatten();
    let g = second.flatten();
    lemma_parts_ok_iff(a.room(), first);
    lemma_parts_concat(a.room(), first, second);
    vstd::seq_lib::lemma_flatten_concat(first, second);
    let r = a.room()->0;
    assert(accepted(a.room(), f.len()) == r);
    assert(accepted(a.room(), f.len() + g.len()) == r);
    assert((f + g).take(r as int) =~= f.take(r as int));
}

/// Every successful outcome carries the one unit value.
pub proof fn lemma_unit_ok<E>(x: Result<(), E>)
    ensures
        x is Ok ==> x == Ok::<(), E>(()),
{
    if x is Ok {
        let u = x->Ok_0;
        assert(u == ());
    }
}

} // verus!
