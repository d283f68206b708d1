//! A byte cache in front of a live, forward-only stream.
//!
//! Audio decoders want to seek, a live HTTP stream cannot. `CachingReader`
//! keeps every byte it has pulled from the underlying stream, so seeking
//! backward into data already read is a pointer move, and seeking forward
//! pulls (and keeps) more bytes from the stream. Seeking from the end of an
//! unbounded stream is refused.
use vstd::prelude::*;

verus! {

/// `std::io::Error`, carried through unchanged from the underlying stream.
#[verifier::external_type_specification]
#[verifier::external_body]
pub struct ExIoError(std::io::Error);

/// Number of bytes requested from the underlying stream per read.
pub const CHUNK_LEN: usize = 8192;

/// Where a seek is measured from (the same three origins as `std::io::SeekFrom`).
#[derive(Clone, Copy, Debug, PartialEq, Eq)]
pub enum SeekFrom {
    Start(u64),
    End(i64),
    Current(i64),
}

/// Why a seek failed: refused by the reader (from the end of an unbounded
/// stream; before the start), or the stream's own error while filling.
#[derive(Debug)]
pub enum SeekError {
    FromEnd,
    BeforeStart,
    Stream(std::io::Error),
}

/// The observable state of a `CachingReader`: the bytes cached so far, the
/// read position inside them, whether the underlying stream has ended, and
/// the chunks its reads have returned.
pub struct CacheView {
    pub bytes: Seq<u8>,
    pub pos: nat,
    pub eof: bool,
    /// Every chunk the stream's reads have returned through `fill_to`, in order.
    pub pulled: Seq<Seq<u8>>,
}

impl CacheView {
    /// The read position lies inside the cache.
    pub open spec fn wf(self) -> bool {
        self.pos <= self.bytes.len()
    }
}

/// `early` is a prefix of `late`.
pub open spec fn is_prefix(early: Seq<u8>, late: Seq<u8>) -> bool {
    &&& early.len() <= late.len()
    &&& late.subrange(0, early.len() as int) == early
}

/// The cache only ever grows at its end, and stops growing once the
/// underlying stream has ended.
pub open spec fn cache_extends(before: CacheView, after: CacheView) -> bool {
    &&& is_prefix(before.bytes, after.bytes)
    &&& before.eof ==> (after.eof && after.bytes == before.bytes)
}

/// One chunk from the stream taken into the cache: an empty chunk marks the
/// end of the stream; any other is appended to the cache, in order.
pub open spec fn absorbed(before: CacheView, chunk: Seq<u8>) -> CacheView {
    if chunk.len() == 0 {
        CacheView { eof: true, ..before }
    } else {
        CacheView { bytes: before.bytes + chunk, ..before }
    }
}

/// The chunks laid end to end.
pub open spec fn concat_chunks(chunks: Seq<Seq<u8>>) -> Seq<u8>
    decreases chunks.len(),
{
    if chunks.len() == 0 {
        Seq::empty()
    } else {
        concat_chunks(chunks.drop_last()) + chunks.last()
    }
}

/// The chunks pulled from the stream between `before` and `after`.
pub open spec fn new_pulls(before: CacheView, after: CacheView) -> Seq<Seq<u8>> {
    after.pulled.subrange(before.pulled.len() as int, after.pulled.len() as int)
}

/// What `fill_to(target)` does to the cache: the position is kept, the
/// cache grows at its end in reads of at most `CHUNK_LEN` bytes, nothing is
/// read when `target` bytes are already cached or the stream has ended, and
/// on success at least `target` bytes are cached unless the stream ended.
/// The cache grows by exactly the chunks the stream's reads returned, in
/// order; only the last of them may be empty, and the stream counts as ended
/// exactly when one was.
pub open spec fn filled(before: CacheView, after: CacheView, target: nat, ok: bool) -> bool {
    let pulls = new_pulls(before, after);
    &&& after.pos == before.pos
    &&& before.pulled.len() <= after.pulled.len()
    &&& after.pulled.subrange(0, before.pulled.len() as int) == before.pulled
    &&& after.bytes == before.bytes + concat_chunks(pulls)
    &&& forall|i: int| 0 <= i < pulls.len() ==> #[trigger] pulls[i].len() <= CHUNK_LEN
    &&& forall|i: int| 0 <= i < pulls.len() - 1 ==> #[trigger] pulls[i].len() > 0
    &&& after.eof == (before.eof || (pulls.len() > 0 && pulls.last().len() == 0))
    &&& cache_extends(before, after)
    &&& (before.bytes.len() >= target || before.eof) ==> after == before
    &&& after.bytes.len() > before.bytes.len() ==> after.bytes.len() < target + CHUNK_LEN
    &&& (before.bytes.len() >= target || before.eof) ==> ok
    &&& ok ==> (after.bytes.len() >= target || after.eof)
    &&& !ok ==> after.eof == before.eof
}

/// Outcome of `read(out)`: the cache is first filled up to `pos + out.len()`;
/// on success `n` is the number of cached bytes available from `pos`, capped
/// at `out.len()`; they are copied to the front of `out` and the position
/// moves past them. On error nothing but the cache may change.
pub open spec fn read_outcome(
    before: CacheView,
    after: CacheView,
    out_before: Seq<u8>,
    out_after: Seq<u8>,
    res: Result<usize, std::io::Error>,
) -> bool {
    let target = before.pos + out_before.len();
    let filled_view = CacheView { pos: before.pos, ..after };
    &&& out_after.len() == out_before.len()
    &&& match res {
        Ok(n) => {
            &&& filled(before, filled_view, target, true)
            &&& n == if out_before.len() <= after.bytes.len() - before.pos {
                out_before.len() as int
            } else {
                after.bytes.len() - before.pos
            }
            &&& after.pos == before.pos + n
            &&& out_after.subrange(0, n as int) == after.bytes.subrange(
                before.pos as int,
                before.pos + n,
            )
            &&& out_after.subrange(n as int, out_after.len() as int) == out_before.subrange(
                n as int,
                out_before.len() as int,
            )
        },
        Err(_) => {
            &&& filled(before, after, target, false)
            &&& out_after == out_before
        },
    }
}

/// The position a seek asks for, before it is checked: `None` for a seek
/// from the end, which an unbounded stream cannot answer.
pub open spec fn seek_request(pos: nat, seek_from: SeekFrom) -> Option<int> {
    match seek_from {
        SeekFrom::Start(p) => Some((p as i64) as int),
        SeekFrom::Current(d) => Some((pos as i64) + d),
        SeekFrom::End(_) => None,
    }
}

/// Outcome of `seek(seek_from)`: seeking from the end (`FromEnd`), or to a
/// negative position (`BeforeStart`), is refused with nothing changed. Otherwise the cache is filled
/// up to the target and the position becomes the target, or the cache's end
/// if the stream ended before it; that position is returned. A stream error
/// while filling comes back as `Stream`.
pub open spec fn seek_outcome(
    before: CacheView,
    after: CacheView,
    seek_from: SeekFrom,
    res: Result<u64, SeekError>,
) -> bool {
    match seek_request(before.pos, seek_from) {
        None => res matches Err(SeekError::FromEnd) && after == before,
        Some(t) => if t < 0 {
            res matches Err(SeekError::BeforeStart) && after == before
        } else {
            let target = ((t as i64) as usize) as nat;
            let filled_view = CacheView { pos: before.pos, ..after };
            match res {
                Ok(p) => {
                    &&& filled(before, filled_view, target, true)
                    &&& after.pos == if target <= after.bytes.len() {
                        target
                    } else {
                        after.bytes.len()
                    }
                    &&& p == after.pos
                },
                Err(e) => e is Stream && filled(before, after, target, false),
            }
        },
    }
}

/// What the stream delivers is read back as delivered: two chunks taken in
/// one after the other are cached in that order, and a reader standing at
/// the end of its cache reads the next chunk's bytes, without touching the
/// stream when they suffice.
pub proof fn law_delivered_bytes_read_back(
    s0: CacheView,
    c1: Seq<u8>,
    c2: Seq<u8>,
    s2: CacheView,
    out: Seq<u8>,
    out_after: Seq<u8>,
    res: Result<usize, std::io::Error>,
)
    requires
        s0.wf(),
        s0.pos == s0.bytes.len(),
        c1.len() > 0,
        c2.len() > 0,
        out.len() <= c1.len(),
        read_outcome(absorbed(absorbed(s0, c1), c2), s2, out, out_after, res),
    ensures
        absorbed(absorbed(s0, c1), c2).bytes == s0.bytes + c1 + c2,
        res matches Ok(n) && n == out.len(),
        out_after == c1.subrange(0, out.len() as int),
        s2.bytes == s0.bytes + c1 + c2,
        s2.pos == s0.pos + out.len(),
{
    let s1 = absorbed(absorbed(s0, c1), c2);
    assert(s1.bytes == s0.bytes + c1 + c2);
    let n = out.len();
    assert(s1.bytes.len() >= s0.pos + n);
    assert(out_after.subrange(0, n as int) =~= out_after);
    assert(s1.bytes.subrange(s0.pos as int, s0.pos + n as int) =~= c1.subrange(0, n as int));
}

/// Filling takes in exactly what the stream gave: the cache grows by the
/// bytes the stream's reads returned, in order and nothing else, every read
/// that returned bytes has all of them cached, and the stream is marked
/// ended only after a read that returned nothing.
pub proof fn law_fill_caches_stream_output(before: CacheView, after: CacheView, target: nat, ok: bool)
    requires
        before.wf(),
        filled(before, after, target, ok),
    ensures
        after.bytes.subrange(0, before.bytes.len() as int) == before.bytes,
        after.bytes.subrange(before.bytes.len() as int, after.bytes.len() as int)
            == concat_chunks(new_pulls(before, after)),
        !before.eof && after.eof ==> new_pulls(before, after).len() > 0 && new_pulls(
            before,
            after,
        ).last().len() == 0,
        (forall|i: int|
            0 <= i < new_pulls(before, after).len() ==> #[trigger] new_pulls(before, after)[i].len()
                > 0) ==> after.eof == before.eof,
{
    let c = concat_chunks(new_pulls(before, after));
    assert(after.bytes.subrange(0, before.bytes.len() as int) =~= before.bytes);
    assert(after.bytes.subrange(before.bytes.len() as int, after.bytes.len() as int) =~= c);
    if (forall|i: int|
        0 <= i < new_pulls(before, after).len() ==> #[trigger] new_pulls(before, after)[i].len()
            > 0) && new_pulls(before, after).len() > 0 {
        let k = new_pulls(before, after).len() - 1;
        assert(new_pulls(before, after)[k].len() > 0);
    }
}

/// Growth of the cache composes: what one step keeps, later steps keep too.
pub proof fn lemma_cache_extends_transitive(a: CacheView, b: CacheView, c: CacheView)
    requires
        cache_extends(a, b),
        cache_extends(b, c),
    ensures
        cache_extends(a, c),
{
    assert(c.bytes.subrange(0, a.bytes.len() as int) =~= b.bytes.subrange(0, a.bytes.len() as int));
}

/// Seeking to a position that is already cached is a pointer move: it
/// succeeds, lands exactly there, and neither reads from the stream nor
/// changes the cache.
pub proof fn law_seek_within_cache_is_a_move(
    before: CacheView,
    after: CacheView,
    p: u64,
    res: Result<u64, SeekError>,
)
    requires
        before.wf(),
        p <= before.bytes.len(),
        p <= i64::MAX,
        p <= usize::MAX,
        seek_outcome(before, after, SeekFrom::Start(p), res),
    ensures
        res matches Ok(q) && q == p,
        after.bytes == before.bytes,
        after.eof == before.eof,
        after.pos == p,
{
}

/// Bytes read once read the same again: after a successful read of `n`
/// bytes at some position, any later state whose cache grew from the one
/// that read left (as every operation of the reader guarantees), put back
/// at the same position, reads the same `n` bytes into an equally long
/// buffer.
pub proof fn law_reread_gives_same_bytes(
    s0: CacheView,
    s1: CacheView,
    out0: Seq<u8>,
    out1: Seq<u8>,
    n: usize,
    s2: CacheView,
    s3: CacheView,
    out2: Seq<u8>,
    out3: Seq<u8>,
    m: usize,
)
    requires
        s0.wf(),
        read_outcome(s0, s1, out0, out1, Ok::<usize, std::io::Error>(n)),
        cache_extends(s1, s2),
        s2.pos == s0.pos,
        out2.len() == out0.len(),
        read_outcome(s2, s3, out2, out3, Ok::<usize, std::io::Error>(m)),
    ensures
        m == n,
        out3.subrange(0, n as int) == out1.subrange(0, n as int),
{
    let f3 = CacheView { pos: s2.pos, ..s3 };
    lemma_cache_extends_transitive(s1, s2, f3);
    assert(s3.bytes.subrange(0, s1.bytes.len() as int) == s1.bytes);
    assert forall|j: int| 0 <= j < n implies out3[j] == out1[j] by {
        assert(out1.subrange(0, n as int)[j] == s1.bytes.subrange(s0.pos as int, s0.pos + n)[j]);
        assert(out3.subrange(0, m as int)[j] == s3.bytes.subrange(s2.pos as int, s2.pos + m)[j]);
        assert(s3.bytes.subrange(0, s1.bytes.len() as int)[s0.pos + j] == s3.bytes[s0.pos + j]);
    }
    assert(out3.subrange(0, n as int) =~= out1.subrange(0, n as int));
}

/// Reads from the underlying stream with `std::io::Read::read`. The standard
/// library documents that a successful read reports a count no larger than
/// the buffer; which bytes arrive, and whether an error comes, is up to the
/// stream and is left unsaid.
#[verifier::external_body]
fn read_from_stream<R: std::io::Read>(inner: &mut R, chunk: &mut Vec<u8>) -> (res: Result<
    usize,
    std::io::Error,
>)
    ensures
        final(chunk)@.len() == old(chunk)@.len(),
        res matches Ok(n) ==> n <= old(chunk)@.len(),
{
    inner.read(chunk.as_mut_slice())
}

/// A seekable view of a forward-only stream that keeps every byte read.
pub struct CachingReader<R> {
    inner: R,
    buf: Vec<u8>,
    pos: usize,
    eof: bool,
    pulled: Ghost<Seq<Seq<u8>>>,
}

impl<R> View for CachingReader<R> {
    type V = CacheView;

    closed spec fn view(&self) -> CacheView {
        CacheView { bytes: self.buf@, pos: self.pos as nat, eof: self.eof, pulled: self.pulled@ }
    }
}

impl<R> CachingReader<R> {
    /// A reader over `inner` with nothing cached yet.
    pub fn new(inner: R) -> (r: Self)
        ensures
            r@.wf(),
            r@.bytes == Seq::<u8>::empty(),
            r@.pos == 0,
            !r@.eof,
            r@.pulled == Seq::<Seq<u8>>::empty(),
    {
        CachingReader { inner, buf: Vec::new(), pos: 0, eof: false, pulled: Ghost(Seq::empty()) }
    }

    /// The read position.
    pub fn position(&self) -> (pos: usize)
        ensures
            pos == self@.pos,
    {
        self.pos
    }

    /// Takes the first `n` bytes of `chunk`, as the stream delivered them,
    /// into the cache: `n == 0` marks the end of the stream, otherwise the
    /// bytes are appended in order. The position does not move.
    pub fn absorb_chunk(&mut self, chunk: &Vec<u8>, n: usize)
        requires
            old(self)@.wf(),
            n <= chunk@.len(),
        ensures
            final(self)@.wf(),
            final(self)@ == absorbed(old(self)@, chunk@.subrange(0, n as int)),
    {
        if n == 0 {
            self.eof = true;
            return ;
        }
        let ghost before = self.buf@;
        let mut i: usize = 0;
        while i < n
            invariant
                n <= chunk@.len(),
                i <= n,
                self.pos == old(self).pos,
                self.eof == old(self).eof,
                self.pulled == old(self).pulled,
                before == old(self).buf@,
                self.buf@ == before + chunk@.subrange(0, i as int),
            decreases n - i,
        {
            self.buf.push(chunk[i]);
            i = i + 1;
        }
    }
}

impl<R: std::io::Read> CachingReader<R> {
    /// Pulls from the underlying stream until at least `target` bytes are
    /// cached, or the stream ends. Each read of at most `CHUNK_LEN` bytes goes
    /// into the cache through `absorb_chunk`; a stream error is returned as is.
    pub fn fill_to(&mut self, target: usize) -> (res: Result<(), std::io::Error>)
        requires
            old(self)@.wf(),
        ensures
            final(self)@.wf(),
            filled(old(self)@, final(self)@, target as nat, res is Ok),
    {
        let ghost start = self@;
        let mut chunk: Vec<u8> = vec![0u8; CHUNK_LEN];
        assert(start.bytes.subrange(0, start.bytes.len() as int) =~= start.bytes);
        assert(self@.pulled.subrange(0, start.pulled.len() as int) =~= start.pulled);
        assert(new_pulls(start, self@) =~= Seq::<Seq<u8>>::empty());
        assert(start.bytes + concat_chunks(Seq::<Seq<u8>>::empty()) =~= start.bytes);
        while self.buf.len() < target && !self.eof
            invariant
                start == old(self)@,
                chunk@.len() == CHUNK_LEN,
                self.pos == start.pos,
                self.pos <= self.buf@.len(),
                cache_extends(start, self@),
                start.eof ==> self@ == start,
                start.bytes.len() >= target ==> self@ == start,
                self.buf@.len() > start.bytes.len() ==> self.buf@.len() < target + CHUNK_LEN,
                start.pulled.len() <= self@.pulled.len(),
                self@.pulled.subrange(0, start.pulled.len() as int) == start.pulled,
                self@.bytes == start.bytes + concat_chunks(new_pulls(start, self@)),
                forall|i: int|
                    0 <= i < new_pulls(start, self@).len() ==> #[trigger] new_pulls(
                        start,
                        self@,
                    )[i].len() <= CHUNK_LEN,
                forall|i: int|
                    0 <= i < new_pulls(start, self@).len() - 1 ==> #[trigger] new_pulls(
                        start,
                        self@,
                    )[i].len() > 0,
                self.eof == (start.eof || (new_pulls(start, self@).len() > 0 && new_pulls(
                    start,
                    self@,
                ).last().len() == 0)),
                !self.eof ==> forall|i: int|
                    0 <= i < new_pulls(start, self@).len() ==> #[trigger] new_pulls(
                        start,
                        self@,
                    )[i].len() > 0,
            decreases (if self.buf@.len() < target {
                target - self.buf@.len()
            } else {
                0
            }) + (if self.eof {
                0int
            } else {
                1int
            }),
        {
            let res = read_from_stream(&mut self.inner, &mut chunk);
            match res {
                Err(e) => {
                    return Err(e);
                },
                Ok(n) => {
                    let ghost before = self@;
                    let ghost got = chunk@.subrange(0, n as int);
                    self.pulled = Ghost(self.pulled@.push(got));
                    self.absorb_chunk(&chunk, n);
                    proof {
                        let p0 = new_pulls(start, before);
                        let p1 = new_pulls(start, self@);
                        assert(p1 =~= p0.push(got));
                        assert(p1.drop_last() =~= p0);
                        assert(self@.pulled.subrange(0, start.pulled.len() as int)
                            =~= start.pulled);
                        if n > 0 {
                            assert(self@.bytes =~= start.bytes + concat_chunks(p1));
                        } else {
                            assert(got =~= Seq::<u8>::empty());
                            assert(concat_chunks(p0) + got =~= concat_chunks(p0));
                        }
                    }
                    assert(self.buf@.subrange(0, start.bytes.len() as int) =~= start.bytes);
                },
            }
        }
        Ok(())
    }

    /// Reads into `out` from the current position, filling the cache from
    /// the underlying stream as needed.
    pub fn read(&mut self, out: &mut [u8]) -> (res: Result<usize, std::io::Error>)
        requires
            old(self)@.wf(),
            old(self)@.pos + old(out)@.len() <= usize::MAX,
        ensures
            final(self)@.wf(),
            read_outcome(old(self)@, final(self)@, old(out)@, final(out)@, res),
    {
        let target = self.pos + out.len();
        match self.fill_to(target) {
            Err(e) => {
                return Err(e);
            },
            Ok(()) => {},
        }
        let available = self.buf.len() - self.pos;
        let n = if available < out.len() {
            available
        } else {
            out.len()
        };
        let ghost out_start = out@;
        let mut i: usize = 0;
        while i < n
            invariant
                i <= n,
                n <= out@.len(),
                out@.len() == out_start.len(),
                self.pos + n <= self.buf.len(),
                forall|j: int| 0 <= j < i ==> out@[j] == self.buf@[self.pos + j],
                forall|j: int| i <= j < out@.len() ==> out@[j] == out_start[j],
            decreases n - i,
        {
            let b = self.buf[self.pos + i];
            out[i] = b;
            i = i + 1;
        }
        proof {
            assert(out@.subrange(0, n as int) =~= self.buf@.subrange(
                self.pos as int,
                self.pos + n,
            ));
            assert(out@.subrange(n as int, out@.len() as int) =~= out_start.subrange(
                n as int,
                out_start.len() as int,
            ));
        }
        self.pos = self.pos + n;
        Ok(n)
    }

    /// Moves the read position. Positions already cached are reached without
    /// touching the stream; later ones pull (and cache) more bytes first.
    pub fn seek(&mut self, seek_from: SeekFrom) -> (res: Result<u64, SeekError>)
        requires
            seek_from matches SeekFrom::Current(d) ==> i64::MIN <= (old(self)@.pos as i64) + d
                <= i64::MAX,
            old(self)@.wf(),
        ensures
            final(self)@.wf(),
            seek_outcome(old(self)@, final(self)@, seek_from, res),
    {
        let target: i64 = match seek_from {
            SeekFrom::Start(p) => p as i64,
            SeekFrom::Current(d) => self.pos as i64 + d,
            SeekFrom::End(_) => {
                return Err(SeekError::FromEnd);
            },
        };
        if target < 0 {
            return Err(SeekError::BeforeStart);
        }
        let target = target as usize;
        match self.fill_to(target) {
            Err(e) => {
                return Err(SeekError::Stream(e));
            },
            Ok(()) => {},
        }
        self.pos = if target < self.buf.len() {
            target
        } else {
            self.buf.len()
        };
        Ok(self.pos as u64)
    }
}

} // verus!
