//! Incremental token production over an externally pre-segmented source.
//!
//! A language-aware word-boundary algorithm hands the engine a source text
//! together with the byte ranges of its segments; `IcuTokenStream` turns that
//! pair into the engine's pull-based token interface, computing for each
//! segment its byte offsets, its zero-based position and its text.

use vstd::prelude::*;

verus! {

/// One produced token.  `offset_from` and `offset_to` are byte positions into
/// the source; `text` holds exactly the source bytes between them, and
/// `position_length` is always 1 (no multi-token spans).
pub struct Token {
    pub offset_from: usize,
    pub offset_to: usize,
    pub position: usize,
    pub text: Vec<u8>,
    pub position_length: usize,
}

impl Token {
    /// A token is bound to a source when its offsets lie inside the source
    /// and its text reproduces the addressed bytes exactly.
    pub open spec fn bound_to(self, src: Seq<u8>) -> bool {
        &&& self.offset_from <= self.offset_to <= src.len()
        &&& self.text@ == src.subrange(self.offset_from as int, self.offset_to as int)
        &&& self.position_length == 1
    }
}

/// A pull-based, single-pass stream of tokens over a segmented source.
///
/// The segments are given as byte ranges of the source; each must be a
/// genuine sub-range, or the offset bookkeeping downstream highlighting
/// relies on would be undefined.  Once exhausted the stream is terminal and
/// is not restartable without reconstruction.
pub struct IcuTokenStream {
    src: Vec<u8>,
    segments: Vec<(usize, usize)>,
    index: usize,
    token: Token,
}

/// Every segment range lies inside the source, lower bound first.
pub open spec fn segments_bound(segments: Seq<(usize, usize)>, src: Seq<u8>) -> bool {
    forall|i: int|
        0 <= i < segments.len() ==> (#[trigger] segments[i]).0 <= segments[i].1 <= src.len()
}

impl IcuTokenStream {
    pub closed spec fn src(self) -> Seq<u8> {
        self.src@
    }

    pub closed spec fn segments(self) -> Seq<(usize, usize)> {
        self.segments@
    }

    pub closed spec fn index(self) -> int {
        self.index as int
    }

    pub closed spec fn current(self) -> Token {
        self.token
    }

    /// The stream's internal consistency: the cursor never runs past the
    /// segment list and every segment addresses real source bytes.
    pub closed spec fn wf(self) -> bool {
        &&& self.index <= self.segments@.len()
        &&& segments_bound(self.segments@, self.src@)
    }

    pub fn new(src: Vec<u8>, segments: Vec<(usize, usize)>) -> (r: IcuTokenStream)
        requires
            segments_bound(segments@, src@),
        ensures
            r.wf(),
            r.src() == src@,
            r.segments() == segments@,
            r.index() == 0,
            r.current().offset_from == 0,
            r.current().offset_to == 0,
            r.current().position == 0,
            r.current().text@ == Seq::<u8>::empty(),
            r.current().position_length == 1,
    {
        IcuTokenStream {
            src,
            segments,
            index: 0,
            token: Token {
                offset_from: 0,
                offset_to: 0,
                position: 0,
                text: Vec::new(),
                position_length: 1,
            },
        }
    }

    /// Move the cursor to the next segment and build its token; returns
    /// `false` — leaving the stream unchanged — once no segment remains.
    pub fn advance(&mut self) -> (r: bool)
        requires
            old(self).wf(),
        ensures
            final(self).wf(),
            final(self).src() == old(self).src(),
            final(self).segments() == old(self).segments(),
            r == (old(self).index() < old(self).segments().len()),
            r ==> {
                &&& final(self).index() == old(self).index() + 1
                &&& final(self).current().offset_from == old(self).segments()[old(self).index()].0
                &&& final(self).current().offset_to == old(self).segments()[old(self).index()].1
                &&& final(self).current().position == old(self).index()
                &&& final(self).current().bound_to(old(self).src())
            },
            !r ==> *final(self) == *old(self),
    {
        if self.index < self.segments.len() {
            let (offset_from, offset_to) = self.segments[self.index];
            let mut text: Vec<u8> = Vec::new();
            let mut b: usize = offset_from;
            while b < offset_to
                invariant
                    offset_from <= b <= offset_to <= self.src@.len(),
                    text@ == self.src@.subrange(offset_from as int, b as int),
                decreases offset_to - b,
            {
                text.push(self.src[b]);
                proof {
                    assert(text@ =~= self.src@.subrange(offset_from as int, b as int + 1));
                }
                b += 1;
            }
            self.token = Token {
                offset_from,
                offset_to,
                position: self.index,
                text,
                position_length: 1,
            };
            self.index += 1;
            true
        } else {
            false
        }
    }

    /// The token built by the last successful `advance`.
    pub fn token(&self) -> (r: &Token)
        ensures
            *r == self.current(),
    {
        &self.token
    }

    /// Mutable access to the current token, for filters that rewrite it.
    pub fn token_mut(&mut self) -> (r: &mut Token)
        requires
            old(self).wf(),
        ensures
            *r == old(self).current(),
            final(self).current() == *final(r),
            final(self).wf(),
            final(self).src() == old(self).src(),
            final(self).segments() == old(self).segments(),
            final(self).index() == old(self).index(),
    {
        &mut self.token
    }
}

} // verus!
