use vstd::prelude::*;
use crate::error::ReadError;

verus! {

/// The three header packets that open a logical stream, in their order.
#[derive(Debug, Clone, Copy, PartialEq, Eq, Structural)]
pub enum HeaderKind {
    Ident,
    Comment,
    Setup,
}

/// What the blocking bootstrapper does with a packet.
#[derive(Debug, Clone, Copy, PartialEq, Eq, Structural)]
pub enum ScanStep {
    /// Parse the packet as this header.
    Take(HeaderKind),
    /// The packet belongs to another stream: drop it.
    Skip,
}

/// The bootstrapper's state: the stream pinned by the first packet, and how
/// many of its headers were taken.
pub struct ScanModel {
    pub serial: u32,
    pub taken: nat,
}

/// The header taken as the `n`-th packet (from zero) of the pinned stream.
pub open spec fn kind_at(n: nat) -> HeaderKind {
    if n == 0 {
        HeaderKind::Ident
    } else if n == 1 {
        HeaderKind::Comment
    } else {
        HeaderKind::Setup
    }
}

/// One move of the bootstrapper on the identifier of the next packet, or on
/// the end of the source (`None`).
pub open spec fn scan_step(m: ScanModel, s: Option<u32>) -> (ScanModel, Result<ScanStep, ReadError>) {
    match s {
        None => (m, Err(ReadError::EndOfPhysicalStream)),
        Some(s) => if m.taken == 0 {
            (ScanModel { serial: s, taken: 1 }, Ok(ScanStep::Take(HeaderKind::Ident)))
        } else if s == m.serial {
            (ScanModel { serial: m.serial, taken: m.taken + 1 }, Ok(ScanStep::Take(kind_at(m.taken))))
        } else {
            (m, Ok(ScanStep::Skip))
        },
    }
}

/// Blocking header bootstrap: the first packet pins the stream, its
/// identification header; the next two packets of that stream are its comment
/// and setup headers, and packets of other streams in between are skipped.
pub struct HeaderScan {
    serial: u32,
    taken: u8,
}

impl View for HeaderScan {
    type V = ScanModel;

    closed spec fn view(&self) -> ScanModel {
        ScanModel { serial: self.serial, taken: self.taken as nat }
    }
}

impl HeaderScan {
    pub closed spec fn wf(&self) -> bool {
        self.taken <= 3
    }

    pub fn new() -> (r: HeaderScan)
        ensures
            r.wf(),
            r@.taken == 0,
    {
        HeaderScan { serial: 0, taken: 0 }
    }

    /// True once all three headers were taken.
    pub fn is_complete(&self) -> (r: bool)
        requires
            self.wf(),
        ensures
            r == (self@.taken == 3),
            self@.taken <= 3,
    {
        self.taken == 3
    }

    /// Identifier of the stream the first packet pinned.
    pub fn stream_serial(&self) -> (r: u32)
        ensures
            r == self@.serial,
    {
        self.serial
    }

    /// Takes the identifier of the next packet, or `None` where the source
    /// is exhausted, and says what to do with the packet.
    pub fn offer(&mut self, s: Option<u32>) -> (r: Result<ScanStep, ReadError>)
        requires
            old(self).wf(),
            old(self)@.taken < 3,
        ensures
            final(self).wf(),
            (final(self)@, r) == scan_step(old(self)@, s),
    {
        match s {
            None => Err(ReadError::EndOfPhysicalStream),
            Some(s) => {
                if self.taken == 0 {
                    self.serial = s;
                    self.taken = 1;
                    Ok(ScanStep::Take(HeaderKind::Ident))
                } else if s == self.serial {
                    let kind = if self.taken == 1 { HeaderKind::Comment } else { HeaderKind::Setup };
                    self.taken = self.taken + 1;
                    Ok(ScanStep::Take(kind))
                } else {
                    Ok(ScanStep::Skip)
                }
            },
        }
    }
}

/// What a non-blocking source had on a poll.
#[derive(Debug, Clone, Copy, PartialEq, Eq, Structural)]
pub enum SourcePoll {
    /// No packet is ready yet.
    Pending,
    /// The source ended.
    Exhausted,
    /// A packet is ready to be taken.
    Ready,
}

/// What a poll of the non-blocking bootstrapper does.
#[derive(Debug, Clone, Copy, PartialEq, Eq, Structural)]
pub enum PhaseStep {
    /// Return "not ready" and keep the phase.
    Suspend,
    /// Fail: the source ended before the headers were complete.
    Fail(ReadError),
    /// Take the ready packet and parse it as this header.
    Parse(HeaderKind),
    /// All headers were handed out already: take no packet.
    Finished,
}

/// Non-blocking header bootstrap, as an explicit phase threaded through the
/// polls. The headers parsed so far travel in the phase, so that a poll
/// that suspends loses nothing. Packets are taken in order, with no filter
/// on their stream.
pub enum HeaderPhase<I, C> {
    AwaitIdent,
    AwaitComment(I),
    AwaitSetup(I, C),
    Done,
}

/// The header the phase waits for, if any.
pub open spec fn phase_wants<I, C>(ph: HeaderPhase<I, C>) -> Option<HeaderKind> {
    match ph {
        HeaderPhase::AwaitIdent => Some(HeaderKind::Ident),
        HeaderPhase::AwaitComment(_) => Some(HeaderKind::Comment),
        HeaderPhase::AwaitSetup(_, _) => Some(HeaderKind::Setup),
        HeaderPhase::Done => None,
    }
}

/// The move of one poll, from the phase and what the source had.
pub open spec fn poll_step<I, C>(ph: HeaderPhase<I, C>, src: SourcePoll) -> PhaseStep {
    match phase_wants(ph) {
        None => PhaseStep::Finished,
        Some(k) => match src {
            SourcePoll::Pending => PhaseStep::Suspend,
            SourcePoll::Exhausted => PhaseStep::Fail(ReadError::EndOfPhysicalStream),
            SourcePoll::Ready => PhaseStep::Parse(k),
        },
    }
}

impl<I, C> HeaderPhase<I, C> {
    pub fn new() -> (r: HeaderPhase<I, C>)
        ensures
            r is AwaitIdent,
    {
        HeaderPhase::AwaitIdent
    }

    /// Decides a poll. The phase is not changed: only a parsed header moves it on.
    pub fn on_poll(&self, src: SourcePoll) -> (r: PhaseStep)
        ensures
            r == poll_step(*self, src),
    {
        let wants = match self {
            HeaderPhase::AwaitIdent => Some(HeaderKind::Ident),
            HeaderPhase::AwaitComment(_) => Some(HeaderKind::Comment),
            HeaderPhase::AwaitSetup(_, _) => Some(HeaderKind::Setup),
            HeaderPhase::Done => None,
        };
        match wants {
            None => PhaseStep::Finished,
            Some(k) => match src {
                SourcePoll::Pending => PhaseStep::Suspend,
                SourcePoll::Exhausted => PhaseStep::Fail(ReadError::EndOfPhysicalStream),
                SourcePoll::Ready => PhaseStep::Parse(k),
            },
        }
    }

    /// The identification header, once it was parsed and until the headers
    /// are handed out; the setup header is parsed with it.
    pub fn ident(&self) -> (r: Option<&I>)
        ensures
            match *self {
                HeaderPhase::AwaitComment(i) => r == Some(&i),
                HeaderPhase::AwaitSetup(i, _) => r == Some(&i),
                _ => r is None,
            },
    {
        match self {
            HeaderPhase::AwaitComment(i) => Some(i),
            HeaderPhase::AwaitSetup(i, _) => Some(i),
            _ => None,
        }
    }

    /// Records the parsed identification header; any other phase is kept.
    pub fn with_ident(self, i: I) -> (r: HeaderPhase<I, C>)
        ensures
            self is AwaitIdent ==> r == HeaderPhase::<I, C>::AwaitComment(i),
            !(self is AwaitIdent) ==> r == self,
    {
        match self {
            HeaderPhase::AwaitIdent => HeaderPhase::AwaitComment(i),
            other => other,
        }
    }

    /// Records the parsed comment header; any other phase is kept.
    pub fn with_comment(self, c: C) -> (r: HeaderPhase<I, C>)
        ensures
            match self {
                HeaderPhase::AwaitComment(i) => r == HeaderPhase::<I, C>::AwaitSetup(i, c),
                _ => r == self,
            },
    {
        match self {
            HeaderPhase::AwaitComment(i) => HeaderPhase::AwaitSetup(i, c),
            other => other,
        }
    }

    /// Once the setup header was parsed: moves to `Done` and hands out the
    /// identification and comment headers. Any other phase is kept.
    pub fn finish(self) -> (r: (HeaderPhase<I, C>, Option<(I, C)>))
        ensures
            match self {
                HeaderPhase::AwaitSetup(i, c) => r.0 is Done && r.1 == Some((i, c)),
                _ => r.0 == self && r.1 is None,
            },
    {
        match self {
            HeaderPhase::AwaitSetup(i, c) => (HeaderPhase::Done, Some((i, c))),
            other => (other, None),
        }
    }
}

/// How many entries of `s` equal `v`.
pub open spec fn count_of(s: Seq<u32>, v: u32) -> nat
    decreases s.len(),
{
    if s.len() == 0 {
        0
    } else {
        (if s[0] == v { 1nat } else { 0nat }) + count_of(s.drop_first(), v)
    }
}

/// The blocking bootstrapper run over the identifiers of the packets `src`
/// until it holds three headers (the pinned stream) or the source ends.
pub open spec fn scan_outcome(m: ScanModel, src: Seq<u32>) -> Result<u32, ReadError>
    decreases src.len(),
{
    if m.taken >= 3 {
        Ok(m.serial)
    } else if src.len() == 0 {
        match scan_step(m, None).1 {
            Ok(_) => Ok(m.serial),
            Err(e) => Err(e),
        }
    } else {
        scan_outcome(scan_step(m, Some(src[0])).0, src.drop_first())
    }
}

proof fn lemma_scan_pinned(m: ScanModel, src: Seq<u32>)
    requires
        1 <= m.taken <= 3,
    ensures
        scan_outcome(m, src) == (if m.taken + count_of(src, m.serial) >= 3 {
            Ok::<u32, ReadError>(m.serial)
        } else {
            Err(ReadError::EndOfPhysicalStream)
        }),
    decreases src.len(),
{
    if m.taken < 3 && src.len() > 0 {
        lemma_scan_pinned(scan_step(m, Some(src[0])).0, src.drop_first());
    }
}

/// Bootstrap succeeds, pinning the first packet's stream, exactly when the
/// source holds three packets of that stream; a source that ends before
/// fails with `EndOfPhysicalStream`, never another error.
pub proof fn lemma_bootstrap_outcome(m: ScanModel, src: Seq<u32>)
    requires
        m.taken == 0,
    ensures
        src.len() == 0 ==> scan_outcome(m, src) == Err::<u32, ReadError>(ReadError::EndOfPhysicalStream),
        src.len() > 0 ==> scan_outcome(m, src) == (if count_of(src, src[0]) >= 3 {
            Ok::<u32, ReadError>(src[0])
        } else {
            Err(ReadError::EndOfPhysicalStream)
        }),
{
    if src.len() > 0 {
        let m1 = ScanModel { serial: src[0], taken: 1 };
        lemma_scan_pinned(m1, src.drop_first());
        assert(count_of(src, src[0]) == 1 + count_of(src.drop_first(), src[0]));
    }
}

} // verus!
