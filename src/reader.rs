use vstd::prelude::*;
use crate::error::ReadError;
use crate::packet::PacketInfo;

verus! {

/// Where the reader stands between two packets. `Normal` is plain decoding;
/// the other phases are the steps of a chain transition, entered when a
/// packet starts a new logical stream. In every phase, packets of streams
/// the reader neither follows nor is bootstrapping are skipped.
#[derive(Debug, Clone, Copy, PartialEq, Eq, Structural)]
pub enum Phase {
    /// Packets of the current stream are decoded.
    Normal,
    /// The new stream's identification header was taken; its comment header comes next.
    AwaitComment,
    /// The comment header was taken; the setup header comes next, and the
    /// new headers take effect once the driver commits them.
    AwaitSetup,
    /// The new headers are in place; the stream's next packet only primes the decoder.
    Prime,
    /// The decoder is primed; the stream's next packet is decoded.
    Direct,
}

/// What the driver does with the packet it just handed over.
#[derive(Debug, Clone, Copy, PartialEq, Eq, Structural)]
pub enum Action {
    /// The packet belongs to an unrelated stream: drop it and read the next one.
    Skip,
    /// Parse the packet as the identification header of a new stream.
    ParseIdent,
    /// Parse the packet as the comment header of the new stream.
    ParseComment,
    /// Parse the packet as the setup header; once it parsed, replace the
    /// header set, start from a fresh decode-continuity state and call
    /// `commit_headers`.
    ParseSetup,
    /// Decode the packet to prime the fresh continuity state and drop the output.
    Prime,
    /// Decode the packet, pass the sample count to `complete_unit`, and hand
    /// out the unit truncated to the count it returns.
    Decode,
    /// The source is exhausted: the stream has ended (not an error).
    Finish,
}

/// The state of a reader, as the contracts see it.
#[derive(Debug, Clone, Copy, PartialEq, Eq, Structural)]
pub struct TrackerModel {
    /// Identifier of the current logical stream.
    pub serial: u32,
    /// Identifier of the stream whose headers are being read during a chain
    /// transition.
    pub pending: u32,
    /// Last known absolute granule position, if one is established.
    pub last: Option<u64>,
    pub phase: Phase,
}

/// `a - b`, or zero where `b` exceeds `a`.
pub open spec fn sat_sub(a: u64, b: u64) -> u64 {
    if a >= b { (a - b) as u64 } else { 0 }
}

/// `a + b`, or `u64::MAX` where the sum does not fit.
pub open spec fn sat_add(a: u64, b: u64) -> u64 {
    if a + b <= u64::MAX { (a + b) as u64 } else { u64::MAX }
}

/// `m` with its phase set to `phase`.
pub open spec fn with_phase(m: TrackerModel, phase: Phase) -> TrackerModel {
    TrackerModel { serial: m.serial, pending: m.pending, last: m.last, phase }
}

/// One move of the reader: the state after a packet (or the end of the
/// source, `None`) and what the driver must do with it.
pub open spec fn step(m: TrackerModel, p: Option<PacketInfo>) -> (TrackerModel, Result<Action, ReadError>) {
    match p {
        None => match m.phase {
            Phase::AwaitComment | Phase::AwaitSetup =>
                (with_phase(m, Phase::Normal), Err(ReadError::EndOfPhysicalStream)),
            _ => (with_phase(m, Phase::Normal), Ok(Action::Finish)),
        },
        Some(p) => match m.phase {
            Phase::AwaitComment => if p.serial == m.pending {
                (with_phase(m, Phase::AwaitSetup), Ok(Action::ParseComment))
            } else {
                (m, Ok(Action::Skip))
            },
            Phase::AwaitSetup => if p.serial == m.pending {
                (m, Ok(Action::ParseSetup))
            } else {
                (m, Ok(Action::Skip))
            },
            _ => if p.serial == m.serial {
                match m.phase {
                    Phase::Prime => (
                        TrackerModel {
                            serial: m.serial,
                            pending: m.pending,
                            last: if p.last_in_page { Some(p.absgp) } else { None },
                            phase: Phase::Direct,
                        },
                        Ok(Action::Prime),
                    ),
                    _ => (with_phase(m, Phase::Normal), Ok(Action::Decode)),
                }
            } else if p.first_in_stream {
                (
                    TrackerModel { serial: m.serial, pending: p.serial, last: m.last, phase: Phase::AwaitComment },
                    Ok(Action::ParseIdent),
                )
            } else {
                (m, Ok(Action::Skip))
            },
        },
    }
}

/// The state once the driver has put the new stream's headers in place:
/// the reader follows that stream, with no granule position known yet.
/// Outside `AwaitSetup` nothing changes.
pub open spec fn commit(m: TrackerModel) -> TrackerModel {
    if m.phase == Phase::AwaitSetup {
        TrackerModel { serial: m.pending, pending: m.pending, last: None, phase: Phase::Prime }
    } else {
        m
    }
}

/// Samples kept of a decoded unit of `produced` samples: the last unit of a
/// logical stream ends where the page's granule position says, once a
/// granule position is known.
pub open spec fn kept_samples(last: Option<u64>, p: PacketInfo, produced: u64) -> u64 {
    match last {
        Some(a) => if p.last_in_stream && sat_sub(p.absgp, a) < produced {
            sat_sub(p.absgp, a)
        } else {
            produced
        },
        None => produced,
    }
}

/// Granule position known after a unit of `kept` samples: the page's own at
/// a page boundary, else the running estimate, which stays unknown until a
/// page boundary is seen.
pub open spec fn granule_after(last: Option<u64>, p: PacketInfo, kept: u64) -> Option<u64> {
    if p.last_in_page {
        Some(p.absgp)
    } else {
        match last {
            Some(a) => Some(sat_add(a, kept)),
            None => None,
        }
    }
}

/// Decisions of a logical stream reader: which packets are audio of the
/// current stream, when a chained stream begins, how long each decoded unit
/// is, and the last known granule position.
pub struct StreamTracker {
    serial: u32,
    pending: u32,
    last_absgp: Option<u64>,
    phase: Phase,
}

impl View for StreamTracker {
    type V = TrackerModel;

    closed spec fn view(&self) -> TrackerModel {
        TrackerModel { serial: self.serial, pending: self.pending, last: self.last_absgp, phase: self.phase }
    }
}

impl StreamTracker {
    /// A reader for the stream `serial` whose headers were just read.
    pub fn new(serial: u32) -> (r: StreamTracker)
        ensures
            r@ == (TrackerModel { serial, pending: serial, last: None, phase: Phase::Normal }),
    {
        StreamTracker { serial, pending: serial, last_absgp: None, phase: Phase::Normal }
    }

    /// Identifier of the current logical stream; it changes at a chain transition.
    pub fn stream_serial(&self) -> (r: u32)
        ensures
            r == self@.serial,
    {
        self.serial
    }

    /// The last known absolute granule position, in samples per channel.
    pub fn get_last_absgp(&self) -> (r: Option<u64>)
        ensures
            r == self@.last,
    {
        self.last_absgp
    }

    pub fn phase(&self) -> (r: Phase)
        ensures
            r == self@.phase,
    {
        self.phase
    }

    /// Takes the next packet of the source, or `None` where the source is
    /// exhausted, and says what to do with it.
    pub fn on_packet(&mut self, p: Option<PacketInfo>) -> (r: Result<Action, ReadError>)
        ensures
            (final(self)@, r) == step(old(self)@, p),
    {
        match p {
            None => {
                let was = self.phase;
                self.phase = Phase::Normal;
                match was {
                    Phase::AwaitComment | Phase::AwaitSetup => Err(ReadError::EndOfPhysicalStream),
                    _ => Ok(Action::Finish),
                }
            },
            Some(p) => match self.phase {
                Phase::AwaitComment => {
                    if p.serial == self.pending {
                        self.phase = Phase::AwaitSetup;
                        Ok(Action::ParseComment)
                    } else {
                        Ok(Action::Skip)
                    }
                },
                Phase::AwaitSetup => {
                    if p.serial == self.pending {
                        Ok(Action::ParseSetup)
                    } else {
                        Ok(Action::Skip)
                    }
                },
                _ => {
                    if p.serial == self.serial {
                        match self.phase {
                            Phase::Prime => {
                                self.last_absgp = if p.last_in_page { Some(p.absgp) } else { None };
                                self.phase = Phase::Direct;
                                Ok(Action::Prime)
                            },
                            _ => {
                                self.phase = Phase::Normal;
                                Ok(Action::Decode)
                            },
                        }
                    } else if p.first_in_stream {
                        self.pending = p.serial;
                        self.phase = Phase::AwaitComment;
                        Ok(Action::ParseIdent)
                    } else {
                        Ok(Action::Skip)
                    }
                },
            },
        }
    }

    /// Puts the new stream's headers in effect, once its setup header parsed:
    /// the reader follows that stream from now on, and its granule position
    /// is unknown until a page boundary.
    pub fn commit_headers(&mut self)
        ensures
            final(self)@ == commit(old(self)@),
    {
        match self.phase {
            Phase::AwaitSetup => {
                self.serial = self.pending;
                self.last_absgp = None;
                self.phase = Phase::Prime;
            },
            _ => {},
        }
    }

    /// Books a decoded unit of `produced` samples from packet `p`: returns
    /// how many samples of it to keep, and moves the granule position on.
    pub fn complete_unit(&mut self, p: &PacketInfo, produced: u64) -> (kept: u64)
        ensures
            kept == kept_samples(old(self)@.last, *p, produced),
            kept <= produced,
            final(self)@ == (TrackerModel {
                serial: old(self)@.serial,
                pending: old(self)@.pending,
                last: granule_after(old(self)@.last, *p, kept),
                phase: old(self)@.phase,
            }),
    {
        let kept: u64 = match self.last_absgp {
            Some(a) => {
                let target = p.absgp.saturating_sub(a);
                if p.last_in_stream && target < produced {
                    target
                } else {
                    produced
                }
            },
            None => produced,
        };
        if p.last_in_page {
            self.last_absgp = Some(p.absgp);
        } else {
            match self.last_absgp {
                Some(a) => {
                    self.last_absgp = Some(a.saturating_add(kept));
                },
                None => {},
            }
        }
        kept
    }

    /// Forgets decode state after the source moved to another page: the
    /// granule position is unknown until the next page boundary.
    pub fn reset_after_seek(&mut self)
        ensures
            final(self)@ == (TrackerModel {
                serial: old(self)@.serial,
                pending: old(self)@.pending,
                last: None,
                phase: Phase::Normal,
            }),
    {
        self.last_absgp = None;
        self.phase = Phase::Normal;
    }
}

/// A move of the reader under a driver whose header parses succeed: after
/// `ParseSetup` the driver commits the new headers.
pub open spec fn drive_step(m: TrackerModel, p: PacketInfo) -> (TrackerModel, Result<Action, ReadError>) {
    let (m1, r) = step(m, Some(p));
    if r == Ok::<Action, ReadError>(Action::ParseSetup) {
        (commit(m1), r)
    } else {
        (m1, r)
    }
}

/// The reader run over the packets `ps` in turn: its state after them, and
/// the answer it gave to each.
pub open spec fn run(m: TrackerModel, ps: Seq<PacketInfo>) -> (TrackerModel, Seq<Result<Action, ReadError>>)
    decreases ps.len(),
{
    if ps.len() == 0 {
        (m, Seq::empty())
    } else {
        let (m1, r) = drive_step(m, ps[0]);
        let rest = run(m1, ps.drop_first());
        (rest.0, seq![r] + rest.1)
    }
}

/// `n` answers `Decode`.
pub open spec fn decodes(n: nat) -> Seq<Result<Action, ReadError>> {
    Seq::new(n, |i: int| Ok(Action::Decode))
}

/// `n` answers `Skip`.
pub open spec fn skips(n: nat) -> Seq<Result<Action, ReadError>> {
    Seq::new(n, |i: int| Ok(Action::Skip))
}

/// `p` belongs neither to the stream `m` follows nor to the one whose
/// headers it reads, and starts no stream.
pub open spec fn foreign_to(m: TrackerModel, p: PacketInfo) -> bool {
    p.serial != m.serial && p.serial != m.pending && !p.first_in_stream
}

/// Running over two stretches of packets is running over the first, then
/// over the second from where the first left the reader.
pub proof fn lemma_run_append(m: TrackerModel, a: Seq<PacketInfo>, b: Seq<PacketInfo>)
    ensures
        run(m, a + b) == (run(run(m, a).0, b).0, run(m, a).1 + run(run(m, a).0, b).1),
    decreases a.len(),
{
    if a.len() == 0 {
        assert(a + b =~= b);
        assert(run(m, a).1 + run(m, b).1 =~= run(m, b).1);
    } else {
        let m1 = drive_step(m, a[0]).0;
        assert((a + b).drop_first() =~= a.drop_first() + b);
        lemma_run_append(m1, a.drop_first(), b);
        let r = drive_step(m, a[0]).1;
        assert(seq![r] + (run(m1, a.drop_first()).1 + run(run(m1, a.drop_first()).0, b).1)
            =~= (seq![r] + run(m1, a.drop_first()).1) + run(run(m1, a.drop_first()).0, b).1);
    }
}

/// Every packet of the current stream is decoded, one unit each, and the
/// end of the source then ends the stream without error.
pub proof fn lemma_single_stream_decodes_each(m: TrackerModel, ps: Seq<PacketInfo>)
    requires
        m.phase == Phase::Normal,
        forall|i: int| 0 <= i < ps.len() ==> #[trigger] ps[i].serial == m.serial,
    ensures
        run(m, ps) == (m, decodes(ps.len())),
        step(run(m, ps).0, None) == (m, Ok::<Action, ReadError>(Action::Finish)),
    decreases ps.len(),
{
    if ps.len() > 0 {
        let rest = ps.drop_first();
        assert forall|i: int| 0 <= i < rest.len() implies #[trigger] rest[i].serial == m.serial by {
            assert(rest[i] == ps[i + 1]);
        }
        lemma_single_stream_decodes_each(m, rest);
        assert(seq![Ok::<Action, ReadError>(Action::Decode)] + decodes(rest.len()) =~= decodes(ps.len()));
    }
}

/// Whatever the phase, a packet of an unrelated stream that does not start
/// a stream is dropped: it yields neither a unit nor an error, and the
/// reader is left as it was.
pub proof fn lemma_foreign_packet_skipped(m: TrackerModel, p: PacketInfo)
    requires
        foreign_to(m, p),
    ensures
        step(m, Some(p)) == (m, Ok::<Action, ReadError>(Action::Skip)),
        drive_step(m, p) == (m, Ok::<Action, ReadError>(Action::Skip)),
{
}

proof fn lemma_foreign_run(m: TrackerModel, f: Seq<PacketInfo>)
    requires
        forall|i: int| 0 <= i < f.len() ==> foreign_to(m, #[trigger] f[i]),
    ensures
        run(m, f) == (m, skips(f.len())),
    decreases f.len(),
{
    if f.len() > 0 {
        let rest = f.drop_first();
        assert forall|i: int| 0 <= i < rest.len() implies foreign_to(m, #[trigger] rest[i]) by {
            assert(rest[i] == f[i + 1]);
        }
        lemma_foreign_packet_first(m, f);
        lemma_foreign_run(m, rest);
        assert(seq![Ok::<Action, ReadError>(Action::Skip)] + skips(rest.len()) =~= skips(f.len()));
    }
}

proof fn lemma_foreign_packet_first(m: TrackerModel, f: Seq<PacketInfo>)
    requires
        f.len() > 0,
        forall|i: int| 0 <= i < f.len() ==> foreign_to(m, #[trigger] f[i]),
    ensures
        drive_step(m, f[0]) == (m, Ok::<Action, ReadError>(Action::Skip)),
{
    assert(foreign_to(m, f[0]));
    lemma_foreign_packet_skipped(m, f[0]);
}

/// Packets `f` of unrelated streams slipped in anywhere, after the packets
/// `a`, only add `Skip` answers: the reader answers the packets around them
/// as it would without them, and ends in the same state.
pub proof fn lemma_foreign_inserted(m: TrackerModel, a: Seq<PacketInfo>, f: Seq<PacketInfo>, b: Seq<PacketInfo>)
    requires
        forall|i: int| 0 <= i < f.len() ==> foreign_to(run(m, a).0, #[trigger] f[i]),
    ensures
        run(m, a + f + b).1 == run(m, a).1 + skips(f.len()) + run(run(m, a).0, b).1,
        run(m, a + b).1 == run(m, a).1 + run(run(m, a).0, b).1,
        run(m, a + f + b).0 == run(m, a + b).0,
{
    let ma = run(m, a).0;
    lemma_run_append(m, a, b);
    lemma_run_append(m, a + f, b);
    lemma_run_append(m, a, f);
    lemma_foreign_run(ma, f);
}

/// A call that hands out a unit or ends the stream leaves the reader in
/// plain decoding, where every call starts.
pub proof fn lemma_call_ends_normal(m: TrackerModel, p: Option<PacketInfo>)
    requires
        step(m, p).1 == Ok::<Action, ReadError>(Action::Decode) || step(m, p).1 == Ok::<Action, ReadError>(Action::Finish),
    ensures
        step(m, p).0.phase == Phase::Normal,
{
}

/// Chained streams: after the packets `a` of the current stream come the
/// three headers of a new stream and its audio packets `b`. Every packet of
/// `a` is decoded, the headers are parsed, the first packet of `b` primes
/// the decoder, the others are decoded, and no error arises; the reader then
/// follows the new stream, with no granule position known from before.
pub proof fn lemma_chain_transition(
    m: TrackerModel,
    a: Seq<PacketInfo>,
    ident: PacketInfo,
    comment: PacketInfo,
    setup: PacketInfo,
    b: Seq<PacketInfo>,
)
    requires
        m.phase == Phase::Normal,
        forall|i: int| 0 <= i < a.len() ==> #[trigger] a[i].serial == m.serial,
        ident.serial != m.serial,
        ident.first_in_stream,
        comment.serial == ident.serial,
        setup.serial == ident.serial,
        b.len() >= 1,
        forall|i: int| 0 <= i < b.len() ==> #[trigger] b[i].serial == ident.serial,
    ensures
        run(m, a + seq![ident, comment, setup] + b).1 == decodes(a.len()) + seq![
            Ok(Action::ParseIdent),
            Ok(Action::ParseComment),
            Ok(Action::ParseSetup),
            Ok(Action::Prime),
        ] + decodes((b.len() - 1) as nat),
        run(m, a + seq![ident, comment, setup] + b).0.serial == ident.serial,
        run(m, a + seq![ident, comment, setup]).0.serial == ident.serial,
        run(m, a + seq![ident, comment, setup]).0.last is None,
        step(run(m, a + seq![ident, comment, setup] + b).0, None).1 == Ok::<Action, ReadError>(Action::Finish),
{
    let h = seq![ident, comment, setup];
    lemma_single_stream_decodes_each(m, a);
    lemma_run_append(m, a, h);
    lemma_run_append(m, a + h, b);
    let m1 = TrackerModel { serial: m.serial, pending: ident.serial, last: m.last, phase: Phase::AwaitComment };
    let m2 = with_phase(m1, Phase::AwaitSetup);
    let m3 = TrackerModel { serial: ident.serial, pending: ident.serial, last: None, phase: Phase::Prime };
    assert(h.drop_first() =~= seq![comment, setup]);
    assert(h.drop_first().drop_first() =~= seq![setup]);
    assert(h.drop_first().drop_first().drop_first() =~= Seq::<PacketInfo>::empty());
    assert(h[0] == ident && h.drop_first()[0] == comment && h.drop_first().drop_first()[0] == setup);
    assert(drive_step(m, ident) == (m1, Ok::<Action, ReadError>(Action::ParseIdent)));
    assert(drive_step(m1, comment) == (m2, Ok::<Action, ReadError>(Action::ParseComment)));
    assert(drive_step(m2, setup) == (m3, Ok::<Action, ReadError>(Action::ParseSetup)));
    assert(run(m3, Seq::<PacketInfo>::empty()) == (m3, Seq::<Result<Action, ReadError>>::empty()));
    assert(run(m2, seq![setup]).1 =~= seq![Ok(Action::ParseSetup)]);
    assert(run(m2, seq![setup]).0 == m3);
    assert(run(m1, seq![comment, setup]).1 =~= seq![Ok(Action::ParseComment), Ok(Action::ParseSetup)]);
    assert(run(m1, seq![comment, setup]).0 == m3);
    assert(run(m, h).0 == m3);
    assert(run(m, h).1 =~= seq![
        Ok(Action::ParseIdent),
        Ok(Action::ParseComment),
        Ok(Action::ParseSetup),
    ]);
    let m4 = drive_step(m3, b[0]).0;
    let b1 = b.drop_first();
    if b1.len() == 0 {
        assert(run(m4, b1) == (m4, Seq::<Result<Action, ReadError>>::empty()));
        assert(run(m3, b).1 =~= seq![Ok(Action::Prime)]);
        assert(run(m3, b).0 == m4);
    } else {
        let m5 = with_phase(m4, Phase::Normal);
        let b2 = b1.drop_first();
        assert forall|i: int| 0 <= i < b2.len() implies #[trigger] b2[i].serial == m5.serial by {
            assert(b2[i] == b[i + 2]);
        }
        lemma_single_stream_decodes_each(m5, b2);
        assert(b1[0] == b[1]);
        assert(run(m4, b1).0 == m5);
        assert(run(m3, b).0 == m5);
        assert(run(m4, b1).1 =~= seq![Ok(Action::Decode)] + decodes(b2.len()));
        assert(run(m3, b).1 =~= seq![Ok(Action::Prime)] + (seq![Ok(Action::Decode)] + decodes(b2.len())));
        assert(seq![Ok::<Action, ReadError>(Action::Decode)] + decodes(b2.len()) =~= decodes((b.len() - 1) as nat));
    }
    assert(decodes(a.len()) + run(m, h).1 + run(m3, b).1 =~= decodes(a.len()) + seq![
        Ok(Action::ParseIdent),
        Ok(Action::ParseComment),
        Ok(Action::ParseSetup),
        Ok(Action::Prime),
    ] + decodes((b.len() - 1) as nat));
}

/// A source that ends after a new stream's identification header, or after
/// its identification and comment headers, fails with `EndOfPhysicalStream`;
/// the reader still reports the stream it followed before.
pub proof fn lemma_transition_cut_short(m: TrackerModel, ident: PacketInfo, comment: PacketInfo)
    requires
        m.phase == Phase::Normal,
        ident.serial != m.serial,
        ident.first_in_stream,
        comment.serial == ident.serial,
    ensures
        step(run(m, seq![ident]).0, None).1 == Err::<Action, ReadError>(ReadError::EndOfPhysicalStream),
        step(run(m, seq![ident]).0, None).0.serial == m.serial,
        step(run(m, seq![ident, comment]).0, None).1 == Err::<Action, ReadError>(ReadError::EndOfPhysicalStream),
        step(run(m, seq![ident, comment]).0, None).0.serial == m.serial,
{
    let m1 = TrackerModel { serial: m.serial, pending: ident.serial, last: m.last, phase: Phase::AwaitComment };
    let m2 = with_phase(m1, Phase::AwaitSetup);
    assert(seq![ident].drop_first() =~= Seq::<PacketInfo>::empty());
    assert(seq![ident, comment].drop_first() =~= seq![comment]);
    assert(drive_step(m, ident).0 == m1);
    assert(run(m1, Seq::<PacketInfo>::empty()).0 == m1);
    assert(run(m, seq![ident]).0 == m1);
    assert(drive_step(m1, comment).0 == m2);
    assert(seq![comment].drop_first() =~= Seq::<PacketInfo>::empty());
    assert(run(m2, Seq::<PacketInfo>::empty()).0 == m2);
    assert(run(m1, seq![comment]).0 == m2);
    assert(run(m, seq![ident, comment]).0 == m2);
}

/// The last unit of a logical stream has exactly as many samples as its
/// page's granule position `G` lies past the known position `P`, that is
/// `max(0, G - P)`, where the decoder produced at least that many.
pub proof fn lemma_last_unit_truncated(known: u64, p: PacketInfo, produced: u64)
    requires
        p.last_in_stream,
        produced >= sat_sub(p.absgp, known),
    ensures
        kept_samples(Some(known), p, produced) == sat_sub(p.absgp, known),
        sat_sub(p.absgp, known) == (if p.absgp >= known { p.absgp - known } else { 0 }),
{
}

/// A known granule position does not decrease from one unit to the next
/// while page positions do not fall behind it; an unknown one becomes known
/// exactly at a page boundary, and a chain transition makes it unknown.
pub proof fn lemma_granule_monotone(m: TrackerModel, p: PacketInfo, produced: u64)
    requires
        m.last is Some && p.last_in_page ==> p.absgp >= m.last.unwrap(),
    ensures
        m.last is Some ==> ({
            let g = granule_after(m.last, p, kept_samples(m.last, p, produced));
            g is Some && g.unwrap() >= m.last.unwrap()
        }),
        m.last is None ==> (granule_after(m.last, p, kept_samples(m.last, p, produced)) is Some <==> p.last_in_page),
        m.phase == Phase::AwaitSetup ==> commit(m).last is None,
        m.phase == Phase::Prime && p.serial == m.serial ==> (step(m, Some(p)).0.last is Some <==> p.last_in_page),
{
}

} // verus!
