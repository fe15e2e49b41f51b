use vstd::prelude::*;
use vstd::string::StringSliceAdditionalSpecFns;

verus! {

/// The ASCII decimal digits of `n`, without sign or leading zeros.
pub open spec fn decimal(n: nat) -> Seq<u8>
    decreases n,
{
    if n < 10 {
        seq![(48 + n) as u8]
    } else {
        decimal(n / 10).push((48 + n % 10) as u8)
    }
}

/// The body of telemetry message number `n`.
pub open spec fn telemetry_body(n: nat) -> Seq<u8> {
    "Message #".spec_bytes() + decimal(n)
}

fn push_decimal(out: &mut Vec<u8>, n: u32)
    ensures
        final(out)@ == old(out)@ + decimal(n as nat),
    decreases n,
{
    if n >= 10 {
        push_decimal(out, n / 10);
        out.push((48 + n % 10) as u8);
        assert(out@ =~= old(out)@ + decimal(n as nat));
    } else {
        out.push((48 + n) as u8);
        assert(out@ =~= old(out)@ + decimal(n as nat));
    }
}

/// The body of telemetry message number `sequence`: `Message #` followed by
/// the number in decimal.
pub fn telemetry_message(sequence: u32) -> (r: Vec<u8>)
    ensures
        r@ == telemetry_body(sequence as nat),
{
    let prefix: &[u8] = "Message #".as_bytes();
    let mut body: Vec<u8> = Vec::new();
    let mut i: usize = 0;
    while i < prefix.len()
        invariant
            i <= prefix@.len(),
            body@ == prefix@.subrange(0, i as int),
        decreases prefix@.len() - i,
    {
        body.push(prefix[i]);
        i = i + 1;
        assert(body@ =~= prefix@.subrange(0, i as int));
    }
    assert(body@ =~= "Message #".spec_bytes());
    push_decimal(&mut body, sequence);
    body
}

/// Emits one outbound message every `period` ticks of the driving loop,
/// starting with the first tick, until `total` messages have gone out.
pub struct TelemetryScheduler {
    period: u32,
    phase: u32,
    sent: u32,
    total: u32,
}

impl TelemetryScheduler {
    pub closed spec fn period(&self) -> u32 {
        self.period
    }

    /// Ticks since the last send, modulo the period.
    pub closed spec fn phase(&self) -> u32 {
        self.phase
    }

    pub closed spec fn sent(&self) -> u32 {
        self.sent
    }

    pub closed spec fn total(&self) -> u32 {
        self.total
    }

    pub open spec fn wf(&self) -> bool {
        0 < self.period() && self.phase() < self.period() && self.sent() <= self.total()
    }

    pub fn new(period: u32, total: u32) -> (r: TelemetryScheduler)
        requires
            period > 0,
        ensures
            r.wf(),
            r.period() == period,
            r.phase() == 0,
            r.sent() == 0,
            r.total() == total,
    {
        TelemetryScheduler { period, phase: 0, sent: 0, total }
    }

    pub fn sent_count(&self) -> (r: u32)
        ensures
            r == self.sent(),
    {
        self.sent
    }

    /// All `total` messages have been sent.
    pub fn is_finished(&self) -> (r: bool)
        ensures
            r == (self.sent() >= self.total()),
    {
        self.sent >= self.total
    }

    /// One tick of the driving loop: on every `period`-th tick, while
    /// messages remain, the sequence number of the message to send now.
    pub fn on_tick(&mut self) -> (r: Option<u32>)
        requires
            old(self).wf(),
        ensures
            final(self).wf(),
            final(self).period() == old(self).period(),
            final(self).total() == old(self).total(),
            final(self).phase() == (if old(self).phase() + 1 == old(self).period() {
                0
            } else {
                old(self).phase() + 1
            }),
            old(self).phase() == 0 && old(self).sent() < old(self).total() ==> r == Some(
                old(self).sent(),
            ) && final(self).sent() == old(self).sent() + 1,
            !(old(self).phase() == 0 && old(self).sent() < old(self).total()) ==> r is None
                && final(self).sent() == old(self).sent(),
    {
        let due = self.phase == 0 && self.sent < self.total;
        self.phase = if self.phase + 1 == self.period {
            0
        } else {
            self.phase + 1
        };
        if due {
            let sequence = self.sent;
            self.sent = self.sent + 1;
            Some(sequence)
        } else {
            None
        }
    }
}

} // verus!
