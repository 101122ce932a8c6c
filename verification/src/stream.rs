//! The streaming scheduler: square-wave synthesis on a fixed-point phase
//! accumulator, the rotating buffer pool whose slots alternate between
//! software and hardware ownership, the backpressure diagnostic, and the
//! rolling throughput counters.
use vstd::prelude::*;
use vstd::arithmetic::div_mod::lemma_add_mod_noop;
use vstd::arithmetic::div_mod::lemma_small_mod;
use vstd::arithmetic::div_mod::lemma_div_non_zero;
use vstd::arithmetic::mul::lemma_mul_basics;
use vstd::arithmetic::mul::lemma_mul_is_distributive_add;

verus! {

/// The sample rate the synthesis assumes, in samples per second.
pub const SAMPLE_RATE: u16 = 48000;

/// Bottom of the frequency sweep.
pub const SWEEP_LOW_HZ: u16 = 50;

/// Top of the frequency sweep.
pub const SWEEP_HIGH_HZ: u16 = 440;

/// Ticks of the external time source between throughput reports.
pub const STATS_INTERVAL_TICKS: usize = 10;

/// The phase of sample `i`, from a starting phase and a per-sample step:
/// fixed-point accumulation that wraps modulo the 16-bit period.
pub open spec fn spec_phase_at(phase0: u16, delta: u16, i: int) -> u16 {
    ((phase0 + (delta as int) * i) % 0x10000) as u16
}

/// The square-wave sample for a phase: high over the first half of the
/// period, low over the second.
pub open spec fn spec_square_sample(phase: u16) -> u16 {
    if phase & 0x8000 == 0 {
        0x7fff
    } else {
        0
    }
}

/// The per-sample phase step for a frequency: the period in samples is two
/// half-periods of the sample rate over the frequency; one full 16-bit turn
/// is spread over one period.
pub open spec fn spec_delta(freq: u16) -> u16 {
    (65535int / (2 * (SAMPLE_RATE / freq)) / 2) as u16
}

/// 16-bit wrapping addition: one step of fixed-point phase accumulation.
fn wrapping_add16(a: u16, b: u16) -> (r: u16)
    ensures
        r == ((a + b) % 0x10000) as u16,
{
    proof {
        if a + b < 0x10000 {
            lemma_small_mod((a + b) as nat, 0x10000);
        } else {
            lemma_small_mod((a + b - 0x10000) as nat, 0x10000);
            assert((a + b - 0x10000) % 0x10000 == (a + b) % 0x10000) by {
                vstd::arithmetic::div_mod::lemma_mod_sub_multiples_vanish(a + b, 0x10000);
            }
        }
    }
    if b <= 0xFFFF - a {
        a + b
    } else {
        (((a as u32) + (b as u32)) - 0x10000) as u16
    }
}

/// Fill `buf` with square-wave samples from `phase0` stepping by `delta`;
/// the result is the phase right after the last sample.
fn fill_square(buf: &mut Vec<u16>, phase0: u16, delta: u16) -> (phase: u16)
    ensures
        final(buf).len() == old(buf).len(),
        forall|i: int|
            0 <= i < old(buf).len() ==> final(buf)@[i] == spec_square_sample(
                spec_phase_at(phase0, delta, i),
            ),
        phase == spec_phase_at(phase0, delta, old(buf).len() as int),
{
    let mut vo: u16 = phase0;
    let mut idx: usize = 0;
    let n = buf.len();
    proof {
        lemma_mul_basics(delta as int);
        lemma_small_mod(phase0 as nat, 0x10000);
    }
    while idx < n
        invariant
            n == old(buf).len(),
            buf.len() == n,
            idx <= n,
            vo == spec_phase_at(phase0, delta, idx as int),
            forall|i: int|
                0 <= i < idx ==> buf@[i] == spec_square_sample(spec_phase_at(phase0, delta, i)),
        decreases n - idx,
    {
        let sample: u16 = if vo & 0x8000 == 0 {
            0x7fff
        } else {
            0
        };
        buf.set(idx, sample);
        proof {
            let acc: int = phase0 + (delta as int) * (idx as int);
            lemma_add_mod_noop(acc, delta as int, 0x10000);
            lemma_small_mod(delta as nat, 0x10000);
            lemma_mul_is_distributive_add(delta as int, idx as int, 1);
            lemma_mul_basics(delta as int);
            assert(acc + delta == phase0 + (delta as int) * (idx as int + 1));
        }
        vo = wrapping_add16(vo, delta);
        idx = idx + 1;
    }
    vo
}

/// The waveform generator: a stepped frequency sweep and the running phase
/// accumulator that survives from buffer to buffer.
pub struct ToneGen {
    pub freq: u16,
    pub phase: u16,
}

impl ToneGen {
    /// The frequency stays inside the sweep.
    pub open spec fn wf(&self) -> bool {
        SWEEP_LOW_HZ <= self.freq <= SWEEP_HIGH_HZ
    }

    /// Start of the sweep, phase at rest.
    pub fn new() -> (r: ToneGen)
        ensures
            r.wf(),
            r.freq == SWEEP_LOW_HZ,
            r.phase == 0,
    {
        ToneGen { freq: SWEEP_LOW_HZ, phase: 0 }
    }

    /// One sweep step per iteration: up by one, wrapping from the top of
    /// the sweep back to the bottom.
    pub fn step_freq(&mut self)
        requires
            old(self).wf(),
        ensures
            final(self).wf(),
            final(self).freq == (
            if old(self).freq + 1 > SWEEP_HIGH_HZ {
                SWEEP_LOW_HZ as int
            } else {
                old(self).freq + 1
            }),
            final(self).phase == old(self).phase,
    {
        self.freq = self.freq + 1;
        if self.freq > SWEEP_HIGH_HZ {
            self.freq = SWEEP_LOW_HZ;
        }
    }

    /// The per-sample phase step for the current frequency.
    pub fn delta(&self) -> (d: u16)
        requires
            self.wf(),
        ensures
            d == spec_delta(self.freq),
    {
        proof {
            lemma_div_non_zero(SAMPLE_RATE as int, self.freq as int);
        }
        let interval: u32 = 2 * ((SAMPLE_RATE as u32) / (self.freq as u32));
        (65535 / interval / 2) as u16
    }

    /// Fill one buffer with square-wave samples at the current frequency,
    /// advancing the running phase past the last sample.
    pub fn fill(&mut self, buf: &mut Vec<u16>)
        requires
            old(self).wf(),
        ensures
            final(self).wf(),
            final(self).freq == old(self).freq,
            final(buf).len() == old(buf).len(),
            forall|i: int|
                0 <= i < old(buf).len() ==> final(buf)@[i] == spec_square_sample(
                    spec_phase_at(old(self).phase, spec_delta(old(self).freq), i),
                ),
            final(self).phase == spec_phase_at(
                old(self).phase,
                spec_delta(old(self).freq),
                old(buf).len() as int,
            ),
    {
        let d = self.delta();
        self.phase = fill_square(buf, self.phase, d);
    }
}

/// The fixed set of sample buffers and their ownership: at most one buffer
/// is hardware-owned at any instant, and only an explicit commit transfers
/// ownership. Software never touches the hardware-owned slot.
pub struct BufferPool {
    pub bufs: Vec<Vec<u16>>,
    pub hw_owned: Option<usize>,
    pub next_fill: usize,
}

impl BufferPool {
    /// At least two buffers, all of one size; the rotation index and the
    /// hardware-owned slot are in range.
    pub open spec fn wf(&self) -> bool {
        &&& 2 <= self.bufs@.len()
        &&& self.next_fill < self.bufs@.len()
        &&& (self.hw_owned matches Some(h) ==> h < self.bufs@.len())
        &&& forall|i: int|
            0 <= i < self.bufs@.len() ==> (#[trigger] self.bufs@[i]).len() == self.bufs@[0].len()
    }

    /// A pool of `n` buffers of `len` zero samples each; none owned by
    /// hardware yet.
    pub fn new(n: usize, len: usize) -> (r: BufferPool)
        requires
            2 <= n,
        ensures
            r.wf(),
            r.bufs@.len() == n,
            r.hw_owned is None,
            r.next_fill == 0,
            forall|i: int| 0 <= i < n ==> (#[trigger] r.bufs@[i]).len() == len,
    {
        let mut bufs: Vec<Vec<u16>> = Vec::new();
        while bufs.len() < n
            invariant
                bufs.len() <= n,
                forall|i: int| 0 <= i < bufs.len() ==> (#[trigger] bufs@[i]).len() == len,
            decreases n - bufs.len(),
        {
            let mut buf: Vec<u16> = Vec::new();
            while buf.len() < len
                invariant
                    buf.len() <= len,
                decreases len - buf.len(),
            {
                buf.push(0);
            }
            bufs.push(buf);
        }
        BufferPool { bufs, hw_owned: None, next_fill: 0 }
    }

    /// The slot slated to be filled next: round-robin, skipping the slot
    /// the hardware still owns.
    pub open spec fn spec_select(&self) -> int {
        if self.hw_owned == Some(self.next_fill) {
            if self.next_fill + 1 >= self.bufs@.len() {
                0
            } else {
                self.next_fill + 1
            }
        } else {
            self.next_fill as int
        }
    }

    /// Pick the buffer to fill next; never the hardware-owned slot.
    pub fn select_fill(&self) -> (i: usize)
        requires
            self.wf(),
        ensures
            i as int == self.spec_select(),
            i < self.bufs@.len(),
            self.hw_owned != Some(i),
    {
        let n = self.bufs.len();
        let mut i: usize = self.next_fill;
        match self.hw_owned {
            Some(h) => {
                if h == self.next_fill {
                    i = self.next_fill + 1;
                    if i >= n {
                        i = 0;
                    }
                }
            },
            None => {},
        }
        i
    }

    /// Fill the next software-owned buffer from the generator. The
    /// hardware-owned slot, if any, is left untouched, and ownership does
    /// not change: only `commit` transfers it.
    pub fn fill_next(&mut self, gen: &mut ToneGen) -> (i: usize)
        requires
            old(self).wf(),
            old(gen).wf(),
        ensures
            final(self).wf(),
            final(gen).wf(),
            i as int == old(self).spec_select(),
            i < old(self).bufs@.len(),
            old(self).hw_owned != Some(i),
            final(self).hw_owned == old(self).hw_owned,
            final(self).next_fill == old(self).next_fill,
            final(self).bufs@.len() == old(self).bufs@.len(),
            forall|j: int|
                0 <= j < old(self).bufs@.len() && j != i ==> final(self).bufs@[j] == old(
                    self,
                ).bufs@[j],
            final(self).bufs@[i as int].len() == old(self).bufs@[i as int].len(),
            forall|k: int|
                0 <= k < old(self).bufs@[i as int].len() ==> final(self).bufs@[i as int][k]
                    == spec_square_sample(
                    spec_phase_at(old(gen).phase, spec_delta(old(gen).freq), k),
                ),
            final(gen).freq == old(gen).freq,
            final(gen).phase == spec_phase_at(
                old(gen).phase,
                spec_delta(old(gen).freq),
                old(self).bufs@[i as int].len() as int,
            ),
    {
        let i = self.select_fill();
        let buf: &mut Vec<u16> = &mut self.bufs[i];
        gen.fill(buf);
        proof {
            assert forall|j: int|
                0 <= j < final(self).bufs@.len() implies (#[trigger] final(self).bufs@[j]).len()
                == final(self).bufs@[0].len() by {
                assert(old(self).bufs@[j].len() == old(self).bufs@[0].len());
            }
        }
        i
    }

    /// Hand buffer `i` to the hardware: exactly this one transfer of
    /// ownership happens per committed buffer, and the slot the hardware
    /// held before returns to software. The rotation advances past `i`.
    pub fn commit(&mut self, i: usize)
        requires
            old(self).wf(),
            i < old(self).bufs@.len(),
            old(self).hw_owned != Some(i),
        ensures
            final(self).wf(),
            final(self).hw_owned == Some(i),
            final(self).next_fill == (
            if i + 1 >= old(self).bufs@.len() {
                0int
            } else {
                i + 1
            }),
            final(self).bufs@ == old(self).bufs@,
    {
        let n = self.bufs.len();
        self.hw_owned = Some(i);
        self.next_fill = if i + 1 >= n {
            0
        } else {
            i + 1
        };
    }

    /// Read a buffer, for handing its samples to the transfer engine.
    pub fn buffer(&self, i: usize) -> (b: &Vec<u16>)
        requires
            i < self.bufs@.len(),
        ensures
            *b == self.bufs@[i as int],
    {
        &self.bufs[i]
    }
}

/// The diagnostic backpressure signal: readiness reached with no polling
/// at all means software produced the buffer faster than the hardware can
/// have started draining the previous one. It is reported, never corrected.
/// Note that the trigger is the absence of wait cycles, not an observed
/// drain stall; the condition is kept literally, suspect as it reads.
pub fn possible_underrun(polls: u32) -> (r: bool)
    ensures
        r == (polls < 1),
{
    polls < 1
}

/// Rolling throughput counters over an external monotonic tick counter.
pub struct Throughput {
    pub total_samples: usize,
    pub total_transfers: usize,
    pub samples_prev: usize,
    pub transfers_prev: usize,
    pub last_report: usize,
}

impl Throughput {
    /// The rolled-over marks never pass the running totals.
    pub open spec fn wf(&self) -> bool {
        self.samples_prev <= self.total_samples && self.transfers_prev <= self.total_transfers
    }

    /// Fresh counters, with the report window starting now.
    pub fn new(now: usize) -> (r: Throughput)
        ensures
            r.wf(),
            r.total_samples == 0,
            r.total_transfers == 0,
            r.samples_prev == 0,
            r.transfers_prev == 0,
            r.last_report == now,
    {
        Throughput {
            total_samples: 0,
            total_transfers: 0,
            samples_prev: 0,
            transfers_prev: 0,
            last_report: now,
        }
    }

    /// Account one committed transfer of `n_samples` samples.
    pub fn record(&mut self, n_samples: usize)
        requires
            old(self).wf(),
            old(self).total_samples + n_samples <= usize::MAX,
            old(self).total_transfers + 1 <= usize::MAX,
        ensures
            final(self).wf(),
            final(self).total_samples == old(self).total_samples + n_samples,
            final(self).total_transfers == old(self).total_transfers + 1,
            final(self).samples_prev == old(self).samples_prev,
            final(self).transfers_prev == old(self).transfers_prev,
            final(self).last_report == old(self).last_report,
    {
        self.total_samples = self.total_samples + n_samples;
        self.total_transfers = self.total_transfers + 1;
    }

    /// Whether a report window has elapsed.
    pub fn report_due(&self, now: usize) -> (r: bool)
        requires
            now >= self.last_report,
        ensures
            r == (now - self.last_report >= STATS_INTERVAL_TICKS),
    {
        now - self.last_report >= STATS_INTERVAL_TICKS
    }

    /// Close the window: the samples-per-tick and transfers-per-tick rates
    /// since the last report, rolling the marks forward.
    pub fn report(&mut self, now: usize) -> (rates: (usize, usize))
        requires
            old(self).wf(),
            now - old(self).last_report >= STATS_INTERVAL_TICKS,
            now >= old(self).last_report,
        ensures
            final(self).wf(),
            rates.0 == (old(self).total_samples - old(self).samples_prev) as int / (now - old(
                self,
            ).last_report),
            rates.1 == (old(self).total_transfers - old(self).transfers_prev) as int / (now - old(
                self,
            ).last_report),
            final(self).total_samples == old(self).total_samples,
            final(self).total_transfers == old(self).total_transfers,
            final(self).samples_prev == old(self).total_samples,
            final(self).transfers_prev == old(self).total_transfers,
            final(self).last_report == now,
    {
        let since: usize = now - self.last_report;
        let samples_rate: usize = (self.total_samples - self.samples_prev) / since;
        let transfers_rate: usize = (self.total_transfers - self.transfers_prev) / since;
        self.samples_prev = self.total_samples;
        self.transfers_prev = self.total_transfers;
        self.last_report = now;
        (samples_rate, transfers_rate)
    }
}

} // verus!
