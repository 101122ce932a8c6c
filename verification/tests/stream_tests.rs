use sgtl5000::stream::BufferPool;
use sgtl5000::stream::ToneGen;
use sgtl5000::stream::Throughput;
use sgtl5000::stream::possible_underrun;

/// A transfer engine double: owns at most one buffer, needs a few polls
/// before it accepts the next one.
struct MockEngine {
    hw_owned: Option<usize>,
    polls_needed: u32,
    polls_left: u32,
    transfers: usize,
}

impl MockEngine {
    fn new(polls_needed: u32) -> MockEngine {
        MockEngine { hw_owned: None, polls_needed, polls_left: polls_needed, transfers: 0 }
    }

    fn is_ready(&mut self) -> bool {
        if self.polls_left == 0 {
            true
        } else {
            self.polls_left -= 1;
            false
        }
    }

    fn commit(&mut self, i: usize) {
        assert!(self.hw_owned != Some(i));
        self.hw_owned = Some(i);
        self.polls_left = self.polls_needed;
        self.transfers += 1;
    }
}

#[test]
fn buffer_ownership_rotation() {
    let mut pool = BufferPool::new(3, 16);
    let mut gen = ToneGen::new();
    let mut engine = MockEngine::new(2);
    let mut committed_snapshot: Option<(usize, Vec<u16>)> = None;

    for _ in 0..12 {
        gen.step_freq();
        let i = pool.fill_next(&mut gen);

        // The fill step never touches the hardware-owned slot.
        assert_ne!(Some(i), engine.hw_owned);
        if let Some((owned, ref snapshot)) = committed_snapshot {
            assert_eq!(pool.buffer(owned), snapshot);
        }

        let mut polls: u32 = 0;
        while !engine.is_ready() {
            polls += 1;
        }
        assert!(!possible_underrun(polls));

        // Ownership transfers exactly once per committed buffer.
        let before = engine.transfers;
        engine.commit(i);
        pool.commit(i);
        assert_eq!(engine.transfers, before + 1);
        assert_eq!(engine.hw_owned, Some(i));
        assert_eq!(pool.hw_owned, Some(i));
        committed_snapshot = Some((i, pool.buffer(i).clone()));
    }
    assert_eq!(engine.transfers, 12);
}

#[test]
fn fill_skips_hardware_owned_slot() {
    let mut pool = BufferPool::new(2, 4);
    let mut gen = ToneGen::new();
    let first = pool.fill_next(&mut gen);
    assert_eq!(first, 0);
    pool.commit(first);
    // The rotation would come back to an owned slot only by skipping it.
    pool.next_fill = first;
    let second = pool.fill_next(&mut gen);
    assert_eq!(second, 1);
}

#[test]
fn immediate_readiness_flags_possible_underrun() {
    assert!(possible_underrun(0));
    assert!(!possible_underrun(1));
    assert!(!possible_underrun(250));
}

#[test]
fn square_wave_samples() {
    let mut gen = ToneGen::new();
    assert_eq!(gen.freq, 50);
    // 48000 / 50 gives a 960-sample period: 1920 half-samples, step 17.
    assert_eq!(gen.delta(), 17);

    let mut buf = vec![0u16; 4];
    gen.fill(&mut buf);
    assert_eq!(buf, vec![0x7FFF, 0x7FFF, 0x7FFF, 0x7FFF]);
    assert_eq!(gen.phase, 68);

    gen.phase = 0x7FF0;
    let mut buf2 = vec![0u16; 3];
    gen.fill(&mut buf2);
    assert_eq!(buf2, vec![0x7FFF, 0, 0]);
    assert_eq!(gen.phase, 0x7FF0 + 3 * 17);
}

#[test]
fn phase_wraps_at_period_end() {
    let mut gen = ToneGen::new();
    gen.phase = 0xFFF0;
    let mut buf = vec![0u16; 2];
    gen.fill(&mut buf);
    assert_eq!(buf, vec![0, 0x7FFF]);
    assert_eq!(gen.phase, (0xFFF0u32 + 34 - 0x10000) as u16);
}

#[test]
fn frequency_sweep_wraps() {
    let mut gen = ToneGen::new();
    gen.step_freq();
    assert_eq!(gen.freq, 51);
    gen.freq = 440;
    gen.step_freq();
    assert_eq!(gen.freq, 50);
}

#[test]
fn throughput_reports_per_window() {
    let mut stats = Throughput::new(0);
    stats.record(16384);
    stats.record(16384);
    assert!(!stats.report_due(9));
    assert!(stats.report_due(10));
    let (samples_rate, transfers_rate) = stats.report(10);
    assert_eq!(samples_rate, 32768 / 10);
    assert_eq!(transfers_rate, 0);

    stats.record(16384);
    assert!(stats.report_due(25));
    let (samples_rate2, _) = stats.report(25);
    assert_eq!(samples_rate2, 16384 / 15);
    assert_eq!(stats.total_samples, 3 * 16384);
    assert_eq!(stats.samples_prev, 3 * 16384);
    assert_eq!(stats.last_report, 25);
}
