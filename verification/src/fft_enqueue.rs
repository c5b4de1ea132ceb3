//! The decisions of the FFT analysis while it reads samples: which received
//! points carry samples of the analysed channel, when a batch of samples is
//! handed to the FFT input, when an FFT is due, and what a long silence does.
use vstd::prelude::*;
use crate::decimal::{digit_char, nat_decimal, spec_decimal};
use crate::text::{ends_with, spec_ends_with};

verus! {

/// Number of samples gathered before they are handed to the FFT input at once.
pub const BATCH_LEN: usize = 512;

/// What to do with a received point.
#[derive(Debug, Clone, PartialEq, Eq)]
pub struct SampleAction {
    /// The sample to forward to the display of the raw input, if the point carries one.
    pub forward: Option<u16>,
    /// A full batch of samples to push into the FFT input, oldest first.
    pub batch: Option<Vec<u16>>,
    /// Whether an FFT is due now.
    pub run_fft: bool,
}

/// What a receive timeout does.
#[derive(Debug, Clone, Copy, PartialEq, Eq, Structural)]
pub enum TimeoutAction {
    /// Nothing: the error limit is not exceeded.
    Wait,
    /// The limit is exceeded and no samples were pending: values cannot be received.
    NoValues,
    /// The limit is exceeded and the pending samples are dropped: receiving restarts.
    Restart,
}

/// State of the reading of samples for the FFT.
pub struct FftEnqueue {
    /// Samples gathered for the next batch.
    buf: Vec<u16>,
    /// Samples pushed into the FFT input since the last FFT.
    enqueued: usize,
    /// Samples that make an FFT due: a thirty-second of the FFT window.
    shift: usize,
}

/// Whether a point named `name` carries samples of input `channel`: its name
/// ends with the decimal number of the channel.
pub open spec fn spec_on_channel(name: Seq<char>, channel: usize) -> bool {
    spec_ends_with(name, spec_decimal(channel as nat))
}

/// The decimal notation of a number ends with its last digit.
proof fn lemma_decimal_last_digit(n: nat)
    ensures
        spec_decimal(n).len() >= 1,
        spec_decimal(n).last() == digit_char(n % 10),
{
}

/// A point is taken for channel `channel` only when its name ends with the
/// last decimal digit of the channel: in particular, for every channel,
/// channel 0 included, a name whose last character differs from that digit
/// (or an empty name) carries no sample of it. A name followed by the decimal
/// number of the channel always carries samples of it.
pub proof fn lemma_on_channel_needs_channel_digits(name: Seq<char>, channel: usize)
    ensures
        name.len() == 0 ==> !spec_on_channel(name, channel),
        name.len() > 0 && name.last() != digit_char(channel as nat % 10) ==> !spec_on_channel(
            name,
            channel,
        ),
        spec_on_channel(name + spec_decimal(channel as nat), channel),
{
    let digits = spec_decimal(channel as nat);
    lemma_decimal_last_digit(channel as nat);
    if name.len() > 0 && spec_on_channel(name, channel) {
        assert(name.subrange(name.len() - digits.len(), name.len() as int) == digits);
        assert(name.last() == name.subrange(name.len() - digits.len(), name.len() as int)[digits.len()
            - 1]);
    }
    let joined = name + digits;
    assert(joined.subrange(joined.len() - digits.len(), joined.len() as int) =~= digits);
}

impl FftEnqueue {
    /// The samples gathered for the next batch.
    pub closed spec fn pending(&self) -> Seq<u16> {
        self.buf@
    }

    /// Samples pushed into the FFT input since the last FFT.
    pub closed spec fn enqueued(&self) -> nat {
        self.enqueued as nat
    }

    /// Samples that make an FFT due.
    pub closed spec fn shift(&self) -> nat {
        self.shift as nat
    }

    /// The state is consistent: fewer pending samples than a batch, and
    /// fewer samples since the last FFT than make one due.
    pub closed spec fn wf(&self) -> bool {
        &&& self.buf.len() < BATCH_LEN
        &&& (self.enqueued == 0 || self.enqueued < self.shift)
        &&& self.shift <= usize::MAX / 32
    }

    /// Creates the state for an FFT window of `fft_buflen` samples: nothing
    /// pending, and an FFT due every `fft_buflen / 32` samples.
    pub fn new(fft_buflen: usize) -> (res: FftEnqueue)
        ensures
            res.wf(),
            res.pending() == Seq::<u16>::empty(),
            res.enqueued() == 0,
            res.shift() == fft_buflen / 32,
    {
        FftEnqueue { buf: Vec::new(), enqueued: 0, shift: fft_buflen / 32 }
    }

    /// Handles a received point named `name` whose value, as an integer, is
    /// `value`, while `channel` is the analysed input and `paused` tells
    /// whether the analysis is paused.
    ///
    /// A point of the analysed channel, while not paused, gives the sample
    /// `value as u16`: it is forwarded and gathered; a full batch is pushed
    /// into the FFT input, and an FFT is due once a thirty-second of the FFT
    /// window has been pushed since the last one. Any other point changes nothing.
    pub fn on_point(&mut self, name: &str, value: i64, channel: usize, paused: bool) -> (res:
        SampleAction)
        requires
            old(self).wf(),
        ensures
            final(self).wf(),
            final(self).shift() == old(self).shift(),
            paused || !spec_on_channel(name@, channel) ==> {
                &&& res.forward is None
                &&& res.batch is None
                &&& !res.run_fft
                &&& final(self).pending() == old(self).pending()
                &&& final(self).enqueued() == old(self).enqueued()
            },
            res.batch matches Some(b) ==> b@.len() == BATCH_LEN,
            res.forward matches Some(sample) ==> old(self).pending().push(sample) == match res.batch {
                Some(b) => b@ + final(self).pending(),
                None => final(self).pending(),
            },
            !paused && spec_on_channel(name@, channel) ==> ({
                let sample = value as u16;
                let gathered = old(self).pending().push(sample);
                &&& res.forward == Some(sample)
                &&& if gathered.len() >= BATCH_LEN {
                    let total = old(self).enqueued() + gathered.len();
                    &&& res.batch matches Some(batch) && batch@ == gathered
                    &&& final(self).pending() == Seq::<u16>::empty()
                    &&& res.run_fft == (total >= old(self).shift())
                    &&& final(self).enqueued() == if total >= old(self).shift() {
                        0
                    } else {
                        total
                    }
                } else {
                    &&& res.batch is None
                    &&& !res.run_fft
                    &&& final(self).pending() == gathered
                    &&& final(self).enqueued() == old(self).enqueued()
                }
            }),
    {
        if paused {
            return SampleAction { forward: None, batch: None, run_fft: false };
        }
        let digits = nat_decimal(channel as u64);
        if !ends_with(name, digits.as_str()) {
            return SampleAction { forward: None, batch: None, run_fft: false };
        }
        let sample = value as u16;
        self.buf.push(sample);
        if self.buf.len() >= BATCH_LEN {
            let mut batch: Vec<u16> = Vec::new();
            std::mem::swap(&mut batch, &mut self.buf);
            self.enqueued = self.enqueued + batch.len();
            let run_fft = self.enqueued >= self.shift;
            if run_fft {
                self.enqueued = 0;
            }
            SampleAction { forward: Some(sample), batch: Some(batch), run_fft }
        } else {
            SampleAction { forward: Some(sample), batch: None, run_fft: false }
        }
    }

    /// Handles a receive timeout; `limit_exceeded` tells whether it exceeded
    /// the limit of successive timeouts. Then the pending samples are dropped.
    pub fn on_timeout(&mut self, limit_exceeded: bool) -> (res: TimeoutAction)
        requires
            old(self).wf(),
        ensures
            final(self).wf(),
            final(self).shift() == old(self).shift(),
            final(self).enqueued() == old(self).enqueued(),
            !limit_exceeded ==> res == TimeoutAction::Wait
                && final(self).pending() == old(self).pending(),
            limit_exceeded ==> final(self).pending() == Seq::<u16>::empty()
                && res == if old(self).pending().len() == 0 {
                TimeoutAction::NoValues
            } else {
                TimeoutAction::Restart
            },
    {
        if !limit_exceeded {
            return TimeoutAction::Wait;
        }
        let res = if self.buf.len() == 0 {
            TimeoutAction::NoValues
        } else {
            TimeoutAction::Restart
        };
        self.buf.clear();
        res
    }
}

} // verus!
