//! The consumer side of a run: collects the songs that arrive and decides
//! when the observer hears of progress.

use crate::decimal::decimal;
use crate::decimal::decimal_string;
use crate::notification::completion;
use crate::notification::make_done;
use crate::notification::make_dsr;
use crate::notification::message_only;
use crate::notification::DataSetupResult;
use crate::notification::Status;
use crate::song::song_views;
use crate::song::SongData;
use crate::song::SongView;
use vstd::arithmetic::div_mod::lemma_fundamental_div_mod;
use vstd::arithmetic::div_mod::lemma_fundamental_div_mod_converse;
use vstd::arithmetic::div_mod::lemma_mod_pos_bound;
use vstd::prelude::*;

verus! {

/// The number of songs between two progress notifications: the threshold,
/// or one where the threshold is zero.
pub open spec fn stride(threshold: nat) -> nat {
    if threshold == 0 {
        1
    } else {
        threshold
    }
}

/// How quotient and remainder by `step` move from `n` to `n + 1`.
pub proof fn lemma_successor_div_mod(n: nat, step: nat)
    requires
        step > 0,
    ensures
        n % step < step,
        n % step + 1 < step ==> (n + 1) % step == n % step + 1 && (n + 1) / step == n / step,
        n % step + 1 >= step ==> (n + 1) % step == 0 && (n + 1) / step == n / step + 1,
{
    let q = n as int / step as int;
    let r = n as int % step as int;
    lemma_fundamental_div_mod(n as int, step as int);
    lemma_mod_pos_bound(n as int, step as int);
    if r + 1 < step {
        lemma_fundamental_div_mod_converse(n as int + 1, step as int, q, r + 1);
    } else {
        assert(n + 1 == (q + 1) * step + 0) by (nonlinear_arith)
            requires
                n == step * q + r,
                r + 1 == step,
        ;
        lemma_fundamental_div_mod_converse(n as int + 1, step as int, q + 1, 0);
    }
}

/// Collects the songs of a run in arrival order and reports progress every
/// `threshold` songs.
pub struct Aggregator {
    songs: Vec<SongData>,
    /// Songs received since the last progress notification.
    pending: usize,
    threshold: usize,
    /// Progress notifications issued so far.
    reports: Ghost<nat>,
}

impl Aggregator {
    /// The counters agree with the songs received: the pending count is
    /// what is left of them after whole strides, and one progress
    /// notification was issued for each whole stride.
    pub closed spec fn wf(&self) -> bool {
        &&& self.pending == self.songs@.len() % stride(self.threshold as nat)
        &&& self.reports@ == self.songs@.len() / stride(self.threshold as nat)
    }

    /// Every song received so far, in arrival order.
    pub closed spec fn received(&self) -> Seq<SongView> {
        song_views(self.songs@)
    }

    /// The threshold this aggregator was made with.
    pub closed spec fn threshold(&self) -> nat {
        self.threshold as nat
    }

    /// The number of progress notifications issued so far.
    pub closed spec fn reports(&self) -> nat {
        self.reports@
    }

    /// One progress notification has been issued for each whole stride of
    /// songs received.
    pub proof fn lemma_reports(&self)
        requires
            self.wf(),
        ensures
            self.reports() == self.received().len() / stride(self.threshold()),
    {
    }

    /// An aggregator that has received nothing.
    pub fn new(threshold: usize) -> (aggregator: Aggregator)
        ensures
            aggregator.wf(),
            aggregator.received() == Seq::<SongView>::empty(),
            aggregator.threshold() == threshold,
            aggregator.reports() == 0,
    {
        let aggregator = Aggregator { songs: Vec::new(), pending: 0, threshold, reports: Ghost(0) };
        assert(aggregator.received() =~= Seq::<SongView>::empty());
        aggregator
    }

    /// Takes the next song. Returns a progress notification, which carries
    /// the number of songs received so far, each time that number reaches a
    /// multiple of the stride.
    pub fn receive(&mut self, song: SongData) -> (note: Option<DataSetupResult>)
        requires
            old(self).wf(),
        ensures
            final(self).wf(),
            final(self).received() == old(self).received().push(song@),
            final(self).threshold() == old(self).threshold(),
            note is Some <==> final(self).received().len() % stride(final(self).threshold()) == 0,
            note matches Some(n) ==> n@ == message_only(
                Status::Processing,
                decimal(final(self).received().len()),
            ),
            final(self).reports() == old(self).reports() + if note is Some {
                1nat
            } else {
                0nat
            },
            final(self).reports() == final(self).received().len() / stride(
                final(self).threshold(),
            ),
    {
        proof {
            lemma_successor_div_mod(self.songs@.len(), stride(self.threshold as nat));
        }
        self.songs.push(song);
        self.pending = self.pending + 1;
        if self.pending >= self.threshold {
            self.pending = 0;
            self.reports = Ghost((self.reports@ + 1) as nat);
            let count = decimal_string(self.songs.len() as u64);
            Some(make_dsr(Status::Processing, count.as_str()))
        } else {
            None
        }
    }

    /// Ends the run: the closing notification carries every song received.
    pub fn finish(self) -> (done: DataSetupResult)
        ensures
            done@ == completion(self.received()),
    {
        make_done(self.songs)
    }
}

} // verus!
