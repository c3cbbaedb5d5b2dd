//! The per-input enrichment run, as a state machine: it tells its driver
//! what to fetch next and takes the answers back, one input at a time.
use vstd::prelude::*;
use crate::cache::{cache_lookup, cache_store, CoinTimeCache};
use crate::chain::{decoded_tx, spent_output};
use crate::error::FetchError;
use crate::text::{outpoint_label, outpoint_string};
use crate::utxo::{OutPointRef, TxOutput, UtxoData, UtxoView};

verus! {

/// The lowest confirming height that has eleven blocks before it.
pub const MIN_CONFIRMING_HEIGHT: u32 = 11;

/// Where the run stands on its current input.
pub enum Stage {
    /// The confirming height of the current input is needed.
    AwaitHeight,
    /// The raw transaction of the current input is needed.
    AwaitTransaction { height: u32 },
    /// The coin time at `height` is needed and not cached.
    AwaitCoinTime { height: u32, output: TxOutput, is_coinbase: bool },
    /// Every input has its record.
    Finished,
}

/// What the driver must fetch next.
#[derive(Debug, Clone, PartialEq, Eq)]
pub enum Request {
    /// The confirming height of transaction `txid`.
    Height { txid: String },
    /// The raw hex serialization of transaction `txid`.
    TransactionHex { txid: String },
    /// The coin time (median time past) at confirming height `height`.
    CoinTime { height: u32 },
    /// Nothing: the run is complete.
    Done,
}

/// What a raw transaction settled for the current input.
#[derive(Debug, Clone, Copy, PartialEq, Eq)]
pub enum InputProgress {
    /// The input has its record; its coin time came from the cache when `was_hit`.
    Completed { was_hit: bool },
    /// The coin time must be computed before the input is complete.
    NeedsCoinTime,
}

/// The inputs that a block spends: those of every transaction but the first,
/// in transaction order and then input order.
pub open spec fn spent_inputs(txs: Seq<Seq<OutPointRef>>) -> Seq<OutPointRef> {
    if txs.len() == 0 {
        Seq::empty()
    } else {
        txs.drop_first().flatten()
    }
}

/// The distinct confirming heights among records.
pub open spec fn confirming_heights(rs: Seq<UtxoView>) -> Set<u32> {
    Set::new(|h: u32| exists|i: int| 0 <= i < rs.len() && #[trigger] rs[i].creation_height == h)
}

/// The record of an output.
pub open spec fn record_of(output: (u64, Seq<u8>), is_coinbase: bool, height: u32, time: u32) -> UtxoView {
    UtxoView {
        amount: output.0,
        script: output.1,
        is_coinbase,
        creation_height: height,
        creation_time: time,
    }
}

/// The stage that starts input `position` of `len`.
pub open spec fn stage_at(position: nat, len: nat) -> Stage {
    if position < len {
        Stage::AwaitHeight
    } else {
        Stage::Finished
    }
}

/// The run over the inputs of one block, with its coin-time cache.
pub struct UtxoPipeline {
    inputs: Vec<OutPointRef>,
    position: usize,
    stage: Stage,
    cache: CoinTimeCache,
    records: Vec<UtxoData>,
    runs: Ghost<nat>,
}

impl UtxoPipeline {
    /// The inputs, in the order they are processed.
    pub closed spec fn inputs(&self) -> Seq<OutPointRef> {
        self.inputs@
    }

    /// How many inputs have their record.
    pub closed spec fn position(&self) -> nat {
        self.position as nat
    }

    pub closed spec fn stage(&self) -> Stage {
        self.stage
    }

    /// The coin times computed so far, by confirming height.
    pub closed spec fn cache(&self) -> Map<u32, u32> {
        self.cache@
    }

    /// The records so far, in input order.
    pub closed spec fn records(&self) -> Seq<UtxoView> {
        self.records@.map_values(|r: UtxoData| r@)
    }

    /// How many times the run has asked for a coin time to be computed.
    pub closed spec fn coin_time_runs(&self) -> nat {
        self.runs@
    }

    /// The current input.
    pub open spec fn current(&self) -> OutPointRef {
        self.inputs()[self.position() as int]
    }

    pub closed spec fn wf(&self) -> bool {
        &&& self.position <= self.inputs@.len()
        &&& self.records@.len() == self.position
        &&& (self.stage is Finished <==> self.position == self.inputs@.len())
        &&& self.cache@.dom().finite()
        &&& self.cache@.dom() == confirming_heights(self.records())
        &&& (match self.stage {
            Stage::AwaitTransaction { height } => height >= MIN_CONFIRMING_HEIGHT,
            Stage::AwaitCoinTime { height, .. } => height >= MIN_CONFIRMING_HEIGHT
                && !self.cache@.contains_key(height),
            _ => true,
        })
        &&& self.runs@ == self.cache@.len() + if self.stage is AwaitCoinTime {
            1nat
        } else {
            0nat
        }
        &&& forall|i: int| 0 <= i < self.records@.len() ==> {
            let r = #[trigger] self.records@[i];
            &&& r.creation_height >= MIN_CONFIRMING_HEIGHT
            &&& self.cache@.contains_key(r.creation_height)
            &&& self.cache@[r.creation_height] == r.creation_time
        }
    }

    /// A run over the inputs spent by a block's transactions, the first
    /// (coinbase) transaction excepted; nothing is cached yet.
    pub fn new(transactions: Vec<Vec<OutPointRef>>) -> (r: UtxoPipeline)
        ensures
            r.wf(),
            r.inputs() == spent_inputs(transactions@.map_values(|t: Vec<OutPointRef>| t@)),
            r.position() == 0,
            r.stage() == stage_at(0, r.inputs().len()),
            r.cache() == Map::<u32, u32>::empty(),
            r.records() == Seq::<UtxoView>::empty(),
            r.coin_time_runs() == 0,
    {
        let ghost all = transactions@.map_values(|t: Vec<OutPointRef>| t@);
        let mut transactions = transactions;
        let mut inputs: Vec<OutPointRef> = Vec::new();
        while transactions.len() > 1
            invariant
                transactions@.len() <= all.len(),
                all.len() > 0 ==> transactions@.len() > 0,
                forall|k: int| 0 <= k < transactions@.len() ==> #[trigger] transactions@[k]@ == all[k],
                inputs@ == all.subrange(transactions@.len() as int, all.len() as int).flatten(),
            decreases transactions@.len(),
        {
            let ghost n = transactions@.len() as int;
            let mut last = transactions.pop().unwrap();
            proof {
                let tail = all.subrange(n - 1, all.len() as int);
                assert(tail.first() == last@);
                assert(tail.drop_first() == all.subrange(n, all.len() as int));
            }
            last.append(&mut inputs);
            inputs = last;
        }
        proof {
            if all.len() > 0 {
                assert(all.subrange(1, all.len() as int) == all.drop_first());
            } else {
                assert(all.subrange(0, 0).flatten() == Seq::<OutPointRef>::empty());
            }
        }
        let stage = if inputs.len() > 0 {
            Stage::AwaitHeight
        } else {
            Stage::Finished
        };
        let r = UtxoPipeline {
            inputs,
            position: 0,
            stage,
            cache: CoinTimeCache::new(),
            records: Vec::new(),
            runs: Ghost(0),
        };
        proof {
            assert(r.records() == Seq::<UtxoView>::empty());
            assert(confirming_heights(r.records()) == Set::<u32>::empty());
        }
        r
    }

    /// The number of inputs of the run.
    pub fn total(&self) -> (r: usize)
        ensures
            r == self.inputs().len(),
    {
        self.inputs.len()
    }

    /// The number of inputs that have their record.
    pub fn processed(&self) -> (r: usize)
        ensures
            r == self.position(),
    {
        self.position
    }

    /// Whether every input has its record.
    pub fn is_finished(&self) -> (r: bool)
        requires
            self.wf(),
        ensures
            r == (self.stage() is Finished),
            r == (self.position() == self.inputs().len()),
    {
        matches!(self.stage, Stage::Finished)
    }

    /// What the driver must fetch next.
    pub fn next_request(&self) -> (r: Request)
        requires
            self.wf(),
        ensures
            match self.stage() {
                Stage::AwaitHeight => r matches Request::Height { txid } && txid@
                    == self.current().txid@,
                Stage::AwaitTransaction { .. } => r matches Request::TransactionHex { txid }
                    && txid@ == self.current().txid@,
                Stage::AwaitCoinTime { height, .. } => r == (Request::CoinTime { height }),
                Stage::Finished => r == Request::Done,
            },
    {
        match &self.stage {
            Stage::AwaitHeight => Request::Height { txid: self.inputs[self.position].txid.clone() },
            Stage::AwaitTransaction { .. } => Request::TransactionHex {
                txid: self.inputs[self.position].txid.clone(),
            },
            Stage::AwaitCoinTime { height, .. } => Request::CoinTime { height: *height },
            Stage::Finished => Request::Done,
        }
    }

    /// Takes the confirming height of the current input. A height below
    /// eleven has no eleven blocks before it: the run fails on it, and no
    /// coin time is asked for.
    pub fn accept_height(&mut self, height: u32) -> (r: Result<(), FetchError>)
        requires
            old(self).wf(),
            old(self).stage() is AwaitHeight,
        ensures
            final(self).wf(),
            height < MIN_CONFIRMING_HEIGHT ==> (r matches Err(FetchError::NotEnoughHeight(l))
                && l@ == outpoint_label(old(self).current().txid@, old(self).current().vout)
                && *final(self) == *old(self)),
            height >= MIN_CONFIRMING_HEIGHT ==> r is Ok && final(self).stage() == (
            Stage::AwaitTransaction { height }) && final(self).inputs() == old(self).inputs()
                && final(self).position() == old(self).position() && final(self).cache()
                == old(self).cache() && final(self).records() == old(self).records()
                && final(self).coin_time_runs() == old(self).coin_time_runs(),
    {
        if height < MIN_CONFIRMING_HEIGHT {
            let input = &self.inputs[self.position];
            return Err(FetchError::NotEnoughHeight(outpoint_string(input.txid.as_str(), input.vout)));
        }
        self.stage = Stage::AwaitTransaction { height };
        Ok(())
    }

    /// Takes the raw transaction of the current input and picks the spent
    /// output. With its coin time cached, the input is complete; else the
    /// coin time is asked for, which counts as one more computation.
    pub fn accept_transaction(&mut self, hex: &str) -> (r: Result<InputProgress, FetchError>)
        requires
            old(self).wf(),
            old(self).stage() is AwaitTransaction,
        ensures
            final(self).wf(),
            final(self).inputs() == old(self).inputs(),
            final(self).cache() == old(self).cache(),
            ({
                let input = old(self).current();
                let height = old(self).stage()->AwaitTransaction_height;
                let pos = old(self).position();
                match decoded_tx(hex@) {
                    None => r matches Err(FetchError::FromHex(l)) && l@ == outpoint_label(
                        input.txid@,
                        input.vout,
                    ) && *final(self) == *old(self),
                    Some(t) => if input.vout >= t.0.len() {
                        r matches Err(FetchError::Index(l)) && l@ == outpoint_label(
                            input.txid@,
                            input.vout,
                        ) && *final(self) == *old(self)
                    } else {
                        let output = t.0[input.vout as int];
                        match cache_lookup(old(self).cache(), height) {
                            Some(time) => {
                                &&& r == Ok::<InputProgress, FetchError>(
                                    InputProgress::Completed { was_hit: true },
                                )
                                &&& final(self).records() == old(self).records().push(
                                    record_of(output, t.1, height, time),
                                )
                                &&& final(self).position() == pos + 1
                                &&& final(self).stage() == stage_at(
                                    pos + 1,
                                    old(self).inputs().len(),
                                )
                                &&& final(self).coin_time_runs() == old(self).coin_time_runs()
                            },
                            None => {
                                &&& r == Ok::<InputProgress, FetchError>(
                                    InputProgress::NeedsCoinTime,
                                )
                                &&& final(self).records() == old(self).records()
                                &&& final(self).position() == pos
                                &&& final(self).stage() matches Stage::AwaitCoinTime {
                                    height: h,
                                    output: o,
                                    is_coinbase: c,
                                } && h == height && o@ == output && c == t.1
                                &&& final(self).coin_time_runs() == old(self).coin_time_runs() + 1
                            },
                        }
                    },
                }
            }),
    {
        let height = match &self.stage {
            Stage::AwaitTransaction { height } => *height,
            _ => 0,
        };
        let (output, is_coinbase) = {
            let input = &self.inputs[self.position];
            match spent_output(hex, input.txid.as_str(), input.vout) {
                Ok(found) => found,
                Err(e) => return Err(e),
            }
        };
        let total = self.inputs.len();
        assert(self.position < total);
        match self.cache.lookup(height) {
            Some(time) => {
                let ghost old_records = self.records();
                let record = UtxoData {
                    txout: output,
                    is_coinbase,
                    creation_height: height,
                    creation_time: time,
                };
                self.records.push(record);
                self.position = self.position + 1;
                self.stage = if self.position < self.inputs.len() {
                    Stage::AwaitHeight
                } else {
                    Stage::Finished
                };
                proof {
                    assert(self.records() == old_records.push(record@));
                    assert(confirming_heights(self.records()) =~= confirming_heights(old_records)) by {
                        assert forall|h: u32| confirming_heights(self.records()).contains(h)
                            implies confirming_heights(old_records).contains(h) by {
                            let i = choose|i: int| 0 <= i < self.records().len()
                                && #[trigger] self.records()[i].creation_height == h;
                            if i == old_records.len() {
                                assert(self.cache@.contains_key(h));
                            } else {
                                assert(old_records[i].creation_height == h);
                            }
                        }
                        assert forall|h: u32| confirming_heights(old_records).contains(h)
                            implies confirming_heights(self.records()).contains(h) by {
                            let i = choose|i: int| 0 <= i < old_records.len()
                                && #[trigger] old_records[i].creation_height == h;
                            assert(self.records()[i].creation_height == h);
                        }
                    }
                }
                Ok(InputProgress::Completed { was_hit: true })
            },
            None => {
                self.stage = Stage::AwaitCoinTime { height, output, is_coinbase };
                self.runs = Ghost(self.runs@ + 1);
                Ok(InputProgress::NeedsCoinTime)
            },
        }
    }

    /// Takes the coin time computed for the current input's confirming
    /// height, caches it and completes the input.
    pub fn accept_coin_time(&mut self, time: u32)
        requires
            old(self).wf(),
            old(self).stage() is AwaitCoinTime,
        ensures
            final(self).wf(),
            ({
                let height = old(self).stage()->AwaitCoinTime_height;
                let output = old(self).stage()->AwaitCoinTime_output;
                let cb = old(self).stage()->AwaitCoinTime_is_coinbase;
                let pos = old(self).position();
                &&& final(self).inputs() == old(self).inputs()
                &&& final(self).cache() == cache_store(old(self).cache(), height, time)
                &&& final(self).cache() == old(self).cache().insert(height, time)
                &&& final(self).records() == old(self).records().push(
                    record_of(output@, cb, height, time),
                )
                &&& final(self).position() == pos + 1
                &&& final(self).stage() == stage_at(pos + 1, old(self).inputs().len())
                &&& final(self).coin_time_runs() == old(self).coin_time_runs()
            }),
    {
        let total = self.inputs.len();
        assert(self.position < total);
        let mut stage = Stage::Finished;
        std::mem::swap(&mut self.stage, &mut stage);
        match stage {
            Stage::AwaitCoinTime { height, output, is_coinbase } => {
                let ghost old_records = self.records();
                let ghost old_cache = self.cache@;
                self.cache.store(height, time);
                let record = UtxoData { txout: output, is_coinbase, creation_height: height, creation_time: time };
                self.records.push(record);
                self.position = self.position + 1;
                if self.position < self.inputs.len() {
                    self.stage = Stage::AwaitHeight;
                }
                proof {
                    assert(self.records() == old_records.push(record@));
                    assert(confirming_heights(self.records()) =~= confirming_heights(old_records).insert(height)) by {
                        assert forall|h: u32| confirming_heights(self.records()).contains(h)
                            implies confirming_heights(old_records).insert(height).contains(h) by {
                            let i = choose|i: int| 0 <= i < self.records().len()
                                && #[trigger] self.records()[i].creation_height == h;
                            if i < old_records.len() {
                                assert(old_records[i].creation_height == h);
                            }
                        }
                        assert forall|h: u32| confirming_heights(old_records).insert(height).contains(h)
                            implies confirming_heights(self.records()).contains(h) by {
                            if h == height {
                                assert(self.records()[old_records.len() as int].creation_height == h);
                            } else {
                                let i = choose|i: int| 0 <= i < old_records.len()
                                    && #[trigger] old_records[i].creation_height == h;
                                assert(self.records()[i].creation_height == h);
                            }
                        }
                    }
                    assert(self.cache@.dom() =~= old_cache.dom().insert(height));
                }
            },
            _ => {},
        }
    }

    /// The records of a finished run, in input order.
    pub fn into_records(self) -> (r: Vec<UtxoData>)
        requires
            self.wf(),
        ensures
            r@.map_values(|u: UtxoData| u@) == self.records(),
            self.stage() is Finished ==> r@.len() == self.inputs().len(),
    {
        self.records
    }
}

/// Over a finished run, the coin time was computed exactly once per distinct
/// confirming height among the inputs, however many inputs share a height.
pub proof fn lemma_one_computation_per_height(p: UtxoPipeline)
    requires
        p.wf(),
        p.stage() is Finished,
    ensures
        p.coin_time_runs() == confirming_heights(p.records()).len(),
        p.records().len() == p.inputs().len(),
{
}

/// The cache never overwrites a height, so every input confirmed at the same
/// height gets the same coin time, and the cache holds it.
pub proof fn lemma_shared_height_shared_time(p: UtxoPipeline, i: int, j: int)
    requires
        p.wf(),
        0 <= i < p.records().len(),
        0 <= j < p.records().len(),
        p.records()[i].creation_height == p.records()[j].creation_height,
    ensures
        p.records()[i].creation_time == p.records()[j].creation_time,
        p.cache()[p.records()[i].creation_height] == p.records()[i].creation_time,
        p.records()[i].creation_height >= MIN_CONFIRMING_HEIGHT,
{
    let ri = p.records@[i];
    let rj = p.records@[j];
}

} // verus!
