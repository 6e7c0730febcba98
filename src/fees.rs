//! Miner fees: value flowing out of a transaction's inputs that its outputs and
//! shielded pools do not take back.
use vstd::prelude::*;
use crate::error::Error;

verus! {

/// Total supply of the currency, in zatoshis: the bound of every amount.
pub const MAX_MONEY: i64 = 2_100_000_000_000_000;

/// A reference to a transaction output: the transaction's id and the output's index.
#[derive(Clone, Copy, Debug, PartialEq, Eq)]
pub struct OutPoint {
    pub txid: [u8; 32],
    pub index: u32,
}

/// A row of the transparent outputs table.
#[derive(Clone, Copy, Debug, PartialEq, Eq)]
pub struct Utxo {
    pub prevout_txid: [u8; 32],
    pub prevout_idx: u32,
    pub value_zat: i64,
}

/// What fee computation needs of a transaction: its transparent inputs and
/// outputs and the value balance of each shielded pool.
#[derive(Clone, Debug, PartialEq, Eq)]
pub struct TxValues {
    pub inputs: Vec<OutPoint>,
    pub outputs: Vec<i64>,
    pub sprout_balance: i64,
    pub sapling_balance: i64,
    pub orchard_balance: i64,
}

/// A persisted transaction whose fee is still unknown.
#[derive(Clone, Debug, PartialEq, Eq)]
pub struct PendingTx {
    pub txid: [u8; 32],
    pub values: TxValues,
}

/// A fee to write back for a transaction.
#[derive(Clone, Copy, Debug, PartialEq, Eq)]
pub struct FeeUpdate {
    pub txid: [u8; 32],
    pub fee: i64,
}

pub open spec fn is_amount(v: int) -> bool {
    -MAX_MONEY <= v <= MAX_MONEY
}

/// `v` as an amount, or `None` when it leaves the valid range.
pub open spec fn checked(v: int) -> Option<int> {
    if is_amount(v) {
        Some(v)
    } else {
        None
    }
}

/// The value of the first row of `utxos` that `op` refers to.
pub open spec fn prevout_value(utxos: Seq<Utxo>, op: OutPoint) -> Option<i64>
    decreases utxos.len(),
{
    if utxos.len() == 0 {
        None
    } else if utxos[0].prevout_txid@ == op.txid@ && utxos[0].prevout_idx == op.index {
        Some(utxos[0].value_zat)
    } else {
        prevout_value(utxos.skip(1), op)
    }
}

/// Whether some input of `inputs` has no row in `utxos`.
pub open spec fn some_input_missing(inputs: Seq<OutPoint>, utxos: Seq<Utxo>) -> bool {
    exists|k: int| 0 <= k < inputs.len() && prevout_value(utxos, #[trigger] inputs[k]) is None
}

/// Sum of `vals`, where every value and every partial sum must be an amount.
pub open spec fn amount_sum(vals: Seq<int>) -> Option<int>
    decreases vals.len(),
{
    if vals.len() == 0 {
        Some(0)
    } else {
        match amount_sum(vals.drop_last()) {
            Some(s) => if is_amount(vals.last()) {
                checked(s + vals.last())
            } else {
                None
            },
            None => None,
        }
    }
}

/// The values of the outputs that `inputs` spend (meaningful when none is missing).
pub open spec fn input_values(inputs: Seq<OutPoint>, utxos: Seq<Utxo>) -> Seq<int> {
    inputs.map_values(|op: OutPoint| prevout_value(utxos, op)->Some_0 as int)
}

/// The fee of a transaction all of whose inputs are known: transparent inputs
/// minus transparent outputs plus the value balances of the Sprout, Sapling and
/// Orchard pools; `None` when an amount leaves the valid range.
pub open spec fn fee_of(tx: TxValues, utxos: Seq<Utxo>) -> Option<int> {
    match (
        amount_sum(input_values(tx.inputs@, utxos)),
        amount_sum(tx.outputs@.map_values(|v: i64| v as int)),
    ) {
        (Some(i), Some(o)) => {
            if is_amount(tx.sprout_balance as int) && is_amount(tx.sapling_balance as int)
                && is_amount(tx.orchard_balance as int) {
                match checked(i - o) {
                    Some(t) => match checked(t + tx.sprout_balance) {
                        Some(a) => match checked(a + tx.sapling_balance) {
                            Some(b) => checked(b + tx.orchard_balance),
                            None => None,
                        },
                        None => None,
                    },
                    None => None,
                }
            } else {
                None
            }
        },
        _ => None,
    }
}

/// What fee computation yields for `tx`.
pub open spec fn fee_result(tx: TxValues, utxos: Seq<Utxo>) -> Result<i64, Error> {
    if some_input_missing(tx.inputs@, utxos) {
        Err(Error::OutPointMissing)
    } else {
        match fee_of(tx, utxos) {
            Some(f) => Ok(f as i64),
            None => Err(Error::InvalidAmount),
        }
    }
}

fn same_txid(a: &[u8; 32], b: &[u8; 32]) -> (r: bool)
    ensures
        r == (a@ == b@),
{
    let mut i: usize = 0;
    while i < 32
        invariant
            0 <= i <= 32,
            a@.len() == 32,
            b@.len() == 32,
            forall|k: int| 0 <= k < i ==> a@[k] == b@[k],
        decreases 32 - i,
    {
        if a[i] != b[i] {
            return false;
        }
        i = i + 1;
    }
    assert(a@ =~= b@);
    true
}

/// Looks up the value of the output that `op` refers to.
pub fn get_prevout_value(op: &OutPoint, utxos: &Vec<Utxo>) -> (r: Option<i64>)
    ensures
        r == prevout_value(utxos@, *op),
{
    let mut i: usize = 0;
    assert(utxos@.skip(0) =~= utxos@);
    while i < utxos.len()
        invariant
            0 <= i <= utxos@.len(),
            prevout_value(utxos@, *op) == prevout_value(utxos@.skip(i as int), *op),
        decreases utxos.len() - i,
    {
        let u = &utxos[i];
        assert(utxos@.skip(i as int)[0] == utxos@[i as int]);
        assert(utxos@.skip(i as int).skip(1) =~= utxos@.skip(i + 1));
        if same_txid(&u.prevout_txid, &op.txid) && u.prevout_idx == op.index {
            return Some(u.value_zat);
        }
        i = i + 1;
    }
    None
}

fn add_amount(a: i64, b: i64) -> (r: Option<i64>)
    requires
        is_amount(a as int),
        is_amount(b as int),
    ensures
        r == (match checked(a + b) {
            Some(v) => Some(v as i64),
            None => None::<i64>,
        }),
{
    let s = a + b;
    if -MAX_MONEY <= s && s <= MAX_MONEY {
        Some(s)
    } else {
        None
    }
}

/// Sums the amounts of `vals`; `None` when an amount or a partial sum leaves the
/// valid range.
pub fn sum_amounts(vals: &Vec<i64>) -> (r: Option<i64>)
    ensures
        r == (match amount_sum(vals@.map_values(|v: i64| v as int)) {
            Some(v) => Some(v as i64),
            None => None::<i64>,
        }),
{
    let ghost m = vals@.map_values(|v: i64| v as int);
    let mut acc: i64 = 0;
    let mut i: usize = 0;
    while i < vals.len()
        invariant
            0 <= i <= vals@.len(),
            m == vals@.map_values(|v: i64| v as int),
            amount_sum(m.take(i as int)) == Some(acc as int),
            is_amount(acc as int),
        decreases vals.len() - i,
    {
        assert(m.take(i + 1).drop_last() =~= m.take(i as int));
        let v = vals[i];
        if !(-MAX_MONEY <= v && v <= MAX_MONEY) {
            proof { lemma_amount_sum_none_extends(m, i + 1); }
            return None;
        }
        match add_amount(acc, v) {
            Some(s) => acc = s,
            None => {
                proof { lemma_amount_sum_none_extends(m, i + 1); }
                return None;
            },
        }
        i = i + 1;
    }
    assert(m.take(i as int) =~= m);
    Some(acc)
}

proof fn lemma_amount_sum_none_extends(m: Seq<int>, i: int)
    requires
        0 <= i <= m.len(),
        amount_sum(m.take(i)) is None,
    ensures
        amount_sum(m) is None,
    decreases m.len() - i,
{
    if i < m.len() {
        assert(m.take(i + 1).drop_last() =~= m.take(i));
        lemma_amount_sum_none_extends(m, i + 1);
    } else {
        assert(m.take(i) =~= m);
    }
}

/// Calculates the fee of a transaction. Fails with `OutPointMissing` when an
/// input spends an output that is not in `utxos`, and with `InvalidAmount` when
/// a sum leaves the range of amounts.
pub fn calculate_transaction_fee(tx: &TxValues, utxos: &Vec<Utxo>) -> (r: Result<i64, Error>)
    ensures
        r == fee_result(*tx, utxos@),
{
    let mut ins: Vec<i64> = Vec::new();
    let mut i: usize = 0;
    while i < tx.inputs.len()
        invariant
            0 <= i <= tx.inputs@.len(),
            forall|k: int| 0 <= k < i ==> prevout_value(utxos@, #[trigger] tx.inputs@[k]) is Some,
            ins@ =~= tx.inputs@.take(i as int).map_values(
                |op: OutPoint| prevout_value(utxos@, op)->Some_0,
            ),
        decreases tx.inputs.len() - i,
    {
        match get_prevout_value(&tx.inputs[i], utxos) {
            Some(v) => ins.push(v),
            None => {
                assert(some_input_missing(tx.inputs@, utxos@));
                return Err(Error::OutPointMissing);
            },
        }
        i = i + 1;
    }
    assert(!some_input_missing(tx.inputs@, utxos@));
    assert(ins@.map_values(|v: i64| v as int) =~= input_values(tx.inputs@, utxos@));
    let total_in = sum_amounts(&ins);
    let total_out = sum_amounts(&tx.outputs);
    match (total_in, total_out) {
        (Some(a), Some(b)) => {
            if !(-MAX_MONEY <= tx.sprout_balance && tx.sprout_balance <= MAX_MONEY
                && -MAX_MONEY <= tx.sapling_balance && tx.sapling_balance <= MAX_MONEY
                && -MAX_MONEY <= tx.orchard_balance && tx.orchard_balance <= MAX_MONEY) {
                return Err(Error::InvalidAmount);
            }
            let t = a - b;
            if !(-MAX_MONEY <= t && t <= MAX_MONEY) {
                return Err(Error::InvalidAmount);
            }
            let s1 = match add_amount(t, tx.sprout_balance) {
                Some(v) => v,
                None => return Err(Error::InvalidAmount),
            };
            let s2 = match add_amount(s1, tx.sapling_balance) {
                Some(v) => v,
                None => return Err(Error::InvalidAmount),
            };
            match add_amount(s2, tx.orchard_balance) {
                Some(v) => Ok(v),
                None => Err(Error::InvalidAmount),
            }
        },
        _ => Err(Error::InvalidAmount),
    }
}

/// The fees to write back for `pending`, in order: one for each transaction
/// whose fee can be computed; those that spend an unknown output are skipped.
pub open spec fn fee_updates(pending: Seq<PendingTx>, utxos: Seq<Utxo>) -> Result<
    Seq<FeeUpdate>,
    Error,
>
    decreases pending.len(),
{
    if pending.len() == 0 {
        Ok(Seq::empty())
    } else {
        match fee_updates(pending.drop_last(), utxos) {
            Ok(done) => match fee_result(pending.last().values, utxos) {
                Ok(f) => Ok(done.push(FeeUpdate { txid: pending.last().txid, fee: f })),
                Err(Error::OutPointMissing) => Ok(done),
                Err(e) => Err(e),
            },
            Err(e) => Err(e),
        }
    }
}

proof fn lemma_fee_updates_err_extends(p: Seq<PendingTx>, utxos: Seq<Utxo>, i: int)
    requires
        0 <= i <= p.len(),
        fee_updates(p.take(i), utxos) == Err::<Seq<FeeUpdate>, Error>(Error::InvalidAmount),
    ensures
        fee_updates(p, utxos) == Err::<Seq<FeeUpdate>, Error>(Error::InvalidAmount),
    decreases p.len() - i,
{
    if i < p.len() {
        assert(p.take(i + 1).drop_last() =~= p.take(i));
        lemma_fee_updates_err_extends(p, utxos, i + 1);
    } else {
        assert(p.take(i) =~= p);
    }
}

/// Computes the fee of every transaction of `pending` (those whose fee is not
/// recorded yet). A transaction that spends an output missing from `utxos` is
/// skipped; any other failure is returned.
pub fn initialize_transaction_fees(pending: &Vec<PendingTx>, utxos: &Vec<Utxo>) -> (r: Result<
    Vec<FeeUpdate>,
    Error,
>)
    ensures
        match r {
            Ok(v) => fee_updates(pending@, utxos@) == Ok::<Seq<FeeUpdate>, Error>(v@),
            Err(e) => fee_updates(pending@, utxos@) == Err::<Seq<FeeUpdate>, Error>(e),
        },
{
    let mut out: Vec<FeeUpdate> = Vec::new();
    let mut i: usize = 0;
    while i < pending.len()
        invariant
            0 <= i <= pending@.len(),
            fee_updates(pending@.take(i as int), utxos@) == Ok::<Seq<FeeUpdate>, Error>(out@),
        decreases pending.len() - i,
    {
        assert(pending@.take(i + 1).drop_last() =~= pending@.take(i as int));
        let p = &pending[i];
        match calculate_transaction_fee(&p.values, utxos) {
            Ok(f) => out.push(FeeUpdate { txid: p.txid, fee: f }),
            Err(Error::OutPointMissing) => {},
            Err(e) => {
                proof {
                    assert(e == Error::InvalidAmount);
                    lemma_fee_updates_err_extends(pending@, utxos@, i + 1);
                }
                return Err(e);
            },
        }
        i = i + 1;
    }
    assert(pending@.take(i as int) =~= pending@);
    Ok(out)
}

/// Plain sum of `vals`.
pub open spec fn sum_of(vals: Seq<int>) -> int
    decreases vals.len(),
{
    if vals.len() == 0 {
        0
    } else {
        sum_of(vals.drop_last()) + vals.last()
    }
}

proof fn lemma_amount_sum_is_sum(vals: Seq<int>)
    requires
        amount_sum(vals) is Some,
    ensures
        amount_sum(vals) == Some(sum_of(vals)),
    decreases vals.len(),
{
    if vals.len() > 0 {
        lemma_amount_sum_is_sum(vals.drop_last());
    }
}

/// When every input of `tx` is in `utxos` and no amount leaves the valid range,
/// the fee is the sum of the input values minus the sum of the outputs plus the
/// Sprout, Sapling and Orchard value balances.
pub proof fn lemma_fee_formula(tx: TxValues, utxos: Seq<Utxo>)
    requires
        !some_input_missing(tx.inputs@, utxos),
        fee_of(tx, utxos) is Some,
    ensures
        fee_result(tx, utxos) == Ok::<i64, Error>(
            (sum_of(input_values(tx.inputs@, utxos)) - sum_of(
                tx.outputs@.map_values(|v: i64| v as int),
            ) + tx.sprout_balance + tx.sapling_balance + tx.orchard_balance) as i64,
        ),
{
    lemma_amount_sum_is_sum(input_values(tx.inputs@, utxos));
    lemma_amount_sum_is_sum(tx.outputs@.map_values(|v: i64| v as int));
}

/// Of three pending transactions where the middle one spends an unknown output and
/// the others' fees compute, filling in fees succeeds with exactly the two others'
/// fees, in order, and leaves the middle one without a fee.
pub proof fn lemma_backfill_with_missing_prevout(
    t1: PendingTx,
    t2: PendingTx,
    t3: PendingTx,
    utxos: Seq<Utxo>,
)
    requires
        fee_result(t1.values, utxos) is Ok,
        some_input_missing(t2.values.inputs@, utxos),
        fee_result(t3.values, utxos) is Ok,
    ensures
        fee_updates(seq![t1, t2, t3], utxos) == Ok::<Seq<FeeUpdate>, Error>(
            seq![
                FeeUpdate { txid: t1.txid, fee: fee_result(t1.values, utxos)->Ok_0 },
                FeeUpdate { txid: t3.txid, fee: fee_result(t3.values, utxos)->Ok_0 },
            ],
        ),
{
    let p = seq![t1, t2, t3];
    reveal_with_fuel(fee_updates, 4);
    assert(fee_updates(Seq::<PendingTx>::empty(), utxos) == Ok::<Seq<FeeUpdate>, Error>(
        Seq::empty(),
    ));
    assert(seq![t1].last() == t1);
    assert(seq![t1, t2].last() == t2);
    assert(p.last() == t3);
    assert(p.drop_last() =~= seq![t1, t2]);
    assert(seq![t1, t2].drop_last() =~= seq![t1]);
    assert(seq![t1].drop_last() =~= Seq::<PendingTx>::empty());
    assert(fee_updates(seq![t1], utxos) == Ok::<Seq<FeeUpdate>, Error>(
        seq![FeeUpdate { txid: t1.txid, fee: fee_result(t1.values, utxos)->Ok_0 }],
    )) by {
        assert(Seq::<FeeUpdate>::empty().push(
            FeeUpdate { txid: t1.txid, fee: fee_result(t1.values, utxos)->Ok_0 },
        ) =~= seq![FeeUpdate { txid: t1.txid, fee: fee_result(t1.values, utxos)->Ok_0 }]);
    }
    assert(fee_result(t2.values, utxos) == Err::<i64, Error>(Error::OutPointMissing));
    assert(seq![FeeUpdate { txid: t1.txid, fee: fee_result(t1.values, utxos)->Ok_0 }].push(
        FeeUpdate { txid: t3.txid, fee: fee_result(t3.values, utxos)->Ok_0 },
    ) =~= seq![
        FeeUpdate { txid: t1.txid, fee: fee_result(t1.values, utxos)->Ok_0 },
        FeeUpdate { txid: t3.txid, fee: fee_result(t3.values, utxos)->Ok_0 },
    ]);
}

/// A transaction that spends an output missing from `utxos` gets no fee, and
/// leaves the fees written for the other transactions as they would be without it.
pub proof fn lemma_missing_input_skipped(
    before: Seq<PendingTx>,
    tx: PendingTx,
    after: Seq<PendingTx>,
    utxos: Seq<Utxo>,
)
    requires
        some_input_missing(tx.values.inputs@, utxos),
    ensures
        fee_updates(before + seq![tx] + after, utxos) == fee_updates(before + after, utxos),
    decreases after.len(),
{
    if after.len() == 0 {
        assert(before + seq![tx] + after =~= before.push(tx));
        assert((before + seq![tx] + after).drop_last() =~= before);
        assert(before + after =~= before);
    } else {
        lemma_missing_input_skipped(before, tx, after.drop_last(), utxos);
        assert((before + seq![tx] + after).drop_last() =~= before + seq![tx] + after.drop_last());
        assert((before + after).drop_last() =~= before + after.drop_last());
        assert((before + seq![tx] + after).last() == after.last());
        assert((before + after).last() == after.last());
    }
}

} // verus!
