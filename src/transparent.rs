//! Transparent address history: which heights to ask for and which outputs of
//! the returned transactions the wallet records.
use vstd::prelude::*;

verus! {

/// A transparent output of a fetched transaction.
#[derive(Clone, Copy, Debug, PartialEq, Eq, Structural)]
pub struct TransparentTxOut {
    pub value_zat: i64,
    /// Whether its script pays to an address (P2PKH or P2SH).
    pub has_recipient: bool,
}

/// A transaction returned for a transparent address, mined at `height`.
#[derive(Clone, Debug, PartialEq, Eq)]
pub struct TransparentTx {
    pub txid: [u8; 32],
    pub height: u32,
    pub outputs: Vec<TransparentTxOut>,
}

/// An output for the wallet to record as received.
#[derive(Clone, Copy, Debug, PartialEq, Eq)]
pub struct ReceivedUtxo {
    pub txid: [u8; 32],
    pub index: u32,
    pub value_zat: i64,
    pub height: u32,
}

/// What ingesting a batch of transactions yields: the outputs to record, and for
/// each of them the id of its transaction.
#[derive(Clone, Debug, PartialEq, Eq)]
pub struct TransparentIngest {
    pub utxos: Vec<ReceivedUtxo>,
    pub txids: Vec<[u8; 32]>,
}

/// The first height to ask the daemon about: the address's last scanned height,
/// or the Sapling activation height for an address never scanned.
pub fn pull_start_height(last_scanned: Option<u32>, sapling_activation: u32) -> (r: u32)
    ensures
        r == match last_scanned {
            Some(h) => h,
            None => sapling_activation,
        },
{
    match last_scanned {
        Some(h) => h,
        None => sapling_activation,
    }
}

/// The outputs among the first `n` outputs of `tx` that pay to an address.
pub open spec fn outputs_upto(tx: TransparentTx, n: int) -> Seq<ReceivedUtxo>
    decreases n,
{
    if n <= 0 {
        Seq::empty()
    } else {
        let o = tx.outputs@[n - 1];
        outputs_upto(tx, n - 1) + if o.has_recipient {
            seq![ReceivedUtxo { txid: tx.txid, index: (n - 1) as u32, value_zat: o.value_zat, height: tx.height }]
        } else {
            Seq::empty()
        }
    }
}

/// The outputs of all `txs`, in order, that pay to an address.
pub open spec fn received_of(txs: Seq<TransparentTx>) -> Seq<ReceivedUtxo>
    decreases txs.len(),
{
    if txs.len() == 0 {
        Seq::empty()
    } else {
        received_of(txs.drop_last()) + outputs_upto(txs.last(), txs.last().outputs@.len() as int)
    }
}

/// Lists the outputs to record from the transactions fetched for an address: every
/// output that pays to an address, at its transaction's height, with its index.
pub fn received_outputs(txs: &Vec<TransparentTx>) -> (r: TransparentIngest)
    requires
        forall|k: int| 0 <= k < txs@.len() ==> (#[trigger] txs@[k]).outputs@.len() <= u32::MAX
            + 1,
    ensures
        r.utxos@ == received_of(txs@),
        r.txids@ == r.utxos@.map_values(|u: ReceivedUtxo| u.txid),
{
    let mut utxos: Vec<ReceivedUtxo> = Vec::new();
    let mut txids: Vec<[u8; 32]> = Vec::new();
    let mut i: usize = 0;
    while i < txs.len()
        invariant
            forall|k: int| 0 <= k < txs@.len() ==> (#[trigger] txs@[k]).outputs@.len() <= u32::MAX
                + 1,
            0 <= i <= txs@.len(),
            utxos@ == received_of(txs@.take(i as int)),
            txids@ == utxos@.map_values(|u: ReceivedUtxo| u.txid),
        decreases txs.len() - i,
    {
        assert(txs@.take(i + 1).drop_last() =~= txs@.take(i as int));
        let tx = &txs[i];
        let ghost before = utxos@;
        let mut j: usize = 0;
        while j < tx.outputs.len()
            invariant
                0 <= j <= tx.outputs@.len(),
                tx.outputs@.len() <= u32::MAX + 1,
                utxos@ == before + outputs_upto(*tx, j as int),
                txids@ == utxos@.map_values(|u: ReceivedUtxo| u.txid),
            decreases tx.outputs.len() - j,
        {
            let o = tx.outputs[j];
            if o.has_recipient {
                let u = ReceivedUtxo {
                    txid: tx.txid,
                    index: j as u32,
                    value_zat: o.value_zat,
                    height: tx.height,
                };
                let ghost pu = utxos@;
                utxos.push(u);
                txids.push(tx.txid);
                assert(utxos@ =~= before + outputs_upto(*tx, j + 1));
                assert(txids@ =~= utxos@.map_values(|u: ReceivedUtxo| u.txid));
            } else {
                assert(utxos@ =~= before + outputs_upto(*tx, j + 1));
            }
            j = j + 1;
        }
        i = i + 1;
    }
    assert(txs@.take(i as int) =~= txs@);
    TransparentIngest { utxos, txids }
}

} // verus!
