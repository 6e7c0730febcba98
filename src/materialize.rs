//! The transaction history: one entry per transaction, built from the wallet's
//! rows of one output each.
use vstd::prelude::*;
use crate::codecs::{
    bech32_encode, bech32_text, is_valid_unix_timestamp, memo_is_not_text, memo_not_text,
    MAX_UNIX_TIMESTAMP, MIN_UNIX_TIMESTAMP,
};
use crate::sapling::{dfvk_diversified_address, fvk_ak_decodes, point_valid, sapling_dfvk_address};
use crate::error::Error;

verus! {

/// Pool code of Sapling outputs in the wallet's rows.
pub const SAPLING_POOL: u32 = 2;

/// Pool code of Orchard outputs in the wallet's rows.
pub const ORCHARD_POOL: u32 = 3;

/// Length of a diversifier, in bytes.
pub const DIVERSIFIER_LEN: usize = 11;

/// One row of the wallet's transaction view: one output of one transaction, seen
/// from one account.
#[derive(Clone, Debug, PartialEq, Eq)]
pub struct TxRow {
    pub account_id: u32,
    pub txid: Vec<u8>,
    pub output_pool: u32,
    pub from_account: Option<u32>,
    pub to_account: Option<u32>,
    pub to_address: Option<String>,
    pub diversifier: Option<Vec<u8>>,
    pub value: u64,
    pub memo: Option<Vec<u8>>,
    pub mined_height: Option<u32>,
    pub expired_unmined: Option<bool>,
    pub block_time: Option<i64>,
    pub fee_paid: Option<u64>,
    pub account_balance_delta: i64,
}

/// One output of a transaction in the history.
#[derive(Clone, Debug, PartialEq, Eq)]
pub struct TransactionNote {
    pub value: u64,
    pub recipient: Option<String>,
    pub memo: Option<Vec<u8>>,
}

/// A transaction of the history with its outputs sorted into three lists.
#[derive(Clone, Debug, PartialEq, Eq)]
pub struct Transaction {
    pub account_id: u32,
    pub txid: Vec<u8>,
    pub mined_height: Option<u32>,
    pub expired_unmined: bool,
    pub block_time: Option<i64>,
    pub fee: Option<u64>,
    pub account_balance_delta: i64,
    pub incoming: Vec<TransactionNote>,
    pub outgoing: Vec<TransactionNote>,
    pub change: Vec<TransactionNote>,
}

pub struct NoteView {
    pub value: u64,
    pub recipient: Option<Seq<char>>,
    pub memo: Option<Seq<u8>>,
}

pub struct TransactionView {
    pub account_id: u32,
    pub txid: Seq<u8>,
    pub mined_height: Option<u32>,
    pub expired_unmined: bool,
    pub block_time: Option<i64>,
    pub fee: Option<u64>,
    pub account_balance_delta: i64,
    pub incoming: Seq<NoteView>,
    pub outgoing: Seq<NoteView>,
    pub change: Seq<NoteView>,
}

pub open spec fn opt_str(o: Option<String>) -> Option<Seq<char>> {
    match o {
        Some(s) => Some(s@),
        None => None,
    }
}

pub open spec fn opt_bytes(o: Option<Vec<u8>>) -> Option<Seq<u8>> {
    match o {
        Some(v) => Some(v@),
        None => None,
    }
}

impl TransactionNote {
    pub open spec fn view(&self) -> NoteView {
        NoteView { value: self.value, recipient: opt_str(self.recipient), memo: opt_bytes(self.memo) }
    }
}

pub open spec fn notes_view(v: Seq<TransactionNote>) -> Seq<NoteView> {
    v.map_values(|n: TransactionNote| n.view())
}

impl Transaction {
    pub open spec fn view(&self) -> TransactionView {
        TransactionView {
            account_id: self.account_id,
            txid: self.txid@,
            mined_height: self.mined_height,
            expired_unmined: self.expired_unmined,
            block_time: self.block_time,
            fee: self.fee,
            account_balance_delta: self.account_balance_delta,
            incoming: notes_view(self.incoming@),
            outgoing: notes_view(self.outgoing@),
            change: notes_view(self.change@),
        }
    }
}

/// The list a note goes to.
#[derive(Clone, Copy, Debug, PartialEq, Eq, Structural)]
pub enum NoteKind {
    Incoming,
    Outgoing,
    Change,
}

/// The memo bytes of a row; an absent memo reads as no bytes.
pub open spec fn memo_bytes(row: TxRow) -> Seq<u8> {
    match row.memo {
        Some(m) => m@,
        None => Seq::empty(),
    }
}

/// Change: the output goes back to the account it came from and its memo does not
/// decode as user text.
pub open spec fn is_change(row: TxRow) -> bool {
    row.to_account == row.from_account && memo_not_text(memo_bytes(row))
}

/// Incoming: not change, and the output goes to the row's account.
pub open spec fn is_incoming(row: TxRow) -> bool {
    !is_change(row) && row.to_account == Some(row.account_id)
}

/// Outgoing: neither change nor incoming.
pub open spec fn is_outgoing(row: TxRow) -> bool {
    !is_change(row) && row.to_account != Some(row.account_id)
}

pub open spec fn note_kind(row: TxRow) -> NoteKind {
    if is_change(row) {
        NoteKind::Change
    } else if is_incoming(row) {
        NoteKind::Incoming
    } else {
        NoteKind::Outgoing
    }
}

/// Every row is exactly one of change, incoming or outgoing.
pub proof fn lemma_classification_exclusive_complete(row: TxRow)
    ensures
        is_change(row) || is_incoming(row) || is_outgoing(row),
        !(is_change(row) && is_incoming(row)),
        !(is_change(row) && is_outgoing(row)),
        !(is_incoming(row) && is_outgoing(row)),
        note_kind(row) == NoteKind::Change <==> is_change(row),
        note_kind(row) == NoteKind::Incoming <==> is_incoming(row),
        note_kind(row) == NoteKind::Outgoing <==> is_outgoing(row),
{
}

/// Sorts a note by its sending and receiving accounts and its memo.
pub fn classify_note(
    account_id: u32,
    from_account: Option<u32>,
    to_account: Option<u32>,
    memo: &[u8],
) -> (k: NoteKind)
    ensures
        k == (if to_account == from_account && memo_not_text(memo@) {
            NoteKind::Change
        } else if to_account == Some(account_id) {
            NoteKind::Incoming
        } else {
            NoteKind::Outgoing
        }),
{
    if to_account == from_account && memo_is_not_text(memo) {
        NoteKind::Change
    } else if to_account == Some(account_id) {
        NoteKind::Incoming
    } else {
        NoteKind::Outgoing
    }
}

/// A shielded pool whose addresses a viewing key can rebuild from a diversifier.
#[derive(Clone, Copy, Debug, PartialEq, Eq, Structural)]
pub enum ShieldedPool {
    Sapling,
    Orchard,
}

/// Where the recipient address of a row comes from.
#[derive(Clone, Debug, PartialEq, Eq)]
pub enum AddressSource {
    /// The wallet recorded the address.
    Stored,
    /// The account's viewing key for this pool rebuilds it from the diversifier.
    Regenerate { pool: ShieldedPool, diversifier: Vec<u8> },
    /// It cannot be known.
    Absent,
}

/// Decides how to obtain a row's recipient address: the stored one, else a
/// rebuild from an 11-byte diversifier for a Sapling or Orchard output.
pub fn address_source(row: &TxRow) -> (r: AddressSource)
    ensures
        row.to_address is Some ==> r == AddressSource::Stored,
        row.to_address is None ==> match row.diversifier {
            Some(d) => if d@.len() == DIVERSIFIER_LEN && (row.output_pool == SAPLING_POOL
                || row.output_pool == ORCHARD_POOL) {
                &&& r is Regenerate
                &&& r->diversifier@ == d@
                &&& r->pool == if row.output_pool == SAPLING_POOL {
                    ShieldedPool::Sapling
                } else {
                    ShieldedPool::Orchard
                }
            } else {
                r == AddressSource::Absent
            },
            None => r == AddressSource::Absent,
        },
{
    if row.to_address.is_some() {
        return AddressSource::Stored;
    }
    match &row.diversifier {
        Some(d) => {
            if d.len() != DIVERSIFIER_LEN {
                AddressSource::Absent
            } else if row.output_pool == SAPLING_POOL {
                AddressSource::Regenerate { pool: ShieldedPool::Sapling, diversifier: copy_bytes(d) }
            } else if row.output_pool == ORCHARD_POOL {
                AddressSource::Regenerate { pool: ShieldedPool::Orchard, diversifier: copy_bytes(d) }
            } else {
                AddressSource::Absent
            }
        },
        None => AddressSource::Absent,
    }
}

fn copy_bytes(b: &Vec<u8>) -> (r: Vec<u8>)
    ensures
        r@ == b@,
{
    let mut r: Vec<u8> = Vec::new();
    let mut i: usize = 0;
    while i < b.len()
        invariant
            0 <= i <= b@.len(),
            r@ == b@.take(i as int),
        decreases b.len() - i,
    {
        assert(b@.take(i + 1) =~= b@.take(i as int).push(b@[i as int]));
        r.push(b[i]);
        i = i + 1;
    }
    assert(b@.take(i as int) =~= b@);
    r
}

/// Whether `txid` is one of `ids`.
pub open spec fn listed(ids: Seq<[u8; 32]>, txid: Seq<u8>) -> bool {
    exists|k: int| 0 <= k < ids.len() && (#[trigger] ids[k])@ == txid
}

fn is_listed(ids: &Vec<[u8; 32]>, txid: &Vec<u8>) -> (r: bool)
    ensures
        r == listed(ids@, txid@),
{
    let mut k: usize = 0;
    while k < ids.len()
        invariant
            0 <= k <= ids@.len(),
            forall|j: int| 0 <= j < k ==> (#[trigger] ids@[j])@ != txid@,
        decreases ids.len() - k,
    {
        if txid.len() == 32 {
            let id = &ids[k];
            let mut i: usize = 0;
            let mut same = true;
            while i < 32
                invariant
                    0 <= i <= 32,
                    txid@.len() == 32,
                    id@.len() == 32,
                    same == (forall|m: int| 0 <= m < i ==> id@[m] == txid@[m]),
                decreases 32 - i,
            {
                if id[i] != txid[i] {
                    same = false;
                }
                i = i + 1;
            }
            if same {
                assert(id@ =~= txid@);
                return true;
            }
        }
        k = k + 1;
    }
    false
}

/// The transactions of `txs`, in order, whose id is one of `ids`: the ones a sync
/// step has just seen for the first time.
pub fn select_transactions(txs: Vec<Transaction>, ids: &Vec<[u8; 32]>) -> (r: Vec<Transaction>)
    ensures
        r@ == txs@.filter(|t: Transaction| listed(ids@, t.txid@)),
{
    let ghost orig = txs@;
    let n0 = txs.len();
    let mut left = txs;
    let mut out: Vec<Transaction> = Vec::new();
    let mut i: usize = 0;
    assert(orig.skip(0) =~= orig);
    assert(orig.take(0).filter(|t: Transaction| listed(ids@, t.txid@)) =~= Seq::<Transaction>::empty());
    while left.len() > 0
        invariant
            i <= orig.len(),
            orig.len() == n0,
            left@ == orig.skip(i as int),
            out@ == orig.take(i as int).filter(|t: Transaction| listed(ids@, t.txid@)),
        decreases left.len(),
    {
        assert(orig.skip(i as int)[0] == orig[i as int]);
        let t = left.remove(0);
        assert(left@ =~= orig.skip(i + 1));
        assert(orig.take(i + 1).drop_last() =~= orig.take(i as int));
        reveal(Seq::filter);
        if is_listed(ids, &t.txid) {
            out.push(t);
        }
        i = i + 1;
    }
    assert(orig.take(i as int) =~= orig);
    out
}

fn same_bytes(a: &Vec<u8>, b: &Vec<u8>) -> (r: bool)
    ensures
        r == (a@ == b@),
{
    if a.len() != b.len() {
        return false;
    }
    let mut i: usize = 0;
    while i < a.len()
        invariant
            0 <= i <= a@.len(),
            a@.len() == b@.len(),
            forall|k: int| 0 <= k < i ==> a@[k] == b@[k],
        decreases a.len() - i,
    {
        if a[i] != b[i] {
            return false;
        }
        i = i + 1;
    }
    assert(a@ =~= b@);
    true
}

/// Account ids at or above this bound are not valid ZIP 32 account indices.
pub const ACCOUNT_ID_LIMIT: u32 = 0x8000_0000;

/// The chain whose address encoding the history uses.
#[derive(Clone, Copy, Debug, PartialEq, Eq, Structural)]
pub enum ChainNetwork {
    Main,
    Test,
}

/// The human-readable part of Sapling addresses on `n`.
pub open spec fn sapling_hrp(n: ChainNetwork) -> Seq<char> {
    match n {
        ChainNetwork::Main => "zs"@,
        ChainNetwork::Test => "ztestsapling"@,
    }
}

fn sapling_hrp_str(n: ChainNetwork) -> (s: &'static str)
    ensures
        s@ == sapling_hrp(n),
{
    match n {
        ChainNetwork::Main => {
            proof {
                reveal_strlit("zs");
            }
            "zs"
        },
        ChainNetwork::Test => {
            proof {
                reveal_strlit("ztestsapling");
            }
            "ztestsapling"
        },
    }
}

/// The Sapling component of an account's viewing key: the full viewing key and
/// the diversifier key.
#[derive(Clone, Copy, Debug, PartialEq, Eq)]
pub struct SaplingKey {
    pub fvk: [u8; 96],
    pub dk: [u8; 32],
}

/// The viewing keys of one account.
#[derive(Clone, Copy, Debug, PartialEq, Eq)]
pub struct AccountKeys {
    pub account_id: u32,
    pub sapling: Option<SaplingKey>,
}

/// The first entry of `keys` for account `id`.
pub open spec fn account_keys(keys: Seq<AccountKeys>, id: u32) -> Option<AccountKeys>
    decreases keys.len(),
{
    if keys.len() == 0 {
        None
    } else if keys[0].account_id == id {
        Some(keys[0])
    } else {
        account_keys(keys.skip(1), id)
    }
}

/// The Sapling address that the account's viewing key gives at an 11-byte
/// diversifier, encoded for `net`; `None` when the output is not Sapling, the
/// account has no (decodable) Sapling key, or the diversifier is not valid.
pub open spec fn rebuilt_sapling_address(
    account_id: u32,
    output_pool: u32,
    diversifier: Option<Seq<u8>>,
    keys: Seq<AccountKeys>,
    net: ChainNetwork,
) -> Option<Seq<char>> {
    match diversifier {
        Some(d) => if d.len() == DIVERSIFIER_LEN && output_pool == SAPLING_POOL {
            match account_keys(keys, account_id) {
                Some(k) => match k.sapling {
                    Some(sk) => if fvk_ak_decodes(sk.fvk@) {
                        match sapling_dfvk_address(sk.fvk@, sk.dk@, d) {
                            Some(a) => bech32_text(sapling_hrp(net), a),
                            None => None,
                        }
                    } else {
                        None
                    },
                    None => None,
                },
                None => None,
            }
        } else {
            None
        },
        None => None,
    }
}

/// The recipient of a row's note: the stored address, else the rebuilt Sapling one.
pub open spec fn recipient_of(row: TxRow, keys: Seq<AccountKeys>, net: ChainNetwork) -> Option<
    Seq<char>,
> {
    match row.to_address {
        Some(a) => Some(a@),
        None => rebuilt_sapling_address(
            row.account_id,
            row.output_pool,
            opt_bytes(row.diversifier),
            keys,
            net,
        ),
    }
}

fn find_account_keys(keys: &Vec<AccountKeys>, id: u32) -> (r: Option<AccountKeys>)
    ensures
        r == account_keys(keys@, id),
{
    let mut i: usize = 0;
    assert(keys@.skip(0) =~= keys@);
    while i < keys.len()
        invariant
            0 <= i <= keys@.len(),
            account_keys(keys@, id) == account_keys(keys@.skip(i as int), id),
        decreases keys.len() - i,
    {
        assert(keys@.skip(i as int)[0] == keys@[i as int]);
        assert(keys@.skip(i as int).skip(1) =~= keys@.skip(i + 1));
        if keys[i].account_id == id {
            return Some(keys[i]);
        }
        i = i + 1;
    }
    None
}

/// Rebuilds the address of a Sapling output from the account's viewing key and the
/// output's diversifier.
pub fn rebuild_sapling_address(
    account_id: u32,
    output_pool: u32,
    diversifier: &Option<Vec<u8>>,
    keys: &Vec<AccountKeys>,
    net: ChainNetwork,
) -> (r: Option<String>)
    ensures
        opt_str(r) == rebuilt_sapling_address(
            account_id,
            output_pool,
            opt_bytes(*diversifier),
            keys@,
            net,
        ),
{
    let d = match diversifier {
        Some(d) => d,
        None => return None,
    };
    if d.len() != DIVERSIFIER_LEN || output_pool != SAPLING_POOL {
        return None;
    }
    let k = match find_account_keys(keys, account_id) {
        Some(k) => k,
        None => return None,
    };
    let sk = match k.sapling {
        Some(sk) => sk,
        None => return None,
    };
    if !point_valid(&sk.fvk, 0) {
        return None;
    }
    let addr = match dfvk_diversified_address(&sk.fvk, &sk.dk, d.as_slice()) {
        Some(a) => a,
        None => return None,
    };
    bech32_encode(sapling_hrp_str(net), &addr)
}

/// The note of a row.
pub open spec fn row_note(row: TxRow, keys: Seq<AccountKeys>, net: ChainNetwork) -> NoteView {
    NoteView {
        value: row.value,
        recipient: recipient_of(row, keys, net),
        memo: if memo_bytes(row).len() == 0 {
            None
        } else {
            Some(memo_bytes(row))
        },
    }
}

/// The transaction of a row, holding the row's note alone.
pub open spec fn row_transaction(row: TxRow, keys: Seq<AccountKeys>, net: ChainNetwork) -> TransactionView {
    let n = seq![row_note(row, keys, net)];
    TransactionView {
        account_id: row.account_id,
        txid: row.txid@,
        mined_height: row.mined_height,
        expired_unmined: match row.expired_unmined {
            Some(b) => b,
            None => false,
        },
        block_time: row.block_time,
        fee: row.fee_paid,
        account_balance_delta: row.account_balance_delta,
        incoming: if note_kind(row) == NoteKind::Incoming { n } else { Seq::empty() },
        outgoing: if note_kind(row) == NoteKind::Outgoing { n } else { Seq::empty() },
        change: if note_kind(row) == NoteKind::Change { n } else { Seq::empty() },
    }
}

/// `t` with the notes of `u` appended to its lists.
pub open spec fn merge(t: TransactionView, u: TransactionView) -> TransactionView {
    TransactionView {
        incoming: t.incoming + u.incoming,
        outgoing: t.outgoing + u.outgoing,
        change: t.change + u.change,
        ..t
    }
}

/// The history built from `rows`: consecutive rows with one txid make one
/// transaction whose notes keep the rows' order.
pub open spec fn history(rows: Seq<TxRow>, keys: Seq<AccountKeys>, net: ChainNetwork) -> Seq<
    TransactionView,
>
    decreases rows.len(),
{
    if rows.len() == 0 {
        Seq::empty()
    } else {
        let prev = history(rows.drop_last(), keys, net);
        let t = row_transaction(rows.last(), keys, net);
        if prev.len() > 0 && prev.last().txid == t.txid {
            prev.update(prev.len() - 1, merge(prev.last(), t))
        } else {
            prev.push(t)
        }
    }
}

/// Consecutive entries of the history never belong to the same transaction, and
/// the history has no more entries than there are rows: rows of one transaction
/// that arrive together become one entry.
pub proof fn lemma_history_merges_transactions(
    rows: Seq<TxRow>,
    keys: Seq<AccountKeys>,
    net: ChainNetwork,
)
    ensures
        forall|k: int|
            0 <= k < history(rows, keys, net).len() - 1 ==> (#[trigger] history(
                rows,
                keys,
                net,
            )[k]).txid != history(rows, keys, net)[k + 1].txid,
        history(rows, keys, net).len() <= rows.len(),
    decreases rows.len(),
{
    if rows.len() > 0 {
        lemma_history_merges_transactions(rows.drop_last(), keys, net);
        let prev = history(rows.drop_last(), keys, net);
        let t = row_transaction(rows.last(), keys, net);
        if prev.len() > 0 && prev.last().txid == t.txid {
            let h = history(rows, keys, net);
            assert(h[h.len() - 1].txid == prev.last().txid);
            assert forall|k: int| 0 <= k < h.len() - 1 implies (#[trigger] h[k]).txid != h[k
                + 1].txid by {
                if k + 1 == h.len() - 1 {
                    assert(h[k] == prev[k]);
                } else {
                    assert(h[k] == prev[k] && h[k + 1] == prev[k + 1]);
                }
            }
        }
    }
}

/// Whether a row's account id is a valid ZIP 32 account index.
pub open spec fn account_valid(row: TxRow) -> bool {
    row.account_id < ACCOUNT_ID_LIMIT
}

/// Whether a row can enter the history.
pub open spec fn row_ok(row: TxRow) -> bool {
    account_valid(row) && block_time_valid(row)
}

pub open spec fn block_time_valid(row: TxRow) -> bool {
    match row.block_time {
        Some(t) => MIN_UNIX_TIMESTAMP <= t <= MAX_UNIX_TIMESTAMP,
        None => true,
    }
}

fn push_note(t: &mut Transaction, kind: NoteKind, note: TransactionNote)
    ensures
        final(t).account_id == old(t).account_id,
        final(t).txid == old(t).txid,
        final(t).mined_height == old(t).mined_height,
        final(t).expired_unmined == old(t).expired_unmined,
        final(t).block_time == old(t).block_time,
        final(t).fee == old(t).fee,
        final(t).account_balance_delta == old(t).account_balance_delta,
        final(t).incoming@ == if kind == NoteKind::Incoming {
            old(t).incoming@.push(note)
        } else {
            old(t).incoming@
        },
        final(t).outgoing@ == if kind == NoteKind::Outgoing {
            old(t).outgoing@.push(note)
        } else {
            old(t).outgoing@
        },
        final(t).change@ == if kind == NoteKind::Change {
            old(t).change@.push(note)
        } else {
            old(t).change@
        },
{
    match kind {
        NoteKind::Incoming => t.incoming.push(note),
        NoteKind::Outgoing => t.outgoing.push(note),
        NoteKind::Change => t.change.push(note),
    }
}

proof fn lemma_notes_view_push(v: Seq<TransactionNote>, n: TransactionNote)
    ensures
        notes_view(v.push(n)) == notes_view(v) + seq![n.view()],
{
    assert(notes_view(v.push(n)) =~= notes_view(v) + seq![n.view()]);
}

/// Builds the transaction history from the wallet's rows, in their order, with
/// missing Sapling recipients rebuilt from the accounts' viewing keys. The first
/// row that cannot enter the history decides the error: an account id that is not
/// a ZIP 32 account index gives `InvalidArgument`, a block time that is not a valid
/// Unix timestamp gives `Wallet`.
pub fn get_transactions(rows: Vec<TxRow>, keys: &Vec<AccountKeys>, network: ChainNetwork) -> (r:
    Result<Vec<Transaction>, Error>)
    ensures
        (forall|k: int| 0 <= k < rows@.len() ==> row_ok(#[trigger] rows@[k])) ==> {
            &&& r is Ok
            &&& r->Ok_0@.map_values(|t: Transaction| t.view()) == history(rows@, keys@, network)
        },
        !(forall|k: int| 0 <= k < rows@.len() ==> row_ok(#[trigger] rows@[k])) ==> {
            &&& r is Err
            &&& exists|k: int|
                0 <= k < rows@.len() && !row_ok(#[trigger] rows@[k]) && (forall|j: int|
                    0 <= j < k ==> row_ok(rows@[j])) && if account_valid(rows@[k]) {
                    r->Err_0 is Wallet
                } else {
                    r->Err_0 is InvalidArgument
                }
        },
{
    let ghost orig = rows@;
    let n0 = rows.len();
    let mut left = rows;
    let mut out: Vec<Transaction> = Vec::new();
    let mut i: usize = 0;
    assert(orig.skip(0) =~= orig);
    assert(orig.take(0) =~= Seq::<TxRow>::empty());
    assert(out@.map_values(|t: Transaction| t.view()) =~= Seq::<TransactionView>::empty());
    while left.len() > 0
        invariant
            i <= orig.len(),
            orig.len() == n0,
            orig == rows@,
            left@ == orig.skip(i as int),
            forall|k: int| 0 <= k < i ==> row_ok(#[trigger] orig[k]),
            out@.map_values(|t: Transaction| t.view()) == history(orig.take(i as int), keys@, network),
        decreases left.len(),
    {
        let ghost prev = out@;
        let ghost cur = orig[i as int];
        assert(orig.skip(i as int)[0] == cur);
        let row = left.remove(0);
        assert(left@ =~= orig.skip(i + 1));
        assert(row == cur);
        let account_id = row.account_id;
        let txid = row.txid;
        let from_account = row.from_account;
        let to_account = row.to_account;
        if row.account_id >= ACCOUNT_ID_LIMIT {
            assert(!row_ok(orig[i as int]));
            return Err(Error::InvalidArgument(String::from_str("Invalid account ID")));
        }
        let to_address = row.to_address;
        let value = row.value;
        let memo = row.memo;
        let mined_height = row.mined_height;
        let expired_unmined = row.expired_unmined;
        let block_time = row.block_time;
        let fee_paid = row.fee_paid;
        let account_balance_delta = row.account_balance_delta;
        if let Some(t) = block_time {
            if !is_valid_unix_timestamp(t) {
                assert(!row_ok(orig[i as int]));
                return Err(Error::Wallet(String::from_str("block time is out of range")));
            }
        }
        let memo_v: Vec<u8> = match memo {
            Some(m) => m,
            None => Vec::new(),
        };
        assert(memo_v@ == memo_bytes(cur));
        let kind = classify_note(account_id, from_account, to_account, memo_v.as_slice());
        let note_memo = if memo_v.len() == 0 {
            None
        } else {
            Some(memo_v)
        };
        let recipient = match to_address {
            Some(a) => Some(a),
            None => rebuild_sapling_address(account_id, row.output_pool, &row.diversifier, keys, network),
        };
        let note = TransactionNote { value, recipient, memo: note_memo };
        assert(note.view() == row_note(cur, keys@, network));
        assert(kind == note_kind(cur));
        assert(orig.take(i + 1).drop_last() =~= orig.take(i as int));
        let n = out.len();
        if n > 0 && same_bytes(&out[n - 1].txid, &txid) {
            let mut t = out.pop().unwrap();
            assert(prev.last() == t);
            push_note(&mut t, kind, note);
            out.push(t);
            proof {
                let h = history(orig.take(i as int), keys@, network);
                assert(h.last() == prev.last().view());
                lemma_notes_view_push(prev.last().incoming@, note);
                lemma_notes_view_push(prev.last().outgoing@, note);
                lemma_notes_view_push(prev.last().change@, note);
                assert(t.view() == merge(h.last(), row_transaction(cur, keys@, network)));
                assert(out@.map_values(|t: Transaction| t.view()) =~= h.update(
                    h.len() - 1,
                    merge(h.last(), row_transaction(cur, keys@, network)),
                ));
            }
        } else {
            let mut t = Transaction {
                account_id,
                txid,
                mined_height,
                expired_unmined: match expired_unmined {
                    Some(b) => b,
                    None => false,
                },
                block_time,
                fee: fee_paid,
                account_balance_delta,
                incoming: Vec::new(),
                outgoing: Vec::new(),
                change: Vec::new(),
            };
            push_note(&mut t, kind, note);
            proof {
                lemma_notes_view_push(Seq::empty(), note);
                assert(notes_view(Seq::<TransactionNote>::empty()) =~= Seq::<NoteView>::empty());
                assert(t.view() == row_transaction(cur, keys@, network));
            }
            out.push(t);
            proof {
                let h = history(orig.take(i as int), keys@, network);
                assert(out@.map_values(|t: Transaction| t.view()) =~= h.push(row_transaction(cur, keys@, network)));
            }
        }
        i = i + 1;
    }
    assert(orig.take(i as int) =~= orig);
    Ok(out)
}

} // verus!
