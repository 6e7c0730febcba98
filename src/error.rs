//! The library's flat error type.
use vstd::prelude::*;
use vstd::string::StringExecFns;

verus! {

/// Status codes of the daemon's RPC protocol.
#[derive(Clone, Copy, Debug, PartialEq, Eq, Structural)]
pub enum RpcCode {
    Success,
    Cancelled,
    Unknown,
    InvalidArgument,
    DeadlineExceeded,
    NotFound,
    AlreadyExists,
    PermissionDenied,
    ResourceExhausted,
    FailedPrecondition,
    Aborted,
    OutOfRange,
    Unimplemented,
    Internal,
    Unavailable,
    DataLoss,
    Unauthenticated,
}

/// Everything that can go wrong during a sync session. Errors of the wallet
/// backend whose shape does not matter to the engine carry a description.
#[derive(Clone, Debug, PartialEq, Eq)]
pub enum Error {
    Transport(String),
    RpcStatus { code: RpcCode, message: String },
    Wallet(String),
    /// The scanner asked the block cache for a height that it does not hold.
    BlockMissing(u32),
    /// The block at this height does not continue the wallet's view of the chain.
    ScanContinuity(u32),
    Scan(String),
    Io(String),
    InvalidHeight,
    InvalidAmount,
    InsufficientFunds { required: i64, available: i64 },
    InvalidAddress,
    InvalidMemo,
    InvalidKey,
    OutPointMissing,
    SyncFirst,
    InvalidArgument(String),
    Internal(String),
    Cancelled,
    SendFailed { code: i32, reason: String },
}

/// The errors of the wallet backend, with each inner value already rendered as text.
#[derive(Clone, Debug, PartialEq, Eq)]
pub enum BackendError {
    DataSource(String),
    CommitmentTree(String),
    NoteSelection(String),
    KeyNotRecognized,
    /// The id of the account, rendered as text.
    AccountNotFound(String),
    BalanceError(String),
    InsufficientFunds { available: i64, required: i64 },
    ScanRequired,
    Builder(String),
    MemoForbidden,
    NoteMismatch,
    AddressNotRecognized,
    ChildIndexOutOfRange,
}

/// `label`, a colon, a space, then `detail`.
pub open spec fn labelled(label: Seq<char>, detail: Seq<char>) -> Seq<char> {
    label + seq![':', ' '] + detail
}

fn with_label(label: &str, detail: &String) -> (r: String)
    ensures
        r@ == labelled(label@, detail@),
{
    let mut r = label.to_owned();
    let sep = ": ";
    proof {
        reveal_strlit(": ");
    }
    r.append(sep);
    r.append(detail.as_str());
    r
}

/// The label and description that a backend error is reported under when it
/// becomes `Internal`; `None` for the errors that keep a meaning of their own.
pub open spec fn internal_message(e: BackendError) -> Option<Seq<char>> {
    match e {
        BackendError::DataSource(d) => Some(labelled("DataSource"@, d@)),
        BackendError::CommitmentTree(d) => Some(labelled("CommitmentTree"@, d@)),
        BackendError::NoteSelection(d) => Some(labelled("NoteSelection"@, d@)),
        BackendError::KeyNotRecognized => Some("KeyNotRecognized"@),
        BackendError::AccountNotFound(d) => Some(labelled("AccountNotFound"@, d@)),
        BackendError::BalanceError(d) => Some(labelled("BalanceError"@, d@)),
        BackendError::Builder(d) => Some(labelled("Builder"@, d@)),
        BackendError::MemoForbidden => Some("MemoForbidden"@),
        BackendError::NoteMismatch => Some("NoteMismatch"@),
        BackendError::ChildIndexOutOfRange => Some("ChildIndexOutOfRange"@),
        _ => None,
    }
}

/// Flattens a backend error into the library's error: insufficient funds, a
/// required scan and an unknown address keep their meaning; everything else
/// becomes `Internal` with the variant's name and its description.
pub fn from_backend(e: BackendError) -> (r: Error)
    ensures
        internal_message(e) is Some ==> r is Internal && r->Internal_0@ == internal_message(
            e,
        )->Some_0,
        e is InsufficientFunds ==> (r == Error::InsufficientFunds {
            required: e->InsufficientFunds_required,
            available: e->InsufficientFunds_available,
        }),
        e == BackendError::ScanRequired ==> r == Error::SyncFirst,
        e == BackendError::AddressNotRecognized ==> r == Error::InvalidAddress,
{
    match e {
        BackendError::DataSource(d) => Error::Internal(with_label("DataSource", &d)),
        BackendError::CommitmentTree(d) => Error::Internal(with_label("CommitmentTree", &d)),
        BackendError::NoteSelection(d) => Error::Internal(with_label("NoteSelection", &d)),
        BackendError::KeyNotRecognized => Error::Internal("KeyNotRecognized".to_owned()),
        BackendError::AccountNotFound(d) => Error::Internal(with_label("AccountNotFound", &d)),
        BackendError::BalanceError(d) => Error::Internal(with_label("BalanceError", &d)),
        BackendError::InsufficientFunds { available, required } => Error::InsufficientFunds {
            required,
            available,
        },
        BackendError::ScanRequired => Error::SyncFirst,
        BackendError::Builder(d) => Error::Internal(with_label("Builder", &d)),
        BackendError::MemoForbidden => Error::Internal("MemoForbidden".to_owned()),
        BackendError::NoteMismatch => Error::Internal("NoteMismatch".to_owned()),
        BackendError::AddressNotRecognized => Error::InvalidAddress,
        BackendError::ChildIndexOutOfRange => Error::Internal("ChildIndexOutOfRange".to_owned()),
    }
}

} // verus!
