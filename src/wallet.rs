use vstd::prelude::*;

verus! {

/// The node's generic wallet error code.
pub const RPC_WALLET_ERROR: i64 = -4;

/// The node's error code for a wallet that is already loaded.
pub const RPC_WALLET_ALREADY_LOADED: i64 = -35;

/// The node's error code for a wallet that already exists.
pub const RPC_WALLET_ALREADY_EXISTS: i64 = -36;

/// An error payload that the node sent back for a call.
#[derive(Debug, Clone)]
pub struct RpcFailure {
    pub code: i64,
    pub message: String,
}

/// What a failed wallet call means for a client that wants the wallet loaded.
#[derive(Debug, Clone, Copy, PartialEq, Eq, Structural)]
pub enum WalletErrorKind {
    /// The wallet is loaded already: nothing is left to do.
    AlreadyLoaded,
    /// The wallet exists on the node, maybe not loaded.
    AlreadyExists,
    /// Anything else: a real failure.
    Other,
}

/// Whether `needle` occurs in `hay` starting at index `i`.
pub open spec fn occurs_at(hay: Seq<char>, needle: Seq<char>, i: int) -> bool {
    0 <= i && i + needle.len() <= hay.len() && hay.subrange(i, i + needle.len()) == needle
}

/// Whether `needle` occurs anywhere in `hay`.
pub open spec fn occurs_in(hay: Seq<char>, needle: Seq<char>) -> bool {
    exists|i: int| occurs_at(hay, needle, i)
}

pub open spec fn already_loaded_text() -> Seq<char> {
    seq!['a', 'l', 'r', 'e', 'a', 'd', 'y', ' ', 'l', 'o', 'a', 'd', 'e', 'd']
}

pub open spec fn already_exists_text() -> Seq<char> {
    seq!['a', 'l', 'r', 'e', 'a', 'd', 'y', ' ', 'e', 'x', 'i', 's', 't', 's']
}

/// How a wallet error is classified: by its dedicated code, or, for the
/// generic wallet code that older nodes send, by the words of its message.
pub open spec fn kind_of(code: i64, message: Seq<char>) -> WalletErrorKind {
    if code == RPC_WALLET_ALREADY_LOADED {
        WalletErrorKind::AlreadyLoaded
    } else if code == RPC_WALLET_ALREADY_EXISTS {
        WalletErrorKind::AlreadyExists
    } else if code == RPC_WALLET_ERROR && occurs_in(message, already_loaded_text()) {
        WalletErrorKind::AlreadyLoaded
    } else if code == RPC_WALLET_ERROR && occurs_in(message, already_exists_text()) {
        WalletErrorKind::AlreadyExists
    } else {
        WalletErrorKind::Other
    }
}

fn occurs_at_exec(hay: &str, hay_len: usize, needle: &str, needle_len: usize, i: usize) -> (r: bool)
    requires
        hay_len == hay@.len(),
        needle_len == needle@.len(),
        i + needle_len <= hay_len,
    ensures
        r == occurs_at(hay@, needle@, i as int),
{
    let mut j: usize = 0;
    while j < needle_len
        invariant
            j <= needle_len,
            hay_len == hay@.len(),
            needle_len == needle@.len(),
            i + needle_len <= hay_len,
            forall|k: int| 0 <= k < j ==> hay@[i + k] == needle@[k],
        decreases needle_len - j,
    {
        if hay.get_char(i + j) != needle.get_char(j) {
            assert(hay@.subrange(i as int, i + needle_len)[j as int] != needle@[j as int]);
            return false;
        }
        j = j + 1;
    }
    assert(hay@.subrange(i as int, i + needle_len) =~= needle@);
    true
}

/// Whether `needle` occurs anywhere in `hay`.
pub fn contains_text(hay: &str, needle: &str) -> (r: bool)
    ensures
        r == occurs_in(hay@, needle@),
{
    let hay_len = hay.unicode_len();
    let needle_len = needle.unicode_len();
    if needle_len > hay_len {
        assert forall|i: int| !occurs_at(hay@, needle@, i) by {}
        return false;
    }
    let last = hay_len - needle_len;
    let mut i: usize = 0;
    while i < last
        invariant
            i <= last,
            last == hay_len - needle_len,
            hay_len == hay@.len(),
            needle_len == needle@.len(),
            forall|k: int| 0 <= k < i ==> !occurs_at(hay@, needle@, k),
        decreases last - i,
    {
        if occurs_at_exec(hay, hay_len, needle, needle_len, i) {
            return true;
        }
        i = i + 1;
    }
    if occurs_at_exec(hay, hay_len, needle, needle_len, last) {
        return true;
    }
    assert forall|k: int| !occurs_at(hay@, needle@, k) by {}
    false
}

/// Classifies an error that the node sent back for a wallet call.
pub fn classify_wallet_error(failure: &RpcFailure) -> (r: WalletErrorKind)
    ensures
        r == kind_of(failure.code, failure.message@),
{
    if failure.code == RPC_WALLET_ALREADY_LOADED {
        return WalletErrorKind::AlreadyLoaded;
    }
    if failure.code == RPC_WALLET_ALREADY_EXISTS {
        return WalletErrorKind::AlreadyExists;
    }
    if failure.code != RPC_WALLET_ERROR {
        return WalletErrorKind::Other;
    }
    let loaded = "already loaded";
    let exists = "already exists";
    proof {
        reveal_strlit("already loaded");
        reveal_strlit("already exists");
        assert(loaded@ =~= already_loaded_text());
        assert(exists@ =~= already_exists_text());
    }
    if contains_text(failure.message.as_str(), loaded) {
        WalletErrorKind::AlreadyLoaded
    } else if contains_text(failure.message.as_str(), exists) {
        WalletErrorKind::AlreadyExists
    } else {
        WalletErrorKind::Other
    }
}

/// Where the work of making sure a wallet is loaded stands.
#[derive(Debug, Clone, Copy, PartialEq, Eq, Structural)]
pub enum EnsureWallet {
    /// Ask the node to create the wallet.
    Create,
    /// The wallet exists: ask the node to load it.
    Load,
    /// The wallet is loaded.
    Ready,
    /// The node refused in a way that leaves the wallet unusable.
    Failed,
}

/// What the node answered, seen by the ensure steps: `None` for success.
pub type WalletReply = Option<WalletErrorKind>;

/// The next step after the node answered the call of `step`.
pub open spec fn next_ensure(step: EnsureWallet, reply: WalletReply) -> EnsureWallet {
    match step {
        EnsureWallet::Create => match reply {
            None => EnsureWallet::Ready,
            Some(WalletErrorKind::AlreadyLoaded) => EnsureWallet::Ready,
            Some(WalletErrorKind::AlreadyExists) => EnsureWallet::Load,
            Some(WalletErrorKind::Other) => EnsureWallet::Failed,
        },
        EnsureWallet::Load => match reply {
            None => EnsureWallet::Ready,
            Some(WalletErrorKind::AlreadyLoaded) => EnsureWallet::Ready,
            Some(_) => EnsureWallet::Failed,
        },
        _ => step,
    }
}

/// Takes the node's answer to the call of `step` and says what comes next.
/// A wallet that is already there, loaded or not, is no failure.
pub fn ensure_wallet_step(step: EnsureWallet, reply: &Result<(), RpcFailure>) -> (r: EnsureWallet)
    ensures
        r == next_ensure(
            step,
            match reply {
                Ok(()) => None,
                Err(f) => Some(kind_of(f.code, f.message@)),
            },
        ),
{
    let kind: WalletReply = match reply {
        Ok(()) => None,
        Err(f) => Some(classify_wallet_error(f)),
    };
    match step {
        EnsureWallet::Create => match kind {
            None => EnsureWallet::Ready,
            Some(WalletErrorKind::AlreadyLoaded) => EnsureWallet::Ready,
            Some(WalletErrorKind::AlreadyExists) => EnsureWallet::Load,
            Some(WalletErrorKind::Other) => EnsureWallet::Failed,
        },
        EnsureWallet::Load => match kind {
            None => EnsureWallet::Ready,
            Some(WalletErrorKind::AlreadyLoaded) => EnsureWallet::Ready,
            Some(_) => EnsureWallet::Failed,
        },
        _ => step,
    }
}

/// Where a wallet of a given name stands on the node.
#[derive(Debug, Clone, Copy, PartialEq, Eq, Structural)]
pub enum WalletPresence {
    Absent,
    Unloaded,
    Loaded,
}

/// The answers a node gives to a request to create a wallet: it creates
/// and loads an absent one, and reports one that is there already.
pub open spec fn create_answer(p: WalletPresence, reply: WalletReply) -> bool {
    match p {
        WalletPresence::Absent => reply is None,
        WalletPresence::Unloaded => reply == Some(WalletErrorKind::AlreadyExists),
        WalletPresence::Loaded => reply == Some(WalletErrorKind::AlreadyExists) || reply == Some(
            WalletErrorKind::AlreadyLoaded,
        ),
    }
}

/// The answers a node gives to a request to load a wallet.
pub open spec fn load_answer(p: WalletPresence, reply: WalletReply) -> bool {
    match p {
        WalletPresence::Absent => reply == Some(WalletErrorKind::Other),
        WalletPresence::Unloaded => reply is None,
        WalletPresence::Loaded => reply == Some(WalletErrorKind::AlreadyLoaded),
    }
}

/// Where the ensure steps end, given the answers to the create call and,
/// if it comes to that, to the load call.
pub open spec fn ensure_outcome(create_reply: WalletReply, load_reply: WalletReply) -> EnsureWallet {
    let after_create = next_ensure(EnsureWallet::Create, create_reply);
    if after_create == EnsureWallet::Load {
        next_ensure(EnsureWallet::Load, load_reply)
    } else {
        after_create
    }
}

/// Making sure of a wallet is idempotent: whatever the wallet's standing on
/// the node, a first run ends with it loaded, and a second run right after
/// it, which finds it loaded, never fails.
pub proof fn lemma_ensure_wallet_idempotent(
    p: WalletPresence,
    first_create: WalletReply,
    first_load: WalletReply,
    second_create: WalletReply,
    second_load: WalletReply,
)
    requires
        create_answer(p, first_create),
        load_answer(p, first_load),
        create_answer(WalletPresence::Loaded, second_create),
        load_answer(WalletPresence::Loaded, second_load),
    ensures
        ensure_outcome(first_create, first_load) == EnsureWallet::Ready,
        ensure_outcome(second_create, second_load) == EnsureWallet::Ready,
{
}

} // verus!
