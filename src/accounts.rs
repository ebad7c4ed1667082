use vstd::prelude::*;

use crate::identity::Identity;

verus! {

/// A wallet's ledger: its token balance and usage counters.
#[derive(Clone, Debug)]
pub struct UserAccount {
    pub owner: Identity,
    pub token_balance: u64,
    pub documents_uploaded: u64,
    pub queries_made: u64,
    pub reputation_score: u64,
    pub created_at: i64,
}

/// An uploaded document. `access_level` is 0 (private), 1 (shared) or 2 (public);
/// the handlers store no other value.
#[derive(Clone, Debug)]
pub struct DocumentRecord {
    pub owner: Identity,
    pub pdf_hash: String,
    pub upload_timestamp: i64,
    pub token_cost: u64,
    pub access_level: u8,
    pub download_count: u64,
    pub is_active: bool,
}

/// A chat query and what it cost.
#[derive(Clone, Debug)]
pub struct QueryRecord {
    pub user: Identity,
    pub query_text: String,
    pub timestamp: i64,
    pub tokens_spent: u64,
}

/// A quiz generated from a document.
#[derive(Clone, Debug)]
pub struct QuizRecord {
    pub creator: Identity,
    pub document_hash: String,
    pub created_at: i64,
    pub tokens_spent: u64,
    pub is_public: bool,
}

/// Tokens locked by a wallet; `is_active` turns false once they are handed back.
#[derive(Clone, Copy, Debug)]
pub struct StakeRecord {
    pub user: Identity,
    pub amount: u64,
    pub staked_at: i64,
    pub is_active: bool,
}

/// The records `initialize_user` sees: the wallet's ledger, `None` while absent.
#[derive(Clone, Debug)]
pub struct InitializeUser {
    pub user_account: Option<UserAccount>,
    pub user: Identity,
}

/// The records `upload_document` sees; `document_record` is the freshly created slot.
#[derive(Clone, Debug)]
pub struct UploadDocument {
    pub user_account: UserAccount,
    pub document_record: DocumentRecord,
    pub user: Identity,
}

/// The records `chat_query` sees; `query_record` is the freshly created slot.
#[derive(Clone, Debug)]
pub struct ChatQuery {
    pub user_account: UserAccount,
    pub query_record: QueryRecord,
    pub user: Identity,
}

/// The records `purchase_tokens` sees; the payment goes to `treasury`.
#[derive(Clone, Debug)]
pub struct PurchaseTokens {
    pub user_account: UserAccount,
    pub user: Identity,
    pub treasury: Identity,
}

/// The records `share_document` sees: the caller's ledger and an existing document.
#[derive(Clone, Debug)]
pub struct ShareDocument {
    pub user_account: UserAccount,
    pub document_record: DocumentRecord,
    pub user: Identity,
}

/// The records `generate_quiz` sees; `quiz_record` is the freshly created slot.
#[derive(Clone, Debug)]
pub struct GenerateQuiz {
    pub user_account: UserAccount,
    pub quiz_record: QuizRecord,
    pub user: Identity,
}

/// The records `stake_tokens` sees; `stake_record` is the freshly created slot.
#[derive(Clone, Debug)]
pub struct StakeTokens {
    pub user_account: UserAccount,
    pub stake_record: StakeRecord,
    pub user: Identity,
}

/// The records `unstake_tokens` sees: the caller's ledger and an existing stake.
#[derive(Clone, Debug)]
pub struct UnstakeTokens {
    pub user_account: UserAccount,
    pub stake_record: StakeRecord,
    pub user: Identity,
}

} // verus!
