//! Token economy and document-hash store for a document chat service.
//!
//! Every handler is a pure state transition over the records it is handed:
//! it validates its preconditions, and either commits every change or leaves
//! all records untouched and reports why.
pub mod accounts;
pub mod balance;
pub mod error;
pub mod hash_store;
pub mod identity;
pub mod token;

pub use accounts::{
    ChatQuery, DocumentRecord, GenerateQuiz, InitializeUser, PurchaseTokens, QueryRecord,
    QuizRecord, ShareDocument, StakeRecord, StakeTokens, UnstakeTokens, UploadDocument,
    UserAccount,
};
pub use balance::BalanceOp;
pub use error::SocraticError;
pub use hash_store::{store_hash, HashRecord, HashStoreError, StoreHash};
pub use identity::Identity;
pub use token::{
    chat_query, generate_quiz, initialize_user, purchase_tokens, share_document, stake_tokens,
    unstake_tokens, upload_document,
};
