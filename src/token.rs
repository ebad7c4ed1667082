use vstd::prelude::*;

use crate::accounts::{
    ChatQuery, DocumentRecord, GenerateQuiz, InitializeUser, PurchaseTokens, QueryRecord,
    QuizRecord, ShareDocument, StakeRecord, StakeTokens, UnstakeTokens, UploadDocument,
    UserAccount,
};
use crate::balance::{admits, apply, try_apply, BalanceOp};
use crate::error::{outcome, SocraticError};

verus! {

/// Tokens charged for one chat query.
pub const CHAT_QUERY_COST: u64 = 1;

/// Tokens charged for generating one quiz.
pub const QUIZ_GENERATION_COST: u64 = 5;

/// Tokens charged for changing a document's access level.
pub const SHARE_DOCUMENT_COST: u64 = 2;

/// The smallest amount that may be staked.
pub const MINIMUM_STAKE_AMOUNT: u64 = 100;

/// Tokens credited for each smallest unit of native currency paid.
pub const TOKEN_EXCHANGE_RATE: u64 = 1000;

/// The highest access level a document can have: 0 is private, 1 shared, 2 public.
pub const MAX_ACCESS_LEVEL: u8 = 2;

/// Seconds a stake stays locked: seven days.
pub const STAKE_COOLDOWN_PERIOD: i64 = 7 * 24 * 60 * 60;

/// `account` with `op` committed on its balance.
pub open spec fn with_balance(account: UserAccount, op: BalanceOp) -> UserAccount {
    UserAccount { token_balance: apply(account.token_balance as int, op) as u64, ..account }
}

// ---------------------------------------------------------------------------
// upload_document

/// Why `upload_document` rejects a call, if it does.
pub open spec fn upload_document_error(
    ctx: UploadDocument,
    access_level: u8,
    token_cost: u64,
) -> Option<SocraticError> {
    if !admits(ctx.user_account.token_balance as int, BalanceOp::Debit(token_cost)) {
        Some(SocraticError::InsufficientTokens)
    } else if access_level > MAX_ACCESS_LEVEL {
        Some(SocraticError::InvalidAccessLevel)
    } else if ctx.user_account.documents_uploaded == u64::MAX {
        Some(SocraticError::Overflow)
    } else {
        None
    }
}

/// The records after a successful upload.
pub open spec fn upload_document_post(
    ctx: UploadDocument,
    now: i64,
    pdf_hash: String,
    access_level: u8,
    token_cost: u64,
) -> UploadDocument {
    let account = with_balance(ctx.user_account, BalanceOp::Debit(token_cost));
    UploadDocument {
        user_account: UserAccount {
            documents_uploaded: (account.documents_uploaded + 1) as u64,
            ..account
        },
        document_record: DocumentRecord {
            owner: ctx.user,
            pdf_hash,
            upload_timestamp: now,
            token_cost,
            access_level,
            download_count: 0,
            is_active: true,
        },
        user: ctx.user,
    }
}

/// Records a new document owned by the caller, charging `token_cost` tokens.
/// The cost is chosen by the caller; the only bound on it is the balance.
pub fn upload_document(
    ctx: &mut UploadDocument,
    now: i64,
    pdf_hash: String,
    access_level: u8,
    token_cost: u64,
) -> (r: Result<(), SocraticError>)
    ensures
        r == outcome(upload_document_error(*old(ctx), access_level, token_cost)),
        r is Ok ==> *final(ctx) == upload_document_post(
            *old(ctx),
            now,
            pdf_hash,
            access_level,
            token_cost,
        ),
        r is Err ==> *final(ctx) == *old(ctx),
        old(ctx).user_account.token_balance < token_cost ==> r == Err::<(), SocraticError>(
            SocraticError::InsufficientTokens,
        ),
        r is Ok ==> final(ctx).document_record.access_level <= MAX_ACCESS_LEVEL,
{
    let balance = match try_apply(ctx.user_account.token_balance, BalanceOp::Debit(token_cost)) {
        Some(b) => b,
        None => return Err(SocraticError::InsufficientTokens),
    };
    if access_level > MAX_ACCESS_LEVEL {
        return Err(SocraticError::InvalidAccessLevel);
    }
    let uploaded = match ctx.user_account.documents_uploaded.checked_add(1) {
        Some(n) => n,
        None => return Err(SocraticError::Overflow),
    };
    ctx.user_account.token_balance = balance;
    ctx.user_account.documents_uploaded = uploaded;
    let user = ctx.user;
    ctx.document_record = DocumentRecord {
        owner: user,
        pdf_hash,
        upload_timestamp: now,
        token_cost,
        access_level,
        download_count: 0,
        is_active: true,
    };
    Ok(())
}

// ---------------------------------------------------------------------------
// stake_tokens

/// Why `stake_tokens` rejects a call, if it does.
pub open spec fn stake_tokens_error(ctx: StakeTokens, amount: u64) -> Option<SocraticError> {
    if !admits(ctx.user_account.token_balance as int, BalanceOp::Debit(amount)) {
        Some(SocraticError::InsufficientTokens)
    } else if amount < MINIMUM_STAKE_AMOUNT {
        Some(SocraticError::InsufficientStakeAmount)
    } else {
        None
    }
}

/// The records after a successful stake.
pub open spec fn stake_tokens_post(ctx: StakeTokens, now: i64, amount: u64) -> StakeTokens {
    StakeTokens {
        user_account: with_balance(ctx.user_account, BalanceOp::Debit(amount)),
        stake_record: StakeRecord { user: ctx.user, amount, staked_at: now, is_active: true },
        user: ctx.user,
    }
}

/// Locks `amount` tokens of the caller in a new, active stake.
pub fn stake_tokens(ctx: &mut StakeTokens, now: i64, amount: u64) -> (r: Result<(), SocraticError>)
    ensures
        r == outcome(stake_tokens_error(*old(ctx), amount)),
        r is Ok ==> *final(ctx) == stake_tokens_post(*old(ctx), now, amount),
        r is Err ==> *final(ctx) == *old(ctx),
        old(ctx).user_account.token_balance < amount ==> r == Err::<(), SocraticError>(
            SocraticError::InsufficientTokens,
        ),
{
    let balance = match try_apply(ctx.user_account.token_balance, BalanceOp::Debit(amount)) {
        Some(b) => b,
        None => return Err(SocraticError::InsufficientTokens),
    };
    if amount < MINIMUM_STAKE_AMOUNT {
        return Err(SocraticError::InsufficientStakeAmount);
    }
    let user = ctx.user;
    ctx.stake_record = StakeRecord { user, amount, staked_at: now, is_active: true };
    ctx.user_account.token_balance = balance;
    Ok(())
}

// ---------------------------------------------------------------------------
// chat_query

/// Why `chat_query` rejects a call, if it does.
pub open spec fn chat_query_error(ctx: ChatQuery) -> Option<SocraticError> {
    if !admits(ctx.user_account.token_balance as int, BalanceOp::Debit(CHAT_QUERY_COST)) {
        Some(SocraticError::InsufficientTokens)
    } else if ctx.user_account.queries_made == u64::MAX {
        Some(SocraticError::Overflow)
    } else {
        None
    }
}

/// The records after a successful query.
pub open spec fn chat_query_post(ctx: ChatQuery, now: i64, query_text: String) -> ChatQuery {
    let account = with_balance(ctx.user_account, BalanceOp::Debit(CHAT_QUERY_COST));
    ChatQuery {
        user_account: UserAccount { queries_made: (account.queries_made + 1) as u64, ..account },
        query_record: QueryRecord {
            user: ctx.user,
            query_text,
            timestamp: now,
            tokens_spent: CHAT_QUERY_COST,
        },
        user: ctx.user,
    }
}

/// Records a chat query, charging `CHAT_QUERY_COST` tokens.
pub fn chat_query(ctx: &mut ChatQuery, now: i64, query_text: String) -> (r: Result<
    (),
    SocraticError,
>)
    ensures
        r == outcome(chat_query_error(*old(ctx))),
        r is Ok ==> *final(ctx) == chat_query_post(*old(ctx), now, query_text),
        r is Err ==> *final(ctx) == *old(ctx),
        old(ctx).user_account.token_balance < CHAT_QUERY_COST ==> r == Err::<(), SocraticError>(
            SocraticError::InsufficientTokens,
        ),
{
    let balance = match try_apply(
        ctx.user_account.token_balance,
        BalanceOp::Debit(CHAT_QUERY_COST),
    ) {
        Some(b) => b,
        None => return Err(SocraticError::InsufficientTokens),
    };
    let queries = match ctx.user_account.queries_made.checked_add(1) {
        Some(n) => n,
        None => return Err(SocraticError::Overflow),
    };
    ctx.user_account.token_balance = balance;
    ctx.user_account.queries_made = queries;
    let user = ctx.user;
    ctx.query_record = QueryRecord {
        user,
        query_text,
        timestamp: now,
        tokens_spent: CHAT_QUERY_COST,
    };
    Ok(())
}

// ---------------------------------------------------------------------------
// share_document

/// Why `share_document` rejects a call, if it does.
pub open spec fn share_document_error(ctx: ShareDocument, new_access_level: u8) -> Option<
    SocraticError,
> {
    if ctx.document_record.owner@ != ctx.user@ {
        Some(SocraticError::NotDocumentOwner)
    } else if !admits(ctx.user_account.token_balance as int, BalanceOp::Debit(SHARE_DOCUMENT_COST)) {
        Some(SocraticError::InsufficientTokens)
    } else if new_access_level > MAX_ACCESS_LEVEL {
        Some(SocraticError::InvalidAccessLevel)
    } else {
        None
    }
}

/// The records after a successful change of access level.
pub open spec fn share_document_post(ctx: ShareDocument, new_access_level: u8) -> ShareDocument {
    ShareDocument {
        user_account: with_balance(ctx.user_account, BalanceOp::Debit(SHARE_DOCUMENT_COST)),
        document_record: DocumentRecord { access_level: new_access_level, ..ctx.document_record },
        user: ctx.user,
    }
}

/// Sets the access level of a document that the caller owns, charging
/// `SHARE_DOCUMENT_COST` tokens.
pub fn share_document(ctx: &mut ShareDocument, new_access_level: u8) -> (r: Result<
    (),
    SocraticError,
>)
    ensures
        r == outcome(share_document_error(*old(ctx), new_access_level)),
        r is Ok ==> *final(ctx) == share_document_post(*old(ctx), new_access_level),
        r is Err ==> *final(ctx) == *old(ctx),
        old(ctx).document_record.owner@ != old(ctx).user@ ==> r == Err::<(), SocraticError>(
            SocraticError::NotDocumentOwner,
        ),
        old(ctx).document_record.owner@ == old(ctx).user@ && old(ctx).user_account.token_balance
            < SHARE_DOCUMENT_COST ==> r == Err::<(), SocraticError>(
            SocraticError::InsufficientTokens,
        ),
        r is Ok ==> final(ctx).document_record.access_level <= MAX_ACCESS_LEVEL,
{
    if !ctx.document_record.owner.same_as(&ctx.user) {
        return Err(SocraticError::NotDocumentOwner);
    }
    let balance = match try_apply(
        ctx.user_account.token_balance,
        BalanceOp::Debit(SHARE_DOCUMENT_COST),
    ) {
        Some(b) => b,
        None => return Err(SocraticError::InsufficientTokens),
    };
    if new_access_level > MAX_ACCESS_LEVEL {
        return Err(SocraticError::InvalidAccessLevel);
    }
    ctx.user_account.token_balance = balance;
    ctx.document_record.access_level = new_access_level;
    Ok(())
}

// ---------------------------------------------------------------------------
// generate_quiz

/// Why `generate_quiz` rejects a call, if it does.
pub open spec fn generate_quiz_error(ctx: GenerateQuiz) -> Option<SocraticError> {
    if !admits(ctx.user_account.token_balance as int, BalanceOp::Debit(QUIZ_GENERATION_COST)) {
        Some(SocraticError::InsufficientTokens)
    } else {
        None
    }
}

/// The records after a successful quiz generation.
pub open spec fn generate_quiz_post(ctx: GenerateQuiz, now: i64, document_hash: String) -> GenerateQuiz {
    GenerateQuiz {
        user_account: with_balance(ctx.user_account, BalanceOp::Debit(QUIZ_GENERATION_COST)),
        quiz_record: QuizRecord {
            creator: ctx.user,
            document_hash,
            created_at: now,
            tokens_spent: QUIZ_GENERATION_COST,
            is_public: false,
        },
        user: ctx.user,
    }
}

/// Records a private quiz for a document, charging `QUIZ_GENERATION_COST` tokens.
pub fn generate_quiz(ctx: &mut GenerateQuiz, now: i64, document_hash: String) -> (r: Result<
    (),
    SocraticError,
>)
    ensures
        r == outcome(generate_quiz_error(*old(ctx))),
        r is Ok ==> *final(ctx) == generate_quiz_post(*old(ctx), now, document_hash),
        r is Err ==> *final(ctx) == *old(ctx),
        old(ctx).user_account.token_balance < QUIZ_GENERATION_COST ==> r == Err::<
            (),
            SocraticError,
        >(SocraticError::InsufficientTokens),
{
    let balance = match try_apply(
        ctx.user_account.token_balance,
        BalanceOp::Debit(QUIZ_GENERATION_COST),
    ) {
        Some(b) => b,
        None => return Err(SocraticError::InsufficientTokens),
    };
    ctx.user_account.token_balance = balance;
    let user = ctx.user;
    ctx.quiz_record = QuizRecord {
        creator: user,
        document_hash,
        created_at: now,
        tokens_spent: QUIZ_GENERATION_COST,
        is_public: false,
    };
    Ok(())
}

// ---------------------------------------------------------------------------
// purchase_tokens

/// The tokens bought with `payment`, when they fit in `u64`.
pub open spec fn tokens_for(payment: u64) -> int {
    payment * TOKEN_EXCHANGE_RATE
}

/// Why `purchase_tokens` rejects a call, if it does.
pub open spec fn purchase_tokens_error(ctx: PurchaseTokens, payment: u64) -> Option<SocraticError> {
    if tokens_for(payment) > u64::MAX || !admits(
        ctx.user_account.token_balance as int,
        BalanceOp::Credit(tokens_for(payment) as u64),
    ) {
        Some(SocraticError::Overflow)
    } else {
        None
    }
}

/// The records after a successful purchase.
pub open spec fn purchase_tokens_post(ctx: PurchaseTokens, payment: u64) -> PurchaseTokens {
    PurchaseTokens {
        user_account: with_balance(ctx.user_account, BalanceOp::Credit(tokens_for(payment) as u64)),
        ..ctx
    }
}

/// Credits `payment * TOKEN_EXCHANGE_RATE` tokens for a payment of `payment`
/// smallest native units, which the host moves to the treasury in the same
/// transaction.
pub fn purchase_tokens(ctx: &mut PurchaseTokens, payment: u64) -> (r: Result<(), SocraticError>)
    ensures
        r == outcome(purchase_tokens_error(*old(ctx), payment)),
        r is Ok ==> *final(ctx) == purchase_tokens_post(*old(ctx), payment),
        r is Err ==> *final(ctx) == *old(ctx),
{
    let tokens = match payment.checked_mul(TOKEN_EXCHANGE_RATE) {
        Some(t) => t,
        None => return Err(SocraticError::Overflow),
    };
    let balance = match try_apply(ctx.user_account.token_balance, BalanceOp::Credit(tokens)) {
        Some(b) => b,
        None => return Err(SocraticError::Overflow),
    };
    ctx.user_account.token_balance = balance;
    Ok(())
}

// ---------------------------------------------------------------------------
// unstake_tokens

/// Whether the cooldown of `stake` has elapsed at `now`.
pub open spec fn cooldown_elapsed(stake: StakeRecord, now: i64) -> bool {
    now >= stake.staked_at + STAKE_COOLDOWN_PERIOD
}

/// Why `unstake_tokens` rejects a call, if it does.
pub open spec fn unstake_tokens_error(ctx: UnstakeTokens, now: i64) -> Option<SocraticError> {
    if !ctx.stake_record.is_active {
        Some(SocraticError::StakeNotActive)
    } else if !cooldown_elapsed(ctx.stake_record, now) {
        Some(SocraticError::StakeCooldownActive)
    } else if ctx.stake_record.user@ != ctx.user@ {
        Some(SocraticError::NotStakeOwner)
    } else if !admits(
        ctx.user_account.token_balance as int,
        BalanceOp::Credit(ctx.stake_record.amount),
    ) {
        Some(SocraticError::Overflow)
    } else {
        None
    }
}

/// The records after a successful withdrawal of a stake.
pub open spec fn unstake_tokens_post(ctx: UnstakeTokens) -> UnstakeTokens {
    UnstakeTokens {
        user_account: with_balance(ctx.user_account, BalanceOp::Credit(ctx.stake_record.amount)),
        stake_record: StakeRecord { is_active: false, ..ctx.stake_record },
        user: ctx.user,
    }
}

/// Hands an active stake of the caller back to its ledger once its cooldown
/// has elapsed, and closes the stake.
pub fn unstake_tokens(ctx: &mut UnstakeTokens, now: i64) -> (r: Result<(), SocraticError>)
    ensures
        r == outcome(unstake_tokens_error(*old(ctx), now)),
        r is Ok ==> *final(ctx) == unstake_tokens_post(*old(ctx)),
        r is Err ==> *final(ctx) == *old(ctx),
        !cooldown_elapsed(old(ctx).stake_record, now) ==> r is Err,
        old(ctx).stake_record.is_active && !cooldown_elapsed(old(ctx).stake_record, now) ==> r
            == Err::<(), SocraticError>(
            SocraticError::StakeCooldownActive,
        ),
{
    if !ctx.stake_record.is_active {
        return Err(SocraticError::StakeNotActive);
    }
    if (now as i128) < (ctx.stake_record.staked_at as i128) + (STAKE_COOLDOWN_PERIOD as i128) {
        return Err(SocraticError::StakeCooldownActive);
    }
    if !ctx.stake_record.user.same_as(&ctx.user) {
        return Err(SocraticError::NotStakeOwner);
    }
    let balance = match try_apply(
        ctx.user_account.token_balance,
        BalanceOp::Credit(ctx.stake_record.amount),
    ) {
        Some(b) => b,
        None => return Err(SocraticError::Overflow),
    };
    ctx.user_account.token_balance = balance;
    ctx.stake_record.is_active = false;
    Ok(())
}

/// A stake is paid back at most once: after a successful withdrawal, which
/// credited exactly the staked amount and closed the stake, every later
/// withdrawal of the same stake is rejected as inactive, at any time.
pub proof fn unstake_pays_once(ctx: UnstakeTokens, now: i64, later: i64)
    requires
        unstake_tokens_error(ctx, now) is None,
    ensures
        unstake_tokens_post(ctx).user_account.token_balance == ctx.user_account.token_balance
            + ctx.stake_record.amount,
        !unstake_tokens_post(ctx).stake_record.is_active,
        unstake_tokens_error(unstake_tokens_post(ctx), later) == Some(
            SocraticError::StakeNotActive,
        ),
{
}

// ---------------------------------------------------------------------------
// initialize_user

/// Why `initialize_user` rejects a call, if it does.
pub open spec fn initialize_user_error(ctx: InitializeUser) -> Option<SocraticError> {
    if ctx.user_account is Some {
        Some(SocraticError::AlreadyInitialized)
    } else {
        None
    }
}

/// The fresh ledger of `owner`, created at `now`.
pub open spec fn fresh_account(owner: crate::identity::Identity, now: i64) -> UserAccount {
    UserAccount {
        owner,
        token_balance: 0,
        documents_uploaded: 0,
        queries_made: 0,
        reputation_score: 0,
        created_at: now,
    }
}

/// Creates the caller's ledger with a zero balance and zero counters.
pub fn initialize_user(ctx: &mut InitializeUser, now: i64) -> (r: Result<(), SocraticError>)
    ensures
        r == outcome(initialize_user_error(*old(ctx))),
        r is Ok ==> *final(ctx) == (InitializeUser {
            user_account: Some(fresh_account(old(ctx).user, now)),
            user: old(ctx).user,
        }),
        r is Err ==> *final(ctx) == *old(ctx),
{
    if ctx.user_account.is_some() {
        return Err(SocraticError::AlreadyInitialized);
    }
    let owner = ctx.user;
    ctx.user_account = Some(
        UserAccount {
            owner,
            token_balance: 0,
            documents_uploaded: 0,
            queries_made: 0,
            reputation_score: 0,
            created_at: now,
        },
    );
    Ok(())
}

} // verus!
