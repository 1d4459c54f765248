use vstd::prelude::*;

use crate::token::Token;

verus! {

/// One write that the local store carries out, in order.
#[derive(Debug)]
pub enum StoreOp {
    /// Create the credentials and token tables where they are missing.
    CreateTables,
    /// Remove every cached session credential.
    DeleteTokens,
    /// Add a cached session credential.
    InsertToken(Token),
    /// Add the password record of a user.
    InsertCredential { username: String, password_hash: String },
}

/// The store's contents: password records (user, hash) and cached credentials,
/// each in the order of insertion.
pub struct StoreModel {
    pub credentials: Seq<(Seq<char>, Seq<char>)>,
    pub tokens: Seq<Token>,
}

pub open spec fn apply_op(db: StoreModel, op: StoreOp) -> StoreModel {
    match op {
        StoreOp::CreateTables => db,
        StoreOp::DeleteTokens => StoreModel { tokens: Seq::empty(), ..db },
        StoreOp::InsertToken(t) => StoreModel { tokens: db.tokens.push(t), ..db },
        StoreOp::InsertCredential { username, password_hash } => StoreModel {
            credentials: db.credentials.push((username@, password_hash@)),
            ..db
        },
    }
}

pub open spec fn apply_ops(db: StoreModel, ops: Seq<StoreOp>) -> StoreModel
    decreases ops.len(),
{
    if ops.len() == 0 {
        db
    } else {
        apply_ops(apply_op(db, ops[0]), ops.drop_first())
    }
}

/// The stored hash of `username`: that of its first record, if any.
pub open spec fn hash_in(rows: Seq<(Seq<char>, Seq<char>)>, username: Seq<char>) -> Option<Seq<char>>
    decreases rows.len(),
{
    if rows.len() == 0 {
        None
    } else if rows[0].0 == username {
        Some(rows[0].1)
    } else {
        hash_in(rows.drop_first(), username)
    }
}

/// The cached credential that a read returns: the first row, if any.
pub open spec fn cached_in(db: StoreModel) -> Option<Token> {
    if db.tokens.len() == 0 {
        None
    } else {
        Some(db.tokens[0])
    }
}

/// The writes that cache a new credential, superseding any other.
pub open spec fn token_plan(t: Token) -> Seq<StoreOp> {
    seq![StoreOp::CreateTables, StoreOp::DeleteTokens, StoreOp::InsertToken(t)]
}

/// The writes that record a user's password hash.
pub open spec fn credential_plan(username: String, password_hash: String) -> Seq<StoreOp> {
    seq![StoreOp::CreateTables, StoreOp::InsertCredential { username, password_hash }]
}

/// The writes to carry out for caching `t`.
pub fn store_token_ops(t: Token) -> (r: Vec<StoreOp>)
    ensures
        r@ == token_plan(t),
{
    let mut ops: Vec<StoreOp> = Vec::new();
    ops.push(StoreOp::CreateTables);
    ops.push(StoreOp::DeleteTokens);
    ops.push(StoreOp::InsertToken(t));
    proof {
        assert(ops@ =~= token_plan(t));
    }
    ops
}

/// The writes to carry out for recording a user's password hash.
pub fn store_credential_ops(username: String, password_hash: String) -> (r: Vec<StoreOp>)
    ensures
        r@ == credential_plan(username, password_hash),
{
    let mut ops: Vec<StoreOp> = Vec::new();
    ops.push(StoreOp::CreateTables);
    ops.push(StoreOp::InsertCredential { username, password_hash });
    proof {
        assert(ops@ =~= credential_plan(username, password_hash));
    }
    ops
}

proof fn lemma_apply_token_plan(db: StoreModel, t: Token)
    ensures
        apply_ops(db, token_plan(t)) == (StoreModel { tokens: seq![t], ..db }),
{
    let ops = token_plan(t);
    let d1 = apply_op(db, ops[0]);
    let d2 = apply_op(d1, ops[1]);
    let d3 = apply_op(d2, ops[2]);
    assert(ops.drop_first().drop_first().drop_first() =~= Seq::<StoreOp>::empty());
    assert(apply_ops(d3, Seq::<StoreOp>::empty()) == d3);
    assert(apply_ops(d2, ops.drop_first().drop_first()) == d3);
    assert(apply_ops(d1, ops.drop_first()) == d3);
    assert(d3.tokens =~= seq![t]);
}

proof fn lemma_hash_in_push(rows: Seq<(Seq<char>, Seq<char>)>, username: Seq<char>, h: Seq<char>)
    requires
        hash_in(rows, username) is None,
    ensures
        hash_in(rows.push((username, h)), username) == Some(h),
    decreases rows.len(),
{
    let pushed = rows.push((username, h));
    if rows.len() > 0 {
        assert(pushed.drop_first() =~= rows.drop_first().push((username, h)));
        lemma_hash_in_push(rows.drop_first(), username, h);
    } else {
        assert(pushed[0] == (username, h));
    }
}

/// Caching a credential leaves exactly that one cached, whatever was there
/// before, and no password record changes; caching `a` and then `b` leaves
/// just `b`.
pub proof fn lemma_token_replaces(db: StoreModel, a: Token, b: Token)
    ensures
        apply_ops(db, token_plan(a)).tokens == seq![a],
        apply_ops(db, token_plan(a)).credentials == db.credentials,
        apply_ops(apply_ops(db, token_plan(a)), token_plan(b)).tokens == seq![b],
        cached_in(apply_ops(apply_ops(db, token_plan(a)), token_plan(b))) == Some(b),
{
    lemma_apply_token_plan(db, a);
    lemma_apply_token_plan(apply_ops(db, token_plan(a)), b);
}

/// Once first-use setup has recorded a hash for a user who had none, reading
/// that user's hash finds it, with no further setup.
pub proof fn lemma_setup_then_found(db: StoreModel, username: String, password_hash: String)
    requires
        hash_in(db.credentials, username@) is None,
    ensures
        hash_in(apply_ops(db, credential_plan(username, password_hash)).credentials, username@)
            == Some(password_hash@),
{
    let ops = credential_plan(username, password_hash);
    let d1 = apply_op(db, ops[0]);
    let d2 = apply_op(d1, ops[1]);
    assert(ops.drop_first().drop_first() =~= Seq::<StoreOp>::empty());
    assert(apply_ops(d2, Seq::<StoreOp>::empty()) == d2);
    assert(apply_ops(d1, ops.drop_first()) == d2);
    lemma_hash_in_push(db.credentials, username@, password_hash@);
}

} // verus!
