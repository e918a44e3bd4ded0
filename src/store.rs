//! The refresh-token table: which refresh and validation tokens are still
//! honoured, keyed by token, username and source.
//!
//! Every operation takes the table by `&mut`, so a rotation (delete the
//! session's records, insert the new one) happens as one step: no other request
//! can observe the table between the two.

use vstd::prelude::*;

verus! {

/// One row of the table, as values.
pub ghost struct TokenRecord {
    pub token: Seq<char>,
    pub username: Seq<char>,
    pub source: Seq<char>,
}

/// One row of the table.
#[derive(Clone, Debug)]
pub struct RefreshTokenModel {
    pub refresh_token: String,
    pub username: String,
    pub source: String,
}

impl View for RefreshTokenModel {
    type V = TokenRecord;

    open spec fn view(&self) -> TokenRecord {
        TokenRecord {
            token: self.refresh_token@,
            username: self.username@,
            source: self.source@,
        }
    }
}

impl RefreshTokenModel {
    fn copy(&self) -> (r: RefreshTokenModel)
        ensures
            r@ == self@,
    {
        RefreshTokenModel {
            refresh_token: self.refresh_token.clone(),
            username: self.username.clone(),
            source: self.source.clone(),
        }
    }
}

/// Whether a record belongs to the session of `username` on `source`.
pub open spec fn in_session(r: TokenRecord, username: Seq<char>, source: Seq<char>) -> bool {
    r.username == username && r.source == source
}

/// The records without those of the session of `username` on `source`, in
/// their order.
pub open spec fn drop_session(s: Seq<TokenRecord>, username: Seq<char>, source: Seq<char>) -> Seq<
    TokenRecord,
>
    decreases s.len(),
{
    if s.len() == 0 {
        s
    } else {
        let rest = drop_session(s.drop_last(), username, source);
        if in_session(s.last(), username, source) {
            rest
        } else {
            rest.push(s.last())
        }
    }
}

/// The records without those holding `token`, in their order.
pub open spec fn drop_token(s: Seq<TokenRecord>, token: Seq<char>) -> Seq<TokenRecord>
    decreases s.len(),
{
    if s.len() == 0 {
        s
    } else {
        let rest = drop_token(s.drop_last(), token);
        if s.last().token == token {
            rest
        } else {
            rest.push(s.last())
        }
    }
}

/// The number of records of the session of `username` on `source`.
pub open spec fn session_count(s: Seq<TokenRecord>, username: Seq<char>, source: Seq<char>) -> nat
    decreases s.len(),
{
    if s.len() == 0 {
        0
    } else {
        session_count(s.drop_last(), username, source) + if in_session(
            s.last(),
            username,
            source,
        ) {
            1nat
        } else {
            0nat
        }
    }
}

/// The first record that holds `token` for `source`.
pub open spec fn find_record(s: Seq<TokenRecord>, token: Seq<char>, source: Seq<char>) -> Option<
    TokenRecord,
>
    decreases s.len(),
{
    if s.len() == 0 {
        None
    } else {
        match find_record(s.drop_last(), token, source) {
            Some(r) => Some(r),
            None => if s.last().token == token && s.last().source == source {
                Some(s.last())
            } else {
                None
            },
        }
    }
}

/// The table after saving `token` for the session of `username` on `source`;
/// with `revoke_existing`, the session's earlier records are gone.
pub open spec fn saved(
    s: Seq<TokenRecord>,
    token: Seq<char>,
    username: Seq<char>,
    source: Seq<char>,
    revoke_existing: bool,
) -> Seq<TokenRecord> {
    let kept = if revoke_existing {
        drop_session(s, username, source)
    } else {
        s
    };
    kept.push(TokenRecord { token, username, source })
}

/// The table.
pub struct RefreshTokenStore {
    records: Vec<RefreshTokenModel>,
}

impl View for RefreshTokenStore {
    type V = Seq<TokenRecord>;

    closed spec fn view(&self) -> Seq<TokenRecord> {
        self.records@.map_values(|r: RefreshTokenModel| r@)
    }
}

impl RefreshTokenStore {
    /// An empty table.
    pub fn new() -> (r: RefreshTokenStore)
        ensures
            r@ == Seq::<TokenRecord>::empty(),
    {
        let r = RefreshTokenStore { records: Vec::new() };
        proof {
            assert(r@ =~= Seq::<TokenRecord>::empty());
        }
        r
    }

    /// The number of records.
    pub fn len(&self) -> (r: usize)
        ensures
            r == self@.len(),
    {
        self.records.len()
    }

    /// The records, in the order they were saved.
    pub fn records(&self) -> (r: Vec<RefreshTokenModel>)
        ensures
            r@.map_values(|x: RefreshTokenModel| x@) == self@,
    {
        let mut out: Vec<RefreshTokenModel> = Vec::new();
        let mut i: usize = 0;
        while i < self.records.len()
            invariant
                i <= self.records@.len(),
                out@.map_values(|x: RefreshTokenModel| x@) =~= self@.take(i as int),
            decreases self.records@.len() - i,
        {
            let c = self.records[i].copy();
            let ghost before = out@;
            out.push(c);
            proof {
                assert(self@[i as int] == c@);
                assert(out@ == before.push(c));
                assert(out@.map_values(|x: RefreshTokenModel| x@) =~= before.map_values(
                    |x: RefreshTokenModel| x@,
                ).push(c@));
                assert(self@.take(i + 1) =~= self@.take(i as int).push(c@));
            }
            i = i + 1;
        }
        proof {
            assert(self@.take(i as int) =~= self@);
        }
        out
    }

    /// The record that holds `token` for `source`, if the token is still live.
    pub fn find(&self, token: &str, source: &str) -> (r: Option<RefreshTokenModel>)
        ensures
            match r {
                Some(rec) => find_record(self@, token@, source@) == Some(rec@),
                None => find_record(self@, token@, source@) is None,
            },
    {
        let wanted_token = token.to_owned();
        let wanted_source = source.to_owned();
        let mut i: usize = 0;
        while i < self.records.len()
            invariant
                i <= self.records@.len(),
                wanted_token@ == token@,
                wanted_source@ == source@,
                find_record(self@.take(i as int), token@, source@) is None,
            decreases self.records@.len() - i,
        {
            let rec = &self.records[i];
            proof {
                assert(self@.take(i + 1).drop_last() =~= self@.take(i as int));
            }
            if rec.refresh_token == wanted_token && rec.source == wanted_source {
                let found = rec.copy();
                proof {
                    assert(self@[i as int] == rec@);
                    assert(self@.take(i + 1).last() == rec@);
                    assert(find_record(self@.take(i + 1), token@, source@) == Some(rec@));
                    lemma_find_prefix(self@, (i + 1) as int, token@, source@);
                    assert(find_record(self@, token@, source@) == Some(found@));
                }
                return Some(found);
            }
            i = i + 1;
        }
        proof {
            assert(self@.take(i as int) =~= self@);
        }
        None
    }

    /// Saves `token` for the session of `username` on `source`. With
    /// `revoke_existing`, the session's earlier records are deleted in the same
    /// step, so the session is left with exactly this record.
    pub fn save(&mut self, token: &str, username: &str, source: &str, revoke_existing: bool)
        ensures
            final(self)@ == saved(old(self)@, token@, username@, source@, revoke_existing),
    {
        if revoke_existing {
            self.delete_all(username, source);
        }
        let rec = RefreshTokenModel {
            refresh_token: token.to_owned(),
            username: username.to_owned(),
            source: source.to_owned(),
        };
        self.records.push(rec);
        proof {
            let kept = if revoke_existing {
                drop_session(old(self)@, username@, source@)
            } else {
                old(self)@
            };
            assert(self@ =~= kept.push(TokenRecord { token: token@, username: username@, source: source@ }));
        }
    }

    /// Deletes every record that holds `token`.
    pub fn delete(&mut self, token: &str)
        ensures
            final(self)@ == drop_token(old(self)@, token@),
    {
        let token = token.to_owned();
        let mut kept: Vec<RefreshTokenModel> = Vec::new();
        let mut i: usize = 0;
        while i < self.records.len()
            invariant
                i <= self.records@.len(),
                kept@.map_values(|x: RefreshTokenModel| x@) =~= drop_token(self@.take(i as int), token@),
            decreases self.records@.len() - i,
        {
            proof {
                assert(self@.take(i + 1).drop_last() =~= self@.take(i as int));
            }
            if !(self.records[i].refresh_token == token) {
                kept.push(self.records[i].copy());
            }
            i = i + 1;
            proof {
                assert(kept@.map_values(|x: RefreshTokenModel| x@) =~= drop_token(self@.take(i as int), token@));
            }
        }
        proof {
            assert(self@.take(i as int) =~= self@);
        }
        self.records = kept;
    }

    /// Deletes every record of the session of `username` on `source`.
    pub fn delete_all(&mut self, username: &str, source: &str)
        ensures
            final(self)@ == drop_session(old(self)@, username@, source@),
    {
        let username = username.to_owned();
        let source = source.to_owned();
        let mut kept: Vec<RefreshTokenModel> = Vec::new();
        let mut i: usize = 0;
        while i < self.records.len()
            invariant
                i <= self.records@.len(),
                kept@.map_values(|x: RefreshTokenModel| x@) =~= drop_session(
                    self@.take(i as int),
                    username@,
                    source@,
                ),
            decreases self.records@.len() - i,
        {
            proof {
                assert(self@.take(i + 1).drop_last() =~= self@.take(i as int));
            }
            if !(self.records[i].username == username && self.records[i].source == source) {
                kept.push(self.records[i].copy());
            }
            i = i + 1;
            proof {
                assert(kept@.map_values(|x: RefreshTokenModel| x@) =~= drop_session(
                    self@.take(i as int),
                    username@,
                    source@,
                ));
            }
        }
        proof {
            assert(self@.take(i as int) =~= self@);
        }
        self.records = kept;
    }
}

/// Where a prefix of the table already holds a record for `token` and
/// `source`, that record is the first one of the whole table.
pub proof fn lemma_find_prefix(s: Seq<TokenRecord>, k: int, token: Seq<char>, source: Seq<char>)
    requires
        0 <= k <= s.len(),
        find_record(s.take(k), token, source) is Some,
    ensures
        find_record(s, token, source) == find_record(s.take(k), token, source),
    decreases s.len() - k,
{
    if k < s.len() {
        assert(s.take(k + 1).drop_last() =~= s.take(k));
        lemma_find_prefix(s, k + 1, token, source);
    } else {
        assert(s.take(k) =~= s);
    }
}

/// After the session's records are dropped, none of them is left.
pub proof fn lemma_drop_session_count(s: Seq<TokenRecord>, username: Seq<char>, source: Seq<char>)
    ensures
        session_count(drop_session(s, username, source), username, source) == 0,
    decreases s.len(),
{
    if s.len() > 0 {
        lemma_drop_session_count(s.drop_last(), username, source);
        let rest = drop_session(s.drop_last(), username, source);
        if !in_session(s.last(), username, source) {
            assert(rest.push(s.last()).drop_last() =~= rest);
        }
    }
}

/// A record of the session of `username` on `source` is not among the records
/// left after the session is dropped.
pub proof fn lemma_drop_session_find(
    s: Seq<TokenRecord>,
    username: Seq<char>,
    token: Seq<char>,
    source: Seq<char>,
)
    ensures
        find_record(drop_session(s, username, source), token, source) matches Some(r) ==> r.username
            != username,
    decreases s.len(),
{
    if s.len() > 0 {
        lemma_drop_session_find(s.drop_last(), username, token, source);
        let rest = drop_session(s.drop_last(), username, source);
        if !in_session(s.last(), username, source) {
            assert(rest.push(s.last()).drop_last() =~= rest);
        }
    }
}

/// What a lookup finds holds the token and the source it was asked for.
pub proof fn lemma_find_record_fields(s: Seq<TokenRecord>, token: Seq<char>, source: Seq<char>)
    ensures
        find_record(s, token, source) matches Some(r) ==> r.token == token && r.source == source,
    decreases s.len(),
{
    if s.len() > 0 {
        lemma_find_record_fields(s.drop_last(), token, source);
    }
}

/// Dropping a session adds no record: a token absent for `source` stays absent.
pub proof fn lemma_drop_session_keeps_absent(
    s: Seq<TokenRecord>,
    username: Seq<char>,
    token: Seq<char>,
    source: Seq<char>,
)
    requires
        find_record(s, token, source) is None,
    ensures
        find_record(drop_session(s, username, source), token, source) is None,
    decreases s.len(),
{
    if s.len() > 0 {
        lemma_drop_session_keeps_absent(s.drop_last(), username, token, source);
        let rest = drop_session(s.drop_last(), username, source);
        if !in_session(s.last(), username, source) {
            assert(rest.push(s.last()).drop_last() =~= rest);
        }
    }
}

/// After a token is deleted, no lookup finds it, whatever the source.
pub proof fn lemma_drop_token_absent(s: Seq<TokenRecord>, token: Seq<char>, source: Seq<char>)
    ensures
        find_record(drop_token(s, token), token, source) is None,
    decreases s.len(),
{
    if s.len() > 0 {
        lemma_drop_token_absent(s.drop_last(), token, source);
        let rest = drop_token(s.drop_last(), token);
        if s.last().token != token {
            assert(rest.push(s.last()).drop_last() =~= rest);
        }
    }
}

/// Saving with revocation leaves the session with exactly one record, the new
/// one; whatever a lookup on that source then finds is either the new record
/// or a record of another user.
pub proof fn lemma_saved_revoking(
    s: Seq<TokenRecord>,
    token: Seq<char>,
    username: Seq<char>,
    source: Seq<char>,
    probe: Seq<char>,
)
    ensures
        session_count(saved(s, token, username, source, true), username, source) == 1,
        find_record(saved(s, token, username, source, true), probe, source) matches Some(r) ==> (
        r.username != username || r == (TokenRecord { token, username, source })),
{
    let kept = drop_session(s, username, source);
    lemma_drop_session_count(s, username, source);
    lemma_drop_session_find(s, username, probe, source);
    let t = kept.push(TokenRecord { token, username, source });
    assert(t.drop_last() =~= kept);
}

} // verus!
