use vstd::prelude::*;
use crate::bytes::{is_public, public_did};
use crate::model::{
    access_revoked, auth_result, entry_bytes, extra_entry, file_meta_updated, file_or_default, keys_of,
    listing, owner_keys, sync_info, with_account, with_key, with_root, written_file, AccountView, FileView, RegistryView,
};

verus! {

/// One mutating call on the registry, with its arguments.
pub enum RegistryOp {
    CreateAccount { did: Seq<u8>, auth_content: u64, did_doc_cid: Seq<u8>, root_hash_table: Seq<u8> },
    UpdateRoot { cid: Seq<u8>, did: Seq<u8> },
    UpdateFileMeta {
        cid: Seq<u8>,
        hk: u64,
        db_meta: Seq<u8>,
        did_1: Seq<u8>,
        did_2: Seq<u8>,
        grant_1: bool,
        grant_2: bool,
    },
    RevokeAccess { did: Seq<u8>, hk: u64, revoke: bool },
}

/// The registry after the call `op`.
pub open spec fn apply_op(v: RegistryView, op: RegistryOp) -> RegistryView {
    match op {
        RegistryOp::CreateAccount { did, auth_content, did_doc_cid, root_hash_table } => RegistryView {
            accounts: with_account(v.accounts, did, auth_content, did_doc_cid, root_hash_table),
            ..v
        },
        RegistryOp::UpdateRoot { cid, did } => RegistryView { accounts: with_root(v.accounts, did, cid), ..v },
        RegistryOp::UpdateFileMeta { cid, hk, db_meta, did_1, did_2, grant_1, grant_2 } => file_meta_updated(
            v,
            cid,
            hk,
            db_meta,
            did_1,
            did_2,
            grant_1,
            grant_2,
        ),
        RegistryOp::RevokeAccess { did, hk, revoke } => access_revoked(v, did, hk, revoke),
    }
}

/// The registry after the calls `ops`, in order.
pub open spec fn after_ops(v: RegistryView, ops: Seq<RegistryOp>) -> RegistryView
    decreases ops.len(),
{
    if ops.len() == 0 {
        v
    } else {
        apply_op(after_ops(v, ops.drop_last()), ops.last())
    }
}

/// How many of the calls `ops` write the metadata of file `hk`.
pub open spec fn writes_of(ops: Seq<RegistryOp>, hk: u64) -> nat
    decreases ops.len(),
{
    if ops.len() == 0 {
        0
    } else {
        writes_of(ops.drop_last(), hk) + match ops.last() {
            RegistryOp::UpdateFileMeta { hk: k, .. } => if k == hk { 1nat } else { 0nat },
            _ => 0nat,
        }
    }
}

/// From a registry where file `hk` was never written, after any calls of which
/// n >= 1 write its metadata, the version read for `hk` is n: each write adds
/// one, whatever other calls stand between them. With no such write the file
/// is still unknown.
pub proof fn lemma_version_counts_writes(v: RegistryView, hk: u64, ops: Seq<RegistryOp>)
    requires
        !v.files.contains_key(hk),
    ensures
        writes_of(ops, hk) >= 1 ==> sync_info(after_ops(v, ops).files, hk).0 == writes_of(ops, hk),
        writes_of(ops, hk) >= 1 ==> after_ops(v, ops).files.contains_key(hk),
        writes_of(ops, hk) == 0 ==> !after_ops(v, ops).files.contains_key(hk),
    decreases ops.len(),
{
    if ops.len() > 0 {
        let pre = ops.drop_last();
        lemma_version_counts_writes(v, hk, pre);
        let w = after_ops(v, pre);
        let r = after_ops(v, ops);
        match ops.last() {
            RegistryOp::UpdateFileMeta { cid, hk: k, db_meta, did_1, did_2, .. } => {
                assert(r.files == written_file(w.files, k, cid, db_meta, did_1, did_2));
                assert(writes_of(ops, hk) == writes_of(pre, hk) + if k == hk { 1nat } else { 0nat });
                if k != hk {
                    assert(r.files.contains_key(hk) == w.files.contains_key(hk));
                    if w.files.contains_key(hk) {
                        assert(r.files[hk] == w.files[hk]);
                    }
                } else {
                }
            },
            _ => {
                assert(r.files == w.files);
                assert(writes_of(ops, hk) == writes_of(pre, hk));
            },
        }
    }
}

/// Each further write of file `hk` makes the version read for it exactly one larger.
pub proof fn lemma_version_increases(v: RegistryView, hk: u64, ops: Seq<RegistryOp>, op: RegistryOp)
    requires
        !v.files.contains_key(hk),
        writes_of(ops, hk) >= 1,
        op is UpdateFileMeta,
        op->UpdateFileMeta_hk == hk,
    ensures
        sync_info(after_ops(v, ops.push(op)).files, hk).0 == sync_info(after_ops(v, ops).files, hk).0 + 1,
{
    lemma_version_counts_writes(v, hk, ops);
    lemma_version_counts_writes(v, hk, ops.push(op));
    assert(ops.push(op).drop_last() =~= ops);
}

/// Authentication succeeds exactly when `did` has an account whose credential
/// is `auth_content`, and then returns its root index pointer; every failed
/// check gives `(false, empty)`.
pub proof fn lemma_auth_iff(accounts: Map<Seq<u8>, AccountView>, did: Seq<u8>, auth_content: u64)
    ensures
        auth_result(accounts, did, auth_content).0 <==> (accounts.contains_key(did)
            && accounts[did].auth_content == auth_content),
        auth_result(accounts, did, auth_content).0 ==> auth_result(accounts, did, auth_content).1
            == accounts[did].root_hash_table,
        !auth_result(accounts, did, auth_content).0 ==> auth_result(accounts, did, auth_content) == (
        false,
        Seq::<u8>::empty(),
        ),
{
}

/// After a metadata write with two owners that are not the public identity,
/// the file is in the index of both, so both list it.
pub proof fn lemma_both_owners_list_file(
    v: RegistryView,
    cid: Seq<u8>,
    hk: u64,
    db_meta: Seq<u8>,
    did_1: Seq<u8>,
    did_2: Seq<u8>,
    grant_1: bool,
    grant_2: bool,
)
    requires
        !is_public(did_1),
        !is_public(did_2),
    ensures
        keys_of(file_meta_updated(v, cid, hk, db_meta, did_1, did_2, grant_1, grant_2).file_keys, did_1).contains(hk),
        keys_of(file_meta_updated(v, cid, hk, db_meta, did_1, did_2, grant_1, grant_2).file_keys, did_2).contains(hk),
{
    let k1 = with_key(keys_of(v.file_keys, did_1), hk);
    if !keys_of(v.file_keys, did_1).contains(hk) {
        assert(k1[k1.len() - 1] == hk);
    }
    let mid = v.file_keys.insert(did_1, k1);
    let k2 = with_key(keys_of(mid, did_2), hk);
    if !keys_of(mid, did_2).contains(hk) {
        assert(k2[k2.len() - 1] == hk);
    }
}

/// Revoking (or restoring) the access of a file's first owner is what the
/// extra listing then reports for that file: 0 after a revoke, 1 after a grant.
pub proof fn lemma_revoke_seen_by_first_owner(v: RegistryView, did: Seq<u8>, hk: u64, revoke: bool)
    requires
        v.files.contains_key(hk),
        v.files[hk].owner_1 == did,
    ensures
        extra_entry(access_revoked(v, did, hk, revoke), hk).1 == (if revoke { 0u64 } else { 1u64 }),
{
}

/// No table entry of the public identity: neither a permission nor an index.
pub open spec fn public_unrecorded(v: RegistryView) -> bool {
    &&& forall|hk: u64| !(#[trigger] v.access.contains_key((public_did(), hk)))
    &&& !v.file_keys.contains_key(public_did())
}

/// A metadata write gives the public identity no permission and no index,
/// however many owner slots name it.
pub proof fn lemma_public_never_recorded(
    v: RegistryView,
    cid: Seq<u8>,
    hk: u64,
    db_meta: Seq<u8>,
    did_1: Seq<u8>,
    did_2: Seq<u8>,
    grant_1: bool,
    grant_2: bool,
)
    requires
        public_unrecorded(v),
    ensures
        public_unrecorded(file_meta_updated(v, cid, hk, db_meta, did_1, did_2, grant_1, grant_2)),
{
    let r = file_meta_updated(v, cid, hk, db_meta, did_1, did_2, grant_1, grant_2);
    assert forall|k: u64| !(#[trigger] r.access.contains_key((public_did(), k))) by {
        assert(!v.access.contains_key((public_did(), k)));
    }
}

/// The registry that `SamOs::new` returns holds no entry of the public identity.
pub proof fn lemma_empty_public_unrecorded()
    ensures
        public_unrecorded(
            RegistryView {
                accounts: Map::empty(),
                files: Map::empty(),
                access: Map::empty(),
                file_keys: Map::empty(),
            },
        ),
{
}

/// Setting the permission of an identity other than the public one adds no
/// entry of the public identity.
pub proof fn lemma_revoke_keeps_public_unrecorded(v: RegistryView, did: Seq<u8>, hk: u64, revoke: bool)
    requires
        public_unrecorded(v),
        !is_public(did),
    ensures
        public_unrecorded(access_revoked(v, did, hk, revoke)),
{
    let r = access_revoked(v, did, hk, revoke);
    assert forall|k: u64| !(#[trigger] r.access.contains_key((public_did(), k))) by {
        assert(!v.access.contains_key((public_did(), k)));
    }
}

/// Every identity's file index holds each key at most once.
pub open spec fn index_duplicate_free(v: RegistryView) -> bool {
    forall|did: Seq<u8>| #[trigger] keys_of(v.file_keys, did).no_duplicates()
}

/// `with_key` keeps a sequence free of duplicates.
proof fn lemma_with_key_duplicate_free(keys: Seq<u64>, hk: u64)
    requires
        keys.no_duplicates(),
    ensures
        with_key(keys, hk).no_duplicates(),
{
    if !keys.contains(hk) {
        let r = keys.push(hk);
        assert forall|i: int, j: int| 0 <= i < r.len() && 0 <= j < r.len() && i != j implies r[i] != r[j] by {
            if i == keys.len() {
                assert(!keys.contains(r[j]) || r[j] != hk);
            } else if j == keys.len() {
                assert(keys[i] == r[i]);
            }
        }
    }
}

/// A metadata write lists a file in an owner's index at most once.
pub proof fn lemma_index_stays_duplicate_free(
    v: RegistryView,
    cid: Seq<u8>,
    hk: u64,
    db_meta: Seq<u8>,
    did_1: Seq<u8>,
    did_2: Seq<u8>,
    grant_1: bool,
    grant_2: bool,
)
    requires
        index_duplicate_free(v),
    ensures
        index_duplicate_free(file_meta_updated(v, cid, hk, db_meta, did_1, did_2, grant_1, grant_2)),
{
    let mid = owner_keys(v.file_keys, did_1, hk);
    lemma_with_key_duplicate_free(keys_of(v.file_keys, did_1), hk);
    assert forall|d: Seq<u8>| #[trigger] keys_of(mid, d).no_duplicates() by {
        assert(keys_of(v.file_keys, d).no_duplicates());
    }
    let r = owner_keys(mid, did_2, hk);
    lemma_with_key_duplicate_free(keys_of(mid, did_2), hk);
    assert forall|d: Seq<u8>| #[trigger] keys_of(r, d).no_duplicates() by {
        assert(keys_of(mid, d).no_duplicates());
    }
}

/// Whether `op` sets a permission of the public identity.
pub open spec fn revokes_public(op: RegistryOp) -> bool {
    match op {
        RegistryOp::RevokeAccess { did, .. } => is_public(did),
        _ => false,
    }
}

/// However many files name the public identity as an owner, no sequence of
/// calls records it in the permissions or the file index, unless a call sets a
/// permission for it directly.
pub proof fn lemma_ops_keep_public_unrecorded(v: RegistryView, ops: Seq<RegistryOp>)
    requires
        public_unrecorded(v),
        forall|i: int| 0 <= i < ops.len() ==> !revokes_public(#[trigger] ops[i]),
    ensures
        public_unrecorded(after_ops(v, ops)),
    decreases ops.len(),
{
    if ops.len() > 0 {
        let pre = ops.drop_last();
        assert forall|i: int| 0 <= i < pre.len() implies !revokes_public(#[trigger] pre[i]) by {
            assert(pre[i] == ops[i]);
        }
        lemma_ops_keep_public_unrecorded(v, pre);
        let w = after_ops(v, pre);
        assert(!revokes_public(ops[ops.len() - 1]));
        match ops.last() {
            RegistryOp::UpdateFileMeta { cid, hk, db_meta, did_1, did_2, grant_1, grant_2 } => {
                lemma_public_never_recorded(w, cid, hk, db_meta, did_1, did_2, grant_1, grant_2);
            },
            RegistryOp::RevokeAccess { did, hk, revoke } => {
                lemma_revoke_keeps_public_unrecorded(w, did, hk, revoke);
            },
            _ => {},
        }
    }
}

/// Where `keys` holds `hk`, the listing of `keys` holds the entry of file `hk`
/// as a contiguous run of bytes.
pub proof fn lemma_listing_holds_entry(files: Map<u64, FileView>, keys: Seq<u64>, hk: u64)
    requires
        keys.contains(hk),
    ensures
        exists|i: int|
            0 <= i && i + entry_bytes(file_or_default(files, hk)).len() <= listing(files, keys).len()
                && #[trigger] listing(files, keys).subrange(i, i + entry_bytes(file_or_default(files, hk)).len())
                == entry_bytes(file_or_default(files, hk)),
    decreases keys.len(),
{
    let e = entry_bytes(file_or_default(files, hk));
    let pre = keys.drop_last();
    let l = listing(files, keys);
    let lp = listing(files, pre);
    if keys.last() == hk {
        let i = lp.len() as int;
        assert(l.subrange(i, i + e.len()) =~= e);
    } else {
        let j = choose|j: int| 0 <= j < keys.len() && keys[j] == hk;
        assert(pre[j] == hk);
        lemma_listing_holds_entry(files, pre, hk);
        let i = choose|i: int|
            0 <= i && i + e.len() <= lp.len() && #[trigger] lp.subrange(i, i + e.len()) == e;
        assert(l.subrange(i, i + e.len()) =~= lp.subrange(i, i + e.len()));
    }
}

/// After a metadata write with two owners that are not the public identity,
/// the listing of each owner holds the bytes
/// `did_1 -- did_2 ## cid ####` of that file.
pub proof fn lemma_both_owners_listing_holds_file(
    v: RegistryView,
    cid: Seq<u8>,
    hk: u64,
    db_meta: Seq<u8>,
    did_1: Seq<u8>,
    did_2: Seq<u8>,
    grant_1: bool,
    grant_2: bool,
)
    requires
        !is_public(did_1),
        !is_public(did_2),
    ensures
        ({
            let r = file_meta_updated(v, cid, hk, db_meta, did_1, did_2, grant_1, grant_2);
            let c = did_1 + seq![45u8, 45] + did_2 + seq![35u8, 35] + cid + seq![35u8, 35, 35, 35];
            &&& exists|i: int|
                0 <= i && i + c.len() <= listing(r.files, keys_of(r.file_keys, did_1)).len()
                    && #[trigger] listing(r.files, keys_of(r.file_keys, did_1)).subrange(i, i + c.len()) == c
            &&& exists|i: int|
                0 <= i && i + c.len() <= listing(r.files, keys_of(r.file_keys, did_2)).len()
                    && #[trigger] listing(r.files, keys_of(r.file_keys, did_2)).subrange(i, i + c.len()) == c
        }),
{
    let r = file_meta_updated(v, cid, hk, db_meta, did_1, did_2, grant_1, grant_2);
    lemma_both_owners_list_file(v, cid, hk, db_meta, did_1, did_2, grant_1, grant_2);
    assert(entry_bytes(file_or_default(r.files, hk))
        == did_1 + seq![45u8, 45] + did_2 + seq![35u8, 35] + cid + seq![35u8, 35, 35, 35]);
    lemma_listing_holds_entry(r.files, keys_of(r.file_keys, did_1), hk);
    lemma_listing_holds_entry(r.files, keys_of(r.file_keys, did_2), hk);
}

/// Creating the account of the same identity twice keeps only what the second
/// call gave.
pub proof fn lemma_create_account_twice(
    accounts: Map<Seq<u8>, AccountView>,
    did: Seq<u8>,
    auth_1: u64,
    doc_1: Seq<u8>,
    root_1: Seq<u8>,
    auth_2: u64,
    doc_2: Seq<u8>,
    root_2: Seq<u8>,
)
    ensures
        with_account(with_account(accounts, did, auth_1, doc_1, root_1), did, auth_2, doc_2, root_2)
            == with_account(accounts, did, auth_2, doc_2, root_2),
{
    assert(with_account(with_account(accounts, did, auth_1, doc_1, root_1), did, auth_2, doc_2, root_2)
        =~= with_account(accounts, did, auth_2, doc_2, root_2));
}

} // verus!
