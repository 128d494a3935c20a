use vstd::prelude::*;
use crate::bytes::is_public;

verus! {

/// What the registry knows of one identity.
pub struct AccountView {
    pub auth_content: u64,
    pub did_doc_cid: Seq<u8>,
    pub root_hash_table: Seq<u8>,
}

/// What the registry knows of one file.
pub struct FileView {
    pub owner_1: Seq<u8>,
    pub owner_2: Seq<u8>,
    pub cid: Seq<u8>,
    pub nonce: nat,
    pub db_meta: Seq<u8>,
}

/// The four tables of the registry.
pub struct RegistryView {
    /// identity -> account
    pub accounts: Map<Seq<u8>, AccountView>,
    /// file key -> file record
    pub files: Map<u64, FileView>,
    /// (identity, file key) -> permission state (0 denied, 1 unlimited, else a time bound)
    pub access: Map<(Seq<u8>, u64), u64>,
    /// identity -> the file keys it has been an owner of, in order of first attachment
    pub file_keys: Map<Seq<u8>, Seq<u64>>,
}

/// The record read for a file key that was never written.
pub open spec fn default_file() -> FileView {
    FileView { owner_1: seq![], owner_2: seq![], cid: seq![], nonce: 0, db_meta: seq![] }
}

pub open spec fn file_or_default(files: Map<u64, FileView>, hk: u64) -> FileView {
    if files.contains_key(hk) { files[hk] } else { default_file() }
}

/// The keys listed for `did`, empty where it has none.
pub open spec fn keys_of(file_keys: Map<Seq<u8>, Seq<u64>>, did: Seq<u8>) -> Seq<u64> {
    if file_keys.contains_key(did) { file_keys[did] } else { seq![] }
}

/// The permission state of `did` on `hk`, 0 where none was recorded.
pub open spec fn access_or_zero(access: Map<(Seq<u8>, u64), u64>, did: Seq<u8>, hk: u64) -> u64 {
    if access.contains_key((did, hk)) { access[(did, hk)] } else { 0 }
}

/// Version and content pointer that a syncing process reads for `hk`:
/// `(1, empty)` for a key never written.
pub open spec fn sync_info(files: Map<u64, FileView>, hk: u64) -> (nat, Seq<u8>) {
    if files.contains_key(hk) { (files[hk].nonce, files[hk].cid) } else { (1, seq![]) }
}

/// The version that the next write of `hk` gets.
pub open spec fn next_version(files: Map<u64, FileView>, hk: u64) -> nat {
    if files.contains_key(hk) { files[hk].nonce + 1 } else { 1 }
}

/// Result of authenticating `did` with `auth_content`: the root index pointer
/// only when the account exists and its credential matches, else `(false, empty)`.
pub open spec fn auth_result(accounts: Map<Seq<u8>, AccountView>, did: Seq<u8>, auth_content: u64) -> (bool, Seq<u8>) {
    if accounts.contains_key(did) && accounts[did].auth_content == auth_content {
        (true, accounts[did].root_hash_table)
    } else {
        (false, seq![])
    }
}

/// Accounts after creating (or replacing) the account of `did`.
pub open spec fn with_account(
    accounts: Map<Seq<u8>, AccountView>,
    did: Seq<u8>,
    auth_content: u64,
    did_doc_cid: Seq<u8>,
    root_hash_table: Seq<u8>,
) -> Map<Seq<u8>, AccountView> {
    accounts.insert(did, AccountView { auth_content, did_doc_cid, root_hash_table })
}

/// Accounts after pointing the root index of `did` at `cid`; unchanged where `did` has no account.
pub open spec fn with_root(accounts: Map<Seq<u8>, AccountView>, did: Seq<u8>, cid: Seq<u8>) -> Map<Seq<u8>, AccountView> {
    if accounts.contains_key(did) {
        accounts.insert(did, AccountView { root_hash_table: cid, ..accounts[did] })
    } else {
        accounts
    }
}

/// Files after a metadata write of `hk`.
pub open spec fn written_file(
    files: Map<u64, FileView>,
    hk: u64,
    cid: Seq<u8>,
    db_meta: Seq<u8>,
    owner_1: Seq<u8>,
    owner_2: Seq<u8>,
) -> Map<u64, FileView> {
    files.insert(hk, FileView { owner_1, owner_2, cid, nonce: next_version(files, hk), db_meta })
}

/// Permissions after attaching owner `did` to `hk`: the public identity gets no entry;
/// a new owner starts with unlimited access; an existing one keeps its state if
/// `grant`, else is denied.
pub open spec fn owner_access(access: Map<(Seq<u8>, u64), u64>, did: Seq<u8>, hk: u64, grant: bool) -> Map<(Seq<u8>, u64), u64> {
    if is_public(did) {
        access
    } else if access.contains_key((did, hk)) {
        access.insert((did, hk), if grant { access[(did, hk)] } else { 0 })
    } else {
        access.insert((did, hk), 1)
    }
}

/// `keys` with `hk` appended, unless it is there already.
pub open spec fn with_key(keys: Seq<u64>, hk: u64) -> Seq<u64> {
    if keys.contains(hk) { keys } else { keys.push(hk) }
}

/// File index after attaching owner `did` to `hk`; the public identity gets no entry.
pub open spec fn owner_keys(file_keys: Map<Seq<u8>, Seq<u64>>, did: Seq<u8>, hk: u64) -> Map<Seq<u8>, Seq<u64>> {
    if is_public(did) {
        file_keys
    } else {
        file_keys.insert(did, with_key(keys_of(file_keys, did), hk))
    }
}

/// The registry after `update_file_meta(cid, hk, db_meta, did_1, did_2, grant_1, grant_2)`.
pub open spec fn file_meta_updated(
    v: RegistryView,
    cid: Seq<u8>,
    hk: u64,
    db_meta: Seq<u8>,
    did_1: Seq<u8>,
    did_2: Seq<u8>,
    grant_1: bool,
    grant_2: bool,
) -> RegistryView {
    RegistryView {
        accounts: v.accounts,
        files: written_file(v.files, hk, cid, db_meta, did_1, did_2),
        access: owner_access(owner_access(v.access, did_1, hk, grant_1), did_2, hk, grant_2),
        file_keys: owner_keys(owner_keys(v.file_keys, did_1, hk), did_2, hk),
    }
}

/// The registry after `revoke_access(did, hk, revoke)`.
pub open spec fn access_revoked(v: RegistryView, did: Seq<u8>, hk: u64, revoke: bool) -> RegistryView {
    RegistryView { access: v.access.insert((did, hk), if revoke { 0 } else { 1 }), ..v }
}

/// The bytes listed for one file: `owner_1 -- owner_2 ## cid ####`.
pub open spec fn entry_bytes(f: FileView) -> Seq<u8> {
    f.owner_1 + seq![45u8, 45] + f.owner_2 + seq![35u8, 35] + f.cid + seq![35u8, 35, 35, 35]
}

/// The bytes listed for the files `keys`, in order.
pub open spec fn listing(files: Map<u64, FileView>, keys: Seq<u64>) -> Seq<u8>
    decreases keys.len(),
{
    if keys.len() == 0 {
        seq![]
    } else {
        listing(files, keys.drop_last()) + entry_bytes(file_or_default(files, keys.last()))
    }
}

/// Version, permission state of the file's first owner, and key, for file `hk`.
pub open spec fn extra_entry(v: RegistryView, hk: u64) -> (nat, u64, u64) {
    let f = file_or_default(v.files, hk);
    (f.nonce, access_or_zero(v.access, f.owner_1, hk), hk)
}

} // verus!
