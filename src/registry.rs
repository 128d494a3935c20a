use vstd::prelude::*;
use crate::model::{
    access_revoked, auth_result, entry_bytes, extra_entry, file_meta_updated, file_or_default,
    listing, keys_of, owner_access, owner_keys, sync_info, with_account, with_key, with_root, AccountView, FileView, RegistryView,
};
use crate::bytes::{bytes_equal, is_public, public_did_bytes};
use crate::table::Table;

verus! {

/// Errors of the registry. Every operation succeeds or falls back to a default,
/// so none is returned: a missing entity is not signalled.
#[derive(Debug, PartialEq, Eq)]
pub enum Error {
    /// An identity or file that the registry does not hold.
    NotFound,
}

/// Authentication material and document pointers of one identity.
struct UserInfo {
    auth_content: u64,
    did_doc_cid: Vec<u8>,
    root_hash_table: Vec<u8>,
}

impl View for UserInfo {
    type V = AccountView;

    closed spec fn view(&self) -> AccountView {
        AccountView {
            auth_content: self.auth_content,
            did_doc_cid: self.did_doc_cid@,
            root_hash_table: self.root_hash_table@,
        }
    }
}

/// Owners, content pointer, version and metadata of one file.
struct FileMeta {
    owner_1: Vec<u8>,
    owner_2: Vec<u8>,
    cid: Vec<u8>,
    nonce: u64,
    db_meta: Vec<u8>,
}

impl View for FileMeta {
    type V = FileView;

    closed spec fn view(&self) -> FileView {
        FileView {
            owner_1: self.owner_1@,
            owner_2: self.owner_2@,
            cid: self.cid@,
            nonce: self.nonce as nat,
            db_meta: self.db_meta@,
        }
    }
}

/// The registry: accounts, file records, permissions and per-identity file indexes.
pub struct SamOs {
    /// identity -> authentication material and document pointers
    auth_list: Table<Vec<u8>, UserInfo>,
    /// file key -> file record
    files_meta: Table<u64, FileMeta>,
    /// (identity, file key) -> permission state
    access_list: Table<(Vec<u8>, u64), u64>,
    /// identity -> keys of the files it has been an owner of
    file_keys: Table<Vec<u8>, Vec<u64>>,
}

impl View for SamOs {
    type V = RegistryView;

    closed spec fn view(&self) -> RegistryView {
        RegistryView {
            accounts: self.auth_list@,
            files: self.files_meta@,
            access: self.access_list@,
            file_keys: self.file_keys@,
        }
    }
}

impl SamOs {
    pub closed spec fn wf(&self) -> bool {
        &&& self.auth_list.wf()
        &&& self.files_meta.wf()
        &&& self.access_list.wf()
        &&& self.file_keys.wf()
    }

    /// An empty registry.
    pub fn new() -> (r: Self)
        ensures
            r.wf(),
            r@.accounts == Map::<Seq<u8>, AccountView>::empty(),
            r@.files == Map::<u64, FileView>::empty(),
            r@.access == Map::<(Seq<u8>, u64), u64>::empty(),
            r@.file_keys == Map::<Seq<u8>, Seq<u64>>::empty(),
    {
        SamOs {
            auth_list: Table::new(),
            files_meta: Table::new(),
            access_list: Table::new(),
            file_keys: Table::new(),
        }
    }

    /// Creates the account of `did`, replacing any account it had.
    pub fn create_new_account(
        &mut self,
        did: Vec<u8>,
        auth_content: u64,
        did_doc_cid: Vec<u8>,
        root_hash_table: Vec<u8>,
    ) -> (r: Result<(), Error>)
        requires
            old(self).wf(),
        ensures
            final(self).wf(),
            r is Ok,
            final(self)@ == (RegistryView {
                accounts: with_account(old(self)@.accounts, did@, auth_content, did_doc_cid@, root_hash_table@),
                ..old(self)@
            }),
    {
        let user = UserInfo { auth_content, did_doc_cid, root_hash_table };
        self.auth_list.insert(did, user);
        Ok(())
    }

    /// Checks `auth_content` against the account of `did`. The root index pointer
    /// comes back only on success; a failed check gives `(false, empty)`.
    pub fn account_is_auth(&self, did: Vec<u8>, auth_content: u64) -> (r: (bool, Vec<u8>))
        requires
            self.wf(),
        ensures
            (r.0, r.1@) == auth_result(self@.accounts, did@, auth_content),
    {
        match self.auth_list.get(&did) {
            Some(user_info) => {
                if user_info.auth_content == auth_content {
                    (true, user_info.root_hash_table.clone())
                } else {
                    (false, Vec::new())
                }
            },
            None => (false, Vec::new()),
        }
    }

    /// Version and content pointer of file `hk`; `(1, empty)` for a file never written.
    pub fn get_file_sync_info(&self, hk: u64) -> (r: (u64, Vec<u8>))
        requires
            self.wf(),
        ensures
            (r.0 as nat, r.1@) == sync_info(self@.files, hk),
    {
        match self.files_meta.get(&hk) {
            Some(meta) => (meta.nonce, meta.cid.clone()),
            None => (1, Vec::new()),
        }
    }

    /// Points the root index of `did` at `cid`; does nothing where `did` has no account.
    pub fn update_hashtable(&mut self, cid: Vec<u8>, did: Vec<u8>)
        requires
            old(self).wf(),
        ensures
            final(self).wf(),
            final(self)@ == (RegistryView {
                accounts: with_root(old(self)@.accounts, did@, cid@),
                ..old(self)@
            }),
    {
        let updated = match self.auth_list.get(&did) {
            Some(user_info) => Some(UserInfo {
                auth_content: user_info.auth_content,
                did_doc_cid: user_info.did_doc_cid.clone(),
                root_hash_table: cid,
            }),
            None => None,
        };
        match updated {
            Some(u_info) => {
                self.auth_list.insert(did, u_info);
            },
            None => {},
        }
    }

    /// Sets the permission state of `did` on `hk`: denied if `revoke`, else unlimited.
    pub fn revoke_access(&mut self, did: Vec<u8>, hk: u64, revoke: bool)
        requires
            old(self).wf(),
        ensures
            final(self).wf(),
            final(self)@ == access_revoked(old(self)@, did@, hk, revoke),
    {
        self.access_list.insert((did, hk), if revoke { 0 } else { 1 });
    }
}

/// Whether `keys` holds `hk`.
fn holds_key(keys: &Vec<u64>, hk: u64) -> (r: bool)
    ensures
        r == keys@.contains(hk),
{
    let mut i: usize = 0;
    while i < keys.len()
        invariant
            0 <= i <= keys@.len(),
            forall|j: int| 0 <= j < i ==> keys@[j] != hk,
        decreases keys@.len() - i,
    {
        if keys[i] == hk {
            assert(keys@[i as int] == hk);
            return true;
        }
        i = i + 1;
    }
    false
}

impl SamOs {
    /// Attaches owner `did` to file `hk`: records its permission and lists the
    /// file in its index. The public identity is left out of both.
    fn attach_owner(&mut self, did: Vec<u8>, hk: u64, grant: bool, public: &Vec<u8>)
        requires
            old(self).wf(),
            is_public(public@),
        ensures
            final(self).wf(),
            final(self)@ == (RegistryView {
                access: owner_access(old(self)@.access, did@, hk, grant),
                file_keys: owner_keys(old(self)@.file_keys, did@, hk),
                ..old(self)@
            }),
    {
        if bytes_equal(&did, public) {
            return;
        }
        let current = match self.access_list.get(&(did.clone(), hk)) {
            Some(time) => Some(*time),
            None => None,
        };
        match current {
            // an existing owner keeps its state, or is denied (0)
            Some(time) => {
                self.access_list.insert((did.clone(), hk), if grant { time } else { 0 });
            },
            // a new owner starts with access and no time limit (1)
            None => {
                self.access_list.insert((did.clone(), hk), 1);
            },
        }
        let keys: Vec<u64> = match self.file_keys.get(&did) {
            Some(keys) => {
                let mut new_keys = keys.clone();
                if !holds_key(keys, hk) {
                    new_keys.push(hk);
                }
                new_keys
            },
            None => {
                let mut keys: Vec<u64> = Vec::new();
                keys.push(hk);
                assert(keys@ =~= with_key(seq![], hk));
                keys
            },
        };
        self.file_keys.insert(did, keys);
    }

    /// Writes the metadata of file `hk`: owners `did_1` and `did_2`, content
    /// pointer `cid`, the next version, and `metadata`. Each owner but the public
    /// identity is listed in its index; a new owner gets unlimited access, an
    /// existing one keeps its state if its flag is set and is denied otherwise.
    /// The version of `hk` must not yet be `u64::MAX`.
    pub fn update_file_meta(
        &mut self,
        cid: Vec<u8>,
        hk: u64,
        metadata: Vec<u8>,
        did_1: Vec<u8>,
        did_2: Vec<u8>,
        access_bit_1: bool,
        access_bit_2: bool,
    )
        requires
            old(self).wf(),
            old(self)@.files.contains_key(hk) ==> old(self)@.files[hk].nonce < u64::MAX,
        ensures
            final(self).wf(),
            final(self)@ == file_meta_updated(
                old(self)@,
                cid@,
                hk,
                metadata@,
                did_1@,
                did_2@,
                access_bit_1,
                access_bit_2,
            ),
    {
        let nonce: u64 = match self.files_meta.get(&hk) {
            Some(meta) => meta.nonce + 1,
            None => 1,
        };
        let meta = FileMeta {
            owner_1: did_1.clone(),
            owner_2: did_2.clone(),
            cid,
            nonce,
            db_meta: metadata,
        };
        self.files_meta.insert(hk, meta);
        let public = public_did_bytes();
        self.attach_owner(did_1, hk, access_bit_1, &public);
        self.attach_owner(did_2, hk, access_bit_2, &public);
    }
}

impl SamOs {
    /// The listed bytes of file `hk`: `owner_1 -- owner_2 ## cid ####`,
    /// with empty owners and pointer for a file never written.
    fn file_entry(&self, hk: u64) -> (r: Vec<u8>)
        requires
            self.wf(),
        ensures
            r@ == entry_bytes(file_or_default(self@.files, hk)),
    {
        let mut collator: Vec<u8> = Vec::new();
        match self.files_meta.get(&hk) {
            Some(file) => {
                let mut did_1 = file.owner_1.clone();
                let mut did_2 = file.owner_2.clone();
                let mut cid = file.cid.clone();
                collator.append(&mut did_1);
                collator.push(45);
                collator.push(45);
                collator.append(&mut did_2);
                collator.push(35);
                collator.push(35);
                collator.append(&mut cid);
            },
            None => {
                collator.push(45);
                collator.push(45);
                collator.push(35);
                collator.push(35);
            },
        }
        collator.push(35);
        collator.push(35);
        collator.push(35);
        collator.push(35);
        assert(collator@ =~= entry_bytes(file_or_default(self@.files, hk)));
        collator
    }

    /// Owners and content pointer of every file in the index of `did`, in index
    /// order, each as `owner_1 -- owner_2 ## cid ####`.
    pub fn get_files_info(&self, did: Vec<u8>) -> (r: Vec<u8>)
        requires
            self.wf(),
        ensures
            r@ == listing(self@.files, keys_of(self@.file_keys, did@)),
    {
        let mut return_data: Vec<u8> = Vec::new();
        match self.file_keys.get(&did) {
            Some(keys) => {
                let ghost ks = keys@;
                let mut i: usize = 0;
                while i < keys.len()
                    invariant
                        self.wf(),
                        ks == keys@,
                        0 <= i <= ks.len(),
                        return_data@ == listing(self@.files, ks.subrange(0, i as int)),
                    decreases ks.len() - i,
                {
                    let mut collator = self.file_entry(keys[i]);
                    return_data.append(&mut collator);
                    assert(ks.subrange(0, i + 1).drop_last() =~= ks.subrange(0, i as int));
                    i = i + 1;
                }
                assert(ks.subrange(0, ks.len() as int) =~= ks);
            },
            None => {},
        }
        return_data
    }

    /// For every file in the index of `did`, in index order: its version, the
    /// permission state of its first owner (not necessarily `did`), and its key.
    pub fn get_files_extra_info(&self, did: Vec<u8>) -> (r: Vec<(u64, u64, u64)>)
        requires
            self.wf(),
        ensures
            r@.len() == keys_of(self@.file_keys, did@).len(),
            forall|i: int|
                #![trigger r@[i]]
                0 <= i < r@.len() ==> (r@[i].0 as nat, r@[i].1, r@[i].2) == extra_entry(
                    self@,
                    keys_of(self@.file_keys, did@)[i],
                ),
    {
        let mut collator: Vec<(u64, u64, u64)> = Vec::new();
        match self.file_keys.get(&did) {
            Some(keys) => {
                let ghost ks = keys@;
                let mut i: usize = 0;
                while i < keys.len()
                    invariant
                        self.wf(),
                        ks == keys@,
                        ks == keys_of(self@.file_keys, did@),
                        0 <= i <= ks.len(),
                        collator@.len() == i,
                        forall|j: int|
                            #![trigger collator@[j]]
                            0 <= j < i ==> (collator@[j].0 as nat, collator@[j].1, collator@[j].2)
                                == extra_entry(self@, ks[j]),
                    decreases ks.len() - i,
                {
                    let hk = keys[i];
                    let tuple: (u64, u64, u64) = match self.files_meta.get(&hk) {
                        Some(file) => {
                            let access_bit1 = match self.access_list.get(&(file.owner_1.clone(), hk)) {
                                Some(state) => *state,
                                None => 0,
                            };
                            (file.nonce, access_bit1, hk)
                        },
                        None => {
                            let access_bit1 = match self.access_list.get(&(Vec::new(), hk)) {
                                Some(state) => *state,
                                None => 0,
                            };
                            (0, access_bit1, hk)
                        },
                    };
                    collator.push(tuple);
                    i = i + 1;
                }
            },
            None => {},
        }
        collator
    }
}

} // verus!
