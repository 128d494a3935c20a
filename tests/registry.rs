use sam_os::{Error, SamOs};

fn public() -> Vec<u8> {
    "did:sam:root:apps:xxxxxxxxxxxx".as_bytes().to_vec()
}

fn did(s: &str) -> Vec<u8> {
    s.as_bytes().to_vec()
}

#[test]
fn authenticate_scenario() {
    let mut sam = SamOs::new();
    let a = did("did:sam:alice");
    assert_eq!(sam.create_new_account(a.clone(), 42, did("doc-a"), did("root-a")), Ok(()));
    assert_eq!(sam.account_is_auth(a.clone(), 42), (true, did("root-a")));
    assert_eq!(sam.account_is_auth(a.clone(), 7), (false, Vec::new()));
}

#[test]
fn authenticate_unknown_identity() {
    let sam = SamOs::new();
    assert_eq!(sam.account_is_auth(did("did:sam:nobody"), 42), (false, Vec::new()));
}

#[test]
fn sync_info_scenario() {
    let mut sam = SamOs::new();
    let a = did("did:sam:alice");
    sam.update_file_meta(did("cid1"), 100, did("meta"), a.clone(), public(), true, true);
    assert_eq!(sam.get_file_sync_info(100), (1, did("cid1")));
    sam.update_file_meta(did("cid2"), 100, did("meta"), a.clone(), public(), true, true);
    assert_eq!(sam.get_file_sync_info(100), (2, did("cid2")));
}

#[test]
fn sync_info_unknown_file() {
    let sam = SamOs::new();
    assert_eq!(sam.get_file_sync_info(5), (1, Vec::new()));
}

#[test]
fn version_counts_writes() {
    let mut sam = SamOs::new();
    let a = did("did:sam:alice");
    let b = did("did:sam:bob");
    let mut last = 0;
    for n in 1..=5u64 {
        sam.update_file_meta(did("cid"), 7, Vec::new(), a.clone(), b.clone(), n % 2 == 0, true);
        // other calls between the writes do not move the version
        sam.revoke_access(a.clone(), 7, n % 2 == 1);
        sam.create_new_account(b.clone(), n, did("doc"), did("root")).unwrap();
        sam.update_hashtable(did("root2"), b.clone());
        let (version, _) = sam.get_file_sync_info(7);
        assert_eq!(version, n);
        assert!(version > last);
        last = version;
    }
    // another key keeps its own count
    sam.update_file_meta(did("cid"), 8, Vec::new(), a.clone(), b.clone(), true, true);
    assert_eq!(sam.get_file_sync_info(8).0, 1);
    assert_eq!(sam.get_file_sync_info(7).0, 5);
}

#[test]
fn both_owners_list_file() {
    let mut sam = SamOs::new();
    let a = did("A");
    let b = did("B");
    sam.update_file_meta(did("Q"), 3, Vec::new(), a.clone(), b.clone(), true, true);
    let expected = did("A--B##Q####");
    assert_eq!(sam.get_files_info(a.clone()), expected);
    assert_eq!(sam.get_files_info(b.clone()), expected);
    assert_eq!(sam.get_files_extra_info(a), vec![(1, 1, 3)]);
    assert_eq!(sam.get_files_extra_info(b), vec![(1, 1, 3)]);
}

#[test]
fn listing_in_index_order() {
    let mut sam = SamOs::new();
    let a = did("A");
    sam.update_file_meta(did("c1"), 20, Vec::new(), a.clone(), public(), true, true);
    sam.update_file_meta(did("c2"), 10, Vec::new(), a.clone(), did("B"), true, true);
    // writing 20 again keeps its place in the index
    sam.update_file_meta(did("c3"), 20, Vec::new(), a.clone(), public(), true, true);
    let mut expected = did("A--");
    expected.extend(public());
    expected.extend(did("##c3####A--B##c2####"));
    assert_eq!(sam.get_files_info(a.clone()), expected);
    assert_eq!(sam.get_files_extra_info(a), vec![(2, 1, 20), (1, 1, 10)]);
}

#[test]
fn listing_of_unknown_identity_is_empty() {
    let sam = SamOs::new();
    assert_eq!(sam.get_files_info(did("X")), Vec::<u8>::new());
    assert_eq!(sam.get_files_extra_info(did("X")), Vec::new());
}

#[test]
fn revoke_then_extra_info() {
    let mut sam = SamOs::new();
    let a = did("A");
    let b = did("B");
    sam.update_file_meta(did("c"), 9, Vec::new(), a.clone(), b.clone(), true, true);
    sam.revoke_access(a.clone(), 9, true);
    assert_eq!(sam.get_files_extra_info(a.clone()), vec![(1, 0, 9)]);
    sam.revoke_access(a.clone(), 9, false);
    assert_eq!(sam.get_files_extra_info(a), vec![(1, 1, 9)]);
}

#[test]
fn extra_info_reports_first_owner() {
    let mut sam = SamOs::new();
    let a = did("A");
    let b = did("B");
    sam.update_file_meta(did("c"), 9, Vec::new(), a.clone(), b.clone(), true, true);
    sam.revoke_access(b.clone(), 9, true);
    // the second owner sees the state of the first one
    assert_eq!(sam.get_files_extra_info(b), vec![(1, 1, 9)]);
}

#[test]
fn public_identity_never_recorded() {
    let mut sam = SamOs::new();
    let a = did("A");
    sam.update_file_meta(did("c1"), 1, Vec::new(), public(), public(), false, false);
    sam.update_file_meta(did("c2"), 2, Vec::new(), a.clone(), public(), true, false);
    sam.update_file_meta(did("c3"), 2, Vec::new(), public(), a.clone(), true, true);
    assert_eq!(sam.get_files_info(public()), Vec::<u8>::new());
    assert_eq!(sam.get_files_extra_info(public()), Vec::new());
    // file 1 has only public owners: its first owner holds no permission
    assert_eq!(sam.get_file_sync_info(1), (1, did("c1")));
    // file 2 now lists the public identity first, which has no permission entry
    assert_eq!(sam.get_files_extra_info(a), vec![(2, 0, 2)]);
}

#[test]
fn grant_flags_apply_to_existing_owners_only() {
    let mut sam = SamOs::new();
    let a = did("A");
    let b = did("B");
    // new owners start with access, whatever the flags say
    sam.update_file_meta(did("c"), 4, Vec::new(), a.clone(), b.clone(), false, false);
    assert_eq!(sam.get_files_extra_info(a.clone()), vec![(1, 1, 4)]);
    // an existing owner with its flag cleared is denied
    sam.update_file_meta(did("c"), 4, Vec::new(), a.clone(), b.clone(), false, true);
    assert_eq!(sam.get_files_extra_info(a.clone()), vec![(2, 0, 4)]);
    // with its flag set it keeps the state it had
    sam.update_file_meta(did("c"), 4, Vec::new(), a.clone(), b.clone(), true, true);
    assert_eq!(sam.get_files_extra_info(a.clone()), vec![(3, 0, 4)]);
    // the second slot is governed by the second flag: swap owners to read it
    sam.update_file_meta(did("c"), 4, Vec::new(), a.clone(), b.clone(), true, false);
    sam.update_file_meta(did("c"), 4, Vec::new(), b.clone(), a.clone(), true, true);
    assert_eq!(sam.get_files_extra_info(b), vec![(5, 0, 4)]);
}

#[test]
fn create_account_twice_keeps_second() {
    let mut sam = SamOs::new();
    let a = did("A");
    assert_eq!(sam.create_new_account(a.clone(), 1, did("doc1"), did("root1")), Ok(()));
    assert_eq!(sam.create_new_account(a.clone(), 2, did("doc2"), did("root2")), Ok(()));
    assert_eq!(sam.account_is_auth(a.clone(), 2), (true, did("root2")));
    assert_eq!(sam.account_is_auth(a, 1), (false, Vec::new()));
}

#[test]
fn update_root_index() {
    let mut sam = SamOs::new();
    let a = did("A");
    sam.create_new_account(a.clone(), 5, did("doc"), did("root")).unwrap();
    sam.update_hashtable(did("root2"), a.clone());
    assert_eq!(sam.account_is_auth(a.clone(), 5), (true, did("root2")));
    // unknown identity: nothing happens
    sam.update_hashtable(did("root3"), did("B"));
    assert_eq!(sam.account_is_auth(did("B"), 5), (false, Vec::new()));
}

#[test]
fn revoke_for_non_owner() {
    let mut sam = SamOs::new();
    let a = did("A");
    sam.revoke_access(did("B"), 1, true);
    sam.update_file_meta(did("c"), 1, Vec::new(), did("B"), a.clone(), true, true);
    // B already had an entry (0) and keeps it since its flag is set
    assert_eq!(sam.get_files_extra_info(a), vec![(1, 0, 1)]);
}

#[test]
fn error_is_comparable() {
    let e: Result<(), Error> = Err(Error::NotFound);
    assert_ne!(e, Ok(()));
}
