use mail_template::{CIdError, ContentId, ContentIdRegistry, Resource};

fn res(id: u64) -> Resource {
    Resource::new(id, "image/png".to_string(), vec![id as u8])
}

#[test]
fn shared_registration_is_idempotent() {
    let mut reg = ContentIdRegistry::new();
    let c1 = reg.register_shared(res(7)).unwrap();
    let c2 = reg.register_shared(res(7)).unwrap();
    assert_eq!(c1, c2);
    assert_eq!(reg.len(), 1);
    let embs = reg.into_embeddings();
    assert_eq!(embs.len(), 1);
    assert_eq!(embs[0].cid, c1);
    assert_eq!(embs[0].resource.id, 7);
}

#[test]
fn local_registrations_are_not_deduplicated() {
    let mut reg = ContentIdRegistry::new();
    let s = reg.register_shared(res(7)).unwrap();
    let l1 = reg.register_local(res(7)).unwrap();
    let l2 = reg.register_local(res(7)).unwrap();
    assert_ne!(s, l1);
    assert_ne!(l1, l2);
    assert_ne!(s, l2);
    assert_eq!(reg.len(), 3);
}

#[test]
fn distinct_resources_under_one_cid_fail() {
    let mut reg = ContentIdRegistry::new();
    let cid = ContentId { id: 42 };
    assert_eq!(reg.register_with_cid(res(1), cid, false), Ok(()));
    assert_eq!(reg.register_with_cid(res(2), cid, false), Err(CIdError::DuplicateCId(cid)));
    assert_eq!(reg.len(), 1);
}

#[test]
fn same_resource_under_its_cid_again_is_accepted() {
    let mut reg = ContentIdRegistry::new();
    let cid = ContentId { id: 3 };
    assert_eq!(reg.register_with_cid(res(1), cid, true), Ok(()));
    assert_eq!(reg.register_with_cid(res(1), cid, true), Ok(()));
    assert_eq!(reg.len(), 1);
}

#[test]
fn fresh_cid_avoids_supplied_ones() {
    let mut reg = ContentIdRegistry::new();
    assert_eq!(reg.register_with_cid(res(1), ContentId { id: 0 }, false), Ok(()));
    assert_eq!(reg.register_with_cid(res(2), ContentId { id: 5 }, false), Ok(()));
    let c = reg.register_local(res(3)).unwrap();
    assert_eq!(c, ContentId { id: 6 });
}

#[test]
fn cids_run_out_after_the_largest() {
    let mut reg = ContentIdRegistry::new();
    let top = ContentId { id: u64::MAX };
    assert_eq!(reg.register_with_cid(res(1), top, false), Ok(()));
    assert_eq!(reg.register_local(res(2)), Err(CIdError::ExhaustedCIds));
    assert_eq!(reg.register_shared(res(2)), Err(CIdError::ExhaustedCIds));
    assert_eq!(reg.len(), 1);
}
