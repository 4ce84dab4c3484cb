use mail_template::{
    compose, Attachment, BodyPart, CompositionError, ContentId, EmbeddingWithCId, MailBody,
    MailParts, Resource,
};

fn res(id: u64) -> Resource {
    Resource::new(id, "text/plain".to_string(), vec![])
}

fn emb(id: u64, cid: u64) -> EmbeddingWithCId {
    EmbeddingWithCId::new(res(id), ContentId { id: cid })
}

fn single_id(b: &MailBody) -> u64 {
    match b {
        MailBody::Single(r) => r.id,
        _ => panic!("not a single part"),
    }
}

#[test]
fn empty_alternatives_fail() {
    let parts = MailParts::new(vec![], vec![emb(9, 1)], vec![]);
    assert_eq!(compose(parts).err(), Some(CompositionError::EmptyAlternatives));
}

#[test]
fn single_alternative_collapses_fully() {
    let parts = MailParts::new(vec![BodyPart::new(res(1), vec![])], vec![], vec![]);
    let body = compose(parts).ok().unwrap();
    assert_eq!(single_id(&body), 1);
}

#[test]
fn alternatives_keep_their_order() {
    let parts = MailParts::new(
        vec![
            BodyPart::new(res(3), vec![]),
            BodyPart::new(res(1), vec![emb(10, 100)]),
            BodyPart::new(res(2), vec![]),
        ],
        vec![],
        vec![],
    );
    match compose(parts).ok().unwrap() {
        MailBody::Alternative(nodes) => {
            assert_eq!(nodes.len(), 3);
            assert_eq!(single_id(&nodes[0]), 3);
            match &nodes[1] {
                MailBody::Related(inner, embs) => {
                    assert_eq!(single_id(inner), 1);
                    assert_eq!(embs.len(), 1);
                    assert_eq!(embs[0].cid, ContentId { id: 100 });
                }
                _ => panic!("expected a related node"),
            }
            assert_eq!(single_id(&nodes[2]), 2);
        }
        _ => panic!("expected an alternative node"),
    }
}

#[test]
fn one_alternative_one_shared_one_attachment() {
    let parts = MailParts::new(
        vec![BodyPart::new(res(1), vec![])],
        vec![emb(2, 20)],
        vec![Attachment::new(res(3), Some("a.txt".to_string()))],
    );
    match compose(parts).ok().unwrap() {
        MailBody::Mixed(inner, atts) => {
            assert_eq!(atts.len(), 1);
            assert_eq!(atts[0].resource.id, 3);
            assert_eq!(atts[0].file_name, Some("a.txt".to_string()));
            match *inner {
                MailBody::Related(leaf, embs) => {
                    assert_eq!(single_id(&leaf), 1);
                    assert_eq!(embs.len(), 1);
                    assert_eq!(embs[0].resource.id, 2);
                    assert_eq!(embs[0].cid, ContentId { id: 20 });
                }
                _ => panic!("expected a related node"),
            }
        }
        _ => panic!("expected a mixed node"),
    }
}

#[test]
fn attachments_only_add_mixed_layer() {
    let parts = MailParts::new(
        vec![BodyPart::new(res(1), vec![]), BodyPart::new(res(2), vec![])],
        vec![],
        vec![Attachment::new(res(3), None)],
    );
    match compose(parts).ok().unwrap() {
        MailBody::Mixed(inner, atts) => {
            assert_eq!(atts.len(), 1);
            match *inner {
                MailBody::Alternative(nodes) => assert_eq!(nodes.len(), 2),
                _ => panic!("expected an alternative node"),
            }
        }
        _ => panic!("expected a mixed node"),
    }
}

#[test]
fn local_embeddings_wrap_the_single_alternative() {
    let parts = MailParts::new(vec![BodyPart::new(res(1), vec![emb(4, 40), emb(5, 50)])], vec![], vec![]);
    match compose(parts).ok().unwrap() {
        MailBody::Related(inner, embs) => {
            assert_eq!(single_id(&inner), 1);
            assert_eq!(embs.len(), 2);
            assert_eq!(embs[1].resource.id, 5);
        }
        _ => panic!("expected a related node"),
    }
}
