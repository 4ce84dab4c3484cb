use mail_template::compose;
use vec1::Vec1;
use mail_template::{
    BodyPart, EnvelopData, EnvelopFromMailError, HeaderField, HeaderSet, HeaderTypeError, Mail,
    MailParts, MailRequest, MailResponse, Mailbox, Resource, SmtpMailbox,
};

fn mb(local: &str, domain: &str) -> Mailbox {
    Mailbox::new(local.to_string(), domain.to_string())
}

fn list(v: Vec<Mailbox>) -> Vec1<Mailbox> {
    Vec1::try_from_vec(v).unwrap()
}

fn addr(m: &SmtpMailbox) -> String {
    format!("{}@{}", m.local, m.domain)
}

fn addrs(v: &[SmtpMailbox]) -> Vec<String> {
    v.iter().map(addr).collect()
}

fn mail_with(headers: HeaderSet) -> Mail {
    let parts = MailParts::new(
        vec![BodyPart::new(Resource::new(1, "text/plain".to_string(), b"hi".to_vec()), vec![])],
        vec![],
        vec![],
    );
    let body = compose(parts).ok().unwrap();
    Mail::new(headers, body)
}

fn derive(h: HeaderSet) -> Result<(String, Vec<String>), EnvelopFromMailError> {
    EnvelopData::from_mail(&mail_with(h)).map(|e| {
        let (from, to) = e.split();
        (addr(&from), addrs(&to))
    })
}

#[test]
fn sender_wins_over_several_from() {
    let mut h = HeaderSet::new();
    h.sender = Some(Ok(mb("a", "x")));
    h.from = Some(Ok(list(vec![mb("b", "x"), mb("c", "x")])));
    h.to = Some(Ok(list(vec![mb("d", "x")])));
    assert_eq!(derive(h), Ok(("a@x".to_string(), vec!["d@x".to_string()])));
}

#[test]
fn single_from_is_sender() {
    let mut h = HeaderSet::new();
    h.from = Some(Ok(list(vec![mb("b", "x")])));
    h.to = Some(Ok(list(vec![mb("d", "x")])));
    assert_eq!(derive(h), Ok(("b@x".to_string(), vec!["d@x".to_string()])));
}

#[test]
fn several_from_without_sender_is_ambiguous() {
    let mut h = HeaderSet::new();
    h.from = Some(Ok(list(vec![mb("b", "x"), mb("c", "x")])));
    h.to = Some(Ok(list(vec![mb("d", "x")])));
    assert_eq!(derive(h), Err(EnvelopFromMailError::AmbiguousSender));
}

#[test]
fn missing_to_is_missing_recipients() {
    let mut h = HeaderSet::new();
    h.sender = Some(Ok(mb("a", "x")));
    h.from = Some(Ok(list(vec![mb("b", "x")])));
    assert_eq!(derive(h), Err(EnvelopFromMailError::MissingRecipients));
}

#[test]
fn missing_sender_and_from() {
    let mut h = HeaderSet::new();
    h.to = Some(Ok(list(vec![mb("d", "x")])));
    assert_eq!(derive(h), Err(EnvelopFromMailError::MissingSenderAndFrom));
}

#[test]
fn malformed_sender_is_type_error() {
    let mut h = HeaderSet::new();
    h.sender = Some(Err(HeaderTypeError { field: HeaderField::Sender }));
    h.from = Some(Ok(list(vec![mb("b", "x")])));
    h.to = Some(Ok(list(vec![mb("d", "x")])));
    assert_eq!(
        derive(h),
        Err(EnvelopFromMailError::HeaderTypeError(HeaderTypeError { field: HeaderField::Sender }))
    );
}

#[test]
fn malformed_to_is_type_error() {
    let mut h = HeaderSet::new();
    h.sender = Some(Ok(mb("a", "x")));
    h.to = Some(Err(HeaderTypeError { field: HeaderField::To }));
    assert_eq!(
        derive(h),
        Err(EnvelopFromMailError::HeaderTypeError(HeaderTypeError { field: HeaderField::To }))
    );
}

#[test]
fn sender_error_comes_before_recipient_error() {
    let h = HeaderSet::new();
    assert_eq!(derive(h), Err(EnvelopFromMailError::MissingSenderAndFrom));
}

#[test]
fn recipients_keep_order_and_ignore_cc_bcc() {
    let mut h = HeaderSet::new();
    h.sender = Some(Ok(mb("a", "x")));
    h.to = Some(Ok(list(vec![mb("e", "y"), mb("d", "x")])));
    h.cc = Some(Ok(list(vec![mb("cc", "x")])));
    h.bcc = Some(Ok(list(vec![mb("bcc", "x")])));
    assert_eq!(
        derive(h),
        Ok(("a@x".to_string(), vec!["e@y".to_string(), "d@x".to_string()]))
    );
}

#[test]
fn envelope_override_skips_derivation() {
    let h = HeaderSet::new();
    let envelope = EnvelopData::new(
        SmtpMailbox { local: "z".to_string(), domain: "q".to_string() },
        Vec1::try_from_vec(vec![SmtpMailbox { local: "w".to_string(), domain: "q".to_string() }])
            .unwrap(),
    );
    let req = MailRequest::new_with_envelop(mail_with(h), envelope);
    let (_mail, env) = req.into_mail_with_envelop().ok().unwrap();
    let (from, to) = env.split();
    assert_eq!(addr(&from), "z@q");
    assert_eq!(addrs(&to), vec!["w@q".to_string()]);
}

#[test]
fn request_without_override_derives() {
    let mut h = HeaderSet::new();
    h.from = Some(Ok(list(vec![mb("b", "x")])));
    h.to = Some(Ok(list(vec![mb("d", "x")])));
    let (_mail, env) = MailRequest::new(mail_with(h)).into_mail_with_envelop().ok().unwrap();
    let (from, to) = env.split();
    assert_eq!(addr(&from), "b@x");
    assert_eq!(addrs(&to), vec!["d@x".to_string()]);
}

#[test]
fn request_without_override_reports_error() {
    let h = HeaderSet::new();
    let r = MailRequest::new(mail_with(h)).into_mail_with_envelop();
    assert_eq!(r.err(), Some(EnvelopFromMailError::MissingSenderAndFrom));
}

#[test]
fn mail_response_is_unit() {
    assert_eq!(MailResponse, MailResponse);
}

#[test]
fn derived_envelope_counts_its_recipients() {
    let mut h = HeaderSet::new();
    h.sender = Some(Ok(mb("a", "x")));
    h.to = Some(Ok(list(vec![mb("d", "x"), mb("e", "x"), mb("d", "x")])));
    let env = EnvelopData::from_mail(&mail_with(h)).ok().unwrap();
    assert_eq!(env.recipient_count(), 3);
    let (_from, to) = env.split();
    assert_eq!(addrs(&to), vec!["d@x".to_string(), "e@x".to_string(), "d@x".to_string()]);
}
