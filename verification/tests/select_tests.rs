use upgrade_select::either::{EitherError, EitherFuture, EitherOutput};
use upgrade_select::protocol::{contains_identifier, copy_identifier, copy_identifiers, identifier_eq};
use upgrade_select::ready::{ReadyFuture, ReadyUpgrade};
use upgrade_select::select::SelectUpgrade;
use upgrade_select::upgrade::{HandshakeFuture, InboundUpgrade, OutboundUpgrade, UpgradeInfo};

fn ready_ok(protocols: Vec<Vec<u8>>, value: u32) -> ReadyUpgrade<u32, u32> {
    ReadyUpgrade::new(protocols, Ok(value))
}

fn ready_err(protocols: Vec<Vec<u8>>, error: u32) -> ReadyUpgrade<u32, u32> {
    ReadyUpgrade::new(protocols, Err(error))
}

#[test]
fn advertise_concatenation() {
    let a = ready_ok(vec![b"/a/1".to_vec(), b"/a/2".to_vec()], 1);
    let b = ready_ok(vec![b"/b/1".to_vec()], 2);
    let selector = SelectUpgrade::new(a, b);
    let advertised = selector.protocol_info();
    assert_eq!(
        advertised,
        vec![b"/a/1".to_vec(), b"/a/2".to_vec(), b"/b/1".to_vec()]
    );
}

#[test]
fn advertise_keeps_duplicates() {
    let a = ready_ok(vec![b"/x".to_vec()], 1);
    let b = ready_ok(vec![b"/x".to_vec()], 2);
    let selector = SelectUpgrade::new(a, b);
    let advertised = selector.protocol_info();
    assert_eq!(advertised, vec![b"/x".to_vec(), b"/x".to_vec()]);
}

#[test]
fn advertise_restartable() {
    let a = ready_ok(vec![b"/a/1".to_vec(), b"/a/2".to_vec()], 1);
    let b = ready_ok(vec![b"/b/1".to_vec()], 2);
    let selector = SelectUpgrade::new(a, b);
    let first_call = selector.protocol_info();
    let second_call = selector.protocol_info();
    assert_eq!(first_call, second_call);
    assert_eq!(first_call.len(), 3);
}

#[test]
fn dispatch_prefers_primary_on_duplicate() {
    let a = ready_ok(vec![b"/x".to_vec()], 11);
    let b = ready_ok(vec![b"/x".to_vec()], 22);
    let selector = SelectUpgrade::new(a, b);
    let fut = selector.upgrade_inbound("socket", b"/x".to_vec());
    assert!(fut.is_first());
    let outcome = fut.complete();
    assert_eq!(outcome, Ok(EitherOutput::First(11)));
}

#[test]
fn dispatch_prefers_primary_on_duplicate_outbound() {
    let a = ready_ok(vec![b"/x".to_vec()], 11);
    let b = ready_ok(vec![b"/x".to_vec()], 22);
    let selector = SelectUpgrade::new(a, b);
    let fut = selector.upgrade_outbound("socket", b"/x".to_vec());
    assert!(fut.is_first());
    let outcome = fut.complete();
    assert_eq!(outcome, Ok(EitherOutput::First(11)));
}

#[test]
fn dispatch_forwards_to_secondary() {
    let a = ready_ok(vec![b"/a/1".to_vec()], 11);
    let b = ready_ok(vec![b"/b/1".to_vec()], 22);
    let selector = SelectUpgrade::new(a, b);
    let fut = selector.upgrade_inbound("socket", b"/b/1".to_vec());
    match &fut {
        EitherFuture::Second(ReadyFuture { sock, info, outcome }) => {
            assert_eq!(*sock, "socket");
            assert_eq!(info, &b"/b/1".to_vec());
            assert_eq!(*outcome, Ok(22));
        }
        EitherFuture::First(_) => panic!("dispatched to the primary"),
    }
    let outcome = fut.complete();
    assert_eq!(outcome, Ok(EitherOutput::Second(22)));
}

#[test]
fn dispatch_forwards_to_secondary_outbound() {
    let a = ready_ok(vec![b"/a/1".to_vec()], 11);
    let b = ready_ok(vec![b"/b/1".to_vec()], 22);
    let selector = SelectUpgrade::new(a, b);
    let fut = selector.upgrade_outbound("socket", b"/b/1".to_vec());
    match &fut {
        EitherFuture::Second(ReadyFuture { sock, info, outcome }) => {
            assert_eq!(*sock, "socket");
            assert_eq!(info, &b"/b/1".to_vec());
            assert_eq!(*outcome, Ok(22));
        }
        EitherFuture::First(_) => panic!("dispatched to the primary"),
    }
    let outcome = fut.complete();
    assert_eq!(outcome, Ok(EitherOutput::Second(22)));
}

#[test]
fn dispatch_forwards_to_primary_with_original_arguments() {
    let a = ready_ok(vec![b"/a/1".to_vec()], 11);
    let b = ready_ok(vec![b"/b/1".to_vec()], 22);
    let selector = SelectUpgrade::new(a, b);
    let fut = selector.upgrade_inbound("socket", b"/a/1".to_vec());
    match &fut {
        EitherFuture::First(ReadyFuture { sock, info, outcome }) => {
            assert_eq!(*sock, "socket");
            assert_eq!(info, &b"/a/1".to_vec());
            assert_eq!(*outcome, Ok(11));
        }
        EitherFuture::Second(_) => panic!("dispatched to the secondary"),
    }
}

#[test]
fn primary_failure_keeps_first_tag() {
    let a = ready_err(vec![b"/a/1".to_vec()], 41);
    let b = ready_ok(vec![b"/b/1".to_vec()], 22);
    let selector = SelectUpgrade::new(a, b);
    let fut = selector.upgrade_inbound("socket", b"/a/1".to_vec());
    assert!(fut.is_first());
    let outcome = fut.complete();
    assert_eq!(outcome, Err(EitherError::First(41)));
}

#[test]
fn secondary_failure_keeps_second_tag() {
    let a = ready_ok(vec![b"/a/1".to_vec()], 11);
    let b = ready_err(vec![b"/b/1".to_vec()], 42);
    let selector = SelectUpgrade::new(a, b);
    let fut = selector.upgrade_outbound("socket", b"/b/1".to_vec());
    match &fut {
        EitherFuture::Second(_) => {}
        EitherFuture::First(_) => panic!("dispatched to the primary"),
    }
    let outcome = fut.complete();
    assert_eq!(outcome, Err(EitherError::Second(42)));
    match outcome {
        Err(error) => {
            assert!(!error.is_first());
            assert_eq!(error.into_inner(), 42);
        }
        Ok(_) => panic!("handshake succeeded"),
    }
}

#[test]
fn error_into_inner_erases_the_tag() {
    let first: EitherError<u32, u32> = EitherError::First(5);
    let second: EitherError<u32, u32> = EitherError::Second(6);
    assert!(first.is_first());
    assert!(!second.is_first());
    assert_eq!(first.into_inner(), 5);
    assert_eq!(second.into_inner(), 6);
}

#[test]
fn output_is_first_reports_the_tag() {
    let first: EitherOutput<u32, u32> = EitherOutput::First(1);
    let second: EitherOutput<u32, u32> = EitherOutput::Second(2);
    assert!(first.is_first());
    assert!(!second.is_first());
}

#[test]
fn nested_selectors_dispatch_rightmost() {
    let a = ready_ok(vec![b"/a".to_vec()], 11);
    let b = ready_ok(vec![b"/b".to_vec()], 22);
    let c = ready_ok(vec![b"/c".to_vec()], 33);
    let inner = SelectUpgrade::new(b, c);
    let outer = SelectUpgrade::new(a, inner);
    let advertised = outer.protocol_info();
    assert_eq!(
        advertised,
        vec![b"/a".to_vec(), b"/b".to_vec(), b"/c".to_vec()]
    );
    let fut = outer.upgrade_inbound("socket", b"/c".to_vec());
    let outcome = fut.complete();
    assert_eq!(
        outcome,
        Ok(EitherOutput::Second(EitherOutput::Second(33)))
    );
}

#[test]
fn ready_upgrade_resolves_to_its_outcome() {
    let handler = ready_ok(vec![b"/a".to_vec()], 7);
    assert_eq!(handler.protocol_info(), vec![b"/a".to_vec()]);
    let fut = handler.upgrade_inbound("socket", b"/a".to_vec());
    assert_eq!(fut.sock, "socket");
    assert_eq!(fut.info, b"/a".to_vec());
    assert_eq!(fut.complete(), Ok(7));
}

#[test]
fn identifier_eq_is_exact_byte_equality() {
    assert!(identifier_eq(&b"/x".to_vec(), &b"/x".to_vec()));
    assert!(!identifier_eq(&b"/x".to_vec(), &b"/y".to_vec()));
    assert!(!identifier_eq(&b"/x".to_vec(), &b"/x/y".to_vec()));
    assert!(identifier_eq(&Vec::new(), &Vec::new()));
    assert!(!identifier_eq(&Vec::new(), &b"/x".to_vec()));
}

#[test]
fn contains_identifier_is_membership() {
    let protocols = vec![b"/a".to_vec(), b"/b".to_vec()];
    assert!(contains_identifier(&protocols, &b"/a".to_vec()));
    assert!(contains_identifier(&protocols, &b"/b".to_vec()));
    assert!(!contains_identifier(&protocols, &b"/c".to_vec()));
    assert!(!contains_identifier(&Vec::new(), &b"/a".to_vec()));
}

#[test]
fn copies_preserve_bytes_and_order() {
    let identifier = b"/proto/1.0.0".to_vec();
    assert_eq!(copy_identifier(&identifier), identifier);
    let protocols = vec![b"/a".to_vec(), Vec::new(), b"/c".to_vec()];
    assert_eq!(copy_identifiers(&protocols), protocols);
}
