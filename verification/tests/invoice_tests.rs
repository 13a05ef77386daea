use mostro_cli::invoice::classify_invoice;
use mostro_cli::invoice::InvoiceClass;
use mostro_cli::invoice::InvoiceError;

// A structurally valid payment request on the main network, taken from the
// protocol's published test vectors.
const REQUEST: &str = "lnbc100p1psj9jhxdqud3jxktt5w46x7unfv9kz6mn0v3jsnp4q0d3p2sfluzdx45tqcsh2pu5qc7lgq0xs578ngs6s0s68ua4h7cvspp5q6rmq35js88zp5dvwrv9m459tnk2zunwj5jalqtyxqulh0l5gflssp5nf55ny5gcrfl30xuhzj3nphgj27rstekmr9fw3ny5989s300gyus9qyysgqcqpcrzjqw2sxwe993h5pcm4dxzpvttgza8zhkqxpgffcrf5v25nwpr3cmfg7z54kuqq8rgqqqqqqqq2qqqqq9qq9qrzjqd0ylaqclj9424x9m8h2vcukcgnm6s56xfgu3j78zyqzhgs4hlpzvznlugqq9vsqqqqqqqlgqqqqqeqq9qrzjqwldmj9dha74df76zhx6l9we0vjdquygcdt3kssupehe64g6yyp5yz5rhuqqwccqqyqqqqlgqqqqjcqq9qrzjqf9e58aguqr0rcun0ajlvmzq3ek63cw2w282gv3z5uupmuwvgjtq2z55qsqqg6qqqyqqqrtnqqqzq3cqygrzjqvphmsywntrrhqjcraumvc4y6r8v4z5v593trte429v4hredj7ms5z52usqq9ngqqqqqqqlgqqqqqqgq9qrzjq2v0vp62g49p7569ev48cmulecsxe59lvaw3wlxm7r982zxa9zzj7z5l0cqqxusqqyqqqqlgqqqqqzsqygarl9fh38s0gyuxjjgux34w75dnc6xp2l35j7es3jd4ugt3lu0xzre26yg5m7ke54n2d5sym4xcmxtl8238xxvw5h5h5j5r6drg6k6zcqj0fcwg";

#[test]
fn address_shaped_input_is_a_payment_address() {
    match classify_invoice("user@example.com") {
        Ok(InvoiceClass::PaymentAddress(a)) => assert_eq!(a, "user@example.com"),
        _ => panic!("expected a payment address"),
    }
}

#[test]
fn valid_request_is_reserialized_canonically() {
    match classify_invoice(REQUEST) {
        Ok(InvoiceClass::PaymentRequest(c)) => assert_eq!(c, REQUEST),
        _ => panic!("expected a payment request"),
    }
}

#[test]
fn uppercase_request_is_lowered_to_canonical_form() {
    // The encoding is case-insensitive; the canonical re-serialization is
    // lower case, so here the classifier must not echo its input.
    let upper = REQUEST.to_uppercase();
    match classify_invoice(&upper) {
        Ok(InvoiceClass::PaymentRequest(c)) => {
            assert_ne!(c, upper);
            assert_eq!(c, REQUEST);
        }
        _ => panic!("expected a payment request"),
    }
}

#[test]
fn garbage_is_rejected_with_a_diagnostic() {
    match classify_invoice("not-an-invoice") {
        Err(InvoiceError::InvalidFormat(diag)) => assert!(!diag.is_empty()),
        _ => panic!("expected the input to be rejected"),
    }
}

#[test]
fn truncated_request_is_rejected() {
    match classify_invoice(&REQUEST[..40]) {
        Err(InvoiceError::InvalidFormat(_)) => {}
        _ => panic!("expected the input to be rejected"),
    }
}
