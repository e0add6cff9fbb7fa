use icp_buyer_seller_contract_backend::repositories::types::uuid::Uuid;
use icp_buyer_seller_contract_backend::repositories::{
    ApiError, Contract, ErrorKind, Identity, Role, User,
};

fn identity(bytes: &[u8]) -> Identity {
    Identity::from_slice(bytes).unwrap()
}

#[test]
fn identity_keeps_its_bytes() {
    let id = identity(&[1, 2, 3]);
    assert_eq!(id.as_slice(), &[1, 2, 3]);
    assert!(!id.is_anonymous());
}

#[test]
fn identity_of_29_bytes_is_accepted() {
    let bytes = [7u8; 29];
    assert_eq!(identity(&bytes).as_slice(), &bytes[..]);
}

#[test]
fn identity_of_30_bytes_is_refused() {
    assert!(Identity::from_slice(&[7u8; 30]).is_none());
}

#[test]
fn empty_identity_is_accepted() {
    let id = identity(&[]);
    assert_eq!(id.as_slice().len(), 0);
    assert!(!id.is_anonymous());
}

#[test]
fn anonymous_identity_is_the_byte_four() {
    let anonymous = Identity::anonymous();
    assert_eq!(anonymous.as_slice(), &[4]);
    assert!(anonymous.is_anonymous());
    assert!(identity(&[4]).is_anonymous());
    assert!(!identity(&[4, 0]).is_anonymous());
    assert!(!identity(&[5]).is_anonymous());
}

#[test]
fn anonymous_identity_matches_candid() {
    assert_eq!(Identity::anonymous().as_slice(), candid::Principal::anonymous().as_slice());
}

#[test]
fn identity_text_is_the_principal_text() {
    assert_eq!(Identity::anonymous().to_text(), "2vxsx-fae");
    assert_eq!(identity(&[]).to_text(), "aaaaa-aa");
    let bytes = [0xef, 0xcd, 0xab, 0, 0, 0, 0, 0, 1];
    assert_eq!(identity(&bytes).to_text(), "2chl6-4hpzw-vqaaa-aaaaa-c");
    assert_eq!(identity(&bytes).to_text(), candid::Principal::from_slice(&bytes).to_text());
}

#[test]
fn identities_compare_by_bytes() {
    assert!(identity(&[1, 2]).same_as(&identity(&[1, 2])));
    assert!(!identity(&[1, 2]).same_as(&identity(&[1, 3])));
    assert!(!identity(&[1, 2]).same_as(&identity(&[1, 2, 0])));
    assert!(!identity(&[1, 2]).same_as(&identity(&[1])));
    assert!(identity(&[]).same_as(&identity(&[])));
    assert_eq!(identity(&[9, 9]), identity(&[9, 9]));
    assert_ne!(identity(&[9, 9]), identity(&[9, 8]));
}

#[test]
fn identity_clone_is_the_same() {
    let id = identity(&[3, 1, 4, 1, 5]);
    assert_eq!(id.clone(), id);
}

#[test]
fn uuid_text_of_zero() {
    assert_eq!(Uuid::from_u128(0).to_text(), "00000000-0000-0000-0000-000000000000");
}

#[test]
fn uuid_text_of_one() {
    assert_eq!(Uuid::from_u128(1).to_text(), "00000000-0000-0000-0000-000000000001");
}

#[test]
fn uuid_text_of_max() {
    assert_eq!(Uuid::from_u128(u128::MAX).to_text(), "ffffffff-ffff-ffff-ffff-ffffffffffff");
}

#[test]
fn uuid_text_has_the_highest_digit_first() {
    let id = Uuid::from_u128(0x0123_4567_89ab_cdef_0011_2233_4455_6677);
    assert_eq!(id.to_text(), "01234567-89ab-cdef-0011-223344556677");
}

#[test]
fn uuid_parse_reads_what_text_writes() {
    for value in [0u128, 1, 15, 16, 255, 1 << 64, u128::MAX - 1, u128::MAX, 0xdead_beef] {
        let id = Uuid::from_u128(value);
        assert_eq!(Uuid::parse(&id.to_text()), Ok(id));
    }
}

#[test]
fn uuid_parse_reads_an_exact_value() {
    let id = Uuid::parse("01234567-89ab-cdef-0011-223344556677").unwrap();
    assert_eq!(id.as_u128(), 0x0123_4567_89ab_cdef_0011_2233_4455_6677);
}

#[test]
fn uuid_parse_takes_upper_case() {
    let id = Uuid::parse("ABCDEF01-89AB-CdEf-0011-2233445566fF").unwrap();
    assert_eq!(id.as_u128(), 0xabcd_ef01_89ab_cdef_0011_2233_4455_66ff);
}

#[test]
fn uuid_try_from_reads_as_parse_does() {
    let text = "01234567-89ab-cdef-0011-223344556677";
    assert_eq!(Uuid::try_from(text), Uuid::parse(text));
    assert_eq!(Uuid::try_from(text).unwrap().as_u128(), 0x0123_4567_89ab_cdef_0011_2233_4455_6677);
    assert_eq!(Uuid::try_from("0123").unwrap_err().kind(), ErrorKind::InvalidArgument);
}

fn assert_malformed(text: &str) {
    let error = Uuid::parse(text).unwrap_err();
    assert_eq!(error.kind(), ErrorKind::InvalidArgument);
    assert_eq!(error.message(), "Malformed contract id");
}

#[test]
fn uuid_parse_refuses_malformed_text() {
    assert_malformed("");
    assert_malformed("not-a-uuid");
    assert_malformed("0123456789abcdef00112233445566778");
    assert_malformed("0123456789abcdef0011223344556677");
    assert_malformed("01234567-89ab-cdef-0011-22334455667");
    assert_malformed("01234567-89ab-cdef-0011-2233445566777");
    assert_malformed("01234567+89ab-cdef-0011-223344556677");
    assert_malformed("01234567-89ab+cdef-0011-223344556677");
    assert_malformed("01234567-89ab-cdef+0011-223344556677");
    assert_malformed("01234567-89ab-cdef-0011+223344556677");
    assert_malformed("0123456--89ab-cdef-0011-223344556677");
    assert_malformed("g1234567-89ab-cdef-0011-223344556677");
    assert_malformed("01234567-89ab-cdef-0011-22334455667g");
    assert_malformed("01234567-89ab-cdef-0011-22334455667\u{e9}");
    assert_malformed(" 1234567-89ab-cdef-0011-223344556677");
}

#[test]
fn user_roles() {
    let admin = User::new(Role::Admin);
    assert!(admin.is_admin());
    assert!(!admin.is_frontend_server());
    let frontend = User::new(Role::FrontendServer);
    assert!(!frontend.is_admin());
    assert!(frontend.is_frontend_server());
    assert_eq!(admin.role, Role::Admin);
}

#[test]
fn role_tags_round_trip() {
    assert_eq!(Role::Admin.to_tag(), 0);
    assert_eq!(Role::FrontendServer.to_tag(), 1);
    assert_eq!(Role::from_tag(0), Some(Role::Admin));
    assert_eq!(Role::from_tag(1), Some(Role::FrontendServer));
    assert_eq!(Role::from_tag(2), None);
    assert_eq!(Role::from_tag(255), None);
}

#[test]
fn new_contract_is_unsigned_and_unpaid() {
    let contract =
        Contract::new("{\"price\":1}".to_string(), identity(&[1]), identity(&[2]), 77);
    assert_eq!(contract.signatories.buyer, (identity(&[1]), false));
    assert_eq!(contract.signatories.seller, (identity(&[2]), false));
    assert_eq!(contract.contract_json, "{\"price\":1}");
    assert_eq!(contract.created_at, 77);
    assert!(!contract.issued_payment);
    assert!(!contract.is_signed());
    assert!(!contract.issued_payment());
    assert_eq!(contract.clone(), contract);
}

#[test]
fn contract_is_signed_needs_both_flags() {
    let mut contract = Contract::new(String::new(), identity(&[1]), identity(&[2]), 0);
    contract.signatories.buyer.1 = true;
    assert!(!contract.is_signed());
    contract.signatories.seller.1 = true;
    assert!(contract.is_signed());
    contract.signatories.buyer.1 = false;
    assert!(!contract.is_signed());
}

#[test]
fn errors_carry_kind_and_message() {
    let cases = [
        (ApiError::unauthenticated(), ErrorKind::Unauthenticated, "Anonymous principals are not allowed"),
        (ApiError::not_found("a"), ErrorKind::NotFound, "a"),
        (ApiError::conflict("b"), ErrorKind::Conflict, "b"),
        (ApiError::permission_denied("c"), ErrorKind::PermissionDenied, "c"),
        (ApiError::invalid_argument("d"), ErrorKind::InvalidArgument, "d"),
        (ApiError::failed_precondition("e"), ErrorKind::FailedPrecondition, "e"),
        (ApiError::internal("f"), ErrorKind::Internal, "f"),
        (ApiError::new(ErrorKind::Conflict, "g"), ErrorKind::Conflict, "g"),
    ];
    for (error, kind, message) in cases {
        assert_eq!(error.kind(), kind);
        assert_eq!(error.message(), message);
        assert_eq!(error.kind, kind);
        assert_eq!(error.message, message);
    }
}
