use mutual_escrow::authority::{is_admin, is_kol_or_admin, is_owner_or_kol};
use mutual_escrow::{
    create_deal, initialize, update_max_claimable_percentage, ErrorCode, Escrow, Identity,
    VestingType,
};

fn key(tag: u8) -> Identity {
    Identity::new([tag; 32])
}

#[test]
fn initialize_sets_admin_and_percentage() {
    assert_eq!(
        initialize(key(9), 20),
        Ok(Escrow { admin: key(9), max_claimable_after_obligation: 20 })
    );
    assert_eq!(
        initialize(key(8), 0),
        Ok(Escrow { admin: key(8), max_claimable_after_obligation: 0 })
    );
    assert_eq!(
        initialize(key(8), 100),
        Ok(Escrow { admin: key(8), max_claimable_after_obligation: 100 })
    );
}

#[test]
fn initialize_refuses_a_percentage_above_one_hundred() {
    assert_eq!(initialize(key(9), 101), Err(ErrorCode::InvalidPercentage));
    assert_eq!(initialize(key(9), 255), Err(ErrorCode::InvalidPercentage));
}

#[test]
fn update_percentage_at_the_boundary() {
    let mut escrow = initialize(key(9), 20).unwrap();
    assert_eq!(
        update_max_claimable_percentage(&mut escrow, &key(9), 101),
        Err(ErrorCode::InvalidPercentage)
    );
    assert_eq!(escrow, Escrow { admin: key(9), max_claimable_after_obligation: 20 });
    assert_eq!(update_max_claimable_percentage(&mut escrow, &key(9), 100), Ok(()));
    assert_eq!(escrow, Escrow { admin: key(9), max_claimable_after_obligation: 100 });
    assert_eq!(update_max_claimable_percentage(&mut escrow, &key(9), 0), Ok(()));
    assert_eq!(escrow.max_claimable_after_obligation, 0);
    assert_eq!(
        update_max_claimable_percentage(&mut escrow, &key(9), 255),
        Err(ErrorCode::InvalidPercentage)
    );
    assert_eq!(escrow.max_claimable_after_obligation, 0);
}

#[test]
fn update_percentage_is_for_the_admin_alone() {
    let mut escrow = initialize(key(9), 20).unwrap();
    assert_eq!(
        update_max_claimable_percentage(&mut escrow, &key(2), 50),
        Err(ErrorCode::UnauthorizedSigner)
    );
    assert_eq!(
        update_max_claimable_percentage(&mut escrow, &key(2), 101),
        Err(ErrorCode::UnauthorizedSigner)
    );
    assert_eq!(escrow.max_claimable_after_obligation, 20);
}

#[test]
fn identities_are_compared_byte_by_byte() {
    let mut bytes = [0u8; 32];
    for (i, b) in bytes.iter_mut().enumerate() {
        *b = i as u8;
    }
    let one = Identity::new(bytes);
    assert!(one.same(&Identity::new(bytes)));
    for i in 0..32 {
        let mut other = bytes;
        other[i] ^= 1;
        assert!(!one.same(&Identity::new(other)));
        assert!(!Identity::new(other).same(&one));
    }
    assert_eq!(one.bytes, bytes);
}

#[test]
fn roles_are_decided_by_identity() {
    let escrow = initialize(key(9), 20).unwrap();
    let deal =
        create_deal([0; 16], key(1), key(2), key(3), 10, VestingType::Time, 5, None, 0).unwrap();
    assert!(is_admin(&key(9), &escrow));
    assert!(!is_admin(&key(2), &escrow));
    assert!(is_kol_or_admin(&key(2), &deal, &escrow));
    assert!(is_kol_or_admin(&key(9), &deal, &escrow));
    assert!(!is_kol_or_admin(&key(1), &deal, &escrow));
    assert!(!is_kol_or_admin(&key(3), &deal, &escrow));
    assert!(is_owner_or_kol(&key(1), &deal));
    assert!(is_owner_or_kol(&key(2), &deal));
    assert!(!is_owner_or_kol(&key(9), &deal));
    assert!(!is_owner_or_kol(&key(3), &deal));
}
