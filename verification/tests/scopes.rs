use elefren::scopes::{Read, Scope, Scopes, Write};

#[test]
fn test_write_cmp() {
    let tests = [
        (Write::Accounts, Write::Blocks),
        (Write::Blocks, Write::Favourites),
        (Write::Favourites, Write::Filters),
        (Write::Filters, Write::Follows),
        (Write::Follows, Write::Lists),
        (Write::Lists, Write::Media),
        (Write::Media, Write::Mutes),
        (Write::Mutes, Write::Notifications),
        (Write::Notifications, Write::Reports),
        (Write::Reports, Write::Statuses),
    ];

    for (a, b) in &tests {
        assert!(a < b);
        assert!(b > a);
    }
}

#[test]
fn test_read_cmp() {
    let tests = [
        (Read::Accounts, Read::Blocks),
        (Read::Blocks, Read::Favourites),
        (Read::Favourites, Read::Filters),
        (Read::Filters, Read::Follows),
        (Read::Follows, Read::Lists),
        (Read::Lists, Read::Mutes),
        (Read::Mutes, Read::Notifications),
        (Read::Notifications, Read::Reports),
        (Read::Reports, Read::Search),
        (Read::Search, Read::Statuses),
    ];
    for (a, b) in &tests {
        assert!(a < b);
        assert!(b > a);
    }
}

#[test]
fn test_scope_cmp() {
    let tests = [
        (Scope::Read(None), Scope::Read(Some(Read::Accounts))),
        (Scope::Read(None), Scope::Read(Some(Read::Blocks))),
        (Scope::Read(None), Scope::Read(Some(Read::Favourites))),
        (Scope::Read(None), Scope::Read(Some(Read::Filters))),
        (Scope::Read(None), Scope::Read(Some(Read::Follows))),
        (Scope::Read(None), Scope::Read(Some(Read::Lists))),
        (Scope::Read(None), Scope::Read(Some(Read::Mutes))),
        (Scope::Read(None), Scope::Read(Some(Read::Notifications))),
        (Scope::Read(None), Scope::Read(Some(Read::Reports))),
        (Scope::Read(None), Scope::Read(Some(Read::Search))),
        (Scope::Read(None), Scope::Read(Some(Read::Statuses))),
        (Scope::Read(Some(Read::Statuses)), Scope::Write(None)),
        (Scope::Read(Some(Read::Mutes)), Scope::Follow),
        (Scope::Read(None), Scope::Push),
        (Scope::Write(None), Scope::Write(Some(Write::Accounts))),
        (Scope::Write(None), Scope::Write(Some(Write::Blocks))),
        (Scope::Write(None), Scope::Write(Some(Write::Favourites))),
        (Scope::Write(None), Scope::Write(Some(Write::Filters))),
        (Scope::Write(None), Scope::Write(Some(Write::Follows))),
        (Scope::Write(None), Scope::Write(Some(Write::Lists))),
        (Scope::Write(None), Scope::Write(Some(Write::Media))),
        (Scope::Write(None), Scope::Write(Some(Write::Mutes))),
        (Scope::Write(None), Scope::Write(Some(Write::Notifications))),
        (Scope::Write(None), Scope::Write(Some(Write::Reports))),
        (Scope::Write(None), Scope::Write(Some(Write::Statuses))),
        (Scope::Write(Some(Write::Statuses)), Scope::Follow),
        (Scope::Write(Some(Write::Follows)), Scope::Push),
    ];

    for (a, b) in &tests {
        assert!(a < b);
    }
}

#[test]
fn test_scope_display() {
    let values = [
        Scope::Read(None),
        Scope::Read(Some(Read::Accounts)),
        Scope::Read(Some(Read::Blocks)),
        Scope::Read(Some(Read::Favourites)),
        Scope::Read(Some(Read::Filters)),
        Scope::Read(Some(Read::Follows)),
        Scope::Read(Some(Read::Lists)),
        Scope::Read(Some(Read::Mutes)),
        Scope::Read(Some(Read::Notifications)),
        Scope::Read(Some(Read::Reports)),
        Scope::Read(Some(Read::Search)),
        Scope::Read(Some(Read::Statuses)),
        Scope::Write(None),
        Scope::Write(Some(Write::Accounts)),
        Scope::Write(Some(Write::Blocks)),
        Scope::Write(Some(Write::Favourites)),
        Scope::Write(Some(Write::Filters)),
        Scope::Write(Some(Write::Follows)),
        Scope::Write(Some(Write::Lists)),
        Scope::Write(Some(Write::Media)),
        Scope::Write(Some(Write::Mutes)),
        Scope::Write(Some(Write::Notifications)),
        Scope::Write(Some(Write::Reports)),
        Scope::Write(Some(Write::Statuses)),
        Scope::Follow,
        Scope::Push,
    ];

    let expecteds = [
        "read".to_string(),
        "read:accounts".to_string(),
        "read:blocks".to_string(),
        "read:favourites".to_string(),
        "read:filters".to_string(),
        "read:follows".to_string(),
        "read:lists".to_string(),
        "read:mutes".to_string(),
        "read:notifications".to_string(),
        "read:reports".to_string(),
        "read:search".to_string(),
        "read:statuses".to_string(),
        "write".to_string(),
        "write:accounts".to_string(),
        "write:blocks".to_string(),
        "write:favourites".to_string(),
        "write:filters".to_string(),
        "write:follows".to_string(),
        "write:lists".to_string(),
        "write:media".to_string(),
        "write:mutes".to_string(),
        "write:notifications".to_string(),
        "write:reports".to_string(),
        "write:statuses".to_string(),
        "follow".to_string(),
        "push".to_string(),
    ];

    let tests = values.iter().zip(expecteds.iter());

    for (value, expected) in tests {
        let result = value.to_string();
        assert_eq!(&result, expected);
    }
}

#[test]
fn test_scopes_default() {
    let default: Scope = Default::default();
    assert_eq!(default, Scope::Read(None));
}

#[test]
fn test_scopes_display() {
    let tests = [
        (
            Scopes::read(Read::Accounts) | Scopes::follow(),
            "read:accounts follow",
        ),
        (
            Scopes::read(Read::Follows) | Scopes::read(Read::Accounts) | Scopes::write_all(),
            "read:accounts read:follows write",
        ),
    ];

    for (a, b) in &tests {
        assert_eq!(&a.to_string(), b);
    }
}

#[test]
fn test_scopes_constructors_display() {
    assert_eq!(Scopes::all().to_string(), "read write follow push");
    assert_eq!(Scopes::read_all().to_string(), "read");
    assert_eq!(Scopes::read(Read::Accounts).to_string(), "read:accounts");
    assert_eq!(Scopes::write_all().to_string(), "write");
    assert_eq!(Scopes::write(Write::Accounts).to_string(), "write:accounts");
    assert_eq!(Scopes::follow().to_string(), "follow");
    assert_eq!(Scopes::push().to_string(), "push");
    assert_eq!(Scopes::default().to_string(), "read");
    assert_eq!(Scopes::new(Scope::Write(Some(Write::Media))).to_string(), "write:media");
}

#[test]
fn test_scopes_and_is_union() {
    let a = Scopes::read_all().and(Scopes::write(Write::Notifications)).and(Scopes::follow());
    assert_eq!(a.to_string(), "read write:notifications follow");
    assert!(a.contains(Scope::Follow));
    assert!(a.contains(Scope::Write(Some(Write::Notifications))));
    assert!(!a.contains(Scope::Write(None)));
    assert!(!a.contains(Scope::Push));
    let b = Scopes::follow() | Scopes::push();
    assert_eq!(b.to_string(), "follow push");
    // the union does not depend on the order, and taking a set twice adds nothing
    assert!(Scopes::follow().and(Scopes::push()) == Scopes::push().and(Scopes::follow()));
    assert!(b.clone().and(b.clone()) == b);
    assert!(Scopes::follow() != Scopes::push());
}

#[test]
fn test_scope_rank_round_trip() {
    for rank in 0u8..26 {
        let scope = elefren::scopes::scope_from_rank(rank).expect("no scope");
        assert_eq!(scope.rank(), rank);
    }
    assert_eq!(elefren::scopes::scope_from_rank(26), None);
    assert_eq!(elefren::scopes::scope_from_rank(255), None);
    assert_eq!(Scope::Follow.cmp(&Scope::Push), std::cmp::Ordering::Less);
    assert_eq!(Scope::Push.cmp(&Scope::Push), std::cmp::Ordering::Equal);
    assert_eq!(Scope::Push.cmp(&Scope::Read(None)), std::cmp::Ordering::Greater);
}

#[test]
fn test_scopes_serialize() {
    let tests = [
        (
            Scopes::read_all() | Scopes::write(Write::Notifications) | Scopes::follow(),
            "read write:notifications follow",
        ),
        (Scopes::follow() | Scopes::push(), "follow push"),
    ];

    for (a, b) in &tests {
        let ser = serde_json::to_string(&a.to_string()).expect("Couldn't serialize Scopes");
        let expected = format!("\"{}\"", b);
        assert_eq!(&ser, &expected);
    }
}
