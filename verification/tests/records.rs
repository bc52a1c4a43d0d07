use registry_deps::dependency::{
    add_dependencies, Dependency, EncodableDependency, NewDependency, ReverseDependency,
    ReverseRow, Row,
};
use registry_deps::error::DataCorruption;
use registry_deps::git;
use registry_deps::kind::Kind;
use registry_deps::krate::Crate;
use registry_deps::req::VersionReq;
use registry_deps::upload::CrateDependency;

fn row(kind: i32, req: &str) -> Row {
    Row {
        id: 100,
        version_id: 42,
        crate_id: 7,
        req: req.to_string(),
        optional: true,
        default_features: false,
        features: vec!["derive".to_string()],
        target: Some("cfg(windows)".to_string()),
        kind,
    }
}

fn store(new: &NewDependency, id: i32) -> Row {
    Row {
        id,
        version_id: new.version_id,
        crate_id: new.crate_id,
        req: new.req.clone(),
        optional: new.optional,
        default_features: new.default_features,
        features: new.features.clone(),
        target: new.target.clone(),
        kind: new.kind,
    }
}

#[test]
fn kind_codes() {
    assert_eq!(Kind::Normal.code(), 0);
    assert_eq!(Kind::Build.code(), 1);
    assert_eq!(Kind::Dev.code(), 2);
    assert_eq!(Kind::from_code(0), Some(Kind::Normal));
    assert_eq!(Kind::from_code(1), Some(Kind::Build));
    assert_eq!(Kind::from_code(2), Some(Kind::Dev));
    assert_eq!(Kind::from_code(3), None);
    assert_eq!(Kind::from_code(-1), None);
    assert_eq!(Kind::from_code(i32::MAX), None);
    assert_eq!(Kind::from_code(i32::MIN), None);
    assert_eq!(Kind::or_default(None), Kind::Normal);
    assert_eq!(Kind::or_default(Some(Kind::Dev)), Kind::Dev);
}

#[test]
fn requirement_is_read_and_printed_by_the_parser() {
    let req = VersionReq::parse("1.0").unwrap();
    assert_eq!(req.to_string(), "^1.0");
    assert!(!req.is_wildcard());
    let req = VersionReq::parse(" >=1.2.3 ,  <2").unwrap();
    assert_eq!(req.to_string(), ">=1.2.3, <2");
    assert!(!req.is_wildcard());
    let star = VersionReq::parse("*").unwrap();
    assert_eq!(star.to_string(), "*");
    assert!(star.is_wildcard());
    assert!(VersionReq::parse("x").unwrap().is_wildcard());
    assert!(!VersionReq::parse(">=0.0.0").unwrap().is_wildcard());
    assert!(!VersionReq::parse("1.*").unwrap().is_wildcard());
    assert_eq!(VersionReq::parse("not a requirement"), None);
    assert_eq!(VersionReq::parse(""), None);
}

#[test]
fn sound_row_reads_as_record() {
    let dep = Dependency::try_from_row(row(1, "^1.0")).unwrap();
    assert_eq!(dep.id, 100);
    assert_eq!(dep.version_id, 42);
    assert_eq!(dep.crate_id, 7);
    assert_eq!(dep.req, VersionReq::parse("^1.0").unwrap());
    assert!(dep.optional);
    assert!(!dep.default_features);
    assert_eq!(dep.features, vec!["derive".to_string()]);
    assert_eq!(dep.target, Some("cfg(windows)".to_string()));
    assert_eq!(dep.kind, Kind::Build);
    assert_eq!(dep, Dependency::from_row(row(1, "^1.0")));
    assert_eq!(Dependency::from_row(row(0, "^1.0")).kind, Kind::Normal);
    assert_eq!(Dependency::from_row(row(2, "^1.0")).kind, Kind::Dev);
}

#[test]
fn row_given_as_columns_reads_the_same() {
    let r = row(2, ">=1, <3");
    let dep = Dependency::build((
        r.id,
        r.version_id,
        r.crate_id,
        r.req.clone(),
        r.optional,
        r.default_features,
        r.features.clone(),
        r.target.clone(),
        r.kind,
    ));
    assert_eq!(dep, Dependency::from_row(r));
    assert_eq!(dep.req.to_string(), ">=1, <3");
}

#[test]
fn stored_wildcard_is_still_read() {
    let dep = Dependency::try_from_row(row(0, "*")).unwrap();
    assert!(dep.req.is_wildcard());
    assert_eq!(dep.req.to_string(), "*");
}

#[test]
fn unknown_kind_code_is_corruption() {
    assert_eq!(Dependency::try_from_row(row(3, "^1.0")), Err(DataCorruption::UnknownKind(3)));
    assert_eq!(Dependency::try_from_row(row(-1, "^1.0")), Err(DataCorruption::UnknownKind(-1)));
    assert_eq!(
        Dependency::try_from_row(row(i32::MAX, "^1.0")),
        Err(DataCorruption::UnknownKind(i32::MAX))
    );
}

#[test]
fn unreadable_stored_requirement_is_corruption() {
    assert_eq!(
        Dependency::try_from_row(row(0, "one point oh")),
        Err(DataCorruption::MalformedRequirement("one point oh".to_string()))
    );
}

#[test]
fn kind_code_is_looked_at_first() {
    assert_eq!(Dependency::try_from_row(row(9, "???")), Err(DataCorruption::UnknownKind(9)));
}

#[test]
fn index_line_states_the_kind() {
    let line = Dependency::from_row(row(0, "1.0")).git_encode("serde");
    assert_eq!(
        line,
        git::Dependency {
            name: "serde".to_string(),
            req: "^1.0".to_string(),
            features: vec!["derive".to_string()],
            optional: true,
            default_features: false,
            target: Some("cfg(windows)".to_string()),
            kind: Some(Kind::Normal),
        }
    );
    assert_eq!(Dependency::from_row(row(2, "1.0")).git_encode("serde").kind, Some(Kind::Dev));
}

#[test]
fn public_form_without_downloads_shows_zero() {
    let shown = Dependency::from_row(row(1, "~1.2")).encodable("serde", None);
    assert_eq!(
        shown,
        EncodableDependency {
            id: 100,
            version_id: 42,
            crate_id: "serde".to_string(),
            req: "~1.2".to_string(),
            optional: true,
            default_features: false,
            features: vec!["derive".to_string()],
            target: Some("cfg(windows)".to_string()),
            kind: Kind::Build,
            downloads: 0,
        }
    );
}

#[test]
fn public_form_with_downloads_shows_them() {
    let shown = Dependency::from_row(row(1, "~1.2")).encodable("serde", Some(1234));
    assert_eq!(shown.downloads, 1234);
    let shown = Dependency::from_row(row(1, "~1.2")).encodable("", Some(-5));
    assert_eq!(shown.downloads, -5);
    assert_eq!(shown.crate_id, "");
}

#[test]
fn reverse_form_is_about_the_declaring_package() {
    let joined = ReverseRow {
        dependency: row(0, "^1.0"),
        crate_name: "my-app".to_string(),
        crate_downloads: 99,
    };
    let shown = ReverseDependency::try_from_row(joined.clone()).unwrap().encodable();
    assert_eq!(shown.crate_id, "my-app");
    assert_eq!(shown.downloads, 99);
    assert_eq!(
        shown,
        Dependency::from_row(row(0, "^1.0")).encodable("my-app", Some(99))
    );
    assert_eq!(shown, ReverseDependency::from_row(joined).encodable());
}

#[test]
fn reverse_row_with_fault_is_corruption() {
    let joined = ReverseRow {
        dependency: row(3, "^1.0"),
        crate_name: "my-app".to_string(),
        crate_downloads: 99,
    };
    assert_eq!(ReverseDependency::try_from_row(joined), Err(DataCorruption::UnknownKind(3)));
    let joined = ReverseRow {
        dependency: row(0, "^^"),
        crate_name: "my-app".to_string(),
        crate_downloads: 99,
    };
    assert_eq!(
        ReverseDependency::try_from_row(joined),
        Err(DataCorruption::MalformedRequirement("^^".to_string()))
    );
}

#[test]
fn insert_prepares_all_columns_but_the_identifier() {
    let req = VersionReq::parse("0.3").unwrap();
    let new = Dependency::insert(
        42,
        7,
        &req,
        Kind::Dev,
        false,
        true,
        &["a".to_string(), "b".to_string()],
        &Some("x86_64-unknown-linux-gnu".to_string()),
    );
    assert_eq!(
        new,
        NewDependency {
            version_id: 42,
            crate_id: 7,
            req: "^0.3".to_string(),
            optional: false,
            default_features: true,
            features: vec!["a".to_string(), "b".to_string()],
            target: Some("x86_64-unknown-linux-gnu".to_string()),
            kind: 2,
        }
    );
    let dep = Dependency::from_row(store(&new, 500));
    assert_eq!(dep.id, 500);
    assert_eq!(dep.req, req);
    assert_eq!(dep.kind, Kind::Dev);
}

#[test]
fn table_is_named() {
    assert_eq!(Dependency::table_name(), "dependencies");
}

#[test]
fn submitted_stored_and_shown() {
    let crates = vec![
        Crate { id: 7, name: "serde".to_string() },
        Crate { id: 11, name: "log".to_string() },
    ];
    let deps = vec![
        CrateDependency {
            optional: true,
            default_features: false,
            name: "serde".to_string(),
            features: vec!["derive".to_string()],
            version_req: "^1.0".to_string(),
            target: Some("cfg(unix)".to_string()),
            kind: Some(Kind::Build),
        },
        CrateDependency {
            optional: false,
            default_features: true,
            name: "log".to_string(),
            features: vec![],
            version_req: ">=0.4.0, <0.5.0".to_string(),
            target: None,
            kind: None,
        },
    ];
    let rows = add_dependencies(&crates, &deps, 42).unwrap();
    assert_eq!(rows.len(), 2);
    for (i, new) in rows.iter().enumerate() {
        let dep = Dependency::try_from_row(store(new, 1000 + i as i32)).unwrap();
        let name = crates.iter().find(|c| c.id == dep.crate_id).unwrap().name.clone();
        let shown = dep.clone().encodable(&name, None);
        assert_eq!(shown.id, 1000 + i as i32);
        assert_eq!(shown.version_id, 42);
        assert_eq!(shown.crate_id, deps[i].name);
        assert_eq!(shown.req, deps[i].version_req);
        assert_eq!(shown.optional, deps[i].optional);
        assert_eq!(shown.default_features, deps[i].default_features);
        assert_eq!(shown.features, deps[i].features);
        assert_eq!(shown.target, deps[i].target);
        assert_eq!(shown.kind, deps[i].kind.unwrap_or(Kind::Normal));
        assert_eq!(shown.downloads, 0);
        let line = dep.git_encode(&name);
        assert_eq!(line.name, deps[i].name);
        assert_eq!(line.kind, Some(deps[i].kind.unwrap_or(Kind::Normal)));
    }
}

#[test]
fn index_requirement_reads_as_submitted() {
    let crates = vec![Crate { id: 7, name: "serde".to_string() }];
    for req in ["1.0", "^1.0", " >= 1.2.3 , <2", "~0.3.1", "=1.0.0-rc.1", "1.*", "<=3", ">0.1"] {
        let deps = vec![CrateDependency {
            optional: false,
            default_features: true,
            name: "serde".to_string(),
            features: vec![],
            version_req: req.to_string(),
            target: None,
            kind: None,
        }];
        let rows = add_dependencies(&crates, &deps, 1).unwrap();
        let line = Dependency::try_from_row(store(&rows[0], 1)).unwrap().git_encode("serde");
        assert_eq!(VersionReq::parse(&line.req), VersionReq::parse(req), "{:?}", req);
        assert_eq!(
            semver::VersionReq::parse(&line.req).unwrap(),
            semver::VersionReq::parse(req).unwrap(),
            "{:?}",
            req
        );
    }
}

#[test]
fn omitted_kind_shows_as_normal_in_both_forms() {
    let crates = vec![Crate { id: 7, name: "serde".to_string() }];
    let declare = |kind| CrateDependency {
        optional: false,
        default_features: true,
        name: "serde".to_string(),
        features: vec![],
        version_req: "1".to_string(),
        target: None,
        kind,
    };
    let omitted = add_dependencies(&crates, &[declare(None)], 1).unwrap();
    let stated = add_dependencies(&crates, &[declare(Some(Kind::Normal))], 1).unwrap();
    let a = Dependency::try_from_row(store(&omitted[0], 1)).unwrap();
    let b = Dependency::try_from_row(store(&stated[0], 1)).unwrap();
    assert_eq!(a.clone().git_encode("serde"), b.clone().git_encode("serde"));
    assert_eq!(a.clone().git_encode("serde").kind, Some(Kind::Normal));
    assert_eq!(a.clone().encodable("serde", None), b.encodable("serde", None));
    assert_eq!(a.encodable("serde", None).kind, Kind::Normal);
}

#[test]
fn fault_is_found_from_code_and_reading() {
    let sound = VersionReq::parse("^1.0");
    assert_eq!(row(0, "^1.0").fault_in(&sound), None);
    assert_eq!(row(2, "^1.0").fault_in(&sound), None);
    assert_eq!(row(3, "^1.0").fault_in(&sound), Some(DataCorruption::UnknownKind(3)));
    assert_eq!(row(3, "^^").fault_in(&None), Some(DataCorruption::UnknownKind(3)));
    assert_eq!(
        row(1, "^^").fault_in(&None),
        Some(DataCorruption::MalformedRequirement("^^".to_string()))
    );
}
