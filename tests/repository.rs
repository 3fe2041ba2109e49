use physis_capi::repository::{
    physis_sqpack_free_repositories, to_c_repositories, to_c_repository, to_c_sheet_names, Repository,
    RepositoryType,
};

fn repo(name: &str, t: RepositoryType, version: Option<&str>) -> Repository {
    Repository { name: name.as_bytes().to_vec(), repo_type: t, version: version.map(|v| v.as_bytes().to_vec()) }
}

#[test]
fn repositories_export_with_optional_versions() {
    let rs = vec![
        repo("ffxiv", RepositoryType::Base, Some("2024.07.23.0000.0001")),
        repo("ex1", RepositoryType::Expansion { number: 1 }, None),
    ];
    let e = to_c_repositories(&rs);
    assert_eq!(e.repositories_count, 2);
    assert_eq!(e.repositories[0].name, b"ffxiv\0".to_vec());
    assert_eq!(e.repositories[0].version, Some(b"2024.07.23.0000.0001\0".to_vec()));
    assert_eq!(e.repositories[1].repository_type, RepositoryType::Expansion { number: 1 });
    assert_eq!(e.repositories[1].version, None);
    // (1 + name + version) + (1 + name)
    assert_eq!(physis_sqpack_free_repositories(e), 5);
}

#[test]
fn repository_with_bad_version_fails_list() {
    assert!(to_c_repository(&repo("ex2", RepositoryType::Base, Some("1\0"))).is_none());
    let e = to_c_repositories(&vec![repo("a", RepositoryType::Base, None), repo("b\0", RepositoryType::Base, None)]);
    assert_eq!(e.repositories_count, 0);
    assert!(e.repositories.is_empty());
    assert_eq!(physis_sqpack_free_repositories(e), 0);
}

#[test]
fn sheet_names_export_in_order() {
    let s = to_c_sheet_names(&vec![b"Item".to_vec(), b"Action".to_vec()]);
    assert_eq!(s.name_count, 2);
    assert_eq!(s.names, vec![b"Item\0".to_vec(), b"Action\0".to_vec()]);
    let bad = to_c_sheet_names(&vec![b"It\0em".to_vec()]);
    assert_eq!(bad.name_count, 0);
    assert!(bad.names.is_empty());
}

#[test]
fn sheet_names_free_slots_and_strings() {
    let s = to_c_sheet_names(&vec![b"Item".to_vec(), b"Action".to_vec(), b"Quest".to_vec()]);
    assert_eq!(physis_capi::repository::physis_sheet_names_free(s), 6);
}
