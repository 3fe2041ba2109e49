use physis_capi::existing_dirs::{
    to_c_game_dirs, to_c_user_dirs, ExistingGameDirectory, ExistingInstallType, ExistingUserDirectory,
};

#[test]
fn game_dirs_export_in_order() {
    let dirs = vec![
        ExistingGameDirectory {
            install_type: ExistingInstallType::Astra,
            path: b"/games/ffxiv".to_vec(),
            version: b"2024.01.01.0000.0000".to_vec(),
        },
        ExistingGameDirectory {
            install_type: ExistingInstallType::OfficialLauncher,
            path: b"C:/SquareEnix".to_vec(),
            version: vec![],
        },
    ];
    let e = to_c_game_dirs(&dirs);
    assert_eq!(e.count, 2);
    assert_eq!(e.entries[0].install_type, ExistingInstallType::Astra);
    assert_eq!(e.entries[0].path, b"/games/ffxiv\0".to_vec());
    assert_eq!(e.entries[1].version, vec![0]);
}

#[test]
fn user_dir_with_nul_gives_none() {
    let e = to_c_user_dirs(&vec![ExistingUserDirectory { install_type: ExistingInstallType::XIVOnMac, path: b"a\0b".to_vec() }]);
    assert_eq!(e.count, 0);
    assert!(e.entries.is_empty());
    let ok = to_c_user_dirs(&vec![ExistingUserDirectory { install_type: ExistingInstallType::XIVLauncherCore, path: b"/u".to_vec() }]);
    assert_eq!(ok.count, 1);
    assert_eq!(ok.entries[0].path, b"/u\0".to_vec());
}

#[test]
fn directory_lists_free_counts() {
    let g = to_c_game_dirs(&vec![ExistingGameDirectory {
        install_type: ExistingInstallType::Astra,
        path: b"/g".to_vec(),
        version: b"1".to_vec(),
    }]);
    assert_eq!(physis_capi::existing_dirs::physis_existing_game_dirs_free(g), 3);
    let u = to_c_user_dirs(&vec![]);
    assert_eq!(physis_capi::existing_dirs::physis_existing_user_dirs_free(u), 0);
}
