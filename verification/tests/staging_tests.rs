use wraut::staging::{classify_dir_sentinel, get_or_create, DirProbe, FsModel};

#[test]
fn sentinel_classification() {
    assert_eq!(classify_dir_sentinel("Y\n"), DirProbe::Exists);
    assert_eq!(classify_dir_sentinel("N\n"), DirProbe::Missing);
    assert_eq!(classify_dir_sentinel("Y"), DirProbe::Unexpected);
    assert_eq!(classify_dir_sentinel("N"), DirProbe::Unexpected);
    assert_eq!(classify_dir_sentinel(""), DirProbe::Unexpected);
    assert_eq!(classify_dir_sentinel("yes\n"), DirProbe::Unexpected);
    assert_eq!(classify_dir_sentinel("Y\nN\n"), DirProbe::Unexpected);
}

#[test]
fn get_or_create_is_idempotent() {
    let mut fs = FsModel::new();
    let path = "/srv/repos/web".to_string();
    let (p1, created1) = get_or_create(&mut fs, &path);
    assert_eq!(p1, path);
    assert!(created1);
    // unmodified filesystem: the second call returns the same path and
    // reports that nothing was created
    let (p2, created2) = get_or_create(&mut fs, &path);
    assert_eq!(p2, path);
    assert!(!created2);
}

#[test]
fn get_or_create_distinguishes_paths() {
    let mut fs = FsModel::new();
    let a = "/srv/repos/a".to_string();
    let b = "/srv/repos/b".to_string();
    let (_, created_a) = get_or_create(&mut fs, &a);
    let (_, created_b) = get_or_create(&mut fs, &b);
    assert!(created_a);
    assert!(created_b);
    let (_, again_a) = get_or_create(&mut fs, &a);
    assert!(!again_a);
}

#[test]
fn contains_dir_reflects_creation() {
    let mut fs = FsModel::new();
    assert!(!fs.contains_dir("/x"));
    let _ = get_or_create(&mut fs, &"/x".to_string());
    assert!(fs.contains_dir("/x"));
    assert!(!fs.contains_dir("/y"));
}
