use recursive_copy::engine::{permission_bits, placement, plan, Kind, Placement, Plan};
use recursive_copy::{CopyError, CopyOptions};

fn b(s: &str) -> Vec<u8> {
    s.as_bytes().to_vec()
}

#[test]
fn default_options() {
    let o = CopyOptions::default();
    assert!(!o.overwrite && !o.restrict_symlinks && !o.follow_symlinks && !o.content_only);
    assert_eq!(o.buffer_size, 64 * 1024);
    assert_eq!(o.depth, 512);
}

#[test]
fn single_file_onto_existing_dir_lands_inside() {
    let o = CopyOptions::default();
    let r = plan(&b("/t/f.txt"), Kind::File, &b("/t/d"), Kind::Dir, &o);
    assert_eq!(r, Ok(Plan::File { to: b("/t/d/f.txt") }));
}

#[test]
fn single_file_onto_missing_path_is_renamed() {
    let o = CopyOptions::default();
    let r = plan(&b("/t/f.txt"), Kind::File, &b("/t/g.txt"), Kind::Missing, &o);
    assert_eq!(r, Ok(Plan::File { to: b("/t/g.txt") }));
    let r = plan(&b("/t/f.txt"), Kind::File, &b("/t/old.txt"), Kind::File, &o);
    assert_eq!(r, Ok(Plan::File { to: b("/t/old.txt") }));
}

#[test]
fn tree_nests_under_existing_destination() {
    let o = CopyOptions::default();
    let r = plan(&b("/t/src"), Kind::Dir, &b("/t/dst"), Kind::Dir, &o);
    assert_eq!(r, Ok(Plan::Tree { root: b("/t/dst/src") }));
}

#[test]
fn tree_content_only_uses_destination() {
    let mut o = CopyOptions::default();
    o.content_only = true;
    let r = plan(&b("/t/src"), Kind::Dir, &b("/t/dst"), Kind::Dir, &o);
    assert_eq!(r, Ok(Plan::Tree { root: b("/t/dst") }));
}

#[test]
fn tree_into_missing_destination_uses_it() {
    let o = CopyOptions::default();
    let r = plan(&b("/t/src"), Kind::Dir, &b("/t/new"), Kind::Missing, &o);
    assert_eq!(r, Ok(Plan::Tree { root: b("/t/new") }));
}

#[test]
fn plan_errors() {
    let o = CopyOptions::default();
    assert_eq!(
        plan(&b("/t/none"), Kind::Missing, &b("/t/d"), Kind::Dir, &o),
        Err(CopyError::SrcNotFound(b("/t/none")))
    );
    assert_eq!(
        plan(&b("/t/src"), Kind::Dir, &b("/t/f.txt"), Kind::File, &o),
        Err(CopyError::DestNotDir(b("/t/f.txt")))
    );
    let mut c = CopyOptions::default();
    c.content_only = true;
    assert_eq!(
        plan(&b("/t/src"), Kind::Dir, &b("/t/f.txt"), Kind::File, &c),
        Err(CopyError::DestNotDir(b("/t/f.txt")))
    );
    assert_eq!(
        plan(&b("/t/fifo"), Kind::Special, &b("/t/d"), Kind::Dir, &o),
        Err(CopyError::NotSupported(b("/t/fifo")))
    );
}

#[test]
fn placement_follows_overwrite() {
    let mut o = CopyOptions::default();
    assert_eq!(placement(true, &o), Placement::Keep);
    assert_eq!(placement(false, &o), Placement::Create);
    o.overwrite = true;
    assert_eq!(placement(true, &o), Placement::Replace);
    assert_eq!(placement(false, &o), Placement::Create);
}

#[test]
fn permission_bits_drop_special_bits() {
    assert_eq!(permission_bits(0o104755), 0o755);
    assert_eq!(permission_bits(0o7644), 0o644);
    assert_eq!(permission_bits(0o600), 0o600);
}
