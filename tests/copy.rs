use recursive_copy::engine::{plan, Kind, Plan};
use recursive_copy::walker::{Action, Step, Walker};
use recursive_copy::CopyOptions;

fn b(s: &str) -> Vec<u8> {
    s.as_bytes().to_vec()
}

fn text(v: &[u8]) -> String {
    String::from_utf8(v.to_vec()).unwrap()
}

/// Drives a walker over a described tree and returns the destination paths
/// that it makes, copies to, or recreates links at.
fn run(mut w: Walker, tree: &[(String, Vec<(&str, Kind)>)]) -> Vec<String> {
    let mut made = Vec::new();
    let mut kinds: Vec<(String, Kind)> = Vec::new();
    loop {
        match w.next() {
            Step::Done => return made,
            Step::List { dir } => {
                let dir = text(&dir);
                let (_, entries) = tree.iter().find(|(d, _)| *d == dir).expect("listed directory");
                let mut names = Vec::new();
                for (name, kind) in entries {
                    names.push(b(name));
                    kinds.push((format!("{dir}/{name}"), *kind));
                }
                w.listed(names);
            }
            Step::Visit(e) => {
                let src = text(&e.src);
                let kind = kinds.iter().find(|(p, _)| *p == src).expect("known entry").1;
                match w.on_entry(&e, kind).expect("entry handled") {
                    Action::CopyFile { to, .. } => made.push(text(&to)),
                    Action::MakeDir { path } => made.push(text(&path)),
                    Action::Recreate { to, .. } => made.push(text(&to)),
                    other => panic!("unexpected action {other:?}"),
                }
            }
        }
    }
}

#[test]
fn test_copy_recursive_with_symlinks() {
    let base = "/tmp/recursive_copy_test_symlinks";
    let src = format!("{base}/src");
    let dst = format!("{base}/dst");
    let mut opts = CopyOptions::default();
    opts.follow_symlinks = false;
    opts.content_only = false;
    let root = match plan(&b(&src), Kind::Dir, &b(&dst), Kind::Dir, &opts) {
        Ok(Plan::Tree { root }) => root,
        other => panic!("Copy failed: {other:?}"),
    };
    let final_dst = format!("{dst}/src");
    assert_eq!(text(&root), final_dst);
    let tree = vec![
        (
            src.clone(),
            vec![
                ("root.txt", Kind::File),
                ("subdir", Kind::Dir),
                ("link_to_root", Kind::Symlink),
                ("link_to_nested", Kind::Symlink),
            ],
        ),
        (format!("{src}/subdir"), vec![("file1.txt", Kind::File), ("nested", Kind::Dir)]),
        (format!("{src}/subdir/nested"), vec![("deep.txt", Kind::File)]),
    ];
    let made = run(Walker::new(b(&src), root, b(&src), opts), &tree);
    let files = ["root.txt", "subdir/file1.txt", "subdir/nested/deep.txt", "link_to_root", "link_to_nested"];
    for f in files {
        let path = format!("{final_dst}/{f}");
        assert!(made.contains(&path));
    }
}

#[test]
fn test_copy_single_file_to_existing_dir() {
    let base = "/tmp/test_single_file";
    let src_file = format!("{base}/source_file.txt");
    let dst_dir = format!("{base}/dest_dir");
    let expected_dst_file = format!("{dst_dir}/source_file.txt");
    let opts = CopyOptions::default();
    match plan(&b(&src_file), Kind::File, &b(&dst_dir), Kind::Dir, &opts) {
        Ok(Plan::File { to }) => assert_eq!(text(&to), expected_dst_file),
        other => panic!("File copy failed: {other:?}"),
    }
    let new_file_name = format!("{base}/new_file_name.txt");
    match plan(&b(&src_file), Kind::File, &b(&new_file_name), Kind::Missing, &opts) {
        Ok(Plan::File { to }) => assert_eq!(text(&to), new_file_name),
        other => panic!("File copy failed to new name: {other:?}"),
    }
}
