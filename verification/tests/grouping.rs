use fname_seq::dispatch::{parse_action, plan, ActionCode, Plan};
use fname_seq::errors::{Error, ErrorKind};
use fname_seq::headstate::HeadRecord;
use fname_seq::names::{new_head_name, new_name, split_name};
use fname_seq::paths::{find_headstate, path_to_name};

fn bv(s: &str) -> Vec<u8> {
    s.as_bytes().to_vec()
}

#[test]
fn split_name_without_dot() {
    let (stem, ext) = split_name(&bv("notes"));
    assert_eq!(stem, bv("notes"));
    assert_eq!(ext, None);
}

#[test]
fn split_name_rightmost_dot() {
    let (stem, ext) = split_name(&bv("x.tar.gz"));
    assert_eq!(stem, bv("x.tar"));
    assert_eq!(ext, Some(bv("gz")));
}

#[test]
fn split_name_simple_extension() {
    let (stem, ext) = split_name(&bv("photo.jpg"));
    assert_eq!(stem, bv("photo"));
    assert_eq!(ext, Some(bv("jpg")));
}

#[test]
fn split_name_trailing_dot() {
    let (stem, ext) = split_name(&bv("a."));
    assert_eq!(stem, bv("a"));
    assert_eq!(ext, Some(bv("")));
}

#[test]
fn split_name_leading_dot() {
    let (stem, ext) = split_name(&bv(".bashrc"));
    assert_eq!(stem, bv(""));
    assert_eq!(ext, Some(bv("bashrc")));
}

#[test]
fn path_to_name_extracts_filename() {
    assert_eq!(path_to_name(&bv("/dir/a.txt")), Ok(bv("a.txt")));
    assert_eq!(path_to_name(&bv("abc")), Ok(bv("abc")));
    assert_eq!(path_to_name(&bv("/a/b/c.d")), Ok(bv("c.d")));
}

#[test]
fn path_to_name_rejects_no_filename() {
    for p in ["/", "", "/dir/"] {
        let r = path_to_name(&bv(p));
        match r {
            Err(e) => {
                assert_eq!(e, Error::NoFilename { path: bv(p) });
                assert_eq!(e.kind(), ErrorKind::MissingData);
            }
            Ok(_) => panic!("expected an error for {:?}", p),
        }
    }
}

#[test]
fn find_headstate_same_directory() {
    assert_eq!(find_headstate(&bv("/dir/photo.jpg")), bv("/dir/fname_seq_head"));
}

#[test]
fn find_headstate_bare_filename() {
    assert_eq!(find_headstate(&bv("photo.jpg")), bv("fname_seq_head"));
}

#[test]
fn new_name_with_extension() {
    let r = new_name(&bv("/dir/photo.jpg"), &bv("/dir/IMG002.png"));
    assert_eq!(r, Ok(bv("photo_IMG002.png")));
}

#[test]
fn new_name_head_without_extension() {
    let r = new_name(&bv("/dir/notes"), &bv("/dir/IMG002.png"));
    assert_eq!(r, Ok(bv("notes_IMG002.png")));
}

#[test]
fn new_name_depends_on_filenames_only() {
    let a = new_name(&bv("/x/photo.jpg"), &bv("/x/IMG002.png"));
    let b = new_name(&bv("/other/place/photo.jpg"), &bv("/y/IMG002.png"));
    assert_eq!(a, b);
    assert_eq!(a, Ok(bv("photo_IMG002.png")));
}

#[test]
fn new_name_missing_target_filename() {
    let r = new_name(&bv("/dir/photo.jpg"), &bv("/dir/"));
    assert_eq!(r, Err(Error::NoFilename { path: bv("/dir/") }));
}

#[test]
fn new_name_missing_head_filename() {
    let r = new_name(&bv("/dir/"), &bv("/dir/IMG002.png"));
    assert_eq!(r, Err(Error::NoFilename { path: bv("/dir/") }));
}

#[test]
fn new_head_name_with_extension() {
    let r = new_head_name(&bv("/dir/IMG001.jpg"));
    assert_eq!(r, Ok(bv("IMG001_IMG001.jpg")));
}

#[test]
fn new_head_name_without_extension() {
    let r = new_head_name(&bv("/dir/notes"));
    assert_eq!(r, Ok(bv("notes_notes")));
}

#[test]
fn parse_action_codes() {
    assert_eq!(parse_action(&bv("e")), Ok(ActionCode::Attach));
    assert_eq!(parse_action(&bv("r")), Ok(ActionCode::SetHead));
    assert_eq!(parse_action(&bv("q")), Ok(ActionCode::Quit));
}

#[test]
fn parse_action_unknown_key() {
    for k in ["x", "", "ee", "E"] {
        let r = parse_action(&bv(k));
        match r {
            Err(e) => {
                assert_eq!(e, Error::UnknownAction { key: bv(k) });
                assert_eq!(e.kind(), ErrorKind::Protocol);
            }
            Ok(_) => panic!("expected an error for key {:?}", k),
        }
    }
}

#[test]
fn plan_set_head_scenario() {
    let r = plan(ActionCode::SetHead, &bv("/dir/IMG001.jpg"), None);
    assert_eq!(
        r,
        Ok(Plan::SetHead {
            record_path: bv("/dir/fname_seq_head"),
            record_content: bv("/dir/IMG001.jpg"),
            rename_from: bv("/dir/IMG001.jpg"),
            rename_to: bv("/dir/IMG001_IMG001.jpg"),
        })
    );
}

#[test]
fn plan_set_head_rejects_no_filename() {
    let r = plan(ActionCode::SetHead, &bv("/dir/"), None);
    assert_eq!(r, Err(Error::NoFilename { path: bv("/dir/") }));
}

#[test]
fn plan_attach_scenario() {
    let head = bv("/dir/photo.jpg");
    let r = plan(ActionCode::Attach, &bv("/dir/IMG002.png"), Some(&head));
    assert_eq!(
        r,
        Ok(Plan::Attach {
            rename_from: bv("/dir/IMG002.png"),
            rename_to: bv("/dir/photo_IMG002.png"),
        })
    );
}

#[test]
fn plan_attach_without_record() {
    let r = plan(ActionCode::Attach, &bv("/dir/IMG002.png"), None);
    match r {
        Err(e) => {
            assert_eq!(e, Error::HeadRecordMissing { record_path: bv("/dir/fname_seq_head") });
            assert_eq!(e.kind(), ErrorKind::MissingData);
        }
        Ok(_) => panic!("expected a missing-record error"),
    }
}

#[test]
fn plan_quit_does_nothing() {
    let head = bv("/dir/photo.jpg");
    assert_eq!(plan(ActionCode::Quit, &bv("/dir/IMG002.png"), None), Ok(Plan::Quit));
    assert_eq!(plan(ActionCode::Quit, &bv(""), Some(&head)), Ok(Plan::Quit));
}

#[test]
fn head_record_starts_absent() {
    let rec = HeadRecord::new();
    assert_eq!(rec.read(), None);
}

#[test]
fn head_record_write_idempotent() {
    let mut rec = HeadRecord::new();
    rec.write(&bv("/dir/IMG001.jpg"));
    rec.write(&bv("/dir/IMG001.jpg"));
    assert_eq!(rec.read(), Some(bv("/dir/IMG001.jpg")));
}

#[test]
fn head_record_overwrites() {
    let mut rec = HeadRecord::new();
    rec.write(&bv("/dir/a.jpg"));
    rec.write(&bv("/dir/b.jpg"));
    assert_eq!(rec.read(), Some(bv("/dir/b.jpg")));
}

#[test]
fn error_kinds() {
    assert_eq!(Error::InvalidText { context: bv("x") }.kind(), ErrorKind::Encoding);
    assert_eq!(Error::NoFilename { path: bv("/") }.kind(), ErrorKind::MissingData);
    assert_eq!(Error::HeadRecordMissing { record_path: bv("h") }.kind(), ErrorKind::MissingData);
    assert_eq!(Error::Io { path: bv("/f") }.kind(), ErrorKind::Io);
    assert_eq!(Error::UnknownAction { key: bv("z") }.kind(), ErrorKind::Protocol);
    assert_eq!(Error::NoInput.kind(), ErrorKind::Protocol);
}
