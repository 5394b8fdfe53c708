use withd::error::Error;
use withd::template::split_name;
use withd::template::squash_empty_path;
use withd::template::Template;
use withd::template::FILLER;

fn parts(name: &[u8]) -> (Vec<u8>, usize, Vec<u8>) {
    let pattern = split_name(name);
    (pattern.prefix, pattern.filler_length, pattern.suffix)
}

fn resolved(path: &[u8]) -> (Option<Vec<u8>>, Vec<u8>, usize, Vec<u8>) {
    let template = Template::resolve(path).expect("the path is a template");
    (template.parent, template.prefix, template.filler_length, template.suffix)
}

#[test]
fn filler_is_the_capital_letter() {
    assert_eq!(FILLER, b'X');
}

#[test]
fn split_takes_prefix_fillers_and_suffix() {
    assert_eq!(parts(b"tmp.XXXXXX.dir"), (b"tmp.".to_vec(), 6, b".dir".to_vec()));
}

#[test]
fn split_of_fillers_alone() {
    assert_eq!(parts(b"XXXX"), (Vec::new(), 4, Vec::new()));
    assert_eq!(parts(b"X"), (Vec::new(), 1, Vec::new()));
}

#[test]
fn split_with_fillers_at_either_end() {
    assert_eq!(parts(b"XXabc"), (Vec::new(), 2, b"abc".to_vec()));
    assert_eq!(parts(b"abcXXX"), (b"abc".to_vec(), 3, Vec::new()));
}

#[test]
fn split_without_fillers_keeps_the_name_as_prefix() {
    assert_eq!(parts(b"foo"), (b"foo".to_vec(), 0, Vec::new()));
    assert_eq!(parts(b""), (Vec::new(), 0, Vec::new()));
}

#[test]
fn split_takes_the_longest_run() {
    assert_eq!(parts(b"aXbXXXc"), (b"aXb".to_vec(), 3, b"c".to_vec()));
    assert_eq!(parts(b"aXbXXX"), (b"aXb".to_vec(), 3, Vec::new()));
    assert_eq!(parts(b"aXXXbX"), (b"a".to_vec(), 3, b"bX".to_vec()));
    assert_eq!(parts(b"XaXXbXXXc"), (b"XaXXb".to_vec(), 3, b"c".to_vec()));
    assert_eq!(parts(b"build-XX-XXXX"), (b"build-XX-".to_vec(), 4, Vec::new()));
}

#[test]
fn split_takes_the_first_of_the_longest_runs() {
    assert_eq!(parts(b"aXXbXXc"), (b"a".to_vec(), 2, b"bXXc".to_vec()));
    assert_eq!(parts(b"XaX"), (Vec::new(), 1, b"aX".to_vec()));
    assert_eq!(parts(b"XbXXcXXd"), (b"Xb".to_vec(), 2, b"cXXd".to_vec()));
}

#[test]
fn split_knows_no_small_filler() {
    assert_eq!(parts(b"tmp.xxxx"), (b"tmp.xxxx".to_vec(), 0, Vec::new()));
}

#[test]
fn split_of_a_single_run_agrees_with_the_regular_expression() {
    let pattern = lazy_regex::BytesRegex::new(r"^(.*?)(X+)(.*?)$").expect("the pattern is valid");
    let names: [&[u8]; 8] = [
        b"tmp.XXXXXX.dir",
        b"X",
        b"XXXX",
        b"a.XX",
        b"build-XXX-dir",
        b"trailingX",
        b"Xleading",
        "snow\u{2603}XXman".as_bytes(),
    ];
    for name in names {
        let captures = pattern.captures(name).expect("the name has a filler");
        let (prefix, length, suffix) = parts(name);
        assert_eq!(&captures[1], prefix.as_slice());
        assert_eq!(captures[2].len(), length);
        assert_eq!(&captures[3], suffix.as_slice());
    }
}

/// The place and the length of the longest run of fillers in `name`, the
/// first of several; the length of the name and 0 where there is none.
fn longest(name: &[u8]) -> (usize, usize) {
    let mut best = (name.len(), 0);
    for start in 0..name.len() {
        let length = name[start..].iter().take_while(|byte| **byte == FILLER).count();
        if length > best.1 {
            best = (start, length);
        }
    }
    best
}

#[test]
fn split_parts_make_up_the_name() {
    let names: [&[u8]; 8] = [
        b"tmp.XXXXXX.dir",
        b"plain",
        b"",
        b"XXaXX",
        b"a.X.b.XX.c",
        b"XXX.X.XXXX.XX",
        b"XaXXaXXXaXXXX",
        b"XXXXaXXXaXXaX",
    ];
    for name in names {
        let (prefix, length, suffix) = parts(name);
        let mut whole = prefix.clone();
        whole.extend(std::iter::repeat(FILLER).take(length));
        whole.extend_from_slice(&suffix);
        assert_eq!(whole.as_slice(), name);
        assert_eq!((prefix.len(), length), longest(name));
        assert!(prefix.last() != Some(&FILLER) || length == 0);
        assert!(suffix.first() != Some(&FILLER));
    }
}

#[test]
fn squash_keeps_a_path_and_drops_the_empty_one() {
    assert_eq!(squash_empty_path(b"foo"), Some(&b"foo"[..]));
    assert_eq!(squash_empty_path(b"/"), Some(&b"/"[..]));
    assert_eq!(squash_empty_path(b"."), Some(&b"."[..]));
    assert_eq!(squash_empty_path(b""), None);
}

#[test]
fn template_of_a_pattern_in_a_directory() {
    assert_eq!(
        resolved(b"/var/work/tmp.XXXXXX.dir"),
        (Some(b"/var/work".to_vec()), b"tmp.".to_vec(), 6, b".dir".to_vec())
    );
    assert_eq!(
        resolved(b"foo/bar.XXXX.baz"),
        (Some(b"foo".to_vec()), b"bar.".to_vec(), 4, b".baz".to_vec())
    );
}

#[test]
fn template_of_a_bare_pattern_has_no_parent() {
    assert_eq!(resolved(b"foo.XXXX.bar"), (None, b"foo.".to_vec(), 4, b".bar".to_vec()));
}

#[test]
fn template_of_a_name_without_fillers_is_that_name() {
    assert_eq!(resolved(b"foo/bar"), (Some(b"foo".to_vec()), b"bar".to_vec(), 0, Vec::new()));
    assert_eq!(resolved(b"bar"), (None, b"bar".to_vec(), 0, Vec::new()));
}

#[test]
fn template_of_a_path_with_a_trailing_separator() {
    assert_eq!(
        resolved(b"foo/tmp.XX/"),
        (Some(b"foo".to_vec()), b"tmp.".to_vec(), 2, Vec::new())
    );
}

#[test]
fn template_of_the_empty_path_names_nothing() {
    let template = Template::resolve(b"").expect("the empty path is a template");
    assert!(template.is_unnamed());
    assert_eq!(template.parent, None);
    assert_eq!(template.filler_length, 0);
}

#[test]
fn template_of_a_path_without_final_segment_is_its_parent() {
    assert_eq!(resolved(b"/"), (Some(b"/".to_vec()), Vec::new(), 0, Vec::new()));
    assert_eq!(resolved(b"foo/.."), (Some(b"foo/..".to_vec()), Vec::new(), 0, Vec::new()));
    assert!(Template::resolve(b"/").expect("the root is a template").is_unnamed());
}

#[test]
fn template_reads_fillers_in_the_final_segment_only() {
    assert_eq!(
        resolved(b"aXXb/name"),
        (Some(b"aXXb".to_vec()), b"name".to_vec(), 0, Vec::new())
    );
}

#[test]
fn template_of_a_pattern_with_several_runs() {
    assert_eq!(
        resolved(b"work/aXbXXXc"),
        (Some(b"work".to_vec()), b"aXb".to_vec(), 3, b"c".to_vec())
    );
}

#[test]
fn template_of_a_name_that_is_no_text_fails() {
    match Template::resolve(b"tmp.\xff.XXXX") {
        Err(Error::Utf8Invalid(name)) => assert_eq!(name, b"tmp.\xff.XXXX".to_vec()),
        other => panic!("unexpected result: {other:?}"),
    }
    match Template::resolve(b"foo/\xffXX") {
        Err(Error::Utf8Invalid(name)) => assert_eq!(name, b"\xffXX".to_vec()),
        other => panic!("unexpected result: {other:?}"),
    }
    match Template::resolve(b"tmp.XX\xc3") {
        Err(Error::Utf8Invalid(name)) => assert_eq!(name, b"tmp.XX\xc3".to_vec()),
        other => panic!("unexpected result: {other:?}"),
    }
}

#[test]
fn template_takes_a_parent_that_is_no_text() {
    assert_eq!(
        resolved(b"\xff/tmp.XX"),
        (Some(b"\xff".to_vec()), b"tmp.".to_vec(), 2, Vec::new())
    );
}

#[test]
fn assemble_without_a_final_segment() {
    let template = Template::assemble(b"some/where/..", None, Some(b"ignored".to_vec()))
        .expect("a path without final segment is a template");
    assert_eq!(template.parent, Some(b"some/where/..".to_vec()));
    assert!(template.is_unnamed());
}

#[test]
fn assemble_squashes_an_empty_parent() {
    let template = Template::assemble(b"tmp.XXX", Some(b"tmp.XXX".to_vec()), Some(Vec::new()))
        .expect("the name is text");
    assert_eq!(template.parent, None);
    assert_eq!(template.prefix, b"tmp.".to_vec());
    assert_eq!(template.filler_length, 3);
    assert_eq!(template.suffix, Vec::<u8>::new());
}

#[test]
fn assemble_without_a_parent() {
    let template =
        Template::assemble(b"tmp.XXX", Some(b"tmp.XXX".to_vec()), None).expect("the name is text");
    assert_eq!(template.parent, None);
}

#[test]
fn assemble_rejects_a_name_that_is_no_text() {
    let result = Template::assemble(b"a/\xf0\x82", Some(b"\xf0\x82".to_vec()), Some(b"a".to_vec()));
    assert!(matches!(result, Err(Error::Utf8Invalid(name)) if name == b"\xf0\x82".to_vec()));
}

#[test]
fn template_admits_names_of_its_shape() {
    let template = Template::resolve(b"dir/tmp.XXXXXX.dir").expect("the path is a template");
    assert!(template.admits(b"tmp.abc123.dir"));
    assert!(template.admits(b"tmp.XXXXXX.dir"));
    assert!(!template.admits(b"tmp.abc12.dir"));
    assert!(!template.admits(b"tmp.abc1234.dir"));
    assert!(!template.admits(b"tmq.abc123.dir"));
    assert!(!template.admits(b"tmp.abc123.dir2"));
    assert!(!template.admits(b"tmp.abc123.did"));
    assert!(!template.admits(b""));
}

#[test]
fn temporary_directory_takes_random_characters_for_the_longest_run() {
    let parent = tempfile::TempDir::new().expect("a directory for the test");
    let mut path = <[u8] as bstr::ByteSlice>::from_path(parent.path())
        .expect("the path is bytes")
        .to_vec();
    path.extend_from_slice(b"/aXbXXXc");
    let template = Template::resolve(&path).expect("the path is a template");
    assert_eq!(template.prefix, b"aXb".to_vec());
    assert_eq!(template.filler_length, 3);
    assert_eq!(template.suffix, b"c".to_vec());
    let made = tempfile::Builder::new()
        .prefix(bstr::ByteSlice::to_os_str(template.prefix.as_slice()).expect("text"))
        .rand_bytes(template.filler_length)
        .suffix(bstr::ByteSlice::to_os_str(template.suffix.as_slice()).expect("text"))
        .tempdir_in(parent.path())
        .expect("the temporary directory is created");
    let name = made.path().file_name().expect("the directory has a name").to_owned();
    let name = <[u8] as bstr::ByteSlice>::from_os_str(&name).expect("the name is bytes");
    assert_eq!(name.len(), 7);
    assert!(name.starts_with(b"aXb"));
    assert!(name.ends_with(b"c"));
    assert!(template.admits(name));
}

#[test]
fn template_without_fillers_admits_its_name_only() {
    let template = Template::resolve(b"dir/name").expect("the path is a template");
    assert!(template.admits(b"name"));
    assert!(!template.admits(b"names"));
    assert!(!template.admits(b"nam"));
}

#[test]
fn template_with_a_huge_filler_length_admits_nothing_short() {
    let template = Template {
        parent: None,
        prefix: b"a".to_vec(),
        filler_length: usize::MAX,
        suffix: b"b".to_vec(),
    };
    assert!(!template.admits(b"ab"));
    assert!(!template.admits(b"a-b"));
}

#[test]
fn temporary_directory_is_named_as_the_template_says() {
    let parent = tempfile::TempDir::new().expect("a directory for the test");
    let mut path = <[u8] as bstr::ByteSlice>::from_path(parent.path())
        .expect("the path is bytes")
        .to_vec();
    path.extend_from_slice(b"/tmp.XXXXXX.dir");
    let template = Template::resolve(&path).expect("the path is a template");
    let directory =
        bstr::ByteSlice::to_path(template.parent.as_deref().expect("the template has a parent"))
            .expect("the parent is a path")
            .to_path_buf();
    assert_eq!(directory.as_path(), parent.path());
    let made = tempfile::Builder::new()
        .prefix(bstr::ByteSlice::to_os_str(template.prefix.as_slice()).expect("text"))
        .rand_bytes(template.filler_length)
        .suffix(bstr::ByteSlice::to_os_str(template.suffix.as_slice()).expect("text"))
        .tempdir_in(&directory)
        .expect("the temporary directory is created");
    let made_path = made.path().to_path_buf();
    let name = made_path.file_name().expect("the directory has a name");
    let name = <[u8] as bstr::ByteSlice>::from_os_str(name).expect("the name is bytes");
    assert_eq!(name.len(), "tmp.XXXXXX.dir".len());
    assert!(template.admits(name));
    assert!(made_path.is_dir());
    assert_eq!(made_path.parent(), Some(parent.path()));
    made.close().expect("the temporary directory is deleted");
    assert!(!made_path.exists());
    assert!(parent.path().is_dir());
}
