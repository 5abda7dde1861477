use std::io::Read;

use minion::container::{
    archive_paths, collect_output, create_options, download_failure, downloaded_file,
    path_segments, read_downloaded, Container, LogFrame, Output, ReadFileError, CONTAINER_NAME,
};

fn container() -> Container {
    Container::new("abc123".to_string(), "project")
}

/// The entries of an archive: path, whether it is a directory, mode, content.
fn entries(bytes: &[u8]) -> Vec<(String, bool, u32, Vec<u8>)> {
    let mut archive = tar::Archive::new(std::io::Cursor::new(bytes));
    let mut found = Vec::new();
    for entry in archive.entries().unwrap() {
        let mut entry = entry.unwrap();
        let path = entry.path().unwrap().to_str().unwrap().to_string();
        let directory = entry.header().entry_type() == tar::EntryType::Directory;
        let mode = entry.header().mode().unwrap();
        let mut content = Vec::new();
        entry.read_to_end(&mut content).unwrap();
        found.push((path, directory, mode, content));
    }
    found
}

#[test]
fn the_workspace_lies_under_workspaces() {
    let container = container();
    assert_eq!(container.workspace_dir_container(), "/workspaces/project");
    assert_eq!(container.id(), "abc123");
    assert_eq!(Container::new(String::new(), "").workspace_dir_container(), "/workspaces/");
}

#[test]
fn relative_paths_are_taken_from_the_workspace() {
    let container = container();
    assert_eq!(container.resolve_path("README.md"), "/workspaces/project/README.md");
    assert_eq!(container.resolve_path("src/lib.rs"), "/workspaces/project/src/lib.rs");
    assert_eq!(container.resolve_path("/etc/hosts"), "/etc/hosts");
    assert_eq!(container.resolve_path("/"), "/");
    assert_eq!(container.resolve_path(""), "/workspaces/project/");
    assert_eq!(container.resolve_path("é/ü.txt"), "/workspaces/project/é/ü.txt");
    // A workspace directory that ends with a separator gets no second one.
    let bare = Container::new(String::new(), "");
    assert_eq!(bare.resolve_path("a.txt"), "/workspaces/a.txt");
}

#[test]
fn the_container_is_created_with_the_workspace_mounted() {
    let options =
        create_options("rust:1".to_string(), "/home/me/workspaces/project", "/workspaces/project");
    assert_eq!(options.name, "minion-devcontainer");
    assert_eq!(options.name, CONTAINER_NAME);
    assert_eq!(options.image, "rust:1");
    assert_eq!(options.binds, vec!["/home/me/workspaces/project:/workspaces/project".to_string()]);
    assert!(options.tty);
    assert_eq!(options.cmd, vec!["tail".to_string(), "-f".to_string(), "/dev/null".to_string()]);
}

#[test]
fn segments_leave_out_empty_pieces_and_dots() {
    assert_eq!(path_segments("/workspaces/x/a.txt"), vec!["workspaces", "x", "a.txt"]);
    assert_eq!(path_segments("a//b/./c/"), vec!["a", "b", "c"]);
    assert_eq!(path_segments("./a/.."), vec!["a", ".."]);
    assert_eq!(path_segments(".hidden/..."), vec![".hidden", "..."]);
    assert_eq!(path_segments(""), Vec::<String>::new());
    assert_eq!(path_segments("///"), Vec::<String>::new());
    assert_eq!(path_segments("."), Vec::<String>::new());
    assert_eq!(path_segments("é/✓"), vec!["é", "✓"]);
}

#[test]
fn parent_directories_come_from_the_root_down() {
    let (directories, file) = archive_paths("/workspaces/project/src/bin/main.rs");
    assert_eq!(
        directories,
        vec!["workspaces", "workspaces/project", "workspaces/project/src", "workspaces/project/src/bin"]
    );
    assert_eq!(file, "workspaces/project/src/bin/main.rs");

    let (directories, file) = archive_paths("/top.txt");
    assert!(directories.is_empty());
    assert_eq!(file, "top.txt");

    let (directories, file) = archive_paths("/");
    assert!(directories.is_empty());
    assert_eq!(file, "");
}

#[test]
fn a_written_file_travels_with_its_directories() {
    let bytes = container().write_file_archive("src/new.txt", "hello\n").unwrap();
    assert_eq!(
        entries(&bytes),
        vec![
            ("workspaces".to_string(), true, 0o755, vec![]),
            ("workspaces/project".to_string(), true, 0o755, vec![]),
            ("workspaces/project/src".to_string(), true, 0o755, vec![]),
            ("workspaces/project/src/new.txt".to_string(), false, 0o644, b"hello\n".to_vec()),
        ]
    );
    // Three headers, the header and one block of the file, and the end of the archive.
    assert_eq!(bytes.len(), 3 * 512 + 2 * 512 + 1024);
    assert!(bytes[bytes.len() - 1024..].iter().all(|b| *b == 0));
}

#[test]
fn an_absolute_path_is_written_where_it_says() {
    let bytes = container().write_file_archive("/etc/motd", "hi").unwrap();
    assert_eq!(
        entries(&bytes),
        vec![
            ("etc".to_string(), true, 0o755, vec![]),
            ("etc/motd".to_string(), false, 0o644, b"hi".to_vec()),
        ]
    );
}

#[test]
fn content_is_written_as_its_utf8_bytes() {
    let bytes = container().write_file_archive("/a", "héllo ✓").unwrap();
    assert_eq!(entries(&bytes)[0].3, "héllo ✓".as_bytes().to_vec());
    let bytes = container().write_file_archive("/a", "").unwrap();
    assert_eq!(entries(&bytes), vec![("a".to_string(), false, 0o644, vec![])]);
}

#[test]
fn paths_that_tar_refuses_fail_with_its_message() {
    assert!(container().write_file_archive("/a/../b", "x").is_err());
    assert!(container().write_file_archive("/", "x").is_err());
    let long = "d".repeat(120);
    assert!(container().write_file_archive(&long, "x").is_err());
}

#[test]
fn a_script_goes_to_tmp_and_runs_in_the_workspace() {
    let run = container().script_run("AbCdEfGh12345678", "echo hi\n").unwrap();
    assert_eq!(run.path, "/tmp/minion-script-AbCdEfGh12345678.sh");
    assert_eq!(
        run.cmd,
        vec!["/bin/bash".to_string(), "/tmp/minion-script-AbCdEfGh12345678.sh".to_string()]
    );
    assert_eq!(run.working_dir, "/workspaces/project");
    assert!(run.attach_stdout && run.attach_stderr);
    assert!(!run.detach && !run.tty);
    assert_eq!(
        entries(&run.archive),
        vec![(
            "tmp/minion-script-AbCdEfGh12345678.sh".to_string(),
            false,
            0o755,
            b"echo hi\n".to_vec()
        )]
    );
}

#[test]
fn a_prepared_script_gets_a_random_name() {
    let container = container();
    let first = container.prepare_script("true").unwrap();
    let second = container.prepare_script("true").unwrap();
    for run in [&first, &second] {
        let name = run.path.strip_prefix("/tmp/minion-script-").unwrap();
        let suffix = name.strip_suffix(".sh").unwrap();
        assert_eq!(suffix.len(), 16);
        assert!(suffix.chars().all(|c| c.is_ascii_alphanumeric()));
        assert_eq!(run.cmd, vec!["/bin/bash".to_string(), run.path.clone()]);
        assert_eq!(entries(&run.archive)[0].0, run.path[1..]);
        assert_eq!(entries(&run.archive)[0].3, b"true".to_vec());
    }
    assert_ne!(first.path, second.path);
}

#[test]
fn output_is_collected_stream_by_stream() {
    let frames = vec![
        LogFrame::StdOut(b"hi".to_vec()),
        LogFrame::StdErr(b"warn: ".to_vec()),
        LogFrame::Other,
        LogFrame::StdOut(b"\n".to_vec()),
        LogFrame::StdErr(b"careful".to_vec()),
    ];
    assert_eq!(
        collect_output(&frames, Some(3)),
        Output { exit_code: 3, stdout: "hi\n".to_string(), stderr: "warn: careful".to_string() }
    );
    assert_eq!(
        collect_output(&Vec::new(), None),
        Output { exit_code: 0, stdout: String::new(), stderr: String::new() }
    );
}

#[test]
fn bytes_that_are_not_utf8_are_replaced() {
    // A character split over two frames is whole again; a stray byte is replaced.
    let frames = vec![
        LogFrame::StdOut(vec![0xc3]),
        LogFrame::StdOut(vec![0xa9, b'!']),
        LogFrame::StdErr(vec![b'a', 0xff, b'b']),
    ];
    let output = collect_output(&frames, Some(-1));
    assert_eq!(output.stdout, "é!");
    assert_eq!(output.stderr, "a\u{fffd}b");
    assert_eq!(output.exit_code, -1);
}

fn archive_of(files: &[(&str, &[u8])]) -> Vec<u8> {
    let mut builder = tar::Builder::new(Vec::new());
    for (path, content) in files {
        let mut header = tar::Header::new_gnu();
        header.set_size(content.len() as u64);
        header.set_mode(0o644);
        header.set_cksum();
        builder.append_data(&mut header, path, *content).unwrap();
    }
    builder.into_inner().unwrap()
}

#[test]
fn the_first_entry_of_a_download_is_the_file() {
    let bytes = archive_of(&[("README.md", b"X"), ("other", b"Y")]);
    assert_eq!(read_downloaded(&bytes), Ok("X".to_string()));
    let bytes = archive_of(&[("empty", b"")]);
    assert_eq!(read_downloaded(&bytes), Ok(String::new()));
}

#[test]
fn a_download_without_entries_means_not_found() {
    assert_eq!(read_downloaded(&archive_of(&[])), Err(ReadFileError::NotFound));
    assert_eq!(read_downloaded(&Vec::new()), Err(ReadFileError::NotFound));
}

#[test]
fn a_download_that_cannot_be_read_is_another_error() {
    let bytes = archive_of(&[("binary", &[0xff, 0xfe, 0x00])]);
    assert!(matches!(read_downloaded(&bytes), Err(ReadFileError::Other(_))));
    let garbage = vec![7u8; 700];
    assert!(matches!(read_downloaded(&garbage), Err(ReadFileError::Other(_))));
}

#[test]
fn what_was_found_decides_what_a_download_amounts_to() {
    assert_eq!(downloaded_file(Ok(Some("text".to_string()))), Ok("text".to_string()));
    assert_eq!(downloaded_file(Ok(None)), Err(ReadFileError::NotFound));
    assert_eq!(
        downloaded_file(Err("broken".to_string())),
        Err(ReadFileError::Other("broken".to_string()))
    );
}

#[test]
fn only_status_404_means_not_found() {
    assert_eq!(download_failure(Some(404), "gone".to_string()), ReadFileError::NotFound);
    assert_eq!(
        download_failure(Some(500), "boom".to_string()),
        ReadFileError::Other("boom".to_string())
    );
    assert_eq!(
        download_failure(None, "timeout".to_string()),
        ReadFileError::Other("timeout".to_string())
    );
}
