//! What the agent asks of its container, as plain values: where paths point,
//! what a script is called, which archive carries a file in, and what to make
//! of what comes back.

use crate::text::chars_of;
use vstd::prelude::*;
use vstd::string::*;
use vstd::utf8::{decode_utf8, valid_utf8};

verus! {

/// What a script left behind.
#[derive(Debug, PartialEq, Eq)]
pub struct Output {
    pub exit_code: i64,
    pub stdout: String,
    pub stderr: String,
}

/// What an [`Output`] holds, as mathematical values.
pub struct OutputView {
    pub exit_code: i64,
    pub stdout: Seq<char>,
    pub stderr: Seq<char>,
}

impl View for Output {
    type V = OutputView;

    open spec fn view(&self) -> OutputView {
        OutputView { exit_code: self.exit_code, stdout: self.stdout@, stderr: self.stderr@ }
    }
}

/// Why a file could not be read.
#[derive(Debug, PartialEq, Eq)]
pub enum ReadFileError {
    /// There is no such file.
    NotFound,
    /// Anything else, with the message that came with it.
    Other(String),
}

/// What a [`ReadFileError`] holds, as mathematical values.
pub enum ReadFileErrorView {
    NotFound,
    Other(Seq<char>),
}

impl View for ReadFileError {
    type V = ReadFileErrorView;

    open spec fn view(&self) -> ReadFileErrorView {
        match self {
            ReadFileError::NotFound => ReadFileErrorView::NotFound,
            ReadFileError::Other(message) => ReadFileErrorView::Other(message@),
        }
    }
}

/// The name under which the container is created.
pub const CONTAINER_NAME: &'static str = "minion-devcontainer";

/// Where the workspace named `name` is mounted inside the container.
pub open spec fn workspace_dir(name: Seq<char>) -> Seq<char> {
    "/workspaces/"@ + name
}

/// Where the workspace named `workspace_dir_name` is mounted inside the
/// container.
pub fn workspace_dir_of(workspace_dir_name: &str) -> (dir: String)
    ensures
        dir@ == workspace_dir(workspace_dir_name@),
{
    let mut dir = "/workspaces/".to_owned();
    dir.append(workspace_dir_name);
    dir
}

/// Whether a path starts at the root.
pub open spec fn is_absolute(path: Seq<char>) -> bool {
    path.len() > 0 && path[0] == '/'
}

/// `path` under `base`: the two are put together with one separator between
/// them, unless `base` is empty or already ends with one.
pub open spec fn join_paths(base: Seq<char>, path: Seq<char>) -> Seq<char> {
    if base.len() == 0 || base.last() == '/' {
        base + path
    } else {
        base + seq!['/'] + path
    }
}

/// Where `path` points inside the container: an absolute path points where it
/// says, any other path is taken from the workspace directory.
pub open spec fn resolve(workspace_dir: Seq<char>, path: Seq<char>) -> Seq<char> {
    if is_absolute(path) {
        path
    } else {
        join_paths(workspace_dir, path)
    }
}

/// `path` under `base`.
pub fn join_path(base: &str, path: &str) -> (joined: String)
    ensures
        joined@ == join_paths(base@, path@),
{
    let mut joined = base.to_owned();
    let len = base.unicode_len();
    if len > 0 && base.get_char(len - 1) != '/' {
        joined.append("/");
    }
    joined.append(path);
    proof {
        reveal_strlit("/");
    }
    joined
}

/// How the container is created, as plain values.
#[derive(Debug, PartialEq, Eq)]
pub struct CreateOptions {
    /// The name of the container.
    pub name: String,
    /// The image that it runs.
    pub image: String,
    /// The bind mounts, each as `host:container`.
    pub binds: Vec<String>,
    /// Whether a terminal is allocated.
    pub tty: bool,
    /// The command that keeps the container alive.
    pub cmd: Vec<String>,
}

/// The options for the container of a workspace: the host directory is
/// mounted at the workspace directory, a terminal is allocated, and the
/// command waits for ever so that the container stays up.
pub fn create_options(image: String, workspace_dir_host: &str, workspace_dir_container: &str) -> (options:
    CreateOptions)
    ensures
        options.name@ == CONTAINER_NAME@,
        options.image == image,
        options.binds.deep_view() == seq![
            workspace_dir_host@ + seq![':'] + workspace_dir_container@,
        ],
        options.tty,
        options.cmd.deep_view() == seq!["tail"@, "-f"@, "/dev/null"@],
{
    let mut bind = workspace_dir_host.to_owned();
    bind.append(":");
    bind.append(workspace_dir_container);
    proof {
        reveal_strlit(":");
    }
    assert(bind@ =~= workspace_dir_host@ + seq![':'] + workspace_dir_container@);
    let mut binds: Vec<String> = Vec::new();
    binds.push(bind);
    let mut cmd: Vec<String> = Vec::new();
    cmd.push("tail".to_owned());
    cmd.push("-f".to_owned());
    cmd.push("/dev/null".to_owned());
    CreateOptions { name: CONTAINER_NAME.to_owned(), image, binds, tty: true, cmd }
}

/// A running container, as the agent knows it: its identifier and the
/// directory in which the workspace is mounted.
#[derive(Debug, PartialEq, Eq)]
pub struct Container {
    id: String,
    workspace_dir_container: String,
}

/// What a [`Container`] holds, as mathematical values.
pub struct ContainerView {
    pub id: Seq<char>,
    pub workspace_dir: Seq<char>,
}

impl View for Container {
    type V = ContainerView;

    closed spec fn view(&self) -> ContainerView {
        ContainerView { id: self.id@, workspace_dir: self.workspace_dir_container@ }
    }
}

impl Container {
    /// The container with the given identifier, for the workspace with the
    /// given name.
    pub fn new(id: String, workspace_dir_name: &str) -> (container: Container)
        ensures
            container@.id == id@,
            container@.workspace_dir == workspace_dir(workspace_dir_name@),
    {
        Container { id, workspace_dir_container: workspace_dir_of(workspace_dir_name) }
    }

    /// The identifier of the container.
    pub fn id(&self) -> (id: &str)
        ensures
            id@ == self@.id,
    {
        self.id.as_str()
    }

    /// The directory in which the workspace is mounted.
    pub fn workspace_dir_container(&self) -> (dir: &str)
        ensures
            dir@ == self@.workspace_dir,
    {
        self.workspace_dir_container.as_str()
    }

    /// Where `path` points inside the container.
    pub fn resolve_path(&self, path: &str) -> (resolved: String)
        ensures
            resolved@ == resolve(self@.workspace_dir, path@),
    {
        if !path.is_empty() && path.get_char(0) == '/' {
            path.to_owned()
        } else {
            join_path(self.workspace_dir_container.as_str(), path)
        }
    }
}

/// Whether a piece of a path between two separators names something: empty
/// pieces and `.` do not.
pub open spec fn is_kept_segment(segment: Seq<char>) -> bool {
    segment.len() > 0 && segment != seq!['.']
}

/// `done` with `segment` behind it, if the segment names something.
pub open spec fn close_segment(done: Seq<Seq<char>>, segment: Seq<char>) -> Seq<Seq<char>> {
    if is_kept_segment(segment) {
        done.push(segment)
    } else {
        done
    }
}

/// The segments of `path`, given that those before `from` are `done` and that
/// no separator stands in `path[from..i]`.
pub open spec fn segments_from(path: Seq<char>, from: int, i: int, done: Seq<Seq<char>>) -> Seq<
    Seq<char>,
>
    decreases path.len() - i,
{
    if i >= path.len() {
        close_segment(done, path.subrange(from, path.len() as int))
    } else if path[i] == '/' {
        segments_from(path, i + 1, i + 1, close_segment(done, path.subrange(from, i)))
    } else {
        segments_from(path, from, i + 1, done)
    }
}

/// The names that make up a path: what stands between its separators, without
/// the empty pieces and without `.`.
pub open spec fn segments(path: Seq<char>) -> Seq<Seq<char>> {
    segments_from(path, 0, 0, Seq::empty())
}

/// The segments put together again, with one separator between two of them.
pub open spec fn joined(segments: Seq<Seq<char>>) -> Seq<char>
    decreases segments.len(),
{
    if segments.len() == 0 {
        Seq::empty()
    } else if segments.len() == 1 {
        segments[0]
    } else {
        joined(segments.drop_last()) + seq!['/'] + segments.last()
    }
}

/// The path under which a file goes into an archive that is unpacked at the
/// root: the path without its leading separator, with its segments tidied.
pub open spec fn archive_path(path: Seq<char>) -> Seq<char> {
    joined(segments(path))
}

/// The directories that lie between the root and the file at `path`, from the
/// root down, each as it goes into the archive.
pub open spec fn parent_directories(path: Seq<char>) -> Seq<Seq<char>> {
    let names = segments(path);
    if names.len() == 0 {
        Seq::empty()
    } else {
        Seq::new((names.len() - 1) as nat, |k: int| joined(names.take(k + 1)))
    }
}

/// Whether `chars[from..to]` names something.
fn keeps_segment(chars: &Vec<char>, from: usize, to: usize) -> (kept: bool)
    requires
        from <= to <= chars@.len(),
    ensures
        kept == is_kept_segment(chars@.subrange(from as int, to as int)),
{
    let ghost segment = chars@.subrange(from as int, to as int);
    if to - from == 1 && chars[from] == '.' {
        assert(segment =~= seq!['.']);
        false
    } else {
        assert(segment != seq!['.']) by {
            if segment == seq!['.'] {
                assert(segment.len() == 1);
                assert(segment[0] == '.');
            }
        }
        to > from
    }
}

/// The names that make up `path`.
pub fn path_segments(path: &str) -> (names: Vec<String>)
    ensures
        names.deep_view() == segments(path@),
{
    let chars = chars_of(path);
    let mut names: Vec<String> = Vec::new();
    let mut from: usize = 0;
    let mut i: usize = 0;
    assert(names.deep_view() =~= Seq::<Seq<char>>::empty());
    while i < chars.len()
        invariant
            chars@ == path@,
            from <= i <= chars@.len(),
            segments(path@) == segments_from(path@, from as int, i as int, names.deep_view()),
        decreases chars@.len() - i,
    {
        if chars[i] == '/' {
            let ghost before = names.deep_view();
            if keeps_segment(&chars, from, i) {
                names.push(path.substring_char(from, i).to_owned());
            }
            assert(names.deep_view() == close_segment(before, path@.subrange(from as int, i as int)));
            from = i + 1;
        }
        i += 1;
    }
    let end = chars.len();
    if keeps_segment(&chars, from, end) {
        names.push(path.substring_char(from, end).to_owned());
    }
    names
}

/// The directories between the root and the file at `path`, from the root
/// down, and the path of the file itself, all as they go into an archive that
/// is unpacked at the root.
pub fn archive_paths(path: &str) -> (paths: (Vec<String>, String))
    ensures
        paths.0.deep_view() == parent_directories(path@),
        paths.1@ == archive_path(path@),
{
    let names = path_segments(path);
    let mut directories: Vec<String> = Vec::new();
    let mut current = String::new();
    let mut k: usize = 0;
    while k < names.len()
        invariant
            k <= names@.len(),
            names.deep_view() == segments(path@),
            current@ == joined(names.deep_view().take(k as int)),
            directories@.len() == if k == 0 { 0 } else { k - 1 },
            forall|j: int|
                0 <= j < directories@.len() ==> (#[trigger] directories@[j])@ == joined(
                    names.deep_view().take(j + 1),
                ),
        decreases names@.len() - k,
    {
        if k > 0 {
            directories.push(current.clone());
            current.append("/");
        }
        current.append(names[k].as_str());
        proof {
            reveal_strlit("/");
            let taken = names.deep_view().take(k + 1);
            assert(taken.drop_last() =~= names.deep_view().take(k as int));
        }
        k += 1;
    }
    assert(names.deep_view().take(names@.len() as int) =~= names.deep_view());
    (directories, current)
}

/// An archive in the making. It holds the builder of the `tar` crate, which
/// writes into a buffer in memory.
#[verifier::external_body]
pub struct ArchiveBuilder {
    builder: tar::Builder<Vec<u8>>,
}

/// The bytes that an archive builder has written so far.
pub uninterp spec fn archive_written(archive: ArchiveBuilder) -> Seq<u8>;

/// What `tar` makes of a directory with the given path and mode: the header
/// block that it writes, or the message with which it refuses the path.
pub uninterp spec fn directory_entry(path: Seq<char>, mode: u32) -> Result<Seq<u8>, Seq<char>>;

/// The message with which `tar` refuses to put the path into a header, if it
/// refuses it.
pub uninterp spec fn header_path_refusal(path: Seq<char>) -> Option<Seq<char>>;

/// What `tar` makes of a regular file with the given path, mode and content:
/// the blocks that it writes (the header, after a long-name entry where the
/// path needs one, the content, and the padding up to the next block), or the
/// message with which it refuses the path.
pub uninterp spec fn file_entry(path: Seq<char>, mode: u32, data: Seq<u8>) -> Result<
    Seq<u8>,
    Seq<char>,
>;

/// The message with which `tar` fails to close an archive that holds the
/// given bytes, if it fails.
pub uninterp spec fn closing_refusal(written: Seq<u8>) -> Option<Seq<char>>;

/// What closes an archive: two blocks of zeros.
pub open spec fn archive_end() -> Seq<u8> {
    Seq::new(1024, |i: int| 0u8)
}

/// Whether an entry went into the archive as `tar` decided: its blocks are
/// behind what was there, or the call failed with the message of the refusal.
pub open spec fn entry_appended(
    entry: Result<Seq<u8>, Seq<char>>,
    before: Seq<u8>,
    after: Seq<u8>,
    result: Result<(), String>,
) -> bool {
    match entry {
        Ok(blocks) => result is Ok && after == before + blocks,
        Err(message) => result is Err && result->Err_0@ == message,
    }
}

/// Whether a call failed exactly where there is a refusal, with its message.
pub open spec fn refused_as(refusal: Option<Seq<char>>, result: Result<(), String>) -> bool {
    match refusal {
        None => result is Ok,
        Some(message) => result is Err && result->Err_0@ == message,
    }
}

/// The archive that holds the given bytes, closed: the bytes and the end of
/// the archive, or the message with which closing fails.
pub open spec fn archive_closed(written: Seq<u8>) -> Result<Seq<u8>, Seq<char>> {
    match closing_refusal(written) {
        None => Ok(written + archive_end()),
        Some(message) => Err(message),
    }
}

/// Bytes or the message that stands in their place, as mathematical values.
pub open spec fn bytes_result_view(result: Result<Vec<u8>, String>) -> Result<
    Seq<u8>,
    Seq<char>,
> {
    match result {
        Ok(bytes) => Ok(bytes@),
        Err(message) => Err(message@),
    }
}

/// Whether an archive was closed as `tar` decided: the buffer holds what was
/// written and the end of the archive, or the call failed with the message of
/// the refusal.
pub open spec fn closed_as(
    refusal: Option<Seq<char>>,
    written: Seq<u8>,
    result: Result<Vec<u8>, String>,
) -> bool {
    match refusal {
        None => result is Ok && result->Ok_0@ == written + archive_end(),
        Some(message) => result is Err && result->Err_0@ == message,
    }
}

/// Calls `tar::Builder::new` on an empty buffer: nothing is written yet.
#[verifier::external_body]
fn new_archive() -> (archive: ArchiveBuilder)
    ensures
        archive_written(archive) == Seq::<u8>::empty(),
{
    ArchiveBuilder { builder: tar::Builder::new(Vec::new()) }
}

/// Calls `tar::Builder::append` with no content and a header for a
/// directory, made by `tar::Header::new_gnu`, `set_path`, `set_entry_type`,
/// `set_mode`, `set_size` (zero) and `set_cksum`. `set_path` refuses some
/// paths (a path that does not fit, one that is absolute or holds `..`);
/// then the call fails with its message. Otherwise `append` writes the header
/// behind what was there. Which of the two happens, and what is written,
/// depends on the path and the mode alone: the buffer in memory takes what it
/// is given.
#[verifier::external_body]
fn append_directory(archive: &mut ArchiveBuilder, path: &str, mode: u32) -> (result: Result<
    (),
    String,
>)
    ensures
        entry_appended(
            directory_entry(path@, mode),
            archive_written(*old(archive)),
            archive_written(*final(archive)),
            result,
        ),
{
    let mut header = tar::Header::new_gnu();
    header.set_path(path).map_err(|e| e.to_string())?;
    header.set_entry_type(tar::EntryType::Directory);
    header.set_mode(mode);
    header.set_size(0);
    header.set_cksum();
    archive.builder.append(&header, std::io::empty()).map_err(|e| e.to_string())
}

/// Calls `tar::Header::set_path` on a fresh GNU header, which refuses a path
/// that does not fit into a header. Whether it does depends on the path
/// alone.
#[verifier::external_body]
fn check_header_path(path: &str) -> (result: Result<(), String>)
    ensures
        refused_as(header_path_refusal(path@), result),
{
    tar::Header::new_gnu().set_path(path).map_err(|e| e.to_string())
}

/// Calls `tar::Builder::append_data` with the content and a header made by
/// `tar::Header::new_gnu`, `set_size` (the length of the content), `set_mode`
/// and `set_cksum`. `append_data` puts the path into the header and writes
/// the entry behind what was there, or fails with the message with which it
/// refuses the path. Which of the two happens, and what is written, depends
/// on the path, the mode and the content alone.
#[verifier::external_body]
fn append_file(archive: &mut ArchiveBuilder, path: &str, mode: u32, data: &Vec<u8>) -> (result:
    Result<(), String>)
    ensures
        entry_appended(
            file_entry(path@, mode, data@),
            archive_written(*old(archive)),
            archive_written(*final(archive)),
            result,
        ),
{
    let mut header = tar::Header::new_gnu();
    header.set_size(data.len() as u64);
    header.set_mode(mode);
    header.set_cksum();
    archive.builder.append_data(&mut header, path, data.as_slice()).map_err(|e| e.to_string())
}

/// Calls `tar::Builder::into_inner`, which closes the archive with two blocks
/// of zeros and hands out the buffer, or fails with the message of the error
/// that writing them gave.
#[verifier::external_body]
fn finish_archive(archive: ArchiveBuilder) -> (result: Result<Vec<u8>, String>)
    ensures
        closed_as(closing_refusal(archive_written(archive)), archive_written(archive), result),
{
    archive.builder.into_inner().map_err(|e| e.to_string())
}

/// The mode of the directories that a written file lies in.
pub const DIRECTORY_MODE: u32 = 0o755;

/// The mode of a written file.
pub const FILE_MODE: u32 = 0o644;

/// The mode of a script.
pub const SCRIPT_MODE: u32 = 0o755;

/// The directory of the container at which archives are unpacked.
pub const UPLOAD_ROOT: &'static str = "/";

/// The number of random characters in the name of a script.
pub const SCRIPT_SUFFIX_LEN: usize = 16;

/// The headers of the given directories, in order, or the message with
/// which the first of them that is refused is refused.
pub open spec fn directories_result(directories: Seq<Seq<char>>) -> Result<Seq<u8>, Seq<char>>
    decreases directories.len(),
{
    if directories.len() == 0 {
        Ok(Seq::empty())
    } else {
        match directories_result(directories.drop_last()) {
            Err(message) => Err(message),
            Ok(written) => match directory_entry(directories.last(), DIRECTORY_MODE) {
                Ok(block) => Ok(written + block),
                Err(message) => Err(message),
            },
        }
    }
}

/// The archive that carries a file into the container when it is unpacked at
/// the root: every directory between the root and the file, from the root
/// down, then the file itself, then the end of the archive. Where `tar`
/// refuses a directory, the path of the file or the file, there is no archive
/// but the message of the first refusal.
pub open spec fn file_archive(resolved: Seq<char>, data: Seq<u8>) -> Result<Seq<u8>, Seq<char>> {
    match directories_result(parent_directories(resolved)) {
        Err(message) => Err(message),
        Ok(directories) => match header_path_refusal(archive_path(resolved)) {
            Some(message) => Err(message),
            None => match file_entry(archive_path(resolved), FILE_MODE, data) {
                Err(message) => Err(message),
                Ok(file) => archive_closed(directories + file),
            },
        },
    }
}

/// Once a directory is refused, the directories after it change nothing: the
/// message of the first refusal stands.
pub proof fn lemma_first_refusal_stands(directories: Seq<Seq<char>>, k: int)
    requires
        0 <= k <= directories.len(),
        directories_result(directories.take(k)) is Err,
    ensures
        directories_result(directories) == directories_result(directories.take(k)),
    decreases directories.len() - k,
{
    if k < directories.len() {
        assert(directories.take(k + 1).drop_last() =~= directories.take(k));
        lemma_first_refusal_stands(directories, k + 1);
    } else {
        assert(directories.take(k) =~= directories);
    }
}

/// Whether a character is an ASCII letter or digit.
pub open spec fn is_alphanumeric(c: char) -> bool {
    ('0' <= c && c <= '9') || ('A' <= c && c <= 'Z') || ('a' <= c && c <= 'z')
}

/// Whether `suffix` can be the random part of the name of a script.
pub open spec fn is_script_suffix(suffix: Seq<char>) -> bool {
    suffix.len() == SCRIPT_SUFFIX_LEN && forall|i: int|
        0 <= i < suffix.len() ==> is_alphanumeric(#[trigger] suffix[i])
}

/// Calls `rand::Rng::sample_iter` on `rand::thread_rng` with the distribution
/// `rand::distributions::Alphanumeric` and takes `n` characters. The
/// characters differ from call to call; each is an ASCII letter or digit.
#[verifier::external_body]
fn random_alphanumeric(n: usize) -> (text: String)
    ensures
        text@.len() == n,
        forall|i: int| 0 <= i < text@.len() ==> is_alphanumeric(#[trigger] text@[i]),
{
    rand::Rng::sample_iter(rand::thread_rng(), &rand::distributions::Alphanumeric)
        .take(n)
        .map(char::from)
        .collect()
}

/// The name of the script with the given random part.
pub open spec fn script_filename(suffix: Seq<char>) -> Seq<char> {
    "minion-script-"@ + suffix + ".sh"@
}

/// Where the script lies in the container.
pub open spec fn script_path(suffix: Seq<char>) -> Seq<char> {
    "/tmp/"@ + script_filename(suffix)
}

/// The path of the script in the archive that is unpacked at the root.
pub open spec fn script_archive_path(suffix: Seq<char>) -> Seq<char> {
    "tmp/"@ + script_filename(suffix)
}

/// The archive that carries a script into the container: the script alone,
/// then the end of the archive. Where `tar` refuses the path, there is no
/// archive but the message of the refusal.
pub open spec fn script_archive(suffix: Seq<char>, code: Seq<u8>) -> Result<Seq<u8>, Seq<char>> {
    match file_entry(script_archive_path(suffix), SCRIPT_MODE, code) {
        Err(message) => Err(message),
        Ok(file) => archive_closed(file),
    }
}

/// All that it takes to run a script: what to upload at the root, and what to
/// execute where.
#[derive(Debug, PartialEq, Eq)]
pub struct ScriptRun {
    /// Where the script lies in the container.
    pub path: String,
    /// The archive to upload at the root of the container.
    pub archive: Vec<u8>,
    /// The command to execute, with both output streams attached.
    pub cmd: Vec<String>,
    /// The directory to execute it in.
    pub working_dir: String,
    /// Whether the standard output is captured.
    pub attach_stdout: bool,
    /// Whether the standard error is captured.
    pub attach_stderr: bool,
    /// Whether the command is left to run on its own.
    pub detach: bool,
    /// Whether a terminal is allocated.
    pub tty: bool,
}

/// Whether `run` is the run of the script with the given random part in its
/// name, carried by `archive`, in the given directory: the shell is handed the
/// path of the script, both output streams are captured, and the caller waits
/// for the end without a terminal.
pub open spec fn is_script_run(
    run: ScriptRun,
    suffix: Seq<char>,
    archive: Seq<u8>,
    working_dir: Seq<char>,
) -> bool {
    &&& run.path@ == script_path(suffix)
    &&& run.archive@ == archive
    &&& run.cmd.deep_view() == seq!["/bin/bash"@, script_path(suffix)]
    &&& run.working_dir@ == working_dir
    &&& run.attach_stdout
    &&& run.attach_stderr
    &&& !run.detach
    &&& !run.tty
}

/// Whether `result` is what preparing `code` under the name with the given
/// random part comes to: the run that uploads the archive of the script, or,
/// where there is no such archive, the message that stands in its place.
pub open spec fn script_run_follows(
    result: Result<ScriptRun, String>,
    suffix: Seq<char>,
    code: Seq<u8>,
    working_dir: Seq<char>,
) -> bool {
    match script_archive(suffix, code) {
        Ok(archive) => result is Ok && is_script_run(result->Ok_0, suffix, archive, working_dir),
        Err(message) => result is Err && result->Err_0@ == message,
    }
}

impl Container {
    /// The archive to upload at the root of the container so that `content`
    /// ends up in the file at `path`: the directories that lead to the file,
    /// from the root down, then the file. Fails where `tar` refuses one of
    /// the paths, with the message of the first refusal.
    pub fn write_file_archive(&self, path: &str, content: &str) -> (result: Result<Vec<u8>, String>)
        ensures
            bytes_result_view(result) == file_archive(
                resolve(self@.workspace_dir, path@),
                content.spec_bytes(),
            ),
    {
        let resolved = self.resolve_path(path);
        let (directories, file) = archive_paths(resolved.as_str());
        let mut archive = new_archive();
        let mut k: usize = 0;
        while k < directories.len()
            invariant
                k <= directories@.len(),
                resolved@ == resolve(self@.workspace_dir, path@),
                directories.deep_view() == parent_directories(resolved@),
                directories_result(directories.deep_view().take(k as int)) == Ok::<
                    Seq<u8>,
                    Seq<char>,
                >(archive_written(archive)),
            decreases directories@.len() - k,
        {
            let appended = append_directory(&mut archive, directories[k].as_str(), DIRECTORY_MODE);
            proof {
                let taken = directories.deep_view().take(k + 1);
                assert(taken.drop_last() =~= directories.deep_view().take(k as int));
                assert(taken.last() == directories@[k as int]@);
            }
            match appended {
                Ok(()) => {},
                Err(message) => {
                    proof {
                        assert(directories_result(directories.deep_view().take(k + 1)) is Err);
                        lemma_first_refusal_stands(directories.deep_view(), k + 1);
                    }
                    return Err(message);
                },
            }
            k += 1;
        }
        assert(directories.deep_view().take(k as int) =~= directories.deep_view());
        match check_header_path(file.as_str()) {
            Ok(()) => {},
            Err(message) => {
                return Err(message);
            },
        }
        let data = content.as_bytes_vec();
        match append_file(&mut archive, file.as_str(), FILE_MODE, &data) {
            Ok(()) => {},
            Err(message) => {
                return Err(message);
            },
        }
        finish_archive(archive)
    }

    /// All that it takes to run `code` under the name with the given random
    /// part: the archive that carries the script to `/tmp`, the command that
    /// hands it to the shell, and the workspace as the directory to run it
    /// in. Fails where `tar` refuses the path of the script, with its message.
    pub fn script_run(&self, suffix: &str, code: &str) -> (result: Result<ScriptRun, String>)
        ensures
            script_run_follows(result, suffix@, code.spec_bytes(), self@.workspace_dir),
    {
        let mut path = "/tmp/minion-script-".to_owned();
        path.append(suffix);
        path.append(".sh");
        let mut in_archive = "tmp/minion-script-".to_owned();
        in_archive.append(suffix);
        in_archive.append(".sh");
        proof {
            reveal_strlit("/tmp/minion-script-");
            reveal_strlit("tmp/minion-script-");
            reveal_strlit("/tmp/");
            reveal_strlit("tmp/");
            reveal_strlit("minion-script-");
        }
        assert(path@ =~= script_path(suffix@));
        assert(in_archive@ =~= script_archive_path(suffix@));
        let mut archive = new_archive();
        let data = code.as_bytes_vec();
        match append_file(&mut archive, in_archive.as_str(), SCRIPT_MODE, &data) {
            Ok(()) => {},
            Err(message) => {
                return Err(message);
            },
        }
        assert(archive_written(archive) =~= file_entry(
            script_archive_path(suffix@),
            SCRIPT_MODE,
            code.spec_bytes(),
        )->Ok_0);
        let bytes = match finish_archive(archive) {
            Ok(bytes) => bytes,
            Err(message) => {
                return Err(message);
            },
        };
        let mut cmd: Vec<String> = Vec::new();
        cmd.push("/bin/bash".to_owned());
        cmd.push(path.clone());
        assert(cmd.deep_view() =~= seq!["/bin/bash"@, script_path(suffix@)]);
        Ok(
            ScriptRun {
                path,
                archive: bytes,
                cmd,
                working_dir: self.workspace_dir_container.clone(),
                attach_stdout: true,
                attach_stderr: true,
                detach: false,
                tty: false,
            },
        )
    }

    /// All that it takes to run `code`, under a fresh random name: what
    /// [`Container::script_run`] gives for some random part of sixteen ASCII
    /// letters and digits.
    pub fn prepare_script(&self, code: &str) -> (result: Result<ScriptRun, String>)
        ensures
            exists|suffix: Seq<char>|
                is_script_suffix(suffix) && #[trigger] script_run_follows(
                    result,
                    suffix,
                    code.spec_bytes(),
                    self@.workspace_dir,
                ),
    {
        let suffix = random_alphanumeric(SCRIPT_SUFFIX_LEN);
        let result = self.script_run(suffix.as_str(), code);
        proof {
            assert(is_script_suffix(suffix@));
            assert(script_run_follows(result, suffix@, code.spec_bytes(), self@.workspace_dir));
        }
        result
    }
}

/// One frame of what a running script writes.
#[derive(Debug, PartialEq, Eq)]
pub enum LogFrame {
    /// Bytes written to the standard output.
    StdOut(Vec<u8>),
    /// Bytes written to the standard error.
    StdErr(Vec<u8>),
    /// Anything else; it is ignored.
    Other,
}

/// What a [`LogFrame`] holds, as mathematical values.
pub enum LogFrameView {
    StdOut(Seq<u8>),
    StdErr(Seq<u8>),
    Other,
}

impl View for LogFrame {
    type V = LogFrameView;

    open spec fn view(&self) -> LogFrameView {
        match self {
            LogFrame::StdOut(bytes) => LogFrameView::StdOut(bytes@),
            LogFrame::StdErr(bytes) => LogFrameView::StdErr(bytes@),
            LogFrame::Other => LogFrameView::Other,
        }
    }
}

impl DeepView for LogFrame {
    type V = LogFrameView;

    open spec fn deep_view(&self) -> LogFrameView {
        self@
    }
}

/// All bytes that the frames carry for the standard output, in order.
pub open spec fn stdout_bytes(frames: Seq<LogFrameView>) -> Seq<u8>
    decreases frames.len(),
{
    if frames.len() == 0 {
        Seq::empty()
    } else {
        stdout_bytes(frames.drop_last()) + match frames.last() {
            LogFrameView::StdOut(bytes) => bytes,
            _ => Seq::empty(),
        }
    }
}

/// All bytes that the frames carry for the standard error, in order.
pub open spec fn stderr_bytes(frames: Seq<LogFrameView>) -> Seq<u8>
    decreases frames.len(),
{
    if frames.len() == 0 {
        Seq::empty()
    } else {
        stderr_bytes(frames.drop_last()) + match frames.last() {
            LogFrameView::StdErr(bytes) => bytes,
            _ => Seq::empty(),
        }
    }
}

/// The text that `String::from_utf8_lossy` makes of the bytes.
pub uninterp spec fn utf8_lossy(bytes: Seq<u8>) -> Seq<char>;

/// Calls `String::from_utf8_lossy`, which reads the bytes as UTF-8 and puts
/// the replacement character where they are not. Bytes that are valid UTF-8
/// give the text that they encode.
#[verifier::external_body]
fn decode_lossy(bytes: &Vec<u8>) -> (text: String)
    ensures
        text@ == utf8_lossy(bytes@),
        valid_utf8(bytes@) ==> text@ == decode_utf8(bytes@),
{
    String::from_utf8_lossy(bytes).into_owned()
}

/// What a script left behind: its two streams, each read as UTF-8 with
/// replacement characters where it is not, and its exit code, which counts as
/// zero where none was reported.
pub fn collect_output(frames: &Vec<LogFrame>, exit_code: Option<i64>) -> (output: Output)
    ensures
        output@.stdout == utf8_lossy(stdout_bytes(frames.deep_view())),
        output@.stderr == utf8_lossy(stderr_bytes(frames.deep_view())),
        output@.exit_code == (match exit_code {
            Some(code) => code,
            None => 0i64,
        }),
{
    let mut stdout: Vec<u8> = Vec::new();
    let mut stderr: Vec<u8> = Vec::new();
    let mut k: usize = 0;
    while k < frames.len()
        invariant
            k <= frames@.len(),
            stdout@ == stdout_bytes(frames.deep_view().take(k as int)),
            stderr@ == stderr_bytes(frames.deep_view().take(k as int)),
        decreases frames@.len() - k,
    {
        proof {
            let taken = frames.deep_view().take(k + 1);
            assert(taken.drop_last() =~= frames.deep_view().take(k as int));
        }
        match &frames[k] {
            LogFrame::StdOut(bytes) => {
                stdout.extend_from_slice(bytes.as_slice());
            },
            LogFrame::StdErr(bytes) => {
                stderr.extend_from_slice(bytes.as_slice());
            },
            LogFrame::Other => {},
        }
        k += 1;
    }
    assert(frames.deep_view().take(k as int) =~= frames.deep_view());
    let code = match exit_code {
        Some(code) => code,
        None => 0,
    };
    Output { exit_code: code, stdout: decode_lossy(&stdout), stderr: decode_lossy(&stderr) }
}

/// What `tar` finds at the start of an archive: the content of the first
/// entry as text, nothing where the archive has no entry, or the message of
/// the error that stopped it.
pub uninterp spec fn first_entry_text(bytes: Seq<u8>) -> Result<Option<Seq<char>>, Seq<char>>;

/// What was found at the start of an archive, as mathematical values.
pub open spec fn first_entry_view(found: Result<Option<String>, String>) -> Result<
    Option<Seq<char>>,
    Seq<char>,
> {
    match found {
        Ok(Some(text)) => Ok(Some(text@)),
        Ok(None) => Ok(None),
        Err(message) => Err(message@),
    }
}

/// Reads the first entry of an archive with `tar::Archive::new`,
/// `tar::Archive::entries` and `std::io::Read::read_to_string`. An error of
/// any of them comes back as its message; an archive without entries gives
/// nothing.
#[verifier::external_body]
fn read_first_entry(bytes: &Vec<u8>) -> (found: Result<Option<String>, String>)
    ensures
        first_entry_view(found) == first_entry_text(bytes@),
{
    let mut archive = tar::Archive::new(std::io::Cursor::new(bytes));
    let mut entries = archive.entries().map_err(|e| e.to_string())?;
    match entries.next() {
        None => Ok(None),
        Some(entry) => {
            let mut content = String::new();
            let mut file = entry.map_err(|e| e.to_string())?;
            std::io::Read::read_to_string(&mut file, &mut content).map_err(|e| e.to_string())?;
            Ok(Some(content))
        },
    }
}

/// What a download amounts to, given what was found at the start of the
/// archive: the text of the first entry; `NotFound` where there is no entry;
/// `Other`, with the message, where reading failed.
pub open spec fn read_outcome(found: Result<Option<Seq<char>>, Seq<char>>) -> Result<
    Seq<char>,
    ReadFileErrorView,
> {
    match found {
        Ok(Some(text)) => Ok(text),
        Ok(None) => Err(ReadFileErrorView::NotFound),
        Err(message) => Err(ReadFileErrorView::Other(message)),
    }
}

/// What came back for a file, as mathematical values.
pub open spec fn read_result_view(result: Result<String, ReadFileError>) -> Result<
    Seq<char>,
    ReadFileErrorView,
> {
    match result {
        Ok(text) => Ok(text@),
        Err(error) => Err(error@),
    }
}

/// What a download amounts to, given what was found at the start of the
/// archive.
pub fn downloaded_file(found: Result<Option<String>, String>) -> (result: Result<
    String,
    ReadFileError,
>)
    ensures
        read_result_view(result) == read_outcome(first_entry_view(found)),
{
    match found {
        Ok(Some(text)) => Ok(text),
        Ok(None) => Err(ReadFileError::NotFound),
        Err(message) => Err(ReadFileError::Other(message)),
    }
}

/// The content of the file that was downloaded as an archive.
pub fn read_downloaded(bytes: &Vec<u8>) -> (result: Result<String, ReadFileError>)
    ensures
        read_result_view(result) == read_outcome(first_entry_text(bytes@)),
{
    downloaded_file(read_first_entry(bytes))
}

/// Why a download failed: a status of 404 means that there is no such file;
/// anything else is passed on with its message.
pub fn download_failure(status_code: Option<u16>, message: String) -> (error: ReadFileError)
    ensures
        error@ == if status_code == Some(404u16) {
            ReadFileErrorView::NotFound
        } else {
            ReadFileErrorView::Other(message@)
        },
{
    match status_code {
        Some(404) => ReadFileError::NotFound,
        _ => ReadFileError::Other(message),
    }
}

} // verus!
