//! Staging of uploaded archives: what is accepted, and where it is put.

use vstd::prelude::*;
use sha2::Digest;
use crate::config::Config;
use crate::text;

verus! {

/// An archive that a participant has uploaded.
#[derive(Debug)]
pub struct UploadStageInput {
    pub team_id: String,
    pub upload_id: String,
    pub original_file_name: String,
    pub archive_bytes: Vec<u8>,
}

/// An archive that was staged.
#[derive(Debug)]
pub struct StagedUpload {
    pub team_id: String,
    pub upload_id: String,
    pub original_file_name: String,
    pub file_size: u64,
    pub sha256_hex: String,
    pub staged_path: String,
}

/// Why an archive was not staged.
#[derive(Debug)]
pub enum UploadStagingError {
    InvalidIdentifier { field: &'static str },
    InvalidOriginalFileName,
    InvalidArchiveExtension,
    EmptyArchive,
    UploadTooLarge { size_bytes: u64, max_size_bytes: u64 },
    AlreadyExists { team_id: String, upload_id: String, staged_path: String },
    Io { op: &'static str, path: String, source: String },
}

/// The error in words.
pub open spec fn staging_error_text(error: UploadStagingError) -> Seq<char> {
    match error {
        UploadStagingError::InvalidIdentifier { field } => field@
            + " must be non-empty and contain only [A-Za-z0-9_-]"@,
        UploadStagingError::InvalidOriginalFileName => "original_file_name must be a plain file name without path segments"@,
        UploadStagingError::InvalidArchiveExtension => "archive must have .zip extension"@,
        UploadStagingError::EmptyArchive => "archive payload is empty"@,
        UploadStagingError::UploadTooLarge { size_bytes, max_size_bytes } => "archive is too large: "@
            + text::decimal(size_bytes as nat) + " bytes (max "@ + text::decimal(
            max_size_bytes as nat,
        ) + " bytes)"@,
        UploadStagingError::AlreadyExists { team_id, upload_id, staged_path } => "upload already exists for team `"@
            + team_id@ + "` and upload `"@ + upload_id@ + "` at `"@ + staged_path@ + "`"@,
        UploadStagingError::Io { op, path, source } => "filesystem "@ + op@ + " failed for `"@
            + path@ + "`: "@ + source@,
    }
}

impl UploadStagingError {
    pub fn message(&self) -> (r: String)
        ensures
            r@ == staging_error_text(*self),
    {
        match self {
            UploadStagingError::InvalidIdentifier { field } => text::join2(
                field,
                " must be non-empty and contain only [A-Za-z0-9_-]",
            ),
            UploadStagingError::InvalidOriginalFileName => "original_file_name must be a plain file name without path segments".to_owned(),
            UploadStagingError::InvalidArchiveExtension => "archive must have .zip extension".to_owned(),
            UploadStagingError::EmptyArchive => "archive payload is empty".to_owned(),
            UploadStagingError::UploadTooLarge { size_bytes, max_size_bytes } => {
                let mut r: String = "archive is too large: ".to_owned();
                text::push_decimal(&mut r, *size_bytes as u128);
                r.append(" bytes (max ");
                text::push_decimal(&mut r, *max_size_bytes as u128);
                r.append(" bytes)");
                r
            },
            UploadStagingError::AlreadyExists { team_id, upload_id, staged_path } => {
                let mut r: String = "upload already exists for team `".to_owned();
                r.append(team_id.as_str());
                r.append("` and upload `");
                r.append(upload_id.as_str());
                r.append("` at `");
                r.append(staged_path.as_str());
                r.append("`");
                r
            },
            UploadStagingError::Io { op, path, source } => {
                let mut r: String = "filesystem ".to_owned();
                r.append(op);
                r.append(" failed for `");
                r.append(path.as_str());
                r.append("`: ");
                r.append(source.as_str());
                r
            },
        }
    }
}

/// The id is not empty and made of `[A-Za-z0-9_-]`.
pub open spec fn is_safe_id(value: Seq<char>) -> bool {
    value.len() > 0 && text::all_word(value)
}

pub fn validate_safe_id(value: &str, field: &'static str) -> (r: Result<(), UploadStagingError>)
    ensures
        is_safe_id(value@) ==> r == Ok::<(), UploadStagingError>(()),
        !is_safe_id(value@) ==> r == Err::<(), UploadStagingError>(
            UploadStagingError::InvalidIdentifier { field },
        ),
{
    if value.is_empty() || !text::is_all_word(value) {
        return Err(UploadStagingError::InvalidIdentifier { field });
    }
    Ok(())
}

/// The text is one name on every platform: it holds nothing that separates the
/// components of a path or ends the name of a drive, and is neither the directory
/// itself nor the one above.
pub open spec fn is_simple_name(name: Seq<char>) -> bool {
    &&& name.len() > 0
    &&& !name.contains('/') && !name.contains('\\') && !name.contains(':')
    &&& name != "."@ && name != ".."@
}

/// Wraps `std::path::Path::file_name`, followed by `to_str`: the last component of the
/// path, where it is a name. A path without a slash, a backslash and a colon is one
/// component on every platform, and a name unless it is `.` or `..`, which are none. A
/// path with a slash is never one name: the slash separates components, except behind
/// a prefix of Windows that is no part of the name. What a path with a backslash or a
/// colon gives depends on the platform and is left unsaid.
#[verifier::external_body]
fn last_component(path: &str) -> (r: Option<String>)
    ensures
        path@.contains('/') ==> r is None || r->Some_0@ != path@,
        is_simple_name(path@) ==> r is Some && r->Some_0@ == path@,
        path@ == "."@ || path@ == ".."@ ==> r is None,
{
    std::path::Path::new(path).file_name().and_then(|name| name.to_str()).map(str::to_owned)
}

/// The name ends in `.zip`, in any case.
pub open spec fn is_zip_name(name: Seq<char>) -> bool {
    name.len() >= 4 && text::same_letters(name.skip(name.len() - 4), ".zip"@)
}

/// Judges a file name without the whitespace around it; `is_plain` says whether it is
/// one component of a path.
pub fn check_zip_file_name(file_name: &str, is_plain: bool) -> (r: Result<(), UploadStagingError>)
    ensures
        r == if file_name@.len() == 0 || !is_plain {
            Err::<(), UploadStagingError>(UploadStagingError::InvalidOriginalFileName)
        } else if !is_zip_name(file_name@) {
            Err::<(), UploadStagingError>(UploadStagingError::InvalidArchiveExtension)
        } else {
            Ok::<(), UploadStagingError>(())
        },
{
    let len: usize = file_name.unicode_len();
    if len == 0 || !is_plain {
        return Err(UploadStagingError::InvalidOriginalFileName);
    }
    if len < 4 {
        return Err(UploadStagingError::InvalidArchiveExtension);
    }
    let tail: &str = file_name.substring_char(len - 4, len);
    proof {
        assert(tail@ =~= file_name@.skip(file_name@.len() - 4));
    }
    if !text::is_same_but_for_case(tail, ".zip") {
        return Err(UploadStagingError::InvalidArchiveExtension);
    }
    Ok(())
}

/// The text is a plain file name on no platform.
pub open spec fn is_no_name(name: Seq<char>) -> bool {
    name.len() == 0 || name.contains('/') || name == "."@ || name == ".."@
}

/// The name must be a plain one and end in `.zip`. Whether a name with a backslash or a
/// colon is a plain one depends on the platform; it is judged by its end where it is.
pub fn validate_zip_file_name(file_name: &str) -> (r: Result<(), UploadStagingError>)
    ensures
        r is Ok ==> is_zip_name(text::trimmed(file_name@)) && !text::trimmed(file_name@).contains(
            '/',
        ),
        is_no_name(text::trimmed(file_name@)) ==> r == Err::<(), UploadStagingError>(
            UploadStagingError::InvalidOriginalFileName,
        ),
        is_simple_name(text::trimmed(file_name@)) ==> r == if is_zip_name(
            text::trimmed(file_name@),
        ) {
            Ok::<(), UploadStagingError>(())
        } else {
            Err::<(), UploadStagingError>(UploadStagingError::InvalidArchiveExtension)
        },
        r matches Err(e) ==> e == UploadStagingError::InvalidOriginalFileName || (e
            == UploadStagingError::InvalidArchiveExtension && !is_zip_name(
            text::trimmed(file_name@),
        )),
{
    let trimmed: String = text::trim(file_name);
    let is_plain: bool = match last_component(trimmed.as_str()) {
        Some(name) => text::str_eq(name.as_str(), trimmed.as_str()),
        None => false,
    };
    check_zip_file_name(trimmed.as_str(), is_plain)
}

/// The SHA-256 digest of bytes.
pub uninterp spec fn sha256_digest(bytes: Seq<u8>) -> Seq<u8>;

/// Wraps `sha2::Sha256::digest`: the digest, which has 32 bytes and depends on the
/// bytes alone.
#[verifier::external_body]
fn sha256(bytes: &Vec<u8>) -> (r: Vec<u8>)
    ensures
        r@ == sha256_digest(bytes@),
        r@.len() == 32,
{
    sha2::Sha256::digest(bytes).to_vec()
}

/// The hexadecimal digit of a number below sixteen.
pub open spec fn hex_digit(n: int) -> char {
    if n < 10 {
        (48 + n) as char
    } else {
        (87 + n) as char
    }
}

/// Two hexadecimal digits for each byte.
pub open spec fn hex_text(bytes: Seq<u8>) -> Seq<char>
    decreases bytes.len(),
{
    if bytes.len() == 0 {
        Seq::empty()
    } else {
        hex_text(bytes.drop_last()).push(hex_digit(bytes.last() as int / 16)).push(
            hex_digit(bytes.last() as int % 16),
        )
    }
}

fn hex_char(n: u8) -> (c: char)
    requires
        n < 16,
    ensures
        c == hex_digit(n as int),
{
    if n < 10 {
        (48 + n) as char
    } else {
        (87 + n) as char
    }
}

/// Writes bytes in hexadecimal.
pub fn to_hex(bytes: &Vec<u8>) -> (r: String)
    ensures
        r@ == hex_text(bytes@),
{
    let mut out: String = "".to_owned();
    let mut n: usize = 0;
    proof {
        reveal_strlit("");
        assert(bytes@.take(0) =~= Seq::<u8>::empty());
        assert(out@ =~= hex_text(bytes@.take(0)));
    }
    while n < bytes.len()
        invariant
            n <= bytes@.len(),
            out@ == hex_text(bytes@.take(n as int)),
        decreases bytes@.len() - n,
    {
        proof {
            assert(bytes@.take(n + 1).drop_last() =~= bytes@.take(n as int));
            assert(bytes@.take(n + 1).last() == bytes@[n as int]);
        }
        let b: u8 = bytes[n];
        out.push(hex_char(b / 16));
        out.push(hex_char(b % 16));
        n += 1;
    }
    proof {
        assert(bytes@.take(n as int) =~= bytes@);
    }
    out
}

/// Bytes that differ are written differently.
pub proof fn hex_tells_bytes_apart(a: Seq<u8>, b: Seq<u8>)
    requires
        hex_text(a) == hex_text(b),
    ensures
        a == b,
    decreases a.len(),
{
    lemma_hex_len(a);
    lemma_hex_len(b);
    if a.len() == 0 {
        assert(a =~= b);
    } else {
        let x = hex_text(a);
        let y = hex_text(b);
        assert(x.drop_last().drop_last() =~= hex_text(a.drop_last()));
        assert(y.drop_last().drop_last() =~= hex_text(b.drop_last()));
        hex_tells_bytes_apart(a.drop_last(), b.drop_last());
        assert(x.last() == hex_digit(a.last() as int % 16));
        assert(y.last() == hex_digit(b.last() as int % 16));
        assert(x[x.len() - 2] == hex_digit(a.last() as int / 16));
        assert(y[y.len() - 2] == hex_digit(b.last() as int / 16));
        lemma_hex_digit_apart(a.last() as int % 16, b.last() as int % 16);
        lemma_hex_digit_apart(a.last() as int / 16, b.last() as int / 16);
        assert(a.last() == b.last());
        assert(a =~= a.drop_last().push(a.last()));
        assert(b =~= b.drop_last().push(b.last()));
    }
}

proof fn lemma_hex_len(a: Seq<u8>)
    ensures
        hex_text(a).len() == 2 * a.len(),
    decreases a.len(),
{
    if a.len() > 0 {
        lemma_hex_len(a.drop_last());
    }
}

proof fn lemma_hex_digit_apart(m: int, n: int)
    requires
        0 <= m < 16,
        0 <= n < 16,
        hex_digit(m) == hex_digit(n),
    ensures
        m == n,
{
    assert(hex_digit(m) as int == if m < 10 { 48 + m } else { 87 + m });
    assert(hex_digit(n) as int == if n < 10 { 48 + n } else { 87 + n });
}

/// The SHA-256 digest of bytes in hexadecimal.
pub fn sha256_hex(bytes: &Vec<u8>) -> (r: String)
    ensures
        r@ == hex_text(sha256_digest(bytes@)),
        r@.len() == 64,
{
    let digest: Vec<u8> = sha256(bytes);
    proof {
        lemma_hex_len(digest@);
    }
    to_hex(&digest)
}

/// What stages uploads.
#[derive(Debug)]
pub struct FsUploadStager {
    pub root_dir: String,
    pub max_upload_size_bytes: u64,
}

/// Why an upload is not accepted; the file name is yet to be judged.
pub open spec fn size_fault(size: int, max_size_bytes: u64) -> Option<UploadStagingError> {
    if size == 0 {
        Some(UploadStagingError::EmptyArchive)
    } else if size > max_size_bytes {
        Some(UploadStagingError::UploadTooLarge { size_bytes: size as u64, max_size_bytes })
    } else {
        None
    }
}

impl FsUploadStager {
    pub fn from_config(cfg: &Config) -> (r: Self)
        ensures
            r.root_dir == cfg.build_uploads_root,
            r.max_upload_size_bytes == cfg.build_upload_max_size_bytes,
    {
        FsUploadStager {
            root_dir: cfg.build_uploads_root.clone(),
            max_upload_size_bytes: cfg.build_upload_max_size_bytes,
        }
    }

    pub fn root_dir(&self) -> (r: &str)
        ensures
            r@ == self.root_dir@,
    {
        self.root_dir.as_str()
    }

    pub fn max_upload_size_bytes(&self) -> (r: u64)
        ensures
            r == self.max_upload_size_bytes,
    {
        self.max_upload_size_bytes
    }

    /// The size of an upload that may be staged.
    pub fn check_upload(&self, input: &UploadStageInput) -> (r: Result<u64, UploadStagingError>)
        ensures
            !is_safe_id(input.team_id@) ==> (r matches Err(
                UploadStagingError::InvalidIdentifier { field },
            ) && field@ == "team_id"@),
            is_safe_id(input.team_id@) && !is_safe_id(input.upload_id@) ==> (r matches Err(
                UploadStagingError::InvalidIdentifier { field },
            ) && field@ == "upload_id"@),
            is_safe_id(input.team_id@) && is_safe_id(input.upload_id@) && is_no_name(
                text::trimmed(input.original_file_name@),
            ) ==> r == Err::<u64, UploadStagingError>(UploadStagingError::InvalidOriginalFileName),
            r matches Ok(size) ==> {
                &&& is_safe_id(input.team_id@) && is_safe_id(input.upload_id@)
                &&& is_zip_name(text::trimmed(input.original_file_name@))
                &&& !text::trimmed(input.original_file_name@).contains('/')
                &&& size == input.archive_bytes@.len()
                &&& size_fault(
                    input.archive_bytes@.len() as int,
                    self.max_upload_size_bytes,
                ) is None
            },
            is_safe_id(input.team_id@) && is_safe_id(input.upload_id@) && is_simple_name(
                text::trimmed(input.original_file_name@),
            ) ==> r == if !is_zip_name(text::trimmed(input.original_file_name@)) {
                Err::<u64, UploadStagingError>(UploadStagingError::InvalidArchiveExtension)
            } else {
                match size_fault(input.archive_bytes@.len() as int, self.max_upload_size_bytes) {
                    Some(fault) => Err::<u64, UploadStagingError>(fault),
                    None => Ok::<u64, UploadStagingError>(input.archive_bytes@.len() as u64),
                }
            },
    {
        match validate_safe_id(input.team_id.as_str(), "team_id") {
            Err(e) => {
                return Err(e);
            },
            Ok(()) => {},
        }
        match validate_safe_id(input.upload_id.as_str(), "upload_id") {
            Err(e) => {
                return Err(e);
            },
            Ok(()) => {},
        }
        match validate_zip_file_name(input.original_file_name.as_str()) {
            Err(e) => {
                return Err(e);
            },
            Ok(()) => {},
        }
        let file_size: u64 = input.archive_bytes.len() as u64;
        if file_size == 0 {
            return Err(UploadStagingError::EmptyArchive);
        }
        if file_size > self.max_upload_size_bytes {
            return Err(
                UploadStagingError::UploadTooLarge {
                    size_bytes: file_size,
                    max_size_bytes: self.max_upload_size_bytes,
                },
            );
        }
        Ok(file_size)
    }

    /// The directory of a team's uploads.
    pub fn team_dir(&self, team_id: &str) -> (r: String)
        ensures
            r@ == text::joined_path(self.root_dir@, team_id@),
    {
        text::join_path(self.root_dir.as_str(), team_id)
    }

    /// Where an upload is put.
    pub fn staged_path(&self, team_id: &str, upload_id: &str) -> (r: String)
        ensures
            r@ == path_of_upload(self.root_dir@, team_id@, upload_id@),
    {
        let dir: String = self.team_dir(team_id);
        let name: String = text::join2(upload_id, ".zip");
        text::join_path(dir.as_str(), name.as_str())
    }

    /// The upload once its archive, whose size is given, was written.
    pub fn finish_staging(&self, input: UploadStageInput, file_size: u64) -> (r: StagedUpload)
        ensures
            r.team_id == input.team_id,
            r.upload_id == input.upload_id,
            r.original_file_name == input.original_file_name,
            r.file_size == file_size,
            r.sha256_hex@ == hex_text(sha256_digest(input.archive_bytes@)),
            r.staged_path@ == path_of_upload(self.root_dir@, input.team_id@, input.upload_id@),
    {
        let staged_path: String = self.staged_path(
            input.team_id.as_str(),
            input.upload_id.as_str(),
        );
        let digest: String = sha256_hex(&input.archive_bytes);
        StagedUpload {
            team_id: input.team_id,
            upload_id: input.upload_id,
            original_file_name: input.original_file_name,
            file_size,
            sha256_hex: digest,
            staged_path,
        }
    }

    /// The error for a file that could not be created.
    pub fn open_failed(
        &self,
        input: &UploadStageInput,
        file_exists: bool,
        source: String,
    ) -> (r: UploadStagingError)
        ensures
            match r {
                UploadStagingError::AlreadyExists { team_id, upload_id, staged_path } => {
                    &&& file_exists
                    &&& team_id == input.team_id
                    &&& upload_id == input.upload_id
                    &&& staged_path@ == path_of_upload(
                        self.root_dir@,
                        input.team_id@,
                        input.upload_id@,
                    )
                },
                UploadStagingError::Io { op, path, source: s } => {
                    &&& !file_exists
                    &&& op@ == "open"@
                    &&& path@ == path_of_upload(self.root_dir@, input.team_id@, input.upload_id@)
                    &&& s == source
                },
                _ => false,
            },
    {
        let path: String = self.staged_path(input.team_id.as_str(), input.upload_id.as_str());
        if file_exists {
            UploadStagingError::AlreadyExists {
                team_id: input.team_id.clone(),
                upload_id: input.upload_id.clone(),
                staged_path: path,
            }
        } else {
            UploadStagingError::Io { op: "open", path, source }
        }
    }
}

/// `<root>/<team>/<upload>.zip`.
pub open spec fn path_of_upload(root: Seq<char>, team_id: Seq<char>, upload_id: Seq<char>) -> Seq<
    char,
> {
    text::joined_path(text::joined_path(root, team_id), upload_id + ".zip"@)
}

/// What stands in front of a team in the path of an upload.
spec fn in_front_of_team(root: Seq<char>) -> Seq<char> {
    if root.len() == 0 || root.last() == '/' {
        root
    } else {
        root + "/"@
    }
}

proof fn lemma_path_of_upload(root: Seq<char>, team_id: Seq<char>, upload_id: Seq<char>)
    requires
        is_safe_id(team_id),
        is_safe_id(upload_id),
    ensures
        path_of_upload(root, team_id, upload_id) == in_front_of_team(root) + team_id + "/"@
            + upload_id + ".zip"@,
        !team_id.contains('/'),
{
    reveal_strlit("/");
    safe_id_has_no_slash(team_id);
    safe_id_has_no_slash(upload_id);
    assert(!team_id.contains('/') && !upload_id.contains('/'));
    assert(team_id.contains(team_id[0]) && team_id.contains(team_id.last()));
    assert(upload_id.contains(upload_id[0]));
    let dir = text::joined_path(root, team_id);
    assert(dir =~= in_front_of_team(root) + team_id);
    assert(dir.last() == team_id.last());
    let name = upload_id + ".zip"@;
    assert(name[0] == upload_id[0]);
    assert(dir + "/"@ + name =~= in_front_of_team(root) + team_id + "/"@ + upload_id + ".zip"@);
}

/// Uploads with safe ids are put at different places unless both ids agree.
pub proof fn uploads_do_not_collide(
    root: Seq<char>,
    team_a: Seq<char>,
    upload_a: Seq<char>,
    team_b: Seq<char>,
    upload_b: Seq<char>,
)
    requires
        is_safe_id(team_a) && is_safe_id(upload_a),
        is_safe_id(team_b) && is_safe_id(upload_b),
        path_of_upload(root, team_a, upload_a) == path_of_upload(root, team_b, upload_b),
    ensures
        team_a == team_b,
        upload_a == upload_b,
{
    reveal_strlit("/");
    reveal_strlit(".zip");
    lemma_path_of_upload(root, team_a, upload_a);
    lemma_path_of_upload(root, team_b, upload_b);
    let p = path_of_upload(root, team_a, upload_a);
    let q = path_of_upload(root, team_b, upload_b);
    let at = in_front_of_team(root).len() as int;
    assert forall|i: int| 0 <= i < team_a.len() implies #[trigger] p[at + i] == team_a[i] by {}
    assert forall|i: int| 0 <= i < team_b.len() implies #[trigger] q[at + i] == team_b[i] by {}
    assert(p[at + team_a.len()] == '/');
    assert(q[at + team_b.len()] == '/');
    if team_a.len() < team_b.len() {
        assert(q[at + team_a.len()] == team_b[team_a.len() as int]);
        assert(team_b.contains('/'));
    }
    if team_b.len() < team_a.len() {
        assert(p[at + team_b.len()] == team_a[team_b.len() as int]);
        assert(team_a.contains('/'));
    }
    assert(team_a =~= team_b) by {
        assert forall|i: int| 0 <= i < team_a.len() implies team_a[i] == team_b[i] by {
            assert(p[at + i] == q[at + i]);
        }
    }
    let from = at + team_a.len() + 1;
    assert(p.len() == from + upload_a.len() + 4);
    assert(q.len() == at + team_b.len() + 1 + upload_b.len() + 4);
    assert(upload_a =~= p.subrange(from as int, (from + upload_a.len()) as int));
    assert(upload_b =~= q.subrange(from as int, (from + upload_b.len()) as int));
}

/// A safe id holds no slash, and no whitespace: it is the name of a directory or a file
/// as it stands.
pub proof fn safe_id_has_no_slash(id: Seq<char>)
    requires
        is_safe_id(id),
    ensures
        !id.contains('/'),
        forall|i: int| 0 <= i < id.len() ==> !text::char_is_whitespace(#[trigger] id[i]),
{
    assert forall|i: int| 0 <= i < id.len() implies #[trigger] id[i] != '/'
        && !text::char_is_whitespace(id[i]) by {
        assert(text::ascii_word(id[i]));
    }
}

/// An id is safe exactly where it is not empty and holds nothing but ASCII letters, digits,
/// `-` and `_`.
pub proof fn safe_ids_are_words(value: Seq<char>)
    ensures
        is_safe_id(value) <==> value.len() > 0 && forall|i: int|
            #![trigger value[i]]
            0 <= i < value.len() ==> text::ascii_alphanumeric(value[i]) || value[i] == '-'
                || value[i] == '_',
{
}

/// A simple name is a name on every platform, and no text is both simple and no name.
pub proof fn simple_names_are_names(name: Seq<char>)
    ensures
        is_simple_name(name) ==> !is_no_name(name) && !name.contains('\\') && !name.contains(':'),
        is_no_name(name) <==> name.len() == 0 || name.contains('/') || name == "."@ || name
            == ".."@,
        !is_no_name(name) && !name.contains('\\') && !name.contains(':') ==> is_simple_name(name),
{
}

/// A name is that of an archive exactly where its last four characters are a dot and the
/// letters `zip`, each in any case.
pub proof fn archives_end_in_zip(name: Seq<char>)
    ensures
        is_zip_name(name) <==> {
            let n = name.len() as int;
            &&& n >= 4
            &&& name[n - 4] == '.'
            &&& name[n - 3] == 'z' || name[n - 3] == 'Z'
            &&& name[n - 2] == 'i' || name[n - 2] == 'I'
            &&& name[n - 1] == 'p' || name[n - 1] == 'P'
        },
{
    reveal_strlit(".zip");
    let n = name.len() as int;
    if n >= 4 {
        let end = name.skip(n - 4);
        let zip = ".zip"@;
        assert(end[0] == name[n - 4] && end[1] == name[n - 3] && end[2] == name[n - 2] && end[3]
            == name[n - 1]);
        assert(zip[0] == '.' && zip[1] == 'z' && zip[2] == 'i' && zip[3] == 'p' && zip.len() == 4);
        if is_zip_name(name) {
            assert(text::same_letter(end[0], zip[0]));
            assert(text::same_letter(end[1], zip[1]));
            assert(text::same_letter(end[2], zip[2]));
            assert(text::same_letter(end[3], zip[3]));
        }
        if name[n - 4] == '.' && (name[n - 3] == 'z' || name[n - 3] == 'Z') && (name[n - 2] == 'i'
            || name[n - 2] == 'I') && (name[n - 1] == 'p' || name[n - 1] == 'P') {
            assert forall|i: int| 0 <= i < end.len() implies text::same_letter(
                #[trigger] end[i],
                zip[i],
            ) by {
                assert(i == 0 || i == 1 || i == 2 || i == 3);
            }
        }
    }
}

/// Bytes are written one by one, each as its high digit and its low one, the digits from ten
/// on as small letters.
pub proof fn bytes_are_written_by_two_digits(bytes: Seq<u8>, b: u8, n: int)
    requires
        0 <= n < 16,
    ensures
        hex_text(Seq::empty()).len() == 0,
        hex_text(bytes.push(b)) == hex_text(bytes) + seq![
            hex_digit(b as int / 16),
            hex_digit(b as int % 16),
        ],
        n < 10 ==> (hex_digit(n) as u32) == 48 + n,
        n >= 10 ==> (hex_digit(n) as u32) == 97 + (n - 10),
{
    assert(bytes.push(b).drop_last() =~= bytes);
    assert(hex_text(bytes.push(b)) =~= hex_text(bytes) + seq![
        hex_digit(b as int / 16),
        hex_digit(b as int % 16),
    ]);
}

/// An archive is accepted by its size exactly where there is something in it and it is within
/// the limit; one that is too large is told with its size and the limit.
pub proof fn sizes_within_the_limit_are_accepted(size: int, max_size_bytes: u64)
    requires
        0 <= size <= u64::MAX,
    ensures
        size_fault(size, max_size_bytes) is None <==> 0 < size <= max_size_bytes,
        size == 0 ==> size_fault(size, max_size_bytes) == Some(UploadStagingError::EmptyArchive),
        size > max_size_bytes ==> size == 0 || (size_fault(size, max_size_bytes) matches Some(
            UploadStagingError::UploadTooLarge { size_bytes, max_size_bytes: max },
        ) && size_bytes == size && max == max_size_bytes),
{
}

/// An upload with safe ids is put below the root and its team, under its own id.
pub proof fn upload_is_put_below_its_team(
    root: Seq<char>,
    team_id: Seq<char>,
    upload_id: Seq<char>,
)
    requires
        is_safe_id(team_id),
        is_safe_id(upload_id),
        root.len() > 0,
        root.last() != '/',
    ensures
        path_of_upload(root, team_id, upload_id) == root + "/"@ + team_id + "/"@ + upload_id
            + ".zip"@,
{
    lemma_path_of_upload(root, team_id, upload_id);
}

/// An error is told with all that it holds.
pub proof fn staging_errors_are_told_in_full(error: UploadStagingError)
    ensures
        error matches UploadStagingError::InvalidIdentifier { field } ==> staging_error_text(error)
            == field@ + " must be non-empty and contain only [A-Za-z0-9_-]"@,
        error matches UploadStagingError::UploadTooLarge { size_bytes, max_size_bytes }
            ==> staging_error_text(error) == "archive is too large: "@ + text::decimal(
            size_bytes as nat,
        ) + " bytes (max "@ + text::decimal(max_size_bytes as nat) + " bytes)"@,
        error matches UploadStagingError::AlreadyExists { team_id, upload_id, staged_path }
            ==> staging_error_text(error) == "upload already exists for team `"@ + team_id@
            + "` and upload `"@ + upload_id@ + "` at `"@ + staged_path@ + "`"@,
        error matches UploadStagingError::Io { op, path, source } ==> staging_error_text(error)
            == "filesystem "@ + op@ + " failed for `"@ + path@ + "`: "@ + source@,
        error is InvalidOriginalFileName ==> staging_error_text(error)
            == "original_file_name must be a plain file name without path segments"@,
        error is InvalidArchiveExtension ==> staging_error_text(error)
            == "archive must have .zip extension"@,
        error is EmptyArchive ==> staging_error_text(error) == "archive payload is empty"@,
{
}

} // verus!
