//! Submissions: to whom they belong, when they are sent to the builder, and what is
//! kept of them.

use vstd::prelude::*;
use crate::builds::staging::{FsUploadStager, StagedUpload};
use crate::text;

verus! {

pub const DEFAULT_BUILD_LIMIT: u32 = 50;

/// The service: where submissions are stored, what stages uploads, and the builder.
#[derive(Debug)]
pub struct BuildSubmissionService<R, C> {
    pub repo: R,
    pub stager: FsUploadStager,
    pub client: C,
}

impl<R, C> BuildSubmissionService<R, C> {
    pub fn new(repo: R, stager: FsUploadStager, client: C) -> (r: Self)
        ensures
            r.repo == repo,
            r.stager == stager,
            r.client == client,
    {
        BuildSubmissionService { repo, stager, client }
    }
}

/// A submission as it is stored.
#[derive(Debug)]
pub struct BuildSubmissionRecord {
    pub submission_id: String,
    pub upload_id: String,
    pub team_id: String,
    pub requested_by_subject: String,
    pub original_file_name: String,
    pub file_size_bytes: u64,
    pub sha256_hex: String,
    pub staged_path: String,
    pub builder_build_id: Option<String>,
    pub cancellation_requested: bool,
    pub retry_of_submission_id: Option<String>,
    pub last_known_builder_status: Option<i32>,
    pub created_at_ms: i64,
    pub updated_at_ms: i64,
    pub last_synced_at_ms: Option<i64>,
}

/// What is submitted, beside the archive and the template.
#[derive(Debug)]
pub struct SubmitBuildUploadInput {
    pub submission_id: String,
    pub upload_id: String,
    pub team_id: String,
    pub requested_by_subject: String,
    pub original_file_name: String,
    pub retry_of_submission_id: Option<String>,
}

/// A request to cancel a build.
#[derive(Debug)]
pub struct CancelSubmissionInput {
    pub submission_id: String,
    pub team_id: String,
    pub requested_by_subject: String,
    pub reason: String,
}

/// A build as the builder knows it, by its id and the number of its status.
#[derive(Debug)]
pub struct BuildJob {
    pub build_id: String,
    pub status: i32,
}

/// Why a request about a submission failed.
#[derive(Debug)]
pub enum BuildSubmissionServiceError {
    InvalidInput { field: &'static str },
    TeamMismatch { team_id: String },
    SubmissionAlreadyExists { submission_id: String },
    SubmissionNotFound { submission_id: String },
    BuilderBuildIdMissing { submission_id: String },
    BuilderResponseMissingBuild { operation: &'static str },
    BuilderResponseMissingBuildId { submission_id: String },
}

/// The error in words.
pub open spec fn submission_error_text(error: BuildSubmissionServiceError) -> Seq<char> {
    match error {
        BuildSubmissionServiceError::InvalidInput { field } => field@ + " must be non-empty"@,
        BuildSubmissionServiceError::TeamMismatch { team_id } => "submission does not belong to team `"@
            + team_id@ + "`"@,
        BuildSubmissionServiceError::SubmissionAlreadyExists { submission_id } => "submission already exists: "@
            + submission_id@,
        BuildSubmissionServiceError::SubmissionNotFound { submission_id } => "submission not found: "@
            + submission_id@,
        BuildSubmissionServiceError::BuilderBuildIdMissing { submission_id } => "builder build_id is not attached to submission: "@
            + submission_id@,
        BuildSubmissionServiceError::BuilderResponseMissingBuild { operation } => "builder response for "@
            + operation@ + " did not contain build"@,
        BuildSubmissionServiceError::BuilderResponseMissingBuildId { submission_id } => "builder response did not contain build_id for submission: "@
            + submission_id@,
    }
}

impl BuildSubmissionServiceError {
    pub fn message(&self) -> (r: String)
        ensures
            r@ == submission_error_text(*self),
    {
        match self {
            BuildSubmissionServiceError::InvalidInput { field } => text::join2(
                field,
                " must be non-empty",
            ),
            BuildSubmissionServiceError::TeamMismatch { team_id } => text::join3(
                "submission does not belong to team `",
                team_id.as_str(),
                "`",
            ),
            BuildSubmissionServiceError::SubmissionAlreadyExists { submission_id } => text::join2(
                "submission already exists: ",
                submission_id.as_str(),
            ),
            BuildSubmissionServiceError::SubmissionNotFound { submission_id } => text::join2(
                "submission not found: ",
                submission_id.as_str(),
            ),
            BuildSubmissionServiceError::BuilderBuildIdMissing { submission_id } => text::join2(
                "builder build_id is not attached to submission: ",
                submission_id.as_str(),
            ),
            BuildSubmissionServiceError::BuilderResponseMissingBuild { operation } => text::join3(
                "builder response for ",
                operation,
                " did not contain build",
            ),
            BuildSubmissionServiceError::BuilderResponseMissingBuildId { submission_id } => text::join2(
                "builder response did not contain build_id for submission: ",
                submission_id.as_str(),
            ),
        }
    }
}

/// Nothing but whitespace is in the text, if anything.
pub open spec fn is_missing(value: Seq<char>) -> bool {
    text::trimmed(value).len() == 0
}

pub fn validate_required(value: &str, field: &'static str) -> (r: Result<
    (),
    BuildSubmissionServiceError,
>)
    ensures
        r == if is_missing(value@) {
            Err::<(), BuildSubmissionServiceError>(
                BuildSubmissionServiceError::InvalidInput { field },
            )
        } else {
            Ok::<(), BuildSubmissionServiceError>(())
        },
{
    if text::trim(value).as_str().is_empty() {
        return Err(BuildSubmissionServiceError::InvalidInput { field });
    }
    Ok(())
}

pub fn ensure_team_match(submission: &BuildSubmissionRecord, team_id: &str) -> (r: Result<
    (),
    BuildSubmissionServiceError,
>)
    ensures
        submission.team_id@ == team_id@ ==> r == Ok::<(), BuildSubmissionServiceError>(()),
        submission.team_id@ != team_id@ ==> (r matches Err(
            BuildSubmissionServiceError::TeamMismatch { team_id: t },
        ) && t@ == team_id@),
{
    if text::str_eq(submission.team_id.as_str(), team_id) {
        return Ok(());
    }
    Err(BuildSubmissionServiceError::TeamMismatch { team_id: team_id.to_owned() })
}

/// The key by which the builder knows a submission again.
pub open spec fn idempotency_key(
    team_id: Seq<char>,
    submission_id: Seq<char>,
    upload_id: Seq<char>,
    sha256_hex: Seq<char>,
) -> Seq<char> {
    team_id + ":"@ + submission_id + ":"@ + upload_id + ":"@ + sha256_hex
}

pub fn make_idempotency_key(
    team_id: &str,
    submission_id: &str,
    upload_id: &str,
    sha256_hex: &str,
) -> (r: String)
    ensures
        r@ == idempotency_key(team_id@, submission_id@, upload_id@, sha256_hex@),
{
    let mut r: String = text::join3(team_id, ":", submission_id);
    r.append(":");
    r.append(upload_id);
    r.append(":");
    r.append(sha256_hex);
    r
}

/// The first of the fields that is missing.
pub open spec fn missing_field(input: SubmitBuildUploadInput) -> Option<Seq<char>> {
    if is_missing(input.submission_id@) {
        Some("submission_id"@)
    } else if is_missing(input.upload_id@) {
        Some("upload_id"@)
    } else if is_missing(input.team_id@) {
        Some("team_id"@)
    } else if is_missing(input.requested_by_subject@) {
        Some("requested_by_subject"@)
    } else {
        None
    }
}

/// What is submitted must be complete.
pub fn check_submission(input: &SubmitBuildUploadInput) -> (r: Result<
    (),
    BuildSubmissionServiceError,
>)
    ensures
        match missing_field(*input) {
            Some(missing) => r matches Err(BuildSubmissionServiceError::InvalidInput { field })
                && field@ == missing,
            None => r == Ok::<(), BuildSubmissionServiceError>(()),
        },
{
    match validate_required(input.submission_id.as_str(), "submission_id") {
        Err(e) => {
            return Err(e);
        },
        Ok(()) => {},
    }
    match validate_required(input.upload_id.as_str(), "upload_id") {
        Err(e) => {
            return Err(e);
        },
        Ok(()) => {},
    }
    match validate_required(input.team_id.as_str(), "team_id") {
        Err(e) => {
            return Err(e);
        },
        Ok(()) => {},
    }
    validate_required(input.requested_by_subject.as_str(), "requested_by_subject")
}

/// How a complete submission goes on.
#[derive(Debug)]
pub enum SubmitStep {
    /// The builder has it already: its build is fetched.
    FetchBuild { build_id: String },
    /// It is stored but did not reach the builder: it is sent under this key.
    SendStored { idempotency_key: String },
    /// It is new: the archive is staged first.
    StageUpload,
}

/// How a complete submission goes on, given what is stored under its id.
pub fn plan_submit(existing: &Option<BuildSubmissionRecord>, input: &SubmitBuildUploadInput) -> (r:
    Result<SubmitStep, BuildSubmissionServiceError>)
    ensures
        match existing {
            None => r == Ok::<SubmitStep, BuildSubmissionServiceError>(SubmitStep::StageUpload),
            Some(record) => if record.team_id@ != input.team_id@ {
                r matches Err(BuildSubmissionServiceError::TeamMismatch { team_id }) && team_id@
                    == input.team_id@
            } else {
                match record.builder_build_id {
                    Some(id) => r == Ok::<SubmitStep, BuildSubmissionServiceError>(
                        SubmitStep::FetchBuild { build_id: id },
                    ),
                    None => if record.upload_id@ != input.upload_id@ {
                        r matches Err(
                            BuildSubmissionServiceError::SubmissionAlreadyExists { submission_id },
                        ) && submission_id@ == input.submission_id@
                    } else {
                        r matches Ok(SubmitStep::SendStored { idempotency_key: key }) && key@
                            == idempotency_key(
                            record.team_id@,
                            record.submission_id@,
                            record.upload_id@,
                            record.sha256_hex@,
                        )
                    },
                }
            },
        },
{
    let record: &BuildSubmissionRecord = match existing {
        None => return Ok(SubmitStep::StageUpload),
        Some(record) => record,
    };
    match ensure_team_match(record, input.team_id.as_str()) {
        Err(e) => {
            return Err(e);
        },
        Ok(()) => {},
    }
    match &record.builder_build_id {
        Some(id) => {
            return Ok(SubmitStep::FetchBuild { build_id: id.clone() });
        },
        None => {},
    }
    if !text::str_eq(record.upload_id.as_str(), input.upload_id.as_str()) {
        return Err(
            BuildSubmissionServiceError::SubmissionAlreadyExists {
                submission_id: input.submission_id.clone(),
            },
        );
    }
    Ok(
        SubmitStep::SendStored {
            idempotency_key: make_idempotency_key(
                record.team_id.as_str(),
                record.submission_id.as_str(),
                record.upload_id.as_str(),
                record.sha256_hex.as_str(),
            ),
        },
    )
}

/// The record of a submission whose archive was staged.
pub open spec fn is_new_record(
    r: BuildSubmissionRecord,
    input: SubmitBuildUploadInput,
    staged: StagedUpload,
    created_at_ms: i64,
) -> bool {
    &&& r.submission_id == input.submission_id
    &&& r.upload_id == input.upload_id
    &&& r.team_id == input.team_id
    &&& r.requested_by_subject == input.requested_by_subject
    &&& r.original_file_name == input.original_file_name
    &&& r.file_size_bytes == staged.file_size
    &&& r.sha256_hex == staged.sha256_hex
    &&& r.staged_path == staged.staged_path
    &&& r.builder_build_id is None
    &&& !r.cancellation_requested
    &&& r.retry_of_submission_id == input.retry_of_submission_id
    &&& r.last_known_builder_status is None
    &&& r.created_at_ms == created_at_ms
    &&& r.updated_at_ms == created_at_ms
    &&& r.last_synced_at_ms is None
}

/// What is stored of a new submission, and the key under which it is sent.
pub fn plan_new_submission(
    input: &SubmitBuildUploadInput,
    staged: &StagedUpload,
    created_at_ms: i64,
) -> (r: (BuildSubmissionRecord, String))
    ensures
        is_new_record(r.0, *input, *staged, created_at_ms),
        r.0.submission_id == input.submission_id,
        r.0.upload_id == input.upload_id,
        r.0.team_id == input.team_id,
        r.0.requested_by_subject == input.requested_by_subject,
        r.0.original_file_name == input.original_file_name,
        r.0.retry_of_submission_id == input.retry_of_submission_id,
        r.0.file_size_bytes == staged.file_size,
        r.0.sha256_hex == staged.sha256_hex,
        r.0.staged_path == staged.staged_path,
        r.0.created_at_ms == created_at_ms && r.0.updated_at_ms == created_at_ms,
        r.1@ == idempotency_key(
            input.team_id@,
            input.submission_id@,
            input.upload_id@,
            staged.sha256_hex@,
        ),
{
    let retry_of_submission_id: Option<String> = match &input.retry_of_submission_id {
        Some(id) => Some(id.clone()),
        None => None,
    };
    let record: BuildSubmissionRecord = BuildSubmissionRecord {
        submission_id: input.submission_id.clone(),
        upload_id: input.upload_id.clone(),
        team_id: input.team_id.clone(),
        requested_by_subject: input.requested_by_subject.clone(),
        original_file_name: input.original_file_name.clone(),
        file_size_bytes: staged.file_size,
        sha256_hex: staged.sha256_hex.clone(),
        staged_path: staged.staged_path.clone(),
        builder_build_id: None,
        cancellation_requested: false,
        retry_of_submission_id,
        last_known_builder_status: None,
        created_at_ms,
        updated_at_ms: created_at_ms,
        last_synced_at_ms: None,
    };
    let key: String = make_idempotency_key(
        input.team_id.as_str(),
        input.submission_id.as_str(),
        input.upload_id.as_str(),
        staged.sha256_hex.as_str(),
    );
    (record, key)
}

/// A submission that was stored but did not reach the builder is sent again under the
/// key of the first time.
pub proof fn retry_keeps_the_key(
    record: BuildSubmissionRecord,
    input: SubmitBuildUploadInput,
    staged: StagedUpload,
    created_at_ms: i64,
)
    requires
        is_new_record(record, input, staged, created_at_ms),
    ensures
        idempotency_key(
            record.team_id@,
            record.submission_id@,
            record.upload_id@,
            record.sha256_hex@,
        ) == idempotency_key(
            input.team_id@,
            input.submission_id@,
            input.upload_id@,
            staged.sha256_hex@,
        ),
{
}

/// How a submission ended.
#[derive(Debug)]
pub struct SubmitBuildUploadResult {
    pub submission_id: String,
    pub upload_id: String,
    pub build: BuildJob,
    /// The builder had the submission already.
    pub deduplicated: bool,
}

/// The result of a submission that went on by the step and ended in the build.
pub fn finish_submit(
    step: &SubmitStep,
    submission_id: String,
    upload_id: String,
    build: BuildJob,
) -> (r: SubmitBuildUploadResult)
    ensures
        r == (SubmitBuildUploadResult {
            submission_id,
            upload_id,
            build,
            deduplicated: step is FetchBuild,
        }),
{
    let deduplicated: bool = match step {
        SubmitStep::FetchBuild { build_id: _ } => true,
        _ => false,
    };
    SubmitBuildUploadResult { submission_id, upload_id, build, deduplicated }
}

/// The build of an answer of the builder.
pub fn require_build(operation: &'static str, build: Option<BuildJob>) -> (r: Result<
    BuildJob,
    BuildSubmissionServiceError,
>)
    ensures
        r == match build {
            Some(build) => Ok::<BuildJob, BuildSubmissionServiceError>(build),
            None => Err::<BuildJob, BuildSubmissionServiceError>(
                BuildSubmissionServiceError::BuilderResponseMissingBuild { operation },
            ),
        },
{
    match build {
        Some(build) => Ok(build),
        None => Err(BuildSubmissionServiceError::BuilderResponseMissingBuild { operation }),
    }
}

/// The build of an answer to a submission; it must have an id.
pub fn require_submitted_build(submission_id: &str, build: Option<BuildJob>) -> (r: Result<
    BuildJob,
    BuildSubmissionServiceError,
>)
    ensures
        match build {
            None => r matches Err(
                BuildSubmissionServiceError::BuilderResponseMissingBuild { operation },
            ) && operation@ == "SubmitBuild"@,
            Some(job) => if is_missing(job.build_id@) {
                r matches Err(
                    BuildSubmissionServiceError::BuilderResponseMissingBuildId { submission_id: s },
                ) && s@ == submission_id@
            } else {
                r == Ok::<BuildJob, BuildSubmissionServiceError>(job)
            },
        },
{
    match require_build("SubmitBuild", build) {
        Err(e) => Err(e),
        Ok(job) => {
            if text::trim(job.build_id.as_str()).as_str().is_empty() {
                return Err(
                    BuildSubmissionServiceError::BuilderResponseMissingBuildId {
                        submission_id: submission_id.to_owned(),
                    },
                );
            }
            Ok(job)
        },
    }
}

/// The id of the build of a team's submission.
pub fn require_build_id(
    submission: &Option<BuildSubmissionRecord>,
    team_id: &str,
    submission_id: &str,
) -> (r: Result<String, BuildSubmissionServiceError>)
    ensures
        match submission {
            None => r matches Err(
                BuildSubmissionServiceError::SubmissionNotFound { submission_id: s },
            ) && s@ == submission_id@,
            Some(record) => if record.team_id@ != team_id@ {
                r matches Err(BuildSubmissionServiceError::TeamMismatch { team_id: t }) && t@
                    == team_id@
            } else {
                match record.builder_build_id {
                    None => r matches Err(
                        BuildSubmissionServiceError::BuilderBuildIdMissing { submission_id: s },
                    ) && s@ == submission_id@,
                    Some(id) => r == Ok::<String, BuildSubmissionServiceError>(id),
                }
            },
        },
{
    let record: &BuildSubmissionRecord = match submission {
        Some(record) => record,
        None => return Err(
            BuildSubmissionServiceError::SubmissionNotFound {
                submission_id: submission_id.to_owned(),
            },
        ),
    };
    match ensure_team_match(record, team_id) {
        Err(e) => {
            return Err(e);
        },
        Ok(()) => {},
    }
    match &record.builder_build_id {
        Some(id) => Ok(id.clone()),
        None => Err(
            BuildSubmissionServiceError::BuilderBuildIdMissing {
                submission_id: submission_id.to_owned(),
            },
        ),
    }
}

/// The fields that a request to look up a build must have.
pub fn check_lookup(team_id: &str, submission_id: &str) -> (r: Result<
    (),
    BuildSubmissionServiceError,
>)
    ensures
        if is_missing(team_id@) {
            r matches Err(BuildSubmissionServiceError::InvalidInput { field }) && field@
                == "team_id"@
        } else if is_missing(submission_id@) {
            r matches Err(BuildSubmissionServiceError::InvalidInput { field }) && field@
                == "submission_id"@
        } else {
            r == Ok::<(), BuildSubmissionServiceError>(())
        },
{
    match validate_required(team_id, "team_id") {
        Err(e) => Err(e),
        Ok(()) => validate_required(submission_id, "submission_id"),
    }
}

/// The number of builds to list; zero stands for the default.
pub fn effective_limit(limit: u32) -> (r: u32)
    ensures
        r == if limit == 0 {
            DEFAULT_BUILD_LIMIT
        } else {
            limit
        },
        limit == 0 ==> r == 50,
{
    if limit == 0 {
        DEFAULT_BUILD_LIMIT
    } else {
        limit
    }
}

/// The fields that a request to cancel a build must have.
pub fn check_cancellation(input: &CancelSubmissionInput) -> (r: Result<
    (),
    BuildSubmissionServiceError,
>)
    ensures
        if is_missing(input.submission_id@) {
            r matches Err(BuildSubmissionServiceError::InvalidInput { field }) && field@
                == "submission_id"@
        } else if is_missing(input.team_id@) {
            r matches Err(BuildSubmissionServiceError::InvalidInput { field }) && field@
                == "team_id"@
        } else if is_missing(input.requested_by_subject@) {
            r matches Err(BuildSubmissionServiceError::InvalidInput { field }) && field@
                == "requested_by_subject"@
        } else {
            r == Ok::<(), BuildSubmissionServiceError>(())
        },
{
    match validate_required(input.submission_id.as_str(), "submission_id") {
        Err(e) => {
            return Err(e);
        },
        Ok(()) => {},
    }
    match validate_required(input.team_id.as_str(), "team_id") {
        Err(e) => {
            return Err(e);
        },
        Ok(()) => {},
    }
    validate_required(input.requested_by_subject.as_str(), "requested_by_subject")
}

/// The reason that the builder is given for a cancellation.
pub fn cancellation_reason(reason: &str) -> (r: String)
    ensures
        r@ == if is_missing(reason@) {
            "cancelled by backend orchestration"@
        } else {
            reason@
        },
{
    if text::trim(reason).as_str().is_empty() {
        "cancelled by backend orchestration".to_owned()
    } else {
        reason.to_owned()
    }
}

/// A new submission is stored as it came and as it was staged, each value under its own name.
/// Nothing of a build is known of it, and it has not been cancelled.
pub proof fn new_submission_is_stored_as_it_came(
    r: BuildSubmissionRecord,
    input: SubmitBuildUploadInput,
    staged: StagedUpload,
    created_at_ms: i64,
)
    requires
        is_new_record(r, input, staged, created_at_ms),
    ensures
        r.submission_id == input.submission_id,
        r.upload_id == input.upload_id,
        r.team_id == input.team_id,
        r.requested_by_subject == input.requested_by_subject,
        r.original_file_name == input.original_file_name,
        r.retry_of_submission_id == input.retry_of_submission_id,
        r.file_size_bytes == staged.file_size,
        r.sha256_hex == staged.sha256_hex,
        r.staged_path == staged.staged_path,
        r.created_at_ms == created_at_ms,
        r.updated_at_ms == created_at_ms,
        r.builder_build_id is None,
        r.last_known_builder_status is None,
        r.last_synced_at_ms is None,
        !r.cancellation_requested,
{
}

/// A submission is complete exactly where none of its four ids is blank; the first that is
/// gets named.
pub proof fn complete_submissions_have_all_ids(input: SubmitBuildUploadInput)
    ensures
        missing_field(input) is None <==> !text::is_blank(input.submission_id@)
            && !text::is_blank(input.upload_id@) && !text::is_blank(input.team_id@)
            && !text::is_blank(input.requested_by_subject@),
        text::is_blank(input.submission_id@) ==> missing_field(input) == Some("submission_id"@),
        !text::is_blank(input.submission_id@) && text::is_blank(input.upload_id@)
            ==> missing_field(input) == Some("upload_id"@),
        !text::is_blank(input.submission_id@) && !text::is_blank(input.upload_id@)
            && text::is_blank(input.team_id@) ==> missing_field(input) == Some("team_id"@),
        !text::is_blank(input.submission_id@) && !text::is_blank(input.upload_id@)
            && !text::is_blank(input.team_id@) && text::is_blank(input.requested_by_subject@)
            ==> missing_field(input) == Some("requested_by_subject"@),
{
    text::trimmed_is_empty_iff_blank(input.submission_id@);
    text::trimmed_is_empty_iff_blank(input.upload_id@);
    text::trimmed_is_empty_iff_blank(input.team_id@);
    text::trimmed_is_empty_iff_blank(input.requested_by_subject@);
}

/// A value is missing exactly where it is blank.
pub proof fn blank_values_are_missing(value: Seq<char>)
    ensures
        is_missing(value) <==> text::is_blank(value),
{
    text::trimmed_is_empty_iff_blank(value);
}

/// The key holds the team, the submission, the upload and the digest, in this order, with a
/// colon between each two.
pub proof fn key_names_all_four(
    team_id: Seq<char>,
    submission_id: Seq<char>,
    upload_id: Seq<char>,
    sha256_hex: Seq<char>,
)
    ensures
        ({
            let key = idempotency_key(team_id, submission_id, upload_id, sha256_hex);
            let colon = seq![':'];
            &&& key.len() == team_id.len() + submission_id.len() + upload_id.len()
                + sha256_hex.len() + 3
            &&& key.take(team_id.len() as int) == team_id
            &&& key == team_id + colon + submission_id + colon + upload_id + colon + sha256_hex
        }),
{
    reveal_strlit(":");
    assert(":"@ =~= seq![':']);
    assert(idempotency_key(team_id, submission_id, upload_id, sha256_hex).take(
        team_id.len() as int,
    ) =~= team_id);
}

/// An error is told with the team, the submission, the field or the call that it is about.
pub proof fn submission_errors_name_what_they_are_about(error: BuildSubmissionServiceError)
    ensures
        error matches BuildSubmissionServiceError::InvalidInput { field }
            ==> submission_error_text(error) == field@ + " must be non-empty"@,
        error matches BuildSubmissionServiceError::TeamMismatch { team_id }
            ==> submission_error_text(error) == "submission does not belong to team `"@ + team_id@
            + "`"@,
        error matches BuildSubmissionServiceError::SubmissionAlreadyExists { submission_id }
            ==> submission_error_text(error) == "submission already exists: "@ + submission_id@,
        error matches BuildSubmissionServiceError::SubmissionNotFound { submission_id }
            ==> submission_error_text(error) == "submission not found: "@ + submission_id@,
        error matches BuildSubmissionServiceError::BuilderBuildIdMissing { submission_id }
            ==> submission_error_text(error)
            == "builder build_id is not attached to submission: "@ + submission_id@,
        error matches BuildSubmissionServiceError::BuilderResponseMissingBuild { operation }
            ==> submission_error_text(error) == "builder response for "@ + operation@
            + " did not contain build"@,
        error matches BuildSubmissionServiceError::BuilderResponseMissingBuildId { submission_id }
            ==> submission_error_text(error)
            == "builder response did not contain build_id for submission: "@ + submission_id@,
{
}

} // verus!
