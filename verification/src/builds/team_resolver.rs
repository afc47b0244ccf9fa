//! The team of a participant: it is looked up once and remembered for a while.

use vstd::prelude::*;
use crate::builds::client::CallOutcome;
use crate::builds::endpoint::{check_endpoint, endpoint_fault};
use crate::config::Config;
use crate::engine::opt_text;
use crate::text;
use crate::text_map::TextMap;

verus! {

/// A team.
#[derive(Debug, PartialEq, Eq)]
pub struct ResolvedTeam {
    pub team_id: String,
    pub team_name: String,
}

impl Clone for ResolvedTeam {
    fn clone(&self) -> (r: Self)
        ensures
            r == *self,
    {
        ResolvedTeam { team_id: self.team_id.clone(), team_name: self.team_name.clone() }
    }
}

/// A team and until when it is remembered.
#[derive(Debug)]
pub struct CachedTeamEntry {
    pub team: ResolvedTeam,
    pub expires_at_ms: i64,
}

/// Why a team could not be found out.
#[derive(Debug)]
pub enum BuildTeamResolverError {
    InvalidEndpoint { endpoint: String, source: String },
    InvalidCacheTtl,
    InvalidSubject,
    Timeout { timeout_ms: u64 },
    GrpcStatus { status: String },
    TeamNotFound { subject: String },
    MissingTeamId { subject: String },
}

/// The error in words.
pub open spec fn resolver_error_text(error: BuildTeamResolverError) -> Seq<char> {
    match error {
        BuildTeamResolverError::InvalidEndpoint { endpoint, source } => "invalid HPS_ENDPOINT `"@
            + endpoint@ + "`: "@ + source@,
        BuildTeamResolverError::InvalidCacheTtl => "HPS cache ttl does not fit into i64"@,
        BuildTeamResolverError::InvalidSubject => "subject (`sub`) must be non-empty"@,
        BuildTeamResolverError::Timeout { timeout_ms } => "GetTeamByUser timed out after "@
            + text::decimal(timeout_ms as nat) + " ms"@,
        BuildTeamResolverError::GrpcStatus { status } => "GetTeamByUser failed: "@ + status@,
        BuildTeamResolverError::TeamNotFound { subject } => "no team found for subject `"@
            + subject@ + "`"@,
        BuildTeamResolverError::MissingTeamId { subject } => "team response for subject `"@
            + subject@ + "` did not contain team id"@,
    }
}

impl BuildTeamResolverError {
    pub fn message(&self) -> (r: String)
        ensures
            r@ == resolver_error_text(*self),
    {
        match self {
            BuildTeamResolverError::InvalidEndpoint { endpoint, source } => {
                let mut r: String = text::join3(
                    "invalid HPS_ENDPOINT `",
                    endpoint.as_str(),
                    "`: ",
                );
                r.append(source.as_str());
                r
            },
            BuildTeamResolverError::InvalidCacheTtl => "HPS cache ttl does not fit into i64".to_owned(),
            BuildTeamResolverError::InvalidSubject => "subject (`sub`) must be non-empty".to_owned(),
            BuildTeamResolverError::Timeout { timeout_ms } => {
                let mut r: String = "GetTeamByUser timed out after ".to_owned();
                text::push_decimal(&mut r, *timeout_ms as u128);
                r.append(" ms");
                r
            },
            BuildTeamResolverError::GrpcStatus { status } => text::join2(
                "GetTeamByUser failed: ",
                status.as_str(),
            ),
            BuildTeamResolverError::TeamNotFound { subject } => text::join3(
                "no team found for subject `",
                subject.as_str(),
                "`",
            ),
            BuildTeamResolverError::MissingTeamId { subject } => text::join3(
                "team response for subject `",
                subject.as_str(),
                "` did not contain team id",
            ),
        }
    }
}

/// The milliseconds of a clock, held at the largest value.
pub fn now_ms(millis: u128) -> (r: i64)
    ensures
        r == if millis > i64::MAX {
            i64::MAX as int
        } else {
            millis as int
        },
{
    if millis > i64::MAX as u128 {
        i64::MAX
    } else {
        millis as i64
    }
}

/// When what is remembered from now on expires, held at the limits.
pub open spec fn expiry(now_ms: i64, ttl_ms: i64) -> int {
    if now_ms + ttl_ms > i64::MAX {
        i64::MAX as int
    } else if now_ms + ttl_ms < i64::MIN {
        i64::MIN as int
    } else {
        now_ms + ttl_ms
    }
}

/// What finds out the team of a participant.
#[derive(Debug)]
pub struct BuildTeamResolver {
    /// How long a lookup may take.
    pub get_timeout_ms: u64,
    pub cache_ttl_ms: i64,
    pub edition: String,
    pub cache_by_subject: TextMap<CachedTeamEntry>,
}

/// The team that is remembered for a subject, which has no whitespace around it.
pub open spec fn remembered(
    cache: Map<Seq<char>, CachedTeamEntry>,
    subject: Seq<char>,
    now_ms: i64,
) -> Option<ResolvedTeam> {
    if cache.contains_key(subject) && cache[subject].expires_at_ms > now_ms {
        Some(cache[subject].team)
    } else {
        None
    }
}

/// A team as it was answered: its id, where there is one, and its name.
#[derive(Debug)]
pub struct TeamAnswer {
    pub id: Option<String>,
    pub name: String,
}

/// The id of the answer without the whitespace around it; nothing where there is none.
pub open spec fn answered_id(answer: TeamAnswer) -> Seq<char> {
    match answer.id {
        Some(id) => text::trimmed(id@),
        None => Seq::empty(),
    }
}

/// The resolver that the settings describe, seen what is wrong with the address at which
/// teams are looked up.
pub open spec fn is_resolver_of(
    cfg: Config,
    fault: Option<Seq<char>>,
    r: Result<BuildTeamResolver, BuildTeamResolverError>,
) -> bool {
    match fault {
        Some(fault) => r matches Err(BuildTeamResolverError::InvalidEndpoint { endpoint, source })
            && endpoint@ == cfg.hps_endpoint@ && source@ == fault,
        None => if cfg.hps_cache_ttl_ms > i64::MAX {
            r == Err::<BuildTeamResolver, BuildTeamResolverError>(
                BuildTeamResolverError::InvalidCacheTtl,
            )
        } else {
            r matches Ok(resolver) && resolver.get_timeout_ms == cfg.hps_get_timeout_ms
                && resolver.cache_ttl_ms == cfg.hps_cache_ttl_ms && resolver.edition
                == cfg.hps_edition && resolver.cache_by_subject@ == Map::<
                Seq<char>,
                CachedTeamEntry,
            >::empty()
        },
    }
}

impl BuildTeamResolver {
    /// The resolver that the settings describe; they must name an address.
    pub fn from_config(cfg: &Config) -> (r: Result<Self, BuildTeamResolverError>)
        ensures
            is_resolver_of(*cfg, endpoint_fault(cfg.hps_endpoint@), r),
            endpoint_fault(cfg.hps_endpoint@) is Some ==> endpoint_fault(cfg.hps_endpoint@)
                == Some("invalid URI"@),
    {
        let fault: Option<String> = check_endpoint(cfg.hps_endpoint.as_str());
        BuildTeamResolver::from_checked_config(cfg, fault)
    }

    /// The resolver that the settings describe, seen what is wrong with its address.
    pub fn from_checked_config(cfg: &Config, endpoint_fault: Option<String>) -> (r: Result<
        Self,
        BuildTeamResolverError,
    >)
        ensures
            is_resolver_of(*cfg, opt_text(endpoint_fault), r),
    {
        match endpoint_fault {
            Some(source) => {
                return Err(
                    BuildTeamResolverError::InvalidEndpoint {
                        endpoint: cfg.hps_endpoint.clone(),
                        source,
                    },
                );
            },
            None => {},
        }
        if cfg.hps_cache_ttl_ms > i64::MAX as u64 {
            return Err(BuildTeamResolverError::InvalidCacheTtl);
        }
        Ok(
            BuildTeamResolver {
                get_timeout_ms: cfg.hps_get_timeout_ms,
                cache_ttl_ms: cfg.hps_cache_ttl_ms as i64,
                edition: cfg.hps_edition.clone(),
                cache_by_subject: TextMap::new(),
            },
        )
    }

    /// The subject without the whitespace around it, which must leave something.
    pub fn check_subject(subject: &str) -> (r: Result<String, BuildTeamResolverError>)
        ensures
            text::trimmed(subject@).len() == 0 ==> r == Err::<String, BuildTeamResolverError>(
                BuildTeamResolverError::InvalidSubject,
            ),
            text::trimmed(subject@).len() > 0 ==> (r matches Ok(s) && s@ == text::trimmed(
                subject@,
            )),
    {
        let trimmed: String = text::trim(subject);
        if trimmed.as_str().is_empty() {
            return Err(BuildTeamResolverError::InvalidSubject);
        }
        Ok(trimmed)
    }

    /// The team that is remembered for the subject.
    pub fn cached_team(&self, subject: &str, now_ms: i64) -> (r: Option<ResolvedTeam>)
        ensures
            r == remembered(self.cache_by_subject@, subject@, now_ms),
    {
        match self.cache_by_subject.get(subject) {
            Some(entry) => {
                if entry.expires_at_ms > now_ms {
                    Some(entry.team.clone())
                } else {
                    None
                }
            },
            None => None,
        }
    }

    /// How a lookup of the subject's team ends. A team that was answered is remembered from
    /// now on.
    pub fn on_answer(
        &mut self,
        subject: &str,
        outcome: CallOutcome<Option<TeamAnswer>>,
        now_ms: i64,
    ) -> (r: Result<ResolvedTeam, BuildTeamResolverError>)
        ensures
            final(self).get_timeout_ms == old(self).get_timeout_ms,
            final(self).cache_ttl_ms == old(self).cache_ttl_ms,
            final(self).edition == old(self).edition,
            match outcome {
                CallOutcome::TimedOut => final(self).cache_by_subject@ == old(
                    self,
                ).cache_by_subject@ && r == Err::<ResolvedTeam, BuildTeamResolverError>(
                    BuildTeamResolverError::Timeout { timeout_ms: old(self).get_timeout_ms },
                ),
                CallOutcome::Refused(status) => final(self).cache_by_subject@ == old(
                    self,
                ).cache_by_subject@ && r == Err::<ResolvedTeam, BuildTeamResolverError>(
                    BuildTeamResolverError::GrpcStatus { status },
                ),
                CallOutcome::Answered(None) => final(self).cache_by_subject@ == old(self).cache_by_subject@ && (r matches Err(
                    BuildTeamResolverError::TeamNotFound { subject: s },
                ) && s@ == subject@),
                CallOutcome::Answered(Some(answer)) => if answered_id(answer).len() == 0 {
                    final(self).cache_by_subject@ == old(self).cache_by_subject@ && (r matches Err(
                        BuildTeamResolverError::MissingTeamId { subject: s },
                    ) && s@ == subject@)
                } else {
                    r matches Ok(team) && team.team_id@ == answered_id(answer) && team.team_name
                        == answer.name && final(self).cache_by_subject@ == old(
                        self,
                    ).cache_by_subject@.insert(
                        subject@,
                        CachedTeamEntry {
                            team,
                            expires_at_ms: expiry(now_ms, old(self).cache_ttl_ms) as i64,
                        },
                    )
                },
            },
    {
        let answer: TeamAnswer = match outcome {
            CallOutcome::Answered(Some(answer)) => answer,
            CallOutcome::Answered(None) => return Err(
                BuildTeamResolverError::TeamNotFound { subject: subject.to_owned() },
            ),
            CallOutcome::Refused(status) => return Err(
                BuildTeamResolverError::GrpcStatus { status },
            ),
            CallOutcome::TimedOut => return Err(
                BuildTeamResolverError::Timeout { timeout_ms: self.get_timeout_ms },
            ),
        };
        let team_id: String = match answer.id {
            Some(id) => text::trim(id.as_str()),
            None => {
                proof {
                    reveal_strlit("");
                }
                "".to_owned()
            },
        };
        if team_id.as_str().is_empty() {
            return Err(BuildTeamResolverError::MissingTeamId { subject: subject.to_owned() });
        }
        let resolved: ResolvedTeam = ResolvedTeam { team_id, team_name: answer.name };
        let sum: i128 = now_ms as i128 + self.cache_ttl_ms as i128;
        let expires_at_ms: i64 = if sum > i64::MAX as i128 {
            i64::MAX
        } else if sum < i64::MIN as i128 {
            i64::MIN
        } else {
            sum as i64
        };
        self.cache_by_subject.insert(
            subject.to_owned(),
            CachedTeamEntry { team: resolved.clone(), expires_at_ms },
        );
        Ok(resolved)
    }
}

/// A team that was answered is remembered until its time is over, and not longer; what
/// is remembered for others stays.
pub proof fn answered_team_is_remembered(
    cache: Map<Seq<char>, CachedTeamEntry>,
    subject: Seq<char>,
    other: Seq<char>,
    team: ResolvedTeam,
    answered_ms: i64,
    ttl_ms: i64,
    now_ms: i64,
)
    requires
        other != subject,
    ensures
        remembered(
            cache.insert(
                subject,
                CachedTeamEntry { team, expires_at_ms: expiry(answered_ms, ttl_ms) as i64 },
            ),
            subject,
            now_ms,
        ) == if now_ms < expiry(answered_ms, ttl_ms) {
            Some(team)
        } else {
            None
        },
        remembered(
            cache.insert(
                subject,
                CachedTeamEntry { team, expires_at_ms: expiry(answered_ms, ttl_ms) as i64 },
            ),
            other,
            now_ms,
        ) == remembered(cache, other, now_ms),
{
}

/// What is remembered expires after its time, and never beyond the largest or the smallest
/// time.
pub proof fn expiry_is_after_its_time(now_ms: i64, ttl_ms: i64)
    ensures
        i64::MIN <= now_ms + ttl_ms <= i64::MAX ==> expiry(now_ms, ttl_ms) == now_ms + ttl_ms,
        now_ms + ttl_ms > i64::MAX ==> expiry(now_ms, ttl_ms) == i64::MAX,
        now_ms + ttl_ms < i64::MIN ==> expiry(now_ms, ttl_ms) == i64::MIN,
{
}

/// A team is remembered for a subject exactly until it expires.
pub proof fn team_is_remembered_until_it_expires(
    cache: Map<Seq<char>, CachedTeamEntry>,
    subject: Seq<char>,
    now_ms: i64,
)
    ensures
        remembered(cache, subject, now_ms) is Some <==> cache.contains_key(subject) && now_ms
            < cache[subject].expires_at_ms,
        remembered(cache, subject, now_ms) matches Some(team) ==> team == cache[subject].team,
{
}

/// A team is answered with the id without the whitespace around it, and with none where none
/// was given.
pub proof fn answered_id_is_trimmed(answer: TeamAnswer)
    ensures
        answer.id matches Some(id) ==> answered_id(answer) == text::trimmed(id@),
        answer.id is None ==> answered_id(answer).len() == 0,
{
}

/// A resolver takes its times and its edition from the settings and remembers nothing yet;
/// there is none without an address or with a time that is too long.
pub proof fn resolver_is_set_up_as_configured(
    cfg: Config,
    fault: Option<Seq<char>>,
    r: Result<BuildTeamResolver, BuildTeamResolverError>,
    subject: Seq<char>,
)
    requires
        is_resolver_of(cfg, fault, r),
    ensures
        (r is Ok) == (fault is None && cfg.hps_cache_ttl_ms <= i64::MAX),
        r matches Ok(resolver) ==> resolver.get_timeout_ms == cfg.hps_get_timeout_ms
            && resolver.cache_ttl_ms == cfg.hps_cache_ttl_ms && resolver.edition == cfg.hps_edition
            && !resolver.cache_by_subject@.contains_key(subject),
        r matches Err(e) ==> (e is InvalidEndpoint) == (fault is Some) && (e is InvalidCacheTtl)
            == (fault is None),
{
}

/// An error is told with all that it holds.
pub proof fn resolver_errors_are_told_in_full(error: BuildTeamResolverError)
    ensures
        error matches BuildTeamResolverError::InvalidEndpoint { endpoint, source }
            ==> resolver_error_text(error) == "invalid HPS_ENDPOINT `"@ + endpoint@ + "`: "@
            + source@,
        error matches BuildTeamResolverError::Timeout { timeout_ms } ==> resolver_error_text(error)
            == "GetTeamByUser timed out after "@ + text::decimal(timeout_ms as nat) + " ms"@,
        error matches BuildTeamResolverError::GrpcStatus { status } ==> resolver_error_text(error)
            == "GetTeamByUser failed: "@ + status@,
        error matches BuildTeamResolverError::TeamNotFound { subject } ==> resolver_error_text(
            error,
        ) == "no team found for subject `"@ + subject@ + "`"@,
        error matches BuildTeamResolverError::MissingTeamId { subject } ==> resolver_error_text(
            error,
        ) == "team response for subject `"@ + subject@ + "` did not contain team id"@,
{
}

} // verus!
