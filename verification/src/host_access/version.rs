//! Which engines understand the `host-gateway` keyword.

use vstd::prelude::*;

use crate::text::{
    decimal, law_decimal_reads_back, law_pieces, lemma_decimal_is_digits, lemma_head_len, parse_u64,
    parsed_u64, piece, split_at_first, trimmed, trimmed_end, trimmed_start,
};

verus! {

/// The oldest API version that understands the keyword.
pub const HOST_GATEWAY_API_MIN_MAJOR: u64 = 1;

pub const HOST_GATEWAY_API_MIN_MINOR: u64 = 41;

/// The oldest engine release that understands the keyword.
pub const HOST_GATEWAY_ENGINE_MIN_MAJOR: u64 = 20;

pub const HOST_GATEWAY_ENGINE_MIN_MINOR: u64 = 10;

/// What an engine says of its version.
#[derive(Debug)]
pub struct SystemVersion {
    pub api_version: Option<String>,
    pub version: Option<String>,
}

/// Whether version `major.minor` is `min_major.min_minor` or later.
pub open spec fn at_least(major: u64, minor: u64, min_major: u64, min_minor: u64) -> bool {
    major > min_major || (major == min_major && minor >= min_minor)
}

/// The number that the `k`-th dotted part of `s` spells, and zero where it spells none.
pub open spec fn version_part(s: Seq<char>, k: nat) -> u64 {
    match piece(s, '.', k) {
        Some(part) => match parsed_u64(part) {
            Some(n) => n,
            None => 0,
        },
        None => 0,
    }
}

/// Whether the API version `s` understands the keyword.
pub open spec fn api_supported(s: Seq<char>) -> bool {
    at_least(
        version_part(s, 0),
        version_part(s, 1),
        HOST_GATEWAY_API_MIN_MAJOR,
        HOST_GATEWAY_API_MIN_MINOR,
    )
}

fn number_or_zero(part: &str) -> (res: u64)
    ensures
        res == (match parsed_u64(part@) {
            Some(n) => n,
            None => 0u64,
        }),
{
    match parse_u64(part) {
        Some(n) => n,
        None => 0,
    }
}

/// Decides whether the API version understands the keyword.
pub fn api_supports_host_gateway(api_version: &str) -> (res: bool)
    ensures
        res == api_supported(api_version@),
{
    let (first, rest) = split_at_first(api_version, '.');
    let major: u64 = number_or_zero(first);
    let minor: u64 = match rest {
        Some(rest) => {
            let (second, _) = split_at_first(rest, '.');
            proof {
                assert(piece(rest@, '.', 0) == Some(second@));
                assert(piece(api_version@, '.', 1) == piece(rest@, '.', 0));
            }
            number_or_zero(second)
        },
        None => 0,
    };
    proof {
        assert(piece(api_version@, '.', 0) == Some(first@));
    }
    major > HOST_GATEWAY_API_MIN_MAJOR || (major == HOST_GATEWAY_API_MIN_MAJOR && minor
        >= HOST_GATEWAY_API_MIN_MINOR)
}

/// The major and minor number of a text that `semver::Version::parse` accepts, and `None` of any
/// other text.
pub uninterp spec fn semver_release(text: Seq<char>) -> Option<(u64, u64)>;

/// A version written as three numbers, without leading zeros.
pub open spec fn release_text(major: u64, minor: u64, patch: u64) -> Seq<char> {
    decimal(major as nat) + "."@ + decimal(minor as nat) + "."@ + decimal(patch as nat)
}

/// `semver::Version::parse`, of whose result only the major and the minor number are kept. It
/// depends on the text alone, and of three numbers it gives the first two back.
#[verifier::external_body]
fn parse_semver(text: &str) -> (res: Option<(u64, u64)>)
    ensures
        res == semver_release(text@),
        forall|major: u64, minor: u64, patch: u64|
            text@ == #[trigger] release_text(major, minor, patch) ==> res == Some((major, minor)),
{
    semver::Version::parse(text).ok().map(|version| (version.major, version.minor))
}

/// Whether an engine of the given release understands the keyword: one of an unknown release is
/// taken not to.
pub open spec fn release_supported(release: Option<(u64, u64)>) -> bool {
    match release {
        Some((major, minor)) => at_least(
            major,
            minor,
            HOST_GATEWAY_ENGINE_MIN_MAJOR,
            HOST_GATEWAY_ENGINE_MIN_MINOR,
        ),
        None => false,
    }
}

/// Decides whether an engine of the given release understands the keyword.
pub fn release_supports_host_gateway(release: Option<(u64, u64)>) -> (res: bool)
    ensures
        res == release_supported(release),
{
    match release {
        Some((major, minor)) => major > HOST_GATEWAY_ENGINE_MIN_MAJOR || (major
            == HOST_GATEWAY_ENGINE_MIN_MAJOR && minor >= HOST_GATEWAY_ENGINE_MIN_MINOR),
        None => false,
    }
}

/// Whether the engine version `s` understands the keyword.
pub open spec fn engine_supported(s: Seq<char>) -> bool {
    release_supported(semver_release(trimmed(s)))
}

/// Decides whether the engine version understands the keyword.
pub fn engine_supports_host_gateway(engine_version: &str) -> (res: bool)
    ensures
        res == engine_supported(engine_version@),
        forall|major: u64, minor: u64, patch: u64|
            trimmed(engine_version@) == #[trigger] release_text(major, minor, patch) ==> res
                == at_least(
                major,
                minor,
                HOST_GATEWAY_ENGINE_MIN_MAJOR,
                HOST_GATEWAY_ENGINE_MIN_MINOR,
            ),
{
    let cleaned = engine_version.trim();
    release_supports_host_gateway(parse_semver(cleaned))
}

/// Whether an engine with this version understands the keyword.
pub open spec fn version_supported(version: SystemVersion) -> bool {
    ||| version.api_version is Some && api_supported(version.api_version->0@)
    ||| version.version is Some && engine_supported(version.version->0@)
}

/// Decides from its version whether an engine understands the keyword: its API version is enough,
/// and so is its release.
pub fn host_gateway_supported_from_version(version: &SystemVersion) -> (res: bool)
    ensures
        res == version_supported(*version),
        forall|major: u64, minor: u64|
            version.api_version is Some && version.api_version->0@ == #[trigger] api_version_text(
                major,
                minor,
            ) && (major > 1 || (major == 1 && minor >= 41)) ==> res,
        forall|major: u64, minor: u64, patch: u64|
            version.version is Some && trimmed(version.version->0@) == #[trigger] release_text(
                major,
                minor,
                patch,
            ) && (major > 20 || (major == 20 && minor >= 10)) ==> res,
        res ==> (version.api_version is Some && (forall|major: u64, minor: u64|
            version.api_version->0@ == #[trigger] api_version_text(major, minor) ==> major > 1 || (
            major == 1 && minor >= 41))) || (version.version is Some && (forall|
            major: u64,
            minor: u64,
            patch: u64,
        |
            trimmed(version.version->0@) == #[trigger] release_text(major, minor, patch) ==> major
                > 20 || (major == 20 && minor >= 10))),
{
    proof {
        assert forall|major: u64, minor: u64|
            api_supported(#[trigger] api_version_text(major, minor)) <==> (major > 1 || (major == 1
                && minor >= 41)) by {
            law_api_threshold(major, minor);
        }
    }
    if let Some(api_version) = &version.api_version {
        if api_supports_host_gateway(api_version) {
            return true;
        }
    }
    if let Some(engine_version) = &version.version {
        if engine_supports_host_gateway(engine_version) {
            return true;
        }
    }
    false
}

/// What is known of the engine's support for the keyword.
#[derive(Debug)]
pub struct HostGatewaySupport {
    detected: Option<bool>,
    forced: Option<bool>,
}

impl HostGatewaySupport {
    /// What the version of the engine said.
    pub closed spec fn detected(&self) -> Option<bool> {
        self.detected
    }

    /// What is to be taken for the answer, whatever the engine says.
    pub closed spec fn forced(&self) -> Option<bool> {
        self.forced
    }

    /// The answer, where there is one without asking the engine.
    pub open spec fn known(&self) -> Option<bool> {
        if self.forced() is Some {
            self.forced()
        } else {
            self.detected()
        }
    }

    /// The state before the engine was asked.
    pub fn new() -> (res: Self)
        ensures
            res.detected() is None,
            res.forced() is None,
    {
        HostGatewaySupport { detected: None, forced: None }
    }

    /// Takes `value` for the answer from now on, or the engine's again.
    pub fn override_host_gateway_support(&mut self, value: Option<bool>)
        ensures
            final(self).forced() == value,
            final(self).detected() == old(self).detected(),
    {
        self.forced = value;
    }

    /// What is taken for the answer, whatever the engine says.
    pub fn host_gateway_override(&self) -> (res: Option<bool>)
        ensures
            res == self.forced(),
    {
        self.forced
    }

    /// The answer, where there is one without asking the engine.
    pub fn known_support(&self) -> (res: Option<bool>)
        ensures
            res == self.known(),
    {
        match self.forced {
            Some(value) => Some(value),
            None => self.detected,
        }
    }

    /// Answers from the version of the engine, or hands on the error that kept it back. The first
    /// answer that a version gives is kept, and a known answer is not changed by a version.
    pub fn detect_host_gateway_support<E>(&mut self, version: Result<SystemVersion, E>) -> (res:
        Result<bool, E>)
        ensures
            final(self).forced() == old(self).forced(),
            match old(self).known() {
                Some(known) => {
                    &&& res == Ok::<bool, E>(known)
                    &&& final(self).detected() == old(self).detected()
                },
                None => match version {
                    Ok(version) => {
                        &&& res == Ok::<bool, E>(version_supported(version))
                        &&& final(self).detected() == Some(version_supported(version))
                    },
                    Err(err) => {
                        &&& res == Err::<bool, E>(err)
                        &&& final(self).detected() == old(self).detected()
                    },
                },
            },
    {
        if let Some(known) = self.known_support() {
            return Ok(known);
        }
        match version {
            Ok(version) => {
                let supported = host_gateway_supported_from_version(&version);
                self.detected = Some(supported);
                Ok(supported)
            },
            Err(err) => Err(err),
        }
    }
}

/// An API version written as two numbers.
pub open spec fn api_version_text(major: u64, minor: u64) -> Seq<char> {
    decimal(major as nat) + "."@ + decimal(minor as nat)
}

/// An API version of two numbers understands the keyword exactly from 1.41 on.
pub proof fn law_api_threshold(major: u64, minor: u64)
    ensures
        api_supported(api_version_text(major, minor)) <==> (major > 1 || (major == 1 && minor
            >= 41)),
{
    let a = decimal(major as nat);
    let b = decimal(minor as nat);
    let s = api_version_text(major, minor);
    reveal_strlit(".");
    lemma_decimal_is_digits(major as nat);
    lemma_decimal_is_digits(minor as nat);
    law_decimal_reads_back(major);
    law_decimal_reads_back(minor);
    assert(forall|i: int| 0 <= i < a.len() ==> s[i] == a[i]);
    lemma_head_len(s, '.', a.len());
    assert(s.take(a.len() as int) =~= a);
    assert(s.skip(a.len() as int + 1) =~= b);
    lemma_head_len(b, '.', b.len());
    assert(b.take(b.len() as int) =~= b);
    assert(piece(b, '.', 0) == Some(b));
    assert(piece(s, '.', 0) == Some(a));
    assert(piece(s, '.', 1) == piece(b, '.', 0));
}

/// A release of three numbers has no white space around it, so that an engine which says just that
/// is judged by these numbers.
pub proof fn law_plain_release_is_trimmed(major: u64, minor: u64, patch: u64)
    ensures
        trimmed(release_text(major, minor, patch)) == release_text(major, minor, patch),
{
    let s = release_text(major, minor, patch);
    lemma_decimal_is_digits(major as nat);
    lemma_decimal_is_digits(patch as nat);
    assert(s[0] == decimal(major as nat)[0]);
    assert(s.last() == decimal(patch as nat).last());
    assert(trimmed_start(s) == s);
    assert(trimmed_end(s) == s);
}

/// Support is not lost again: whatever is later than a supported version is supported.
pub proof fn law_later_versions_are_supported(
    major: u64,
    minor: u64,
    later_major: u64,
    later_minor: u64,
)
    requires
        at_least(later_major, later_minor, major, minor),
    ensures
        release_supported(Some((major, minor))) ==> release_supported(
            Some((later_major, later_minor)),
        ),
        api_supported(api_version_text(major, minor)) ==> api_supported(
            api_version_text(later_major, later_minor),
        ),
{
    law_api_threshold(major, minor);
    law_api_threshold(later_major, later_minor);
}

/// Either version is enough, and nothing else is: an API version of two numbers from 1.41 on makes
/// an engine understand the keyword whatever its release, and a release from 20.10 on whatever its
/// API version. Below both, and where neither is said, it does not.
pub proof fn law_either_version_is_enough(
    version: &SystemVersion,
    res: bool,
    api_major: u64,
    api_minor: u64,
    major: u64,
    minor: u64,
    patch: u64,
)
    requires
        call_ensures(host_gateway_supported_from_version, (version,), res),
    ensures
        version.api_version is Some && version.api_version->0@ == api_version_text(
            api_major,
            api_minor,
        ) && (api_major > 1 || (api_major == 1 && api_minor >= 41)) ==> res,
        version.version is Some && trimmed(version.version->0@) == release_text(major, minor, patch)
            && (major > 20 || (major == 20 && minor >= 10)) ==> res,
        version.version is Some && semver_release(trimmed(version.version->0@)) == Some(
            (major, minor),
        ) && (major > 20 || (major == 20 && minor >= 10)) ==> res,
        ({
            &&& version.api_version is None || (version.api_version->0@ == api_version_text(
                api_major,
                api_minor,
            ) && (api_major < 1 || (api_major == 1 && api_minor < 41)))
            &&& version.version is None || (trimmed(version.version->0@) == release_text(
                major,
                minor,
                patch,
            ) && (major < 20 || (major == 20 && minor < 10)))
        }) ==> !res,
        ({
            &&& version.api_version is None || (version.api_version->0@ == api_version_text(
                api_major,
                api_minor,
            ) && (api_major < 1 || (api_major == 1 && api_minor < 41)))
            &&& version.version is None || semver_release(trimmed(version.version->0@)) is None || (
            semver_release(trimmed(version.version->0@)) == Some((major, minor)) && (major < 20 || (
            major == 20 && minor < 10)))
        }) ==> !res,
{
    law_api_threshold(api_major, api_minor);
}

/// An engine's release alone is judged by its first two numbers, wherever the text has them from,
/// and a text that is no release is not enough.
pub proof fn law_release_threshold(
    engine_version: &str,
    res: bool,
    release: Option<(u64, u64)>,
    judged: bool,
    major: u64,
    minor: u64,
    patch: u64,
)
    requires
        call_ensures(engine_supports_host_gateway, (engine_version,), res),
        call_ensures(release_supports_host_gateway, (release,), judged),
    ensures
        judged <==> (release matches Some((major, minor)) && (major > 20 || (major == 20 && minor
            >= 10))),
        res <==> (semver_release(trimmed(engine_version@)) matches Some((major, minor)) && (major
            > 20 || (major == 20 && minor >= 10))),
        trimmed(engine_version@) == release_text(major, minor, patch) ==> (res <==> major > 20 || (
        major == 20 && minor >= 10)),
{
}

/// The number that a dotted part spells counts, and a part that spells none counts as zero.
pub open spec fn number_of(part: Seq<char>) -> int {
    match parsed_u64(part) {
        Some(n) => n as int,
        None => 0,
    }
}

/// An API version is judged by its first two dotted parts, a part that is missing or no number
/// counting as zero; whatever follows them makes no difference.
pub proof fn law_api_version_is_judged_by_two_parts(
    first: Seq<char>,
    second: Seq<char>,
    rest: Seq<char>,
    api_version: &str,
    res: bool,
)
    requires
        !first.contains('.'),
        !second.contains('.'),
        call_ensures(api_supports_host_gateway, (api_version,), res),
    ensures
        api_version@ == first ==> (res <==> number_of(first) > 1),
        api_version@ == first + seq!['.'] + second ==> (res <==> number_of(first) > 1 || (number_of(
            first,
        ) == 1 && number_of(second) >= 41)),
        api_version@ == first + seq!['.'] + second + seq!['.'] + rest ==> (res <==> number_of(first)
            > 1 || (number_of(first) == 1 && number_of(second) >= 41)),
{
    law_pieces(first, '.', second + seq!['.'] + rest, 0);
    law_pieces(second, '.', rest, 0);
    law_pieces(first, '.', second, 0);
    assert(first + seq!['.'] + second + seq!['.'] + rest =~= first + seq!['.'] + (second + seq!['.']
        + rest));
}

/// An answer is kept: what is imposed goes before everything, then what a version of the engine
/// said first, and only without either is a version judged. An engine that could not be asked
/// leaves nothing behind.
pub proof fn law_first_answer_is_kept<E>(
    version: Result<SystemVersion, E>,
    res: Result<bool, E>,
    judged: bool,
)
    ensures
        forall|support: &mut HostGatewaySupport| #[trigger]
            call_ensures(
                HostGatewaySupport::detect_host_gateway_support::<E>,
                (support, version),
                res,
            ) ==> {
                &&& final(support).forced() == (*support).forced()
                &&& (*support).forced() matches Some(imposed) ==> res == Ok::<bool, E>(imposed)
                    && final(support).detected() == (*support).detected()
                &&& (*support).forced() is None && (*support).detected() is Some ==> res == Ok::<
                    bool,
                    E,
                >((*support).detected()->0) && final(support).detected() == (*support).detected()
                &&& (*support).forced() is None && (*support).detected() is None ==> {
                    &&& version matches Err(err) ==> res == Err::<bool, E>(err) && final(
                        support).detected() is None
                    &&& version matches Ok(said) ==> res is Ok && final(support).detected() == Some(
                        res->Ok_0,
                    ) && (call_ensures(host_gateway_supported_from_version, (&said,), judged) ==> res
                        == Ok::<bool, E>(judged))
                }
            },
{
}

/// What is imposed is the answer until it is lifted again; then it is what the engine said.
pub proof fn law_imposed_answer_wins(
    support: &HostGatewaySupport,
    known: Option<bool>,
    imposed: Option<bool>,
    value: Option<bool>,
    fresh: HostGatewaySupport,
)
    requires
        call_ensures(HostGatewaySupport::known_support, (support,), known),
        call_ensures(HostGatewaySupport::host_gateway_override, (support,), imposed),
        call_ensures(HostGatewaySupport::new, (), fresh),
    ensures
        imposed == support.forced(),
        support.forced() is Some ==> known == support.forced(),
        support.forced() is None ==> known == support.detected(),
        fresh.forced() is None && fresh.detected() is None,
        forall|changed: &mut HostGatewaySupport| #[trigger]
            call_ensures(
                HostGatewaySupport::override_host_gateway_support,
                (changed, value),
                (),
            ) ==> final(changed).forced() == value && final(changed).detected()
                == (*changed).detected(),
{
}

} // verus!
