//! Configuration model shared by the runtime and the web UI.

use std::time::Duration;
use vstd::prelude::*;

verus! {

/// What `Duration::from_secs` returns for a number of seconds.
pub uninterp spec fn duration_of_secs(secs: u64) -> Duration;

/// Calls `std::time::Duration::from_secs`; the result is named by `duration_of_secs`.
#[verifier::external_body]
fn duration_from_secs(secs: u64) -> (d: Duration)
    ensures
        d == duration_of_secs(secs),
{
    Duration::from_secs(secs)
}

/// Periodic status sampling settings.
#[derive(Clone, Copy, Debug, PartialEq, Eq)]
pub struct StatusConfig {
    /// Never zero, so a bad configuration cannot start a sampling loop without a pause.
    sample_interval_seconds: u64,
}

impl StatusConfig {
    #[verifier::type_invariant]
    spec fn interval_is_positive(self) -> bool {
        self.sample_interval_seconds > 0
    }

    /// The sampling period, in seconds.
    pub closed spec fn interval_seconds(self) -> u64 {
        self.sample_interval_seconds
    }

    /// Builds the settings; a zero period is refused.
    pub fn new(sample_interval_seconds: u64) -> (r: Option<Self>)
        ensures
            r is Some <==> sample_interval_seconds > 0,
            r matches Some(c) ==> c.interval_seconds() == sample_interval_seconds,
    {
        if sample_interval_seconds > 0 {
            Some(StatusConfig { sample_interval_seconds })
        } else {
            None
        }
    }

    /// The sampling period in seconds; always positive.
    pub fn sample_interval_seconds(&self) -> (r: u64)
        ensures
            r == self.interval_seconds(),
            r > 0,
    {
        proof {
            use_type_invariant(self);
        }
        self.sample_interval_seconds
    }

    /// The sampling period as a `Duration`.
    pub fn sample_interval(&self) -> (d: Duration)
        ensures
            d == duration_of_secs(self.interval_seconds()),
    {
        duration_from_secs(self.sample_interval_seconds)
    }
}

/// A socket address as the configuration stores it: an IPv4 address with a
/// port, or an IPv6 address with a port, flow information and scope id.
/// The addresses are held as their big-endian bit patterns.
#[derive(Clone, Copy, Debug, PartialEq, Eq, Structural)]
pub enum SocketAddress {
    V4 { ip: u32, port: u16 },
    V6 { ip: u128, port: u16, flowinfo: u32, scope_id: u32 },
}

/// Listening settings of the web service.
#[derive(Clone, Copy, Debug, PartialEq, Eq, Structural)]
pub struct WebConfig {
    pub listen_address: SocketAddress,
}

/// Output settings of the tracing log.
#[derive(Debug, PartialEq, Eq)]
pub struct LoggingConfig {
    /// Tracing directives, such as `info` or `warn,tower_http=info`.
    pub filter: String,
    /// Whether ANSI terminal escapes are written; usually off under the systemd journal.
    pub ansi: bool,
}

impl Clone for LoggingConfig {
    fn clone(&self) -> (r: Self)
        ensures
            r == *self,
    {
        LoggingConfig { filter: self.filter.clone(), ansi: self.ansi }
    }
}

/// The complete configuration file.
#[derive(Debug, PartialEq, Eq)]
pub struct AppConfig {
    pub web: WebConfig,
    pub status: StatusConfig,
    pub logging: LoggingConfig,
}

impl Clone for AppConfig {
    fn clone(&self) -> (r: Self)
        ensures
            r == *self,
    {
        AppConfig { web: self.web, status: self.status, logging: self.logging.clone() }
    }
}

/// Whether `c` is white space as `char::is_whitespace` documents it: the
/// Unicode `White_Space` property.
pub open spec fn is_white_space(c: char) -> bool {
    ||| c == ' '
    ||| ('\u{9}' <= c && c <= '\u{d}')
    ||| c == '\u{85}'
    ||| c == '\u{a0}'
    ||| c == '\u{1680}'
    ||| ('\u{2000}' <= c && c <= '\u{200a}')
    ||| c == '\u{2028}'
    ||| c == '\u{2029}'
    ||| c == '\u{202f}'
    ||| c == '\u{205f}'
    ||| c == '\u{3000}'
}

/// Whether position `j` of the directive text lies in a comma-separated
/// directive whose first character is white space.
pub open spec fn in_indented_directive(s: Seq<char>, j: int) -> bool
    decreases j,
{
    if j < 0 || j >= s.len() {
        false
    } else if j == 0 || s[j - 1] == ',' {
        is_white_space(s[j])
    } else {
        in_indented_directive(s, j - 1)
    }
}

/// Directive text that the directive parser can cut safely: every directive
/// that begins with white space is ASCII. The parser walks a directive with
/// its white space trimmed but cuts the untrimmed text at the positions it
/// found, so after leading white space a non-ASCII character can put a cut
/// inside a character.
pub open spec fn directives_cut_safely(s: Seq<char>) -> bool {
    forall|j: int| 0 <= j < s.len() && #[trigger] in_indented_directive(s, j) ==> (s[j] as u32)
        < 128
}

fn white_space(c: char) -> (r: bool)
    ensures
        r == is_white_space(c),
{
    c == ' ' || ('\u{9}' <= c && c <= '\u{d}') || c == '\u{85}' || c == '\u{a0}' || c
        == '\u{1680}' || ('\u{2000}' <= c && c <= '\u{200a}') || c == '\u{2028}' || c
        == '\u{2029}' || c == '\u{202f}' || c == '\u{205f}' || c == '\u{3000}'
}

/// Checks `directives_cut_safely`.
pub fn directives_are_cut_safely(directives: &str) -> (r: bool)
    ensures
        r == directives_cut_safely(directives@),
{
    let n = directives.unicode_len();
    let mut i: usize = 0;
    let mut indented = false;
    let mut previous = ',';
    while i < n
        invariant
            n == directives@.len(),
            i <= n,
            i == 0 ==> previous == ',',
            i > 0 ==> previous == directives@[i - 1],
            i > 0 ==> indented == in_indented_directive(directives@, i - 1),
            forall|j: int|
                0 <= j < i && #[trigger] in_indented_directive(directives@, j) ==> (
                directives@[j] as u32) < 128,
        decreases n - i,
    {
        let c = directives.get_char(i);
        if previous == ',' {
            indented = white_space(c);
        }
        assert(indented == in_indented_directive(directives@, i as int));
        if indented && (c as u32) >= 128 {
            return false;
        }
        previous = c;
        i = i + 1;
    }
    true
}

/// Whether `tracing_subscriber::EnvFilter::try_new` accepts the directives.
pub uninterp spec fn env_filter_accepts(directives: Seq<char>) -> bool;

/// Calls `tracing_subscriber::EnvFilter::try_new` and reports whether it
/// succeeded. Its result depends on the directive text alone; tracing-subscriber's parser
/// returns a filter without parsing anything when the text is empty. The text
/// must be cut safely (`directives_cut_safely`): otherwise the directive parser
/// can slice a string inside a character and panic.
#[verifier::external_body]
fn env_filter_parses(directives: &str) -> (ok: bool)
    requires
        directives_cut_safely(directives@),
    ensures
        ok == env_filter_accepts(directives@),
        directives@.len() == 0 ==> ok,
{
    tracing_subscriber::EnvFilter::try_new(directives).is_ok()
}

/// Why a candidate configuration was refused.
#[derive(Clone, Copy, Debug, PartialEq, Eq, Structural)]
pub enum InvalidConfig {
    /// The tracing directives cannot be parsed, or hold a directive that
    /// begins with white space and is not ASCII.
    LogFilter,
}

/// The outcome of validation, given whether the log filter parses.
pub open spec fn validation_of(filter_accepted: bool) -> Result<(), InvalidConfig> {
    if filter_accepted {
        Ok(())
    } else {
        Err(InvalidConfig::LogFilter)
    }
}

/// Validation of a configuration whose log filter parses or not.
pub fn validation_result(filter_accepted: bool) -> (r: Result<(), InvalidConfig>)
    ensures
        r == validation_of(filter_accepted),
{
    if filter_accepted {
        Ok(())
    } else {
        Err(InvalidConfig::LogFilter)
    }
}

impl AppConfig {
    /// A configuration is valid when its log filter can be cut safely and
    /// parses; a zero sampling period cannot occur, as `StatusConfig` refuses it.
    pub open spec fn spec_validate(self) -> Result<(), InvalidConfig> {
        if !directives_cut_safely(self.logging.filter@) {
            Err(InvalidConfig::LogFilter)
        } else {
            validation_of(env_filter_accepts(self.logging.filter@))
        }
    }

    /// Checks a candidate before it may be persisted.
    pub fn validate(&self) -> (r: Result<(), InvalidConfig>)
        ensures
            r == self.spec_validate(),
    {
        if !directives_are_cut_safely(self.logging.filter.as_str()) {
            return Err(InvalidConfig::LogFilter);
        }
        let accepted = env_filter_parses(self.logging.filter.as_str());
        validation_result(accepted)
    }
}

/// Validity depends on the log filter alone: a configuration is valid exactly
/// when its filter can be cut safely and the tracing parser accepts it, so two
/// configurations with the same filter validate alike, whatever their listen
/// address, sampling period or ANSI setting.
pub proof fn lemma_validity_depends_on_filter(config: AppConfig, other: AppConfig)
    ensures
        config.spec_validate() is Ok <==> (directives_cut_safely(config.logging.filter@)
            && env_filter_accepts(config.logging.filter@)),
        config.spec_validate() matches Err(e) ==> e == InvalidConfig::LogFilter,
        other.logging.filter@ == config.logging.filter@ ==> other.spec_validate()
            == config.spec_validate(),
{
}

/// Directive text made of ASCII characters only is always cut safely; a
/// directive that begins with a non-ASCII white-space character never is.
pub proof fn lemma_cut_safety(s: Seq<char>, j: int)
    ensures
        (forall|i: int| 0 <= i < s.len() ==> (#[trigger] s[i] as u32) < 128)
            ==> directives_cut_safely(s),
        0 <= j < s.len() && (j == 0 || s[j - 1] == ',') && is_white_space(s[j]) && (s[j] as u32)
            >= 128 ==> !directives_cut_safely(s),
{
    if 0 <= j < s.len() && (j == 0 || s[j - 1] == ',') && is_white_space(s[j]) && (s[j] as u32)
        >= 128 {
        assert(in_indented_directive(s, j));
    }
}

/// The configuration used by the tests: listening on 127.0.0.1:3000, the
/// `info` log filter without ANSI escapes, and the given sampling period.
pub fn test_config(interval_seconds: u64) -> (r: AppConfig)
    requires
        interval_seconds > 0,
    ensures
        r.web.listen_address == (SocketAddress::V4 { ip: 0x7f00_0001u32, port: 3000u16 }),
        r.status.interval_seconds() == interval_seconds,
        r.logging.filter@ == "info"@,
        !r.logging.ansi,
{
    let status = StatusConfig::new(interval_seconds).unwrap();
    AppConfig {
        web: WebConfig { listen_address: SocketAddress::V4 { ip: 0x7f00_0001u32, port: 3000u16 } },
        status,
        logging: LoggingConfig { filter: String::from_str("info"), ansi: false },
    }
}

} // verus!
