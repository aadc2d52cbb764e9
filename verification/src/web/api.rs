//! Answers of the coarse-grained JSON API: bodies, errors and their HTTP status codes.

use crate::config::manager::{persistence_reply, validation_reply, ConfigError};
use crate::config::model::AppConfig;
use vstd::prelude::*;
use vstd::std_specs::convert::FromSpecImpl;

verus! {

/// A field of the configuration file, named by its TOML path.
#[derive(Clone, Copy, Debug, PartialEq, Eq, Structural)]
pub enum ConfigField {
    WebListenAddress,
    StatusSampleInterval,
    LoggingFilter,
    LoggingAnsi,
}

/// When a change of a configuration field takes effect.
#[derive(Clone, Copy, Debug, PartialEq, Eq, Structural)]
pub enum ApplyMode {
    /// At once: the running service follows the new value.
    Hot,
    /// Only after the process restarts.
    RestartRequired,
}

impl ConfigField {
    /// The TOML path of the field, as the web UI marks it.
    pub open spec fn spec_path(self) -> Seq<char> {
        match self {
            ConfigField::WebListenAddress => "web.listen_address"@,
            ConfigField::StatusSampleInterval => "status.sample_interval_seconds"@,
            ConfigField::LoggingFilter => "logging.filter"@,
            ConfigField::LoggingAnsi => "logging.ansi"@,
        }
    }

    /// Only the sampling period is followed by the running sampler; the listen
    /// address and the log settings are read once at start-up.
    pub open spec fn spec_apply_mode(self) -> ApplyMode {
        match self {
            ConfigField::StatusSampleInterval => ApplyMode::Hot,
            _ => ApplyMode::RestartRequired,
        }
    }

    pub fn path(&self) -> (r: &'static str)
        ensures
            r@ == self.spec_path(),
    {
        match self {
            ConfigField::WebListenAddress => "web.listen_address",
            ConfigField::StatusSampleInterval => "status.sample_interval_seconds",
            ConfigField::LoggingFilter => "logging.filter",
            ConfigField::LoggingAnsi => "logging.ansi",
        }
    }

    pub fn apply_mode(&self) -> (r: ApplyMode)
        ensures
            r == self.spec_apply_mode(),
    {
        match self {
            ConfigField::StatusSampleInterval => ApplyMode::Hot,
            _ => ApplyMode::RestartRequired,
        }
    }
}

/// The fields of the configuration file, in file order.
pub open spec fn all_fields() -> Seq<ConfigField> {
    seq![
        ConfigField::WebListenAddress,
        ConfigField::StatusSampleInterval,
        ConfigField::LoggingFilter,
        ConfigField::LoggingAnsi,
    ]
}

/// The paths of the fields whose changes take effect at once, in file order.
pub open spec fn hot_applied_paths() -> Seq<Seq<char>> {
    seq!["status.sample_interval_seconds"@]
}

/// The paths of the fields whose changes need a restart, in file order.
pub open spec fn restart_required_paths() -> Seq<Seq<char>> {
    seq!["web.listen_address"@, "logging.filter"@, "logging.ansi"@]
}

/// Every configuration field is listed exactly once: among the hot-applied
/// fields when a change takes effect at once, among the restart-required
/// fields otherwise.
pub proof fn lemma_apply_modes_partition_fields()
    ensures
        forall|f: ConfigField|
            hot_applied_paths().contains(#[trigger] f.spec_path()) <==> f.spec_apply_mode()
                == ApplyMode::Hot,
        forall|f: ConfigField|
            restart_required_paths().contains(#[trigger] f.spec_path()) <==> f.spec_apply_mode()
                == ApplyMode::RestartRequired,
        forall|i: int|
            #![trigger hot_applied_paths()[i]]
            0 <= i < hot_applied_paths().len() ==> exists|f: ConfigField|
                #[trigger] f.spec_path() == hot_applied_paths()[i],
        forall|i: int|
            #![trigger restart_required_paths()[i]]
            0 <= i < restart_required_paths().len() ==> exists|f: ConfigField|
                #[trigger] f.spec_path() == restart_required_paths()[i],
        hot_applied_paths().len() + restart_required_paths().len() == all_fields().len(),
{
    reveal_strlit("web.listen_address");
    reveal_strlit("status.sample_interval_seconds");
    reveal_strlit("logging.filter");
    reveal_strlit("logging.ansi");
    let hot = hot_applied_paths();
    let restart = restart_required_paths();
    assert("web.listen_address"@.len() == 18);
    assert("status.sample_interval_seconds"@.len() == 30);
    assert("logging.filter"@.len() == 14);
    assert("logging.ansi"@.len() == 12);
    assert forall|f: ConfigField|
        hot.contains(#[trigger] f.spec_path()) <==> f.spec_apply_mode() == ApplyMode::Hot by {
        if f.spec_apply_mode() == ApplyMode::Hot {
            assert(hot[0] == f.spec_path());
        } else {
            assert(hot[0].len() != f.spec_path().len());
        }
    }
    assert forall|f: ConfigField|
        restart.contains(#[trigger] f.spec_path()) <==> f.spec_apply_mode()
            == ApplyMode::RestartRequired by {
        match f {
            ConfigField::WebListenAddress => assert(restart[0] == f.spec_path()),
            ConfigField::LoggingFilter => assert(restart[1] == f.spec_path()),
            ConfigField::LoggingAnsi => assert(restart[2] == f.spec_path()),
            ConfigField::StatusSampleInterval => {
                assert(restart[0].len() != f.spec_path().len());
                assert(restart[1].len() != f.spec_path().len());
                assert(restart[2].len() != f.spec_path().len());
            },
        }
    }
    assert(ConfigField::StatusSampleInterval.spec_path() == hot[0]);
    assert(ConfigField::WebListenAddress.spec_path() == restart[0]);
    assert(ConfigField::LoggingFilter.spec_path() == restart[1]);
    assert(ConfigField::LoggingAnsi.spec_path() == restart[2]);
}

/// The views of a list of static strings.
pub open spec fn paths_of(v: Seq<&'static str>) -> Seq<Seq<char>> {
    v.map_values(|s: &'static str| s@)
}

/// The body of `GET /api/health`.
#[derive(Clone, Copy, Debug, PartialEq, Eq)]
pub struct HealthBody {
    pub status: &'static str,
}

impl HealthBody {
    /// The process is up.
    pub fn ok() -> (r: Self)
        ensures
            r.status@ == "ok"@,
    {
        HealthBody { status: "ok" }
    }
}

/// The body of `GET /api/config` and of a successful `PUT /api/config`: the
/// configuration and when a change of each of its fields takes effect.
#[derive(Debug)]
pub struct ConfigBody {
    pub config: AppConfig,
    pub hot_applied_fields: Vec<&'static str>,
    pub restart_required_fields: Vec<&'static str>,
}

impl ConfigBody {
    pub fn new(config: AppConfig) -> (r: Self)
        ensures
            r.config == config,
            paths_of(r.hot_applied_fields@) == hot_applied_paths(),
            paths_of(r.restart_required_fields@) == restart_required_paths(),
    {
        let hot_applied_fields = vec![ConfigField::StatusSampleInterval.path()];
        let restart_required_fields = vec![
            ConfigField::WebListenAddress.path(),
            ConfigField::LoggingFilter.path(),
            ConfigField::LoggingAnsi.path(),
        ];
        assert(paths_of(hot_applied_fields@) =~= hot_applied_paths());
        assert(paths_of(restart_required_fields@) =~= restart_required_paths());
        ConfigBody { config, hot_applied_fields, restart_required_fields }
    }
}

/// The JSON body of an API error.
#[derive(Clone, Copy, Debug, PartialEq, Eq)]
pub struct ApiErrorBody {
    pub code: &'static str,
    pub message: &'static str,
}

/// An API error: an HTTP status code and its JSON body.
#[derive(Clone, Copy, Debug, PartialEq, Eq)]
pub struct ApiError {
    pub status: u16,
    pub body: ApiErrorBody,
}

/// The status code, code and message that a configuration error is answered with.
pub open spec fn config_error_answer(error: ConfigError) -> (u16, Seq<char>, Seq<char>) {
    match error {
        ConfigError::Invalid(_) => (422u16, "invalid_config"@, "候选配置无效"@),
        ConfigError::Persistence(_) => (500u16, "config_persistence_failed"@, "配置保存失败"@),
        ConfigError::Unavailable => (503u16, "config_manager_unavailable"@, "配置管理器暂不可用"@),
    }
}

impl ApiError {
    /// Whether the error is the answer `(status, code, message)`.
    pub open spec fn is_answer(self, answer: (u16, Seq<char>, Seq<char>)) -> bool {
        &&& self.status == answer.0
        &&& self.body.code@ == answer.1
        &&& self.body.message@ == answer.2
    }

    pub fn new(status: u16, code: &'static str, message: &'static str) -> (r: Self)
        ensures
            r.status == status,
            r.body.code == code,
            r.body.message == message,
    {
        ApiError { status, body: ApiErrorBody { code, message } }
    }

    /// The answer to a path below `/api` that no route serves: 404.
    pub fn not_found() -> (r: Self)
        ensures
            r.is_answer((404u16, "not_found"@, "接口不存在"@)),
    {
        ApiError::new(404, "not_found", "接口不存在")
    }

    /// The answer to a known API path with a method it does not serve: 405.
    pub fn method_not_allowed() -> (r: Self)
        ensures
            r.is_answer((405u16, "method_not_allowed"@, "HTTP 方法不受支持"@)),
    {
        ApiError::new(405, "method_not_allowed", "HTTP 方法不受支持")
    }

    /// The answer to a request body that is not a complete configuration,
    /// with the status code that the body extraction chose.
    pub fn invalid_request(status: u16) -> (r: Self)
        ensures
            r.is_answer((status, "invalid_request"@, "请求体不是有效的完整配置"@)),
    {
        ApiError::new(status, "invalid_request", "请求体不是有效的完整配置")
    }
}

/// The error value that a configuration error is answered with.
pub open spec fn api_error_of(error: ConfigError) -> ApiError {
    match error {
        ConfigError::Invalid(_) => ApiError {
            status: 422,
            body: ApiErrorBody { code: "invalid_config", message: "候选配置无效" },
        },
        ConfigError::Persistence(_) => ApiError {
            status: 500,
            body: ApiErrorBody { code: "config_persistence_failed", message: "配置保存失败" },
        },
        ConfigError::Unavailable => ApiError {
            status: 503,
            body: ApiErrorBody { code: "config_manager_unavailable", message: "配置管理器暂不可用" },
        },
    }
}

impl From<ConfigError> for ApiError {
    fn from(error: ConfigError) -> (r: Self) {
        match error {
            ConfigError::Invalid(_) => ApiError::new(422, "invalid_config", "候选配置无效"),
            ConfigError::Persistence(_) => ApiError::new(
                500,
                "config_persistence_failed",
                "配置保存失败",
            ),
            ConfigError::Unavailable => ApiError::new(
                503,
                "config_manager_unavailable",
                "配置管理器暂不可用",
            ),
        }
    }
}

impl FromSpecImpl<ConfigError> for ApiError {
    open spec fn obeys_from_spec() -> bool {
        true
    }

    open spec fn from_spec(error: ConfigError) -> ApiError {
        api_error_of(error)
    }
}

/// How a replacement request is answered: a candidate that fails validation
/// gets 422 `invalid_config`; a valid candidate whose persistence failed gets
/// 500 `config_persistence_failed`; every error answer matches its error.
pub proof fn lemma_replace_answers(candidate: AppConfig, persisted: Result<(), String>)
    ensures
        candidate.spec_validate() is Err ==> (validation_reply(candidate.spec_validate()) matches Err(
            e,
        ) && api_error_of(e).is_answer((422u16, "invalid_config"@, "候选配置无效"@))),
        persisted is Err ==> (persistence_reply(persisted) matches Err(e) && api_error_of(
            e,
        ).is_answer((500u16, "config_persistence_failed"@, "配置保存失败"@))),
        forall|e: ConfigError| #[trigger] api_error_of(e).is_answer(config_error_answer(e)),
{
}

/// The answer to `PUT /api/config` once the configuration actor replied:
/// the accepted configuration with its apply modes, or the mapped error.
pub fn replace_config_response(candidate: AppConfig, outcome: Result<(), ConfigError>) -> (r:
    Result<ConfigBody, ApiError>)
    ensures
        match outcome {
            Ok(()) => r matches Ok(body) && body.config == candidate
                && paths_of(body.hot_applied_fields@) == hot_applied_paths()
                && paths_of(body.restart_required_fields@) == restart_required_paths(),
            Err(e) => r matches Err(api) && api == api_error_of(e) && api.is_answer(
                config_error_answer(e),
            ),
        },
{
    match outcome {
        Ok(()) => Ok(ConfigBody::new(candidate)),
        Err(e) => Err(ApiError::from(e)),
    }
}

} // verus!
