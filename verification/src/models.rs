//! Request and response shapes of the control API, the resource-string
//! grammar of create requests, and the projections from persisted instances
//! onto the wire shapes. Serialization itself lives with the embedding
//! application; the field contents are fixed here.

use vstd::prelude::*;

use crate::errors::ApiError;
use crate::instance::{spec_status_label, InstanceState};
use crate::numstr::{
    i64_to_string, parse_u64, spec_all_digits, spec_digits_val, spec_i64_str, spec_u64_str,
    u16_to_string,
};

verus! {

/// The create-instance request body.
pub struct CreateInstanceRequest {
    pub name: String,
    pub vcpus: u32,
    pub memory: String,
    pub storage: String,
    pub port: Option<u16>,
    pub dev: bool,
    pub tee: bool,
    pub vcpu_type: String,
    pub chain_id: Option<String>,
    pub block_time: Option<u64>,
    pub accounts: Option<u16>,
    pub disable_fee: bool,
    pub extra_args: Vec<String>,
}

/// Default development-mode flag of a create request.
pub fn default_dev() -> (r: bool)
    ensures
        r == true,
{
    true
}

/// Default vCPU model of a create request.
pub fn default_vcpu_type() -> (r: String)
    ensures
        r@ == "host"@,
{
    "host".to_owned()
}

/// One instance, as shown to API clients.
pub struct InstanceResponse {
    pub id: String,
    pub name: String,
    pub status: String,
    pub config: InstanceConfigResponse,
    pub created_at: String,
    pub updated_at: String,
    pub endpoints: Option<EndpointsResponse>,
}

/// The configuration projection of an instance.
pub struct InstanceConfigResponse {
    pub vcpus: u32,
    pub memory_mb: u64,
    pub storage_bytes: u64,
    pub rpc_port: u16,
    pub metrics_port: Option<u16>,
    pub tee_mode: bool,
}

/// The endpoints of a reachable instance.
pub struct EndpointsResponse {
    pub rpc: String,
    pub metrics: Option<String>,
}

/// The list-instances response.
pub struct ListInstancesResponse {
    pub instances: Vec<InstanceResponse>,
    pub total: usize,
}

/// The batched logs response.
pub struct LogsResponse {
    pub instance_name: String,
    pub lines: Vec<String>,
    pub total_lines: usize,
}

/// The stats response.
pub struct StatsResponse {
    pub instance_name: String,
    pub status: StatusInfo,
    pub config: ConfigInfo,
    pub resources: ResourcesInfo,
    pub network: NetworkInfo,
}

/// Run-state block of the stats response.
pub struct StatusInfo {
    pub state: String,
    pub running: bool,
    pub pid: Option<i32>,
    pub uptime: String,
}

/// Configuration block of the stats response.
pub struct ConfigInfo {
    pub vcpus: u32,
    pub memory_mb: u64,
    pub rpc_port: u16,
    pub tee_mode: Option<String>,
}

/// Resource block of the stats response.
pub struct ResourcesInfo {
    pub cpu_count: usize,
    pub cpus: Vec<CpuInfo>,
    pub memory_mb: u64,
}

/// One guest vCPU of the stats response.
pub struct CpuInfo {
    pub cpu_index: u64,
    pub thread_id: u64,
}

/// Network block of the stats response.
pub struct NetworkInfo {
    pub rpc_url: String,
    pub health_url: String,
}

/// The error envelope.
pub struct ErrorResponse {
    pub error: ErrorDetail,
}

/// The code and message inside the error envelope.
pub struct ErrorDetail {
    pub code: String,
    pub message: String,
}

/// A size string scaled to the given factors: a digit string followed by a
/// `G` or `M` suffix (either case), or bare. Rejected when empty, when the
/// digits are missing or malformed, or when the scaled value overflows.
pub open spec fn spec_parse_scaled(s: Seq<char>, g_factor: int, m_factor: int, bare_factor: int) -> Option<int> {
    if s.len() == 0 {
        None
    } else {
        let last = s.last();
        let digits = if last == 'G' || last == 'g' || last == 'M' || last == 'm' {
            s.drop_last()
        } else {
            s
        };
        let factor = if last == 'G' || last == 'g' {
            g_factor
        } else if last == 'M' || last == 'm' {
            m_factor
        } else {
            bare_factor
        };
        if digits.len() > 0 && spec_all_digits(digits) && spec_digits_val(digits) * factor
            <= u64::MAX {
            Some(spec_digits_val(digits) * factor)
        } else {
            None
        }
    }
}

fn parse_scaled(s: &str, g_factor: u64, m_factor: u64, bare_factor: u64) -> (r: Option<u64>)
    requires
        1 <= g_factor,
        1 <= m_factor,
        1 <= bare_factor,
    ensures
        (match r {
            Some(v) => spec_parse_scaled(
                s@,
                g_factor as int,
                m_factor as int,
                bare_factor as int,
            ) == Some(v as int),
            None => spec_parse_scaled(s@, g_factor as int, m_factor as int, bare_factor as int)
                is None,
        }),
{
    let n = s.unicode_len();
    if n == 0 {
        return None;
    }
    let last = s.get_char(n - 1);
    let has_suffix = last == 'G' || last == 'g' || last == 'M' || last == 'm';
    let digits: &str = if has_suffix {
        let d = s.substring_char(0, n - 1);
        proof {
            assert(d@ =~= s@.drop_last());
        }
        d
    } else {
        s
    };
    let factor: u64 = if last == 'G' || last == 'g' {
        g_factor
    } else if last == 'M' || last == 'm' {
        m_factor
    } else {
        bare_factor
    };
    let value = match parse_u64(digits) {
        Some(v) => v,
        None => {
            proof {
                let dv = spec_digits_val(digits@);
                if digits@.len() > 0 && spec_all_digits(digits@) {
                    crate::numstr::lemma_digits_val_nonneg(digits@);
                    assert(dv > u64::MAX);
                    assert(dv * (factor as int) >= dv) by (nonlinear_arith)
                        requires
                            factor >= 1,
                            dv >= 0,
                    ;
                }
            }
            return None;
        },
    };
    if value > u64::MAX / factor {
        proof {
            let m: int = u64::MAX as int;
            let f: int = factor as int;
            let v: int = value as int;
            vstd::arithmetic::div_mod::lemma_fundamental_div_mod(m, f);
            assert(v * f > m) by (nonlinear_arith)
                requires
                    v > m / f,
                    f >= 1,
                    m == f * (m / f) + (m % f),
                    0 <= m % f < f,
            ;
        }
        return None;
    }
    proof {
        let m: int = u64::MAX as int;
        let f: int = factor as int;
        let v: int = value as int;
        vstd::arithmetic::div_mod::lemma_fundamental_div_mod(m, f);
        assert(v * f <= m) by (nonlinear_arith)
            requires
                v <= m / f,
                f >= 1,
                m == f * (m / f) + (m % f),
                0 <= m % f < f,
        ;
    }
    Some(value * factor)
}

/// Parses a memory size into mebibytes: `"4G"` is 4096, `"2048M"` (or bare
/// `"2048"`) is 2048.
pub fn parse_memory_mb(s: &str) -> (r: Option<u64>)
    ensures
        (match r {
            Some(v) => spec_parse_scaled(s@, 1024, 1, 1) == Some(v as int),
            None => spec_parse_scaled(s@, 1024, 1, 1) is None,
        }),
{
    parse_scaled(s, 1024, 1, 1)
}

/// Parses a storage size into bytes: `"2G"` is 2 GiB, `"512M"` is 512 MiB,
/// bare digits are bytes.
pub fn parse_storage_bytes(s: &str) -> (r: Option<u64>)
    ensures
        (match r {
            Some(v) => spec_parse_scaled(s@, 0x40000000, 0x100000, 1) == Some(v as int),
            None => spec_parse_scaled(s@, 0x40000000, 0x100000, 1) is None,
        }),
{
    parse_scaled(s, 0x40000000, 0x100000, 1)
}

/// The local RPC endpoint of an instance's forwarded port.
pub fn build_rpc_url(port: u16) -> (r: String)
    ensures
        r@ == "http://localhost:"@ + spec_u64_str(port as nat),
{
    "http://localhost:".to_owned().concat(u16_to_string(port).as_str())
}

/// How a wire projection reflects a persisted instance: identity and label
/// carried over, the configuration fields copied, stamps in decimal, and the
/// RPC endpoint derived from the forwarded port.
pub open spec fn response_matches(r: InstanceResponse, s: InstanceState) -> bool {
    &&& r.id@ == s.id@
    &&& r.name@ == s.name@
    &&& r.status@ == spec_status_label(s.status)
    &&& r.config.vcpus == s.config.vcpus
    &&& r.config.memory_mb == s.config.memory_mb
    &&& r.config.storage_bytes == s.config.storage_bytes
    &&& r.config.rpc_port == s.config.rpc_port
    &&& r.config.metrics_port is None
    &&& r.config.tee_mode == s.config.tee_mode
    &&& r.created_at@ == spec_i64_str(s.created_at as int)
    &&& r.updated_at@ == spec_i64_str(s.updated_at as int)
    &&& (r.endpoints matches Some(e) && e.rpc@ == "http://localhost:"@ + spec_u64_str(
        s.config.rpc_port as nat,
    ) && e.metrics is None)
}

/// Projects one persisted instance onto its wire shape.
pub fn instance_response(state: &InstanceState) -> (r: InstanceResponse)
    ensures
        response_matches(r, *state),
{
    InstanceResponse {
        id: state.id.clone(),
        name: state.name.clone(),
        status: state.status.label(),
        config: InstanceConfigResponse {
            vcpus: state.config.vcpus,
            memory_mb: state.config.memory_mb,
            storage_bytes: state.config.storage_bytes,
            rpc_port: state.config.rpc_port,
            metrics_port: None,
            tee_mode: state.config.tee_mode,
        },
        created_at: i64_to_string(state.created_at),
        updated_at: i64_to_string(state.updated_at),
        endpoints: Some(
            EndpointsResponse { rpc: build_rpc_url(state.config.rpc_port), metrics: None },
        ),
    }
}

/// Projects a listing onto its wire shape, keeping order, with the total.
pub fn list_instances_response(states: &Vec<InstanceState>) -> (r: ListInstancesResponse)
    ensures
        r.total == states@.len(),
        r.instances@.len() == states@.len(),
        forall|i: int|
            0 <= i < states@.len() ==> response_matches(#[trigger] r.instances@[i], states@[i]),
{
    let n = states.len();
    let mut instances: Vec<InstanceResponse> = Vec::new();
    let mut i: usize = 0;
    while i < n
        invariant
            i <= n,
            n == states@.len(),
            instances@.len() == i,
            forall|j: int|
                0 <= j < i ==> response_matches(#[trigger] instances@[j], states@[j]),
        decreases n - i,
    {
        instances.push(instance_response(&states[i]));
        i = i + 1;
    }
    ListInstancesResponse { instances, total: n }
}

/// Builds the error envelope of one API error: its code and its message.
pub fn error_response(err: &ApiError) -> (r: ErrorResponse)
    ensures
        (err matches ApiError::NotFound(_)) ==> r.error.code@ == "NOT_FOUND"@,
        (err matches ApiError::Conflict(_)) ==> r.error.code@ == "CONFLICT"@,
        (err matches ApiError::BadRequest(_)) ==> r.error.code@ == "BAD_REQUEST"@,
        (err matches ApiError::Internal(_)) ==> r.error.code@ == "INTERNAL_ERROR"@,
        (match err {
            ApiError::NotFound(m) => r.error.message@ == m@,
            ApiError::Conflict(m) => r.error.message@ == m@,
            ApiError::BadRequest(m) => r.error.message@ == m@,
            ApiError::Internal(m) => r.error.message@ == m@,
        }),
{
    ErrorResponse { error: ErrorDetail { code: err.code(), message: err.message() } }
}

/// Resolves the log source of an instance for the logs endpoints: the
/// serial log path when one is recorded and present on disk, otherwise the
/// not-found error those endpoints answer with.
pub fn resolve_log_source(serial_log: &Option<String>, file_exists: bool) -> (r: Result<
    String,
    ApiError,
>)
    ensures
        (r is Ok) <==> (serial_log is Some && file_exists),
        match r {
            Ok(p) => serial_log matches Some(q) && p@ == q@,
            Err(ApiError::NotFound(m)) => {
                ||| (serial_log is None && m@ == "Instance has no serial log"@)
                ||| (serial_log matches Some(q) && !file_exists && m@ == "Log file not found: "@
                    + q@ + ". The instance may not have been started yet."@)
            },
            Err(_) => false,
        },
{
    match serial_log {
        None => Err(ApiError::NotFound("Instance has no serial log".to_owned())),
        Some(path) => {
            if !file_exists {
                return Err(
                    ApiError::NotFound(
                        "Log file not found: ".to_owned().concat(path.as_str()).concat(
                            ". The instance may not have been started yet.",
                        ),
                    ),
                );
            }
            Ok(path.clone())
        },
    }
}

/// The stats network block of one instance.
pub fn network_info(port: u16) -> (r: NetworkInfo)
    ensures
        r.rpc_url@ == "http://localhost:"@ + spec_u64_str(port as nat),
        r.health_url@ == "http://localhost:"@ + spec_u64_str(port as nat) + "/health"@,
{
    NetworkInfo { rpc_url: build_rpc_url(port), health_url: build_rpc_url(port).concat("/health") }
}

/// The stats run-state block of one instance.
pub fn status_info(state: &InstanceState, uptime: String) -> (r: StatusInfo)
    ensures
        r.state@ == spec_status_label(state.status),
        r.running == (state.status is Running),
        r.pid == state.vm_pid,
        r.uptime == uptime,
{
    StatusInfo {
        state: state.status.label(),
        running: match &state.status {
            crate::instance::InstanceStatus::Running => true,
            _ => false,
        },
        pid: state.vm_pid,
        uptime,
    }
}

/// The stats configuration block of one instance.
pub fn config_info(state: &InstanceState) -> (r: ConfigInfo)
    ensures
        r.vcpus == state.config.vcpus,
        r.memory_mb == state.config.memory_mb,
        r.rpc_port == state.config.rpc_port,
        state.config.tee_mode ==> (r.tee_mode matches Some(t) && t@ == "SEV-SNP"@),
        !state.config.tee_mode ==> r.tee_mode is None,
{
    ConfigInfo {
        vcpus: state.config.vcpus,
        memory_mb: state.config.memory_mb,
        rpc_port: state.config.rpc_port,
        tee_mode: if state.config.tee_mode {
            Some("SEV-SNP".to_owned())
        } else {
            None
        },
    }
}

} // verus!
