//! The privilege gate: whether the process may write the identifier, how
//! a request for higher privilege ended, and the marker that tells a
//! restarted process that it was restarted.

use crate::machine_id::{BackupError, BackupErrorView};
use crate::platform::Platform;
use crate::text::{clone_opt, join};
use vstd::prelude::*;

verus! {

/// The answer of a permission check. A check that could not be made is
/// told apart from one whose answer is no.
#[derive(Debug)]
pub struct PermissionCheckResult {
    /// Whether the process may write the identifier.
    pub has_permission: bool,
    /// Whether the check itself could be made.
    pub check_success: bool,
    /// How the answer was found.
    pub method: String,
    /// The kind of failure, where the check could not be made.
    pub error_type: Option<String>,
    /// The failure in words, where the check could not be made.
    pub error_message: Option<String>,
    /// Detail for diagnosis.
    pub debug_info: Option<String>,
}

/// A `PermissionCheckResult` with its texts as sequences of characters.
pub struct PermissionCheckView {
    pub has_permission: bool,
    pub check_success: bool,
    pub method: Seq<char>,
    pub error_type: Option<Seq<char>>,
    pub error_message: Option<Seq<char>>,
    pub debug_info: Option<Seq<char>>,
}

impl View for PermissionCheckResult {
    type V = PermissionCheckView;

    open spec fn view(&self) -> PermissionCheckView {
        PermissionCheckView {
            has_permission: self.has_permission,
            check_success: self.check_success,
            method: self.method@,
            error_type: self.error_type.deep_view(),
            error_message: self.error_message.deep_view(),
            debug_info: self.debug_info.deep_view(),
        }
    }
}

impl Clone for PermissionCheckResult {
    fn clone(&self) -> (out: Self)
        ensures
            out@ == self@,
    {
        PermissionCheckResult {
            has_permission: self.has_permission,
            check_success: self.check_success,
            method: self.method.clone(),
            error_type: clone_opt(&self.error_type),
            error_message: clone_opt(&self.error_message),
            debug_info: clone_opt(&self.debug_info),
        }
    }
}

/// The answer of a check that could be made.
pub open spec fn answered(has_permission: bool, method: Seq<char>) -> PermissionCheckView {
    PermissionCheckView {
        has_permission,
        check_success: true,
        method,
        error_type: None,
        error_message: None,
        debug_info: None,
    }
}

/// The answer of a check that could not be made: no permission is
/// assumed.
pub open spec fn unanswered(
    error_type: Seq<char>,
    error_message: Seq<char>,
    debug_info: Option<Seq<char>>,
) -> PermissionCheckView {
    PermissionCheckView {
        has_permission: false,
        check_success: false,
        method: "error"@,
        error_type: Some(error_type),
        error_message: Some(error_message),
        debug_info,
    }
}

impl PermissionCheckResult {
    /// The answer of a check that could be made.
    pub fn success(has_permission: bool, method: &str) -> (result: Self)
        ensures
            result@ == answered(has_permission, method@),
    {
        PermissionCheckResult {
            has_permission,
            check_success: true,
            method: method.to_owned(),
            error_type: None,
            error_message: None,
            debug_info: None,
        }
    }

    /// The answer of a check that could not be made.
    pub fn error(error_type: &str, error_message: &str, debug_info: Option<String>) -> (result:
        Self)
        ensures
            result@ == unanswered(error_type@, error_message@, debug_info.deep_view()),
    {
        PermissionCheckResult {
            has_permission: false,
            check_success: false,
            method: "error".to_owned(),
            error_type: Some(error_type.to_owned()),
            error_message: Some(error_message.to_owned()),
            debug_info,
        }
    }
}

/// What came of opening the identifier's registry key for writing.
#[derive(Debug)]
pub enum RegistryProbe {
    /// The key was opened.
    Opened,
    /// The system denied the access.
    Denied,
    /// The key could not be opened for another reason.
    Failed {
        /// The failure in words.
        message: String,
        /// The failure as the system reports it for diagnosis.
        detail: String,
        /// The kind of the failure.
        kind: String,
    },
}

/// A `RegistryProbe` with its texts as sequences of characters.
pub enum RegistryProbeView {
    Opened,
    Denied,
    Failed { message: Seq<char>, detail: Seq<char>, kind: Seq<char> },
}

impl View for RegistryProbe {
    type V = RegistryProbeView;

    open spec fn view(&self) -> RegistryProbeView {
        match self {
            RegistryProbe::Opened => RegistryProbeView::Opened,
            RegistryProbe::Denied => RegistryProbeView::Denied,
            RegistryProbe::Failed { message, detail, kind } => RegistryProbeView::Failed {
                message: message@,
                detail: detail@,
                kind: kind@,
            },
        }
    }
}

/// What the host found out about its own privilege.
#[derive(Debug)]
pub enum PrivilegeProbe {
    /// It tried to open the identifier's registry key for writing.
    Registry(RegistryProbe),
    /// It asked for the user id under which it runs.
    UserId(u32),
    /// The platform offers neither.
    Unsupported,
}

/// A `PrivilegeProbe` with its texts as sequences of characters.
pub enum PrivilegeProbeView {
    Registry(RegistryProbeView),
    UserId(u32),
    Unsupported,
}

impl View for PrivilegeProbe {
    type V = PrivilegeProbeView;

    open spec fn view(&self) -> PrivilegeProbeView {
        match self {
            PrivilegeProbe::Registry(probe) => PrivilegeProbeView::Registry(probe@),
            PrivilegeProbe::UserId(uid) => PrivilegeProbeView::UserId(*uid),
            PrivilegeProbe::Unsupported => PrivilegeProbeView::Unsupported,
        }
    }
}

/// What the registry says about the right to write: an opened key means
/// yes, a denied access means no, and anything else means that the check
/// could not be made.
pub open spec fn registry_permission(probe: RegistryProbeView) -> PermissionCheckView {
    match probe {
        RegistryProbeView::Opened => answered(true, "registry_write"@),
        RegistryProbeView::Denied => answered(false, "registry_write"@),
        RegistryProbeView::Failed { message, detail, kind } => unanswered(
            "registry_access_error"@,
            "注册表访问错误: "@ + message,
            Some("Registry error: "@ + detail + ", kind: "@ + kind),
        ),
    }
}

/// Whether the process may write the identifier, as the probe shows it.
/// With a registry, a failed probe is reported as a failed check, under
/// its own kind and with the probe's detail. With user ids, only the
/// user 0 has the right.
pub open spec fn admin_permission(probe: PrivilegeProbeView) -> PermissionCheckView {
    match probe {
        PrivilegeProbeView::Registry(registry) => {
            let found = registry_permission(registry);
            if found.has_permission {
                answered(true, "registry_write"@)
            } else if !found.check_success {
                unanswered("registry_error"@, "无法访问注册表"@, found.debug_info)
            } else {
                answered(false, "registry_write"@)
            }
        },
        PrivilegeProbeView::UserId(uid) => if uid == 0 {
            answered(true, "root_user"@)
        } else {
            answered(false, "non_root_user"@)
        },
        PrivilegeProbeView::Unsupported => unanswered(
            "unsupported_platform"@,
            "不支持的操作系统"@,
            None,
        ),
    }
}

/// Reads the registry probe as a permission check.
pub fn check_registry_write_permission(probe: RegistryProbe) -> (result: PermissionCheckResult)
    ensures
        result@ == registry_permission(probe@),
{
    match probe {
        RegistryProbe::Opened => PermissionCheckResult::success(true, "registry_write"),
        RegistryProbe::Denied => PermissionCheckResult::success(false, "registry_write"),
        RegistryProbe::Failed { message, detail, kind } => {
            let mut debug = join("Registry error: ", detail.as_str());
            debug.append(", kind: ");
            debug.append(kind.as_str());
            let words = join("注册表访问错误: ", message.as_str());
            PermissionCheckResult::error("registry_access_error", words.as_str(), Some(debug))
        },
    }
}

/// Reads the host's probe as a permission check. The check has either
/// been made, or the result says why not.
pub fn check_admin_permissions(probe: PrivilegeProbe) -> (result: PermissionCheckResult)
    ensures
        result@ == admin_permission(probe@),
        result.check_success || result.error_type is Some,
        result.has_permission ==> result.check_success,
{
    match probe {
        PrivilegeProbe::Registry(registry) => {
            let found = check_registry_write_permission(registry);
            if found.has_permission {
                PermissionCheckResult::success(true, "registry_write")
            } else if !found.check_success {
                PermissionCheckResult::error("registry_error", "无法访问注册表", found.debug_info)
            } else {
                PermissionCheckResult::success(false, "registry_write")
            }
        },
        PrivilegeProbe::UserId(uid) => {
            if uid == 0 {
                PermissionCheckResult::success(true, "root_user")
            } else {
                PermissionCheckResult::success(false, "non_root_user")
            }
        },
        PrivilegeProbe::Unsupported => PermissionCheckResult::error(
            "unsupported_platform",
            "不支持的操作系统",
            None,
        ),
    }
}

/// What a request for higher privilege reports when it went through.
#[derive(Debug)]
pub struct RestartResult {
    pub success: bool,
    pub message: String,
    pub platform: String,
}

/// A `RestartResult` with its texts as sequences of characters.
pub struct RestartResultView {
    pub success: bool,
    pub message: Seq<char>,
    pub platform: Seq<char>,
}

impl View for RestartResult {
    type V = RestartResultView;

    open spec fn view(&self) -> RestartResultView {
        RestartResultView {
            success: self.success,
            message: self.message@,
            platform: self.platform@,
        }
    }
}

/// How far the host came when it tried to start itself again with higher
/// privilege.
#[derive(Debug)]
pub enum LaunchAttempt {
    /// It could not find out which program it is; the text says why.
    NoProgramPath(String),
    /// It could not find out in which directory it runs; the text says why.
    NoWorkingDirectory(String),
    /// It asked the shell to start the program; this is the shell's code.
    Launched(i64),
}

/// A `LaunchAttempt` with its texts as sequences of characters.
pub enum LaunchAttemptView {
    NoProgramPath(Seq<char>),
    NoWorkingDirectory(Seq<char>),
    Launched(i64),
}

impl View for LaunchAttempt {
    type V = LaunchAttemptView;

    open spec fn view(&self) -> LaunchAttemptView {
        match self {
            LaunchAttempt::NoProgramPath(why) => LaunchAttemptView::NoProgramPath(why@),
            LaunchAttempt::NoWorkingDirectory(why) => LaunchAttemptView::NoWorkingDirectory(why@),
            LaunchAttempt::Launched(code) => LaunchAttemptView::Launched(*code),
        }
    }
}

/// The seconds that the host lets pass, after a launch that went through,
/// before it ends itself: the caller is to see the answer first.
pub const EXIT_DELAY_SECS: u64 = 2;

/// The seconds for which a restart marker counts.
pub const RESTART_VALIDITY_SECS: u64 = 60;

/// A launch went through when the shell's code is above 32.
pub open spec fn launch_succeeded(code: i64) -> bool {
    code > 32
}

/// The codes with which the shell says that the user turned the request
/// down.
pub open spec fn launch_cancelled(code: u32) -> bool {
    code == 5 || code == 106 || code == 1223
}

/// The shell's code as the unsigned number under which its meaning is
/// looked up: its low 32 bits.
pub open spec fn launch_error_code(code: i64) -> u32 {
    (code as int % 0x1_0000_0000) as u32
}

/// What the shell's code means, in words.
pub open spec fn launch_error_text(code: u32) -> Seq<char> {
    if code == 0 {
        "内存不足"@
    } else if code == 2 {
        "文件未找到"@
    } else if code == 3 {
        "路径未找到"@
    } else if code == 5 {
        "访问被拒绝（用户可能取消了 UAC 提示）"@
    } else if code == 8 {
        "内存不足"@
    } else if code == 11 {
        "EXE 文件无效"@
    } else if code == 26 {
        "共享错误"@
    } else if code == 27 {
        "文件关联不完整"@
    } else if code == 28 {
        "无法加载应用程序"@
    } else if code == 31 {
        "没有应用程序关联"@
    } else if code == 106 {
        "用户取消了 UAC 提示"@
    } else if code == 1223 {
        "用户取消了操作"@
    } else {
        "未知错误"@
    }
}

/// What the shell's code means, in words.
pub fn launch_error_message(code: u32) -> (text: &'static str)
    ensures
        text@ == launch_error_text(code),
{
    if code == 0 {
        "内存不足"
    } else if code == 2 {
        "文件未找到"
    } else if code == 3 {
        "路径未找到"
    } else if code == 5 {
        "访问被拒绝（用户可能取消了 UAC 提示）"
    } else if code == 8 {
        "内存不足"
    } else if code == 11 {
        "EXE 文件无效"
    } else if code == 26 {
        "共享错误"
    } else if code == 27 {
        "文件关联不完整"
    } else if code == 28 {
        "无法加载应用程序"
    } else if code == 31 {
        "没有应用程序关联"
    } else if code == 106 {
        "用户取消了 UAC 提示"
    } else if code == 1223 {
        "用户取消了操作"
    } else {
        "未知错误"
    }
}

/// How a request for higher privilege ends. Only on Windows can the
/// process start itself again; there the request goes through when the
/// shell's code says so, and every other way the attempt can end has its
/// own error text. Elsewhere the request is refused.
pub open spec fn elevation_outcome(platform: Platform, attempt: LaunchAttemptView) -> Result<
    RestartResultView,
    BackupErrorView,
> {
    if platform != Platform::Windows {
        Err(BackupErrorView::UnsupportedPlatform)
    } else {
        match attempt {
            LaunchAttemptView::NoProgramPath(why) => Err(
                BackupErrorView::StorageError("无法获取当前程序路径: "@ + why),
            ),
            LaunchAttemptView::NoWorkingDirectory(why) => Err(
                BackupErrorView::StorageError("无法获取当前工作目录: "@ + why),
            ),
            LaunchAttemptView::Launched(code) => if launch_succeeded(code) {
                Ok(
                    RestartResultView {
                        success: true,
                        message: "程序将以管理员身份重启"@,
                        platform: "windows"@,
                    },
                )
            } else if launch_cancelled(launch_error_code(code)) {
                Err(BackupErrorView::StorageError("用户取消了权限提升请求"@))
            } else {
                Err(
                    BackupErrorView::StorageError(
                        "无法以管理员身份启动: "@ + launch_error_text(launch_error_code(code))
                            + " (错误码: "@ + crate::text::decimal(launch_error_code(code) as nat)
                            + ")"@,
                    ),
                )
            },
        }
    }
}

/// Says how a request for higher privilege ended. What the host has to
/// do after the answer is out, `exit_delay` says.
pub fn request_elevation(platform: Platform, attempt: LaunchAttempt) -> (result: Result<
    RestartResult,
    BackupError,
>)
    ensures
        match result {
            Ok(restart) => elevation_outcome(platform, attempt@) == Ok::<
                RestartResultView,
                BackupErrorView,
            >(restart@),
            Err(e) => elevation_outcome(platform, attempt@) == Err::<
                RestartResultView,
                BackupErrorView,
            >(e@),
        },
{
    match platform {
        Platform::Windows => {},
        _ => {
            return Err(BackupError::UnsupportedPlatform);
        },
    }
    match attempt {
        LaunchAttempt::NoProgramPath(why) => Err(
            BackupError::StorageError(join("无法获取当前程序路径: ", why.as_str())),
        ),
        LaunchAttempt::NoWorkingDirectory(why) => Err(
            BackupError::StorageError(join("无法获取当前工作目录: ", why.as_str())),
        ),
        LaunchAttempt::Launched(code) => {
            if code > 32 {
                return Ok(
                    RestartResult {
                        success: true,
                        message: "程序将以管理员身份重启".to_owned(),
                        platform: "windows".to_owned(),
                    },
                );
            }
            let low: u32 = low_bits(code);
            if low == 5 || low == 106 || low == 1223 {
                Err(BackupError::StorageError("用户取消了权限提升请求".to_owned()))
            } else {
                let mut text = join("无法以管理员身份启动: ", launch_error_message(low));
                text.append(" (错误码: ");
                crate::text::push_decimal(&mut text, low as u128);
                text.append(")");
                Err(BackupError::StorageError(text))
            }
        },
    }
}

/// The seconds after which the host has to end itself, now that the
/// request for higher privilege has ended as `result` says; `None` where
/// it has to go on. Only a launch that went through ends the process: the
/// program that was started takes its place.
pub fn exit_delay(result: &Result<RestartResult, BackupError>) -> (delay: Option<u64>)
    ensures
        delay == (match result {
            Ok(restart) if restart.success => Some(EXIT_DELAY_SECS),
            _ => None,
        }),
{
    match result {
        Ok(restart) => {
            if restart.success {
                Some(EXIT_DELAY_SECS)
            } else {
                None
            }
        },
        Err(_) => None,
    }
}

fn low_bits(code: i64) -> (low: u32)
    ensures
        low == launch_error_code(code),
{
    let modulus: i64 = 0x1_0000_0000;
    let rest: i64 = code % modulus;
    if rest < 0 {
        (rest + modulus) as u32
    } else {
        rest as u32
    }
}

/// The marker that a process leaves before it asks for higher privilege,
/// for the process that is started in its place.
#[derive(Debug)]
pub struct RestartState {
    /// When the marker was written, in seconds since the epoch.
    pub timestamp: u64,
    pub was_restarted: bool,
    pub platform: String,
}

/// A `RestartState` with its texts as sequences of characters.
pub struct RestartStateView {
    pub timestamp: u64,
    pub was_restarted: bool,
    pub platform: Seq<char>,
}

impl View for RestartState {
    type V = RestartStateView;

    open spec fn view(&self) -> RestartStateView {
        RestartStateView {
            timestamp: self.timestamp,
            was_restarted: self.was_restarted,
            platform: self.platform@,
        }
    }
}

impl DeepView for RestartState {
    type V = RestartStateView;

    open spec fn deep_view(&self) -> RestartStateView {
        self@
    }
}

/// The marker to write at `now` before higher privilege is asked for.
/// Only Windows, where the process can start itself again, leaves one.
pub fn save_restart_state(platform: Platform, now: u64) -> (marker: Option<RestartState>)
    ensures
        marker.deep_view() == (if platform == Platform::Windows {
            Some(RestartStateView { timestamp: now, was_restarted: true, platform: "windows"@ })
        } else {
            None
        }),
{
    match platform {
        Platform::Windows => Some(
            RestartState { timestamp: now, was_restarted: true, platform: "windows".to_owned() },
        ),
        _ => None,
    }
}

/// A marker counts at `now` when it is not older than
/// `RESTART_VALIDITY_SECS` and not from the future.
pub open spec fn marker_counts(timestamp: u64, now: u64) -> bool {
    timestamp <= now && now - timestamp <= RESTART_VALIDITY_SECS
}

/// What a starting process makes of the marker it found.
#[derive(Debug)]
pub struct RestartCheck {
    /// The marker, where it counts: the process was restarted.
    pub state: Option<RestartState>,
    /// Whether the host has to delete the marker: one that was read is
    /// used up, whether it counted or not.
    pub discard: bool,
}

/// Reads the marker that the host found, if it found one that it could
/// read. Markers are left and looked for on Windows only.
pub fn check_restart_state(platform: Platform, found: Option<RestartState>, now: u64) -> (check:
    RestartCheck)
    ensures
        check.discard == (platform == Platform::Windows && found is Some),
        check.state.deep_view() == (match found {
            Some(marker) if platform == Platform::Windows && marker_counts(
                marker.timestamp,
                now,
            ) => Some(marker@),
            _ => None,
        }),
{
    match platform {
        Platform::Windows => {},
        _ => {
            return RestartCheck { state: None, discard: false };
        },
    }
    match found {
        None => RestartCheck { state: None, discard: false },
        Some(marker) => {
            if marker.timestamp <= now && now - marker.timestamp <= RESTART_VALIDITY_SECS {
                RestartCheck { state: Some(marker), discard: true }
            } else {
                RestartCheck { state: None, discard: true }
            }
        },
    }
}

/// Whether the host has to delete the marker when it is told to forget a
/// restart: where there is one, on Windows.
pub fn clear_restart_state(platform: Platform, marker_present: bool) -> (remove: bool)
    ensures
        remove == (platform == Platform::Windows && marker_present),
{
    match platform {
        Platform::Windows => marker_present,
        _ => false,
    }
}

} // verus!
