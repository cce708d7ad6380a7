use machineid_manage::machine_id::BackupError;
use machineid_manage::platform::permissions::{
    check_admin_permissions, check_registry_write_permission, check_restart_state,
    clear_restart_state, exit_delay, launch_error_message, request_elevation, save_restart_state,
    LaunchAttempt, PermissionCheckResult, PrivilegeProbe, RegistryProbe, RestartResult,
    RestartState, EXIT_DELAY_SECS, RESTART_VALIDITY_SECS,
};
use machineid_manage::platform::Platform;

#[test]
fn test_permission_check_result_success() {
    let result = PermissionCheckResult::success(true, "test_method");
    assert!(result.has_permission);
    assert!(result.check_success);
    assert_eq!(result.method, "test_method");
    assert!(result.error_type.is_none());
}

#[test]
fn test_permission_check_result_error() {
    let result =
        PermissionCheckResult::error("test_error", "test message", Some("debug".to_string()));
    assert!(!result.has_permission);
    assert!(!result.check_success);
    assert_eq!(result.error_type, Some("test_error".to_string()));
    assert_eq!(result.error_message, Some("test message".to_string()));
    assert_eq!(result.debug_info, Some("debug".to_string()));
}

fn probes() -> Vec<PrivilegeProbe> {
    vec![
        PrivilegeProbe::Registry(RegistryProbe::Opened),
        PrivilegeProbe::Registry(RegistryProbe::Denied),
        PrivilegeProbe::Registry(RegistryProbe::Failed {
            message: "key is gone".to_string(),
            detail: "Os { code: 2 }".to_string(),
            kind: "NotFound".to_string(),
        }),
        PrivilegeProbe::UserId(0),
        PrivilegeProbe::UserId(1000),
        PrivilegeProbe::Unsupported,
    ]
}

#[test]
fn permissions_test_check_admin_permissions() {
    for probe in probes() {
        let result = check_admin_permissions(probe);
        assert!(result.check_success || result.error_type.is_some());

        if result.check_success {
            println!(
                "权限检查结果: has_permission={}, method={}",
                result.has_permission, result.method
            );
        } else {
            println!(
                "权限检查失败: error_type={:?}, error_message={:?}",
                result.error_type, result.error_message
            );
        }
    }
}

#[test]
fn test_restart_result() {
    let result = RestartResult {
        success: true,
        message: "测试消息".to_string(),
        platform: "test".to_string(),
    };

    assert!(result.success);
    assert_eq!(result.message, "测试消息");
    assert_eq!(result.platform, "test");
}

#[test]
fn test_registry_write_permission() {
    for probe in [
        RegistryProbe::Opened,
        RegistryProbe::Denied,
        RegistryProbe::Failed {
            message: "key is gone".to_string(),
            detail: "Os { code: 2 }".to_string(),
            kind: "NotFound".to_string(),
        },
    ] {
        let result = check_registry_write_permission(probe);
        println!("注册表权限检查结果: {:?}", result);
        assert!(result.check_success || result.error_type.is_some());
    }
}

#[test]
fn registry_probe_is_read_as_yes_no_or_unknown() {
    let yes = check_registry_write_permission(RegistryProbe::Opened);
    assert!(yes.has_permission && yes.check_success);
    assert_eq!(yes.method, "registry_write");
    let no = check_registry_write_permission(RegistryProbe::Denied);
    assert!(!no.has_permission && no.check_success);
    assert_eq!(no.method, "registry_write");
    let unknown = check_registry_write_permission(RegistryProbe::Failed {
        message: "key is gone".to_string(),
        detail: "Os { code: 2 }".to_string(),
        kind: "NotFound".to_string(),
    });
    assert!(!unknown.has_permission && !unknown.check_success);
    assert_eq!(unknown.method, "error");
    assert_eq!(unknown.error_type, Some("registry_access_error".to_string()));
    assert_eq!(unknown.error_message, Some("注册表访问错误: key is gone".to_string()));
    assert_eq!(
        unknown.debug_info,
        Some("Registry error: Os { code: 2 }, kind: NotFound".to_string())
    );
}

#[test]
fn admin_check_on_a_registry() {
    let yes = check_admin_permissions(PrivilegeProbe::Registry(RegistryProbe::Opened));
    assert!(yes.has_permission && yes.check_success);
    assert_eq!(yes.method, "registry_write");
    let no = check_admin_permissions(PrivilegeProbe::Registry(RegistryProbe::Denied));
    assert!(!no.has_permission && no.check_success);
    assert_eq!(no.method, "registry_write");
    let unknown = check_admin_permissions(PrivilegeProbe::Registry(RegistryProbe::Failed {
        message: "key is gone".to_string(),
        detail: "Os { code: 2 }".to_string(),
        kind: "NotFound".to_string(),
    }));
    assert!(!unknown.has_permission && !unknown.check_success);
    assert_eq!(unknown.error_type, Some("registry_error".to_string()));
    assert_eq!(unknown.error_message, Some("无法访问注册表".to_string()));
    assert_eq!(
        unknown.debug_info,
        Some("Registry error: Os { code: 2 }, kind: NotFound".to_string())
    );
}

#[test]
fn test_macos_permission_check() {
    for uid in [0u32, 501] {
        let result = check_admin_permissions(PrivilegeProbe::UserId(uid));
        assert!(result.check_success);

        let expected = uid == 0;
        assert_eq!(result.has_permission, expected);
    }
}

#[test]
fn test_linux_permission_check() {
    for uid in [0u32, 1000, u32::MAX] {
        let result = check_admin_permissions(PrivilegeProbe::UserId(uid));
        assert!(result.check_success);

        let expected = uid == 0;
        assert_eq!(result.has_permission, expected);
        assert_eq!(result.method, if expected { "root_user" } else { "non_root_user" });
    }
}

#[test]
fn admin_check_without_a_probe_is_a_failed_check() {
    let result = check_admin_permissions(PrivilegeProbe::Unsupported);
    assert!(!result.check_success && !result.has_permission);
    assert_eq!(result.error_type, Some("unsupported_platform".to_string()));
    assert_eq!(result.error_message, Some("不支持的操作系统".to_string()));
    assert_eq!(result.debug_info, None);
    let copy = result.clone();
    assert_eq!(copy.error_type, result.error_type);
    assert_eq!(copy.method, "error");
}

#[test]
fn elevation_is_offered_on_windows_only() {
    for platform in [Platform::MacOs, Platform::Linux, Platform::Other] {
        let result = request_elevation(platform, LaunchAttempt::Launched(42));
        assert!(matches!(result, Err(BackupError::UnsupportedPlatform)));
    }
    let restart = request_elevation(Platform::Windows, LaunchAttempt::Launched(33)).unwrap();
    assert!(restart.success);
    assert_eq!(restart.message, "程序将以管理员身份重启");
    assert_eq!(restart.platform, "windows");
    assert_eq!(EXIT_DELAY_SECS, 2);
}

fn refusal(attempt: LaunchAttempt) -> String {
    match request_elevation(Platform::Windows, attempt) {
        Err(BackupError::StorageError(why)) => why,
        other => panic!("expected StorageError, got {:?}", other),
    }
}

#[test]
fn elevation_refusals_say_why() {
    assert_eq!(
        refusal(LaunchAttempt::NoProgramPath("gone".to_string())),
        "无法获取当前程序路径: gone"
    );
    assert_eq!(
        refusal(LaunchAttempt::NoWorkingDirectory("gone".to_string())),
        "无法获取当前工作目录: gone"
    );
    assert_eq!(refusal(LaunchAttempt::Launched(5)), "用户取消了权限提升请求");
    // Above 32 every code is a success, so the other two codes of a
    // cancelled request are met only as the low bits of a negative code.
    for code in [106i64, 1223] {
        assert!(request_elevation(Platform::Windows, LaunchAttempt::Launched(code)).is_ok());
        assert_eq!(
            refusal(LaunchAttempt::Launched(code - 0x1_0000_0000)),
            "用户取消了权限提升请求"
        );
    }
    assert_eq!(refusal(LaunchAttempt::Launched(32)), "无法以管理员身份启动: 未知错误 (错误码: 32)");
    assert_eq!(refusal(LaunchAttempt::Launched(0)), "无法以管理员身份启动: 内存不足 (错误码: 0)");
    assert_eq!(refusal(LaunchAttempt::Launched(2)), "无法以管理员身份启动: 文件未找到 (错误码: 2)");
    assert_eq!(refusal(LaunchAttempt::Launched(3)), "无法以管理员身份启动: 路径未找到 (错误码: 3)");
    assert_eq!(refusal(LaunchAttempt::Launched(8)), "无法以管理员身份启动: 内存不足 (错误码: 8)");
    assert_eq!(
        refusal(LaunchAttempt::Launched(11)),
        "无法以管理员身份启动: EXE 文件无效 (错误码: 11)"
    );
    assert_eq!(refusal(LaunchAttempt::Launched(26)), "无法以管理员身份启动: 共享错误 (错误码: 26)");
    assert_eq!(
        refusal(LaunchAttempt::Launched(27)),
        "无法以管理员身份启动: 文件关联不完整 (错误码: 27)"
    );
    assert_eq!(
        refusal(LaunchAttempt::Launched(28)),
        "无法以管理员身份启动: 无法加载应用程序 (错误码: 28)"
    );
    assert_eq!(
        refusal(LaunchAttempt::Launched(31)),
        "无法以管理员身份启动: 没有应用程序关联 (错误码: 31)"
    );
    // A negative code is looked up by its low 32 bits.
    assert_eq!(
        refusal(LaunchAttempt::Launched(-1)),
        "无法以管理员身份启动: 未知错误 (错误码: 4294967295)"
    );
    assert_eq!(refusal(LaunchAttempt::Launched(5 - 0x1_0000_0000)), "用户取消了权限提升请求");
    assert_eq!(
        refusal(LaunchAttempt::Launched(i64::MIN)),
        "无法以管理员身份启动: 内存不足 (错误码: 0)"
    );
}

#[test]
fn launch_codes_have_their_words() {
    assert_eq!(launch_error_message(5), "访问被拒绝（用户可能取消了 UAC 提示）");
    assert_eq!(launch_error_message(106), "用户取消了 UAC 提示");
    assert_eq!(launch_error_message(1223), "用户取消了操作");
    assert_eq!(launch_error_message(4), "未知错误");
}

#[test]
fn restart_marker_is_left_on_windows_only() {
    let marker = save_restart_state(Platform::Windows, 1_700_000_000).unwrap();
    assert_eq!(marker.timestamp, 1_700_000_000);
    assert!(marker.was_restarted);
    assert_eq!(marker.platform, "windows");
    for platform in [Platform::MacOs, Platform::Linux, Platform::Other] {
        assert!(save_restart_state(platform, 1_700_000_000).is_none());
    }
}

fn marker(timestamp: u64) -> Option<RestartState> {
    Some(RestartState { timestamp, was_restarted: true, platform: "windows".to_string() })
}

#[test]
fn restart_marker_counts_for_a_minute() {
    assert_eq!(RESTART_VALIDITY_SECS, 60);
    let now = 1_700_000_000u64;
    for age in [0u64, 1, 59, 60] {
        let check = check_restart_state(Platform::Windows, marker(now - age), now);
        assert_eq!(check.state.unwrap().timestamp, now - age);
        assert!(check.discard);
    }
    for age in [61u64, 3600, now] {
        let check = check_restart_state(Platform::Windows, marker(now - age), now);
        assert!(check.state.is_none());
        assert!(check.discard);
    }
    // A marker from the future does not count.
    let check = check_restart_state(Platform::Windows, marker(now + 1), now);
    assert!(check.state.is_none());
    assert!(check.discard);
    let check = check_restart_state(Platform::Windows, marker(u64::MAX), 0);
    assert!(check.state.is_none());
}

#[test]
fn restart_marker_is_looked_for_on_windows_only() {
    let now = 1_700_000_000u64;
    let check = check_restart_state(Platform::Windows, None, now);
    assert!(check.state.is_none());
    assert!(!check.discard);
    for platform in [Platform::MacOs, Platform::Linux, Platform::Other] {
        let check = check_restart_state(platform, marker(now), now);
        assert!(check.state.is_none());
        assert!(!check.discard);
    }
}

#[test]
fn restart_marker_is_cleared_where_there_is_one() {
    assert!(clear_restart_state(Platform::Windows, true));
    assert!(!clear_restart_state(Platform::Windows, false));
    for platform in [Platform::MacOs, Platform::Linux, Platform::Other] {
        assert!(!clear_restart_state(platform, true));
        assert!(!clear_restart_state(platform, false));
    }
}

#[test]
fn only_a_launch_that_went_through_ends_the_process() {
    let launched = request_elevation(Platform::Windows, LaunchAttempt::Launched(42));
    assert_eq!(exit_delay(&launched), Some(2));
    let refused = request_elevation(Platform::Windows, LaunchAttempt::Launched(5));
    assert_eq!(exit_delay(&refused), None);
    let elsewhere = request_elevation(Platform::Linux, LaunchAttempt::Launched(42));
    assert_eq!(exit_delay(&elsewhere), None);
    let half = Ok(RestartResult {
        success: false,
        message: String::new(),
        platform: String::new(),
    });
    assert_eq!(exit_delay(&half), None);
}
