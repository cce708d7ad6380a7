use machineid_manage::commands::{
    backup_machine_guid, check_permission_command, check_restart_state_command,
    clear_all_backups, delete_backup_by_id, generate_guid_response,
    generate_random_guid_command, get_backup_count, greet, limit_description, list_backups,
    read_machine_id, restart_as_admin_command, restore_backup_by_id_command, restore_response,
    sanitize_error_for_user, test_write_access_command, write_guid_response,
    write_machine_guid_command, GUID_LENGTH, MAX_DESCRIPTION_LENGTH,
};
use machineid_manage::guard::{
    AwaitIdentifier, AwaitStore, Purpose, RestoreInfo, Step, WriteResult,
};
use machineid_manage::machine_id::{validate_guid_format, BackupError, MachineId, MachineIdBackup};
use machineid_manage::platform::permissions::{
    PermissionCheckResult, RestartResult, RestartState,
};

#[test]
fn test_sanitize_error_for_user() {
    let perm_error = BackupError::InsufficientPermissions;
    assert_eq!(
        sanitize_error_for_user(&perm_error),
        "权限不足，需要管理员权限才能执行此操作"
    );

    let guid_error = BackupError::InvalidGuidFormat("test".to_string());
    assert_eq!(sanitize_error_for_user(&guid_error), "GUID 格式无效，请检查输入");

    let not_found_error = BackupError::NotFound;
    assert_eq!(
        sanitize_error_for_user(&not_found_error),
        "未找到 MachineGuid，系统可能尚未初始化"
    );

    let backup_error = BackupError::BackupNotFound("123".to_string());
    assert_eq!(sanitize_error_for_user(&backup_error), "指定的备份不存在");

    let unsupported_error = BackupError::UnsupportedPlatform;
    assert_eq!(sanitize_error_for_user(&unsupported_error), "当前操作系统不支持此功能");
}

#[test]
fn sanitized_words_hold_nothing_of_the_detail() {
    let secret = "C:\\Users\\someone\\backups.json";
    let errors = vec![
        BackupError::RegistryError(secret.to_string()),
        BackupError::RegistryWriteError(secret.to_string()),
        BackupError::ParseError(secret.to_string()),
        BackupError::StorageError(secret.to_string()),
        BackupError::BackupNotFound(secret.to_string()),
        BackupError::InvalidGuidFormat(secret.to_string()),
        BackupError::DuplicateBackup(secret.to_string()),
    ];
    for error in errors {
        let words = sanitize_error_for_user(&error);
        assert!(!words.contains(secret));
        assert!(!words.is_empty());
        assert!(error.to_string().contains(secret));
    }
    assert_eq!(
        sanitize_error_for_user(&BackupError::RegistryWriteError(String::new())),
        "注册表写入失败，请检查权限或系统状态"
    );
    assert_eq!(
        sanitize_error_for_user(&BackupError::RegistryError(String::new())),
        "注册表读取失败，请检查系统状态"
    );
    assert_eq!(
        sanitize_error_for_user(&BackupError::StorageError(String::new())),
        "存储操作失败，请检查磁盘空间"
    );
    assert_eq!(sanitize_error_for_user(&BackupError::ParseError(String::new())), "数据解析失败");
}

#[test]
fn test_guid_length_validation() {
    assert_eq!(GUID_LENGTH, 36);

    let valid_guid = "550E8400-E29B-41D4-A716-446655440000";
    assert_eq!(valid_guid.len(), GUID_LENGTH);

    let short_guid = "550E8400-E29B-41D4-A716";
    assert_ne!(short_guid.len(), GUID_LENGTH);

    let long_guid = "550E8400-E29B-41D4-A716-4466554400000";
    assert_ne!(long_guid.len(), GUID_LENGTH);
}

#[test]
fn test_description_length_limit() {
    let long_description = "a".repeat(MAX_DESCRIPTION_LENGTH + 100);
    let truncated: String = long_description.chars().take(MAX_DESCRIPTION_LENGTH).collect();
    assert_eq!(truncated.len(), MAX_DESCRIPTION_LENGTH);
    assert_eq!(limit_description(Some(long_description)), Some(truncated));
}

#[test]
fn descriptions_are_cut_by_characters() {
    assert_eq!(limit_description(None), None);
    assert_eq!(limit_description(Some(String::new())), Some(String::new()));
    let exact = "b".repeat(200);
    assert_eq!(limit_description(Some(exact.clone())), Some(exact));
    let over = "c".repeat(201);
    assert_eq!(limit_description(Some(over)), Some("c".repeat(200)));
    // Two hundred characters of three bytes each stay whole.
    let wide = "权".repeat(200);
    assert_eq!(limit_description(Some(wide.clone())), Some(wide));
    let wider = "权".repeat(201);
    assert_eq!(limit_description(Some(wider)), Some("权".repeat(200)));
}

fn allowed() -> PermissionCheckResult {
    PermissionCheckResult::success(true, "registry_write")
}

fn denied() -> PermissionCheckResult {
    PermissionCheckResult::success(false, "registry_write")
}

const GUID: &str = "550E8400-E29B-41D4-A716-446655440000";

#[test]
fn write_command_refuses_a_wrong_length_first() {
    for permission in [allowed(), denied()] {
        match write_machine_guid_command("550E8400", None, &permission) {
            Err(refused) => {
                assert!(!refused.success);
                assert_eq!(refused.error, Some("GUID 长度必须为 36 个字符".to_string()));
                assert_eq!(refused.previous_guid, "");
                assert_eq!(refused.new_guid, "");
                assert_eq!(refused.message, "");
                assert!(refused.pre_backup.is_none() && refused.post_backup.is_none());
            }
            Ok(step) => panic!("unexpected {:?}", step),
        }
    }
    // Thirty-six characters that take more than thirty-six bytes.
    let wide = "５50E8400-E29B-41D4-A716-446655440000";
    assert_eq!(wide.chars().count(), 36);
    assert!(matches!(
        write_machine_guid_command(wide, None, &allowed()),
        Err(refused) if refused.error == Some("GUID 长度必须为 36 个字符".to_string())
    ));
}

#[test]
fn write_command_refuses_a_caller_without_permission() {
    match write_machine_guid_command(GUID, None, &denied()) {
        Err(refused) => {
            assert!(!refused.success);
            assert_eq!(refused.error, Some("权限不足，需要管理员权限".to_string()));
        }
        Ok(step) => panic!("unexpected {:?}", step),
    }
    let unknown = PermissionCheckResult::error("registry_error", "无法访问注册表", None);
    assert!(write_machine_guid_command(GUID, None, &unknown).is_err());
}

#[test]
fn write_command_starts_the_guarded_write() {
    let long = "d".repeat(300);
    match write_machine_guid_command(GUID, Some(long), &allowed()) {
        Ok(Step::ReadIdentifier(AwaitIdentifier::Backup {
            purpose: Purpose::BeforeWrite { new_guid, description: kept },
            description,
        })) => {
            assert_eq!(new_guid, GUID);
            assert_eq!(description, Some("d".repeat(200)));
            assert_eq!(kept, Some("d".repeat(200)));
        }
        other => panic!("unexpected {:?}", other),
    }
    // The right length and the wrong form: the write itself refuses.
    let malformed = "550E8400-E29B-41D4-A716-44665544000g";
    match write_machine_guid_command(malformed, None, &allowed()) {
        Ok(Step::Done(Err(BackupError::InvalidGuidFormat(text)))) => assert_eq!(text, malformed),
        other => panic!("unexpected {:?}", other),
    }
}

fn record(id: &str, guid: &str) -> MachineIdBackup {
    MachineIdBackup {
        id: id.to_string(),
        guid: guid.to_string(),
        source: "test".to_string(),
        timestamp: 1,
        description: None,
    }
}

fn written() -> WriteResult {
    WriteResult {
        previous_guid: "old".to_string(),
        new_guid: GUID.to_string(),
        pre_backup: Some(record("pre", "old")),
        post_backup: None,
    }
}

#[test]
fn write_response_reports_the_write() {
    let response = write_guid_response(Ok(written()));
    assert!(response.success);
    assert_eq!(response.previous_guid, "old");
    assert_eq!(response.new_guid, GUID);
    assert_eq!(response.pre_backup.unwrap().id, "pre");
    assert!(response.post_backup.is_none());
    assert_eq!(response.message, format!("成功将 MachineGuid 替换为: {}", GUID));
    assert_eq!(response.error, None);

    let response = write_guid_response(Err(BackupError::StorageError("/secret".to_string())));
    assert!(!response.success);
    assert_eq!(response.error, Some("存储操作失败，请检查磁盘空间".to_string()));
    assert_eq!(response.message, "");
    assert_eq!(response.new_guid, "");
}

#[test]
fn random_command_and_its_response() {
    match generate_random_guid_command(Some("e".repeat(201)), &allowed()) {
        Ok(Step::ReadIdentifier(AwaitIdentifier::Backup {
            purpose: Purpose::BeforeWrite { new_guid, .. },
            description,
        })) => {
            assert!(validate_guid_format(&new_guid).is_ok());
            assert_eq!(description, Some("e".repeat(200)));
        }
        other => panic!("unexpected {:?}", other),
    }
    match generate_random_guid_command(None, &denied()) {
        Err(refused) => {
            assert!(!refused.success);
            assert_eq!(refused.error, Some("权限不足，需要管理员权限".to_string()));
        }
        Ok(step) => panic!("unexpected {:?}", step),
    }
    let response = generate_guid_response(Ok(written()));
    assert!(response.success);
    assert_eq!(response.message, format!("成功生成并替换 MachineGuid: {}", GUID));
    assert_eq!(response.previous_guid, "old");
    let response = generate_guid_response(Err(BackupError::InsufficientPermissions));
    assert!(!response.success);
    assert_eq!(response.error, Some("权限不足，需要管理员权限才能执行此操作".to_string()));
}

#[test]
fn restore_command_and_its_response() {
    match restore_backup_by_id_command("backup_1", &allowed()) {
        Ok(Step::LoadStore(AwaitStore::RestoreLookup { id })) => assert_eq!(id, "backup_1"),
        other => panic!("unexpected {:?}", other),
    }
    match restore_backup_by_id_command("backup_1", &denied()) {
        Err(refused) => {
            assert!(!refused.success);
            assert_eq!(refused.error, Some("权限不足，需要管理员权限".to_string()));
            assert!(refused.restored_from.is_none());
        }
        Ok(step) => panic!("unexpected {:?}", step),
    }
    let response = restore_response(Ok(RestoreInfo {
        previous_guid: "old".to_string(),
        restored_guid: GUID.to_string(),
        pre_backup: None,
        restored_from: record("target", GUID),
    }));
    assert!(response.success);
    assert_eq!(response.previous_guid, "old");
    assert_eq!(response.restored_guid, GUID);
    assert_eq!(response.restored_from.unwrap().id, "target");
    assert_eq!(response.message, format!("恢复成功: {}", GUID));
    let response = restore_response(Err(BackupError::BackupNotFound("x".to_string())));
    assert!(!response.success);
    assert_eq!(response.error, Some("指定的备份不存在".to_string()));
}

#[test]
fn read_and_backup_responses() {
    let response = read_machine_id(Ok(MachineId {
        guid: GUID.to_string(),
        source: "there".to_string(),
    }));
    assert!(response.success);
    assert_eq!(response.guid, GUID);
    assert_eq!(response.source, "there");
    assert_eq!(response.error, None);
    let response = read_machine_id(Err(BackupError::NotFound));
    assert!(!response.success);
    assert_eq!(response.guid, "");
    assert_eq!(response.error, Some("未找到 MachineGuid，系统可能尚未初始化".to_string()));

    let response = backup_machine_guid(Ok(Some(record("b", GUID))));
    assert!(response.success && !response.skipped);
    assert_eq!(response.backup.unwrap().id, "b");
    let response = backup_machine_guid(Ok(None));
    assert!(response.success && response.skipped);
    assert!(response.backup.is_none());
    let response = backup_machine_guid(Err(BackupError::StorageError("x".to_string())));
    assert!(!response.success && !response.skipped);
    assert_eq!(response.error, Some("存储操作失败，请检查磁盘空间".to_string()));
}

#[test]
fn history_responses() {
    let response = list_backups(Ok(vec![record("b", "g2"), record("a", "g1")]));
    assert!(response.success);
    assert_eq!(response.count, 2);
    assert_eq!(response.backups[0].id, "b");
    assert_eq!(response.backups[1].id, "a");
    let response = list_backups(Err(BackupError::StorageError("x".to_string())));
    assert!(!response.success);
    assert_eq!(response.count, 0);
    assert!(response.backups.is_empty());

    let response = get_backup_count(Ok(3));
    assert!(response.success);
    assert_eq!(response.count, 3);
    let response = get_backup_count(Err(BackupError::StorageError("x".to_string())));
    assert!(!response.success);
    assert_eq!(response.count, 0);
    assert_eq!(response.error, Some("存储操作失败，请检查磁盘空间".to_string()));

    for response in [delete_backup_by_id(Ok(())), clear_all_backups(Ok(()))] {
        assert!(response.success && !response.skipped);
        assert!(response.backup.is_none() && response.error.is_none());
    }
    let response = delete_backup_by_id(Err(BackupError::BackupNotFound("x".to_string())));
    assert!(!response.success);
    assert_eq!(response.error, Some("指定的备份不存在".to_string()));
    let response = clear_all_backups(Err(BackupError::StorageError("x".to_string())));
    assert!(!response.success);
}

#[test]
fn permission_responses() {
    let response = check_permission_command(PermissionCheckResult::error(
        "registry_error",
        "无法访问注册表",
        Some("detail".to_string()),
    ));
    assert!(!response.success && !response.has_permission);
    assert_eq!(response.method, "error");
    assert_eq!(response.error_type, Some("registry_error".to_string()));
    assert_eq!(response.error_message, Some("无法访问注册表".to_string()));
    assert_eq!(response.debug_info, Some("detail".to_string()));
    let response = check_permission_command(allowed());
    assert!(response.success && response.has_permission);

    let response = test_write_access_command(Ok(()));
    assert!(response.success && response.has_permission);
    assert_eq!(response.method, "registry_write");
    let response = test_write_access_command(Err(BackupError::InsufficientPermissions));
    assert!(!response.success && !response.has_permission);
    assert_eq!(response.error_type, Some("registry_error".to_string()));
    assert_eq!(
        response.error_message,
        Some("权限不足，需要管理员权限才能修改注册表".to_string())
    );
    let response = test_write_access_command(Err(BackupError::RegistryWriteError("io".to_string())));
    assert!(!response.success && response.has_permission);
    assert_eq!(response.error_message, Some("注册表写入失败: io".to_string()));
    // The words decide, wherever they stand.
    let response =
        test_write_access_command(Err(BackupError::RegistryWriteError("权限不足".to_string())));
    assert!(!response.has_permission);
}

#[test]
fn restart_responses() {
    let response = restart_as_admin_command(
        Ok(RestartResult {
            success: true,
            message: "程序将以管理员身份重启".to_string(),
            platform: "windows".to_string(),
        }),
        "windows",
    );
    assert!(response.success);
    assert_eq!(response.message, "程序将以管理员身份重启");
    assert_eq!(response.platform, "windows");
    assert_eq!(response.error, None);
    let response = restart_as_admin_command(Err(BackupError::UnsupportedPlatform), "linux");
    assert!(!response.success);
    assert_eq!(response.message, "重启失败");
    assert_eq!(response.platform, "linux");
    assert_eq!(response.error, Some("当前操作系统不支持此功能".to_string()));

    let response = check_restart_state_command(Some(RestartState {
        timestamp: 7,
        was_restarted: true,
        platform: "windows".to_string(),
    }));
    assert!(response.was_restarted);
    assert_eq!(response.timestamp, Some(7));
    assert_eq!(response.platform, Some("windows".to_string()));
    let response = check_restart_state_command(None);
    assert!(!response.was_restarted);
    assert_eq!(response.timestamp, None);
    assert_eq!(response.platform, None);
}

#[test]
fn greeting() {
    assert_eq!(greet("you"), "Hello, you! This is MachineID-Manage v2.0.");
    assert_eq!(greet(""), "Hello, ! This is MachineID-Manage v2.0.");
}
