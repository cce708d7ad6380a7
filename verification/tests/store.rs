use machineid_manage::machine_id::{
    check_admin_permissions, format_guid, generate_random_guid, load_backup_store,
    read_machine_guid_bytes, save_backup_store, test_registry_write_access,
    validate_guid_format, BackupError, BackupStore, MachineId, MachineIdBackup, Persisted,
};
use machineid_manage::platform::permissions::RegistryProbe;
use machineid_manage::platform::Platform;

fn record(id: &str, guid: &str, timestamp: u64) -> MachineIdBackup {
    MachineIdBackup {
        id: id.to_string(),
        guid: guid.to_string(),
        source: "test".to_string(),
        timestamp,
        description: None,
    }
}

#[test]
fn test_backup_store_add_and_remove() {
    let mut store = BackupStore::new();
    assert!(store.is_empty());

    let backup = MachineIdBackup {
        id: "test_1".to_string(),
        guid: "test-guid-1".to_string(),
        source: "test".to_string(),
        timestamp: 1234567890,
        description: None,
    };

    store.add_backup(backup.clone());
    assert_eq!(store.len(), 1);
    assert_eq!(store.get_backup("test_1").unwrap().guid, "test-guid-1");

    let removed = store.remove_backup("test_1").unwrap();
    assert_eq!(removed.id, "test_1");
    assert!(store.is_empty());
}

#[test]
fn test_validate_guid_format_valid() {
    let valid_guids = vec![
        "550E8400-E29B-41D4-A716-446655440000",
        "12345678-1234-1234-1234-123456789012",
        "FFFFFFFF-FFFF-FFFF-FFFF-FFFFFFFFFFFF",
        "00000000-0000-0000-0000-000000000000",
    ];
    for guid in valid_guids {
        let result = validate_guid_format(guid);
        assert!(result.is_ok(), "应该验证通过: {}", guid);
    }
}

#[test]
fn test_validate_guid_format_invalid() {
    let invalid_guids = vec![
        "invalid-guid",
        "550E8400-E29B-41D4-A716",
        "550E8400E29B41D4A716446655440000",
        "550E8400-E29B-41D4-A716-44665544000",
        "550E8400-E29B-41D4-A716-4466554400000",
        "550E8400-E29B-41D4-A716-44665544000g",
        "",
        "not-a-guid",
    ];
    for guid in invalid_guids {
        let result = validate_guid_format(guid);
        assert!(result.is_err(), "应该验证失败: {}", guid);
    }
}

#[test]
fn validate_accepts_either_case_and_nothing_near() {
    assert!(validate_guid_format("550e8400-e29b-41d4-a716-446655440000").is_ok());
    assert!(validate_guid_format("550e8400-E29B-41d4-A716-4466554400aF").is_ok());
    // A dash where a digit belongs, a digit where a dash belongs.
    assert!(validate_guid_format("550e840-0e29b-41d4-a716-446655440000").is_err());
    assert!(validate_guid_format("550e8400e-29b-41d4-a716-446655440000").is_err());
    assert!(validate_guid_format("550e8400-e29b-41d4-a716+446655440000").is_err());
    // Text around a canonical identifier: the whole text has to match.
    assert!(validate_guid_format(" 550e8400-e29b-41d4-a716-446655440000").is_err());
    assert!(validate_guid_format("550e8400-e29b-41d4-a716-446655440000\n").is_err());
    assert!(validate_guid_format("{550e8400-e29b-41d4-a716-446655440000}").is_err());
    // 36 characters, but of more than one byte each.
    assert!(validate_guid_format("５５0e8400-e29b-41d4-a716-446655440000").is_err());
}

#[test]
fn validate_returns_the_offending_text() {
    match validate_guid_format("not-a-guid") {
        Err(BackupError::InvalidGuidFormat(text)) => assert_eq!(text, "not-a-guid"),
        other => panic!("expected InvalidGuidFormat, got {:?}", other),
    }
}

#[test]
fn test_generate_random_guid_format() {
    let guid = generate_random_guid();
    let result = validate_guid_format(&guid);
    assert!(result.is_ok(), "随机生成的GUID应该格式正确: {}", guid);
    assert_eq!(guid.len(), 36);

    let parts: Vec<&str> = guid.split('-').collect();
    assert_eq!(parts.len(), 5);
    assert_eq!(parts[0].len(), 8);
    assert_eq!(parts[1].len(), 4);
    assert_eq!(parts[2].len(), 4);
    assert_eq!(parts[3].len(), 4);
    assert_eq!(parts[4].len(), 12);
}

#[test]
fn test_generate_random_guid_uniqueness() {
    let mut guids = std::collections::HashSet::new();
    for _ in 0..100 {
        let guid = generate_random_guid();
        assert!(guids.insert(guid), "应该生成唯一的GUID");
    }
}

#[test]
fn random_guids_are_valid_and_distinct_a_thousand_times() {
    let mut guids = std::collections::HashSet::new();
    for _ in 0..1000 {
        let guid = generate_random_guid();
        assert!(validate_guid_format(&guid).is_ok());
        assert!(guid.chars().all(|c| !c.is_ascii_uppercase()));
        assert!(guids.insert(guid));
    }
    assert_eq!(guids.len(), 1000);
}

#[test]
fn format_guid_spells_bytes_in_lower_case_hex() {
    let bytes: [u8; 16] = [
        0x00, 0x01, 0x0a, 0xff, 0x10, 0x9f, 0xa0, 0xbe, 0xef, 0x7f, 0x80, 0x12, 0x34, 0x56, 0x78,
        0x9a,
    ];
    assert_eq!(format_guid(&bytes), "00010aff-109f-a0be-ef7f-80123456789a");
    assert_eq!(format_guid(&[0u8; 16]), "00000000-0000-0000-0000-000000000000");
    assert_eq!(format_guid(&[0xffu8; 16]), "ffffffff-ffff-ffff-ffff-ffffffffffff");
}

#[test]
fn test_backup_store_has_guid() {
    let mut store = BackupStore::new();
    assert!(!store.has_guid("any-guid"));

    let backup1 = MachineIdBackup {
        id: "backup_1".to_string(),
        guid: "550E8400-E29B-41D4-A716-446655440000".to_string(),
        source: "test".to_string(),
        timestamp: 1234567890,
        description: None,
    };
    store.add_backup(backup1.clone());
    assert!(store.has_guid("550E8400-E29B-41D4-A716-446655440000"));
    assert!(!store.has_guid("different-guid"));

    let backup2 = MachineIdBackup {
        id: "backup_2".to_string(),
        guid: "12345678-1234-1234-1234-123456789012".to_string(),
        source: "test".to_string(),
        timestamp: 1234567891,
        description: None,
    };
    store.add_backup(backup2.clone());
    assert!(store.has_guid("550E8400-E29B-41D4-A716-446655440000"));
    assert!(store.has_guid("12345678-1234-1234-1234-123456789012"));
    assert!(!store.has_guid("nonexistent-guid"));
}

#[test]
fn test_backup_store_get_latest_backup_by_guid() {
    let mut store = BackupStore::new();

    let backup1 = MachineIdBackup {
        id: "backup_1".to_string(),
        guid: "550E8400-E29B-41D4-A716-446655440000".to_string(),
        source: "test".to_string(),
        timestamp: 1234567890,
        description: None,
    };
    store.add_backup(backup1.clone());

    let result = store.get_latest_backup_by_guid("550E8400-E29B-41D4-A716-446655440000");
    assert!(result.is_some());
    assert_eq!(result.unwrap().id, "backup_1");

    let result = store.get_latest_backup_by_guid("nonexistent-guid");
    assert!(result.is_none());
}

#[test]
fn latest_by_guid_is_the_one_added_last() {
    let mut store = BackupStore::new();
    store.add_backup(record("old", "550E8400-E29B-41D4-A716-446655440000", 1));
    store.add_backup(record("other", "12345678-1234-1234-1234-123456789012", 2));
    store.add_backup(record("new", "550E8400-E29B-41D4-A716-446655440000", 3));
    let latest = store.get_latest_backup_by_guid("550E8400-E29B-41D4-A716-446655440000");
    assert_eq!(latest.unwrap().id, "new");
    assert_eq!(latest.unwrap().timestamp, 3);
}

#[test]
fn added_records_stand_newest_first() {
    let mut store = BackupStore::new();
    store.add_backup(record("r1", "g1", 1));
    store.add_backup(record("r2", "g2", 2));
    assert_eq!(store.backups[0].id, "r2");
    assert_eq!(store.backups[1].id, "r1");
    assert_eq!(store.len(), 2);
}

#[test]
fn remove_takes_the_first_record_with_the_id() {
    let mut store = BackupStore::new();
    store.add_backup(record("a", "first-added", 1));
    store.add_backup(record("b", "between", 2));
    store.add_backup(record("a", "last-added", 3));
    let removed = store.remove_backup("a").unwrap();
    assert_eq!(removed.guid, "last-added");
    assert_eq!(store.len(), 2);
    assert_eq!(store.backups[0].id, "b");
    assert_eq!(store.backups[1].guid, "first-added");
    assert_eq!(store.get_backup("a").unwrap().guid, "first-added");
}

#[test]
fn remove_of_an_unknown_id_changes_nothing() {
    let mut store = BackupStore::new();
    store.add_backup(record("a", "g", 1));
    match store.remove_backup("missing") {
        Err(BackupError::BackupNotFound(id)) => assert_eq!(id, "missing"),
        other => panic!("expected BackupNotFound, got {:?}", other),
    }
    assert_eq!(store.len(), 1);
    assert!(store.get_backup("missing").is_none());
    assert!(BackupStore::new().remove_backup("a").is_err());
}

#[test]
fn clone_of_a_store_holds_the_same_records() {
    let mut store = BackupStore::new();
    let mut with_note = record("a", "g", 7);
    with_note.description = Some("why".to_string());
    store.add_backup(with_note);
    store.add_backup(record("b", "h", 8));
    let copy = store.clone();
    assert_eq!(copy.len(), 2);
    assert_eq!(copy.backups[0].id, "b");
    assert_eq!(copy.backups[1].description, Some("why".to_string()));
    assert_eq!(copy.backups[1].timestamp, 7);
}

#[test]
fn test_backup_error_messages() {
    assert_eq!(
        BackupError::InsufficientPermissions.to_string(),
        "权限不足，需要管理员权限才能修改注册表"
    );
    assert_eq!(
        BackupError::DuplicateBackup("test-guid".to_string()).to_string(),
        "机器码 test-guid 已存在备份，跳过重复备份"
    );
}

#[test]
fn every_error_has_its_message() {
    let x = || "x".to_string();
    assert_eq!(BackupError::RegistryError(x()).to_string(), "注册表读取失败: x");
    assert_eq!(BackupError::RegistryWriteError(x()).to_string(), "注册表写入失败: x");
    assert_eq!(BackupError::NotFound.to_string(), "MachineGuid 值不存在");
    assert_eq!(BackupError::ParseError(x()).to_string(), "MachineGuid 值解析失败: x");
    assert_eq!(BackupError::StorageError(x()).to_string(), "备份存储失败: x");
    assert_eq!(BackupError::BackupNotFound(x()).to_string(), "备份不存在: x");
    assert_eq!(BackupError::InvalidGuidFormat(x()).to_string(), "无效的 GUID 格式: x");
    assert_eq!(BackupError::UnsupportedPlatform.to_string(), "当前操作系统不支持此功能");
    let copy = BackupError::StorageError(x()).clone();
    assert_eq!(copy.to_string(), "备份存储失败: x");
}

#[test]
fn test_backup_duplicate_detection_data_driven() {
    #[derive(Debug)]
    struct DuplicateTestCase {
        name: String,
        existing_guids: Vec<&'static str>,
        new_guid: &'static str,
        should_skip: bool,
    }

    let test_cases = vec![
        DuplicateTestCase {
            name: "空列表，无重复".to_string(),
            existing_guids: vec![],
            new_guid: "550E8400-E29B-41D4-A716-446655440000",
            should_skip: false,
        },
        DuplicateTestCase {
            name: "存在相同GUID，重复".to_string(),
            existing_guids: vec!["550E8400-E29B-41D4-A716-446655440000"],
            new_guid: "550E8400-E29B-41D4-A716-446655440000",
            should_skip: true,
        },
        DuplicateTestCase {
            name: "存在不同GUID，不重复".to_string(),
            existing_guids: vec!["12345678-1234-1234-1234-123456789012"],
            new_guid: "550E8400-E29B-41D4-A716-446655440000",
            should_skip: false,
        },
        DuplicateTestCase {
            name: "多个不同GUID，不重复".to_string(),
            existing_guids: vec![
                "12345678-1234-1234-1234-123456789012",
                "FFFFFFFF-FFFF-FFFF-FFFF-FFFFFFFFFFFF",
            ],
            new_guid: "550E8400-E29B-41D4-A716-446655440000",
            should_skip: false,
        },
        DuplicateTestCase {
            name: "多个中有一个相同，重复".to_string(),
            existing_guids: vec![
                "12345678-1234-1234-1234-123456789012",
                "550E8400-E29B-41D4-A716-446655440000",
            ],
            new_guid: "550E8400-E29B-41D4-A716-446655440000",
            should_skip: true,
        },
    ];

    for case in test_cases {
        let mut store = BackupStore::new();
        for guid in &case.existing_guids {
            let backup = MachineIdBackup {
                id: format!("backup_{}", guid),
                guid: guid.to_string(),
                source: "test".to_string(),
                timestamp: 1234567890,
                description: None,
            };
            store.add_backup(backup);
        }

        let has_duplicate = store.has_guid(case.new_guid);
        assert_eq!(
            has_duplicate, case.should_skip,
            "测试用例 '{}' 失败: has_duplicate={}, expected should_skip={}",
            case.name, has_duplicate, case.should_skip
        );
        println!("✅ 测试用例通过: {}", case.name);
    }
}

#[test]
fn test_read_machine_guid_bytes() {
    let read = Ok(MachineId {
        guid: "550E8400-E29B-41D4-A716-446655440000".to_string(),
        source: "test".to_string(),
    });
    let result = read_machine_guid_bytes(read);
    assert!(result.is_ok());
    let bytes = result.unwrap();
    assert_eq!(bytes.len(), 32);
    assert!(bytes.chars().all(|c| c.is_ascii_hexdigit()));
    assert_eq!(bytes, "550E8400E29B41D4A716446655440000");
}

#[test]
fn read_machine_guid_bytes_hands_a_failure_on() {
    match read_machine_guid_bytes(Err(BackupError::NotFound)) {
        Err(BackupError::NotFound) => {}
        other => panic!("expected NotFound, got {:?}", other),
    }
}

fn failed_probe() -> RegistryProbe {
    RegistryProbe::Failed {
        message: "key is gone".to_string(),
        detail: "Os { code: 2 }".to_string(),
        kind: "NotFound".to_string(),
    }
}

#[test]
fn machine_id_test_check_admin_permissions() {
    for platform in [Platform::MacOs, Platform::Linux, Platform::Other] {
        let result = check_admin_permissions(platform, &RegistryProbe::Opened);
        assert!(!result);
    }
    let result = check_admin_permissions(Platform::Windows, &RegistryProbe::Opened);
    println!("管理员权限检测结果: {}", result);
    assert!(result);
    assert!(!check_admin_permissions(Platform::Windows, &RegistryProbe::Denied));
    assert!(!check_admin_permissions(Platform::Windows, &failed_probe()));
}

#[test]
fn test_test_registry_write_access() {
    for platform in [Platform::MacOs, Platform::Linux, Platform::Other] {
        let result = test_registry_write_access(platform, RegistryProbe::Opened);
        assert!(result.is_err());
        assert!(matches!(result, Err(BackupError::InsufficientPermissions)));
    }
    for probe in [RegistryProbe::Opened, RegistryProbe::Denied, failed_probe()] {
        match test_registry_write_access(Platform::Windows, probe) {
            Ok(_) => println!("✅ 注册表写入权限可用"),
            Err(BackupError::InsufficientPermissions) => {
                println!("⚠️ 注册表写入权限不可用（预期在非管理员模式）")
            }
            Err(e) => println!("⚠️ 注册表访问错误: {:?}", e),
        }
    }
    assert!(test_registry_write_access(Platform::Windows, RegistryProbe::Opened).is_ok());
    assert!(matches!(
        test_registry_write_access(Platform::Windows, RegistryProbe::Denied),
        Err(BackupError::InsufficientPermissions)
    ));
    match test_registry_write_access(Platform::Windows, failed_probe()) {
        Err(BackupError::RegistryWriteError(why)) => assert_eq!(why, "key is gone"),
        other => panic!("expected RegistryWriteError, got {:?}", other),
    }
}

const GUID_PATTERN: &str =
    r"^[0-9a-fA-F]{8}-[0-9a-fA-F]{4}-[0-9a-fA-F]{4}-[0-9a-fA-F]{4}-[0-9a-fA-F]{12}$";

/// Texts near the canonical form: a canonical identifier with one place
/// replaced by, or one character put in at, each of its places in turn.
fn near_misses() -> Vec<String> {
    let canonical: Vec<char> = "0123abcd-89EF-fFaA-0000-9a8B7c6D5e4F".chars().collect();
    let strangers = ['-', '0', 'f', 'F', 'g', 'G', ' ', '\n', '\r', '/', ':', '@', '`', '{', 'é', '５', 'ａ'];
    let mut texts = Vec::new();
    for i in 0..=canonical.len() {
        for stranger in strangers {
            let mut put_in = canonical.clone();
            put_in.insert(i, stranger);
            texts.push(put_in.into_iter().collect());
            if i < canonical.len() {
                let mut replaced = canonical.clone();
                replaced[i] = stranger;
                texts.push(replaced.into_iter().collect());
                let mut left_out = canonical.clone();
                left_out.remove(i);
                texts.push(left_out.into_iter().collect());
            }
        }
    }
    texts
}

#[test]
fn validate_agrees_with_the_pattern_as_a_regular_expression() {
    let pattern = regex::Regex::new(GUID_PATTERN).unwrap();
    let mut texts = near_misses();
    for text in [
        "550E8400-E29B-41D4-A716-446655440000",
        "550e8400-e29b-41d4-a716-446655440000",
        "",
        "-",
        "------------------------------------",
        "000000000000000000000000000000000000",
        "550E8400-E29B-41D4-A716-446655440000\n",
        "\n550E8400-E29B-41D4-A716-446655440000",
        "550E8400-E29B-41D4-A716-446655440000\n550E8400-E29B-41D4-A716-446655440000",
        "x550E8400-E29B-41D4-A716-446655440000",
        "550E8400-E29B-41D4-A716-446655440000x",
    ] {
        texts.push(text.to_string());
    }
    for _ in 0..200 {
        texts.push(generate_random_guid());
        texts.push(generate_random_guid().to_uppercase());
    }
    let mut accepted = 0;
    for text in &texts {
        let expected = pattern.is_match(text);
        assert_eq!(validate_guid_format(text).is_ok(), expected, "on {:?}", text);
        if expected {
            accepted += 1;
        }
    }
    assert!(accepted > 400);
    assert!(texts.len() - accepted > 1000);
}

#[test]
fn a_history_that_was_never_saved_is_empty() {
    let loaded = load_backup_store(Persisted::Missing).unwrap();
    assert!(loaded.is_empty());
    let mut kept = BackupStore::new();
    kept.add_backup(record("a", "g", 1));
    let loaded = load_backup_store(Persisted::Found(kept)).unwrap();
    assert_eq!(loaded.len(), 1);
    assert_eq!(loaded.backups[0].id, "a");
    match load_backup_store(Persisted::Unreadable("expected value at line 1".to_string())) {
        Err(BackupError::StorageError(why)) => assert_eq!(why, "expected value at line 1"),
        other => panic!("expected StorageError, got {:?}", other),
    }
}

#[test]
fn a_failed_save_is_a_failure_of_the_storage() {
    assert!(save_backup_store(Ok(())).is_ok());
    match save_backup_store(Err("disk full".to_string())) {
        Err(BackupError::StorageError(why)) => assert_eq!(why, "disk full"),
        other => panic!("expected StorageError, got {:?}", other),
    }
}
