//! The identifier's format, the backup records and the backup history.
//!
//! A machine identifier is valid when it has the canonical form of five
//! groups of hexadecimal digits, `8-4-4-4-12`. The history keeps the newest
//! record first, so the first record found for a value is always its most
//! recent backup.

pub use crate::guard::{
    add_backup, backup_current_machine_guid, clear_all_backups, delete_backup,
    generate_random_machine_guid, get_backup_by_id, get_backup_count, list_backups,
    restore_backup_by_id, write_machine_guid, RestoreInfo, WriteResult,
};
pub use crate::platform::machine_id::read_machine_guid;
use crate::platform::permissions::{RegistryProbe, RegistryProbeView};
use crate::platform::Platform;
use crate::text::{chars_of, clone_opt, join, push_char};
use vstd::prelude::*;

verus! {

/// What can go wrong while reading, writing or backing up the identifier.
#[derive(Debug)]
pub enum BackupError {
    /// The identifier's storage location could not be read.
    RegistryError(String),
    /// The identifier's storage location could not be written.
    RegistryWriteError(String),
    /// The storage location holds no identifier.
    NotFound,
    /// The stored identifier could not be made sense of.
    ParseError(String),
    /// The backup history could not be read or written.
    StorageError(String),
    /// No backup record has the given id.
    BackupNotFound(String),
    /// The given text is not a canonical identifier.
    InvalidGuidFormat(String),
    /// Writing the identifier needs administrator rights.
    InsufficientPermissions,
    /// The given identifier already has a backup; nothing was recorded.
    DuplicateBackup(String),
    /// The platform offers no way to do what was asked.
    UnsupportedPlatform,
}

/// A `BackupError` with its texts as sequences of characters.
pub enum BackupErrorView {
    RegistryError(Seq<char>),
    RegistryWriteError(Seq<char>),
    NotFound,
    ParseError(Seq<char>),
    StorageError(Seq<char>),
    BackupNotFound(Seq<char>),
    InvalidGuidFormat(Seq<char>),
    InsufficientPermissions,
    DuplicateBackup(Seq<char>),
    UnsupportedPlatform,
}

impl View for BackupError {
    type V = BackupErrorView;

    open spec fn view(&self) -> BackupErrorView {
        match self {
            BackupError::RegistryError(m) => BackupErrorView::RegistryError(m@),
            BackupError::RegistryWriteError(m) => BackupErrorView::RegistryWriteError(m@),
            BackupError::NotFound => BackupErrorView::NotFound,
            BackupError::ParseError(m) => BackupErrorView::ParseError(m@),
            BackupError::StorageError(m) => BackupErrorView::StorageError(m@),
            BackupError::BackupNotFound(id) => BackupErrorView::BackupNotFound(id@),
            BackupError::InvalidGuidFormat(g) => BackupErrorView::InvalidGuidFormat(g@),
            BackupError::InsufficientPermissions => BackupErrorView::InsufficientPermissions,
            BackupError::DuplicateBackup(g) => BackupErrorView::DuplicateBackup(g@),
            BackupError::UnsupportedPlatform => BackupErrorView::UnsupportedPlatform,
        }
    }
}

impl BackupErrorView {
    /// The message that describes the error to an operator.
    pub open spec fn message(self) -> Seq<char> {
        match self {
            BackupErrorView::RegistryError(m) => "注册表读取失败: "@ + m,
            BackupErrorView::RegistryWriteError(m) => "注册表写入失败: "@ + m,
            BackupErrorView::NotFound => "MachineGuid 值不存在"@,
            BackupErrorView::ParseError(m) => "MachineGuid 值解析失败: "@ + m,
            BackupErrorView::StorageError(m) => "备份存储失败: "@ + m,
            BackupErrorView::BackupNotFound(id) => "备份不存在: "@ + id,
            BackupErrorView::InvalidGuidFormat(g) => "无效的 GUID 格式: "@ + g,
            BackupErrorView::InsufficientPermissions => "权限不足，需要管理员权限才能修改注册表"@,
            BackupErrorView::DuplicateBackup(g) => "机器码 "@ + g + " 已存在备份，跳过重复备份"@,
            BackupErrorView::UnsupportedPlatform => "当前操作系统不支持此功能"@,
        }
    }
}

impl BackupError {
    /// The message that describes the error to an operator.
    pub fn to_string(&self) -> (out: String)
        ensures
            out@ == self@.message(),
    {
        match self {
            BackupError::RegistryError(m) => join("注册表读取失败: ", m.as_str()),
            BackupError::RegistryWriteError(m) => join("注册表写入失败: ", m.as_str()),
            BackupError::NotFound => "MachineGuid 值不存在".to_owned(),
            BackupError::ParseError(m) => join("MachineGuid 值解析失败: ", m.as_str()),
            BackupError::StorageError(m) => join("备份存储失败: ", m.as_str()),
            BackupError::BackupNotFound(id) => join("备份不存在: ", id.as_str()),
            BackupError::InvalidGuidFormat(g) => join("无效的 GUID 格式: ", g.as_str()),
            BackupError::InsufficientPermissions => "权限不足，需要管理员权限才能修改注册表".to_owned(),
            BackupError::DuplicateBackup(g) => {
                let mut out = join("机器码 ", g.as_str());
                out.append(" 已存在备份，跳过重复备份");
                out
            },
            BackupError::UnsupportedPlatform => "当前操作系统不支持此功能".to_owned(),
        }
    }
}

impl Clone for BackupError {
    fn clone(&self) -> (out: Self)
        ensures
            out@ == self@,
    {
        match self {
            BackupError::RegistryError(m) => BackupError::RegistryError(m.clone()),
            BackupError::RegistryWriteError(m) => BackupError::RegistryWriteError(m.clone()),
            BackupError::NotFound => BackupError::NotFound,
            BackupError::ParseError(m) => BackupError::ParseError(m.clone()),
            BackupError::StorageError(m) => BackupError::StorageError(m.clone()),
            BackupError::BackupNotFound(id) => BackupError::BackupNotFound(id.clone()),
            BackupError::InvalidGuidFormat(g) => BackupError::InvalidGuidFormat(g.clone()),
            BackupError::InsufficientPermissions => BackupError::InsufficientPermissions,
            BackupError::DuplicateBackup(g) => BackupError::DuplicateBackup(g.clone()),
            BackupError::UnsupportedPlatform => BackupError::UnsupportedPlatform,
        }
    }
}

/// One snapshot of the identifier, taken at backup time and never changed.
#[derive(Debug)]
pub struct MachineIdBackup {
    /// The key by which the record is found again.
    pub id: String,
    /// The identifier that was live when the record was made.
    pub guid: String,
    /// Where that identifier was read from.
    pub source: String,
    /// When the record was made, in seconds since the epoch.
    pub timestamp: u64,
    /// Why the record was made, if anyone said.
    pub description: Option<String>,
}

/// A backup record with its texts as sequences of characters.
pub struct BackupRecord {
    pub id: Seq<char>,
    pub guid: Seq<char>,
    pub source: Seq<char>,
    pub timestamp: u64,
    pub description: Option<Seq<char>>,
}

impl View for MachineIdBackup {
    type V = BackupRecord;

    open spec fn view(&self) -> BackupRecord {
        BackupRecord {
            id: self.id@,
            guid: self.guid@,
            source: self.source@,
            timestamp: self.timestamp,
            description: self.description.deep_view(),
        }
    }
}

impl DeepView for MachineIdBackup {
    type V = BackupRecord;

    open spec fn deep_view(&self) -> BackupRecord {
        self@
    }
}

impl Clone for MachineIdBackup {
    fn clone(&self) -> (out: Self)
        ensures
            out@ == self@,
    {
        MachineIdBackup {
            id: self.id.clone(),
            guid: self.guid.clone(),
            source: self.source.clone(),
            timestamp: self.timestamp,
            description: clone_opt(&self.description),
        }
    }
}

/// The records of `backups`, in order.
pub open spec fn records_of(backups: Seq<MachineIdBackup>) -> Seq<BackupRecord> {
    Seq::new(backups.len(), |i: int| backups[i]@)
}

/// `i` is the place of the first record of `records` with the id `id`.
pub open spec fn is_first_with_id(records: Seq<BackupRecord>, id: Seq<char>, i: int) -> bool {
    &&& 0 <= i < records.len()
    &&& records[i].id == id
    &&& forall|j: int| 0 <= j < i ==> (#[trigger] records[j]).id != id
}

/// `i` is the place of the first record of `records` with the value `guid`.
pub open spec fn is_first_with_guid(records: Seq<BackupRecord>, guid: Seq<char>, i: int) -> bool {
    &&& 0 <= i < records.len()
    &&& records[i].guid == guid
    &&& forall|j: int| 0 <= j < i ==> (#[trigger] records[j]).guid != guid
}

/// Some record of `records` has the id `id`.
pub open spec fn contains_id(records: Seq<BackupRecord>, id: Seq<char>) -> bool {
    exists|i: int| 0 <= i < records.len() && (#[trigger] records[i]).id == id
}

/// Some record of `records` has the value `guid`.
pub open spec fn contains_guid(records: Seq<BackupRecord>, guid: Seq<char>) -> bool {
    exists|i: int| 0 <= i < records.len() && (#[trigger] records[i]).guid == guid
}

/// The place of the first record with the id `id`; meaningful only when
/// there is one.
pub open spec fn position_by_id(records: Seq<BackupRecord>, id: Seq<char>) -> int {
    choose|i: int| is_first_with_id(records, id, i)
}

/// The first record with the id `id`, if there is one.
pub open spec fn find_by_id(records: Seq<BackupRecord>, id: Seq<char>) -> Option<BackupRecord> {
    if contains_id(records, id) {
        Some(records[position_by_id(records, id)])
    } else {
        None
    }
}

/// The first, and so the most recent, record with the value `guid`, if
/// there is one.
pub open spec fn latest_by_guid(records: Seq<BackupRecord>, guid: Seq<char>) -> Option<
    BackupRecord,
> {
    if contains_guid(records, guid) {
        Some(records[choose|i: int| is_first_with_guid(records, guid, i)])
    } else {
        None
    }
}

/// A first place with a given id is the only one, and it is where
/// `position_by_id` points.
pub proof fn lemma_first_with_id_unique(records: Seq<BackupRecord>, id: Seq<char>, i: int)
    requires
        is_first_with_id(records, id, i),
    ensures
        contains_id(records, id),
        position_by_id(records, id) == i,
        find_by_id(records, id) == Some(records[i]),
{
    let p = position_by_id(records, id);
    assert(is_first_with_id(records, id, p));
    if p < i {
        assert(records[p].id != id);
    }
    if i < p {
        assert(records[i].id != id);
    }
}

/// Where some record has the id, one of them comes first, and
/// `position_by_id` points at it.
pub proof fn lemma_position_by_id(records: Seq<BackupRecord>, id: Seq<char>)
    requires
        contains_id(records, id),
    ensures
        is_first_with_id(records, id, position_by_id(records, id)),
{
    let some = choose|i: int| 0 <= i < records.len() && (#[trigger] records[i]).id == id;
    let first = first_with_id_up_to(records, id, some);
    assert(is_first_with_id(records, id, first));
}

/// The place of the first record with the id `id` among the places up to
/// `last`, which holds one.
proof fn first_with_id_up_to(records: Seq<BackupRecord>, id: Seq<char>, last: int) -> (first: int)
    requires
        0 <= last < records.len(),
        records[last].id == id,
    ensures
        is_first_with_id(records, id, first),
    decreases last,
{
    if exists|j: int| 0 <= j < last && (#[trigger] records[j]).id == id {
        let j = choose|j: int| 0 <= j < last && (#[trigger] records[j]).id == id;
        first_with_id_up_to(records, id, j)
    } else {
        last
    }
}

/// A first place with a given value is the only one, and it is the record
/// that `latest_by_guid` yields.
pub proof fn lemma_first_with_guid_unique(records: Seq<BackupRecord>, guid: Seq<char>, i: int)
    requires
        is_first_with_guid(records, guid, i),
    ensures
        contains_guid(records, guid),
        latest_by_guid(records, guid) == Some(records[i]),
{
    let p = choose|k: int| is_first_with_guid(records, guid, k);
    assert(is_first_with_guid(records, guid, p));
    if p < i {
        assert(records[p].guid != guid);
    }
    if i < p {
        assert(records[i].guid != guid);
    }
}

/// The latest is the first. Where some record has the value,
/// `latest_by_guid` yields the first of them, which is the one that was
/// added last.
pub proof fn law_latest_is_first(records: Seq<BackupRecord>, guid: Seq<char>)
    requires
        contains_guid(records, guid),
    ensures
        exists|i: int|
            is_first_with_guid(records, guid, i) && latest_by_guid(records, guid) == Some(
                records[i],
            ),
{
    let some = choose|i: int| 0 <= i < records.len() && (#[trigger] records[i]).guid == guid;
    let first = first_with_guid_up_to(records, guid, some);
    lemma_first_with_guid_unique(records, guid, first);
}

/// The place of the first record with the value `guid` among the places
/// up to `last`, which holds one.
proof fn first_with_guid_up_to(records: Seq<BackupRecord>, guid: Seq<char>, last: int) -> (first:
    int)
    requires
        0 <= last < records.len(),
        records[last].guid == guid,
    ensures
        is_first_with_guid(records, guid, first),
    decreases last,
{
    if exists|j: int| 0 <= j < last && (#[trigger] records[j]).guid == guid {
        let j = choose|j: int| 0 <= j < last && (#[trigger] records[j]).guid == guid;
        first_with_guid_up_to(records, guid, j)
    } else {
        last
    }
}

/// Newest first. When one record and then another are added to a
/// history, the one added last stands first, the one added before it
/// stands second, and behind them the history is as it was.
pub proof fn law_newest_first(
    store: Seq<BackupRecord>,
    earlier: BackupRecord,
    later: BackupRecord,
)
    ensures
        (seq![later] + (seq![earlier] + store))[0] == later,
        (seq![later] + (seq![earlier] + store))[1] == earlier,
        (seq![later] + (seq![earlier] + store)).skip(2) == store,
        contains_guid(seq![later] + (seq![earlier] + store), later.guid),
        latest_by_guid(seq![later] + (seq![earlier] + store), later.guid) == Some(later),
{
    let all = seq![later] + (seq![earlier] + store);
    assert(all.skip(2) =~= store);
    assert(is_first_with_guid(all, later.guid, 0));
    lemma_first_with_guid_unique(all, later.guid, 0);
}

/// The backup history: the records that were kept, newest first.
#[derive(Debug)]
pub struct BackupStore {
    pub backups: Vec<MachineIdBackup>,
}

impl View for BackupStore {
    type V = Seq<BackupRecord>;

    open spec fn view(&self) -> Seq<BackupRecord> {
        records_of(self.backups@)
    }
}

impl Clone for BackupStore {
    fn clone(&self) -> (out: Self)
        ensures
            out@ == self@,
    {
        let mut backups: Vec<MachineIdBackup> = Vec::new();
        let mut i: usize = 0;
        while i < self.backups.len()
            invariant
                i <= self.backups.len(),
                backups.len() == i,
                forall|j: int| 0 <= j < i ==> backups[j]@ == self.backups[j]@,
            decreases self.backups.len() - i,
        {
            backups.push(self.backups[i].clone());
            i = i + 1;
        }
        let out = BackupStore { backups };
        assert(out@ =~= self@);
        out
    }
}

impl BackupStore {
    /// The empty history.
    pub fn new() -> (store: Self)
        ensures
            store@ == Seq::<BackupRecord>::empty(),
    {
        let store = BackupStore { backups: Vec::new() };
        assert(store@ =~= Seq::<BackupRecord>::empty());
        store
    }

    /// Puts `backup` in front of all records kept so far.
    pub fn add_backup(&mut self, backup: MachineIdBackup)
        ensures
            final(self)@ == seq![backup@] + old(self)@,
    {
        self.backups.insert(0, backup);
        assert(self@ =~= seq![backup@] + old(self)@);
    }

    /// Takes out the first record whose id is `id` and returns it. When no
    /// record has that id the history stays as it is and the id comes back
    /// in the error.
    pub fn remove_backup(&mut self, id: &str) -> (removed: Result<MachineIdBackup, BackupError>)
        ensures
            match removed {
                Ok(backup) => {
                    &&& is_first_with_id(old(self)@, id@, position_by_id(old(self)@, id@))
                    &&& backup@ == old(self)@[position_by_id(old(self)@, id@)]
                    &&& final(self)@ == old(self)@.remove(position_by_id(old(self)@, id@))
                },
                Err(e) => {
                    &&& !contains_id(old(self)@, id@)
                    &&& e@ == BackupErrorView::BackupNotFound(id@)
                    &&& final(self)@ == old(self)@
                },
            },
    {
        let wanted = id.to_owned();
        let mut i: usize = 0;
        while i < self.backups.len()
            invariant
                i <= self.backups.len(),
                wanted@ == id@,
                *self == *old(self),
                forall|j: int| 0 <= j < i ==> (#[trigger] self@[j]).id != id@,
            decreases self.backups.len() - i,
        {
            if self.backups[i].id == wanted {
                proof {
                    assert(self@[i as int].id == id@);
                    lemma_first_with_id_unique(self@, id@, i as int);
                }
                let backup = self.backups.remove(i);
                assert(self@ =~= old(self)@.remove(i as int));
                return Ok(backup);
            }
            i = i + 1;
        }
        Err(BackupError::BackupNotFound(wanted))
    }

    /// The first record whose id is `id`, if there is one.
    pub fn get_backup(&self, id: &str) -> (found: Option<&MachineIdBackup>)
        ensures
            match found {
                Some(backup) => exists|i: int|
                    is_first_with_id(self@, id@, i) && backup@ == self@[i],
                None => !contains_id(self@, id@),
            },
            found.deep_view() == find_by_id(self@, id@),
    {
        let wanted = id.to_owned();
        let mut i: usize = 0;
        while i < self.backups.len()
            invariant
                i <= self.backups.len(),
                wanted@ == id@,
                forall|j: int| 0 <= j < i ==> (#[trigger] self@[j]).id != id@,
            decreases self.backups.len() - i,
        {
            if self.backups[i].id == wanted {
                proof {
                    assert(self@[i as int].id == id@);
                    lemma_first_with_id_unique(self@, id@, i as int);
                }
                return Some(&self.backups[i]);
            }
            i = i + 1;
        }
        None
    }

    /// How many records are kept.
    pub fn len(&self) -> (n: usize)
        ensures
            n == self@.len(),
    {
        self.backups.len()
    }

    /// Whether no record is kept.
    pub fn is_empty(&self) -> (empty: bool)
        ensures
            empty == (self@.len() == 0),
    {
        self.backups.len() == 0
    }

    /// Whether some record holds the value `guid`.
    pub fn has_guid(&self, guid: &str) -> (found: bool)
        ensures
            found == contains_guid(self@, guid@),
    {
        let wanted = guid.to_owned();
        let mut i: usize = 0;
        while i < self.backups.len()
            invariant
                i <= self.backups.len(),
                wanted@ == guid@,
                forall|j: int| 0 <= j < i ==> (#[trigger] self@[j]).guid != guid@,
            decreases self.backups.len() - i,
        {
            if self.backups[i].guid == wanted {
                assert(self@[i as int].guid == guid@);
                return true;
            }
            i = i + 1;
        }
        false
    }

    /// The most recent record that holds the value `guid`, if there is one.
    pub fn get_latest_backup_by_guid(&self, guid: &str) -> (found: Option<&MachineIdBackup>)
        ensures
            match found {
                Some(backup) => exists|i: int|
                    is_first_with_guid(self@, guid@, i) && backup@ == self@[i],
                None => !contains_guid(self@, guid@),
            },
            found.deep_view() == latest_by_guid(self@, guid@),
    {
        let wanted = guid.to_owned();
        let mut i: usize = 0;
        while i < self.backups.len()
            invariant
                i <= self.backups.len(),
                wanted@ == guid@,
                forall|j: int| 0 <= j < i ==> (#[trigger] self@[j]).guid != guid@,
            decreases self.backups.len() - i,
        {
            if self.backups[i].guid == wanted {
                proof {
                    assert(self@[i as int].guid == guid@);
                    lemma_first_with_guid_unique(self@, guid@, i as int);
                }
                return Some(&self.backups[i]);
            }
            i = i + 1;
        }
        None
    }
}

/// What the host found where the history is kept.
#[derive(Debug)]
pub enum Persisted {
    /// Nothing is kept there yet.
    Missing,
    /// The history that is kept there.
    Found(BackupStore),
    /// What is kept there could not be read as a history; the text says
    /// why.
    Unreadable(String),
}

/// A `Persisted` with its texts as sequences of characters.
pub enum PersistedView {
    Missing,
    Found(Seq<BackupRecord>),
    Unreadable(Seq<char>),
}

impl View for Persisted {
    type V = PersistedView;

    open spec fn view(&self) -> PersistedView {
        match self {
            Persisted::Missing => PersistedView::Missing,
            Persisted::Found(store) => PersistedView::Found(store@),
            Persisted::Unreadable(why) => PersistedView::Unreadable(why@),
        }
    }
}

/// The history as the host found it. A history that was never saved is
/// the empty history; one that cannot be read is a failure of the
/// storage.
pub fn load_backup_store(found: Persisted) -> (loaded: Result<BackupStore, BackupError>)
    ensures
        view_of_load(loaded) == (match found@ {
            PersistedView::Missing => Ok(Seq::<BackupRecord>::empty()),
            PersistedView::Found(store) => Ok(store),
            PersistedView::Unreadable(why) => Err(BackupErrorView::StorageError(why)),
        }),
{
    match found {
        Persisted::Missing => Ok(BackupStore::new()),
        Persisted::Found(store) => Ok(store),
        Persisted::Unreadable(why) => Err(BackupError::StorageError(why)),
    }
}

/// What the host's attempt to save the history came to: a failure, told
/// in the host's words, is a failure of the storage.
pub fn save_backup_store(saved: Result<(), String>) -> (done: Result<(), BackupError>)
    ensures
        view_of_done(done) == (match saved {
            Ok(_) => Ok(()),
            Err(why) => Err(BackupErrorView::StorageError(why@)),
        }),
{
    match saved {
        Ok(_) => Ok(()),
        Err(why) => Err(BackupError::StorageError(why)),
    }
}

/// The identifier as it was read, and where it was read from.
#[derive(Debug)]
pub struct MachineId {
    pub guid: String,
    pub source: String,
}

/// A `MachineId` with its texts as sequences of characters.
pub struct MachineIdView {
    pub guid: Seq<char>,
    pub source: Seq<char>,
}

impl View for MachineId {
    type V = MachineIdView;

    open spec fn view(&self) -> MachineIdView {
        MachineIdView { guid: self.guid@, source: self.source@ }
    }
}

impl Clone for MachineId {
    fn clone(&self) -> (out: Self)
        ensures
            out@ == self@,
    {
        MachineId { guid: self.guid.clone(), source: self.source.clone() }
    }
}

/// What a read of the identifier came to, with its texts as sequences of
/// characters.
pub open spec fn view_of_read(read: Result<MachineId, BackupError>) -> Result<
    MachineIdView,
    BackupErrorView,
> {
    match read {
        Ok(current) => Ok(current@),
        Err(e) => Err(e@),
    }
}

/// What a load of the history came to, with its texts as sequences of
/// characters.
pub open spec fn view_of_load(loaded: Result<BackupStore, BackupError>) -> Result<
    Seq<BackupRecord>,
    BackupErrorView,
> {
    match loaded {
        Ok(store) => Ok(store@),
        Err(e) => Err(e@),
    }
}

/// What a save or a write came to, with its texts as sequences of
/// characters.
pub open spec fn view_of_done(done: Result<(), BackupError>) -> Result<(), BackupErrorView> {
    match done {
        Ok(_) => Ok(()),
        Err(e) => Err(e@),
    }
}

/// `c` is one of `0`-`9`, `a`-`f`, `A`-`F`.
pub open spec fn is_hex_digit(c: char) -> bool {
    ('0' <= c && c <= '9') || ('a' <= c && c <= 'f') || ('A' <= c && c <= 'F')
}

/// The four places at which a canonical identifier has its dashes.
pub open spec fn is_dash_position(i: int) -> bool {
    i == 8 || i == 13 || i == 18 || i == 23
}

/// `s` has the canonical form: 36 characters, a dash at each of the four
/// dash positions and a hexadecimal digit of either case everywhere else.
pub open spec fn is_canonical_guid(s: Seq<char>) -> bool {
    &&& s.len() == 36
    &&& forall|i: int|
        0 <= i < 36 ==> if is_dash_position(i) {
            #[trigger] s[i] == '-'
        } else {
            is_hex_digit(s[i])
        }
}

/// The canonical form, and the three ways to miss it. A canonical
/// identifier has 36 characters. A text of another length is not
/// canonical, nor is one that lacks a dash at a dash position, nor one
/// that holds, anywhere else, a character that is no hexadecimal digit.
pub proof fn law_canonical_form(s: Seq<char>, i: int)
    ensures
        is_canonical_guid(s) ==> s.len() == 36,
        s.len() != 36 ==> !is_canonical_guid(s),
        0 <= i < s.len() && is_dash_position(i) && s[i] != '-' ==> !is_canonical_guid(s),
        0 <= i < s.len() && !is_dash_position(i) && !is_hex_digit(s[i]) ==> !is_canonical_guid(s),
{
}

fn hex_digit(c: char) -> (yes: bool)
    ensures
        yes == is_hex_digit(c),
{
    ('0' <= c && c <= '9') || ('a' <= c && c <= 'f') || ('A' <= c && c <= 'F')
}

/// Accepts exactly the canonical identifiers. Any other text is refused,
/// and comes back in the error.
pub fn validate_guid_format(guid: &str) -> (checked: Result<(), BackupError>)
    ensures
        match checked {
            Ok(_) => is_canonical_guid(guid@),
            Err(e) => !is_canonical_guid(guid@) && e@ == BackupErrorView::InvalidGuidFormat(guid@),
        },
{
    let chars = chars_of(guid);
    if chars.len() != 36 {
        return Err(BackupError::InvalidGuidFormat(guid.to_owned()));
    }
    let mut i: usize = 0;
    while i < 36
        invariant
            i <= 36,
            chars@ == guid@,
            chars@.len() == 36,
            forall|j: int|
                0 <= j < i ==> if is_dash_position(j) {
                    #[trigger] chars@[j] == '-'
                } else {
                    is_hex_digit(chars@[j])
                },
        decreases 36 - i,
    {
        let c = chars[i];
        let fits = if i == 8 || i == 13 || i == 18 || i == 23 {
            c == '-'
        } else {
            hex_digit(c)
        };
        if !fits {
            assert(!is_dash_position(i as int) ==> !is_hex_digit(guid@[i as int]));
            return Err(BackupError::InvalidGuidFormat(guid.to_owned()));
        }
        i = i + 1;
    }
    Ok(())
}

/// The lower-case hexadecimal digit that stands for `n`.
pub open spec fn hex_char(n: nat) -> char
    recommends
        n < 16,
{
    if n < 10 {
        (('0' as nat) + n) as char
    } else {
        (('a' as nat) + n - 10) as char
    }
}

/// Two lower-case hexadecimal digits for each byte, high half first.
pub open spec fn hex_of(bytes: Seq<u8>) -> Seq<char> {
    Seq::new(
        2 * bytes.len(),
        |i: int|
            if i % 2 == 0 {
                hex_char((bytes[i / 2] / 16) as nat)
            } else {
                hex_char((bytes[i / 2] % 16) as nat)
            },
    )
}

/// The identifier that sixteen bytes spell: their hexadecimal digits in
/// groups of 4, 2, 2, 2 and 6 bytes, with a dash between the groups.
pub open spec fn guid_of_bytes(bytes: Seq<u8>) -> Seq<char>
    recommends
        bytes.len() == 16,
{
    hex_of(bytes.subrange(0, 4)) + seq!['-'] + hex_of(bytes.subrange(4, 6)) + seq!['-'] + hex_of(
        bytes.subrange(6, 8),
    ) + seq!['-'] + hex_of(bytes.subrange(8, 10)) + seq!['-'] + hex_of(bytes.subrange(10, 16))
}

/// Whatever the sixteen bytes are, the identifier they spell is canonical.
pub proof fn lemma_guid_of_bytes_canonical(bytes: Seq<u8>)
    requires
        bytes.len() == 16,
    ensures
        is_canonical_guid(guid_of_bytes(bytes)),
{
    let g = guid_of_bytes(bytes);
    assert(g.len() == 36);
    assert forall|i: int| 0 <= i < 36 implies if is_dash_position(i) {
        #[trigger] g[i] == '-'
    } else {
        is_hex_digit(g[i])
    } by {
        if i < 8 {
            assert(g[i] == hex_of(bytes.subrange(0, 4))[i]);
        } else if i == 8 {
        } else if i < 13 {
            assert(g[i] == hex_of(bytes.subrange(4, 6))[i - 9]);
        } else if i == 13 {
        } else if i < 18 {
            assert(g[i] == hex_of(bytes.subrange(6, 8))[i - 14]);
        } else if i == 18 {
        } else if i < 23 {
            assert(g[i] == hex_of(bytes.subrange(8, 10))[i - 19]);
        } else if i == 23 {
        } else {
            assert(g[i] == hex_of(bytes.subrange(10, 16))[i - 24]);
        }
    }
}

fn hex_char_of(n: u8) -> (c: char)
    requires
        n < 16,
    ensures
        c == hex_char(n as nat),
{
    if n < 10 {
        (48u8 + n) as char
    } else {
        (87u8 + n) as char
    }
}

fn push_hex(out: &mut String, bytes: &[u8; 16], from: usize, to: usize)
    requires
        from <= to <= 16,
    ensures
        final(out)@ == old(out)@ + hex_of(bytes@.subrange(from as int, to as int)),
{
    let mut i: usize = from;
    assert(hex_of(bytes@.subrange(from as int, from as int)) =~= Seq::<char>::empty());
    while i < to
        invariant
            from <= i <= to <= 16,
            out@ == old(out)@ + hex_of(bytes@.subrange(from as int, i as int)),
        decreases to - i,
    {
        let b = bytes[i];
        push_char(out, hex_char_of(b / 16));
        push_char(out, hex_char_of(b % 16));
        proof {
            let before = hex_of(bytes@.subrange(from as int, i as int));
            let after = hex_of(bytes@.subrange(from as int, i + 1));
            let high = hex_char((b / 16) as nat);
            let low = hex_char((b % 16) as nat);
            assert(after =~= before.push(high).push(low));
            assert(out@ =~= old(out)@ + after);
        }
        i = i + 1;
    }
}

/// Spells sixteen bytes as an identifier.
pub fn format_guid(bytes: &[u8; 16]) -> (guid: String)
    ensures
        guid@ == guid_of_bytes(bytes@),
        is_canonical_guid(guid@),
{
    let mut guid = String::new();
    push_hex(&mut guid, bytes, 0, 4);
    push_char(&mut guid, '-');
    push_hex(&mut guid, bytes, 4, 6);
    push_char(&mut guid, '-');
    push_hex(&mut guid, bytes, 6, 8);
    push_char(&mut guid, '-');
    push_hex(&mut guid, bytes, 8, 10);
    push_char(&mut guid, '-');
    push_hex(&mut guid, bytes, 10, 16);
    proof {
        assert(guid@ =~= guid_of_bytes(bytes@));
        lemma_guid_of_bytes_canonical(bytes@);
    }
    guid
}

/// The thread's random number generator, `rand::rngs::ThreadRng`. It is
/// carried from the call that hands it out to the call that draws from
/// it; nothing is known of what is inside.
#[verifier::external_type_specification]
#[verifier::external_body]
pub struct ExThreadRng(rand::rngs::ThreadRng);

/// `rand::thread_rng` hands out the thread's generator. Nothing is claimed
/// of it. The function panics where the operating system gives no seed
/// for the generator's first use in a thread.
pub assume_specification[ rand::thread_rng ]() -> (rng: rand::rngs::ThreadRng)
;

/// Sixteen bytes drawn from the generator.
///
/// Trusted: the body is `rand::Rng::gen` for an array of sixteen bytes.
/// The bytes depend on chance, so nothing is claimed of them.
#[verifier::external_body]
fn random_bytes(rng: &mut rand::rngs::ThreadRng) -> (bytes: [u8; 16]) {
    rand::Rng::gen(rng)
}

/// A fresh identifier spelled from sixteen random bytes. It is canonical
/// whatever the bytes were, with its digits in lower case.
pub fn generate_random_guid() -> (guid: String)
    ensures
        is_canonical_guid(guid@),
        exists|bytes: Seq<u8>| bytes.len() == 16 && guid@ == guid_of_bytes(bytes),
{
    let mut rng = rand::thread_rng();
    let bytes = random_bytes(&mut rng);
    format_guid(&bytes)
}

/// The hexadecimal digits of the identifier that was read, without its
/// dashes. A failed read is handed on unchanged.
pub fn read_machine_guid_bytes(read: Result<MachineId, BackupError>) -> (digits: Result<
    String,
    BackupError,
>)
    ensures
        match (read, digits) {
            (Ok(machine_id), Ok(text)) => text@ == machine_id.guid@.filter(|c: char| c != '-'),
            (Err(e), Err(f)) => f@ == e@,
            _ => false,
        },
{
    match read {
        Ok(machine_id) => {
            let chars = chars_of(machine_id.guid.as_str());
            let mut text = String::new();
            let mut i: usize = 0;
            let ghost keep = |c: char| c != '-';
            assert(chars@.subrange(0, 0) =~= Seq::<char>::empty());
            while i < chars.len()
                invariant
                    i <= chars.len(),
                    keep == |c: char| c != '-',
                    text@ == chars@.subrange(0, i as int).filter(keep),
                decreases chars.len() - i,
            {
                let c = chars[i];
                proof {
                    let next = chars@.subrange(0, i + 1);
                    assert(next.drop_last() =~= chars@.subrange(0, i as int));
                    assert(next.last() == c);
                    reveal(Seq::filter);
                }
                if c != '-' {
                    push_char(&mut text, c);
                }
                i = i + 1;
            }
            assert(chars@.subrange(0, chars@.len() as int) =~= chars@);
            Ok(text)
        },
        Err(e) => Err(e),
    }
}

/// Whether the registry lets the process write the identifier: only on
/// Windows, and only where the key could be opened for writing.
pub fn check_admin_permissions(platform: Platform, probe: &RegistryProbe) -> (allowed: bool)
    ensures
        allowed == (platform == Platform::Windows && probe@ is Opened),
{
    match platform {
        Platform::Windows => match probe {
            RegistryProbe::Opened => true,
            _ => false,
        },
        _ => false,
    }
}

/// Says why the process may not write the identifier, if it may not: a
/// denied access, and any platform but Windows, count as missing
/// permission; another failure comes back in its own words.
pub fn test_registry_write_access(platform: Platform, probe: RegistryProbe) -> (access: Result<
    (),
    BackupError,
>)
    ensures
        match access {
            Ok(_) => platform == Platform::Windows && probe@ is Opened,
            Err(e) => if platform != Platform::Windows {
                e@ == BackupErrorView::InsufficientPermissions
            } else {
                match probe@ {
                    RegistryProbeView::Opened => false,
                    RegistryProbeView::Denied => e@ == BackupErrorView::InsufficientPermissions,
                    RegistryProbeView::Failed { message, .. } => e@
                        == BackupErrorView::RegistryWriteError(message),
                }
            },
        },
{
    match platform {
        Platform::Windows => {},
        _ => {
            return Err(BackupError::InsufficientPermissions);
        },
    }
    match probe {
        RegistryProbe::Opened => Ok(()),
        RegistryProbe::Denied => Err(BackupError::InsufficientPermissions),
        RegistryProbe::Failed { message, detail: _, kind: _ } => Err(
            BackupError::RegistryWriteError(message),
        ),
    }
}

} // verus!
